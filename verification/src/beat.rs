//! Beat bookkeeping: the process-wide mute gate and the beat-clock
//! counter fed by the external control-deck messages.
//!
//! The deck sends a pulse message many times per musical beat; the
//! counter emits one beat event every `TICKS_PER_BEAT` pulses. Volume
//! messages only update the last-known volume. The surrounding
//! application receives the raw network messages and hands them in as
//! plain `TraktorMessage` values.

use vstd::prelude::*;

verus! {

/// How many deck pulses make one emitted beat event.
pub const TICKS_PER_BEAT: i64 = 24;

/// The process-wide mute gate: while set, beat events are still
/// delivered but must produce no beat-triggered side effects.
pub struct BeatMute {
    pub mute: bool,
}

impl Default for BeatMute {
    /// The mute starts released.
    fn default() -> (r: Self)
        ensures
            !r.mute,
    {
        BeatMute { mute: false }
    }
}

/// One message from the control deck, already stripped to the values
/// the beat clock reads.
#[derive(Clone, Copy, Debug, PartialEq, Eq, Structural)]
pub enum TraktorMessage {
    /// One clock pulse.
    Beat,
    /// A volume report.
    Volume(i64),
    /// Anything else the deck sends; ignored.
    Other,
}

/// The running beat clock: pulses since the last emitted beat, and the
/// last reported volume.
#[derive(Clone, Copy, Debug, PartialEq, Eq, Structural)]
pub struct TraktorBeat {
    pub count: i64,
    pub last_volume: i64,
}

impl Default for TraktorBeat {
    /// A clock at rest.
    fn default() -> (r: Self)
        ensures
            r == (TraktorBeat { count: 0, last_volume: 0 }),
    {
        TraktorBeat { count: 0, last_volume: 0 }
    }
}

impl TraktorBeat {
    /// Applies one deck message: a pulse advances the counter, a volume
    /// report is stored, and whenever the counter has reached
    /// `TICKS_PER_BEAT` — also through outside adjustment — it wraps to
    /// zero and one beat event is owed, which the return value reports.
    pub fn apply_message(&mut self, msg: TraktorMessage) -> (emit: bool)
        requires
            old(self).count < i64::MAX,
        ensures
            ({
                let c: int = match msg {
                    TraktorMessage::Beat => old(self).count + 1,
                    _ => old(self).count as int,
                };
                &&& emit == (c >= TICKS_PER_BEAT)
                &&& final(self).count == (if c >= TICKS_PER_BEAT {
                    0int
                } else {
                    c
                })
                &&& final(self).last_volume == (match msg {
                    TraktorMessage::Volume(v) => v as int,
                    _ => old(self).last_volume as int,
                })
            }),
            final(self).count < TICKS_PER_BEAT,
    {
        match msg {
            TraktorMessage::Beat => {
                self.count = self.count + 1;
            },
            TraktorMessage::Volume(v) => {
                self.last_volume = v;
            },
            TraktorMessage::Other => {},
        }
        if self.count >= TICKS_PER_BEAT {
            self.count = 0;
            true
        } else {
            false
        }
    }
}

} // verus!
