//! The beat-gated wipe trigger engine.
//!
//! The engine counts non-muted beat events against a beat divisor and
//! fires on every `beat_div`-th beat. On a firing beat it refreshes a
//! persistent pending `WipeEvent` template: each field whose randomize
//! flag is set is resampled from its configured range, fields with the
//! flag clear keep their previous value (the shape falls back to the
//! configured fixed shape), and, if emission is enabled, a copy of the
//! template is emitted.

use vstd::prelude::*;

use crate::num::{val_ok, VAL_MAX};
use crate::sample::{
    normalize_int_range, sample_int_range, sample_range, sampled_from, widened_end,
    lemma_widen_idempotent,
};
use crate::wipe::{sample_shape, WipeEvent, WipeShape, STEPS_MAX};

verus! {

/// Configuration and gating state of the wipe trigger engine. All
/// fields are freely written from outside between ticks; the engine
/// itself advances `beat_count` and repairs `steps_hi`.
pub struct WipeAutomationControls {
    /// Whether firing beats emit the pending event.
    pub on_beat: bool,
    /// Whether a firing beat draws a fresh shape.
    pub randomize_shape: bool,
    /// The fixed shape used while `randomize_shape` is clear.
    pub shape: WipeShape,
    /// Whether a firing beat draws a fresh step count.
    pub randomize_steps: bool,
    /// Start of the step-count range.
    pub steps_lo: i64,
    /// End of the step-count range; widened to `steps_lo + 1` when empty.
    pub steps_hi: i64,
    /// Whether a firing beat draws a fresh start size.
    pub randomize_min: bool,
    /// Start-size range.
    pub min_lo: i64,
    pub min_hi: i64,
    /// Whether a firing beat draws a fresh end size.
    pub randomize_max: bool,
    /// End-size range.
    pub max_lo: i64,
    pub max_hi: i64,
    /// Configured wipe duration for externally built events.
    pub wipe_time: i64,
    /// Fire on every `beat_div`-th beat.
    pub beat_div: usize,
    /// Beats absorbed since the engine last fired.
    pub beat_count: usize,
}

impl WipeAutomationControls {
    /// Well-formed controls: scalar fields bounded, the step range able
    /// to produce a legal step count, and the gating counters bounded.
    pub open spec fn wf(&self) -> bool {
        &&& val_ok(self.min_lo as int)
        &&& val_ok(self.min_hi as int)
        &&& val_ok(self.max_lo as int)
        &&& val_ok(self.max_hi as int)
        &&& 0 <= self.wipe_time <= VAL_MAX
        &&& 1 <= self.steps_lo < STEPS_MAX
        &&& 0 <= self.steps_hi <= STEPS_MAX
        &&& self.beat_div <= 1_000_000_000
        &&& self.beat_count <= 1_000_000_000
    }

    /// The fields the engine never writes: everything but `beat_count`
    /// and the repaired `steps_hi`.
    pub open spec fn config_unchanged(&self, other: &WipeAutomationControls) -> bool {
        &&& self.on_beat == other.on_beat
        &&& self.randomize_shape == other.randomize_shape
        &&& self.shape == other.shape
        &&& self.randomize_steps == other.randomize_steps
        &&& self.steps_lo == other.steps_lo
        &&& self.randomize_min == other.randomize_min
        &&& self.min_lo == other.min_lo
        &&& self.min_hi == other.min_hi
        &&& self.randomize_max == other.randomize_max
        &&& self.max_lo == other.max_lo
        &&& self.max_hi == other.max_hi
        &&& self.wipe_time == other.wipe_time
        &&& self.beat_div == other.beat_div
    }
}

impl Default for WipeAutomationControls {
    /// Fire on every beat, all randomization enabled: five to fifteen
    /// steps, start sizes in ten to forty units, end sizes in twenty to
    /// fifty units, and a half-second configured duration.
    fn default() -> (r: Self)
        ensures
            r.wf(),
            r.beat_div == 1,
            r.beat_count == 0,
            !r.on_beat,
    {
        WipeAutomationControls {
            on_beat: false,
            randomize_shape: true,
            shape: WipeShape::Circle,
            randomize_steps: true,
            steps_lo: 5,
            steps_hi: 15,
            randomize_min: true,
            min_lo: 10_000,
            min_hi: 40_000,
            randomize_max: true,
            max_lo: 20_000,
            max_hi: 50_000,
            wipe_time: 500,
            beat_div: 1,
            beat_count: 0,
        }
    }
}

/// The gating counter after one beat: it wraps to zero — and the engine
/// fires — as soon as it would reach the beat divisor.
pub open spec fn gate_step(c: int, div: int) -> int {
    if c + 1 >= div {
        0
    } else {
        c + 1
    }
}

/// The gating counter after `n` beats.
pub open spec fn beat_count_after(c: int, div: int, n: nat) -> int
    decreases n,
{
    if n == 0 {
        c
    } else {
        beat_count_after(gate_step(c, div), div, (n - 1) as nat)
    }
}

/// How many of `n` beats fire, starting from counter `c`.
pub open spec fn wipe_fires(c: int, div: int, n: nat) -> int
    decreases n,
{
    if n == 0 {
        0
    } else {
        (if c + 1 >= div {
            1int
        } else {
            0int
        }) + wipe_fires(gate_step(c, div), div, (n - 1) as nat)
    }
}

/// Beat division law: from a counter below the divisor, `n` beats fire
/// exactly `(c + n) / beat_div` times and leave the counter at
/// `(c + n) % beat_div`.
pub proof fn lemma_beat_division(c: int, div: int, n: nat)
    requires
        1 <= div,
        0 <= c < div,
    ensures
        beat_count_after(c, div, n) == (c + n) % div,
        wipe_fires(c, div, n) == (c + n) / div,
    decreases n,
{
    if n == 0 {
        vstd::arithmetic::div_mod::lemma_small_mod(c as nat, div as nat);
        vstd::arithmetic::div_mod::lemma_basic_div(c, div);
    } else {
        let m = (n - 1) as nat;
        if c + 1 < div {
            lemma_beat_division(c + 1, div, m);
        } else {
            lemma_beat_division(0, div, m);
            vstd::arithmetic::div_mod::lemma_div_plus_one(m as int, div);
            vstd::arithmetic::div_mod::lemma_mod_add_multiples_vanish(m as int, div);
        }
    }
}

/// What holds of the pending template, and of every emitted copy, once
/// at least one beat has fired: fields with a clear randomize flag kept
/// their previous value (the shape reverted to the fixed one), fields
/// with a set flag were drawn from their configured range, and the
/// duration is never touched.
pub open spec fn fired_event_ok(
    e: WipeEvent,
    cfg: WipeAutomationControls,
    prev: WipeEvent,
) -> bool {
    &&& e.duration == prev.duration
    &&& if cfg.randomize_min {
        sampled_from(e.start_size as int, cfg.min_lo as int, cfg.min_hi as int)
    } else {
        e.start_size == prev.start_size
    }
    &&& if cfg.randomize_max {
        sampled_from(e.end_size as int, cfg.max_lo as int, cfg.max_hi as int)
    } else {
        e.end_size == prev.end_size
    }
    &&& if cfg.randomize_steps {
        cfg.steps_lo <= e.steps < widened_end(cfg.steps_lo as int, cfg.steps_hi as int)
    } else {
        e.steps == prev.steps
    }
    &&& if cfg.randomize_shape {
        true
    } else {
        e.shape == cfg.shape
    }
}

/// One tick of the wipe trigger engine: drains `n_beats` pre-buffered
/// beat events in order. Muted ticks change nothing and emit nothing.
/// Otherwise each beat advances the beat counter; each firing beat refreshes
/// the pending template and, if `on_beat` is set, emits a copy of it.
pub fn wipe_tick(
    controls: &mut WipeAutomationControls,
    pending: &mut WipeEvent,
    n_beats: usize,
    muted: bool,
) -> (out: Vec<WipeEvent>)
    requires
        old(controls).wf(),
        old(pending).wf(),
    ensures
        final(controls).wf(),
        final(pending).wf(),
        muted || n_beats == 0 ==> *final(controls) == *old(controls) && *final(pending) == *old(
            pending,
        ) && out@.len() == 0,
        !muted ==> {
            let c0 = *old(controls);
            let p0 = *old(pending);
            let fires = wipe_fires(c0.beat_count as int, c0.beat_div as int, n_beats as nat);
            &&& final(controls).config_unchanged(&c0)
            &&& final(controls).beat_count == beat_count_after(
                c0.beat_count as int,
                c0.beat_div as int,
                n_beats as nat,
            )
            &&& out@.len() == (if c0.on_beat {
                fires
            } else {
                0
            })
            &&& (fires == 0 ==> *final(pending) == p0 && final(controls).steps_hi == c0.steps_hi)
            &&& (fires >= 1 ==> fired_event_ok(*final(pending), c0, p0))
            &&& (fires >= 1 && c0.randomize_steps ==> final(controls).steps_hi == widened_end(
                c0.steps_lo as int,
                c0.steps_hi as int,
            ))
            &&& (fires >= 1 && !c0.randomize_steps ==> final(controls).steps_hi == c0.steps_hi)
            &&& (forall|j: int|
                0 <= j < out@.len() ==> fired_event_ok(#[trigger] out@[j], c0, p0) && out@[j].wf())
            &&& (out@.len() >= 1 ==> out@.last() == *final(pending))
        },
{
    let mut out: Vec<WipeEvent> = Vec::new();
    if muted || n_beats == 0 {
        return out;
    }
    let ghost c0 = *controls;
    let ghost p0 = *pending;
    let mut b: usize = 0;
    while b < n_beats
        invariant
            b <= n_beats,
            controls.wf(),
            pending.wf(),
            c0.wf(),
            p0.wf(),
            controls.config_unchanged(&c0),
            controls.beat_count == beat_count_after(
                c0.beat_count as int,
                c0.beat_div as int,
                b as nat,
            ),
            wipe_fires(c0.beat_count as int, c0.beat_div as int, b as nat) >= 0,
            out@.len() == (if c0.on_beat {
                wipe_fires(c0.beat_count as int, c0.beat_div as int, b as nat)
            } else {
                0
            }),
            wipe_fires(c0.beat_count as int, c0.beat_div as int, b as nat) == 0 ==> *pending == p0
                && controls.steps_hi == c0.steps_hi,
            wipe_fires(c0.beat_count as int, c0.beat_div as int, b as nat) >= 1 ==> fired_event_ok(
                *pending,
                c0,
                p0,
            ),
            wipe_fires(c0.beat_count as int, c0.beat_div as int, b as nat) >= 1
                && c0.randomize_steps ==> controls.steps_hi == widened_end(
                c0.steps_lo as int,
                c0.steps_hi as int,
            ),
            wipe_fires(c0.beat_count as int, c0.beat_div as int, b as nat) >= 1
                && !c0.randomize_steps ==> controls.steps_hi == c0.steps_hi,
            forall|j: int|
                0 <= j < out@.len() ==> fired_event_ok(#[trigger] out@[j], c0, p0) && out@[j].wf(),
            out@.len() >= 1 ==> out@.last() == *pending,
        decreases n_beats - b,
    {
        let mut fired = false;
        controls.beat_count = controls.beat_count + 1;
        if controls.beat_count >= controls.beat_div {
            controls.beat_count = 0;
            fired = true;
        }
        proof {
            lemma_gate_snoc(c0.beat_count as int, c0.beat_div as int, b as nat);
        }
        if fired {
            if controls.randomize_min {
                pending.start_size = sample_range(controls.min_lo, controls.min_hi);
            }
            if controls.randomize_max {
                pending.end_size = sample_range(controls.max_lo, controls.max_hi);
            }
            if controls.randomize_steps {
                proof {
                    lemma_widen_idempotent(c0.steps_lo as int, c0.steps_hi as int);
                }
                let (lo, hi) = normalize_int_range(controls.steps_lo, controls.steps_hi);
                controls.steps_hi = hi;
                pending.steps = sample_int_range(lo, hi);
            }
            if controls.randomize_shape {
                pending.shape = sample_shape();
            } else {
                pending.shape = controls.shape;
            }
            if controls.on_beat {
                out.push(*pending);
            }
        }
        b += 1;
    }
    out
}

/// Unfolds one beat at the end of the gating recursion: after `n + 1`
/// beats the counter is the stepped counter of `n` beats, and the beat
/// fires exactly when that step wraps to zero.
proof fn lemma_gate_snoc(c: int, div: int, n: nat)
    ensures
        beat_count_after(c, div, (n + 1) as nat) == gate_step(
            beat_count_after(c, div, n),
            div,
        ),
        wipe_fires(c, div, (n + 1) as nat) == wipe_fires(c, div, n) + (if beat_count_after(
            c,
            div,
            n,
        ) + 1 >= div {
            1int
        } else {
            0int
        }),
    decreases n,
{
    let g = gate_step(c, div);
    let ind: int = if c + 1 >= div {
        1
    } else {
        0
    };
    assert(beat_count_after(c, div, (n + 1) as nat) == beat_count_after(g, div, n));
    assert(wipe_fires(c, div, (n + 1) as nat) == ind + wipe_fires(g, div, n));
    if n == 0 {
        assert(beat_count_after(g, div, 0) == g);
        assert(wipe_fires(g, div, 0) == 0);
    } else {
        lemma_gate_snoc(g, div, (n - 1) as nat);
        assert(beat_count_after(c, div, n) == beat_count_after(g, div, (n - 1) as nat));
        assert(wipe_fires(c, div, n) == ind + wipe_fires(g, div, (n - 1) as nat));
    }
}

} // verus!
