//! Beat-driven randomization of the spinning-chip scene.
//!
//! The chip model is posed by one of three modes: a resting pose, a
//! fixed Euler rotation, or a constant rotation rate. On each
//! non-muted beat, if randomization is on, the active mode's triple is
//! redrawn: a fixed pose uniformly over full turns scaled by the
//! configured range, a rate uniformly over the range itself. The
//! actual transform math happens in the rendering host; this module
//! owns the state and the draws.

use vstd::prelude::*;

use crate::num::{mul_div, mul_div_spec, val_ok, UNIT, VAL_MAX};
use crate::sample::{sample_range, sampled_from};

verus! {

/// One full turn (two pi) in milli-units.
pub const TAU_MILLI: i64 = 6283;

/// How the chip model is posed.
#[derive(Clone, Copy, Debug, PartialEq, Eq, Structural)]
pub enum ChipSpinState {
    /// The hard-coded resting pose.
    Resting,
    /// A fixed Euler rotation, from the `fixed` triple.
    Fixed,
    /// A constant rotation rate, from the `rate` triple.
    Rate,
}

/// The chip-spin scene state: pose mode, pose parameters, and the
/// beat-randomization configuration.
pub struct ChipSpinStateResource {
    pub state: ChipSpinState,
    /// Euler angles of the fixed pose.
    pub fixed: (i64, i64, i64),
    /// Rotation rate per second around each axis.
    pub rate: (i64, i64, i64),
    /// Whether the chip cards are shown.
    pub visible: bool,
    /// Whether beats bounce the card scale with the audio volume.
    pub jump: bool,
    /// Gain of the volume bounce.
    pub pt1_strength: i64,
    /// Time constant of the card-scale smoothing.
    pub pt1_t: i64,
    /// Whether beats redraw the active pose triple.
    pub rand: bool,
    /// Upper bound of the random draws, in units.
    pub rand_range: i64,
}

impl ChipSpinStateResource {
    /// Well-formed state: all scalars bounded, the draw range
    /// non-negative and small enough that a full-turn scaling stays in
    /// range, and a non-negative smoothing time constant.
    pub open spec fn wf(&self) -> bool {
        &&& val_ok(self.fixed.0 as int) && val_ok(self.fixed.1 as int) && val_ok(
            self.fixed.2 as int,
        )
        &&& val_ok(self.rate.0 as int) && val_ok(self.rate.1 as int) && val_ok(
            self.rate.2 as int,
        )
        &&& 0 <= self.pt1_strength <= VAL_MAX
        &&& 0 <= self.pt1_t <= VAL_MAX
        &&& 0 <= self.rand_range <= 1_000_000
    }

    /// The exclusive upper bound of a fixed-pose draw: the configured
    /// range scaled to full turns.
    pub open spec fn fixed_bound(&self) -> int {
        mul_div_spec(self.rand_range as int, TAU_MILLI as int, UNIT as int)
    }
}

impl Default for ChipSpinStateResource {
    /// Spinning slowly around one axis, visible, no randomization.
    fn default() -> (r: Self)
        ensures
            r.wf(),
            r.state == ChipSpinState::Rate,
            !r.rand,
            !r.jump,
    {
        ChipSpinStateResource {
            state: ChipSpinState::Rate,
            fixed: (0, 0, 0),
            rate: (250, 0, 0),
            visible: true,
            jump: false,
            pt1_strength: UNIT,
            pt1_t: 200,
            rand: false,
            rand_range: 2 * 1000,
        }
    }
}

impl ChipSpinStateResource {
    /// Drains this tick's beat events: on each non-muted beat with
    /// randomization on, redraws the active pose triple — the fixed
    /// pose over scaled full turns, the rate over the plain range. All
    /// other fields, and the inactive triple, are untouched.
    pub fn beat_resample(&mut self, n_beats: usize, muted: bool)
        requires
            old(self).wf(),
        ensures
            final(self).wf(),
            ({
                let s0 = *old(self);
                let k: nat = if muted {
                    0
                } else {
                    n_beats as nat
                };
                &&& final(self).state == s0.state
                &&& final(self).visible == s0.visible
                &&& final(self).jump == s0.jump
                &&& final(self).pt1_strength == s0.pt1_strength
                &&& final(self).pt1_t == s0.pt1_t
                &&& final(self).rand == s0.rand
                &&& final(self).rand_range == s0.rand_range
                &&& (k == 0 || !s0.rand ==> final(self).fixed == s0.fixed && final(self).rate
                    == s0.rate)
                &&& (s0.state == ChipSpinState::Resting ==> final(self).fixed == s0.fixed
                    && final(self).rate == s0.rate)
                &&& (k >= 1 && s0.rand && s0.state == ChipSpinState::Fixed ==> {
                    &&& final(self).rate == s0.rate
                    &&& sampled_from(final(self).fixed.0 as int, 0, s0.fixed_bound())
                    &&& sampled_from(final(self).fixed.1 as int, 0, s0.fixed_bound())
                    &&& sampled_from(final(self).fixed.2 as int, 0, s0.fixed_bound())
                })
                &&& (k >= 1 && s0.rand && s0.state == ChipSpinState::Rate ==> {
                    &&& final(self).fixed == s0.fixed
                    &&& sampled_from(final(self).rate.0 as int, 0, s0.rand_range as int)
                    &&& sampled_from(final(self).rate.1 as int, 0, s0.rand_range as int)
                    &&& sampled_from(final(self).rate.2 as int, 0, s0.rand_range as int)
                })
            }),
    {
        let ghost s0 = *self;
        if muted || !self.rand {
            return ;
        }
        let mut b: usize = 0;
        while b < n_beats
            invariant
                b <= n_beats,
                self.wf(),
                s0.wf(),
                self.state == s0.state,
                self.visible == s0.visible,
                self.jump == s0.jump,
                self.pt1_strength == s0.pt1_strength,
                self.pt1_t == s0.pt1_t,
                self.rand == s0.rand,
                self.rand_range == s0.rand_range,
                b == 0 ==> self.fixed == s0.fixed && self.rate == s0.rate,
                s0.state == ChipSpinState::Resting ==> self.fixed == s0.fixed && self.rate
                    == s0.rate,
                s0.state == ChipSpinState::Fixed ==> self.rate == s0.rate,
                s0.state == ChipSpinState::Rate ==> self.fixed == s0.fixed,
                b >= 1 && s0.state == ChipSpinState::Fixed ==> sampled_from(
                    self.fixed.0 as int,
                    0,
                    s0.fixed_bound(),
                ) && sampled_from(self.fixed.1 as int, 0, s0.fixed_bound()) && sampled_from(
                    self.fixed.2 as int,
                    0,
                    s0.fixed_bound(),
                ),
                b >= 1 && s0.state == ChipSpinState::Rate ==> sampled_from(
                    self.rate.0 as int,
                    0,
                    s0.rand_range as int,
                ) && sampled_from(self.rate.1 as int, 0, s0.rand_range as int) && sampled_from(
                    self.rate.2 as int,
                    0,
                    s0.rand_range as int,
                ),
            decreases n_beats - b,
        {
            match self.state {
                ChipSpinState::Fixed => {
                    let bound = mul_div(self.rand_range, TAU_MILLI, UNIT);
                    proof {
                        vstd::arithmetic::div_mod::lemma_div_is_ordered(
                            self.rand_range * TAU_MILLI,
                            1_000_000 * TAU_MILLI,
                            UNIT as int,
                        );
                    }
                    self.fixed = (sample_range(0, bound), sample_range(0, bound), sample_range(
                        0,
                        bound,
                    ));
                },
                ChipSpinState::Rate => {
                    self.rate = (sample_range(0, self.rand_range), sample_range(
                        0,
                        self.rand_range,
                    ), sample_range(0, self.rand_range));
                },
                ChipSpinState::Resting => {},
            }
            b += 1;
        }
    }
}

/// The scale the chip cards jump to on a beat: the card on the
/// negative side mirrors in x. The bounce strength is the last deck
/// volume (zero to 128) scaled by the configured gain.
pub fn card_jump_scale(volume: i64, pt1_strength: i64, x_positive: bool) -> (r: (i64, i64))
    requires
        0 <= volume <= 128,
        0 <= pt1_strength <= VAL_MAX,
    ensures
        ({
            let s = mul_div_spec(volume as int, pt1_strength as int, 128);
            &&& r.1 == UNIT + s
            &&& r.0 == (if x_positive {
                UNIT + s
            } else {
                -(UNIT + s)
            })
        }),
{
    let s = mul_div(volume, pt1_strength, 128);
    proof {
        assert(0 <= volume * pt1_strength <= 128 * (VAL_MAX as int)) by (nonlinear_arith)
            requires
                0 <= volume <= 128,
                0 <= pt1_strength <= VAL_MAX,
        ;
        vstd::arithmetic::div_mod::lemma_div_pos_is_pos(volume * pt1_strength, 128);
        vstd::arithmetic::div_mod::lemma_div_is_ordered(
            volume * pt1_strength,
            128 * (VAL_MAX as int),
            128,
        );
        vstd::arithmetic::div_mod::lemma_div_multiples_vanish(VAL_MAX as int, 128);
    }
    let y = UNIT + s;
    if x_positive {
        (y, y)
    } else {
        (-y, y)
    }
}

} // verus!
