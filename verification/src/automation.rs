//! The per-frame parameter automation engine.
//!
//! Once per rendered frame the engine smooths the beat-pulse fields,
//! drains the frame's beat events in order, and smooths the
//! general-purpose slots toward their (possibly just-resampled) raw
//! values. On each non-muted beat every color-rotation channel and
//! general-purpose slot whose randomize flag is set is resampled
//! uniformly from its configured range, the beat-pulse fields are set
//! to one unit, the beat accumulator grows by slot one's current raw
//! value (saturating at the scalar bound), and, if enabled, a fresh
//! palette index differing from the current one is drawn.

use vstd::prelude::*;

use crate::num::{sat_add, sat_add_spec, val_ok, UNIT, VAL_MAX};
use crate::pt1::{pt1_next, pt1_step};
use crate::sample::{sample_palette_excluding, sample_range, sampled_from};

verus! {

/// How many selectable shader palettes exist.
pub const PALETTE_COUNT: i64 = 6;

/// How many color-rotation channels the material has.
pub const COL_CHANNELS: usize = 4;

/// How many general-purpose randomizable slots the material has.
pub const RAND_SLOTS: usize = 8;

/// Per-channel randomization configuration: whether beats resample the
/// channel, and the range the draw comes from.
#[derive(Clone, Copy, Debug, PartialEq, Eq, Structural)]
pub struct RandConfig {
    pub enabled: bool,
    pub lo: i64,
    pub hi: i64,
}

impl RandConfig {
    /// A configuration with bounded range endpoints.
    pub open spec fn wf(&self) -> bool {
        &&& val_ok(self.lo as int)
        &&& val_ok(self.hi as int)
    }
}

/// What one beat leaves in a randomizable channel: a fresh draw from
/// the configured range when enabled, the previous value otherwise.
pub open spec fn resampled(newv: int, oldv: int, cfg: RandConfig) -> bool {
    if cfg.enabled {
        sampled_from(newv, cfg.lo as int, cfg.hi as int)
    } else {
        newv == oldv
    }
}

/// What `k` beats leave in a randomizable channel: untouched while no
/// beat arrived or the flag is clear, otherwise some draw from the
/// configured range (the last of the `k`).
pub open spec fn resampled_n(newv: int, oldv: int, cfg: RandConfig, k: nat) -> bool {
    if k == 0 || !cfg.enabled {
        newv == oldv
    } else {
        sampled_from(newv, cfg.lo as int, cfg.hi as int)
    }
}

/// The beat accumulator after `k` beats that each add the same raw
/// value, saturating at the scalar bound.
pub open spec fn accum_after(a0: int, v: int, k: nat) -> int
    decreases k,
{
    if k == 0 {
        a0
    } else {
        sat_add_spec(accum_after(a0, v, (k - 1) as nat), v)
    }
}

/// UI-owned configuration of the automation engine: the engine reads
/// it and never writes it.
pub struct FeedbackControlsAutomation {
    /// Randomization of the four color-rotation channels.
    pub col: Vec<RandConfig>,
    /// Randomization of the eight general-purpose slots.
    pub rand: Vec<RandConfig>,
    /// Per-slot smoothing time constants for the eight slots.
    pub pt1: Vec<i64>,
    /// Time constant smoothing the two beat-pulse fields.
    pub beatpt1: i64,
    /// Whether beats draw a fresh palette index.
    pub rand_pal: bool,
}

impl FeedbackControlsAutomation {
    /// Well-formed controls: one entry per channel and slot, bounded
    /// ranges, and non-negative bounded time constants.
    pub open spec fn wf(&self) -> bool {
        &&& self.col@.len() == COL_CHANNELS
        &&& self.rand@.len() == RAND_SLOTS
        &&& self.pt1@.len() == RAND_SLOTS
        &&& forall|i: int| 0 <= i < COL_CHANNELS ==> (#[trigger] self.col@[i]).wf()
        &&& forall|i: int| 0 <= i < RAND_SLOTS ==> (#[trigger] self.rand@[i]).wf()
        &&& forall|i: int| 0 <= i < RAND_SLOTS ==> 0 <= #[trigger] self.pt1@[i] <= VAL_MAX
        &&& 0 <= self.beatpt1 <= VAL_MAX
    }
}

impl Default for FeedbackControlsAutomation {
    /// All randomization off; unit ranges (the fourth color channel
    /// gets a narrow band around zero) and 0.3-second time constants.
    fn default() -> (r: Self)
        ensures
            r.wf(),
            forall|i: int| 0 <= i < COL_CHANNELS ==> !(#[trigger] r.col@[i]).enabled,
            forall|i: int| 0 <= i < RAND_SLOTS ==> !(#[trigger] r.rand@[i]).enabled,
            !r.rand_pal,
    {
        let unit_range = RandConfig { enabled: false, lo: 0, hi: UNIT };
        let col = vec![
            unit_range,
            unit_range,
            unit_range,
            RandConfig { enabled: false, lo: -50, hi: 50 },
        ];
        let rand = vec![
            unit_range,
            unit_range,
            unit_range,
            unit_range,
            unit_range,
            unit_range,
            unit_range,
            unit_range,
        ];
        let pt1 = vec![300i64, 300, 300, 300, 300, 300, 300, 300];
        FeedbackControlsAutomation { col, rand, pt1, beatpt1: 300, rand_pal: false }
    }
}

/// The beat-pulse fields of the material: a one-shot `beat` impulse,
/// its smoothed copy, and the running beat accumulator with its
/// smoothed copy.
#[derive(Clone, Copy, Debug, PartialEq, Eq, Structural)]
pub struct BeatStuff {
    pub beat: i64,
    pub beatpt1: i64,
    pub beataccum: i64,
    pub beataccumpt1: i64,
}

impl BeatStuff {
    /// All pulse fields inside the scalar range.
    pub open spec fn wf(&self) -> bool {
        &&& val_ok(self.beat as int)
        &&& val_ok(self.beatpt1 as int)
        &&& val_ok(self.beataccum as int)
        &&& val_ok(self.beataccumpt1 as int)
    }
}

impl Default for BeatStuff {
    /// All pulse fields at rest.
    fn default() -> (r: Self)
        ensures
            r == (BeatStuff { beat: 0, beatpt1: 0, beataccum: 0, beataccumpt1: 0 }),
    {
        BeatStuff { beat: 0, beatpt1: 0, beataccum: 0, beataccumpt1: 0 }
    }
}

/// The animated parameters of the shader material: four color-rotation
/// channels, eight raw slots with their smoothed copies, the
/// beat-pulse fields and the palette index.
pub struct FeedbackShaderParams {
    pub col_rot: Vec<i64>,
    pub rand: Vec<i64>,
    pub randpt1: Vec<i64>,
    pub beat_stuff: BeatStuff,
    pub palette: i64,
}

impl FeedbackShaderParams {
    /// Well-formed parameters: one value per channel and slot, all
    /// inside the scalar range.
    pub open spec fn wf(&self) -> bool {
        &&& self.col_rot@.len() == COL_CHANNELS
        &&& self.rand@.len() == RAND_SLOTS
        &&& self.randpt1@.len() == RAND_SLOTS
        &&& forall|i: int| 0 <= i < COL_CHANNELS ==> val_ok(#[trigger] self.col_rot@[i] as int)
        &&& forall|i: int| 0 <= i < RAND_SLOTS ==> val_ok(#[trigger] self.rand@[i] as int)
        &&& forall|i: int| 0 <= i < RAND_SLOTS ==> val_ok(#[trigger] self.randpt1@[i] as int)
        &&& self.beat_stuff.wf()
        &&& val_ok(self.palette as int)
    }
}

impl Default for FeedbackShaderParams {
    /// All channels and slots at zero, palette zero.
    fn default() -> (r: Self)
        ensures
            r.wf(),
            r.col_rot@ == seq![0i64, 0, 0, 0],
            r.rand@ == seq![0i64, 0, 0, 0, 0, 0, 0, 0],
            r.randpt1@ == seq![0i64, 0, 0, 0, 0, 0, 0, 0],
            r.beat_stuff == (BeatStuff { beat: 0, beatpt1: 0, beataccum: 0, beataccumpt1: 0 }),
            r.palette == 0,
    {
        let col_rot = vec![0i64, 0, 0, 0];
        let rand = vec![0i64, 0, 0, 0, 0, 0, 0, 0];
        let randpt1 = vec![0i64, 0, 0, 0, 0, 0, 0, 0];
        proof {
            assert(col_rot@ =~= seq![0i64, 0, 0, 0]);
            assert(rand@ =~= seq![0i64, 0, 0, 0, 0, 0, 0, 0]);
            assert(randpt1@ =~= seq![0i64, 0, 0, 0, 0, 0, 0, 0]);
        }
        FeedbackShaderParams {
            col_rot,
            rand,
            randpt1,
            beat_stuff: BeatStuff { beat: 0, beatpt1: 0, beataccum: 0, beataccumpt1: 0 },
            palette: 0,
        }
    }
}

/// Resamples every channel whose flag is set from its configured range;
/// the others keep their values.
fn resample_channels(values: &mut Vec<i64>, cfg: &Vec<RandConfig>)
    requires
        old(values)@.len() == cfg@.len(),
        forall|i: int| 0 <= i < cfg@.len() ==> (#[trigger] cfg@[i]).wf(),
        forall|i: int| 0 <= i < cfg@.len() ==> val_ok(#[trigger] old(values)@[i] as int),
    ensures
        final(values)@.len() == old(values)@.len(),
        forall|i: int|
            0 <= i < cfg@.len() ==> resampled(
                #[trigger] final(values)@[i] as int,
                old(values)@[i] as int,
                cfg@[i],
            ),
        forall|i: int| 0 <= i < cfg@.len() ==> val_ok(#[trigger] final(values)@[i] as int),
{
    let ghost v0 = values@;
    let n = values.len();
    let mut i: usize = 0;
    while i < n
        invariant
            n == v0.len(),
            n == cfg@.len(),
            i <= n,
            values@.len() == n,
            forall|j: int| 0 <= j < cfg@.len() ==> (#[trigger] cfg@[j]).wf(),
            forall|j: int| 0 <= j < n ==> val_ok(#[trigger] v0[j] as int),
            forall|j: int| i <= j < n ==> #[trigger] values@[j] == v0[j],
            forall|j: int|
                0 <= j < i ==> resampled(#[trigger] values@[j] as int, v0[j] as int, cfg@[j]),
            forall|j: int| 0 <= j < n ==> val_ok(#[trigger] values@[j] as int),
        decreases n - i,
    {
        let c = cfg[i];
        if c.enabled {
            values[i] = sample_range(c.lo, c.hi);
        }
        i += 1;
    }
}

/// Smooths every slot toward its raw value with that slot's own time
/// constant.
fn smooth_toward(current: &mut Vec<i64>, target: &Vec<i64>, tau: &Vec<i64>, dt: i64)
    requires
        old(current)@.len() == target@.len(),
        old(current)@.len() == tau@.len(),
        forall|i: int| 0 <= i < target@.len() ==> val_ok(#[trigger] old(current)@[i] as int),
        forall|i: int| 0 <= i < target@.len() ==> val_ok(#[trigger] target@[i] as int),
        forall|i: int| 0 <= i < target@.len() ==> 0 <= #[trigger] tau@[i] <= VAL_MAX,
        1 <= dt <= VAL_MAX,
    ensures
        final(current)@.len() == old(current)@.len(),
        forall|i: int|
            0 <= i < target@.len() ==> #[trigger] final(current)@[i] == pt1_next(
                old(current)@[i] as int,
                target@[i] as int,
                tau@[i] as int,
                dt as int,
            ),
        forall|i: int| 0 <= i < target@.len() ==> val_ok(#[trigger] final(current)@[i] as int),
{
    let ghost v0 = current@;
    let n = current.len();
    let mut i: usize = 0;
    while i < n
        invariant
            n == v0.len(),
            n == target@.len(),
            n == tau@.len(),
            i <= n,
            current@.len() == n,
            forall|j: int| 0 <= j < n ==> val_ok(#[trigger] v0[j] as int),
            forall|j: int| 0 <= j < n ==> val_ok(#[trigger] target@[j] as int),
            forall|j: int| 0 <= j < n ==> 0 <= #[trigger] tau@[j] <= VAL_MAX,
            1 <= dt <= VAL_MAX,
            forall|j: int| i <= j < n ==> #[trigger] current@[j] == v0[j],
            forall|j: int|
                0 <= j < i ==> #[trigger] current@[j] == pt1_next(
                    v0[j] as int,
                    target@[j] as int,
                    tau@[j] as int,
                    dt as int,
                ),
            forall|j: int| 0 <= j < n ==> val_ok(#[trigger] current@[j] as int),
        decreases n - i,
    {
        current[i] = pt1_step(current[i], target[i], tau[i], dt);
        i += 1;
    }
}

/// Applies one non-muted beat event: resamples the flagged channels and
/// slots, fires the beat pulse, grows the accumulator by slot one's
/// fresh raw value, and redraws the palette if enabled.
fn fb_apply_beat(mat: &mut FeedbackShaderParams, controls: &FeedbackControlsAutomation)
    requires
        old(mat).wf(),
        controls.wf(),
    ensures
        final(mat).wf(),
        forall|i: int|
            0 <= i < COL_CHANNELS ==> resampled(
                #[trigger] final(mat).col_rot@[i] as int,
                old(mat).col_rot@[i] as int,
                controls.col@[i],
            ),
        forall|i: int|
            0 <= i < RAND_SLOTS ==> resampled(
                #[trigger] final(mat).rand@[i] as int,
                old(mat).rand@[i] as int,
                controls.rand@[i],
            ),
        final(mat).beat_stuff.beat == UNIT,
        final(mat).beat_stuff.beatpt1 == UNIT,
        final(mat).beat_stuff.beataccum == sat_add_spec(
            old(mat).beat_stuff.beataccum as int,
            final(mat).rand@[1] as int,
        ),
        final(mat).beat_stuff.beataccumpt1 == old(mat).beat_stuff.beataccumpt1,
        final(mat).randpt1@ == old(mat).randpt1@,
        controls.rand_pal ==> 0 <= final(mat).palette < PALETTE_COUNT && final(mat).palette
            != old(mat).palette,
        !controls.rand_pal ==> final(mat).palette == old(mat).palette,
{
    resample_channels(&mut mat.col_rot, &controls.col);
    resample_channels(&mut mat.rand, &controls.rand);

    mat.beat_stuff.beat = UNIT;
    mat.beat_stuff.beatpt1 = UNIT;
    mat.beat_stuff.beataccum = sat_add(mat.beat_stuff.beataccum, mat.rand[1]);

    if controls.rand_pal {
        mat.palette = sample_palette_excluding(mat.palette, PALETTE_COUNT);
    }
}

/// One tick of the automation engine, run once per rendered frame with
/// the frame's elapsed time `dt` and its `n_beats` pre-buffered beat
/// events. The beat-pulse fields are smoothed first (also on muted
/// ticks), the beats are drained in order — doing nothing while muted —
/// and the slots are smoothed toward their final raw values last.
pub fn fb_tick(
    mat: &mut FeedbackShaderParams,
    controls: &FeedbackControlsAutomation,
    n_beats: usize,
    muted: bool,
    dt: i64,
)
    requires
        old(mat).wf(),
        controls.wf(),
        1 <= dt <= VAL_MAX,
    ensures
        final(mat).wf(),
        ({
            let m0 = *old(mat);
            let k: nat = if muted {
                0
            } else {
                n_beats as nat
            };
            &&& final(mat).beat_stuff.beataccumpt1 == pt1_next(
                m0.beat_stuff.beataccumpt1 as int,
                m0.beat_stuff.beataccum as int,
                controls.beatpt1 as int,
                dt as int,
            )
            &&& (k == 0 ==> final(mat).beat_stuff.beatpt1 == pt1_next(
                m0.beat_stuff.beatpt1 as int,
                0,
                controls.beatpt1 as int,
                dt as int,
            ))
            &&& (k == 0 ==> final(mat).beat_stuff.beat == m0.beat_stuff.beat)
            &&& (k == 0 ==> final(mat).beat_stuff.beataccum == m0.beat_stuff.beataccum)
            &&& (k >= 1 ==> final(mat).beat_stuff.beat == UNIT
                && final(mat).beat_stuff.beatpt1 == UNIT)
            &&& (k == 1 ==> final(mat).beat_stuff.beataccum == sat_add_spec(
                m0.beat_stuff.beataccum as int,
                final(mat).rand@[1] as int,
            ))
            &&& (!controls.rand@[1].enabled ==> final(mat).beat_stuff.beataccum == accum_after(
                m0.beat_stuff.beataccum as int,
                m0.rand@[1] as int,
                k,
            ))
            &&& (forall|i: int|
                0 <= i < COL_CHANNELS ==> resampled_n(
                    #[trigger] final(mat).col_rot@[i] as int,
                    m0.col_rot@[i] as int,
                    controls.col@[i],
                    k,
                ))
            &&& (forall|i: int|
                0 <= i < RAND_SLOTS ==> resampled_n(
                    #[trigger] final(mat).rand@[i] as int,
                    m0.rand@[i] as int,
                    controls.rand@[i],
                    k,
                ))
            &&& (forall|i: int|
                0 <= i < RAND_SLOTS ==> #[trigger] final(mat).randpt1@[i] == pt1_next(
                    m0.randpt1@[i] as int,
                    final(mat).rand@[i] as int,
                    controls.pt1@[i] as int,
                    dt as int,
                ))
            &&& (k == 0 || !controls.rand_pal ==> final(mat).palette == m0.palette)
            &&& (k >= 1 && controls.rand_pal ==> 0 <= final(mat).palette < PALETTE_COUNT)
            &&& (k == 1 && controls.rand_pal ==> final(mat).palette != m0.palette)
        }),
{
    let ghost m0 = *mat;

    mat.beat_stuff.beatpt1 = pt1_step(mat.beat_stuff.beatpt1, 0, controls.beatpt1, dt);
    mat.beat_stuff.beataccumpt1 = pt1_step(
        mat.beat_stuff.beataccumpt1,
        mat.beat_stuff.beataccum,
        controls.beatpt1,
        dt,
    );

    if !muted {
        let mut b: usize = 0;
        while b < n_beats
            invariant
                b <= n_beats,
                mat.wf(),
                controls.wf(),
                m0.wf(),
                1 <= dt <= VAL_MAX,
                mat.beat_stuff.beataccumpt1 == pt1_next(
                    m0.beat_stuff.beataccumpt1 as int,
                    m0.beat_stuff.beataccum as int,
                    controls.beatpt1 as int,
                    dt as int,
                ),
                b == 0 ==> mat.beat_stuff.beatpt1 == pt1_next(
                    m0.beat_stuff.beatpt1 as int,
                    0,
                    controls.beatpt1 as int,
                    dt as int,
                ),
                b == 0 ==> mat.beat_stuff.beat == m0.beat_stuff.beat,
                b == 0 ==> mat.beat_stuff.beataccum == m0.beat_stuff.beataccum,
                b >= 1 ==> mat.beat_stuff.beat == UNIT && mat.beat_stuff.beatpt1 == UNIT,
                b == 1 ==> mat.beat_stuff.beataccum == sat_add_spec(
                    m0.beat_stuff.beataccum as int,
                    mat.rand@[1] as int,
                ),
                !controls.rand@[1].enabled ==> mat.beat_stuff.beataccum == accum_after(
                    m0.beat_stuff.beataccum as int,
                    m0.rand@[1] as int,
                    b as nat,
                ),
                forall|i: int|
                    0 <= i < COL_CHANNELS ==> resampled_n(
                        #[trigger] mat.col_rot@[i] as int,
                        m0.col_rot@[i] as int,
                        controls.col@[i],
                        b as nat,
                    ),
                forall|i: int|
                    0 <= i < RAND_SLOTS ==> resampled_n(
                        #[trigger] mat.rand@[i] as int,
                        m0.rand@[i] as int,
                        controls.rand@[i],
                        b as nat,
                    ),
                mat.randpt1@ == m0.randpt1@,
                b == 0 || !controls.rand_pal ==> mat.palette == m0.palette,
                b >= 1 && controls.rand_pal ==> 0 <= mat.palette < PALETTE_COUNT,
                b == 1 && controls.rand_pal ==> mat.palette != m0.palette,
            decreases n_beats - b,
        {
            fb_apply_beat(mat, controls);
            b += 1;
        }
    }

    smooth_toward(&mut mat.randpt1, &mat.rand, &controls.pt1, dt);
}

} // verus!
