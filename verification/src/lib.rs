//! Beat-synchronized parameter automation for a live-visuals rig.
//!
//! The crate animates shader-style tunable parameters in fixed-point
//! arithmetic: milli-units, so the integer `1000` stands for one unit.
//! It provides a first-order (PT1) smoothing filter, a uniform-range
//! randomization policy backed by the `rand` crate, a per-frame parameter
//! automation engine, and a beat-gated wipe-transition trigger engine.

pub mod automation;
pub mod beat;
pub mod chip_spin;
pub mod num;
pub mod pt1;
pub mod sample;
pub mod wipe;
pub mod wipe_automation;
