//! Core of a small real-time noise synthesizer plugin.
//!
//! The library holds the verified real-time core: the note-activity
//! counter driven by performance events, the parameter store for the
//! single automatable volume control, and the sample generator that
//! renders gated, amplitude-scaled noise into a block of samples.
//!
//! Sample amplitudes and parameter values are held in fixed point:
//! a volume of `v` thousandths stands for the real amplitude
//! `v / 1000`, and a rendered sample `s` stands for the real sample
//! `s / 1_000_000`. The host-facing bridge converts at the boundary.

pub mod events;
pub mod notes;
pub mod params;
pub mod plugin;
pub mod render;

use vstd::prelude::*;

verus! {

/// Fixed-point scale of a parameter value: a stored value of
/// `VOLUME_SCALE` stands for 1.0, the top of the volume range.
pub const VOLUME_SCALE: u32 = 1000;

} // verus!
