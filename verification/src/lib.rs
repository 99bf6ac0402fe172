//! Cycle-accurate model of a classic 8-bit home computer's analog sound
//! chip: three oscillator/envelope voices, a two-integrator-loop filter,
//! an output-stage RC network and an audio resampling layer, all in
//! fixed-point integer arithmetic with the hardware's quirks reproduced
//! bit for bit. The chip is driven through a register-mapped interface
//! and clocked either one cycle at a time or in bulk jumps; every clocking
//! path carries a contract stating the exact state transition it performs.

use vstd::prelude::*;

pub mod arith;
pub mod data;
pub mod envelope;
pub mod external_filter;
pub mod filter;
pub mod sampler;
pub mod sid;
pub mod synth;
pub mod voice;
pub mod wave;

verus! {

/// Which revision of the sound chip is modeled. The revision selects DC
/// offsets, combined-waveform tables and the filter cutoff table.
#[derive(Clone, Copy)]
pub enum ChipModel {
    Mos6581,
    Mos8580,
}

} // verus!

pub use self::sampler::SamplingMethod;
pub use self::sid::Sid;
