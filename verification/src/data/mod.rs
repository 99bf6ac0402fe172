//! Static lookup tables: the combined-waveform correction tables of the
//! two chip revisions, and the filter cutoff tables derived from the
//! measured cutoff calibration curves.

use vstd::prelude::*;

mod cutoff;
mod wave6581_ps;
mod wave6581_pst;
mod wave6581_pt;
mod wave6581_st;
mod wave8580_ps;
mod wave8580_pst;
mod wave8580_pt;
mod wave8580_st;

use crate::ChipModel;
pub use self::cutoff::W0_6581;
pub use self::cutoff::W0_8580;
pub use self::wave6581_ps::WAVE6581_PS;
pub use self::wave6581_pst::WAVE6581_PST;
pub use self::wave6581_pt::WAVE6581_PT;
pub use self::wave6581_st::WAVE6581_ST;
pub use self::wave8580_ps::WAVE8580_PS;
pub use self::wave8580_pst::WAVE8580_PST;
pub use self::wave8580_pt::WAVE8580_PT;
pub use self::wave8580_st::WAVE8580_ST;

verus! {

/// The PS correction entry for the given revision.
pub open spec fn spec_wave_ps(model: ChipModel, i: int) -> u8 {
    match model {
        ChipModel::Mos6581 => WAVE6581_PS@[i],
        ChipModel::Mos8580 => WAVE8580_PS@[i],
    }
}

/// The PST correction entry for the given revision.
pub open spec fn spec_wave_pst(model: ChipModel, i: int) -> u8 {
    match model {
        ChipModel::Mos6581 => WAVE6581_PST@[i],
        ChipModel::Mos8580 => WAVE8580_PST@[i],
    }
}

/// The PT correction entry for the given revision.
pub open spec fn spec_wave_pt(model: ChipModel, i: int) -> u8 {
    match model {
        ChipModel::Mos6581 => WAVE6581_PT@[i],
        ChipModel::Mos8580 => WAVE8580_PT@[i],
    }
}

/// The ST correction entry for the given revision.
pub open spec fn spec_wave_st(model: ChipModel, i: int) -> u8 {
    match model {
        ChipModel::Mos6581 => WAVE6581_ST@[i],
        ChipModel::Mos8580 => WAVE8580_ST@[i],
    }
}

/// The angular cutoff coefficient for the given revision and 11-bit cutoff
/// register value.
pub open spec fn spec_w0(model: ChipModel, fc: int) -> i32 {
    match model {
        ChipModel::Mos6581 => W0_6581@[fc],
        ChipModel::Mos8580 => W0_8580@[fc],
    }
}

pub fn wave_ps(model: ChipModel, i: u16) -> (r: u8)
    requires
        i < 4096,
    ensures
        r == spec_wave_ps(model, i as int),
{
    match model {
        ChipModel::Mos6581 => WAVE6581_PS[i as usize],
        ChipModel::Mos8580 => WAVE8580_PS[i as usize],
    }
}

pub fn wave_pst(model: ChipModel, i: u16) -> (r: u8)
    requires
        i < 4096,
    ensures
        r == spec_wave_pst(model, i as int),
{
    match model {
        ChipModel::Mos6581 => WAVE6581_PST[i as usize],
        ChipModel::Mos8580 => WAVE8580_PST[i as usize],
    }
}

pub fn wave_pt(model: ChipModel, i: u16) -> (r: u8)
    requires
        i < 4096,
    ensures
        r == spec_wave_pt(model, i as int),
{
    match model {
        ChipModel::Mos6581 => WAVE6581_PT[i as usize],
        ChipModel::Mos8580 => WAVE8580_PT[i as usize],
    }
}

pub fn wave_st(model: ChipModel, i: u16) -> (r: u8)
    requires
        i < 4096,
    ensures
        r == spec_wave_st(model, i as int),
{
    match model {
        ChipModel::Mos6581 => WAVE6581_ST[i as usize],
        ChipModel::Mos8580 => WAVE8580_ST[i as usize],
    }
}

pub fn w0_entry(model: ChipModel, fc: u16) -> (r: i32)
    requires
        fc < 2048,
    ensures
        r == spec_w0(model, fc as int),
{
    match model {
        ChipModel::Mos6581 => W0_6581[fc as usize],
        ChipModel::Mos8580 => W0_8580[fc as usize],
    }
}

} // verus!
