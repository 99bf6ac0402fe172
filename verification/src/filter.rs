//! State-variable filter.
//!
//! The chip's filter is a two-integrator-loop biquadratic filter. `vhp` is
//! the output of the summer, `vbp` of the first integrator and `vlp` of the
//! second. The angular cutoff coefficient `w0` comes from a 2048-entry table
//! derived from the chip's measured cutoff curve, scaled by 1.048576 so that
//! the division by the one-microsecond cycle time becomes a right shift by
//! 20; the resonance register sets the inverted Q factor through a fixed
//! table. Voice and external inputs are scaled from 20 to 13 bits and routed
//! into or around the filter by the routing register.

use vstd::prelude::*;

use crate::arith::fdiv64;
use crate::data;
use crate::ChipModel;

verus! {

/// Mixer DC offset of the first chip revision: the filter sees roughly
/// -0xfff*0xff/18 at its 20-bit scale, here already scaled down to 13 bits.
pub const MIXER_DC_6581: i32 = -454;

/// Angular cutoff ceiling keeping single-cycle stepping stable: 16 kHz in
/// the table's fixed-point scale (2*pi*16000*1.048576 truncated).
pub const W0_CEIL_1: i32 = 105414;

/// Angular cutoff ceiling keeping bulk stepping stable: 4 kHz in the
/// table's fixed-point scale (2*pi*4000*1.048576 truncated).
pub const W0_CEIL_DT: i32 = 26353;

/// 1024/Q for each resonance register value: Q rises linearly from 0.707 to
/// about 1.7, and the 1024 scale is removed by a right shift by 10 in the
/// integrator loop.
pub const Q_1024_DIV: [i32; 16] = [
    1448, 1323, 1218, 1128, 1051, 984, 925, 872, 825, 783, 745, 710, 679, 650, 624, 599,
];

#[derive(Clone, Copy)]
pub struct Filter {
    // Configuration
    pub enabled: bool,
    pub chip_model: ChipModel,
    pub fc: u16,
    pub filt: u8,
    pub res: u8,
    // Mode
    pub voice3_off: bool,
    pub hp_bp_lp: u8,
    pub vol: u8,
    // Runtime state
    pub vhp: i32,
    pub vbp: i32,
    pub vlp: i32,
    pub vnf: i32,
    // Derived cutoff and resonance coefficients
    pub q_1024_div: i32,
    pub w0: i32,
    pub w0_ceil_1: i32,
    pub w0_ceil_dt: i32,
}

impl Filter {
    /// Well-formedness: register fields inside their widths and the derived
    /// coefficients matching the registers they are derived from.
    pub open spec fn wf(self) -> bool {
        &&& self.fc <= 0x7ff
        &&& self.filt <= 0xf
        &&& self.res <= 0xf
        &&& self.hp_bp_lp <= 7
        &&& self.vol <= 0xf
        &&& self.q_1024_div == Q_1024_DIV@[self.res as int]
        &&& self.w0 == data::spec_w0(self.chip_model, self.fc as int)
        &&& self.w0_ceil_1 == Self::clamp_w0(self.w0, W0_CEIL_1)
        &&& self.w0_ceil_dt == Self::clamp_w0(self.w0, W0_CEIL_DT)
    }

    /// The power-on state for a chip revision: enabled, all registers zero.
    pub open spec fn initial(chip_model: ChipModel) -> Filter {
        Filter {
            enabled: true,
            chip_model,
            fc: 0u16,
            filt: 0u8,
            res: 0u8,
            voice3_off: false,
            hp_bp_lp: 0u8,
            vol: 0u8,
            vhp: 0i32,
            vbp: 0i32,
            vlp: 0i32,
            vnf: 0i32,
            q_1024_div: Q_1024_DIV@[0],
            w0: data::spec_w0(chip_model, 0),
            w0_ceil_1: Self::clamp_w0(data::spec_w0(chip_model, 0), W0_CEIL_1),
            w0_ceil_dt: Self::clamp_w0(data::spec_w0(chip_model, 0), W0_CEIL_DT),
        }
    }

    /// The cutoff coefficient clamped to a stability ceiling.
    pub open spec fn clamp_w0(w0: i32, ceil: i32) -> i32 {
        if w0 <= ceil {
            w0
        } else {
            ceil
        }
    }

    /// The mixer DC term for a chip revision; the later revision has none.
    pub open spec fn spec_mixer_dc(chip_model: ChipModel) -> int {
        match chip_model {
            ChipModel::Mos6581 => MIXER_DC_6581 as int,
            ChipModel::Mos8580 => 0,
        }
    }

    /// A 20-bit input scaled down to the filter's 13-bit working range, as
    /// the arithmetic shift in the mixer performs it.
    pub open spec fn scaled(v: i32) -> int {
        v as int / 128
    }

    /// The third voice's input: silenced by the voice-3-off flag unless it
    /// is routed through the filter.
    pub open spec fn scaled_v3(self, v3: i32) -> int {
        if self.voice3_off && self.filt / 4 % 2 == 0 {
            0
        } else {
            Self::scaled(v3)
        }
    }

    /// The sum routed into the filter: each voice and the external input go
    /// to the filter when their routing bit is set.
    pub open spec fn routed_vi(self, s1: int, s2: int, s3: int, se: int) -> int {
        (if self.filt % 2 == 1 {
            s1
        } else {
            0
        }) + (if self.filt / 2 % 2 == 1 {
            s2
        } else {
            0
        }) + (if self.filt / 4 % 2 == 1 {
            s3
        } else {
            0
        }) + (if self.filt / 8 % 2 == 1 {
            se
        } else {
            0
        })
    }

    /// The sum routed around the filter: the inputs whose routing bit is
    /// clear.
    pub open spec fn routed_vnf(self, s1: int, s2: int, s3: int, se: int) -> int {
        (if self.filt % 2 == 1 {
            0
        } else {
            s1
        }) + (if self.filt / 2 % 2 == 1 {
            0
        } else {
            s2
        }) + (if self.filt / 4 % 2 == 1 {
            0
        } else {
            s3
        }) + (if self.filt / 8 % 2 == 1 {
            0
        } else {
            se
        })
    }

    /// One integrator-loop update with the single-cycle cutoff ceiling:
    /// the band-pass and low-pass integrators accumulate, then the summer
    /// recomputes the high-pass node.
    pub open spec fn integrated(self, vi: int) -> Filter {
        let dvbp = (self.w0_ceil_1 * self.vhp) / 0x100000;
        let dvlp = (self.w0_ceil_1 * self.vbp) / 0x100000;
        let vbp2 = (self.vbp - dvbp) as i32;
        let vlp2 = (self.vlp - dvlp) as i32;
        let vhp2 = ((vbp2 * self.q_1024_div) / 1024 - vlp2 - vi) as i32;
        Filter { vbp: vbp2, vlp: vlp2, vhp: vhp2, ..self }
    }

    /// One integrator-loop update over `dt` cycles (at most 8) with the
    /// bulk-stepping cutoff ceiling.
    pub open spec fn integrated_dt(self, dt: int, vi: int) -> Filter {
        let w0dt = (self.w0_ceil_dt * dt) / 64;
        let dvbp = (w0dt * self.vhp) / 0x4000;
        let dvlp = (w0dt * self.vbp) / 0x4000;
        let vbp2 = (self.vbp - dvbp) as i32;
        let vlp2 = (self.vlp - dvlp) as i32;
        let vhp2 = ((vbp2 * self.q_1024_div) / 1024 - vlp2 - vi) as i32;
        Filter { vbp: vbp2, vlp: vlp2, vhp: vhp2, ..self }
    }

    /// Bulk integration: `delta` cycles consumed in sub-steps of at most 8
    /// cycles, the empirical stability bound of the integer integrator.
    pub open spec fn integrated_delta(self, delta: int, vi: int) -> Filter
        decreases delta,
    {
        if delta <= 0 {
            self
        } else if delta < 8 {
            self.integrated_dt(delta, vi)
        } else {
            self.integrated_dt(8, vi).integrated_delta(delta - 8, vi)
        }
    }

    /// The effect of one filter clock on the runtime state, given the three
    /// 20-bit voice outputs and the external input.
    pub open spec fn clocked(self, voice1: i32, voice2: i32, voice3: i32, ext_in: i32) -> Filter {
        let s1 = Self::scaled(voice1);
        let s2 = Self::scaled(voice2);
        let s3 = self.scaled_v3(voice3);
        let se = Self::scaled(ext_in);
        if !self.enabled {
            Filter {
                vnf: (s1 + s2 + s3 + se) as i32,
                vhp: 0,
                vbp: 0,
                vlp: 0,
                ..self
            }
        } else {
            let vi = self.routed_vi(s1, s2, s3, se);
            let vnf = self.routed_vnf(s1, s2, s3, se);
            Filter { vnf: vnf as i32, ..self }.integrated(vi)
        }
    }

    /// The effect of a bulk filter clock over `delta` cycles.
    pub open spec fn delta_clocked(
        self,
        delta: int,
        voice1: i32,
        voice2: i32,
        voice3: i32,
        ext_in: i32,
    ) -> Filter {
        let s1 = Self::scaled(voice1);
        let s2 = Self::scaled(voice2);
        let s3 = self.scaled_v3(voice3);
        let se = Self::scaled(ext_in);
        if !self.enabled {
            Filter {
                vnf: (s1 + s2 + s3 + se) as i32,
                vhp: 0,
                vbp: 0,
                vlp: 0,
                ..self
            }
        } else {
            let vi = self.routed_vi(s1, s2, s3, se);
            let vnf = self.routed_vnf(s1, s2, s3, se);
            Filter { vnf: vnf as i32, ..self }.integrated_delta(delta, vi)
        }
    }

    /// The filter's 20-bit output: the selected mix of the three filter
    /// nodes, plus the unfiltered sum and the mixer DC term, scaled by the
    /// volume register.
    pub open spec fn out(self) -> int {
        if !self.enabled {
            ((self.vnf + Self::spec_mixer_dc(self.chip_model)) * self.vol) as i32 as int
        } else {
            let vf = (if self.hp_bp_lp % 2 == 1 {
                self.vlp as int
            } else {
                0
            }) + (if self.hp_bp_lp / 2 % 2 == 1 {
                self.vbp as int
            } else {
                0
            }) + (if self.hp_bp_lp / 4 % 2 == 1 {
                self.vhp as int
            } else {
                0
            });
            ((self.vnf + vf + Self::spec_mixer_dc(self.chip_model)) * self.vol) as i32 as int
        }
    }
}

} // verus!

verus! {

/// Scale a 20-bit signal value down to the filter's 13-bit working range.
fn scaled13(v: i32) -> (r: i32)
    ensures
        r == Filter::scaled(v),
        -0x1000000 <= r <= 0xffffff,
{
    proof {
        crate::arith::lemma_i32_mul_fits(v as int, 1);
    }
    fdiv64(v as i64, 128) as i32
}

impl Filter {
    /// A fresh filter for the given chip revision, enabled, with all
    /// registers zero.
    pub fn new(chip_model: ChipModel) -> (r: Filter)
        ensures
            r == Filter::initial(chip_model),
            r.wf(),
    {
        let mut filter = Filter {
            enabled: true,
            chip_model,
            fc: 0,
            filt: 0,
            res: 0,
            voice3_off: false,
            hp_bp_lp: 0,
            vol: 0,
            vhp: 0,
            vbp: 0,
            vlp: 0,
            vnf: 0,
            q_1024_div: 0,
            w0: 0,
            w0_ceil_1: 0,
            w0_ceil_dt: 0,
        };
        filter.set_q();
        filter.set_w0();
        filter
    }

    pub fn get_fc_lo(&self) -> (r: u8)
        ensures
            r == self.fc % 8,
    {
        (self.fc % 8) as u8
    }

    pub fn get_fc_hi(&self) -> (r: u8)
        requires
            self.wf(),
        ensures
            r == self.fc / 8,
    {
        (self.fc / 8) as u8
    }

    pub fn get_res_filt(&self) -> (r: u8)
        requires
            self.wf(),
        ensures
            r == self.res * 16 + self.filt,
    {
        self.res * 16 + self.filt
    }

    pub fn get_mode_vol(&self) -> (r: u8)
        requires
            self.wf(),
        ensures
            r == (if self.voice3_off { 0x80u8 } else { 0u8 }) + self.hp_bp_lp * 16 + self.vol,
    {
        let value: u8 = if self.voice3_off {
            0x80
        } else {
            0
        };
        value + self.hp_bp_lp * 16 + self.vol
    }

    /// Enable or bypass the filter; bypassing is a test hook, not part of
    /// the chip.
    pub fn set_enabled(&mut self, enabled: bool)
        ensures
            *final(self) == (Filter { enabled, ..*old(self) }),
    {
        self.enabled = enabled;
    }

    pub fn set_fc_lo(&mut self, value: u8)
        requires
            old(self).wf(),
        ensures
            final(self).fc == old(self).fc / 8 * 8 + value % 8,
            *final(self) == (Filter {
                fc: final(self).fc,
                w0: final(self).w0,
                w0_ceil_1: final(self).w0_ceil_1,
                w0_ceil_dt: final(self).w0_ceil_dt,
                ..*old(self)
            }),
            final(self).wf(),
    {
        self.fc = self.fc / 8 * 8 + (value % 8) as u16;
        self.set_w0();
    }

    pub fn set_fc_hi(&mut self, value: u8)
        requires
            old(self).wf(),
        ensures
            final(self).fc == value * 8 + old(self).fc % 8,
            *final(self) == (Filter {
                fc: final(self).fc,
                w0: final(self).w0,
                w0_ceil_1: final(self).w0_ceil_1,
                w0_ceil_dt: final(self).w0_ceil_dt,
                ..*old(self)
            }),
            final(self).wf(),
    {
        self.fc = value as u16 * 8 + self.fc % 8;
        self.set_w0();
    }

    pub fn set_res_filt(&mut self, value: u8)
        requires
            old(self).wf(),
        ensures
            final(self).res == value / 16,
            final(self).filt == value % 16,
            *final(self) == (Filter {
                res: final(self).res,
                filt: final(self).filt,
                q_1024_div: Q_1024_DIV@[(value / 16) as int],
                ..*old(self)
            }),
            final(self).wf(),
    {
        self.res = value / 16;
        self.filt = value % 16;
        self.set_q();
    }

    pub fn set_mode_vol(&mut self, value: u8)
        requires
            old(self).wf(),
        ensures
            *final(self) == (Filter {
                voice3_off: value / 128 % 2 == 1,
                hp_bp_lp: (value / 16 % 8) as u8,
                vol: value % 16,
                ..*old(self)
            }),
            final(self).wf(),
    {
        self.voice3_off = value / 128 % 2 == 1;
        self.hp_bp_lp = value / 16 % 8;
        self.vol = value % 16;
    }

    /// Refresh the inverted Q coefficient from the resonance register.
    fn set_q(&mut self)
        requires
            old(self).res <= 0xf,
        ensures
            *final(self) == (Filter {
                q_1024_div: Q_1024_DIV@[old(self).res as int],
                ..*old(self)
            }),
    {
        self.q_1024_div = Q_1024_DIV[self.res as usize];
    }

    /// Refresh the cutoff coefficient and its two clamped variants from the
    /// cutoff register.
    fn set_w0(&mut self)
        requires
            old(self).fc <= 0x7ff,
        ensures
            *final(self) == (Filter {
                w0: data::spec_w0(old(self).chip_model, old(self).fc as int),
                w0_ceil_1: Self::clamp_w0(
                    data::spec_w0(old(self).chip_model, old(self).fc as int),
                    W0_CEIL_1,
                ),
                w0_ceil_dt: Self::clamp_w0(
                    data::spec_w0(old(self).chip_model, old(self).fc as int),
                    W0_CEIL_DT,
                ),
                ..*old(self)
            }),
    {
        self.w0 = data::w0_entry(self.chip_model, self.fc);
        self.w0_ceil_1 = if self.w0 <= W0_CEIL_1 {
            self.w0
        } else {
            W0_CEIL_1
        };
        self.w0_ceil_dt = if self.w0 <= W0_CEIL_DT {
            self.w0
        } else {
            W0_CEIL_DT
        };
    }

    /// One integrator-loop update with coefficient `w0c` over the already
    /// computed filter input; shared by single and bulk clocking.
    fn integrate_once(&mut self, w0v: i64, shift_div: i64, vi: i32)
        requires
            1 <= shift_div <= 0x100000,
            -0x8000_0000 <= w0v <= 0x8000_0000,
        ensures
            *final(self) == (Filter {
                vbp: final(self).vbp,
                vlp: final(self).vlp,
                vhp: final(self).vhp,
                ..*old(self)
            }),
            final(self).vbp == (old(self).vbp - (w0v * old(self).vhp) / (shift_div as int)) as i32,
            final(self).vlp == (old(self).vlp - (w0v * old(self).vbp) / (shift_div as int)) as i32,
            final(self).vhp == ((final(self).vbp * old(self).q_1024_div) / 1024
                - final(self).vlp - vi) as i32,
    {
        proof {
            crate::arith::lemma_i32_mul_fits(w0v as int, old(self).vhp as int);
            crate::arith::lemma_i32_mul_fits(w0v as int, old(self).vbp as int);
        }
        let dvbp: i64 = fdiv64(w0v * self.vhp as i64, shift_div);
        let dvlp: i64 = fdiv64(w0v * self.vbp as i64, shift_div);
        let vbp2: i32 = (self.vbp as i64 - dvbp) as i32;
        let vlp2: i32 = (self.vlp as i64 - dvlp) as i32;
        proof {
            crate::arith::lemma_i32_mul_fits(vbp2 as int, old(self).q_1024_div as int);
        }
        let vhp2: i32 = (fdiv64(vbp2 as i64 * self.q_1024_div as i64, 1024) - vlp2 as i64
            - vi as i64) as i32;
        self.vbp = vbp2;
        self.vlp = vlp2;
        self.vhp = vhp2;
    }
}

} // verus!

verus! {

impl Filter {
    /// Route the scaled inputs into and around the filter; returns the
    /// filter input and stores the unfiltered sum.
    fn route(&mut self, s1: i32, s2: i32, s3: i32, se: i32) -> (vi: i32)
        requires
            -0x1000000 <= s1 <= 0xffffff,
            -0x1000000 <= s2 <= 0xffffff,
            -0x1000000 <= s3 <= 0xffffff,
            -0x1000000 <= se <= 0xffffff,
        ensures
            *final(self) == (Filter {
                vnf: (old(self).routed_vnf(s1 as int, s2 as int, s3 as int, se as int)) as i32,
                ..*old(self)
            }),
            vi == old(self).routed_vi(s1 as int, s2 as int, s3 as int, se as int),
    {
        let mut vi: i32 = 0;
        let mut vnf: i32 = 0;
        if self.filt % 2 == 1 {
            vi = vi + s1;
        } else {
            vnf = vnf + s1;
        }
        if self.filt / 2 % 2 == 1 {
            vi = vi + s2;
        } else {
            vnf = vnf + s2;
        }
        if self.filt / 4 % 2 == 1 {
            vi = vi + s3;
        } else {
            vnf = vnf + s3;
        }
        if self.filt / 8 % 2 == 1 {
            vi = vi + se;
        } else {
            vnf = vnf + se;
        }
        self.vnf = vnf;
        vi
    }

    /// Advance the filter by one cycle with the given 20-bit voice outputs
    /// and external input.
    pub fn clock(&mut self, voice1: i32, voice2: i32, voice3: i32, ext_in: i32)
        requires
            old(self).wf(),
        ensures
            *final(self) == old(self).clocked(voice1, voice2, voice3, ext_in),
            final(self).wf(),
    {
        let s1: i32 = scaled13(voice1);
        let s2: i32 = scaled13(voice2);
        let s3: i32 = if self.voice3_off && self.filt / 4 % 2 == 0 {
            0
        } else {
            scaled13(voice3)
        };
        let se: i32 = scaled13(ext_in);
        if !self.enabled {
            self.vnf = s1 + s2 + s3 + se;
            self.vhp = 0;
            self.vbp = 0;
            self.vlp = 0;
            return ;
        }
        let vi: i32 = self.route(s1, s2, s3, se);
        let w0v: i64 = self.w0_ceil_1 as i64;
        self.integrate_once(w0v, 0x100000, vi);
    }

    /// Advance the filter by `delta` cycles in bulk, in sub-steps of at
    /// most 8 cycles with the coarser cutoff ceiling.
    pub fn clock_delta(&mut self, delta: u32, voice1: i32, voice2: i32, voice3: i32, ext_in: i32)
        requires
            old(self).wf(),
        ensures
            *final(self) == old(self).delta_clocked(
                delta as int,
                voice1,
                voice2,
                voice3,
                ext_in,
            ),
            final(self).wf(),
    {
        let s1: i32 = scaled13(voice1);
        let s2: i32 = scaled13(voice2);
        let s3: i32 = if self.voice3_off && self.filt / 4 % 2 == 0 {
            0
        } else {
            scaled13(voice3)
        };
        let se: i32 = scaled13(ext_in);
        if !self.enabled {
            self.vnf = s1 + s2 + s3 + se;
            self.vhp = 0;
            self.vbp = 0;
            self.vlp = 0;
            return ;
        }
        let vi: i32 = self.route(s1, s2, s3, se);
        let ghost goal: Filter = old(self).delta_clocked(
            delta as int,
            voice1,
            voice2,
            voice3,
            ext_in,
        );
        let mut remaining: u32 = delta;
        while remaining != 0
            invariant
                self.wf(),
                -0x8000_0000 <= vi <= 0x7fffffff,
                goal == self.integrated_delta(remaining as int, vi as int),
            decreases remaining,
        {
            let dt: u32 = if remaining < 8 {
                remaining
            } else {
                8
            };
            let w0c: i32 = self.w0_ceil_dt;
            proof {
                assert(-0x10_0000_0000 <= w0c as int * dt as int <= 0x10_0000_0000)
                    by (nonlinear_arith)
                    requires
                        -0x8000_0000 <= w0c as int <= 0x7fffffff,
                        0 <= dt <= 8,
                ;
            }
            let w0dt: i64 = fdiv64(w0c as i64 * dt as i64, 64);
            proof {
                vstd::arithmetic::div_mod::lemma_div_is_ordered(
                    w0c as int * dt as int,
                    0x10_0000_0000,
                    64,
                );
                vstd::arithmetic::div_mod::lemma_div_is_ordered(
                    -0x10_0000_0000,
                    w0c as int * dt as int,
                    64,
                );
            }
            self.integrate_once(w0dt, 0x4000, vi);
            remaining = remaining - dt;
        }
    }

    /// The filter's 20-bit output: the selected node mix plus the
    /// unfiltered sum and the mixer DC term, scaled by the volume register.
    pub fn output(&self) -> (r: i32)
        requires
            self.wf(),
        ensures
            r == self.out(),
    {
        let dc: i32 = match self.chip_model {
            ChipModel::Mos6581 => MIXER_DC_6581,
            ChipModel::Mos8580 => 0,
        };
        if !self.enabled {
            let sum: i64 = self.vnf as i64 + dc as i64;
            proof {
                assert(sum * self.vol <= 0x4000_0000_0000_0000 && sum * self.vol
                    >= -0x4000_0000_0000_0000) by (nonlinear_arith)
                    requires
                        -0x4_0000_0000i64 <= sum <= 0x4_0000_0000i64,
                        0 <= self.vol <= 0xf,
                ;
            }
            (sum * self.vol as i64) as i32
        } else {
            let mut vf: i64 = 0;
            if self.hp_bp_lp % 2 == 1 {
                vf = vf + self.vlp as i64;
            }
            if self.hp_bp_lp / 2 % 2 == 1 {
                vf = vf + self.vbp as i64;
            }
            if self.hp_bp_lp / 4 % 2 == 1 {
                vf = vf + self.vhp as i64;
            }
            let sum: i64 = self.vnf as i64 + vf + dc as i64;
            proof {
                assert(sum * self.vol <= 0x4000_0000_0000_0000 && sum * self.vol
                    >= -0x4000_0000_0000_0000) by (nonlinear_arith)
                    requires
                        -0x4_0000_0000i64 <= sum <= 0x4_0000_0000i64,
                        0 <= self.vol <= 0xf,
                ;
            }
            (sum * self.vol as i64) as i32
        }
    }

    /// Zero the registers and runtime state; the enable flag and the chip
    /// revision are kept.
    pub fn reset(&mut self)
        ensures
            *final(self) == (Filter {
                fc: 0u16,
                filt: 0u8,
                res: 0u8,
                voice3_off: false,
                hp_bp_lp: 0u8,
                vol: 0u8,
                vhp: 0i32,
                vbp: 0i32,
                vlp: 0i32,
                vnf: 0i32,
                q_1024_div: Q_1024_DIV@[0],
                w0: data::spec_w0(old(self).chip_model, 0),
                w0_ceil_1: Self::clamp_w0(data::spec_w0(old(self).chip_model, 0), W0_CEIL_1),
                w0_ceil_dt: Self::clamp_w0(data::spec_w0(old(self).chip_model, 0), W0_CEIL_DT),
                ..*old(self)
            }),
            final(self).wf(),
    {
        self.fc = 0;
        self.filt = 0;
        self.res = 0;
        self.voice3_off = false;
        self.hp_bp_lp = 0;
        self.vol = 0;
        self.vhp = 0;
        self.vbp = 0;
        self.vlp = 0;
        self.vnf = 0;
        self.set_w0();
        self.set_q();
    }
}

} // verus!
