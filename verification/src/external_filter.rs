//! Output-stage RC filter network.
//!
//! The audio output stage consists of two single-time-constant networks: a
//! low-pass with a 3 dB frequency of 16 kHz followed by a high-pass at
//! 16 Hz. The time constants are precomputed in a fixed-point scale of 2^20
//! so that the division by the one-microsecond cycle time becomes a right
//! shift. When the stage is bypassed, the input minus the maximum mixer DC
//! passes through directly and both integrators are held at zero.

use vstd::prelude::*;

use crate::arith::fdiv64;
use crate::ChipModel;

verus! {

/// Low-pass time constant: 1/RC = 100000 for R = 10 kOhm, C = 1000 pF,
/// multiplied by 1.048576 into the 2^20 fixed-point scale.
pub const W0_LP: i32 = 104858;

/// High-pass time constant: 1/RC = 100 for R = 1 kOhm, C = 10 uF,
/// multiplied by 1.048576 into the 2^20 fixed-point scale.
pub const W0_HP: i32 = 105;

/// Maximum mixer DC level of the first chip revision, removed from the
/// signal when the output stage is bypassed:
/// ((wave DC + voice DC) * voices + mixer DC) * volume.
pub const MIXER_DC_6581: i32 = 280065;

#[derive(Clone, Copy)]
pub struct ExternalFilter {
    // Configuration
    pub enabled: bool,
    pub mixer_dc: i32,
    pub w0lp: i32,
    pub w0hp: i32,
    // Runtime state
    pub vlp: i32,
    pub vhp: i32,
    pub vo: i32,
}

impl ExternalFilter {
    /// Well-formedness: the time constants are the fixed hardware values
    /// and the DC term is one of the two revisions' values.
    pub open spec fn wf(self) -> bool {
        &&& self.w0lp == W0_LP
        &&& self.w0hp == W0_HP
        &&& (self.mixer_dc == MIXER_DC_6581 || self.mixer_dc == 0)
    }

    /// The power-on state for a chip revision: enabled and at rest.
    pub open spec fn initial(chip_model: ChipModel) -> ExternalFilter {
        ExternalFilter {
            enabled: true,
            mixer_dc: match chip_model {
                ChipModel::Mos6581 => MIXER_DC_6581,
                ChipModel::Mos8580 => 0i32,
            },
            w0lp: W0_LP,
            w0hp: W0_HP,
            vlp: 0i32,
            vhp: 0i32,
            vo: 0i32,
        }
    }

    /// The effect of one clock cycle: the output is the low-pass node minus
    /// the high-pass node, then both integrators accumulate toward the
    /// input.
    pub open spec fn clocked(self, vi: i32) -> ExternalFilter {
        if self.enabled {
            let dvlp = ((self.w0lp / 256) * (vi - self.vlp)) / 4096;
            let dvhp = (self.w0hp * (self.vlp - self.vhp)) / 0x100000;
            ExternalFilter {
                vo: (self.vlp - self.vhp) as i32,
                vlp: (self.vlp + dvlp) as i32,
                vhp: (self.vhp + dvhp) as i32,
                ..self
            }
        } else {
            ExternalFilter { vlp: 0, vhp: 0, vo: (vi - self.mixer_dc) as i32, ..self }
        }
    }

    /// One enabled update over `dt` cycles (at most 8).
    pub open spec fn clocked_dt(self, dt: int, vi: i32) -> ExternalFilter {
        let dvlp = (((self.w0lp * dt) / 256) * (vi - self.vlp)) / 4096;
        let dvhp = ((self.w0hp * dt) * (self.vlp - self.vhp)) / 0x100000;
        ExternalFilter {
            vo: (self.vlp - self.vhp) as i32,
            vlp: (self.vlp + dvlp) as i32,
            vhp: (self.vhp + dvhp) as i32,
            ..self
        }
    }

    /// Bulk stepping while enabled: sub-steps of at most 8 cycles, the
    /// empirical stability bound of the integer integrators.
    pub open spec fn clocked_delta_enabled(self, delta: int, vi: i32) -> ExternalFilter
        decreases delta,
    {
        if delta <= 0 {
            self
        } else if delta < 8 {
            self.clocked_dt(delta, vi)
        } else {
            self.clocked_dt(8, vi).clocked_delta_enabled(delta - 8, vi)
        }
    }

    /// The effect of a bulk advance by `delta` cycles.
    pub open spec fn delta_clocked(self, delta: int, vi: i32) -> ExternalFilter {
        if self.enabled {
            self.clocked_delta_enabled(delta, vi)
        } else {
            ExternalFilter { vlp: 0, vhp: 0, vo: (vi - self.mixer_dc) as i32, ..self }
        }
    }

    /// A fresh output stage for the given chip revision, enabled and at
    /// rest.
    pub fn new(chip_model: ChipModel) -> (r: ExternalFilter)
        ensures
            r == ExternalFilter::initial(chip_model),
            r.wf(),
    {
        let mixer_dc: i32 = match chip_model {
            ChipModel::Mos6581 => MIXER_DC_6581,
            ChipModel::Mos8580 => 0,
        };
        ExternalFilter {
            enabled: true,
            mixer_dc,
            w0lp: W0_LP,
            w0hp: W0_HP,
            vlp: 0,
            vhp: 0,
            vo: 0,
        }
    }

    /// Enable or bypass the output stage; bypassing is a test hook.
    pub fn set_enabled(&mut self, enabled: bool)
        ensures
            *final(self) == (ExternalFilter { enabled, ..*old(self) }),
    {
        self.enabled = enabled;
    }

    /// The shared integrator update for a step of `dt` cycles; `dt` is 1
    /// for single-cycle clocking.
    fn step(&mut self, dt: u32, vi: i32)
        requires
            old(self).wf(),
            1 <= dt <= 8,
        ensures
            *final(self) == old(self).clocked_dt(dt as int, vi),
            final(self).wf(),
    {
        let w0lp: i32 = self.w0lp;
        let w0hp: i32 = self.w0hp;
        proof {
            assert(0 <= w0lp as int * dt as int <= 0x100000) by (nonlinear_arith)
                requires
                    w0lp == 104858,
                    1 <= dt <= 8,
            ;
            vstd::arithmetic::div_mod::lemma_div_is_ordered(0, w0lp as int * dt as int, 256);
            vstd::arithmetic::div_mod::lemma_div_is_ordered(
                w0lp as int * dt as int,
                0x100000,
                256,
            );
        }
        let wdt: i64 = fdiv64(w0lp as i64 * dt as i64, 256);
        let dlow: i64 = vi as i64 - self.vlp as i64;
        let dhigh: i64 = self.vlp as i64 - self.vhp as i64;
        proof {
            assert(-0x4000_0000_0000 <= wdt * dlow <= 0x4000_0000_0000) by (nonlinear_arith)
                requires
                    0 <= wdt <= 0x1000,
                    -0x1_0000_0000 <= dlow <= 0x1_0000_0000,
            ;
            assert(-0x4000_0000_0000 <= (w0hp as int * dt as int) * dhigh <= 0x4000_0000_0000)
                by (nonlinear_arith)
                requires
                    w0hp == 105,
                    1 <= dt <= 8,
                    -0x1_0000_0000 <= dhigh <= 0x1_0000_0000,
            ;
        }
        let dvlp: i64 = fdiv64(wdt * dlow, 4096);
        let dvhp: i64 = fdiv64(w0hp as i64 * dt as i64 * dhigh, 0x100000);
        self.vo = dhigh as i32;
        self.vlp = (self.vlp as i64 + dvlp) as i32;
        self.vhp = (self.vhp as i64 + dvhp) as i32;
    }

    /// Advance the output stage by one cycle with input `vi`.
    pub fn clock(&mut self, vi: i32)
        requires
            old(self).wf(),
        ensures
            *final(self) == old(self).clocked(vi),
            final(self).wf(),
    {
        if self.enabled {
            self.step(1, vi);
        } else {
            self.vlp = 0;
            self.vhp = 0;
            self.vo = (vi as i64 - self.mixer_dc as i64) as i32;
        }
    }

    /// Advance the output stage by `delta` cycles in bulk.
    pub fn clock_delta(&mut self, delta: u32, vi: i32)
        requires
            old(self).wf(),
        ensures
            *final(self) == old(self).delta_clocked(delta as int, vi),
            final(self).wf(),
    {
        if self.enabled {
            let mut remaining: u32 = delta;
            while remaining != 0
                invariant
                    self.wf(),
                    old(self).delta_clocked(delta as int, vi) == self.clocked_delta_enabled(
                        remaining as int,
                        vi,
                    ),
                decreases remaining,
            {
                let dt: u32 = if remaining < 8 {
                    remaining
                } else {
                    8
                };
                self.step(dt, vi);
                remaining = remaining - dt;
            }
        } else {
            self.vlp = 0;
            self.vhp = 0;
            self.vo = (vi as i64 - self.mixer_dc as i64) as i32;
        }
    }

    /// The output node.
    pub fn output(&self) -> (r: i32)
        ensures
            r == self.vo,
    {
        self.vo
    }

    /// Return the integrators and the output to rest.
    pub fn reset(&mut self)
        ensures
            *final(self) == (ExternalFilter { vlp: 0i32, vhp: 0i32, vo: 0i32, ..*old(self) }),
    {
        self.vlp = 0;
        self.vhp = 0;
        self.vo = 0;
    }
}

} // verus!
