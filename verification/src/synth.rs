//! The synthesizer: three voices in a hard-sync ring, the state-variable
//! filter and the output-stage RC network, clocked in lock step.
//!
//! The three oscillators form a ring: voice `i` is the hard-sync source of
//! voice `i+1` and reads voice `i+2` for ring modulation (indices modulo
//! three). Clocking is two-phase: all oscillators advance first, then a
//! synchronization pass reads every oscillator's post-clock state and
//! resets the accumulators of sync targets, so that each decision sees all
//! three oscillators as the hardware does.

use vstd::prelude::*;

use crate::external_filter::ExternalFilter;
use crate::filter::Filter;
use crate::voice::Voice;
use crate::wave::WaveformGenerator;
use crate::ChipModel;

verus! {

/// How many chip-level units make one 16-bit output step: the full-scale
/// voice range scaled to 13 bits, times three voices, times maximum volume,
/// times two, divided by the 2^16 output range, truncated:
/// ((4095 * 255) >> 7) * 3 * 15 * 2 / (1 << 16).
pub const SAMPLES_PER_OUTPUT: i32 = 11;

#[derive(Clone, Copy)]
pub struct Synth {
    pub ext_filter: ExternalFilter,
    pub filter: Filter,
    pub voices: [Voice; 3],
    pub ext_in: i32,
}

/// Whether the sync pass resets `dest`'s accumulator on behalf of `src`:
/// `src`'s MSB has just risen and `dest` requests sync, unless `src` is
/// itself being synced by `srcsrc` on the same cycle.
pub open spec fn sync_resets(
    src: WaveformGenerator,
    dest: WaveformGenerator,
    srcsrc: WaveformGenerator,
) -> bool {
    src.msb_rising && dest.sync && !(src.sync && srcsrc.msb_rising)
}

/// The synchronization pass over the three post-clock oscillators: each
/// reset decision reads the unmodified triple, then the accumulators of the
/// chosen targets are cleared.
pub open spec fn sync_applied(
    w0: WaveformGenerator,
    w1: WaveformGenerator,
    w2: WaveformGenerator,
) -> (WaveformGenerator, WaveformGenerator, WaveformGenerator) {
    (
        if sync_resets(w2, w0, w1) {
            WaveformGenerator { acc: 0u32, ..w0 }
        } else {
            w0
        },
        if sync_resets(w0, w1, w2) {
            WaveformGenerator { acc: 0u32, ..w1 }
        } else {
            w1
        },
        if sync_resets(w1, w2, w0) {
            WaveformGenerator { acc: 0u32, ..w2 }
        } else {
            w2
        },
    )
}

/// The number of cycles an oscillator may advance in one bulk step without
/// missing an accumulator MSB edge that a sync target must see: the cycles
/// to the next MSB toggle, or `bound` if that is sooner. Oscillators that
/// are no sync source, and idle ones, do not constrain the step.
pub open spec fn spec_sync_step(w: WaveformGenerator, dest_sync: bool, bound: int) -> int {
    if !(dest_sync && w.frequency != 0) {
        bound
    } else {
        let da = if w.acc / 0x800000 % 2 == 1 {
            0x1000000 - w.acc
        } else {
            0x800000 - w.acc
        };
        let dn = da / w.frequency as int + if da % (w.frequency as int) != 0 {
            1int
        } else {
            0int
        };
        if dn < bound {
            dn
        } else {
            bound
        }
    }
}

/// The largest safe bulk step for the oscillator triple, at most `bound`
/// and always at least one cycle.
pub open spec fn spec_osc_step(
    w0: WaveformGenerator,
    w1: WaveformGenerator,
    w2: WaveformGenerator,
    bound: int,
) -> int {
    let m0 = spec_sync_step(w0, w1.sync, bound);
    let m1 = spec_sync_step(w1, w2.sync, m0);
    let m2 = spec_sync_step(w2, w0.sync, m1);
    if m2 < 1 {
        1
    } else {
        m2
    }
}

/// The oscillator triple advanced by `delta` cycles: bulk steps from one
/// MSB toggle to the next, each followed by a synchronization pass.
pub open spec fn osc_advanced(
    w0: WaveformGenerator,
    w1: WaveformGenerator,
    w2: WaveformGenerator,
    delta: int,
) -> (WaveformGenerator, WaveformGenerator, WaveformGenerator)
    decreases delta,
{
    if delta <= 0 {
        (w0, w1, w2)
    } else {
        let m = spec_osc_step(w0, w1, w2, delta);
        let t = sync_applied(
            w0.delta_clocked(m as nat),
            w1.delta_clocked(m as nat),
            w2.delta_clocked(m as nat),
        );
        osc_advanced(t.0, t.1, t.2, delta - m)
    }
}

impl Synth {
    /// Well-formedness of every component.
    pub open spec fn wf(self) -> bool {
        &&& self.ext_filter.wf()
        &&& self.filter.wf()
        &&& self.voices[0].wf()
        &&& self.voices[1].wf()
        &&& self.voices[2].wf()
    }

    /// The output of voice `i` with its ring-modulation source, voice
    /// `i+2` modulo three.
    pub open spec fn voice_out(self, i: int) -> int {
        self.voices[i].out(self.voices[(i + 2) % 3].wave.acc)
    }

    /// The effect of one clock cycle on the whole synthesizer: envelopes
    /// and oscillators advance, the oscillators are synchronized, and the
    /// filter and the output stage consume the voice outputs.
    #[verifier::opaque]
    pub open spec fn clocked(self) -> Synth {
        let t = sync_applied(
            self.voices[0].wave.clocked(),
            self.voices[1].wave.clocked(),
            self.voices[2].wave.clocked(),
        );
        let v0 = Voice { envelope: self.voices[0].envelope.clocked(), wave: t.0, ..self.voices[0] };
        let v1 = Voice { envelope: self.voices[1].envelope.clocked(), wave: t.1, ..self.voices[1] };
        let v2 = Voice { envelope: self.voices[2].envelope.clocked(), wave: t.2, ..self.voices[2] };
        let f = self.filter.clocked(
            v0.out(v2.wave.acc) as i32,
            v1.out(v0.wave.acc) as i32,
            v2.out(v1.wave.acc) as i32,
            self.ext_in,
        );
        let e = self.ext_filter.clocked(f.out() as i32);
        Synth {
            ext_filter: e,
            filter: f,
            voices: [v0, v1, v2],
            ..self
        }
    }

    /// `n` clock cycles, one at a time.
    pub open spec fn clocked_n(self, n: nat) -> Synth
        decreases n,
    {
        if n == 0 {
            self
        } else {
            self.clocked().clocked_n((n - 1) as nat)
        }
    }

    /// The effect of a bulk advance by `delta` cycles: envelopes advance in
    /// bulk, the oscillators advance in sync-safe steps, and the filter and
    /// output stage advance in bulk on the final voice outputs.
    #[verifier::opaque]
    pub open spec fn delta_clocked(self, delta: int) -> Synth {
        let t = osc_advanced(
            self.voices[0].wave,
            self.voices[1].wave,
            self.voices[2].wave,
            delta,
        );
        let v0 = Voice {
            envelope: self.voices[0].envelope.bulk_advanced(delta),
            wave: t.0,
            ..self.voices[0]
        };
        let v1 = Voice {
            envelope: self.voices[1].envelope.bulk_advanced(delta),
            wave: t.1,
            ..self.voices[1]
        };
        let v2 = Voice {
            envelope: self.voices[2].envelope.bulk_advanced(delta),
            wave: t.2,
            ..self.voices[2]
        };
        let f = self.filter.delta_clocked(
            delta,
            v0.out(v2.wave.acc) as i32,
            v1.out(v0.wave.acc) as i32,
            v2.out(v1.wave.acc) as i32,
            self.ext_in,
        );
        let e = self.ext_filter.delta_clocked(delta, f.out() as i32);
        Synth {
            ext_filter: e,
            filter: f,
            voices: [v0, v1, v2],
            ..self
        }
    }

    /// The saturated 16-bit sample for the current output-stage state,
    /// scaled down by the chip-to-sample ratio with truncation toward
    /// zero.
    pub open spec fn out(self) -> i16 {
        let vo = self.ext_filter.vo as int;
        let sample = if vo >= 0 {
            vo / (SAMPLES_PER_OUTPUT as int)
        } else {
            -((-vo) / (SAMPLES_PER_OUTPUT as int))
        };
        if sample >= 0x8000 {
            0x7fffi16
        } else if sample < -0x8000 {
            -0x8000i16
        } else {
            sample as i16
        }
    }
}

} // verus!

verus! {

impl Synth {
    /// Unfolding one clock off the back of a run.
    pub proof fn lemma_clocked_n_snoc(self, n: nat)
        ensures
            self.clocked_n(n + 1) == self.clocked_n(n).clocked(),
        decreases n,
    {
        if n > 0 {
            self.clocked().lemma_clocked_n_snoc((n - 1) as nat);
            assert(self.clocked_n(n + 1) == self.clocked().clocked_n(n));
            assert(self.clocked_n(n) == self.clocked().clocked_n((n - 1) as nat));
        } else {
            assert(self.clocked_n(1) == self.clocked().clocked_n(0));
            assert(self.clocked().clocked_n(0) == self.clocked());
        }
    }

    /// A fresh synthesizer for the given chip revision.
    pub fn new(chip_model: ChipModel) -> (r: Synth)
        ensures
            r.ext_filter == ExternalFilter::initial(chip_model),
            r.filter == Filter::initial(chip_model),
            r.voices[0] == Voice::initial(chip_model),
            r.voices[1] == Voice::initial(chip_model),
            r.voices[2] == Voice::initial(chip_model),
            r.ext_in == 0,
            r.wf(),
    {
        Synth {
            ext_filter: ExternalFilter::new(chip_model),
            filter: Filter::new(chip_model),
            voices: [Voice::new(chip_model), Voice::new(chip_model), Voice::new(chip_model)],
            ext_in: 0,
        }
    }

    /// The two-phase synchronization pass: the three reset decisions are
    /// taken on the post-clock oscillators, then applied.
    fn synchronize_all(&mut self)
        ensures
            *final(self) == (Synth {
                voices: [
                    (Voice {
                        wave: sync_applied(
                            old(self).voices[0].wave,
                            old(self).voices[1].wave,
                            old(self).voices[2].wave,
                        ).0,
                        ..old(self).voices[0]
                    }),
                    (Voice {
                        wave: sync_applied(
                            old(self).voices[0].wave,
                            old(self).voices[1].wave,
                            old(self).voices[2].wave,
                        ).1,
                        ..old(self).voices[1]
                    }),
                    (Voice {
                        wave: sync_applied(
                            old(self).voices[0].wave,
                            old(self).voices[1].wave,
                            old(self).voices[2].wave,
                        ).2,
                        ..old(self).voices[2]
                    }),
                ],
                ..*old(self)
            }),
    {
        let w0: WaveformGenerator = self.voices[0].wave;
        let w1: WaveformGenerator = self.voices[1].wave;
        let w2: WaveformGenerator = self.voices[2].wave;
        let mut n0: WaveformGenerator = w0;
        let mut n1: WaveformGenerator = w1;
        let mut n2: WaveformGenerator = w2;
        w2.synchronize(&mut n0, &w1);
        w0.synchronize(&mut n1, &w2);
        w1.synchronize(&mut n2, &w0);
        let mut v0: Voice = self.voices[0];
        let mut v1: Voice = self.voices[1];
        let mut v2: Voice = self.voices[2];
        v0.wave = n0;
        v1.wave = n1;
        v2.wave = n2;
        self.voices = [v0, v1, v2];
        proof {
            let g = sync_applied(
                old(self).voices[0].wave,
                old(self).voices[1].wave,
                old(self).voices[2].wave,
            );
            let gv = [
                Voice { wave: g.0, ..old(self).voices[0] },
                Voice { wave: g.1, ..old(self).voices[1] },
                Voice { wave: g.2, ..old(self).voices[2] },
            ];
            assert(self.voices =~= gv);
        }
    }

    /// Advance the whole synthesizer by one cycle.
    pub fn clock(&mut self)
        requires
            old(self).wf(),
        ensures
            *final(self) == old(self).clocked(),
            final(self).wf(),
    {
        let mut v0: Voice = self.voices[0];
        let mut v1: Voice = self.voices[1];
        let mut v2: Voice = self.voices[2];
        v0.envelope.clock();
        v1.envelope.clock();
        v2.envelope.clock();
        v0.wave.clock();
        v1.wave.clock();
        v2.wave.clock();
        self.voices = [v0, v1, v2];
        self.synchronize_all();
        let out0: i32 = self.voices[0].output(Some(&self.voices[2].wave));
        let out1: i32 = self.voices[1].output(Some(&self.voices[0].wave));
        let out2: i32 = self.voices[2].output(Some(&self.voices[1].wave));
        self.filter.clock(out0, out1, out2, self.ext_in);
        let fout: i32 = self.filter.output();
        self.ext_filter.clock(fout);
        proof {
            reveal(Synth::clocked);
            let g = old(self).clocked();
            assert(self.voices =~= g.voices);
        }
    }

    /// The largest bulk step the oscillator triple allows, so that no sync
    /// source's MSB edge falls inside a step.
    fn osc_step(&self, bound: u32) -> (r: u32)
        requires
            self.wf(),
            bound >= 1,
        ensures
            r == spec_osc_step(
                self.voices[0].wave,
                self.voices[1].wave,
                self.voices[2].wave,
                bound as int,
            ),
            1 <= r <= bound,
    {
        let m0: u32 = Self::sync_step(&self.voices[0].wave, self.voices[1].wave.get_sync(), bound);
        let m1: u32 = Self::sync_step(&self.voices[1].wave, self.voices[2].wave.get_sync(), m0);
        let m2: u32 = Self::sync_step(&self.voices[2].wave, self.voices[0].wave.get_sync(), m1);
        m2
    }

    /// Cycles to the next MSB toggle of `w`, bounded by `bound`; unbounded
    /// when `w` constrains nothing.
    fn sync_step(w: &WaveformGenerator, dest_sync: bool, bound: u32) -> (r: u32)
        requires
            w.wf(),
            bound >= 1,
        ensures
            r == spec_sync_step(*w, dest_sync, bound as int),
            1 <= r <= bound,
    {
        if !(dest_sync && w.frequency != 0) {
            bound
        } else {
            let acc: u32 = w.acc;
            let freq: u32 = w.frequency as u32;
            proof {
                assert(acc / 0x800000 % 2 == 1 ==> acc >= 0x800000) by (nonlinear_arith)
                    requires
                        acc <= 0xffffffu32,
                ;
            }
            let da: u32 = if acc / 0x800000 % 2 == 1 {
                0x1000000 - acc
            } else {
                0x800000 - acc
            };
            proof {
                assert(da / freq + (if da % freq != 0 { 1int } else { 0int }) >= 1)
                    by (nonlinear_arith)
                    requires
                        da >= 1,
                        freq >= 1,
                ;
                assert(da / freq <= da) by (nonlinear_arith)
                    requires
                        da >= 1,
                        freq >= 1,
                ;
            }
            let dn: u32 = da / freq + (if da % freq != 0 {
                1
            } else {
                0
            });
            if dn < bound {
                dn
            } else {
                bound
            }
        }
    }

    /// Advance the whole synthesizer by `delta` cycles in bulk. The
    /// oscillators advance from one accumulator MSB toggle to the next so
    /// that hard sync sees every edge.
    pub fn clock_delta(&mut self, delta: u32)
        requires
            old(self).wf(),
        ensures
            *final(self) == old(self).delta_clocked(delta as int),
            final(self).wf(),
    {
        let mut v0: Voice = self.voices[0];
        let mut v1: Voice = self.voices[1];
        let mut v2: Voice = self.voices[2];
        v0.envelope.clock_delta(delta);
        v1.envelope.clock_delta(delta);
        v2.envelope.clock_delta(delta);
        self.voices = [v0, v1, v2];
        let ghost mid: Synth = *self;
        let mut delta_osc: u32 = delta;
        while delta_osc != 0
            invariant
                self.wf(),
                osc_advanced(
                    self.voices[0].wave,
                    self.voices[1].wave,
                    self.voices[2].wave,
                    delta_osc as int,
                ) == osc_advanced(
                    mid.voices[0].wave,
                    mid.voices[1].wave,
                    mid.voices[2].wave,
                    delta as int,
                ),
                self.ext_filter == mid.ext_filter,
                self.filter == mid.filter,
                self.ext_in == mid.ext_in,
                self.voices[0] == (Voice { wave: self.voices[0].wave, ..mid.voices[0] }),
                self.voices[1] == (Voice { wave: self.voices[1].wave, ..mid.voices[1] }),
                self.voices[2] == (Voice { wave: self.voices[2].wave, ..mid.voices[2] }),
            decreases delta_osc,
        {
            let delta_min: u32 = self.osc_step(delta_osc);
            let mut u0: Voice = self.voices[0];
            let mut u1: Voice = self.voices[1];
            let mut u2: Voice = self.voices[2];
            u0.wave.clock_delta(delta_min);
            u1.wave.clock_delta(delta_min);
            u2.wave.clock_delta(delta_min);
            self.voices = [u0, u1, u2];
            self.synchronize_all();
            delta_osc = delta_osc - delta_min;
        }
        let out0: i32 = self.voices[0].output(Some(&self.voices[2].wave));
        let out1: i32 = self.voices[1].output(Some(&self.voices[0].wave));
        let out2: i32 = self.voices[2].output(Some(&self.voices[1].wave));
        self.filter.clock_delta(delta, out0, out1, out2, self.ext_in);
        let fout: i32 = self.filter.output();
        self.ext_filter.clock_delta(delta, fout);
        proof {
            reveal(Synth::delta_clocked);
            let g = old(self).delta_clocked(delta as int);
            assert(self.voices =~= g.voices);
        }
    }

    /// The saturated 16-bit audio sample for the current state.
    pub fn output(&self) -> (r: i16)
        ensures
            r == self.out(),
    {
        let vo: i32 = self.ext_filter.output();
        let sample: i64 = if vo >= 0 {
            ((vo as u64) / (SAMPLES_PER_OUTPUT as u64)) as i64
        } else {
            -((((-(vo as i64)) as u64) / (SAMPLES_PER_OUTPUT as u64)) as i64)
        };
        if sample >= 0x8000 {
            0x7fff
        } else if sample < -0x8000 {
            -0x8000
        } else {
            sample as i16
        }
    }

    /// The synthesizer after a reset: every component in its power-on
    /// state, the enable flags and chip revisions kept, the external input
    /// cleared.
    pub open spec fn after_reset(self) -> Synth {
        Synth {
            ext_filter: ExternalFilter { vlp: 0i32, vhp: 0i32, vo: 0i32, ..self.ext_filter },
            filter: Filter {
                fc: 0u16,
                filt: 0u8,
                res: 0u8,
                voice3_off: false,
                hp_bp_lp: 0u8,
                vol: 0u8,
                vhp: 0i32,
                vbp: 0i32,
                vlp: 0i32,
                vnf: 0i32,
                q_1024_div: crate::filter::Q_1024_DIV@[0],
                w0: crate::data::spec_w0(self.filter.chip_model, 0),
                w0_ceil_1: Filter::clamp_w0(
                    crate::data::spec_w0(self.filter.chip_model, 0),
                    crate::filter::W0_CEIL_1,
                ),
                w0_ceil_dt: Filter::clamp_w0(
                    crate::data::spec_w0(self.filter.chip_model, 0),
                    crate::filter::W0_CEIL_DT,
                ),
                ..self.filter
            },
            voices: [
                (Voice {
                    envelope: crate::envelope::EnvelopeGenerator::initial(),
                    wave: WaveformGenerator::initial(self.voices[0].wave.chip_model),
                    ..self.voices[0]
                }),
                (Voice {
                    envelope: crate::envelope::EnvelopeGenerator::initial(),
                    wave: WaveformGenerator::initial(self.voices[1].wave.chip_model),
                    ..self.voices[1]
                }),
                (Voice {
                    envelope: crate::envelope::EnvelopeGenerator::initial(),
                    wave: WaveformGenerator::initial(self.voices[2].wave.chip_model),
                    ..self.voices[2]
                }),
            ],
            ext_in: 0,
        }
    }

    /// Reset every component to its power-on state; the external input is
    /// cleared too.
    pub fn reset(&mut self)
        requires
            old(self).wf(),
        ensures
            *final(self) == old(self).after_reset(),
            final(self).wf(),
            final(self).ext_filter == (ExternalFilter {
                vlp: 0i32,
                vhp: 0i32,
                vo: 0i32,
                ..old(self).ext_filter
            }),
            final(self).filter == (Filter {
                fc: 0u16,
                filt: 0u8,
                res: 0u8,
                voice3_off: false,
                hp_bp_lp: 0u8,
                vol: 0u8,
                vhp: 0i32,
                vbp: 0i32,
                vlp: 0i32,
                vnf: 0i32,
                q_1024_div: crate::filter::Q_1024_DIV@[0],
                w0: crate::data::spec_w0(old(self).filter.chip_model, 0),
                w0_ceil_1: Filter::clamp_w0(
                    crate::data::spec_w0(old(self).filter.chip_model, 0),
                    crate::filter::W0_CEIL_1,
                ),
                w0_ceil_dt: Filter::clamp_w0(
                    crate::data::spec_w0(old(self).filter.chip_model, 0),
                    crate::filter::W0_CEIL_DT,
                ),
                ..old(self).filter
            }),
            final(self).wf(),
            final(self).ext_in == 0,
            final(self).voices[0].envelope == crate::envelope::EnvelopeGenerator::initial(),
            final(self).voices[1].envelope == crate::envelope::EnvelopeGenerator::initial(),
            final(self).voices[2].envelope == crate::envelope::EnvelopeGenerator::initial(),
            final(self).voices[0].wave == WaveformGenerator::initial(
                old(self).voices[0].wave.chip_model,
            ),
            final(self).voices[1].wave == WaveformGenerator::initial(
                old(self).voices[1].wave.chip_model,
            ),
            final(self).voices[2].wave == WaveformGenerator::initial(
                old(self).voices[2].wave.chip_model,
            ),
    {
        self.ext_filter.reset();
        self.filter.reset();
        let mut v0: Voice = self.voices[0];
        let mut v1: Voice = self.voices[1];
        let mut v2: Voice = self.voices[2];
        v0.reset();
        v1.reset();
        v2.reset();
        self.voices = [v0, v1, v2];
        self.ext_in = 0;
        proof {
            assert(self.voices =~= old(self).after_reset().voices);
        }
    }
}

} // verus!

verus! {

impl Synth {
    /// The effect of a register write on the synthesizer: voice registers
    /// dispatch by position inside the voice's seven-register bank, the
    /// global registers reach the filter, and everything else is ignored.
    pub open spec fn reg_written(self, reg: u8, value: u8) -> Synth {
        if reg < 0x15 {
            let i = reg as int / 7;
            let r = reg as int % 7;
            let v = self.voices[i];
            let v2 = if r == 0 {
                Voice {
                    wave: WaveformGenerator {
                        frequency: (v.wave.frequency / 256 * 256 + value) as u16,
                        ..v.wave
                    },
                    ..v
                }
            } else if r == 1 {
                Voice {
                    wave: WaveformGenerator {
                        frequency: (value * 256 + v.wave.frequency % 256) as u16,
                        ..v.wave
                    },
                    ..v
                }
            } else if r == 2 {
                Voice {
                    wave: WaveformGenerator {
                        pulse_width: (v.wave.pulse_width / 256 * 256 + value) as u16,
                        ..v.wave
                    },
                    ..v
                }
            } else if r == 3 {
                Voice {
                    wave: WaveformGenerator {
                        pulse_width: (value % 16 * 256 + v.wave.pulse_width % 256) as u16,
                        ..v.wave
                    },
                    ..v
                }
            } else if r == 4 {
                Voice {
                    envelope: v.envelope.control_written(value),
                    wave: v.wave.control_written(value),
                    ..v
                }
            } else if r == 5 {
                Voice {
                    envelope: crate::envelope::EnvelopeGenerator {
                        attack: value / 16,
                        decay: value % 16,
                        rate_period: match v.envelope.state {
                            crate::envelope::State::Attack => crate::envelope::RATE_COUNTER_PERIOD@[value as int / 16],
                            crate::envelope::State::DecaySustain => crate::envelope::RATE_COUNTER_PERIOD@[value as int % 16],
                            crate::envelope::State::Release => v.envelope.rate_period,
                        },
                        ..v.envelope
                    },
                    ..v
                }
            } else {
                Voice {
                    envelope: crate::envelope::EnvelopeGenerator {
                        sustain: value / 16,
                        release: value % 16,
                        rate_period: match v.envelope.state {
                            crate::envelope::State::Release => crate::envelope::RATE_COUNTER_PERIOD@[value as int % 16],
                            _ => v.envelope.rate_period,
                        },
                        ..v.envelope
                    },
                    ..v
                }
            };
            Synth {
                voices: if i == 0 {
                    [v2, self.voices[1], self.voices[2]]
                } else if i == 1 {
                    [self.voices[0], v2, self.voices[2]]
                } else {
                    [self.voices[0], self.voices[1], v2]
                },
                ..self
            }
        } else if reg == 0x15 {
            Synth {
                filter: Filter {
                    fc: (self.filter.fc / 8 * 8 + value % 8) as u16,
                    w0: crate::data::spec_w0(
                        self.filter.chip_model,
                        self.filter.fc as int / 8 * 8 + value as int % 8,
                    ),
                    w0_ceil_1: Filter::clamp_w0(
                        crate::data::spec_w0(
                            self.filter.chip_model,
                            self.filter.fc as int / 8 * 8 + value as int % 8,
                        ),
                        crate::filter::W0_CEIL_1,
                    ),
                    w0_ceil_dt: Filter::clamp_w0(
                        crate::data::spec_w0(
                            self.filter.chip_model,
                            self.filter.fc as int / 8 * 8 + value as int % 8,
                        ),
                        crate::filter::W0_CEIL_DT,
                    ),
                    ..self.filter
                },
                ..self
            }
        } else if reg == 0x16 {
            Synth {
                filter: Filter {
                    fc: (value * 8 + self.filter.fc % 8) as u16,
                    w0: crate::data::spec_w0(
                        self.filter.chip_model,
                        value as int * 8 + self.filter.fc as int % 8,
                    ),
                    w0_ceil_1: Filter::clamp_w0(
                        crate::data::spec_w0(
                            self.filter.chip_model,
                            value as int * 8 + self.filter.fc as int % 8,
                        ),
                        crate::filter::W0_CEIL_1,
                    ),
                    w0_ceil_dt: Filter::clamp_w0(
                        crate::data::spec_w0(
                            self.filter.chip_model,
                            value as int * 8 + self.filter.fc as int % 8,
                        ),
                        crate::filter::W0_CEIL_DT,
                    ),
                    ..self.filter
                },
                ..self
            }
        } else if reg == 0x17 {
            Synth {
                filter: Filter {
                    res: value / 16,
                    filt: value % 16,
                    q_1024_div: crate::filter::Q_1024_DIV@[value as int / 16],
                    ..self.filter
                },
                ..self
            }
        } else if reg == 0x18 {
            Synth {
                filter: Filter {
                    voice3_off: value / 128 % 2 == 1,
                    hp_bp_lp: (value / 16 % 8) as u8,
                    vol: value % 16,
                    ..self.filter
                },
                ..self
            }
        } else {
            self
        }
    }

    /// The register file `regs[0..n]` replayed through the write path in
    /// ascending order.
    pub open spec fn regs_written(syn: Synth, regs: Seq<u8>, n: int) -> Synth
        decreases n,
    {
        if n <= 0 {
            syn
        } else {
            Self::regs_written(syn, regs, n - 1).reg_written((n - 1) as u8, regs[n - 1])
        }
    }

    /// Dispatch a register write.
    pub fn write(&mut self, reg: u8, value: u8)
        requires
            old(self).wf(),
            reg <= 0x1c,
        ensures
            *final(self) == old(self).reg_written(reg, value),
            final(self).wf(),
    {
        if reg < 0x15 {
            let i: usize = (reg / 7) as usize;
            let r: u8 = reg % 7;
            let mut v: Voice = self.voices[i];
            match r {
                0 => v.wave.set_frequency_lo(value),
                1 => v.wave.set_frequency_hi(value),
                2 => v.wave.set_pulse_width_lo(value),
                3 => v.wave.set_pulse_width_hi(value),
                4 => v.set_control(value),
                5 => v.envelope.set_attack_decay(value),
                _ => v.envelope.set_sustain_release(value),
            }
            self.voices[i] = v;
            proof {
                assert(self.voices =~= old(self).reg_written(reg, value).voices);
            }
        } else if reg == 0x15 {
            self.filter.set_fc_lo(value);
        } else if reg == 0x16 {
            self.filter.set_fc_hi(value);
        } else if reg == 0x17 {
            self.filter.set_res_filt(value);
        } else if reg == 0x18 {
            self.filter.set_mode_vol(value);
        }
    }

    /// What a register read returns, given the current bus value: the pot
    /// registers read high, the probe registers read the third voice, and
    /// everything else reads the bus.
    pub fn read(&self, reg: u8, bus_value: u8) -> (r: u8)
        requires
            self.wf(),
            reg <= 0x1c,
        ensures
            r == (if reg == 0x19 || reg == 0x1a {
                0xffu8
            } else if reg == 0x1b {
                (self.voices[2].wave.out_wave(self.voices[1].wave.acc) / 16) as u8
            } else if reg == 0x1c {
                self.voices[2].envelope.envelope_counter
            } else {
                bus_value
            }),
    {
        match reg {
            0x19 => 0xff,
            0x1a => 0xff,
            0x1b => self.voices[2].wave.read_osc(Some(&self.voices[1].wave)),
            0x1c => self.voices[2].envelope.read_env(),
            _ => bus_value,
        }
    }
}

} // verus!
