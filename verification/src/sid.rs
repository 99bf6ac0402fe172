//! The chip facade: the register-mapped control interface around the
//! synthesizer and its sampler, with the floating-bus behavior of reads.
//!
//! Twenty-nine registers cover the three voices (seven each), the filter
//! and the read-only probe registers. A write drives the data bus; the
//! written value remains readable on unmapped registers for a fixed number
//! of cycles before the bus decays to zero.

use vstd::prelude::*;

use crate::envelope::State as EnvState;
use crate::sampler::Sampler;
use crate::sampler::SamplingMethod;
use crate::synth::Synth;
use crate::voice::Voice;
use crate::ChipModel;

verus! {

pub const FREQLO1: u8 = 0x00;

pub const FREQHI1: u8 = 0x01;

pub const PWLO1: u8 = 0x02;

pub const PWHI1: u8 = 0x03;

pub const CR1: u8 = 0x04;

pub const AD1: u8 = 0x05;

pub const SR1: u8 = 0x06;

pub const FREQLO2: u8 = 0x07;

pub const FREQHI2: u8 = 0x08;

pub const PWLO2: u8 = 0x09;

pub const PWHI2: u8 = 0x0a;

pub const CR2: u8 = 0x0b;

pub const AD2: u8 = 0x0c;

pub const SR2: u8 = 0x0d;

pub const FREQLO3: u8 = 0x0e;

pub const FREQHI3: u8 = 0x0f;

pub const PWLO3: u8 = 0x10;

pub const PWHI3: u8 = 0x11;

pub const CR3: u8 = 0x12;

pub const AD3: u8 = 0x13;

pub const SR3: u8 = 0x14;

pub const FCLO: u8 = 0x15;

pub const FCHI: u8 = 0x16;

pub const RESFILT: u8 = 0x17;

pub const MODVOL: u8 = 0x18;

pub const POTX: u8 = 0x19;

pub const POTY: u8 = 0x1a;

pub const OSC3: u8 = 0x1b;

pub const ENV3: u8 = 0x1c;

/// How many cycles a written value stays readable on the bus.
pub const BUS_VALUE_TTL: u32 = 0x2000;

/// A full snapshot of the chip's internal state, for save states.
#[derive(Debug)]
pub struct State {
    pub sid_register: [u8; 32],
    pub bus_value: u8,
    pub bus_value_ttl: u32,
    pub ext_in: i32,
    pub accumulator: [u32; 3],
    pub shift_register: [u32; 3],
    pub envelope_state: [u8; 3],
    pub envelope_counter: [u8; 3],
    pub exponential_counter: [u8; 3],
    pub exponential_counter_period: [u8; 3],
    pub hold_zero: [u8; 3],
    pub rate_counter: [u16; 3],
    pub rate_counter_period: [u16; 3],
}

pub struct Sid {
    // Functional units
    pub sampler: Sampler,
    // Runtime state
    pub bus_value: u8,
    pub bus_value_ttl: u32,
}

impl Sid {
    /// Well-formedness of the whole chip.
    pub open spec fn wf(self) -> bool {
        self.sampler.wf()
    }

    /// The bus value after one cycle of decay.
    pub open spec fn bus_aged(self) -> (u8, u32) {
        if self.bus_value_ttl > 1 {
            (self.bus_value, (self.bus_value_ttl - 1) as u32)
        } else {
            (0u8, 0u32)
        }
    }

    /// The bus value after `delta` cycles of decay.
    pub open spec fn bus_aged_delta(self, delta: u32) -> (u8, u32) {
        if self.bus_value_ttl > delta {
            (self.bus_value, (self.bus_value_ttl - delta) as u32)
        } else {
            (0u8, 0u32)
        }
    }

    /// What a register read returns: the probe registers read the chip,
    /// every other register reads the decaying bus.
    pub open spec fn read_of(self, reg: u8) -> u8 {
        if reg == POTX || reg == POTY {
            0xffu8
        } else if reg == OSC3 {
            (self.sampler.synth.voices[2].wave.out_wave(
                self.sampler.synth.voices[1].wave.acc,
            ) / 16) as u8
        } else if reg == ENV3 {
            self.sampler.synth.voices[2].envelope.envelope_counter
        } else {
            self.bus_value
        }
    }

    /// A fresh chip of the given revision, sampling with the fast
    /// strategy at 44.1 kHz from the standard clock.
    pub fn new(chip_model: ChipModel) -> (r: Sid)
        ensures
            r.wf(),
            r.bus_value == 0,
            r.bus_value_ttl == 0,
            r.sampler.synth.filter == crate::filter::Filter::initial(chip_model),
            r.sampler.synth.ext_filter == crate::external_filter::ExternalFilter::initial(
                chip_model,
            ),
            r.sampler.synth.voices[0] == Voice::initial(chip_model),
            r.sampler.synth.voices[1] == Voice::initial(chip_model),
            r.sampler.synth.voices[2] == Voice::initial(chip_model),
            r.sampler.synth.ext_in == 0,
            r.sampler.sampling_method == SamplingMethod::Fast,
            r.sampler.cycles_per_sample == Sampler::spec_cycles_per_sample(985248, 44100),
            r.sampler.sample_index == 0,
            r.sampler.sample_offset == 0,
            r.sampler.sample_prev == 0,
    {
        let synth = Synth::new(chip_model);
        let mut sid = Sid { sampler: Sampler::new(synth), bus_value: 0, bus_value_ttl: 0 };
        sid.set_sampling_parameters(SamplingMethod::Fast, 985_248, 44100);
        sid
    }

    /// Select the sampling strategy and frequencies.
    pub fn set_sampling_parameters(
        &mut self,
        method: SamplingMethod,
        clock_freq: u32,
        sample_freq: u32,
    )
        requires
            old(self).wf(),
            1 <= sample_freq <= clock_freq,
            clock_freq < sample_freq as int * 4096,
        ensures
            final(self).wf(),
            *final(self) == (Sid {
                sampler: (Sampler {
                    cycles_per_sample: Sampler::spec_cycles_per_sample(
                        clock_freq,
                        sample_freq,
                    ) as u32,
                    sampling_method: method,
                    sample_buffer: final(self).sampler.sample_buffer,
                    sample_index: 0,
                    sample_offset: 0,
                    sample_prev: 0,
                    ..old(self).sampler
                }),
                ..*old(self)
            }),
    {
        self.sampler.set_parameters(method, clock_freq, sample_freq);
    }

    /// Advance the chip by one cycle, aging the bus.
    pub fn clock(&mut self)
        requires
            old(self).wf(),
        ensures
            final(self).wf(),
            *final(self) == (Sid {
                sampler: (Sampler {
                    synth: old(self).sampler.synth.clocked(),
                    ..old(self).sampler
                }),
                bus_value: old(self).bus_aged().0,
                bus_value_ttl: old(self).bus_aged().1,
            }),
    {
        if self.bus_value_ttl > 0 {
            self.bus_value_ttl = self.bus_value_ttl - 1;
            if self.bus_value_ttl == 0 {
                self.bus_value = 0;
            }
        } else {
            self.bus_value = 0;
        }
        self.sampler.synth.clock();
    }

    /// Advance the chip by `delta` cycles in bulk, aging the bus.
    pub fn clock_delta(&mut self, delta: u32)
        requires
            old(self).wf(),
        ensures
            final(self).wf(),
            *final(self) == (Sid {
                sampler: (Sampler {
                    synth: old(self).sampler.synth.delta_clocked(delta as int),
                    ..old(self).sampler
                }),
                bus_value: old(self).bus_aged_delta(delta).0,
                bus_value_ttl: old(self).bus_aged_delta(delta).1,
            }),
    {
        if self.bus_value_ttl >= delta {
            self.bus_value_ttl = self.bus_value_ttl - delta;
        } else {
            self.bus_value_ttl = 0;
        }
        if self.bus_value_ttl == 0 {
            self.bus_value = 0;
        }
        self.sampler.synth.clock_delta(delta);
    }

    /// Enable or bypass the output-stage filter.
    pub fn enable_external_filter(&mut self, enabled: bool)
        requires
            old(self).wf(),
        ensures
            final(self).wf(),
            *final(self) == (Sid {
                sampler: (Sampler {
                    synth: (Synth {
                        ext_filter: (crate::external_filter::ExternalFilter {
                            enabled,
                            ..old(self).sampler.synth.ext_filter
                        }),
                        ..old(self).sampler.synth
                    }),
                    ..old(self).sampler
                }),
                ..*old(self)
            }),
    {
        self.sampler.synth.ext_filter.set_enabled(enabled);
    }

    /// Enable or bypass the main filter.
    pub fn enable_filter(&mut self, enabled: bool)
        requires
            old(self).wf(),
        ensures
            final(self).wf(),
            *final(self) == (Sid {
                sampler: (Sampler {
                    synth: (Synth {
                        filter: (crate::filter::Filter {
                            enabled,
                            ..old(self).sampler.synth.filter
                        }),
                        ..old(self).sampler.synth
                    }),
                    ..old(self).sampler
                }),
                ..*old(self)
            }),
    {
        self.sampler.synth.filter.set_enabled(enabled);
    }

    /// Feed the external audio input; the sample is scaled to the level of
    /// three voices.
    pub fn input(&mut self, sample: i32)
        requires
            old(self).wf(),
            -0x200_0000 <= sample <= 0x200_0000,
        ensures
            final(self).wf(),
            *final(self) == (Sid {
                sampler: (Sampler {
                    synth: (Synth { ext_in: (sample * 48) as i32, ..old(self).sampler.synth }),
                    ..old(self).sampler
                }),
                ..*old(self)
            }),
    {
        self.sampler.synth.ext_in = sample * 16 * 3;
    }

    /// The current saturated 16-bit audio sample.
    pub fn output(&self) -> (r: i16)
        ensures
            r == self.sampler.synth.out(),
    {
        self.sampler.synth.output()
    }

    /// Reset the chip; the sampling configuration is kept.
    pub fn reset(&mut self)
        requires
            old(self).wf(),
        ensures
            final(self).wf(),
            *final(self) == (Sid {
                sampler: (Sampler {
                    synth: old(self).sampler.synth.after_reset(),
                    sample_index: 0,
                    sample_offset: 0,
                    sample_prev: 0,
                    ..old(self).sampler
                }),
                bus_value: 0,
                bus_value_ttl: 0,
            }),
    {
        self.sampler.reset();
        self.bus_value = 0;
        self.bus_value_ttl = 0;
    }

    /// Clock the chip over a cycle budget while producing audio samples
    /// into `buffer`; returns the samples produced and the unconsumed
    /// cycles.
    pub fn sample(&mut self, delta: u32, buffer: &mut [i16], interleave: usize) -> (r: (
        usize,
        u32,
    ))
        requires
            old(self).wf(),
            1 <= interleave,
        ensures
            final(self).wf(),
            final(self).bus_value == old(self).bus_value,
            final(self).bus_value_ttl == old(self).bus_value_ttl,
            ({
                let cap = (old(buffer)@.len() as int / interleave as int) as nat;
                let run = match old(self).sampler.sampling_method {
                    SamplingMethod::Fast => Sampler::fast_run(old(self).sampler, delta, cap),
                    SamplingMethod::Interpolate => Sampler::interp_run(
                        old(self).sampler,
                        delta,
                        cap,
                    ),
                    SamplingMethod::Resample => Sampler::resample_run(
                        old(self).sampler,
                        delta,
                        cap,
                    ),
                    SamplingMethod::ResampleFast => Sampler::resample_fast_run(
                        old(self).sampler,
                        delta,
                        cap,
                    ),
                };
                &&& final(self).sampler == run.0
                &&& r.0 == run.2
                &&& r.1 == run.3
                &&& final(buffer)@ == crate::sampler::written(
                    old(buffer)@,
                    run.1,
                    interleave as int,
                )
            }),
    {
        self.sampler.clock(delta, buffer, interleave)
    }

    /// Read a register: the pot positions read high, the probe registers
    /// read the third voice, and everything else reads the decaying bus.
    pub fn read(&self, reg: u8) -> (r: u8)
        requires
            self.wf(),
            reg <= ENV3,
        ensures
            r == self.read_of(reg),
    {
        match reg {
            0x19 => 0xff,
            0x1a => 0xff,
            0x1b => self.sampler.synth.voices[2].wave.read_osc(
                Some(&self.sampler.synth.voices[1].wave),
            ),
            0x1c => self.sampler.synth.voices[2].envelope.read_env(),
            _ => self.bus_value,
        }
    }
}

} // verus!

verus! {

impl Sid {
    /// Write a register: the value drives the bus for the next
    /// `BUS_VALUE_TTL` cycles and reaches the addressed unit.
    pub fn write(&mut self, reg: u8, value: u8)
        requires
            old(self).wf(),
            reg <= ENV3,
        ensures
            final(self).wf(),
            *final(self) == (Sid {
                sampler: (Sampler {
                    synth: old(self).sampler.synth.reg_written(reg, value),
                    ..old(self).sampler
                }),
                bus_value: value,
                bus_value_ttl: BUS_VALUE_TTL,
            }),
    {
        self.bus_value = value;
        self.bus_value_ttl = BUS_VALUE_TTL;
        self.sampler.synth.write(reg, value);
    }

    /// The chip after `n` single clock cycles.
    pub open spec fn clocked_n(self, n: nat) -> Sid
        decreases n,
    {
        if n == 0 {
            self
        } else {
            let aged = self.bus_aged();
            (Sid {
                sampler: (Sampler { synth: self.sampler.synth.clocked(), ..self.sampler }),
                bus_value: aged.0,
                bus_value_ttl: aged.1,
            }).clocked_n((n - 1) as nat)
        }
    }
}

/// Law: bus value decay. After a write, reading any unmapped register
/// returns the written value for exactly `BUS_VALUE_TTL` further cycles,
/// and zero from then on; the probe registers are unaffected by the bus.
pub proof fn lemma_bus_decay(s: Sid, reg: u8, value: u8, wreg: u8, k: nat)
    requires
        s.wf(),
        wreg <= ENV3,
        reg < POTX,
    ensures
        ({
            let after_write = Sid {
                sampler: (Sampler {
                    synth: s.sampler.synth.reg_written(wreg, value),
                    ..s.sampler
                }),
                bus_value: value,
                bus_value_ttl: BUS_VALUE_TTL,
            };
            after_write.clocked_n(k).read_of(reg) == (if k < BUS_VALUE_TTL {
                value
            } else {
                0u8
            })
        }),
{
    let after_write = Sid {
        sampler: (Sampler { synth: s.sampler.synth.reg_written(wreg, value), ..s.sampler }),
        bus_value: value,
        bus_value_ttl: BUS_VALUE_TTL,
    };
    lemma_bus_age_run(after_write, k);
}

/// Clocking ages the bus: the written value survives for one cycle fewer
/// than the remaining time to live, then the bus reads zero.
proof fn lemma_bus_age_run(s: Sid, k: nat)
    requires
        s.bus_value_ttl == 0 ==> s.bus_value == 0,
    ensures
        s.clocked_n(k).bus_value == (if (k as int) < s.bus_value_ttl {
            s.bus_value
        } else {
            0u8
        }),
        s.clocked_n(k).bus_value_ttl == (if (k as int) < s.bus_value_ttl {
            s.bus_value_ttl - k
        } else {
            0
        }),
    decreases k,
{
    if k > 0 {
        let aged = s.bus_aged();
        let s1 = Sid {
            sampler: (Sampler { synth: s.sampler.synth.clocked(), ..s.sampler }),
            bus_value: aged.0,
            bus_value_ttl: aged.1,
        };
        lemma_bus_age_run(s1, (k - 1) as nat);
    }
}

} // verus!

verus! {

impl Sid {
    /// The register-file byte reported for index `j` of a state snapshot:
    /// the voice and filter configuration as it reads back, the probe
    /// registers as a live read, and zero above the register map.
    pub open spec fn spec_register(self, j: int) -> u8 {
        let syn = self.sampler.synth;
        if j < 0x15 {
            let v = syn.voices[j / 7];
            let r = j % 7;
            if r == 0 {
                (v.wave.frequency % 256) as u8
            } else if r == 1 {
                (v.wave.frequency / 256) as u8
            } else if r == 2 {
                (v.wave.pulse_width % 256) as u8
            } else if r == 3 {
                (v.wave.pulse_width / 256) as u8
            } else if r == 4 {
                (((if v.wave.sync {
                    2u8
                } else {
                    0u8
                }) + (if v.wave.ring {
                    4u8
                } else {
                    0u8
                }) + (if v.wave.test {
                    8u8
                } else {
                    0u8
                }) + v.wave.waveform * 16) + (if v.envelope.gate {
                    1u8
                } else {
                    0u8
                })) as u8
            } else if r == 5 {
                (v.envelope.attack * 16 + v.envelope.decay) as u8
            } else {
                (v.envelope.sustain * 16 + v.envelope.release) as u8
            }
        } else if j == 0x15 {
            (syn.filter.fc % 8) as u8
        } else if j == 0x16 {
            (syn.filter.fc / 8) as u8
        } else if j == 0x17 {
            (syn.filter.res * 16 + syn.filter.filt) as u8
        } else if j == 0x18 {
            ((if syn.filter.voice3_off {
                0x80u8
            } else {
                0u8
            }) + syn.filter.hp_bp_lp * 16 + syn.filter.vol) as u8
        } else if j <= 0x1c {
            self.read_of(j as u8)
        } else {
            0u8
        }
    }

    /// The envelope phase encoding used in snapshots.
    pub open spec fn spec_env_state(st: EnvState) -> u8 {
        match st {
            EnvState::Attack => 0u8,
            EnvState::DecaySustain => 1u8,
            EnvState::Release => 2u8,
        }
    }

    /// Snapshot the full internal state.
    pub fn read_state(&self) -> (r: State)
        requires
            self.wf(),
        ensures
            r.sid_register@ == Seq::new(32nat, |j: int| self.spec_register(j)),
            r.bus_value == self.bus_value,
            r.bus_value_ttl == self.bus_value_ttl,
            r.ext_in == self.sampler.synth.ext_in,
            forall|i: int|
                0 <= i < 3 ==> {
                    let v = #[trigger] self.sampler.synth.voices[i];
                    &&& r.accumulator@[i] == v.wave.acc
                    &&& r.shift_register@[i] == v.wave.shift
                    &&& r.envelope_state@[i] == Self::spec_env_state(v.envelope.state)
                    &&& r.envelope_counter@[i] == v.envelope.envelope_counter
                    &&& r.exponential_counter@[i] == v.envelope.exponential_counter
                    &&& r.exponential_counter_period@[i] == v.envelope.exponential_counter_period
                    &&& r.hold_zero@[i] == (if v.envelope.hold_zero {
                        1u8
                    } else {
                        0u8
                    })
                    &&& r.rate_counter@[i] == v.envelope.rate_counter
                    &&& r.rate_counter_period@[i] == v.envelope.rate_period
                },
    {
        let mut state = State {
            sid_register: [0; 32],
            bus_value: 0,
            bus_value_ttl: 0,
            ext_in: 0,
            accumulator: [0; 3],
            shift_register: [0; 3],
            envelope_state: [0; 3],
            envelope_counter: [0; 3],
            exponential_counter: [0; 3],
            exponential_counter_period: [0; 3],
            hold_zero: [0; 3],
            rate_counter: [0; 3],
            rate_counter_period: [0; 3],
        };
        proof {
            broadcast use vstd::array::axiom_spec_array_fill_for_copy_type;

            assert(forall|t: int| 0 <= t < 32 ==> state.sid_register@[t] == 0u8);
        }
        let mut i: usize = 0;
        while i < 3
            invariant
                self.wf(),
                i <= 3,
                forall|j: int|
                    0 <= j < i as int * 7 ==> state.sid_register@[j] == self.spec_register(j),
                forall|j: int| i as int * 7 <= j < 32 ==> state.sid_register@[j] == 0u8,
            decreases 3 - i,
        {
            let j: usize = i * 7;
            let v: &Voice = &self.sampler.synth.voices[i];
            state.sid_register[j] = v.wave.get_frequency_lo();
            state.sid_register[j + 1] = v.wave.get_frequency_hi();
            state.sid_register[j + 2] = v.wave.get_pulse_width_lo();
            state.sid_register[j + 3] = v.wave.get_pulse_width_hi();
            state.sid_register[j + 4] = v.wave.get_control() + v.envelope.get_control();
            state.sid_register[j + 5] = v.envelope.get_attack_decay();
            state.sid_register[j + 6] = v.envelope.get_sustain_release();
            i = i + 1;
        }
        state.sid_register[0x15] = self.sampler.synth.filter.get_fc_lo();
        state.sid_register[0x16] = self.sampler.synth.filter.get_fc_hi();
        state.sid_register[0x17] = self.sampler.synth.filter.get_res_filt();
        state.sid_register[0x18] = self.sampler.synth.filter.get_mode_vol();
        let mut j: usize = 0x19;
        while j < 0x1d
            invariant
                self.wf(),
                0x19 <= j <= 0x1d,
                forall|t: int| 0 <= t < j as int ==> state.sid_register@[t] == self.spec_register(t),
                forall|t: int| j as int <= t < 32 ==> state.sid_register@[t] == 0u8,
            decreases 0x1d - j,
        {
            state.sid_register[j] = self.read(j as u8);
            j = j + 1;
        }
        state.bus_value = self.bus_value;
        state.bus_value_ttl = self.bus_value_ttl;
        state.ext_in = self.sampler.synth.ext_in;
        let mut i: usize = 0;
        while i < 3
            invariant
                self.wf(),
                i <= 3,
                forall|t: int| 0 <= t < 32 ==> state.sid_register@[t] == self.spec_register(t),
                state.bus_value == self.bus_value,
                state.bus_value_ttl == self.bus_value_ttl,
                state.ext_in == self.sampler.synth.ext_in,
                forall|t: int|
                    0 <= t < i as int ==> {
                        let v = #[trigger] self.sampler.synth.voices[t];
                        &&& state.accumulator@[t] == v.wave.acc
                        &&& state.shift_register@[t] == v.wave.shift
                        &&& state.envelope_state@[t] == Self::spec_env_state(v.envelope.state)
                        &&& state.envelope_counter@[t] == v.envelope.envelope_counter
                        &&& state.exponential_counter@[t] == v.envelope.exponential_counter
                        &&& state.exponential_counter_period@[t]
                            == v.envelope.exponential_counter_period
                        &&& state.hold_zero@[t] == (if v.envelope.hold_zero {
                            1u8
                        } else {
                            0u8
                        })
                        &&& state.rate_counter@[t] == v.envelope.rate_counter
                        &&& state.rate_counter_period@[t] == v.envelope.rate_period
                    },
            decreases 3 - i,
        {
            let v: &Voice = &self.sampler.synth.voices[i];
            state.accumulator[i] = v.wave.get_acc();
            state.shift_register[i] = v.wave.get_shift();
            state.envelope_state[i] = match v.envelope.state {
                EnvState::Attack => 0,
                EnvState::DecaySustain => 1,
                EnvState::Release => 2,
            };
            state.envelope_counter[i] = v.envelope.envelope_counter;
            state.exponential_counter[i] = v.envelope.exponential_counter;
            state.exponential_counter_period[i] = v.envelope.exponential_counter_period;
            state.hold_zero[i] = if v.envelope.hold_zero {
                1
            } else {
                0
            };
            state.rate_counter[i] = v.envelope.rate_counter;
            state.rate_counter_period[i] = v.envelope.rate_period;
            i = i + 1;
        }
        proof {
            assert(state.sid_register@ =~= Seq::new(32nat, |j: int| self.spec_register(j)));
        }
        state
    }
}

} // verus!

verus! {

impl State {
    /// Ranges a snapshot must respect to be loadable: counters inside
    /// their hardware widths and a valid envelope phase encoding.
    pub open spec fn wf(self) -> bool {
        &&& forall|i: int| 0 <= i < 3 ==> #[trigger] self.accumulator@[i] <= 0xffffff
        &&& forall|i: int| 0 <= i < 3 ==> #[trigger] self.shift_register@[i] <= 0x7fffff
        &&& forall|i: int| 0 <= i < 3 ==> #[trigger] self.envelope_state@[i] <= 2
        &&& forall|i: int| 0 <= i < 3 ==> #[trigger] self.rate_counter@[i] <= 0x7fff
        &&& forall|i: int| 0 <= i < 3 ==> 1 <= #[trigger] self.rate_counter_period@[i] <= 0x7fff
    }
}

impl Sid {
    /// The envelope phase decoded from its snapshot encoding.
    pub open spec fn spec_env_decoded(v: u8) -> EnvState {
        if v == 0 {
            EnvState::Attack
        } else if v == 1 {
            EnvState::DecaySustain
        } else {
            EnvState::Release
        }
    }

    /// A voice of the register-file state overridden with the runtime
    /// counters of a snapshot.
    pub open spec fn spec_voice_loaded(v: Voice, st: State, i: int) -> Voice {
        Voice {
            wave: crate::wave::WaveformGenerator {
                acc: st.accumulator@[i],
                shift: st.shift_register@[i],
                ..v.wave
            },
            envelope: crate::envelope::EnvelopeGenerator {
                state: Self::spec_env_decoded(st.envelope_state@[i]),
                envelope_counter: st.envelope_counter@[i],
                exponential_counter: st.exponential_counter@[i],
                exponential_counter_period: st.exponential_counter_period@[i],
                hold_zero: st.hold_zero@[i] != 0,
                rate_counter: st.rate_counter@[i],
                rate_period: st.rate_counter_period@[i],
                ..v.envelope
            },
            ..v
        }
    }

    /// Restore a snapshot: replay the register file through the write
    /// path, then overwrite the bus and every runtime counter.
    pub fn write_state(&mut self, state: &State)
        requires
            old(self).wf(),
            state.wf(),
        ensures
            final(self).wf(),
            ({
                let syn1 = Synth::regs_written(
                    old(self).sampler.synth,
                    state.sid_register@,
                    0x19,
                );
                *final(self) == (Sid {
                    sampler: (Sampler {
                        synth: (Synth {
                            ext_in: state.ext_in,
                            voices: [
                                Self::spec_voice_loaded(syn1.voices[0], *state, 0),
                                Self::spec_voice_loaded(syn1.voices[1], *state, 1),
                                Self::spec_voice_loaded(syn1.voices[2], *state, 2),
                            ],
                            ..syn1
                        }),
                        ..old(self).sampler
                    }),
                    bus_value: state.bus_value,
                    bus_value_ttl: state.bus_value_ttl,
                })
            }),
    {
        let mut j: u8 = 0;
        while j < 0x19
            invariant
                self.wf(),
                j <= 0x19,
                self.sampler.synth == Synth::regs_written(
                    old(self).sampler.synth,
                    state.sid_register@,
                    j as int,
                ),
                self.sampler == (Sampler { synth: self.sampler.synth, ..old(self).sampler }),
                state.sid_register@.len() == 32,
            decreases 0x19 - j,
        {
            self.write(j, state.sid_register[j as usize]);
            j = j + 1;
        }
        self.bus_value = state.bus_value;
        self.bus_value_ttl = state.bus_value_ttl;
        self.sampler.synth.ext_in = state.ext_in;
        let mut i: usize = 0;
        let ghost syn1: Synth = self.sampler.synth;
        while i < 3
            invariant
                i <= 3,
                state.wf(),
                syn1.wf(),
                self.bus_value == state.bus_value,
                self.bus_value_ttl == state.bus_value_ttl,
                self.sampler == (Sampler { synth: self.sampler.synth, ..old(self).sampler }),
                self.sampler.synth == (Synth {
                    voices: self.sampler.synth.voices,
                    ..(Synth { ext_in: state.ext_in, ..syn1 })
                }),
                forall|t: int|
                    0 <= t < i as int ==> #[trigger] self.sampler.synth.voices[t]
                        == Self::spec_voice_loaded(syn1.voices[t], *state, t),
                forall|t: int|
                    i as int <= t < 3 ==> #[trigger] self.sampler.synth.voices[t]
                        == syn1.voices[t],
            decreases 3 - i,
        {
            let mut v: Voice = self.sampler.synth.voices[i];
            v.wave.set_acc(state.accumulator[i]);
            v.wave.shift = state.shift_register[i];
            v.envelope.state = match state.envelope_state[i] {
                0 => EnvState::Attack,
                1 => EnvState::DecaySustain,
                _ => EnvState::Release,
            };
            v.envelope.envelope_counter = state.envelope_counter[i];
            v.envelope.exponential_counter = state.exponential_counter[i];
            v.envelope.exponential_counter_period = state.exponential_counter_period[i];
            v.envelope.hold_zero = state.hold_zero[i] != 0;
            v.envelope.rate_counter = state.rate_counter[i];
            v.envelope.rate_period = state.rate_counter_period[i];
            self.sampler.synth.voices[i] = v;
            i = i + 1;
        }
        proof {
            assert(self.sampler.synth.voices =~= [
                Self::spec_voice_loaded(syn1.voices[0], *state, 0),
                Self::spec_voice_loaded(syn1.voices[1], *state, 1),
                Self::spec_voice_loaded(syn1.voices[2], *state, 2),
            ]);
        }
    }
}

} // verus!
