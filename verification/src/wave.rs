//! Waveform generator.
//!
//! A 24 bit accumulator is the basis for waveform generation: the frequency
//! register is added to it every cycle. The noise waveform is taken from
//! intermediate bits of a 23 bit shift register clocked by bit 19 of the
//! accumulator. Setting the test bit pins the accumulator and the shift
//! register at zero; clearing it reloads the shift register with a fixed
//! seed and lets the accumulator resume counting.

use vstd::prelude::*;

use crate::data;
use crate::ChipModel;

verus! {

/// One step of the 23-bit noise shift register: shift left, feeding back
/// the exclusive or of bits 22 and 17 into bit 0.
pub open spec fn lfsr_next(s: u32) -> u32 {
    ((s << 1) & 0x7fffff) | (((s >> 22) ^ (s >> 17)) & 1)
}

/// `n` steps of the noise shift register.
pub open spec fn lfsr_iter(s: u32, n: nat) -> u32
    decreases n,
{
    if n == 0 {
        s
    } else {
        lfsr_iter(lfsr_next(s), (n - 1) as nat)
    }
}

/// Bit 19 of a nonnegative value, the bit that clocks the noise register.
pub open spec fn bit19_set(x: int) -> bool {
    x / 0x80000 % 2 == 1
}

/// Bit 23 of a nonnegative value, the accumulator's most significant bit.
pub open spec fn bit23_set(x: int) -> bool {
    x / 0x800000 % 2 == 1
}

/// Whether the last, partial accumulation chunk of a bulk advance crosses a
/// rising edge of accumulator bit 19. `af` is the final masked accumulator
/// and `r` the chunk's length; the two forms mirror the asymmetric hardware
/// boundary check for chunks up to and above half the bit-19 toggle period.
pub open spec fn chunk_crosses(af: int, r: int) -> bool {
    if r <= 0x80000 {
        !bit19_set(af + 0x1000000 - r) && bit19_set(af)
    } else {
        !bit19_set(af + 0x1000000 - r) || bit19_set(af)
    }
}

/// How many times a bulk advance of `r` accumulator units, ending on the
/// masked accumulator value `af`, clocks the noise register: once per whole
/// bit-19 toggle period, and once more if the final partial chunk crosses a
/// rising edge.
pub open spec fn bulk_shifts(af: int, r: int) -> int
    decreases r,
{
    if r <= 0 {
        0
    } else if r < 0x100000 {
        if chunk_crosses(af, r) {
            1int
        } else {
            0int
        }
    } else {
        1 + bulk_shifts(af, r - 0x100000)
    }
}

proof fn lemma_lfsr_next_bound(s: u32)
    ensures
        lfsr_next(s) <= 0x7fffff,
{
    assert(((s << 1) & 0x7fffff) | (((s >> 22) ^ (s >> 17)) & 1) <= 0x7fffffu32) by (bit_vector);
}

proof fn lemma_lfsr_iter_snoc(s: u32, n: nat)
    ensures
        lfsr_iter(s, n + 1) == lfsr_next(lfsr_iter(s, n)),
    decreases n,
{
    if n > 0 {
        lemma_lfsr_iter_snoc(lfsr_next(s), (n - 1) as nat);
        assert(lfsr_iter(s, n + 1) == lfsr_iter(lfsr_next(s), n));
        assert(lfsr_iter(s, n) == lfsr_iter(lfsr_next(s), (n - 1) as nat));
    } else {
        assert(lfsr_iter(s, 1) == lfsr_iter(lfsr_next(s), 0));
        assert(lfsr_iter(lfsr_next(s), 0) == lfsr_next(s));
    }
}

proof fn lemma_u16_and_le(x: u16, y: u16)
    ensures
        (x & y) <= x,
        (x & y) <= y,
{
    assert((x & y) <= x && (x & y) <= y) by (bit_vector);
}

} // verus!

verus! {

#[derive(Clone, Copy)]
pub struct WaveformGenerator {
    // Configuration
    pub chip_model: ChipModel,
    pub frequency: u16,
    pub pulse_width: u16,
    // Control
    pub waveform: u8,
    pub ring: bool,
    pub sync: bool,
    pub test: bool,
    // Runtime state
    pub acc: u32,
    pub shift: u32,
    pub msb_rising: bool,
}

impl WaveformGenerator {
    /// Well-formedness: the accumulator stays inside its 24 bits, the shift
    /// register inside its 23, and the register fields inside their widths.
    pub open spec fn wf(self) -> bool {
        &&& self.acc <= 0xffffff
        &&& self.shift <= 0x7fffff
        &&& self.pulse_width <= 0xfff
        &&& self.waveform <= 0xf
    }

    /// The power-on state for a chip revision: all registers zero, the
    /// shift register loaded with its seed.
    pub open spec fn initial(chip_model: ChipModel) -> WaveformGenerator {
        WaveformGenerator {
            chip_model,
            frequency: 0u16,
            pulse_width: 0u16,
            waveform: 0u8,
            ring: false,
            sync: false,
            test: false,
            acc: 0u32,
            shift: 0x7ffff8u32,
            msb_rising: false,
        }
    }

    /// The effect of a control register write on the oscillator. A rising
    /// test bit clears the accumulator and the shift register; a falling one
    /// reloads the shift register with its seed.
    pub open spec fn control_written(self, value: u8) -> WaveformGenerator {
        let test = value / 8 % 2 == 1;
        WaveformGenerator {
            waveform: (value / 16) as u8,
            sync: value / 2 % 2 == 1,
            ring: value / 4 % 2 == 1,
            test,
            acc: if test {
                0u32
            } else {
                self.acc
            },
            shift: if test {
                0u32
            } else if self.test {
                0x7ffff8u32
            } else {
                self.shift
            },
            ..self
        }
    }

    /// The effect of one clock cycle: the accumulator advances by the
    /// frequency, masked to 24 bits; the noise register shifts once when
    /// accumulator bit 19 rises; and a rising accumulator MSB is recorded
    /// for hard sync.
    pub open spec fn clocked(self) -> WaveformGenerator {
        if self.test {
            self
        } else {
            let a2 = ((self.acc + self.frequency) % 0x1000000) as u32;
            let sh = if !bit19_set(self.acc as int) && bit19_set(a2 as int) {
                lfsr_next(self.shift)
            } else {
                self.shift
            };
            WaveformGenerator {
                acc: a2,
                shift: sh,
                msb_rising: !bit23_set(self.acc as int) && bit23_set(a2 as int),
                ..self
            }
        }
    }

    /// `n` clock cycles, one at a time.
    pub open spec fn clocked_n(self, n: nat) -> WaveformGenerator
        decreases n,
    {
        if n == 0 {
            self
        } else {
            self.clocked().clocked_n((n - 1) as nat)
        }
    }

    /// The effect of a bulk advance by `delta` cycles: the accumulator
    /// advances by `delta * frequency` in one step, the MSB edge is judged
    /// across the whole advance, and the noise register shifts once per
    /// bit-19 rising edge inside the advance.
    pub open spec fn delta_clocked(self, delta: nat) -> WaveformGenerator {
        if self.test {
            self
        } else {
            let dacc = delta * self.frequency;
            let a2 = ((self.acc + dacc) % 0x1000000) as u32;
            WaveformGenerator {
                acc: a2,
                shift: lfsr_iter(self.shift, bulk_shifts(a2 as int, dacc as int) as nat),
                msb_rising: !bit23_set(self.acc as int) && bit23_set(a2 as int),
                ..self
            }
        }
    }

    /// Triangle output: the accumulator's top 12 bits, folded on the MSB by
    /// inverting the lower bits, at doubled resolution. Ring modulation
    /// substitutes the fold decision with the exclusive or of the local and
    /// the sync source accumulators.
    pub open spec fn out_tri(self, src_acc: u32) -> u16 {
        let a2 = if self.ring {
            self.acc ^ src_acc
        } else {
            self.acc
        };
        let folded = if a2 & 0x800000 != 0 {
            !self.acc
        } else {
            self.acc
        };
        ((folded >> 11) as u16) & 0xfff
    }

    /// Sawtooth output: the accumulator's top 12 bits.
    pub open spec fn out_saw(self) -> u16 {
        (self.acc / 0x1000) as u16
    }

    /// Pulse output: all ones while the accumulator's top 12 bits are at or
    /// above the pulse width, or while the test bit holds the output high.
    pub open spec fn out_pulse(self) -> u16 {
        if self.test || (self.acc / 0x1000) as u16 >= self.pulse_width {
            0xfffu16
        } else {
            0u16
        }
    }

    /// Noise output: eight taps of the shift register, spread over the
    /// 12-bit output range.
    pub open spec fn out_noise(self) -> u16 {
        ((((self.shift & 0x400000) >> 11) | ((self.shift & 0x100000) >> 10) | ((self.shift
            & 0x10000) >> 7) | ((self.shift & 0x2000) >> 5) | ((self.shift & 0x800) >> 4) | ((
        self.shift & 0x80) >> 1) | ((self.shift & 0x10) << 1) | ((self.shift & 0x4) << 2)) as u16)
    }

    /// Combined pulse and sawtooth, through the correction table.
    pub open spec fn out_ps(self) -> u16 {
        ((data::spec_wave_ps(self.chip_model, self.out_saw() as int) * 16) as u16)
            & self.out_pulse()
    }

    /// Combined pulse, sawtooth and triangle, through the correction table.
    pub open spec fn out_pst(self) -> u16 {
        ((data::spec_wave_pst(self.chip_model, self.out_saw() as int) * 16) as u16)
            & self.out_pulse()
    }

    /// Combined pulse and triangle, through the correction table.
    pub open spec fn out_pt(self, src_acc: u32) -> u16 {
        ((data::spec_wave_pt(self.chip_model, (self.out_tri(src_acc) / 2) as int) * 16) as u16)
            & self.out_pulse()
    }

    /// Combined sawtooth and triangle, through the correction table.
    pub open spec fn out_st(self) -> u16 {
        (data::spec_wave_st(self.chip_model, self.out_saw() as int) * 16) as u16
    }

    /// The 12-bit waveform output for the current waveform selection; the
    /// eight selections without a defined output give zero.
    pub open spec fn out_wave(self, src_acc: u32) -> u16 {
        if self.waveform == 0x1 {
            self.out_tri(src_acc)
        } else if self.waveform == 0x2 {
            self.out_saw()
        } else if self.waveform == 0x3 {
            self.out_st()
        } else if self.waveform == 0x4 {
            self.out_pulse()
        } else if self.waveform == 0x5 {
            self.out_pt(src_acc)
        } else if self.waveform == 0x6 {
            self.out_ps()
        } else if self.waveform == 0x7 {
            self.out_pst()
        } else if self.waveform == 0x8 {
            self.out_noise()
        } else {
            0u16
        }
    }
}

} // verus!

verus! {

impl WaveformGenerator {
    /// A fresh generator for the given chip revision: all registers zero,
    /// the shift register loaded with its seed.
    pub fn new(chip_model: ChipModel) -> (r: WaveformGenerator)
        ensures
            r == WaveformGenerator::initial(chip_model),
            r.wf(),
    {
        let mut waveform = WaveformGenerator {
            chip_model,
            frequency: 0,
            pulse_width: 0,
            waveform: 0,
            ring: false,
            sync: false,
            test: false,
            acc: 0,
            shift: 0,
            msb_rising: false,
        };
        waveform.reset();
        waveform
    }

    pub fn get_acc(&self) -> (r: u32)
        ensures
            r == self.acc,
    {
        self.acc
    }

    pub fn get_shift(&self) -> (r: u32)
        ensures
            r == self.shift,
    {
        self.shift
    }

    pub fn get_frequency(&self) -> (r: u16)
        ensures
            r == self.frequency,
    {
        self.frequency
    }

    pub fn get_frequency_lo(&self) -> (r: u8)
        ensures
            r == self.frequency % 256,
    {
        (self.frequency % 256) as u8
    }

    pub fn get_frequency_hi(&self) -> (r: u8)
        ensures
            r == self.frequency / 256,
    {
        (self.frequency / 256) as u8
    }

    pub fn get_pulse_width_lo(&self) -> (r: u8)
        ensures
            r == self.pulse_width % 256,
    {
        (self.pulse_width % 256) as u8
    }

    pub fn get_pulse_width_hi(&self) -> (r: u8)
        requires
            self.wf(),
        ensures
            r == self.pulse_width / 256,
    {
        (self.pulse_width / 256) as u8
    }

    pub fn get_sync(&self) -> (r: bool)
        ensures
            r == self.sync,
    {
        self.sync
    }

    pub fn is_msb_rising(&self) -> (r: bool)
        ensures
            r == self.msb_rising,
    {
        self.msb_rising
    }

    /// The control register as it reads back: sync, ring and test flags on
    /// bits 1 to 3, the waveform selection on the top nibble.
    pub fn get_control(&self) -> (r: u8)
        requires
            self.wf(),
        ensures
            r == (if self.sync { 2u8 } else { 0u8 }) + (if self.ring { 4u8 } else { 0u8 }) + (
            if self.test { 8u8 } else { 0u8 }) + self.waveform * 16,
    {
        let mut value: u8 = 0;
        if self.sync {
            value = value + 2;
        }
        if self.ring {
            value = value + 4;
        }
        if self.test {
            value = value + 8;
        }
        value + self.waveform * 16
    }

    /// Decode a control register write. A rising test bit clears the
    /// accumulator and the shift register; a falling one reloads the shift
    /// register with its seed while the accumulator stays at zero.
    pub fn set_control(&mut self, value: u8)
        ensures
            *final(self) == old(self).control_written(value),
            old(self).wf() ==> final(self).wf(),
    {
        self.waveform = value / 16;
        self.sync = value / 2 % 2 == 1;
        self.ring = value / 4 % 2 == 1;
        let test: bool = value / 8 % 2 == 1;
        if test {
            self.acc = 0;
            self.shift = 0;
        } else if self.test {
            self.shift = 0x7ffff8;
        }
        self.test = test;
    }

    pub fn set_frequency_lo(&mut self, value: u8)
        ensures
            *final(self) == (WaveformGenerator {
                frequency: (old(self).frequency / 256 * 256 + value) as u16,
                ..*old(self)
            }),
    {
        self.frequency = self.frequency / 256 * 256 + value as u16;
    }

    pub fn set_frequency_hi(&mut self, value: u8)
        ensures
            *final(self) == (WaveformGenerator {
                frequency: (value * 256 + old(self).frequency % 256) as u16,
                ..*old(self)
            }),
    {
        self.frequency = value as u16 * 256 + self.frequency % 256;
    }

    pub fn set_pulse_width_lo(&mut self, value: u8)
        ensures
            *final(self) == (WaveformGenerator {
                pulse_width: (old(self).pulse_width / 256 * 256 + value) as u16,
                ..*old(self)
            }),
            old(self).wf() ==> final(self).wf(),
    {
        self.pulse_width = self.pulse_width / 256 * 256 + value as u16;
    }

    /// Only the low nibble of the high byte is kept: the pulse width is a
    /// 12 bit value.
    pub fn set_pulse_width_hi(&mut self, value: u8)
        ensures
            *final(self) == (WaveformGenerator {
                pulse_width: (value % 16 * 256 + old(self).pulse_width % 256) as u16,
                ..*old(self)
            }),
            old(self).wf() ==> final(self).wf(),
    {
        self.pulse_width = (value % 16) as u16 * 256 + self.pulse_width % 256;
    }

    /// Overwrite the accumulator; hard sync uses this to reset a neighbor.
    pub fn set_acc(&mut self, value: u32)
        requires
            value <= 0xffffff,
        ensures
            *final(self) == (WaveformGenerator { acc: value, ..*old(self) }),
    {
        self.acc = value;
    }

    /// Advance the oscillator by one clock cycle.
    pub fn clock(&mut self)
        requires
            old(self).wf(),
        ensures
            *final(self) == old(self).clocked(),
            final(self).wf(),
    {
        if !self.test {
            let acc_prev: u32 = self.acc;
            self.acc = (self.acc + self.frequency as u32) % 0x1000000;
            self.msb_rising = acc_prev / 0x800000 % 2 == 0 && self.acc / 0x800000 % 2 == 1;
            if acc_prev / 0x80000 % 2 == 0 && self.acc / 0x80000 % 2 == 1 {
                proof {
                    lemma_lfsr_next_bound(self.shift);
                }
                self.shift = ((self.shift << 1) & 0x7fffff) | (((self.shift >> 22) ^ (self.shift
                    >> 17)) & 1);
            }
        }
    }

    /// Advance the oscillator by `delta` cycles in bulk. The accumulator
    /// advances in one masked addition; the noise register is shifted once
    /// per bit-19 rising edge contained in the advance, found by walking the
    /// advance in whole toggle periods with an edge check on the final
    /// partial chunk.
    pub fn clock_delta(&mut self, delta: u32)
        requires
            old(self).wf(),
        ensures
            *final(self) == old(self).delta_clocked(delta as nat),
            final(self).wf(),
    {
        if !self.test {
            let acc_prev: u32 = self.acc;
            let freq: u16 = self.frequency;
            proof {
                assert((delta as int) * (freq as int) <= 0xffffffffu64 * 0xffffu64)
                    by (nonlinear_arith)
                    requires
                        delta <= 0xffffffffu32,
                        freq <= 0xffffu16,
                ;
            }
            let mut delta_acc: u64 = delta as u64 * freq as u64;
            let ghost total: int = delta_acc as int;
            let ghost shift0: u32 = self.shift;
            let ghost mut done: nat = 0nat;
            self.acc = ((acc_prev as u64 + delta_acc) % 0x1000000) as u32;
            self.msb_rising = acc_prev / 0x800000 % 2 == 0 && self.acc / 0x800000 % 2 == 1;
            let af: u64 = self.acc as u64;
            let ghost pre: WaveformGenerator = *self;
            while delta_acc != 0
                invariant
                    self.shift <= 0x7fffff,
                    af == self.acc as int,
                    af <= 0xffffff,
                    *self == (WaveformGenerator { shift: self.shift, ..pre }),
                    self.shift == lfsr_iter(shift0, done),
                    done + bulk_shifts(af as int, delta_acc as int) == bulk_shifts(
                        af as int,
                        total,
                    ),
                ensures
                    *self == (WaveformGenerator {
                        shift: lfsr_iter(shift0, bulk_shifts(af as int, total) as nat),
                        ..pre
                    }),
                decreases delta_acc,
            {
                let sp: u64 = if delta_acc < 0x100000 {
                    delta_acc
                } else {
                    0x100000
                };
                if delta_acc < 0x100000 {
                    if sp <= 0x80000 {
                        if (af + 0x1000000 - sp) / 0x80000 % 2 == 1 || af / 0x80000 % 2 == 0 {
                            break ;
                        }
                    } else {
                        if (af + 0x1000000 - sp) / 0x80000 % 2 == 1 && af / 0x80000 % 2 == 0 {
                            break ;
                        }
                    }
                }
                proof {
                    lemma_lfsr_next_bound(self.shift);
                    lemma_lfsr_iter_snoc(shift0, done);
                }
                self.shift = ((self.shift << 1) & 0x7fffff) | (((self.shift >> 22) ^ (self.shift
                    >> 17)) & 1);
                delta_acc = delta_acc - sp;
                proof {
                    done = done + 1;
                }
            }
        }
    }

    /// The 12-bit waveform output; `sync_source` supplies the neighboring
    /// oscillator whose accumulator drives ring modulation.
    pub fn output(&self, sync_source: Option<&WaveformGenerator>) -> (r: u16)
        requires
            self.wf(),
            sync_source.is_some() ==> sync_source.unwrap().wf(),
        ensures
            r == self.out_wave(
                match sync_source {
                    Some(w) => w.acc,
                    None => 0u32,
                },
            ),
            r <= 0xfff,
    {
        let src_acc: u32 = match sync_source {
            Some(w) => w.acc,
            None => 0,
        };
        match self.waveform {
            0x1 => self.output_t(src_acc),
            0x2 => self.output_s(),
            0x3 => self.output_st(),
            0x4 => self.output_p(),
            0x5 => self.output_pt(src_acc),
            0x6 => self.output_ps(),
            0x7 => self.output_pst(),
            0x8 => self.output_n(),
            _ => 0,
        }
    }

    /// The top 8 bits of the waveform output, as read from the oscillator
    /// register.
    pub fn read_osc(&self, sync_source: Option<&WaveformGenerator>) -> (r: u8)
        requires
            self.wf(),
            sync_source.is_some() ==> sync_source.unwrap().wf(),
        ensures
            r == self.out_wave(
                match sync_source {
                    Some(w) => w.acc,
                    None => 0u32,
                },
            ) / 16,
    {
        (self.output(sync_source) / 16) as u8
    }

    fn output_t(&self, src_acc: u32) -> (r: u16)
        requires
            self.wf(),
            src_acc <= 0xffffff,
        ensures
            r == self.out_tri(src_acc),
            r <= 0xfff,
    {
        let acc2: u32 = if self.ring {
            self.acc ^ src_acc
        } else {
            self.acc
        };
        let folded: u32 = if acc2 & 0x800000 != 0 {
            !self.acc
        } else {
            self.acc
        };
        let r: u16 = ((folded >> 11) as u16) & 0xfff;
        proof {
            lemma_u16_and_le((folded >> 11) as u16, 0xfff);
        }
        r
    }

    fn output_s(&self) -> (r: u16)
        requires
            self.wf(),
        ensures
            r == self.out_saw(),
            r <= 0xfff,
    {
        (self.acc / 0x1000) as u16
    }

    fn output_p(&self) -> (r: u16)
        requires
            self.wf(),
        ensures
            r == self.out_pulse(),
            r <= 0xfff,
    {
        if self.test || (self.acc / 0x1000) as u16 >= self.pulse_width {
            0xfff
        } else {
            0
        }
    }

    fn output_n(&self) -> (r: u16)
        requires
            self.wf(),
        ensures
            r == self.out_noise(),
            r <= 0xfff,
    {
        let s: u32 = self.shift;
        let r: u16 = (((s & 0x400000) >> 11) | ((s & 0x100000) >> 10) | ((s & 0x10000) >> 7) | ((s
            & 0x2000) >> 5) | ((s & 0x800) >> 4) | ((s & 0x80) >> 1) | ((s & 0x10) << 1) | ((s
            & 0x4) << 2)) as u16;
        proof {
            lemma_noise_bound(s);
        }
        r
    }

    fn output_ps(&self) -> (r: u16)
        requires
            self.wf(),
        ensures
            r == self.out_ps(),
            r <= 0xfff,
    {
        let t: u16 = data::wave_ps(self.chip_model, self.output_s()) as u16 * 16;
        let p: u16 = self.output_p();
        proof {
            lemma_u16_and_le(t, p);
        }
        t & p
    }

    fn output_pst(&self) -> (r: u16)
        requires
            self.wf(),
        ensures
            r == self.out_pst(),
            r <= 0xfff,
    {
        let t: u16 = data::wave_pst(self.chip_model, self.output_s()) as u16 * 16;
        let p: u16 = self.output_p();
        proof {
            lemma_u16_and_le(t, p);
        }
        t & p
    }

    fn output_pt(&self, src_acc: u32) -> (r: u16)
        requires
            self.wf(),
            src_acc <= 0xffffff,
        ensures
            r == self.out_pt(src_acc),
            r <= 0xfff,
    {
        let t: u16 = data::wave_pt(self.chip_model, self.output_t(src_acc) / 2) as u16 * 16;
        let p: u16 = self.output_p();
        proof {
            lemma_u16_and_le(t, p);
        }
        t & p
    }

    fn output_st(&self) -> (r: u16)
        requires
            self.wf(),
        ensures
            r == self.out_st(),
            r <= 0xfff,
    {
        data::wave_st(self.chip_model, self.output_s()) as u16 * 16
    }

    /// Return to the power-on state; the chip revision is kept.
    pub fn reset(&mut self)
        ensures
            *final(self) == WaveformGenerator::initial(old(self).chip_model),
            final(self).wf(),
    {
        self.frequency = 0;
        self.pulse_width = 0;
        self.waveform = 0;
        self.ring = false;
        self.sync = false;
        self.test = false;
        self.acc = 0;
        self.shift = 0x7ffff8;
        self.msb_rising = false;
    }

    /// Hard sync resolution; run only after all three oscillators have been
    /// clocked for the step. When this oscillator's MSB has just risen and
    /// the destination has its sync flag set, the destination's accumulator
    /// is reset - unless this oscillator is itself being synced by a source
    /// whose MSB also rose on the same cycle, which suppresses the reset.
    pub fn synchronize(&self, dest: &mut WaveformGenerator, source: &WaveformGenerator)
        ensures
            *final(dest) == (if self.msb_rising && old(dest).sync && !(self.sync
                && source.msb_rising) {
                WaveformGenerator { acc: 0u32, ..*old(dest) }
            } else {
                *old(dest)
            }),
    {
        if self.msb_rising && dest.sync && !(self.sync && source.msb_rising) {
            dest.set_acc(0);
        }
    }
}

proof fn lemma_noise_bound(s: u32)
    ensures
        (((s & 0x400000) >> 11) | ((s & 0x100000) >> 10) | ((s & 0x10000) >> 7) | ((s & 0x2000)
            >> 5) | ((s & 0x800) >> 4) | ((s & 0x80) >> 1) | ((s & 0x10) << 1) | ((s & 0x4) << 2))
            <= 0xfff,
{
    assert((((s & 0x400000) >> 11) | ((s & 0x100000) >> 10) | ((s & 0x10000) >> 7) | ((s & 0x2000)
        >> 5) | ((s & 0x800) >> 4) | ((s & 0x80) >> 1) | ((s & 0x10) << 1) | ((s & 0x4) << 2))
        <= 0xfffu32) by (bit_vector);
}

} // verus!

verus! {

use vstd::arithmetic::div_mod::lemma_fundamental_div_mod;
use vstd::arithmetic::div_mod::lemma_fundamental_div_mod_converse;
use vstd::arithmetic::div_mod::lemma_mod_mod;
use vstd::arithmetic::div_mod::lemma_mod_multiples_vanish;


/// How many bit-19 rising edges an accumulator counting up from zero has
/// passed when it reaches `x`: one per multiple of the toggle period, with
/// the first edge half a period in.
pub open spec fn edges_upto(x: int) -> int {
    (x + 0x80000) / 0x100000
}

/// Bit 19 of a nonnegative value is determined by its remainder modulo the
/// toggle period.
proof fn lemma_bit19_low(x: int)
    requires
        x >= 0,
    ensures
        bit19_set(x) <==> x % 0x100000 >= 0x80000,
{
    lemma_fundamental_div_mod(x, 0x100000);
    let a = x / 0x100000;
    let b = x % 0x100000;
    let c = b / 0x80000;
    lemma_fundamental_div_mod(b, 0x80000);
    let e = b % 0x80000;
    assert(0 <= c <= 1) by (nonlinear_arith)
        requires
            0 <= b < 0x100000,
            c == b / 0x80000,
    ;
    assert(x == (2 * a + c) * 0x80000 + e) by (nonlinear_arith)
        requires
            x == 0x100000 * a + b,
            b == 0x80000 * c + e,
    ;
    lemma_fundamental_div_mod_converse(x, 0x80000, 2 * a + c, e);
    assert((2 * a + c) % 2 == c) by (nonlinear_arith)
        requires
            0 <= c <= 1,
    ;
}

/// Adding one whole toggle period passes exactly one rising edge.
proof fn lemma_edges_full_period(x: int)
    requires
        x >= 0,
    ensures
        edges_upto(x + 0x100000) == edges_upto(x) + 1,
{
    lemma_fundamental_div_mod(x + 0x80000, 0x100000);
    lemma_fundamental_div_mod_converse(
        x + 0x100000 + 0x80000,
        0x100000,
        (x + 0x80000) / 0x100000 + 1,
        (x + 0x80000) % 0x100000,
    );
}

/// A partial advance of less than a period passes at most one rising
/// edge, and exactly one precisely when the hardware's asymmetric edge
/// check fires: for short advances a zero-to-one transition of bit 19,
/// for longer ones anything but a one-to-zero transition.
proof fn lemma_edges_partial(x: int, s: int)
    requires
        x >= 0,
        0 <= s < 0x100000,
    ensures
        0 <= edges_upto(x + s) - edges_upto(x) <= 1,
        s <= 0x80000 ==> ((edges_upto(x + s) - edges_upto(x) == 1) <==> (!bit19_set(x)
            && bit19_set(x + s))),
        s > 0x80000 ==> ((edges_upto(x + s) - edges_upto(x) == 1) <==> (!bit19_set(x)
            || bit19_set(x + s))),
{
    lemma_bit19_low(x);
    lemma_bit19_low(x + s);
    lemma_fundamental_div_mod(x, 0x100000);
    let r = x % 0x100000;
    let q = x / 0x100000;
    // the edge counter's phase within the period
    lemma_fundamental_div_mod(x + 0x80000, 0x100000);
    if r < 0x80000 {
        lemma_fundamental_div_mod_converse(x + 0x80000, 0x100000, q, r + 0x80000);
    } else {
        lemma_fundamental_div_mod_converse(x + 0x80000, 0x100000, q + 1, r - 0x80000);
    }
    if r + s < 0x100000 {
        lemma_fundamental_div_mod_converse(x + s, 0x100000, q, r + s);
        if r + s < 0x80000 {
            lemma_fundamental_div_mod_converse(x + s + 0x80000, 0x100000, q, r + s + 0x80000);
        } else {
            lemma_fundamental_div_mod_converse(x + s + 0x80000, 0x100000, q + 1, r + s - 0x80000);
        }
    } else {
        lemma_fundamental_div_mod_converse(x + s, 0x100000, q + 1, r + s - 0x100000);
        if r + s - 0x100000 < 0x80000 {
            lemma_fundamental_div_mod_converse(
                x + s + 0x80000,
                0x100000,
                q + 1,
                r + s - 0x80000,
            );
        } else {
            lemma_fundamental_div_mod_converse(
                x + s + 0x80000,
                0x100000,
                q + 2,
                r + s - 0x180000,
            );
        }
    }
}


/// Masking an accumulator to 24 bits does not change bit 19.
proof fn lemma_bit19_mask(x: int)
    requires
        x >= 0,
    ensures
        bit19_set(x % 0x1000000) == bit19_set(x),
{
    lemma_mod_mod(x, 0x100000, 16);
    lemma_bit19_low(x);
    lemma_bit19_low(x % 0x1000000);
}

/// The bulk advance's chunked edge walk counts exactly the rising edges
/// of bit 19 that an unmasked count from `a` to `a + d` passes.
proof fn lemma_bulk_shifts_edges(a: int, d: int)
    requires
        a >= 0,
        d >= 0,
    ensures
        bulk_shifts((a + d) % 0x1000000, d) == edges_upto(a + d) - edges_upto(a),
    decreases d,
{
    let af = (a + d) % 0x1000000;
    if d == 0 {
    } else if d < 0x100000 {
        lemma_edges_partial(a, d);
        lemma_bit19_mask(a + d);
        lemma_fundamental_div_mod(a + d, 0x1000000);
        let k = (a + d) / 0x1000000;
        assert(af + 0x1000000 - d == a + 0x1000000 * (1 - k));
        assert(0x1000000 * (1 - k) == 0x100000 * (16 * (1 - k))) by (nonlinear_arith);
        lemma_mod_multiples_vanish(16 * (1 - k), a, 0x100000);
        lemma_bit19_low(af + 0x1000000 - d);
        lemma_bit19_low(a);
    } else {
        lemma_bulk_shifts_edges(a + 0x100000, d - 0x100000);
        lemma_edges_full_period(a);
    }
}

impl WaveformGenerator {
    /// Unfolding one clock off the back of a run.
    proof fn lemma_clocked_n_snoc(self, n: nat)
        ensures
            self.clocked_n(n + 1) == self.clocked_n(n).clocked(),
        decreases n,
    {
        if n > 0 {
            self.clocked().lemma_clocked_n_snoc((n - 1) as nat);
            assert(self.clocked_n(n + 1) == self.clocked().clocked_n(n));
            assert(self.clocked_n(n) == self.clocked().clocked_n((n - 1) as nat));
        } else {
            assert(self.clocked_n(1) == self.clocked().clocked_n(0));
            assert(self.clocked().clocked_n(0) == self.clocked());
        }
    }

    /// With the test bit set the oscillator is pinned: clocking is the
    /// identity.
    proof fn lemma_clocked_n_test(self, n: nat)
        requires
            self.test,
        ensures
            self.clocked_n(n) == self,
        decreases n,
    {
        if n > 0 {
            self.lemma_clocked_n_test((n - 1) as nat);
        }
    }

    /// A single-cycle run tracked against the unmasked accumulator count:
    /// after `n` cycles the accumulator is the masked count, and the noise
    /// register has shifted once per bit-19 rising edge the count passed.
    proof fn lemma_clocked_n_edges(self, n: nat)
        requires
            self.wf(),
            !self.test,
        ensures
            self.clocked_n(n) == (WaveformGenerator {
                acc: ((self.acc + n * self.frequency) % 0x1000000) as u32,
                shift: lfsr_iter(
                    self.shift,
                    (edges_upto(self.acc + n * self.frequency) - edges_upto(
                        self.acc as int,
                    )) as nat,
                ),
                msb_rising: self.clocked_n(n).msb_rising,
                ..self
            }),
        decreases n,
    {
        let a = self.acc as int;
        let f = self.frequency as int;
        if n == 0 {
            lemma_edges_partial(a, 0);
            assert(lfsr_iter(self.shift, 0) == self.shift);
            assert(a % 0x1000000 == a) by {
                lemma_fundamental_div_mod_converse(a, 0x1000000, 0, a);
            }
        } else {
            let m = (n - 1) as nat;
            self.lemma_clocked_n_edges(m);
            self.lemma_clocked_n_snoc(m);
            let am = a + m * f;
            let an = a + n * f;
            assert(an == am + f) by (nonlinear_arith)
                requires
                    am == a + m * f,
                    an == a + n * f,
                    n == m + 1,
            ;
            let wm = self.clocked_n(m);
            lemma_fundamental_div_mod(am, 0x1000000);
            let q = am / 0x1000000;
            lemma_mod_multiples_vanish(q, wm.acc + f, 0x1000000);
            assert(0x1000000 * q + (wm.acc + f) == an);
            // bit 19 of the masked accumulators equals bit 19 of the
            // unmasked counts
            lemma_bit19_mask(am);
            lemma_bit19_low(wm.acc + f);
            lemma_bit19_low(an);
            lemma_mod_mod(an, 0x100000, 16);
            assert(0x100000 * (16 * q) + (wm.acc + f) == an) by (nonlinear_arith)
                requires
                    0x1000000 * q + (wm.acc + f) == an,
            ;
            lemma_mod_multiples_vanish(16 * q, wm.acc + f, 0x100000);
            lemma_bit19_mask(an);
            // one cycle passes an edge exactly when bit 19 rises
            lemma_edges_partial(am, f);
            lemma_edges_partial(a, 0);
            assert(edges_upto(am) - edges_upto(a) >= 0) by {
                lemma_edges_monotone(a, am);
            }
            if !bit19_set(wm.acc as int) && bit19_set((wm.acc + f) % 0x1000000) {
                lemma_lfsr_iter_snoc(self.shift, (edges_upto(am) - edges_upto(a)) as nat);
            }
        }
    }
}

/// The edge count never decreases.
proof fn lemma_edges_monotone(x: int, y: int)
    requires
        0 <= x <= y,
    ensures
        edges_upto(x) <= edges_upto(y),
{
    vstd::arithmetic::div_mod::lemma_div_is_ordered(x + 0x80000, y + 0x80000, 0x100000);
}

/// Law: bulk clocking is exact. Advancing the oscillator by `n` cycles
/// with `clock_delta` leaves the accumulator, the noise shift register and
/// every register field identical to `n` single `clock` calls; only the
/// transient MSB-edge flag differs, as the bulk form judges it across the
/// whole advance.
pub proof fn lemma_clock_delta_equivalence(w: WaveformGenerator, n: nat)
    requires
        w.wf(),
    ensures
        w.delta_clocked(n).acc == w.clocked_n(n).acc,
        w.delta_clocked(n).shift == w.clocked_n(n).shift,
        w.delta_clocked(n) == (WaveformGenerator {
            msb_rising: w.delta_clocked(n).msb_rising,
            ..w.clocked_n(n)
        }),
{
    if w.test {
        w.lemma_clocked_n_test(n);
    } else {
        let d = n * w.frequency;
        assert(d >= 0) by (nonlinear_arith)
            requires
                d == n * w.frequency,
                n >= 0,
                w.frequency >= 0,
        ;
        w.lemma_clocked_n_edges(n);
        lemma_bulk_shifts_edges(w.acc as int, d as int);
    }
}

} // verus!
