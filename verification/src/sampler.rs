//! Audio sampler: converts the chip's native clock-rate output stream into
//! samples at a target rate.
//!
//! Four strategies share one fixed-point phase accumulator with sixteen
//! fraction bits. The fast strategy advances the chip to the nearest cycle
//! of each sample instant; the interpolating strategy walks cycle by cycle
//! and interpolates linearly between the two outputs straddling the
//! instant; and the two resampling strategies convolve a ring buffer of
//! recent outputs with precomputed windowed-sinc tables, either picking the
//! nearest phase table or interpolating between two adjacent ones. The
//! tables themselves are supplied ready-made; their length and per-phase
//! resolution are configuration.

use vstd::prelude::*;

use crate::arith::fdiv64;
use crate::synth::Synth;

verus! {

/// Ring buffer size: a power of two able to hold the longest filter span;
/// the buffer is stored twice so a filter window is always contiguous.
pub const RINGSIZE: usize = 16384;

#[derive(Clone, Copy, PartialEq, Eq, Structural)]
pub enum SamplingMethod {
    Fast,
    Interpolate,
    Resample,
    ResampleFast,
}

pub struct Sampler {
    // Dependencies
    pub synth: Synth,
    // Configuration
    pub cycles_per_sample: u32,
    pub fir: Vec<i16>,
    pub fir_n: i32,
    pub fir_res: i32,
    pub sampling_method: SamplingMethod,
    // Runtime state
    pub sample_buffer: [i16; 32768],
    pub sample_index: usize,
    pub sample_offset: i32,
    pub sample_prev: i16,
}

/// The dot product of the first `n` entries of two sample sequences, at
/// full precision.
pub open spec fn conv_sum(a: Seq<i16>, b: Seq<i16>, n: int) -> int
    decreases n,
{
    if n <= 0 {
        0
    } else {
        conv_sum(a, b, n - 1) + a[n - 1] * b[n - 1]
    }
}

/// A buffer overlaid with `outs` at every `interleave`-th position.
pub open spec fn written(b0: Seq<i16>, outs: Seq<i16>, interleave: int) -> Seq<i16> {
    Seq::new(
        b0.len(),
        |j: int|
            if j % interleave == 0 && j / interleave < outs.len() {
                outs[j / interleave]
            } else {
                b0[j]
            },
    )
}

impl Sampler {
    /// Well-formedness: the synthesizer is well formed, the phase
    /// configuration is in the range the fixed-point arithmetic supports,
    /// the phase offset is inside its window, and the filter table layout
    /// is consistent.
    pub open spec fn wf(self) -> bool {
        &&& self.synth.wf()
        &&& 0x10000 <= self.cycles_per_sample <= 0x40000000
        &&& 0x8000 - self.cycles_per_sample <= self.sample_offset <= 0xffff
        &&& self.sample_index < RINGSIZE
        &&& self.fir@.len() == self.fir_n * self.fir_res
        &&& 1 <= self.fir_n <= 0x3000
        &&& 1 <= self.fir_res <= 0x4000
        &&& ((self.sampling_method == SamplingMethod::Resample || self.sampling_method
            == SamplingMethod::ResampleFast) ==> 0x10000 - self.cycles_per_sample
            <= self.sample_offset)
    }

    /// The phase of the next sample instant, half a cycle ahead for
    /// rounding to the nearest cycle.
    pub open spec fn next_offset_rounded(self) -> int {
        self.sample_offset + self.cycles_per_sample + 0x8000
    }

    /// The phase of the next sample instant.
    pub open spec fn next_offset(self) -> int {
        self.sample_offset + self.cycles_per_sample
    }
}

} // verus!

verus! {

impl Sampler {
    /// The complete effect of the fast strategy on a budget of `delta`
    /// cycles and room for `cap` samples: the produced samples, their
    /// count, the unconsumed cycles, and the final state. Each sample
    /// advances the chip to the cycle nearest the sample instant; a
    /// leftover budget smaller than a sample period is consumed at the end
    /// and credited against the next instant.
    pub open spec fn fast_run(s: Sampler, delta: u32, cap: nat) -> (Sampler, Seq<i16>, int, u32)
        decreases cap,
    {
        let next = s.next_offset_rounded();
        let ds = next / 0x10000;
        if !(ds > delta || cap == 0) {
            let syn2 = s.synth.delta_clocked(ds);
            let s2 = Sampler {
                synth: syn2,
                sample_offset: (next % 0x10000 - 0x8000) as i32,
                ..s
            };
            let r = Self::fast_run(s2, (delta - ds) as u32, (cap - 1) as nat);
            (r.0, seq![syn2.out()] + r.1, r.2 + 1, r.3)
        } else if delta > 0 && cap > 0 {
            let s2 = Sampler {
                synth: s.synth.delta_clocked(delta as int),
                sample_offset: (s.sample_offset - delta * 0x10000) as i32,
                ..s
            };
            (s2, Seq::<i16>::empty(), 0, 0u32)
        } else {
            (s, Seq::<i16>::empty(), 0, delta)
        }
    }

    /// Clocking with audio sampling, picking the nearest cycle for each
    /// sample. Returns the number of samples written and the unconsumed
    /// cycles; samples land at every `interleave`-th position of `buffer`.
    #[verifier::rlimit(100)]
    fn clock_fast(&mut self, delta: u32, buffer: &mut [i16], interleave: usize) -> (r: (
        usize,
        u32,
    ))
        requires
            old(self).wf(),
            old(self).sampling_method == SamplingMethod::Fast,
            1 <= interleave,
        ensures
            final(self).wf(),
            ({
                let run = Self::fast_run(
                    *old(self),
                    delta,
                    (old(buffer)@.len() as int / interleave as int) as nat,
                );
                &&& *final(self) == run.0
                &&& r.0 == run.2
                &&& r.1 == run.3
                &&& final(buffer)@ == written(old(buffer)@, run.1, interleave as int)
            }),
    {
        let ghost s0: Sampler = *self;
        let ghost b0: Seq<i16> = buffer@;
        let blen: usize = buffer.len();
        let cap: usize = blen / interleave;
        let ghost cap0: nat = cap as nat;
        let mut index: usize = 0;
        let mut remaining: u32 = delta;
        let ghost mut outs: Seq<i16> = Seq::<i16>::empty();
        proof {
            assert(buffer@ =~= written(b0, outs, interleave as int));
            assert(outs + Self::fast_run(*self, remaining, (cap0 - index) as nat).1
                =~= Self::fast_run(*self, remaining, (cap0 - index) as nat).1);
        }
        loop
            invariant
                self.wf(),
                self.sampling_method == SamplingMethod::Fast,
                1 <= interleave,
                index <= cap,
                cap0 == cap as nat,
                cap as int == b0.len() as int / interleave as int,
                blen == b0.len(),
                buffer@.len() == b0.len(),
                buffer@ == written(b0, outs, interleave as int),
                outs.len() == index,
                ({
                    let rest = Self::fast_run(*self, remaining, (cap0 - index) as nat);
                    Self::fast_run(s0, delta, cap0) == (rest.0, outs + rest.1, index + rest.2,
                    rest.3)
                }),
            ensures
                self.next_offset_rounded() / 0x10000 > remaining || index >= cap,
            decreases cap - index,
        {
            let next: i64 = self.sample_offset as i64 + self.cycles_per_sample as i64 + 0x8000;
            let nextu: u64 = next as u64;
            let delta_sample: u64 = nextu / 0x10000;
            if delta_sample > remaining as u64 || index >= cap {
                break ;
            }
            let ghost pre: Sampler = *self;
            let ghost pre_rem: u32 = remaining;
            let ds: u32 = delta_sample as u32;
            self.synth.clock_delta(ds);
            remaining = remaining - ds;
            let out: i16 = self.synth.output();
            proof {
                lemma_stride_in_bounds(index as int, interleave as int, b0.len() as int);
                assert((index as int) * (interleave as int) < blen as int);
                lemma_written_push(b0, outs, out, interleave as int);
            }
            let pos: usize = index * interleave;
            buffer[pos] = out;
            self.sample_offset = ((nextu % 0x10000) as i32) - 0x8000;
            proof {
                let ghost outs_old = outs;
                outs = outs.push(out);
                assert(buffer@ =~= written(b0, outs, interleave as int));
                let rest = Self::fast_run(*self, remaining, (cap0 - index - 1) as nat);
                assert(Self::fast_run(pre, pre_rem, (cap0 - index) as nat) == (
                    rest.0,
                    seq![out] + rest.1,
                    rest.2 + 1,
                    rest.3,
                ));
                assert(outs_old + (seq![out] + rest.1) =~= outs + rest.1);
            }
            index = index + 1;
        }
        proof {
            let rest = Self::fast_run(*self, remaining, (cap0 - index) as nat);
            if rest.1.len() == 0 {
                assert(outs + rest.1 =~= outs);
            }
        }
        if remaining > 0 && index < cap {
            proof {
                vstd::arithmetic::div_mod::lemma_fundamental_div_mod(
                    self.next_offset_rounded(),
                    0x10000,
                );
            }
            self.synth.clock_delta(remaining);
            self.sample_offset = self.sample_offset - (remaining as i32) * 0x10000;
            (index, 0)
        } else {
            (index, remaining)
        }
    }
}

/// Appending one sample to the overlay: updating the next stride position
/// of an overlaid buffer is the overlay of the extended sample sequence.
proof fn lemma_written_push(b0: Seq<i16>, outs: Seq<i16>, out: i16, interleave: int)
    requires
        interleave >= 1,
        outs.len() * interleave < b0.len(),
    ensures
        written(b0, outs, interleave).update(outs.len() * interleave, out) =~= written(
            b0,
            outs.push(out),
            interleave,
        ),
{
    let idx = outs.len() as int;
    let pos = idx * interleave;
    vstd::arithmetic::div_mod::lemma_mod_multiples_basic(idx, interleave);
    vstd::arithmetic::div_mod::lemma_div_by_multiple(idx, interleave);
    assert forall|j: int| 0 <= j < b0.len() implies written(b0, outs, interleave).update(
        pos,
        out,
    )[j] == written(b0, outs.push(out), interleave)[j] by {
        vstd::arithmetic::div_mod::lemma_fundamental_div_mod(j, interleave);
        if j != pos && j % interleave == 0 && j / interleave == idx {
            assert(j == interleave * (j / interleave) + j % interleave);
            assert((idx * interleave) == (interleave * idx)) by (nonlinear_arith);
            assert(false);
        }
    }
}

/// Writing at a stride position inside the buffer stays in bounds.
proof fn lemma_stride_in_bounds(index: int, interleave: int, len: int)
    requires
        interleave >= 1,
        0 <= index < len / interleave,
    ensures
        0 <= index * interleave,
        index * interleave < len,
{
    vstd::arithmetic::div_mod::lemma_fundamental_div_mod(len, interleave);
    assert(index * interleave <= (len / interleave - 1) * interleave && 0 <= index * interleave
        && (len / interleave - 1) * interleave == (len / interleave) * interleave - interleave)
        by (nonlinear_arith)
        requires
            0 <= index <= len / interleave - 1,
            interleave >= 1,
    ;
}

} // verus!

verus! {

impl Sampler {
    /// The complete effect of the interpolating strategy on a budget of
    /// `delta` cycles and room for `cap` samples. The chip is walked cycle
    /// by cycle; each sample interpolates linearly between the outputs of
    /// the two cycles straddling the sample instant, using the fixed-point
    /// phase fraction.
    pub open spec fn interp_run(s: Sampler, delta: u32, cap: nat) -> (Sampler, Seq<i16>, int, u32)
        decreases cap,
    {
        let next = s.next_offset_rounded();
        let ds = next / 0x10000;
        if !(ds > delta || cap == 0) {
            let syn1 = s.synth.clocked_n((ds - 1) as nat);
            let prev = if ds >= 2 {
                s.synth.clocked_n((ds - 2) as nat).out()
            } else {
                s.sample_prev
            };
            let now = syn1.out();
            let v = (prev + (s.sample_offset * (now - prev)) / 0x10000) as i16;
            let s2 = Sampler {
                synth: syn1,
                sample_prev: now,
                sample_offset: (next % 0x10000 - 0x8000) as i32,
                ..s
            };
            let r = Self::interp_run(s2, (delta - ds) as u32, (cap - 1) as nat);
            (r.0, seq![v] + r.1, r.2 + 1, r.3)
        } else if delta > 0 && cap > 0 {
            let s2 = Sampler {
                synth: s.synth.clocked_n((delta - 1) as nat),
                sample_offset: (s.sample_offset - delta * 0x10000) as i32,
                ..s
            };
            (s2, Seq::<i16>::empty(), 0, 0u32)
        } else {
            (s, Seq::<i16>::empty(), 0, delta)
        }
    }

    /// Clocking with audio sampling, interpolating linearly between the
    /// two chip outputs straddling each sample instant.
    #[verifier::rlimit(100)]
    fn clock_interpolate(&mut self, delta: u32, buffer: &mut [i16], interleave: usize) -> (r: (
        usize,
        u32,
    ))
        requires
            old(self).wf(),
            old(self).sampling_method == SamplingMethod::Interpolate,
            1 <= interleave,
        ensures
            final(self).wf(),
            ({
                let run = Self::interp_run(
                    *old(self),
                    delta,
                    (old(buffer)@.len() as int / interleave as int) as nat,
                );
                &&& *final(self) == run.0
                &&& r.0 == run.2
                &&& r.1 == run.3
                &&& final(buffer)@ == written(old(buffer)@, run.1, interleave as int)
            }),
    {
        let ghost s0: Sampler = *self;
        let ghost b0: Seq<i16> = buffer@;
        let blen: usize = buffer.len();
        let cap: usize = blen / interleave;
        let ghost cap0: nat = cap as nat;
        let mut index: usize = 0;
        let mut remaining: u32 = delta;
        let ghost mut outs: Seq<i16> = Seq::<i16>::empty();
        proof {
            assert(buffer@ =~= written(b0, outs, interleave as int));
            assert(outs + Self::interp_run(*self, remaining, (cap0 - index) as nat).1
                =~= Self::interp_run(*self, remaining, (cap0 - index) as nat).1);
        }
        loop
            invariant
                self.wf(),
                self.sampling_method == SamplingMethod::Interpolate,
                1 <= interleave,
                index <= cap,
                cap0 == cap as nat,
                cap as int == b0.len() as int / interleave as int,
                blen == b0.len(),
                buffer@.len() == b0.len(),
                buffer@ == written(b0, outs, interleave as int),
                outs.len() == index,
                ({
                    let rest = Self::interp_run(*self, remaining, (cap0 - index) as nat);
                    Self::interp_run(s0, delta, cap0) == (rest.0, outs + rest.1, index + rest.2,
                    rest.3)
                }),
            ensures
                self.next_offset_rounded() / 0x10000 > remaining || index >= cap,
            decreases cap - index,
        {
            let next: i64 = self.sample_offset as i64 + self.cycles_per_sample as i64 + 0x8000;
            let nextu: u64 = next as u64;
            let delta_sample: u64 = nextu / 0x10000;
            if delta_sample > remaining as u64 || index >= cap {
                break ;
            }
            let ghost pre: Sampler = *self;
            let ghost pre_rem: u32 = remaining;
            let ds: u32 = delta_sample as u32;
            proof {
                vstd::arithmetic::div_mod::lemma_div_is_ordered(0x10000, nextu as int, 0x10000);
            }
            let prev: i16 = self.step_cycles(ds);
            remaining = remaining - ds;
            let now: i16 = self.synth.output();
            proof {
                crate::arith::lemma_i32_mul_fits(
                    self.sample_offset as int,
                    now as int - prev as int,
                );
            }
            let term: i64 = fdiv64(
                self.sample_offset as i64 * (now as i64 - prev as i64),
                0x10000,
            );
            let out: i16 = #[verifier::truncate] ((prev as i64 + term) as i16);
            proof {
                lemma_stride_in_bounds(index as int, interleave as int, b0.len() as int);
                assert((index as int) * (interleave as int) < blen as int);
                lemma_written_push(b0, outs, out, interleave as int);
            }
            let pos: usize = index * interleave;
            buffer[pos] = out;
            self.sample_prev = now;
            self.sample_offset = ((nextu % 0x10000) as i32) - 0x8000;
            proof {
                let ghost outs_old = outs;
                outs = outs.push(out);
                assert(buffer@ =~= written(b0, outs, interleave as int));
                let rest = Self::interp_run(*self, remaining, (cap0 - index - 1) as nat);
                assert(Self::interp_run(pre, pre_rem, (cap0 - index) as nat) == (
                    rest.0,
                    seq![out] + rest.1,
                    rest.2 + 1,
                    rest.3,
                ));
                assert(outs_old + (seq![out] + rest.1) =~= outs + rest.1);
            }
            index = index + 1;
        }
        proof {
            let rest = Self::interp_run(*self, remaining, (cap0 - index) as nat);
            if rest.1.len() == 0 {
                assert(outs + rest.1 =~= outs);
            }
        }
        if remaining > 0 && index < cap {
            proof {
                vstd::arithmetic::div_mod::lemma_fundamental_div_mod(
                    self.next_offset_rounded(),
                    0x10000,
                );
            }
            let _last: i16 = self.step_cycles(remaining);
            self.sample_offset = self.sample_offset - (remaining as i32) * 0x10000;
            (index, 0)
        } else {
            (index, remaining)
        }
    }

    /// Walk the chip forward by `ds - 1` single cycles, returning the
    /// output before the last cycle taken, or the stored previous sample
    /// when no cycle is taken. This off-by-one step mirrors the reference
    /// pacing of the interpolating strategy.
    fn step_cycles(&mut self, ds: u32) -> (prev: i16)
        requires
            old(self).wf(),
            ds >= 1,
        ensures
            *final(self) == (Sampler {
                synth: old(self).synth.clocked_n((ds - 1) as nat),
                ..*old(self)
            }),
            final(self).wf(),
            prev == (if ds >= 2 {
                old(self).synth.clocked_n((ds - 2) as nat).out()
            } else {
                old(self).sample_prev
            }),
    {
        let mut prev: i16 = self.sample_prev;
        let mut i: u32 = 0;
        while i < ds - 1
            invariant
                self.wf(),
                i <= ds - 1,
                ds >= 1,
                *self == (Sampler { synth: old(self).synth.clocked_n(i as nat), ..*old(self) }),
                prev == (if i >= 1 {
                    old(self).synth.clocked_n((i - 1) as nat).out()
                } else {
                    old(self).sample_prev
                }),
            decreases ds - i,
        {
            prev = self.synth.output();
            self.synth.clock();
            proof {
                old(self).synth.lemma_clocked_n_snoc(i as nat);
            }
            i = i + 1;
        }
        prev
    }
}

} // verus!

verus! {

impl Sampler {
    /// The reference convolution: a plain multiply-accumulate over the two
    /// arrays, truncated to matching length, computed at full precision
    /// and truncated to 32 bits once at the end. This is the semantics any
    /// accelerated convolution must reproduce bit for bit.
    pub fn compute_convolution_fir_fallback(&self, sample: &[i16], fir: &[i16]) -> (r: i32)
        ensures
            r == (conv_sum(
                sample@,
                fir@,
                if sample@.len() <= fir@.len() {
                    sample@.len() as int
                } else {
                    fir@.len() as int
                },
            )) as i32,
    {
        let n: usize = if sample.len() < fir.len() {
            sample.len()
        } else {
            fir.len()
        };
        let mut acc: i128 = 0;
        let mut i: usize = 0;
        while i < n
            invariant
                i <= n,
                n <= sample@.len(),
                n <= fir@.len(),
                acc == conv_sum(sample@, fir@, i as int),
                -0x40000000 * (i as i128) <= acc <= 0x40000000 * (i as i128),
            decreases n - i,
        {
            proof {
                assert(-0x40000000 <= (sample@[i as int] as int) * (fir@[i as int] as int)
                    <= 0x40000000) by (nonlinear_arith)
                    requires
                        -0x8000 <= sample@[i as int] as int <= 0x7fff,
                        -0x8000 <= fir@[i as int] as int <= 0x7fff,
                ;
            }
            let p: i32 = sample[i] as i32 * fir[i] as i32;
            acc = acc + p as i128;
            i = i + 1;
        }
        #[verifier::truncate] (acc as i32)
    }

    /// The ring buffer, its write index, and the chip after `k` cycles:
    /// each cycle's output is stored twice, a ring apart, so any filter
    /// window is contiguous.
    pub open spec fn ring_filled(syn: Synth, buf: [i16; 32768], idx: int, k: nat) -> (
        Synth,
        [i16; 32768],
        int,
    )
        decreases k,
    {
        if k == 0 {
            (syn, buf, idx)
        } else {
            let syn2 = syn.clocked();
            let out = syn2.out();
            let buf2 = vstd::array::spec_array_update(
                vstd::array::spec_array_update(buf, idx, out),
                idx + RINGSIZE,
                out,
            );
            Self::ring_filled(syn2, buf2, (idx + 1) % (RINGSIZE as int), (k - 1) as nat)
        }
    }

    /// Advance the chip by `k` single cycles, recording every output in
    /// the ring buffer.
    fn fill_ring(&mut self, k: u32)
        requires
            old(self).wf(),
        ensures
            final(self).wf(),
            ({
                let f = Self::ring_filled(
                    old(self).synth,
                    old(self).sample_buffer,
                    old(self).sample_index as int,
                    k as nat,
                );
                *final(self) == (Sampler {
                    synth: f.0,
                    sample_buffer: f.1,
                    sample_index: f.2 as usize,
                    ..*old(self)
                })
            }),
    {
        let mut i: u32 = 0;
        while i < k
            invariant
                self.wf(),
                i <= k,
                ({
                    let f = Self::ring_filled(
                        old(self).synth,
                        old(self).sample_buffer,
                        old(self).sample_index as int,
                        k as nat,
                    );
                    let g = Self::ring_filled(
                        self.synth,
                        self.sample_buffer,
                        self.sample_index as int,
                        (k - i) as nat,
                    );
                    f == g && *self == (Sampler {
                        synth: self.synth,
                        sample_buffer: self.sample_buffer,
                        sample_index: self.sample_index,
                        ..*old(self)
                    })
                }),
            decreases k - i,
        {
            let ghost prev_buf: [i16; 32768] = self.sample_buffer;
            self.synth.clock();
            let out: i16 = self.synth.output();
            let idx: usize = self.sample_index;
            assert(idx < RINGSIZE);
            self.sample_buffer[idx] = out;
            self.sample_buffer[idx + RINGSIZE] = out;
            proof {
                broadcast use vstd::array::axiom_array_ext_equal;
                broadcast use vstd::array::axiom_spec_array_update;

                let target = vstd::array::spec_array_update(
                    vstd::array::spec_array_update(prev_buf, idx as int, out),
                    idx as int + RINGSIZE,
                    out,
                );
                assert(self.sample_buffer@ =~= target@);
                assert forall|j: int| 0 <= j < 32768 implies self.sample_buffer[j] == target[j]
                    by {
                    assert(self.sample_buffer@[j] == target@[j]);
                }
                assert(self.sample_buffer =~= target);
            }
            self.sample_index = (idx + 1) % RINGSIZE;
            i = i + 1;
        }
    }
}

} // verus!

verus! {

/// A value clamped to the signed 16-bit range.
pub open spec fn saturated16(v: int) -> i16 {
    if v >= 0x8000 {
        0x7fffi16
    } else if v < -0x8000 {
        (-0x8000) as i16
    } else {
        v as i16
    }
}

impl Sampler {
    /// The phase table index selected by the current fixed-point phase.
    pub open spec fn fir_phase(self) -> int {
        (self.sample_offset * self.fir_res) / 0x10000
    }

    /// The 32-bit convolution of the filter window ending `shiftback`
    /// entries before the ring write position with phase table `phase`.
    pub open spec fn conv_at(self, phase: int, shiftback: int) -> i32 {
        (conv_sum(
            self.sample_buffer@.subrange(
                self.sample_index - self.fir_n + RINGSIZE - shiftback,
                self.sample_index + RINGSIZE - shiftback,
            ),
            self.fir@.subrange(phase * self.fir_n, phase * self.fir_n + self.fir_n),
            self.fir_n as int,
        )) as i32
    }

    /// The complete effect of the nearest-phase resampling strategy on a
    /// budget of `delta` cycles and room for `cap` samples: the chip walks
    /// cycle by cycle into the ring buffer, and each sample is the
    /// convolution with the nearest windowed-sinc phase table, scaled out
    /// of the table gain and saturated.
    pub open spec fn resample_fast_run(s: Sampler, delta: u32, cap: nat) -> (
        Sampler,
        Seq<i16>,
        int,
        u32,
    )
        decreases cap,
    {
        let next = s.next_offset();
        let ds = next / 0x10000;
        if !(ds > delta || cap == 0) {
            let f = Self::ring_filled(s.synth, s.sample_buffer, s.sample_index as int, ds as nat);
            let s1 = Sampler {
                synth: f.0,
                sample_buffer: f.1,
                sample_index: f.2 as usize,
                sample_offset: (next % 0x10000) as i32,
                ..s
            };
            let v = saturated16(s1.conv_at(s1.fir_phase(), 0) as int / 0x8000);
            let r = Self::resample_fast_run(s1, (delta - ds) as u32, (cap - 1) as nat);
            (r.0, seq![v] + r.1, r.2 + 1, r.3)
        } else if delta > 0 && cap > 0 {
            let f = Self::ring_filled(
                s.synth,
                s.sample_buffer,
                s.sample_index as int,
                delta as nat,
            );
            let s1 = Sampler {
                synth: f.0,
                sample_buffer: f.1,
                sample_index: f.2 as usize,
                sample_offset: (s.sample_offset - delta * 0x10000) as i32,
                ..s
            };
            (s1, Seq::<i16>::empty(), 0, 0u32)
        } else {
            (s, Seq::<i16>::empty(), 0, delta)
        }
    }

    /// The convolution of the current filter window with phase table
    /// `phase`, shifted back by `shiftback` ring entries.
    fn convolve(&self, phase: u32, shiftback: u32) -> (v: i32)
        requires
            self.wf(),
            phase < self.fir_res,
            shiftback <= 1,
        ensures
            v == self.conv_at(phase as int, shiftback as int),
    {
        proof {
            assert((phase as int) * (self.fir_n as int) + self.fir_n <= (self.fir_res as int)
                * (self.fir_n as int) && 0 <= (phase as int) * (self.fir_n as int) && (
            self.fir_res as int) * (self.fir_n as int) <= 0xc000000) by (nonlinear_arith)
                requires
                    0 <= phase as int <= self.fir_res as int - 1,
                    1 <= self.fir_n as int <= 0x3000,
                    1 <= self.fir_res as int <= 0x4000,
            ;
        }
        let fir_start: usize = phase as usize * self.fir_n as usize;
        let fir_end: usize = fir_start + self.fir_n as usize;
        let sample_start: usize = self.sample_index + RINGSIZE - self.fir_n as usize - shiftback
            as usize;
        let sample_end: usize = sample_start + self.fir_n as usize;
        let sample_slice: &[i16] = vstd::slice::slice_subrange(
            self.sample_buffer.as_slice(),
            sample_start,
            sample_end,
        );
        let fir_slice: &[i16] = vstd::slice::slice_subrange(self.fir.as_slice(), fir_start, fir_end);
        self.compute_convolution_fir_fallback(sample_slice, fir_slice)
    }

    /// Clocking with audio sampling through the nearest windowed-sinc
    /// phase table.
    #[verifier::rlimit(100)]
    fn clock_resample_fast(&mut self, delta: u32, buffer: &mut [i16], interleave: usize) -> (r: (
        usize,
        u32,
    ))
        requires
            old(self).wf(),
            old(self).sampling_method == SamplingMethod::ResampleFast,
            1 <= interleave,
        ensures
            final(self).wf(),
            ({
                let run = Self::resample_fast_run(
                    *old(self),
                    delta,
                    (old(buffer)@.len() as int / interleave as int) as nat,
                );
                &&& *final(self) == run.0
                &&& r.0 == run.2
                &&& r.1 == run.3
                &&& final(buffer)@ == written(old(buffer)@, run.1, interleave as int)
            }),
    {
        let ghost s0: Sampler = *self;
        let ghost b0: Seq<i16> = buffer@;
        let blen: usize = buffer.len();
        let cap: usize = blen / interleave;
        let ghost cap0: nat = cap as nat;
        let mut index: usize = 0;
        let mut remaining: u32 = delta;
        let ghost mut outs: Seq<i16> = Seq::<i16>::empty();
        proof {
            assert(buffer@ =~= written(b0, outs, interleave as int));
            assert(outs + Self::resample_fast_run(*self, remaining, (cap0 - index) as nat).1
                =~= Self::resample_fast_run(*self, remaining, (cap0 - index) as nat).1);
        }
        loop
            invariant
                self.wf(),
                self.sampling_method == SamplingMethod::ResampleFast,
                1 <= interleave,
                index <= cap,
                cap0 == cap as nat,
                cap as int == b0.len() as int / interleave as int,
                blen == b0.len(),
                buffer@.len() == b0.len(),
                buffer@ == written(b0, outs, interleave as int),
                outs.len() == index,
                ({
                    let rest = Self::resample_fast_run(*self, remaining, (cap0 - index) as nat);
                    Self::resample_fast_run(s0, delta, cap0) == (
                        rest.0,
                        outs + rest.1,
                        index + rest.2,
                        rest.3,
                    )
                }),
            ensures
                self.next_offset() / 0x10000 > remaining || index >= cap,
            decreases cap - index,
        {
            let next: i64 = self.sample_offset as i64 + self.cycles_per_sample as i64;
            let nextu: u64 = next as u64;
            let delta_sample: u64 = nextu / 0x10000;
            if delta_sample > remaining as u64 || index >= cap {
                break ;
            }
            let ghost pre: Sampler = *self;
            let ghost pre_rem: u32 = remaining;
            let ds: u32 = delta_sample as u32;
            self.fill_ring(ds);
            remaining = remaining - ds;
            self.sample_offset = (nextu % 0x10000) as i32;
            proof {
                assert((self.sample_offset as int) * (self.fir_res as int) < 0x10000 * (
                self.fir_res as int) && 0 <= (self.sample_offset as int) * (self.fir_res as int))
                    by (nonlinear_arith)
                    requires
                        0 <= self.sample_offset as int <= 0xffff,
                        1 <= self.fir_res as int,
                ;
                vstd::arithmetic::div_mod::lemma_div_multiples_vanish(
                    self.fir_res as int,
                    0x10000,
                );
                vstd::arithmetic::div_mod::lemma_div_is_ordered(
                    (self.sample_offset as int) * (self.fir_res as int),
                    0x10000 * (self.fir_res as int) - 1,
                    0x10000,
                );
                vstd::arithmetic::div_mod::lemma_fundamental_div_mod_converse(
                    0x10000 * (self.fir_res as int) - 1,
                    0x10000,
                    self.fir_res as int - 1,
                    0xffff,
                );
            }
            let fir_offset: u32 = (self.sample_offset as u32 * self.fir_res as u32) / 0x10000;
            let v: i32 = self.convolve(fir_offset, 0);
            let shifted: i64 = fdiv64(v as i64, 0x8000);
            let out: i16 = if shifted >= 0x8000 {
                0x7fff
            } else if shifted < -0x8000 {
                -0x8000
            } else {
                shifted as i16
            };
            proof {
                lemma_stride_in_bounds(index as int, interleave as int, b0.len() as int);
                assert((index as int) * (interleave as int) < blen as int);
                lemma_written_push(b0, outs, out, interleave as int);
            }
            let pos: usize = index * interleave;
            buffer[pos] = out;
            proof {
                let ghost outs_old = outs;
                outs = outs.push(out);
                assert(buffer@ =~= written(b0, outs, interleave as int));
                let rest = Self::resample_fast_run(*self, remaining, (cap0 - index - 1) as nat);
                assert(Self::resample_fast_run(pre, pre_rem, (cap0 - index) as nat) == (
                    rest.0,
                    seq![out] + rest.1,
                    rest.2 + 1,
                    rest.3,
                ));
                assert(outs_old + (seq![out] + rest.1) =~= outs + rest.1);
            }
            index = index + 1;
        }
        proof {
            let rest = Self::resample_fast_run(*self, remaining, (cap0 - index) as nat);
            if rest.1.len() == 0 {
                assert(outs + rest.1 =~= outs);
            }
        }
        if remaining > 0 && index < cap {
            proof {
                vstd::arithmetic::div_mod::lemma_fundamental_div_mod(self.next_offset(), 0x10000);
            }
            self.fill_ring(remaining);
            self.sample_offset = self.sample_offset - (remaining as i32) * 0x10000;
            (index, 0)
        } else {
            (index, remaining)
        }
    }
}

} // verus!

verus! {

impl Sampler {
    /// The complete effect of the interpolated resampling strategy: like
    /// the nearest-phase strategy, but each sample interpolates linearly
    /// between the convolutions with the two phase tables straddling the
    /// exact phase, wrapping to the first table one ring entry back past
    /// the last phase.
    pub open spec fn resample_run(s: Sampler, delta: u32, cap: nat) -> (
        Sampler,
        Seq<i16>,
        int,
        u32,
    )
        decreases cap,
    {
        let next = s.next_offset();
        let ds = next / 0x10000;
        if !(ds > delta || cap == 0) {
            let f = Self::ring_filled(s.synth, s.sample_buffer, s.sample_index as int, ds as nat);
            let s1 = Sampler {
                synth: f.0,
                sample_buffer: f.1,
                sample_index: f.2 as usize,
                sample_offset: (next % 0x10000) as i32,
                ..s
            };
            let phase = s1.fir_phase();
            let rmd = (s1.sample_offset * s1.fir_res) % 0x10000;
            let v1 = s1.conv_at(phase, 0) as int;
            let v2 = (if phase + 1 == s1.fir_res {
                s1.conv_at(0, 1)
            } else {
                s1.conv_at(phase + 1, 0)
            }) as int;
            let v = (v1 + (rmd * (v2 - v1)) / 0x10000) / 0x8000;
            let r = Self::resample_run(s1, (delta - ds) as u32, (cap - 1) as nat);
            (r.0, seq![saturated16(v)] + r.1, r.2 + 1, r.3)
        } else if delta > 0 && cap > 0 {
            let f = Self::ring_filled(
                s.synth,
                s.sample_buffer,
                s.sample_index as int,
                delta as nat,
            );
            let s1 = Sampler {
                synth: f.0,
                sample_buffer: f.1,
                sample_index: f.2 as usize,
                sample_offset: (s.sample_offset - delta * 0x10000) as i32,
                ..s
            };
            (s1, Seq::<i16>::empty(), 0, 0u32)
        } else {
            (s, Seq::<i16>::empty(), 0, delta)
        }
    }

    /// Clocking with audio sampling through two adjacent windowed-sinc
    /// phase tables, linearly interpolated.
    #[verifier::rlimit(100)]
    fn clock_resample_interpolate(
        &mut self,
        delta: u32,
        buffer: &mut [i16],
        interleave: usize,
    ) -> (r: (usize, u32))
        requires
            old(self).wf(),
            old(self).sampling_method == SamplingMethod::Resample,
            1 <= interleave,
        ensures
            final(self).wf(),
            ({
                let run = Self::resample_run(
                    *old(self),
                    delta,
                    (old(buffer)@.len() as int / interleave as int) as nat,
                );
                &&& *final(self) == run.0
                &&& r.0 == run.2
                &&& r.1 == run.3
                &&& final(buffer)@ == written(old(buffer)@, run.1, interleave as int)
            }),
    {
        let ghost s0: Sampler = *self;
        let ghost b0: Seq<i16> = buffer@;
        let blen: usize = buffer.len();
        let cap: usize = blen / interleave;
        let ghost cap0: nat = cap as nat;
        let mut index: usize = 0;
        let mut remaining: u32 = delta;
        let ghost mut outs: Seq<i16> = Seq::<i16>::empty();
        proof {
            assert(buffer@ =~= written(b0, outs, interleave as int));
            assert(outs + Self::resample_run(*self, remaining, (cap0 - index) as nat).1
                =~= Self::resample_run(*self, remaining, (cap0 - index) as nat).1);
        }
        loop
            invariant
                self.wf(),
                self.sampling_method == SamplingMethod::Resample,
                1 <= interleave,
                index <= cap,
                cap0 == cap as nat,
                cap as int == b0.len() as int / interleave as int,
                blen == b0.len(),
                buffer@.len() == b0.len(),
                buffer@ == written(b0, outs, interleave as int),
                outs.len() == index,
                ({
                    let rest = Self::resample_run(*self, remaining, (cap0 - index) as nat);
                    Self::resample_run(s0, delta, cap0) == (
                        rest.0,
                        outs + rest.1,
                        index + rest.2,
                        rest.3,
                    )
                }),
            ensures
                self.next_offset() / 0x10000 > remaining || index >= cap,
            decreases cap - index,
        {
            let next: i64 = self.sample_offset as i64 + self.cycles_per_sample as i64;
            let nextu: u64 = next as u64;
            let delta_sample: u64 = nextu / 0x10000;
            if delta_sample > remaining as u64 || index >= cap {
                break ;
            }
            let ghost pre: Sampler = *self;
            let ghost pre_rem: u32 = remaining;
            let ds: u32 = delta_sample as u32;
            self.fill_ring(ds);
            remaining = remaining - ds;
            self.sample_offset = (nextu % 0x10000) as i32;
            proof {
                assert((self.sample_offset as int) * (self.fir_res as int) < 0x10000 * (
                self.fir_res as int) && 0 <= (self.sample_offset as int) * (self.fir_res as int))
                    by (nonlinear_arith)
                    requires
                        0 <= self.sample_offset as int <= 0xffff,
                        1 <= self.fir_res as int,
                ;
                vstd::arithmetic::div_mod::lemma_div_is_ordered(
                    (self.sample_offset as int) * (self.fir_res as int),
                    0x10000 * (self.fir_res as int) - 1,
                    0x10000,
                );
                vstd::arithmetic::div_mod::lemma_fundamental_div_mod_converse(
                    0x10000 * (self.fir_res as int) - 1,
                    0x10000,
                    self.fir_res as int - 1,
                    0xffff,
                );
            }
            let fir_offset: u32 = (self.sample_offset as u32 * self.fir_res as u32) / 0x10000;
            let fir_offset_rmd: u32 = (self.sample_offset as u32 * self.fir_res as u32) % 0x10000;
            let v1: i32 = self.convolve(fir_offset, 0);
            let v2: i32 = if fir_offset + 1 == self.fir_res as u32 {
                self.convolve(0, 1)
            } else {
                self.convolve(fir_offset + 1, 0)
            };
            proof {
                assert(-0x1_0000_0000_0000 <= (fir_offset_rmd as int) * (v2 as int - v1 as int)
                    <= 0x1_0000_0000_0000) by (nonlinear_arith)
                    requires
                        0 <= fir_offset_rmd as int <= 0xffff,
                        -0x1_0000_0000 <= v2 as int - v1 as int <= 0x1_0000_0000,
                ;
            }
            let term: i64 = fdiv64(
                fir_offset_rmd as i64 * (v2 as i64 - v1 as i64),
                0x10000,
            );
            let shifted: i64 = fdiv64(v1 as i64 + term, 0x8000);
            let out: i16 = if shifted >= 0x8000 {
                0x7fff
            } else if shifted < -0x8000 {
                -0x8000
            } else {
                shifted as i16
            };
            proof {
                lemma_stride_in_bounds(index as int, interleave as int, b0.len() as int);
                assert((index as int) * (interleave as int) < blen as int);
                lemma_written_push(b0, outs, out, interleave as int);
            }
            let pos: usize = index * interleave;
            buffer[pos] = out;
            proof {
                let ghost outs_old = outs;
                outs = outs.push(out);
                assert(buffer@ =~= written(b0, outs, interleave as int));
                let rest = Self::resample_run(*self, remaining, (cap0 - index - 1) as nat);
                assert(Self::resample_run(pre, pre_rem, (cap0 - index) as nat) == (
                    rest.0,
                    seq![out] + rest.1,
                    rest.2 + 1,
                    rest.3,
                ));
                assert(outs_old + (seq![out] + rest.1) =~= outs + rest.1);
            }
            index = index + 1;
        }
        proof {
            let rest = Self::resample_run(*self, remaining, (cap0 - index) as nat);
            if rest.1.len() == 0 {
                assert(outs + rest.1 =~= outs);
            }
        }
        if remaining > 0 && index < cap {
            proof {
                vstd::arithmetic::div_mod::lemma_fundamental_div_mod(self.next_offset(), 0x10000);
            }
            self.fill_ring(remaining);
            self.sample_offset = self.sample_offset - (remaining as i32) * 0x10000;
            (index, 0)
        } else {
            (index, remaining)
        }
    }
}

} // verus!

verus! {

impl Sampler {
    /// A fresh sampler around the given synthesizer, with a neutral
    /// one-to-one sample rate until parameters are set.
    pub fn new(synth: Synth) -> (r: Sampler)
        requires
            synth.wf(),
        ensures
            r.synth == synth,
            r.cycles_per_sample == 0x10000,
            r.sampling_method == SamplingMethod::Fast,
            r.sample_index == 0,
            r.sample_offset == 0,
            r.sample_prev == 0,
            r.fir_n == 1,
            r.fir_res == 1,
            r.fir@ == seq![0i16],
            r.sample_buffer@ == Seq::new(32768nat, |i: int| 0i16),
            r.wf(),
    {
        let mut fir: Vec<i16> = Vec::new();
        fir.push(0i16);
        let r = Sampler {
            synth,
            cycles_per_sample: 0x10000,
            fir,
            fir_n: 1,
            fir_res: 1,
            sampling_method: SamplingMethod::Fast,
            sample_buffer: [0i16; 32768],
            sample_index: 0,
            sample_offset: 0,
            sample_prev: 0,
        };
        proof {
            assert(r.sample_buffer@ =~= Seq::new(32768nat, |i: int| 0i16));
            assert(r.fir@ =~= seq![0i16]);
        }
        r
    }

    /// The fixed-point cycles-per-sample ratio for a clock and a sample
    /// frequency, rounded to the nearest 1/65536 cycle.
    pub open spec fn spec_cycles_per_sample(clock_freq: u32, sample_freq: u32) -> int {
        (clock_freq * 0x20000 / (sample_freq as int) + 1) / 2
    }

    /// Select the sampling strategy and the clock and sample frequencies,
    /// and clear the sampling state. The chip clock may not be slower than
    /// the sample rate nor more than 4096 times faster, so that the
    /// fixed-point phase arithmetic stays exact. The filter tables for the
    /// resampling strategies are supplied separately.
    pub fn set_parameters(&mut self, method: SamplingMethod, clock_freq: u32, sample_freq: u32)
        requires
            old(self).wf(),
            1 <= sample_freq <= clock_freq,
            clock_freq < sample_freq as int * 4096,
        ensures
            *final(self) == (Sampler {
                cycles_per_sample: Self::spec_cycles_per_sample(clock_freq, sample_freq) as u32,
                sampling_method: method,
                sample_buffer: final(self).sample_buffer,
                sample_index: 0,
                sample_offset: 0,
                sample_prev: 0,
                ..*old(self)
            }),
            final(self).sample_buffer@ == Seq::new(32768nat, |i: int| 0i16),
            final(self).wf(),
    {
        proof {
            let cf = clock_freq as int;
            let sf = sample_freq as int;
            vstd::arithmetic::div_mod::lemma_div_is_ordered(sf * 0x20000, cf * 0x20000, sf);
            vstd::arithmetic::div_mod::lemma_div_by_multiple(0x20000 as int, sf);
            assert(sf * 0x20000 == 0x20000 * sf) by (nonlinear_arith);
            assert(cf * 0x20000 < (sf * 4096) * 0x20000) by (nonlinear_arith)
                requires
                    cf < sf * 4096,
            ;
            vstd::arithmetic::div_mod::lemma_div_is_ordered(
                cf * 0x20000,
                sf * 4096 * 0x20000,
                sf,
            );
            assert(sf * 4096 * 0x20000 == (4096 * 0x20000) * sf) by (nonlinear_arith);
            vstd::arithmetic::div_mod::lemma_div_by_multiple((4096 * 0x20000) as int, sf);
            vstd::arithmetic::div_mod::lemma_div_is_ordered(
                (0x20000 + 1) as int,
                cf * 0x20000 / sf + 1,
                2,
            );
            vstd::arithmetic::div_mod::lemma_div_is_ordered(
                cf * 0x20000 / sf + 1,
                (4096 * 0x20000 + 1) as int,
                2,
            );
        }
        self.cycles_per_sample = (((clock_freq as u64 * 0x20000) / sample_freq as u64 + 1) / 2)
            as u32;
        self.sampling_method = method;
        self.sample_buffer = [0i16; 32768];
        self.sample_index = 0;
        self.sample_offset = 0;
        self.sample_prev = 0;
        proof {
            assert(self.sample_buffer@ =~= Seq::new(32768nat, |i: int| 0i16));
        }
    }

    /// Install the windowed-sinc filter tables for the resampling
    /// strategies: `fir_res` shifted copies of a kernel of `fir_n` taps,
    /// concatenated.
    pub fn set_fir_table(&mut self, fir: Vec<i16>, fir_n: i32, fir_res: i32)
        requires
            old(self).wf(),
            1 <= fir_n <= 0x3000,
            1 <= fir_res <= 0x4000,
            fir@.len() == fir_n * fir_res,
        ensures
            *final(self) == (Sampler { fir: fir, fir_n, fir_res, ..*old(self) }),
            final(self).wf(),
    {
        self.fir = fir;
        self.fir_n = fir_n;
        self.fir_res = fir_res;
    }

    /// Reset the synthesizer and the sampling state; the configuration is
    /// kept.
    pub fn reset(&mut self)
        requires
            old(self).wf(),
        ensures
            *final(self) == (Sampler {
                synth: old(self).synth.after_reset(),
                sample_index: 0,
                sample_offset: 0,
                sample_prev: 0,
                ..*old(self)
            }),
            final(self).wf(),
    {
        self.synth.reset();
        self.sample_index = 0;
        self.sample_offset = 0;
        self.sample_prev = 0;
    }

    /// Clock the chip through the configured sampling strategy. Returns
    /// the number of samples written to `buffer` (at every
    /// `interleave`-th position) and the unconsumed cycles.
    pub fn clock(&mut self, delta: u32, buffer: &mut [i16], interleave: usize) -> (r: (usize, u32))
        requires
            old(self).wf(),
            1 <= interleave,
        ensures
            final(self).wf(),
            ({
                let cap = (old(buffer)@.len() as int / interleave as int) as nat;
                let run = match old(self).sampling_method {
                    SamplingMethod::Fast => Self::fast_run(*old(self), delta, cap),
                    SamplingMethod::Interpolate => Self::interp_run(*old(self), delta, cap),
                    SamplingMethod::Resample => Self::resample_run(*old(self), delta, cap),
                    SamplingMethod::ResampleFast => Self::resample_fast_run(
                        *old(self),
                        delta,
                        cap,
                    ),
                };
                &&& *final(self) == run.0
                &&& r.0 == run.2
                &&& r.1 == run.3
                &&& final(buffer)@ == written(old(buffer)@, run.1, interleave as int)
            }),
    {
        match self.sampling_method {
            SamplingMethod::Fast => self.clock_fast(delta, buffer, interleave),
            SamplingMethod::Interpolate => self.clock_interpolate(delta, buffer, interleave),
            SamplingMethod::Resample => self.clock_resample_interpolate(delta, buffer, interleave),
            SamplingMethod::ResampleFast => self.clock_resample_fast(delta, buffer, interleave),
        }
    }
}

} // verus!
