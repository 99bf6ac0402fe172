//! The sampling strategies and the reference convolution.

use resid::sampler::{Sampler, SamplingMethod};
use resid::synth::Synth;
use resid::ChipModel;

// interp: returns (40, 86)
const S_INTERP: [i16; 40] = [
    -21189, -21159, -21147, -21139, -21003, -20956, -20925, -20888, -20847, -20815, -20768, -20737,
    -20706, -20659, -20221, -20166, -20084, -20030, -19972, -19893, -19839, -19757, -19703, -19648,
    -19566, -19512, -19461, -19375, -19321, -19239, -19184, -19130, -19048, -18993, -18950, -18857,
    -18803, -18721, -18666, -18612,
];


fn setup_pulses(sampler: &mut Sampler) {
    sampler.synth.filter.set_enabled(false);
    sampler.synth.ext_filter.set_enabled(false);
    let voices: [(u8, u16, u16); 3] = [(4, 0x19b1, 0x200), (4, 0x29b1, 0x100), (4, 0x39b1, 0x50)];
    for v in 0..3u8 {
        let (wfm, freq, pw) = voices[v as usize];
        let off = v * 7;
        sampler.synth.write(off + 0, (freq & 0xff) as u8);
        sampler.synth.write(off + 1, (freq >> 8) as u8);
        sampler.synth.write(off + 2, (pw & 0xff) as u8);
        sampler.synth.write(off + 3, (pw >> 8) as u8);
        sampler.synth.write(off + 4, (wfm << 4) | 1);
        sampler.synth.write(off + 5, 9);
        sampler.synth.write(off + 6, 0);
    }
    sampler.synth.write(0x18, 4);
}

const S_RFAST: [i16; 40] = [
    -21189, -21159, -21147, -21139, -20987, -20956, -20909, -20878, -20831, -20800, -20753, -20721,
    -20675, -20643, -20166, -20112, -20030, -19975, -19893, -19839, -19757, -19703, -19621, -19566,
    -19484, -19430, -19348, -19293, -19239, -19157, -19103, -19021, -18966, -18884, -18830, -18748,
    -18693, -18612, -18557, -18475,
];

const S_RINTERP: [i16; 40] = [
    -17825, -17299, -11074, -18282, -16662, -11470, -18578, -16082, -11894, -18973, -15495, -12321,
    -19348, -14924, -12468, -19297, -14007, -12822, -19557, -13405, -13150, -19569, -12803, -13485,
    -18892, -12209, -13793, -18250, -11634, -14110, -17618, -11053, -14417, -16970, -10496, -14695,
    -16356, -9935, -14984, -15728,
];

#[test]
fn convolution_exact_values() {
    let sampler = Sampler::new(Synth::new(ChipModel::Mos6581));
    let a: [i16; 4] = [1, -2, 3, -4];
    let b: [i16; 4] = [5, 6, -7, 8];
    assert_eq!(sampler.compute_convolution_fir_fallback(&a, &b), 5 - 12 - 21 - 32);
    let long: [i16; 6] = [100, 100, 100, 100, 100, 100];
    let short: [i16; 2] = [3, -3];
    // mismatched lengths truncate to the shorter array, in either order
    assert_eq!(sampler.compute_convolution_fir_fallback(&long, &short), 0);
    assert_eq!(sampler.compute_convolution_fir_fallback(&short, &long), 0);
    let empty: [i16; 0] = [];
    assert_eq!(sampler.compute_convolution_fir_fallback(&empty, &b), 0);
    let big: [i16; 3] = [i16::MIN, i16::MAX, i16::MIN];
    // the full-precision sum exceeds 32 bits and is truncated once at the end
    let exact: i64 = (i16::MIN as i64) * (i16::MIN as i64) + (i16::MAX as i64)
        * (i16::MAX as i64) + (i16::MIN as i64) * (i16::MIN as i64);
    assert_eq!(sampler.compute_convolution_fir_fallback(&big, &big), exact as i32);
}

#[test]
fn sampler_interpolate_sequence() {
    let mut sampler = Sampler::new(Synth::new(ChipModel::Mos6581));
    sampler.set_parameters(SamplingMethod::Interpolate, 985248, 44100);
    setup_pulses(&mut sampler);
    let mut buffer = [0i16; 40];
    let (produced, remaining) = sampler.clock(40 * 22 + 100, &mut buffer, 1);
    assert_eq!(produced, 40);
    assert_eq!(remaining, 86);
    assert_eq!(&buffer[..], &S_INTERP[..]);
}

#[test]
fn sampler_resample_fast_sequence() {
    let mut sampler = Sampler::new(Synth::new(ChipModel::Mos6581));
    sampler.set_parameters(SamplingMethod::ResampleFast, 985248, 44100);
    // a single-tap near-unit-gain table: the output follows the raw chip
    // output at each sample instant
    let fir = vec![0x7fffi16];
    sampler.set_fir_table(fir, 1, 1);
    setup_pulses(&mut sampler);
    let mut buffer = [0i16; 40];
    let (produced, remaining) = sampler.clock(40 * 23, &mut buffer, 1);
    assert_eq!(produced, 40);
    assert_eq!(remaining, 27);
    assert_eq!(&buffer[..], &S_RFAST[..]);
}

#[test]
fn sampler_resample_sequence() {
    let mut sampler = Sampler::new(Synth::new(ChipModel::Mos6581));
    sampler.set_parameters(SamplingMethod::Resample, 985248, 44100);
    // two single-tap phase tables at half and near-full gain, linearly
    // interpolated by the phase fraction
    let fir = vec![0x4000i16, 0x7fffi16];
    sampler.set_fir_table(fir, 1, 2);
    setup_pulses(&mut sampler);
    let mut buffer = [0i16; 40];
    let (produced, remaining) = sampler.clock(40 * 23, &mut buffer, 1);
    assert_eq!(produced, 40);
    assert_eq!(remaining, 27);
    assert_eq!(&buffer[..], &S_RINTERP[..]);
}
