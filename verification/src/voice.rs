//! One voice: a waveform generator amplitude-modulated by an envelope
//! generator, with the measured DC offsets of the chip revision.
//!
//! The waveform output range is 0x000 to 0xfff, so the "zero" level should
//! ideally be 0x800; on the measured first-revision chip it sits at 0x380.
//! The envelope multiplying D/A converter introduces a further DC offset of
//! about half the voice's dynamic range. The later revision has neither
//! offset.

use vstd::prelude::*;

use crate::envelope::EnvelopeGenerator;
use crate::wave::WaveformGenerator;
use crate::ChipModel;

verus! {

/// Waveform output level that maps to zero on the first chip revision.
pub const WAVE_ZERO_6581: i32 = 0x380;

/// DC offset of the envelope D/A converter on the first chip revision:
/// half the dynamic range of one voice.
pub const VOICE_DC_6581: i32 = 0x800 * 0xff;

#[derive(Clone, Copy)]
pub struct Voice {
    // Configuration
    pub wave_zero: i32,
    pub voice_dc: i32,
    // Generators
    pub envelope: EnvelopeGenerator,
    pub wave: WaveformGenerator,
}

impl Voice {
    /// Well-formedness: both generators are well formed and the DC pair is
    /// one of the two revisions' pairs.
    pub open spec fn wf(self) -> bool {
        &&& self.envelope.wf()
        &&& self.wave.wf()
        &&& ((self.wave_zero == WAVE_ZERO_6581 && self.voice_dc == VOICE_DC_6581) || (
        self.wave_zero == 0x800 && self.voice_dc == 0))
    }

    /// The power-on state for a chip revision.
    pub open spec fn initial(chip_model: ChipModel) -> Voice {
        Voice {
            wave_zero: match chip_model {
                ChipModel::Mos6581 => WAVE_ZERO_6581,
                ChipModel::Mos8580 => 0x800i32,
            },
            voice_dc: match chip_model {
                ChipModel::Mos6581 => VOICE_DC_6581,
                ChipModel::Mos8580 => 0i32,
            },
            envelope: EnvelopeGenerator::initial(),
            wave: WaveformGenerator::initial(chip_model),
        }
    }

    /// The amplitude modulated 20-bit voice output: waveform output around
    /// its zero level, scaled by the envelope level, plus the voice DC
    /// offset.
    pub open spec fn out(self, src_acc: u32) -> int {
        (self.wave.out_wave(src_acc) - self.wave_zero) * self.envelope.envelope_counter
            + self.voice_dc
    }

    /// A fresh voice for the given chip revision.
    pub fn new(chip_model: ChipModel) -> (r: Voice)
        ensures
            r == Voice::initial(chip_model),
            r.wf(),
    {
        match chip_model {
            ChipModel::Mos6581 => Voice {
                wave_zero: WAVE_ZERO_6581,
                voice_dc: VOICE_DC_6581,
                envelope: EnvelopeGenerator::new(),
                wave: WaveformGenerator::new(chip_model),
            },
            ChipModel::Mos8580 => Voice {
                wave_zero: 0x800,
                voice_dc: 0,
                envelope: EnvelopeGenerator::new(),
                wave: WaveformGenerator::new(chip_model),
            },
        }
    }

    /// A control register write reaches both generators.
    pub fn set_control(&mut self, value: u8)
        requires
            old(self).wf(),
        ensures
            *final(self) == (Voice {
                envelope: old(self).envelope.control_written(value),
                wave: old(self).wave.control_written(value),
                ..*old(self)
            }),
            final(self).wf(),
    {
        self.envelope.set_control(value);
        self.wave.set_control(value);
    }

    /// The amplitude modulated 20-bit voice output; `sync_source` supplies
    /// the oscillator whose accumulator drives ring modulation.
    pub fn output(&self, sync_source: Option<&WaveformGenerator>) -> (r: i32)
        requires
            self.wf(),
            sync_source.is_some() ==> sync_source.unwrap().wf(),
        ensures
            r == self.out(
                match sync_source {
                    Some(w) => w.acc,
                    None => 0u32,
                },
            ),
            -0x80000 <= r <= 0x180000,
    {
        let w: u16 = self.wave.output(sync_source);
        let e: u8 = self.envelope.output();
        proof {
            assert((w - self.wave_zero) * e + self.voice_dc <= 0x180000 && (w - self.wave_zero)
                * e + self.voice_dc >= -0x80000) by (nonlinear_arith)
                requires
                    0 <= w <= 0xfff,
                    0 <= e <= 0xff,
                    (self.wave_zero == 0x380 && self.voice_dc == 0x800 * 0xff) || (self.wave_zero
                        == 0x800 && self.voice_dc == 0),
            ;
        }
        (w as i32 - self.wave_zero) * e as i32 + self.voice_dc
    }

    /// Return both generators to their power-on state; the DC configuration
    /// is kept.
    pub fn reset(&mut self)
        ensures
            *final(self) == (Voice {
                envelope: EnvelopeGenerator::initial(),
                wave: WaveformGenerator::initial(old(self).wave.chip_model),
                ..*old(self)
            }),
            old(self).wf() ==> final(self).wf(),
    {
        self.envelope.reset();
        self.wave.reset();
    }
}

} // verus!
