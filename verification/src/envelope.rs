//! ADSR envelope generator.
//!
//! A 15 bit rate counter divides the clock down to the envelope counter; the
//! comparison value is looked up from the attack, decay or release nibble.
//! A second, exponential counter further divides the clock during decay and
//! release, with a period that steps down at fixed envelope levels, mimicking
//! a capacitor discharge. Two hardware quirks are modeled exactly: the rate
//! counter must wrap through 0x8000 when its comparison value is lowered below
//! it, and an envelope counter that reaches zero freezes there until a gate
//! falling edge followed by a rising edge unlocks it.

use vstd::prelude::*;

verus! {

/// Rate counter comparison values for the sixteen attack/decay/release
/// settings, in clock cycles per envelope counter step.
pub const RATE_COUNTER_PERIOD: [u16; 16] = [
    9, 32, 63, 95, 149, 220, 267, 313, 392, 977, 1954, 3126, 3907, 11720, 19532, 31251,
];

/// Sustain levels: both nibbles of the envelope counter are compared with the
/// 4-bit sustain setting, so each level duplicates the nibble.
pub const SUSTAIN_LEVEL: [u8; 16] = [
    0x00, 0x11, 0x22, 0x33, 0x44, 0x55, 0x66, 0x77, 0x88, 0x99, 0xaa, 0xbb, 0xcc, 0xdd, 0xee,
    0xff,
];

/// True when the given bit of `value` is set.
pub fn bit_test(value: u8, bit: u8) -> (r: bool)
    requires
        bit < 8,
    ensures
        r == (value >> bit & 1 == 1),
{
    value >> bit & 1 == 1
}

/// Envelope phase. Decay and Sustain share one phase: the counter falls until
/// it matches the sustain level and then holds there.
#[derive(Clone, Copy, PartialEq, Eq, Structural, Debug)]
pub enum State {
    Attack,
    DecaySustain,
    Release,
}

#[derive(Clone, Copy)]
pub struct EnvelopeGenerator {
    // Configuration
    pub attack: u8,
    pub decay: u8,
    pub sustain: u8,
    pub release: u8,
    // Control
    pub gate: bool,
    // Runtime state
    pub state: State,
    pub envelope_counter: u8,
    pub exponential_counter: u8,
    pub exponential_counter_period: u8,
    pub hold_zero: bool,
    pub rate_counter: u16,
    pub rate_period: u16,
}

impl EnvelopeGenerator {
    /// Well-formedness: the register nibbles are in range, the rate counter
    /// stays inside its 15 bits, and the rate period is a nonzero 15-bit
    /// value, as every table entry is.
    pub open spec fn wf(self) -> bool {
        &&& self.attack <= 0xf
        &&& self.decay <= 0xf
        &&& self.sustain <= 0xf
        &&& self.release <= 0xf
        &&& self.rate_counter <= 0x7fff
        &&& 1 <= self.rate_period <= 0x7fff
    }

    /// The power-on state: gate off, counter frozen at zero, release phase
    /// with the fastest rate.
    pub open spec fn initial() -> EnvelopeGenerator {
        EnvelopeGenerator {
            attack: 0u8,
            decay: 0u8,
            sustain: 0u8,
            release: 0u8,
            gate: false,
            state: State::Release,
            envelope_counter: 0u8,
            exponential_counter: 0u8,
            exponential_counter_period: 1u8,
            hold_zero: true,
            rate_counter: 0u16,
            rate_period: RATE_COUNTER_PERIOD@[0],
        }
    }

    /// The effect of a control register write on the envelope: a rising
    /// gate starts the attack and unlocks a frozen counter, a falling gate
    /// starts the release.
    pub open spec fn control_written(self, value: u8) -> EnvelopeGenerator {
        let gate = value % 2 == 1;
        if !self.gate && gate {
            EnvelopeGenerator {
                gate: true,
                state: State::Attack,
                rate_period: RATE_COUNTER_PERIOD@[self.attack as int],
                hold_zero: false,
                ..self
            }
        } else if self.gate && !gate {
            EnvelopeGenerator {
                gate: false,
                state: State::Release,
                rate_period: RATE_COUNTER_PERIOD@[self.release as int],
                ..self
            }
        } else {
            EnvelopeGenerator { gate, ..self }
        }
    }

    /// The envelope step taken when the rate counter matches its period:
    /// advance the exponential divider and, when it fires, move the envelope
    /// counter one step in the direction of the current phase.
    pub open spec fn stepped(self) -> EnvelopeGenerator {
        let exp = if self.exponential_counter == 0xff {
            0u8
        } else {
            (self.exponential_counter + 1) as u8
        };
        if self.state == State::Attack || exp == self.exponential_counter_period {
            if self.hold_zero {
                EnvelopeGenerator { exponential_counter: 0, ..self }
            } else {
                let e1 = self.counter_moved();
                e1.with_exp_period()
            }
        } else {
            EnvelopeGenerator { exponential_counter: exp, ..self }
        }
    }

    /// The envelope counter move for the current phase, with the attack to
    /// decay hand-off at 0xff. The counter wraps module 256 in both
    /// directions; the hardware relies on this.
    pub open spec fn counter_moved(self) -> EnvelopeGenerator {
        match self.state {
            State::Attack => {
                let c = if self.envelope_counter == 0xff {
                    0u8
                } else {
                    (self.envelope_counter + 1) as u8
                };
                if c == 0xff {
                    EnvelopeGenerator {
                        exponential_counter: 0,
                        envelope_counter: c,
                        state: State::DecaySustain,
                        rate_period: RATE_COUNTER_PERIOD@[self.decay as int],
                        ..self
                    }
                } else {
                    EnvelopeGenerator { exponential_counter: 0, envelope_counter: c, ..self }
                }
            },
            State::DecaySustain => {
                if self.envelope_counter != SUSTAIN_LEVEL@[self.sustain as int] {
                    let c = if self.envelope_counter == 0 {
                        0xffu8
                    } else {
                        (self.envelope_counter - 1) as u8
                    };
                    EnvelopeGenerator { exponential_counter: 0, envelope_counter: c, ..self }
                } else {
                    EnvelopeGenerator { exponential_counter: 0, ..self }
                }
            },
            State::Release => {
                let c = if self.envelope_counter == 0 {
                    0xffu8
                } else {
                    (self.envelope_counter - 1) as u8
                };
                EnvelopeGenerator { exponential_counter: 0, envelope_counter: c, ..self }
            },
        }
    }

    /// The exponential counter period switch, keyed by exact envelope counter
    /// values; reaching zero freezes the counter.
    pub open spec fn with_exp_period(self) -> EnvelopeGenerator {
        if self.envelope_counter == 0xff {
            EnvelopeGenerator { exponential_counter_period: 1, ..self }
        } else if self.envelope_counter == 0x5d {
            EnvelopeGenerator { exponential_counter_period: 2, ..self }
        } else if self.envelope_counter == 0x36 {
            EnvelopeGenerator { exponential_counter_period: 4, ..self }
        } else if self.envelope_counter == 0x1a {
            EnvelopeGenerator { exponential_counter_period: 8, ..self }
        } else if self.envelope_counter == 0x0e {
            EnvelopeGenerator { exponential_counter_period: 16, ..self }
        } else if self.envelope_counter == 0x06 {
            EnvelopeGenerator { exponential_counter_period: 30, ..self }
        } else if self.envelope_counter == 0x00 {
            EnvelopeGenerator { exponential_counter_period: 1, hold_zero: true, ..self }
        } else {
            self
        }
    }

    /// One cycle of the rate counter: it skips the value 0x8000, wrapping
    /// from 0x7fff to 1 in a single cycle.
    pub open spec fn rate_counter_next(c: u16) -> u16 {
        if c == 0x7fff {
            1u16
        } else {
            (c + 1) as u16
        }
    }

    /// The full effect of one clock cycle.
    pub open spec fn clocked(self) -> EnvelopeGenerator {
        let c = Self::rate_counter_next(self.rate_counter);
        if c == self.rate_period {
            EnvelopeGenerator { rate_counter: 0, ..self }.stepped()
        } else {
            EnvelopeGenerator { rate_counter: c, ..self }
        }
    }

    /// `n` clock cycles, one at a time.
    pub open spec fn clocked_n(self, n: nat) -> EnvelopeGenerator
        decreases n,
    {
        if n == 0 {
            self
        } else {
            self.clocked().clocked_n((n - 1) as nat)
        }
    }

    /// Cycles until the rate counter next matches its period, counting the
    /// skip of 0x8000 when the counter sits above the period.
    pub open spec fn rate_step(self) -> int {
        if self.rate_period > self.rate_counter {
            self.rate_period - self.rate_counter
        } else {
            self.rate_period - self.rate_counter + 0x7fff
        }
    }

    /// Advancing the rate counter by `d` cycles without reaching a match;
    /// the counter skips 0x8000 on the way.
    pub open spec fn partial_advanced(self, d: int) -> EnvelopeGenerator {
        let t = self.rate_counter + d;
        if t >= 0x8000 {
            EnvelopeGenerator { rate_counter: (t - 0x7fff) as u16, ..self }
        } else {
            EnvelopeGenerator { rate_counter: t as u16, ..self }
        }
    }

    /// The effect of a bulk advance by `delta` cycles: whole rate periods are
    /// consumed one envelope step at a time, and the remainder moves the rate
    /// counter.
    pub open spec fn bulk_advanced(self, delta: int) -> EnvelopeGenerator
        decreases delta,
    {
        let rs = self.rate_step();
        if delta <= 0 {
            self
        } else if delta < rs || rs <= 0 {
            self.partial_advanced(delta)
        } else {
            EnvelopeGenerator { rate_counter: 0, ..self }.stepped().bulk_advanced(delta - rs)
        }
    }
}

} // verus!

verus! {

impl EnvelopeGenerator {
    /// A fresh generator: gate off, counter frozen at zero, release phase
    /// with the fastest rate.
    pub fn new() -> (r: EnvelopeGenerator)
        ensures
            r == EnvelopeGenerator::initial(),
            r.wf(),
    {
        let mut envelope = EnvelopeGenerator {
            attack: 0,
            decay: 0,
            sustain: 0,
            release: 0,
            gate: false,
            state: State::Release,
            envelope_counter: 0,
            exponential_counter: 0,
            exponential_counter_period: 0,
            hold_zero: false,
            rate_counter: 0,
            rate_period: 1,
        };
        envelope.reset();
        envelope
    }

    /// Load the attack and decay nibbles; the phase that is running picks up
    /// its new rate period at once.
    pub fn set_attack_decay(&mut self, value: u8)
        ensures
            final(self).attack == value / 16,
            final(self).decay == value % 16,
            final(self).rate_period == match old(self).state {
                State::Attack => RATE_COUNTER_PERIOD@[(value / 16) as int],
                State::DecaySustain => RATE_COUNTER_PERIOD@[(value % 16) as int],
                State::Release => old(self).rate_period,
            },
            *final(self) == (EnvelopeGenerator {
                attack: final(self).attack,
                decay: final(self).decay,
                rate_period: final(self).rate_period,
                ..*old(self)
            }),
            old(self).wf() ==> final(self).wf(),
    {
        self.attack = value / 16;
        self.decay = value % 16;
        match self.state {
            State::Attack => {
                self.rate_period = RATE_COUNTER_PERIOD[self.attack as usize];
            },
            State::DecaySustain => {
                self.rate_period = RATE_COUNTER_PERIOD[self.decay as usize];
            },
            State::Release => {},
        }
        proof {
            lemma_rate_table_in_range();
        }
    }

    /// Load the sustain and release nibbles; a running release picks up its
    /// new rate period at once.
    pub fn set_sustain_release(&mut self, value: u8)
        ensures
            final(self).sustain == value / 16,
            final(self).release == value % 16,
            final(self).rate_period == match old(self).state {
                State::Release => RATE_COUNTER_PERIOD@[(value % 16) as int],
                _ => old(self).rate_period,
            },
            *final(self) == (EnvelopeGenerator {
                sustain: final(self).sustain,
                release: final(self).release,
                rate_period: final(self).rate_period,
                ..*old(self)
            }),
            old(self).wf() ==> final(self).wf(),
    {
        self.sustain = value / 16;
        self.release = value % 16;
        match self.state {
            State::Release => {
                self.rate_period = RATE_COUNTER_PERIOD[self.release as usize];
            },
            _ => {},
        }
        proof {
            lemma_rate_table_in_range();
        }
    }

    /// Gate bit handling: a rising gate starts the attack and unlocks a
    /// frozen counter; a falling gate starts the release.
    pub fn set_control(&mut self, value: u8)
        requires
            old(self).wf(),
        ensures
            *final(self) == old(self).control_written(value),
            final(self).wf(),
    {
        let gate: bool = value % 2 == 1;
        if !self.gate && gate {
            self.state = State::Attack;
            self.rate_period = RATE_COUNTER_PERIOD[self.attack as usize];
            self.hold_zero = false;
        } else if self.gate && !gate {
            self.state = State::Release;
            self.rate_period = RATE_COUNTER_PERIOD[self.release as usize];
        }
        self.gate = gate;
        proof {
            lemma_rate_table_in_range();
        }
    }

    /// The control register's gate bit as it reads back.
    pub fn get_control(&self) -> (r: u8)
        ensures
            r == if self.gate { 1u8 } else { 0u8 },
    {
        if self.gate {
            1
        } else {
            0
        }
    }

    /// The attack/decay register value.
    pub fn get_attack_decay(&self) -> (r: u8)
        requires
            self.wf(),
        ensures
            r == self.attack * 16 + self.decay,
    {
        self.attack * 16 + self.decay
    }

    /// The sustain/release register value.
    pub fn get_sustain_release(&self) -> (r: u8)
        requires
            self.wf(),
        ensures
            r == self.sustain * 16 + self.release,
    {
        self.sustain * 16 + self.release
    }

    /// The envelope step shared by single and bulk clocking; runs when the
    /// rate counter has just matched its period.
    fn step_envelope(&mut self)
        requires
            old(self).wf(),
        ensures
            *final(self) == old(self).stepped(),
            final(self).wf(),
            final(self).rate_counter == old(self).rate_counter,
    {
        self.exponential_counter = if self.exponential_counter == 0xff {
            0
        } else {
            self.exponential_counter + 1
        };
        if matches!(self.state, State::Attack) || self.exponential_counter
            == self.exponential_counter_period {
            self.exponential_counter = 0;
            if self.hold_zero {
                return ;
            }
            match self.state {
                State::Attack => {
                    self.envelope_counter = if self.envelope_counter == 0xff {
                        0
                    } else {
                        self.envelope_counter + 1
                    };
                    if self.envelope_counter == 0xff {
                        self.state = State::DecaySustain;
                        self.rate_period = RATE_COUNTER_PERIOD[self.decay as usize];
                        proof {
                            lemma_rate_table_in_range();
                        }
                    }
                },
                State::DecaySustain => {
                    if self.envelope_counter != SUSTAIN_LEVEL[self.sustain as usize] {
                        self.envelope_counter = if self.envelope_counter == 0 {
                            0xff
                        } else {
                            self.envelope_counter - 1
                        };
                    }
                },
                State::Release => {
                    self.envelope_counter = if self.envelope_counter == 0 {
                        0xff
                    } else {
                        self.envelope_counter - 1
                    };
                },
            }
            match self.envelope_counter {
                0xff => self.exponential_counter_period = 1,
                0x5d => self.exponential_counter_period = 2,
                0x36 => self.exponential_counter_period = 4,
                0x1a => self.exponential_counter_period = 8,
                0x0e => self.exponential_counter_period = 16,
                0x06 => self.exponential_counter_period = 30,
                0x00 => {
                    self.exponential_counter_period = 1;
                    self.hold_zero = true;
                },
                _ => {},
            }
        }
    }

    /// Advance the envelope by one clock cycle.
    pub fn clock(&mut self)
        requires
            old(self).wf(),
        ensures
            *final(self) == old(self).clocked(),
            final(self).wf(),
    {
        let c: u16 = if self.rate_counter == 0x7fff {
            1
        } else {
            self.rate_counter + 1
        };
        if c == self.rate_period {
            self.rate_counter = 0;
            self.step_envelope();
        } else {
            self.rate_counter = c;
        }
    }

    /// Advance the envelope by `delta` clock cycles in bulk, consuming whole
    /// rate periods at a time.
    pub fn clock_delta(&mut self, delta: u32)
        requires
            old(self).wf(),
        ensures
            *final(self) == old(self).bulk_advanced(delta as int),
            final(self).wf(),
    {
        let mut remaining: u32 = delta;
        let mut rate_step: u32 = if self.rate_period > self.rate_counter {
            (self.rate_period - self.rate_counter) as u32
        } else {
            self.rate_period as u32 + 0x7fff - self.rate_counter as u32
        };
        while remaining != 0
            invariant
                self.wf(),
                remaining > 0 ==> rate_step == self.rate_step(),
                old(self).bulk_advanced(delta as int) == self.bulk_advanced(remaining as int),
            decreases remaining,
        {
            if remaining < rate_step {
                let t: u32 = self.rate_counter as u32 + remaining;
                if t >= 0x8000 {
                    self.rate_counter = (t - 0x7fff) as u16;
                } else {
                    self.rate_counter = t as u16;
                }
                return ;
            }
            self.rate_counter = 0;
            remaining = remaining - rate_step;
            self.step_envelope();
            rate_step = self.rate_period as u32;
        }
    }

    /// The 8-bit envelope level.
    pub fn output(&self) -> (r: u8)
        ensures
            r == self.envelope_counter,
    {
        self.envelope_counter
    }

    /// The envelope level as read from the envelope register.
    pub fn read_env(&self) -> (r: u8)
        ensures
            r == self.envelope_counter,
    {
        self.output()
    }

    /// Return to the power-on state.
    pub fn reset(&mut self)
        ensures
            *final(self) == EnvelopeGenerator::initial(),
            final(self).wf(),
    {
        self.attack = 0;
        self.decay = 0;
        self.sustain = 0;
        self.release = 0;
        self.gate = false;
        self.state = State::Release;
        self.envelope_counter = 0;
        self.exponential_counter = 0;
        self.exponential_counter_period = 1;
        self.hold_zero = true;
        self.rate_counter = 0;
        self.rate_period = RATE_COUNTER_PERIOD[0];
        proof {
            lemma_rate_table_in_range();
        }
    }
}

/// Every rate table entry is a nonzero 15-bit value.
pub proof fn lemma_rate_table_in_range()
    ensures
        forall|i: int| 0 <= i < 16 ==> 1 <= #[trigger] RATE_COUNTER_PERIOD@[i] <= 0x7fff,
{
    assert(forall|i: int| 0 <= i < 16 ==> 1 <= #[trigger] RATE_COUNTER_PERIOD@[i] <= 0x7fff) by {
        reveal(RATE_COUNTER_PERIOD);
    };
}

} // verus!

verus! {

impl EnvelopeGenerator {
    /// `stepped` and the helpers it uses keep the generator well formed.
    proof fn lemma_stepped_wf(self)
        requires
            self.wf(),
        ensures
            self.stepped().wf(),
            self.stepped().rate_counter == self.rate_counter,
    {
        lemma_rate_table_in_range();
    }

    /// Unfolding one clock off the back of a run.
    proof fn lemma_clocked_n_snoc(self, n: nat)
        ensures
            self.clocked_n(n + 1) == self.clocked_n(n).clocked(),
        decreases n,
    {
        if n > 0 {
            self.clocked().lemma_clocked_n_snoc((n - 1) as nat);
            assert(self.clocked_n(n + 1) == self.clocked().clocked_n(n));
            assert(self.clocked_n(n) == self.clocked().clocked_n((n - 1) as nat));
        } else {
            assert(self.clocked_n(1) == self.clocked().clocked_n(0));
        }
    }

    /// Runs compose.
    proof fn lemma_clocked_n_add(self, a: nat, b: nat)
        ensures
            self.clocked_n(a + b) == self.clocked_n(a).clocked_n(b),
        decreases a,
    {
        if a > 0 {
            self.clocked().lemma_clocked_n_add((a - 1) as nat, b);
        }
    }

    /// While the rate counter stays short of its period, clocking only moves
    /// the rate counter, skipping 0x8000 on the way.
    proof fn lemma_partial_run(self, k: nat)
        requires
            self.wf(),
            k < self.rate_step(),
        ensures
            self.clocked_n(k) == self.partial_advanced(k as int),
            self.clocked_n(k).wf(),
            self.clocked_n(k).rate_step() == self.rate_step() - k,
        decreases k,
    {
        if k > 0 {
            let e1 = self.clocked();
            assert(e1 == self.partial_advanced(1));
            e1.lemma_partial_run((k - 1) as nat);
            assert(e1.partial_advanced(k - 1) == self.partial_advanced(k as int));
        } else {
            assert(self.partial_advanced(0) == self);
        }
    }

    /// Clocking for exactly one full rate step lands on the match and takes
    /// one envelope step.
    proof fn lemma_chunk(self)
        requires
            self.wf(),
        ensures
            self.clocked_n(self.rate_step() as nat) == (EnvelopeGenerator {
                rate_counter: 0u16,
                ..self
            }).stepped(),
        decreases self.rate_step(),
    {
        let rs = self.rate_step();
        self.lemma_partial_run((rs - 1) as nat);
        self.lemma_clocked_n_snoc((rs - 1) as nat);
        let e1 = self.clocked_n((rs - 1) as nat);
        assert(Self::rate_counter_next(e1.rate_counter) == self.rate_period);
        assert(e1.clocked() == (EnvelopeGenerator { rate_counter: 0u16, ..self }).stepped());
    }
}

/// Law: one full attack rate period advances the envelope counter by exactly
/// one. Starting at a period boundary in the attack phase, clocking for one
/// whole rate period increments the level once and returns to the boundary,
/// so repeating it walks the level up a step per period through 0xff.
pub proof fn lemma_attack_monotonic(e: EnvelopeGenerator)
    requires
        e.wf(),
        e.state == State::Attack,
        !e.hold_zero,
        e.rate_counter == 0,
        e.envelope_counter <= 0xfe,
    ensures
        e.clocked_n(e.rate_period as nat).envelope_counter == e.envelope_counter + 1,
        e.clocked_n(e.rate_period as nat).rate_counter == 0,
        e.clocked_n(e.rate_period as nat).state == (if e.envelope_counter + 1 == 0xff {
            State::DecaySustain
        } else {
            State::Attack
        }),
        !e.clocked_n(e.rate_period as nat).hold_zero,
        e.clocked_n(e.rate_period as nat).wf(),
        e.clocked_n(e.rate_period as nat).rate_period == (if e.envelope_counter + 1 == 0xff {
            RATE_COUNTER_PERIOD@[e.decay as int]
        } else {
            e.rate_period
        }),
        e.clocked_n(e.rate_period as nat).attack == e.attack,
        e.clocked_n(e.rate_period as nat).decay == e.decay,
        e.clocked_n(e.rate_period as nat).sustain == e.sustain,
        e.clocked_n(e.rate_period as nat).release == e.release,
        e.clocked_n(e.rate_period as nat).gate == e.gate,
{
    e.lemma_chunk();
    e.lemma_stepped_wf();
    assert(EnvelopeGenerator { rate_counter: 0u16, ..e } == e);
    lemma_rate_table_in_range();
}

/// Law: the whole attack ramp is linear in rate periods. From a period
/// boundary in the attack phase, `k` whole rate periods raise the
/// envelope counter by exactly `k`, one step per period, all the way to
/// the top of the ramp.
pub proof fn lemma_attack_ramp(e: EnvelopeGenerator, k: nat)
    requires
        e.wf(),
        e.state == State::Attack,
        !e.hold_zero,
        e.rate_counter == 0,
        e.envelope_counter + k <= 0xff,
    ensures
        e.clocked_n(k * (e.rate_period as nat)).envelope_counter == e.envelope_counter + k,
    decreases k,
{
    let p = e.rate_period as nat;
    if k == 0 {
        assert(k * p == 0) by (nonlinear_arith)
            requires
                k == 0,
        ;
    } else {
        lemma_attack_monotonic(e);
        let e1 = e.clocked_n(p);
        assert(k * p == p + (k - 1) * p) by (nonlinear_arith)
            requires
                k >= 1,
        ;
        e.lemma_clocked_n_add(p, ((k - 1) * p) as nat);
        if k == 1 {
            assert((k - 1) * p == 0) by (nonlinear_arith)
                requires
                    k == 1,
            ;
        } else {
            assert(e.envelope_counter + 1 != 0xff);
            lemma_attack_ramp(e1, (k - 1) as nat);
        }
    }
}

/// Law: a frozen envelope stays frozen. Once `hold_zero` is set, any amount
/// of clocking leaves the envelope counter untouched and the freeze in
/// place; only a gate rising edge releases it.
pub proof fn lemma_hold_zero_frozen(e: EnvelopeGenerator, n: nat)
    requires
        e.wf(),
        e.hold_zero,
    ensures
        e.clocked_n(n).envelope_counter == e.envelope_counter,
        e.clocked_n(n).hold_zero,
        e.clocked_n(n).wf(),
    decreases n,
{
    if n > 0 {
        e.lemma_stepped_wf();
        lemma_hold_zero_frozen(e.clocked(), (n - 1) as nat);
    }
}

/// Law: bulk clocking is exact. Advancing the envelope by `n` cycles with
/// `clock_delta` produces the same generator state, field for field, as `n`
/// single `clock` calls.
pub proof fn lemma_clock_delta_equivalence(e: EnvelopeGenerator, n: nat)
    requires
        e.wf(),
    ensures
        e.bulk_advanced(n as int) == e.clocked_n(n),
    decreases n,
{
    let rs = e.rate_step();
    if n == 0 {
    } else if n < rs {
        e.lemma_partial_run(n);
    } else {
        let e1 = EnvelopeGenerator { rate_counter: 0u16, ..e };
        let e2 = e1.stepped();
        e1.lemma_stepped_wf();
        e.lemma_chunk();
        e.lemma_clocked_n_add(rs as nat, (n - rs) as nat);
        lemma_clock_delta_equivalence(e2, (n - rs) as nat);
    }
}

} // verus!
