//! The extra registers of an audio channel: volume, feedback taps, shift
//! register and output level.
use vstd::prelude::*;
use crate::mikey::timers::{CTRLB_BORROW_OUT_BIT, CTRLB_TIMER_DONE_BIT};
use crate::mikey::timers::timer::{Timer, TimerView, with_control_b};

verus! {

/// An audio channel's registers.
#[derive(Clone, Copy, Debug)]
pub struct AudioTimerRegisters {
    volume: u8,
    feedback: u8,
    shift_register: u8,
    output: i8,
    disabled: bool,
}

/// The abstract state of [`AudioTimerRegisters`].
pub struct AudioView {
    pub volume: u8,
    pub feedback: u8,
    pub shift_register: u8,
    pub output: i8,
    pub disabled: bool,
}

impl View for AudioTimerRegisters {
    type V = AudioView;

    closed spec fn view(&self) -> AudioView {
        AudioView {
            volume: self.volume,
            feedback: self.feedback,
            shift_register: self.shift_register,
            output: self.output,
            disabled: self.disabled,
        }
    }
}

/// The number of set bits in `x`.
pub open spec fn bit_count(x: u16) -> nat
    decreases x,
{
    if x == 0 {
        0
    } else {
        (x % 2) as nat + bit_count(x / 2)
    }
}

/// `a + b` held to the range of an `i8`.
pub open spec fn sat_add_i8(a: i8, b: int) -> i8 {
    if a + b > 127 {
        127i8
    } else if a + b < -128 {
        -128i8
    } else {
        (a + b) as i8
    }
}

/// The 12-bit shift register: the register byte below, control B's upper
/// nibble above.
pub open spec fn shift_value(a: AudioView, t: TimerView) -> u16 {
    (a.shift_register as u16 | (((t.control_b as u16) & 0xf0) << 4u16)) as u16
}

/// The 12-bit feedback tap selection: feedback bits 0-5 as taps 0-5,
/// feedback bits 6-7 as taps 10-11, control A bit 7 as tap 7.
pub open spec fn feedback_taps(a: AudioView, t: TimerView) -> u16 {
    ((a.feedback as u16 & 0x3f) | ((a.feedback as u16 & 0xc0) << 4u16) | (t.control_a & 0x80) as u16) as u16
}

/// The bit shifted in: the inverted parity of the tapped shift register bits.
pub open spec fn feedback_bit(a: AudioView, t: TimerView) -> u16 {
    if bit_count(feedback_taps(a, t) & shift_value(a, t)) % 2 == 0 {
        1
    } else {
        0
    }
}

/// Whether the channel integrates (adds its volume to the output).
pub open spec fn integrates(t: TimerView) -> bool {
    t.control_a & 0x20 != 0
}

/// The timer after the shift register takes `value`: control B's upper
/// nibble takes bits 8-11.
pub open spec fn timer_with_shift(t: TimerView, value: u16) -> TimerView {
    with_control_b(t, ((t.control_b & !0xf0u8) | (((value & 0x0f00) >> 4u16) as u8)) as u8)
}

/// The output after a clock with feedback bit `par`: a 1 adds the volume
/// (integrate mode) or selects it, a 0 subtracts it or selects its two's
/// complement.
pub open spec fn next_output(a: AudioView, t: TimerView, par: u16) -> i8 {
    let volume = a.volume as i8;
    if integrates(t) {
        if par == 1 {
            sat_add_i8(a.output, volume as int)
        } else {
            sat_add_i8(a.output, -(volume as int))
        }
    } else {
        if par == 1 {
            volume
        } else if volume == -128 {
            -128i8
        } else {
            (0 - volume) as i8
        }
    }
}

/// The channel and its timer after the timer is done: done and borrow-out
/// are set, the shift register shifts in the feedback bit, and the output
/// follows the waveshape.
pub open spec fn audio_done(a: AudioView, t: TimerView) -> (AudioView, TimerView) {
    let t1 = with_control_b(t, t.control_b | 0x08 | 0x01);
    let par = feedback_bit(a, t1);
    let shifted = (((shift_value(a, t1) as int) * 2) % 0x1_0000 + par) as u16;
    let a2 = AudioView { shift_register: shifted as u8, ..a };
    let t2 = timer_with_shift(t1, shifted);
    (AudioView { output: next_output(a2, t2, par), ..a2 }, t2)
}

/// The number of set bits in `x`.
pub fn count_ones_u16(x: u16) -> (r: u32)
    ensures
        r == bit_count(x),
        r <= 16,
{
    proof {
        lemma_bit_count_le(x);
    }
    let mut v = x;
    let mut n: u32 = 0;
    while v != 0
        invariant
            n + bit_count(v) == bit_count(x),
            bit_count(x) <= 16,
        decreases v,
    {
        n = n + (v % 2) as u32;
        v = v / 2;
    }
    n
}

spec fn pow2n(k: nat) -> int
    decreases k,
{
    if k == 0 {
        1
    } else {
        2 * pow2n((k - 1) as nat)
    }
}

proof fn lemma_bit_count_bits(x: u16, k: nat)
    requires
        (x as int) < pow2n(k),
    ensures
        bit_count(x) <= k,
    decreases k,
{
    if x != 0 {
        if k == 0 {
            assert(pow2n(0) == 1);
        } else {
            lemma_bit_count_bits(x / 2, (k - 1) as nat);
        }
    }
}

proof fn lemma_bit_count_le(x: u16)
    ensures
        bit_count(x) <= 16,
{
    assert(pow2n(16) == 65536) by {
        reveal_with_fuel(pow2n, 17);
    }
    lemma_bit_count_bits(x, 16);
}

/// `a + b` held to the range of an `i8`.
pub fn saturating_add_i8(a: i8, b: i8) -> (r: i8)
    ensures
        r == sat_add_i8(a, b as int),
{
    let s = a as i16 + b as i16;
    if s > 127 {
        127
    } else if s < -128 {
        -128
    } else {
        s as i8
    }
}

/// `a - b` held to the range of an `i8`.
pub fn saturating_sub_i8(a: i8, b: i8) -> (r: i8)
    ensures
        r == sat_add_i8(a, -(b as int)),
{
    let s = a as i16 - b as i16;
    if s > 127 {
        127
    } else if s < -128 {
        -128
    } else {
        s as i8
    }
}

impl AudioTimerRegisters {
    /// A silent channel.
    pub fn new() -> (r: Self)
        ensures
            r@ == (AudioView { volume: 0, feedback: 0, shift_register: 0, output: 0, disabled: false }),
    {
        Self { volume: 0, feedback: 0, shift_register: 0, output: 0, disabled: false }
    }

    /// Clears every register.
    fn reset(&mut self)
        ensures
            final(self)@ == (AudioView { volume: 0, feedback: 0, shift_register: 0, output: 0, disabled: false }),
    {
        self.volume = 0;
        self.feedback = 0;
        self.shift_register = 0;
        self.output = 0;
        self.disabled = false;
    }

    /// The channel is disabled when its backup is 0 and its feedback is 1.
    pub fn update_disabled(&mut self, backup_value: u8)
        ensures
            final(self)@ == (AudioView { disabled: backup_value == 0 && old(self)@.feedback == 1, ..old(self)@ }),
    {
        self.disabled = backup_value == 0 && self.feedback == 1;
    }

    /// The volume register.
    pub fn volume(&self) -> (r: u8)
        ensures
            r == self@.volume,
    {
        self.volume
    }

    /// The output level.
    pub fn output(&self) -> (r: i8)
        ensures
            r == self@.output,
    {
        self.output
    }

    /// Writes the volume register.
    pub fn set_volume(&mut self, value: u8)
        ensures
            final(self)@ == (AudioView { volume: value, ..old(self)@ }),
    {
        self.volume = value;
    }

    /// Writes the output level.
    pub fn set_output(&mut self, value: i8)
        ensures
            final(self)@ == (AudioView { output: value, ..old(self)@ }),
    {
        self.output = value;
    }

    /// Whether `timer` is in integrate mode.
    pub fn integrate(&self, timer: &Timer) -> (r: bool)
        ensures
            r == integrates(timer@),
    {
        timer.control_a() & 0b00100000 != 0
    }

    /// The feedback register.
    pub fn feedback(&self) -> (r: u8)
        ensures
            r == self@.feedback,
    {
        self.feedback
    }

    /// The shift register's low byte.
    pub fn shift_register(&self) -> (r: u8)
        ensures
            r == self@.shift_register,
    {
        self.shift_register
    }

    /// Writes the feedback register and updates whether the channel is
    /// disabled.
    pub fn set_feedback(&mut self, backup_value: u8, feedback: u8)
        ensures
            final(self)@ == (AudioView { feedback, disabled: backup_value == 0 && feedback == 1, ..old(self)@ }),
    {
        self.feedback = feedback;
        self.update_disabled(backup_value);
    }

    /// Writes the shift register's low byte.
    pub fn set_shift_register(&mut self, shift_register: u8)
        ensures
            final(self)@ == (AudioView { shift_register, ..old(self)@ }),
    {
        self.shift_register = shift_register;
    }

    /// Spreads a 12-bit feedback selection over control A bit 7 and the
    /// feedback register.
    fn set_audio_feedback(&mut self, timer: &mut Timer, feedback: u16)
        ensures
            final(timer)@ == (TimerView {
                control_a: (old(timer)@.control_a & !0x80u8) | ((feedback as u8) & 0x80),
                ..old(timer)@
            }),
            final(self)@ == (AudioView {
                feedback: ((feedback as u8) & 0x3f) | (((feedback & 0x0c00) >> 4u16) as u8),
                ..old(self)@
            }),
    {
        let mut ctrla = timer.control_a() & !0b10000000;
        ctrla = ctrla | ((feedback as u8) & 0b10000000);
        timer.set_control_a_transaprent(ctrla);
        self.feedback = (feedback as u8) & 0b00111111;
        self.feedback = self.feedback | (((feedback & 0b00001100_00000000) >> 4) as u8);
    }

    /// Writes the 12-bit shift register: the low byte here, bits 8-11 into
    /// control B's upper nibble.
    pub fn set_audio_shift_register(&mut self, timer: &mut Timer, value: u16)
        ensures
            final(self)@ == (AudioView { shift_register: value as u8, ..old(self)@ }),
            final(timer)@ == timer_with_shift(old(timer)@, value),
    {
        self.shift_register = value as u8;
        let mut ctrlb = timer.control_b();
        ctrlb = ctrlb & !0b11110000;
        ctrlb = ctrlb | (((value & 0b00001111_00000000) >> 4) as u8);
        timer.set_control_b(ctrlb);
    }

    /// The 12-bit shift register.
    pub fn audio_shift_register(&self, timer: &Timer) -> (r: u16)
        ensures
            r == shift_value(self@, timer@),
    {
        self.shift_register as u16 | ((timer.control_b() as u16 & 0b11110000) << 4)
    }

    /// The 12-bit feedback tap selection.
    pub fn audio_feedback_taps(&self, timer: &Timer) -> (r: u16)
        ensures
            r == feedback_taps(self@, timer@),
    {
        let mut fb = self.feedback as u16 & 0b00111111;
        fb = fb | ((self.feedback as u16 & 0b11000000) << 4);
        fb = fb | ((timer.control_a() & 0b10000000) as u16);
        fb
    }

    /// Clocks the channel when its timer is done: sets done and borrow-out,
    /// shifts the inverted parity of the tapped bits into the shift
    /// register, and moves the output (to plus or minus the volume, or by
    /// it when integrating). Raises no interrupt.
    pub fn done(&mut self, timer: &mut Timer) -> (r: u8)
        ensures
            (final(self)@, final(timer)@) == audio_done(old(self)@, old(timer)@),
            r == 0,
    {
        let cb = timer.control_b();
        timer.set_control_b(cb | CTRLB_TIMER_DONE_BIT | CTRLB_BORROW_OUT_BIT);

        let taps = self.audio_feedback_taps(timer);
        let shift_reg = self.audio_shift_register(timer);
        let ones = count_ones_u16(taps & shift_reg);
        let par: u16 = ((ones as u16) & 1) ^ 1;
        proof {
            assert((((ones as u16) & 1) ^ 1) == (if ones % 2 == 0 { 1u16 } else { 0u16 })) by (bit_vector)
                requires
                    ones <= 16,
            ;
        }
        let shifted = (shift_reg << 1) | par;
        proof {
            assert(((shift_reg << 1u16) | par) == ((shift_reg as int * 2) % 0x1_0000 + par) as u16) by (
            bit_vector)
                requires
                    par <= 1,
            ;
        }
        self.set_audio_shift_register(timer, shifted);

        let volume = self.volume() as i8;

        // "In integrate mode, shift reg 0 = 1: add volume register to output."
        // "In normal mode, shift reg 0 = 1: contains value of volume register."
        let out = if self.integrate(timer) {
            if par == 1 {
                saturating_add_i8(self.output(), volume)
            } else {
                saturating_sub_i8(self.output(), volume)
            }
        } else {
            if par == 1 {
                volume
            } else {
                0i8.wrapping_sub(volume)
            }
        };
        self.set_output(out);
        0
    }

    /// Whether the channel is disabled.
    pub fn disabled(&self) -> (r: bool)
        ensures
            r == self@.disabled,
    {
        self.disabled
    }
}

impl Default for AudioTimerRegisters {
    fn default() -> (r: Self)
        ensures
            r@ == (AudioView { volume: 0, feedback: 0, shift_register: 0, output: 0, disabled: false }),
    {
        Self::new()
    }
}

} // verus!
