//! One of Mikey's twelve timers: a down counter clocked either by a
//! prescaled crystal or by the timer it is linked to.
use vstd::prelude::*;
use crate::mikey::timers::{
    CTRLA_ENABLE_COUNT_BIT, CTRLA_ENABLE_RELOAD_BIT, CTRLA_INTERRUPT_BIT, CTRLA_PERIOD_BIT,
    CTRLA_RESET_DONE_BIT, CTRLB_BORROW_IN_BIT, CTRLB_BORROW_OUT_BIT, CTRLB_TIMER_DONE_BIT,
    TIMER_TICKS_COUNT,
};

verus! {

/// A timer's registers and its countdown to the next clock.
#[derive(Clone, Copy, Debug)]
pub struct Timer {
    id: u8,
    int: u8,
    backup: u8,
    control_a: u8,
    count: u8,
    control_b: u8,
    clock_ticks: Option<u16>,
    tick_countdown: u16,
    linked: Option<u8>,
    is_linked: bool,
    count_enabled: bool,
    reload_enabled: bool,
}

/// The abstract state of a [`Timer`].
pub struct TimerView {
    pub id: u8,
    pub int: u8,
    pub backup: u8,
    pub control_a: u8,
    pub count: u8,
    pub control_b: u8,
    pub clock_ticks: Option<u16>,
    pub tick_countdown: u16,
    pub linked: Option<u8>,
    pub is_linked: bool,
    pub count_enabled: bool,
    pub reload_enabled: bool,
}

impl View for Timer {
    type V = TimerView;

    closed spec fn view(&self) -> TimerView {
        TimerView {
            id: self.id,
            int: self.int,
            backup: self.backup,
            control_a: self.control_a,
            count: self.count,
            control_b: self.control_b,
            clock_ticks: self.clock_ticks,
            tick_countdown: self.tick_countdown,
            linked: self.linked,
            is_linked: self.is_linked,
            count_enabled: self.count_enabled,
            reload_enabled: self.reload_enabled,
        }
    }
}

/// The crystal ticks between two clocks of a timer of prescaler `period`
/// (0 to 6); period 7 links the timer to another one.
pub open spec fn period_ticks(period: u8) -> Option<u16> {
    if period < 7 {
        Some((16 * pow2_u8(period)) as u16)
    } else {
        None
    }
}

/// 2 to the power `p`, for `p` below 7.
pub open spec fn pow2_u8(p: u8) -> int {
    if p == 0 {
        1
    } else if p == 1 {
        2
    } else if p == 2 {
        4
    } else if p == 3 {
        8
    } else if p == 4 {
        16
    } else if p == 5 {
        32
    } else {
        64
    }
}

/// Whether a timer state is consistent: a linked timer has no clock and no
/// countdown, an enabled free-running timer has a clock, and a clock is
/// one of the prescaler's periods.
pub open spec fn timer_wf(t: TimerView) -> bool {
    &&& t.is_linked ==> t.clock_ticks is None && t.tick_countdown == 0
    &&& !t.is_linked && t.count_enabled ==> t.clock_ticks is Some
    &&& t.clock_ticks matches Some(c) ==> 16 <= c <= 1024
}

/// Control B after writing `value` to it: only the upper five bits are kept.
pub open spec fn control_b_written(value: u8) -> u8 {
    value & 0xf8
}

/// The count after writing `value` to control B: a rising borrow-in takes
/// one from a nonzero count.
pub open spec fn count_after_control_b(t: TimerView, value: u8) -> u8 {
    if t.control_b & 0x02 == 0 && value & 0x02 != 0 && t.count > 0 {
        (t.count - 1) as u8
    } else {
        t.count
    }
}

/// The timer after writing `value` to control B.
pub open spec fn with_control_b(t: TimerView, value: u8) -> TimerView {
    TimerView { count: count_after_control_b(t, value), control_b: control_b_written(value), ..t }
}

/// The timer after writing `value` to control A.
pub open spec fn with_control_a(t: TimerView, value: u8) -> TimerView {
    let period = value & 0x07;
    let clock = period_ticks(period);
    let linked = period == 7;
    let enabled = value & 0x08 != 0;
    TimerView {
        control_a: value,
        clock_ticks: clock,
        control_b: if value & 0x40 != 0 { t.control_b & !0x08u8 } else { t.control_b },
        is_linked: linked,
        count_enabled: enabled,
        reload_enabled: value & 0x10 != 0,
        tick_countdown: if !linked && enabled { (1 + clock->0) as u16 } else { 0 },
        ..t
    }
}

/// The timer after writing `value` to its count: a free-running enabled
/// timer restarts its countdown on a nonzero count.
pub open spec fn with_count(t: TimerView, value: u8) -> TimerView {
    TimerView {
        count: value,
        tick_countdown: if !t.is_linked && t.count_enabled && value != 0 {
            (1 + t.clock_ticks->0) as u16
        } else {
            t.tick_countdown
        },
        ..t
    }
}

/// The timer after it reports done: done and borrow-out are set.
pub open spec fn timer_done(t: TimerView) -> TimerView {
    TimerView { control_b: t.control_b | 0x09, ..t }
}

/// The interrupt a timer reports when done.
pub open spec fn done_interrupt(t: TimerView) -> u8 {
    if t.control_a & 0x80 != 0 {
        t.int
    } else {
        0
    }
}

proof fn lemma_period_ticks(value: u8)
    ensures
        (value & 0x07) <= 7,
        (value & 0x07) < 7 ==> 16 <= 16 * pow2_u8(value & 0x07) <= 1024,
{
    lemma_control_bits(value, 0, 0);
}

/// Facts of bit arithmetic on the control registers: the period field, and
/// the borrow-in bit, which a stored control B never holds and which the
/// done flags and the shift register's top bits never set.
pub proof fn lemma_control_bits(value: u8, y: u8, v: u16)
    by (bit_vector)
    ensures
        value & 0x07 <= 7,
        (((value & 0xf8) | 0x08) | 0x01) & 0x02 == 0,
        ((((y & 0xf8) & !0xf0u8) | (((v & 0x0f00) >> 4u16) as u8)) as u8) & 0x02 == 0,
        (value & 0xf8) & 0x02 == 0,
{
}

impl Timer {
    /// A stopped timer with number `id`, clocking `linked_timer` when done,
    /// and raising interrupt bits `int_bits`.
    pub fn new(id: u8, linked_timer: Option<u8>, int_bits: u8) -> (r: Self)
        ensures
            r@ == (TimerView {
                id,
                int: int_bits,
                backup: 0,
                control_a: 0,
                count: 0,
                control_b: 0,
                clock_ticks: None,
                tick_countdown: 0,
                linked: linked_timer,
                is_linked: false,
                count_enabled: false,
                reload_enabled: false,
            }),
            timer_wf(r@),
    {
        Self {
            id,
            int: int_bits,
            backup: 0,
            control_a: 0,
            count: 0,
            control_b: 0,
            clock_ticks: None,
            tick_countdown: 0,
            linked: linked_timer,
            is_linked: false,
            count_enabled: false,
            reload_enabled: false,
        }
    }

    /// The timer this one clocks when done.
    pub fn linked_timer(&self) -> (r: Option<u8>)
        ensures
            r == self@.linked,
    {
        self.linked
    }

    /// The interrupt bits this timer raises.
    pub fn interrupt_bits(&self) -> (r: u8)
        ensures
            r == self@.int,
    {
        self.int
    }

    /// The timer's number.
    pub fn id(&self) -> (r: u8)
        ensures
            r == self@.id,
    {
        self.id
    }

    /// Clears the backup, count and control registers.
    fn reset(&mut self)
        ensures
            final(self)@ == (TimerView { backup: 0, count: 0, control_a: 0, control_b: 0, ..old(self)@ }),
    {
        self.backup = 0;
        self.count = 0;
        self.control_a = 0;
        self.control_b = 0;
    }

    /// The backup (reload) register.
    pub fn backup(&self) -> (r: u8)
        ensures
            r == self@.backup,
    {
        self.backup
    }

    /// Control A.
    pub fn control_a(&self) -> (r: u8)
        ensures
            r == self@.control_a,
    {
        self.control_a
    }

    /// The count register.
    pub fn count(&self) -> (r: u8)
        ensures
            r == self@.count,
    {
        self.count
    }

    /// Control B.
    pub fn control_b(&self) -> (r: u8)
        ensures
            r == self@.control_b,
    {
        self.control_b
    }

    /// Clears the done flag.
    pub fn reset_timer_done(&mut self)
        ensures
            final(self)@ == (TimerView { control_b: old(self)@.control_b & !0x08u8, ..old(self)@ }),
    {
        self.control_b = self.control_b & !CTRLB_TIMER_DONE_BIT;
    }

    /// Writes control A: the prescaler picks the clock (or the link), the
    /// done flag is cleared when asked, and an enabled free-running timer
    /// starts its countdown.
    pub fn set_control_a(&mut self, value: u8)
        requires
            timer_wf(old(self)@),
        ensures
            final(self)@ == with_control_a(old(self)@, value),
            timer_wf(final(self)@),
    {
        proof {
            lemma_period_ticks(value);
        }
        self.control_a = value;
        let period = self.period();
        self.clock_ticks = if period == 0 {
            Some(TIMER_TICKS_COUNT)
        } else if period == 1 {
            Some(TIMER_TICKS_COUNT * 2)
        } else if period == 2 {
            Some(TIMER_TICKS_COUNT * 4)
        } else if period == 3 {
            Some(TIMER_TICKS_COUNT * 8)
        } else if period == 4 {
            Some(TIMER_TICKS_COUNT * 16)
        } else if period == 5 {
            Some(TIMER_TICKS_COUNT * 32)
        } else if period == 6 {
            Some(TIMER_TICKS_COUNT * 64)
        } else {
            None
        };
        if value & CTRLA_RESET_DONE_BIT != 0 {
            self.reset_timer_done();
        }

        self.is_linked = self.period() == 7;
        self.count_enabled = self.control_a & CTRLA_ENABLE_COUNT_BIT != 0;
        self.reload_enabled = value & CTRLA_ENABLE_RELOAD_BIT != 0;

        if !self.is_linked && self.count_enabled {
            self.tick_countdown = 1 + self.clock_ticks.unwrap();
        } else {
            self.tick_countdown = 0;
        }
    }

    /// Writes control A and nothing else.
    pub fn set_control_a_transaprent(&mut self, value: u8)
        ensures
            final(self)@ == (TimerView { control_a: value, ..old(self)@ }),
    {
        self.control_a = value;
    }

    /// Writes control B: a rising borrow-in takes one from a nonzero count,
    /// and only the upper five bits are kept.
    pub fn set_control_b(&mut self, value: u8)
        ensures
            final(self)@ == with_control_b(old(self)@, value),
    {
        if self.control_b & CTRLB_BORROW_IN_BIT == 0 && value & CTRLB_BORROW_IN_BIT != 0 && self.count > 0 {
            self.count = self.count - 1;
        }
        self.control_b = value & 0xF8;
    }

    /// Clears borrow-in and borrow-out.
    pub fn clear_borrows(&mut self)
        ensures
            final(self)@ == (TimerView { control_b: old(self)@.control_b & 0xfc, ..old(self)@ }),
    {
        self.control_b = self.control_b & 0xFC;
    }

    /// Sets the control B bits of `flags`.
    pub fn set_control_b_flags(&mut self, flags: u8)
        ensures
            final(self)@ == (TimerView { control_b: old(self)@.control_b | flags, ..old(self)@ }),
    {
        self.control_b = self.control_b | flags;
    }

    /// Writes the backup register.
    pub fn set_backup(&mut self, value: u8)
        ensures
            final(self)@ == (TimerView { backup: value, ..old(self)@ }),
    {
        self.backup = value;
    }

    /// Writes the count; an enabled free-running timer restarts its
    /// countdown on a nonzero count.
    pub fn set_count(&mut self, value: u8)
        requires
            timer_wf(old(self)@),
        ensures
            final(self)@ == with_count(old(self)@, value),
            timer_wf(final(self)@),
    {
        self.count = value;
        if !self.is_linked && self.count_enabled && value != 0 {
            self.tick_countdown = 1 + self.clock_ticks.unwrap();
        }
    }

    /// Writes the count and nothing else.
    pub fn set_count_transparent(&mut self, value: u8)
        ensures
            final(self)@ == (TimerView { count: value, ..old(self)@ }),
    {
        self.count = value;
    }

    fn period(&self) -> (r: u8)
        ensures
            r == self@.control_a & 0x07,
    {
        self.control_a & CTRLA_PERIOD_BIT
    }

    /// Whether the timer raises an interrupt when done.
    pub fn interrupt_enabled(&self) -> (r: bool)
        ensures
            r == (self@.control_a & 0x80 != 0),
    {
        self.control_a & CTRLA_INTERRUPT_BIT != 0
    }

    /// Whether the timer is clocked by the timer linked to it.
    pub fn is_linked(&self) -> (r: bool)
        ensures
            r == self@.is_linked,
    {
        self.is_linked
    }

    /// Reports the timer done: sets done and borrow-out, and returns its
    /// interrupt bits if its interrupt is enabled.
    pub fn done(&mut self) -> (r: u8)
        ensures
            final(self)@ == timer_done(old(self)@),
            r == done_interrupt(old(self)@),
    {
        assert(0x08u8 | 0x01u8 == 0x09u8) by (bit_vector);
        self.set_control_b_flags(CTRLB_TIMER_DONE_BIT | CTRLB_BORROW_OUT_BIT);
        if self.interrupt_enabled() {
            return self.interrupt_bits();
        }
        0
    }

    /// Crystal ticks left before the timer's next clock (0 when stopped).
    pub fn tick_countdown(&self) -> (r: u16)
        ensures
            r == self@.tick_countdown,
    {
        self.tick_countdown
    }

    /// Restarts the countdown for one more clock period.
    pub fn reset_tick_countdown(&mut self)
        requires
            timer_wf(old(self)@),
            old(self)@.clock_ticks is Some,
        ensures
            final(self)@ == (TimerView { tick_countdown: (1 + old(self)@.clock_ticks->0) as u16, ..old(self)@ }),
            timer_wf(final(self)@),
    {
        self.tick_countdown = 1 + self.clock_ticks.unwrap();
    }

    /// Stops the countdown.
    pub fn disable_tick_countdown(&mut self)
        requires
            timer_wf(old(self)@),
        ensures
            final(self)@ == (TimerView { tick_countdown: 0, ..old(self)@ }),
            timer_wf(final(self)@),
    {
        self.tick_countdown = 0;
    }

    /// Whether the count reloads from the backup when it runs out.
    pub fn reload_enabled(&self) -> (r: bool)
        ensures
            r == self@.reload_enabled,
    {
        self.reload_enabled
    }

    /// Whether the timer counts.
    pub fn count_enabled(&self) -> (r: bool)
        ensures
            r == self@.count_enabled,
    {
        self.count_enabled
    }

    /// The crystal ticks per clock, or nothing for a linked timer.
    pub fn clock_ticks(&self) -> (r: Option<u16>)
        ensures
            r == self@.clock_ticks,
    {
        self.clock_ticks
    }
}

} // verus!
