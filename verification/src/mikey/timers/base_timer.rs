//! A timer that schedules its clocks by absolute crystal tick.
use vstd::prelude::*;
use crate::mikey::timers::{
    CTRLA_ENABLE_COUNT_BIT, CTRLA_ENABLE_RELOAD_BIT, CTRLA_INTERRUPT_BIT, CTRLA_PERIOD_BIT,
    CTRLA_RESET_DONE_BIT, CTRLB_BORROW_IN_BIT, CTRLB_BORROW_OUT_BIT, CTRLB_TIMER_DONE_BIT,
    TIMER_TICKS_COUNT,
};
use crate::mikey::timers::timer::period_ticks;

verus! {

/// A timer's registers and the crystal tick of its next clock.
#[derive(Clone, Copy, Debug)]
pub struct BaseTimer {
    id: u8,
    int: u8,
    backup: u8,
    control_a: u8,
    count: u8,
    control_b: u8,
    clock_ticks: Option<u32>,
    next_trigger_tick: u64,
    linked_timer: Option<usize>,
    triggered: bool,
    is_linked: bool,
    count_enabled: bool,
    reload_enabled: bool,
}

/// The abstract state of a [`BaseTimer`].
pub struct BaseTimerView {
    pub id: u8,
    pub int: u8,
    pub backup: u8,
    pub control_a: u8,
    pub count: u8,
    pub control_b: u8,
    pub clock_ticks: Option<u32>,
    pub next_trigger_tick: u64,
    pub linked_timer: Option<usize>,
    pub triggered: bool,
    pub is_linked: bool,
    pub count_enabled: bool,
    pub reload_enabled: bool,
}

impl View for BaseTimer {
    type V = BaseTimerView;

    closed spec fn view(&self) -> BaseTimerView {
        BaseTimerView {
            id: self.id,
            int: self.int,
            backup: self.backup,
            control_a: self.control_a,
            count: self.count,
            control_b: self.control_b,
            clock_ticks: self.clock_ticks,
            next_trigger_tick: self.next_trigger_tick,
            linked_timer: self.linked_timer,
            triggered: self.triggered,
            is_linked: self.is_linked,
            count_enabled: self.count_enabled,
            reload_enabled: self.reload_enabled,
        }
    }
}

/// Whether a base timer is consistent: an enabled free-running timer has a
/// clock, and a clock is one of the prescaler's periods.
pub open spec fn base_timer_wf(t: BaseTimerView) -> bool {
    &&& !t.is_linked && t.count_enabled ==> t.clock_ticks is Some
    &&& t.clock_ticks matches Some(c) ==> 16 <= c <= 1024
}

/// The clock period selected by control A value `value`.
pub open spec fn base_clock(value: u8) -> Option<u32> {
    match period_ticks(value & 0x07) {
        Some(c) => Some(c as u32),
        None => None,
    }
}

/// The timer after a clock at zero: done and borrow-out set, and the
/// interrupt bits if its interrupt is enabled.
pub open spec fn base_done(t: BaseTimerView) -> (BaseTimerView, u8) {
    (
        BaseTimerView { control_b: t.control_b | 0x09, triggered: true, ..t },
        if t.control_a & 0x80 != 0 { t.int } else { 0 },
    )
}

/// A clock: borrow-in raised, borrow-out cleared, and the count down by one;
/// at zero the timer reloads (or stops) and is done.
pub open spec fn base_count_down(t: BaseTimerView) -> (BaseTimerView, bool, u8) {
    let t1 = BaseTimerView { control_b: (t.control_b & !0x01u8) | 0x02, ..t };
    if t1.count > 0 {
        (BaseTimerView { count: (t1.count - 1) as u8, ..t1 }, false, 0)
    } else {
        let t2 = if t1.reload_enabled {
            BaseTimerView { count: t1.backup, ..t1 }
        } else {
            BaseTimerView { next_trigger_tick: u64::MAX, ..t1 }
        };
        let (t3, irq) = base_done(t2);
        (t3, true, irq)
    }
}

proof fn lemma_base_period(value: u8)
    ensures
        value & 0x07 <= 7,
{
    assert(value & 0x07 <= 7) by (bit_vector);
}

impl BaseTimer {
    /// A stopped timer with number `id`, clocking `linked_timer` when done.
    pub fn new(id: u8, linked_timer: Option<usize>) -> (r: Self)
        requires
            id < 8,
        ensures
            r@ == (BaseTimerView {
                id,
                int: (1u8 << id) as u8,
                backup: 0,
                control_a: 0,
                count: 0,
                control_b: 0,
                clock_ticks: None,
                next_trigger_tick: u64::MAX,
                linked_timer,
                triggered: false,
                is_linked: false,
                count_enabled: false,
                reload_enabled: false,
            }),
            base_timer_wf(r@),
    {
        Self {
            id,
            int: 1 << id,
            backup: 0,
            control_a: 0,
            count: 0,
            control_b: 0,
            clock_ticks: None,
            next_trigger_tick: u64::MAX,
            linked_timer,
            triggered: false,
            is_linked: false,
            count_enabled: false,
            reload_enabled: false,
        }
    }

    /// The timer this one clocks when done.
    pub fn linked_timer(&self) -> (r: Option<usize>)
        ensures
            r == self@.linked_timer,
    {
        self.linked_timer
    }

    /// The timer's number.
    pub fn id(&self) -> (r: u8)
        ensures
            r == self@.id,
    {
        self.id
    }

    /// Clears the backup, count and control registers.
    fn reset(&mut self)
        ensures
            final(self)@ == (BaseTimerView { backup: 0, count: 0, control_a: 0, control_b: 0, ..old(self)@ }),
    {
        self.backup = 0;
        self.count = 0;
        self.control_a = 0;
        self.control_b = 0;
    }

    /// The backup register.
    pub fn backup(&self) -> (r: u8)
        ensures
            r == self@.backup,
    {
        self.backup
    }

    /// Control A.
    pub fn control_a(&self) -> (r: u8)
        ensures
            r == self@.control_a,
    {
        self.control_a
    }

    /// The count register.
    pub fn count(&self) -> (r: u8)
        ensures
            r == self@.count,
    {
        self.count
    }

    /// Control B.
    pub fn control_b(&self) -> (r: u8)
        ensures
            r == self@.control_b,
    {
        self.control_b
    }

    /// Clears the done flag.
    pub fn reset_timer_done(&mut self)
        ensures
            final(self)@ == (BaseTimerView { control_b: old(self)@.control_b & !0x08u8, ..old(self)@ }),
    {
        self.control_b = self.control_b & !CTRLB_TIMER_DONE_BIT;
    }

    /// Writes control A at crystal tick `current_tick`: the prescaler picks
    /// the clock (or the link), a reset-done request clears the done flag
    /// and is not kept, and an enabled free-running timer schedules its
    /// next clock one period on.
    pub fn set_control_a(&mut self, value: u8, current_tick: u64)
        requires
            (value & 0x07 != 7 && value & 0x08 != 0) ==> current_tick + base_clock(value)->0 <= u64::MAX,
        ensures
            ({
                let o = old(self)@;
                let linked = value & 0x07 == 7;
                let enabled = value & 0x08 != 0;
                final(self)@ == (BaseTimerView {
                    control_a: if value & 0x40 != 0 { value & !0x40u8 } else { value },
                    control_b: if value & 0x40 != 0 { o.control_b & !0x08u8 } else { o.control_b },
                    clock_ticks: base_clock(value),
                    is_linked: linked,
                    count_enabled: enabled,
                    reload_enabled: value & 0x10 != 0,
                    next_trigger_tick: if !linked && enabled {
                        (current_tick + base_clock(value)->0) as u64
                    } else {
                        u64::MAX
                    },
                    ..o
                })
            }),
            base_timer_wf(final(self)@),
    {
        proof {
            lemma_base_period(value);
        }
        self.control_a = value;
        let period = self.period();
        self.clock_ticks = if period == 7 {
            None
        } else if period == 0 {
            Some(TIMER_TICKS_COUNT as u32)
        } else if period == 1 {
            Some(TIMER_TICKS_COUNT as u32 * 2)
        } else if period == 2 {
            Some(TIMER_TICKS_COUNT as u32 * 4)
        } else if period == 3 {
            Some(TIMER_TICKS_COUNT as u32 * 8)
        } else if period == 4 {
            Some(TIMER_TICKS_COUNT as u32 * 16)
        } else if period == 5 {
            Some(TIMER_TICKS_COUNT as u32 * 32)
        } else {
            Some(TIMER_TICKS_COUNT as u32 * 64)
        };
        if value & CTRLA_RESET_DONE_BIT != 0 {
            self.reset_timer_done();
            self.control_a = self.control_a & !CTRLA_RESET_DONE_BIT;
        }
        proof {
            assert((value & !0x40u8) & 0x07 == value & 0x07) by (bit_vector);
        }

        self.is_linked = self.period() == 7;
        self.count_enabled = value & CTRLA_ENABLE_COUNT_BIT != 0;
        self.reload_enabled = value & CTRLA_ENABLE_RELOAD_BIT != 0;

        if !self.is_linked && self.count_enabled {
            self.next_trigger_tick = current_tick + self.clock_ticks.unwrap() as u64;
        } else {
            self.next_trigger_tick = u64::MAX;
        }
    }

    /// Writes control B.
    pub fn set_control_b(&mut self, value: u8)
        ensures
            final(self)@ == (BaseTimerView { control_b: value, ..old(self)@ }),
    {
        self.control_b = value;
    }

    /// Writes the backup register.
    pub fn set_backup(&mut self, value: u8)
        ensures
            final(self)@ == (BaseTimerView { backup: value, ..old(self)@ }),
    {
        self.backup = value;
    }

    /// Writes the count at crystal tick `current_tick`; an enabled
    /// free-running timer reschedules its next clock on a nonzero count.
    pub fn set_count(&mut self, value: u8, current_tick: u64)
        requires
            base_timer_wf(old(self)@),
            (!old(self)@.is_linked && old(self)@.count_enabled && value != 0) ==> current_tick
                + old(self)@.clock_ticks->0 <= u64::MAX,
        ensures
            final(self)@ == (BaseTimerView {
                count: value,
                next_trigger_tick: if !old(self)@.is_linked && old(self)@.count_enabled && value != 0 {
                    (current_tick + old(self)@.clock_ticks->0) as u64
                } else {
                    old(self)@.next_trigger_tick
                },
                ..old(self)@
            }),
            base_timer_wf(final(self)@),
    {
        self.count = value;
        if !self.is_linked && self.count_enabled && value != 0 {
            self.next_trigger_tick = current_tick + self.clock_ticks.unwrap() as u64;
        }
    }

    fn period(&self) -> (r: u8)
        ensures
            r == self@.control_a & 0x07,
    {
        self.control_a() & CTRLA_PERIOD_BIT
    }

    fn interrupt_enabled(&self) -> (r: bool)
        ensures
            r == (self@.control_a & 0x80 != 0),
    {
        self.control_a() & CTRLA_INTERRUPT_BIT != 0
    }

    /// Whether the timer is clocked by the timer linked to it.
    pub fn is_linked(&self) -> (r: bool)
        ensures
            r == self@.is_linked,
    {
        self.is_linked
    }

    fn count_down(&mut self) -> (r: (bool, u8))
        ensures
            (final(self)@, r.0, r.1) == base_count_down(old(self)@),
    {
        self.control_b = self.control_b & !CTRLB_BORROW_OUT_BIT;
        self.control_b = self.control_b | CTRLB_BORROW_IN_BIT;
        if self.count > 0 {
            self.count = self.count - 1;
        } else {
            if self.reload_enabled {
                self.count = self.backup;
            } else {
                self.next_trigger_tick = u64::MAX;
            }
            return (true, self.done());
        }
        (false, 0)
    }

    /// A clock from the timer this one is linked to: counts down if the
    /// timer is linked and enabled.
    pub fn tick_linked(&mut self) -> (r: (bool, u8))
        ensures
            if old(self)@.is_linked && old(self)@.count_enabled {
                (final(self)@, r.0, r.1) == base_count_down(old(self)@)
            } else {
                final(self)@ == old(self)@ && r == (false, 0u8)
            },
    {
        if !self.is_linked {
            return (false, 0);
        }
        if self.count_enabled {
            return self.count_down();
        }
        (false, 0)
    }

    /// A scheduled clock at crystal tick `current_tick`: borrow-in drops; a
    /// stopped timer unschedules itself, an enabled one schedules its next
    /// clock one period on and counts down.
    pub fn tick(&mut self, current_tick: u64) -> (r: (bool, u8))
        requires
            base_timer_wf(old(self)@),
            old(self)@.count_enabled ==> old(self)@.clock_ticks is Some && current_tick + old(self)@.clock_ticks->0
                <= u64::MAX,
        ensures
            ({
                let t1 = BaseTimerView { control_b: old(self)@.control_b & !0x02u8, ..old(self)@ };
                if !t1.count_enabled {
                    final(self)@ == (BaseTimerView { next_trigger_tick: u64::MAX, ..t1 }) && r == (false, 0u8)
                } else {
                    (final(self)@, r.0, r.1) == base_count_down(
                        BaseTimerView { next_trigger_tick: (current_tick + t1.clock_ticks->0) as u64, ..t1 },
                    )
                }
            }),
    {
        self.control_b = self.control_b & !CTRLB_BORROW_IN_BIT;

        if !self.count_enabled {
            self.next_trigger_tick = u64::MAX;
            return (false, 0);
        }

        self.next_trigger_tick = current_tick + self.clock_ticks.unwrap() as u64;

        self.count_down()
    }

    fn done(&mut self) -> (r: u8)
        ensures
            (final(self)@, r) == base_done(old(self)@),
    {
        let cb = self.control_b;
        assert((cb | 0x08u8) | 0x01u8 == cb | 0x09u8) by (bit_vector);
        self.control_b = self.control_b | CTRLB_TIMER_DONE_BIT | CTRLB_BORROW_OUT_BIT;
        self.triggered = true;

        if self.interrupt_enabled() {
            return self.int;
        }
        0
    }

    /// Whether the timer has been done since the last reset of the report.
    pub fn triggered(&self) -> (r: bool)
        ensures
            r == self@.triggered,
    {
        self.triggered
    }

    /// Clears the done report.
    pub fn reset_triggered(&mut self)
        ensures
            final(self)@ == (BaseTimerView { triggered: false, ..old(self)@ }),
    {
        self.triggered = false;
    }

    /// The crystal tick of the next clock (`u64::MAX` when none).
    pub fn next_trigger_tick(&self) -> (r: u64)
        ensures
            r == self@.next_trigger_tick,
    {
        self.next_trigger_tick
    }
}

} // verus!
