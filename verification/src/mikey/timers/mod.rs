//! Mikey's eight system timers and four audio channels, their links, and
//! the interrupts they raise.
pub mod audio_timer_registers;
pub mod base_timer;
pub mod timer;

use vstd::prelude::*;
use crate::consts::{AUD0VOL, MIK_ADDR, TIM4CTLA};
use audio_timer_registers::{AudioTimerRegisters, AudioView, audio_done};
use timer::{
    Timer, TimerView, done_interrupt, timer_done, timer_wf, with_control_a, with_control_b, with_count, lemma_control_bits,
};

verus! {

/// Crystal ticks per microsecond, the fastest timer clock.
pub const TIMER_TICKS_COUNT: u16 = 16;

/// The number of system timers.
pub const TIMER_COUNT: usize = 8;

/// The number of audio channels.
pub const AUDIO_TIMER_COUNT: usize = 4;

pub const CTRLA_INTERRUPT_BIT: u8 = 0b1000_0000;

pub const CTRLA_RESET_DONE_BIT: u8 = 0b0100_0000;

pub const CTRLA_MAGMODE_BIT: u8 = 0b0010_0000;

pub const CTRLA_ENABLE_RELOAD_BIT: u8 = 0b0001_0000;

pub const CTRLA_ENABLE_COUNT_BIT: u8 = 0b0000_1000;

pub const CTRLA_PERIOD_BIT: u8 = 0b0000_0111;

pub const CTRLB_TIMER_DONE_BIT: u8 = 0b0000_1000;

pub const CTRLB_LAST_CLOCK_BIT: u8 = 0b0000_0100;

pub const CTRLB_BORROW_IN_BIT: u8 = 0b0000_0010;

pub const CTRLB_BORROW_OUT_BIT: u8 = 0b0000_0001;

/// Which register of a timer an address selects.
#[derive(Clone, Copy, Debug, PartialEq, Eq, Structural, PartialOrd)]
pub enum TimerReg {
    Backup,
    ControlA,
    Count,
    ControlB,
    Volume,
    Feedback,
    Output,
    ShiftRegister,
}

/// The timer clocked by timer `id` when it is done: 0 clocks 2, 2 clocks
/// 4, and 1, 3, 5, 7, 8, 9, 10, 11 form a ring; 4 and 6 clock none.
pub open spec fn timer_link(id: int) -> Option<u8> {
    if id == 0 {
        Some(2u8)
    } else if id == 1 {
        Some(3u8)
    } else if id == 2 {
        Some(4u8)
    } else if id == 3 {
        Some(5u8)
    } else if id == 5 {
        Some(7u8)
    } else if id == 7 {
        Some(8u8)
    } else if id == 8 {
        Some(9u8)
    } else if id == 9 {
        Some(10u8)
    } else if id == 10 {
        Some(11u8)
    } else if id == 11 {
        Some(1u8)
    } else {
        None
    }
}

/// The interrupt bit of timer `id`: one per system timer, none for the
/// audio channels.
pub open spec fn timer_int(id: int) -> u8 {
    if id < 8 {
        (1u8 << (id as u8)) as u8
    } else {
        0
    }
}

/// The timer and register an address selects: four registers per system
/// timer from MIK_ADDR, eight per audio channel from AUD0VOL.
pub open spec fn timer_slot(addr: u16) -> (int, TimerReg) {
    if addr < AUD0VOL {
        (
            (addr - MIK_ADDR) / 4,
            if addr % 4 == 0 {
                TimerReg::Backup
            } else if addr % 4 == 1 {
                TimerReg::ControlA
            } else if addr % 4 == 2 {
                TimerReg::Count
            } else {
                TimerReg::ControlB
            },
        )
    } else {
        (
            (addr - AUD0VOL) / 8 + 8,
            if addr % 8 == 0 {
                TimerReg::Volume
            } else if addr % 8 == 1 {
                TimerReg::Feedback
            } else if addr % 8 == 2 {
                TimerReg::Output
            } else if addr % 8 == 3 {
                TimerReg::ShiftRegister
            } else if addr % 8 == 4 {
                TimerReg::Backup
            } else if addr % 8 == 5 {
                TimerReg::ControlA
            } else if addr % 8 == 6 {
                TimerReg::Count
            } else {
                TimerReg::ControlB
            },
        )
    }
}

/// Whether `addr` is a timer or audio register.
pub open spec fn timer_addr(addr: u16) -> bool {
    MIK_ADDR <= addr <= 0xfd3f
}

/// The timer and register an address selects.
pub fn get_timer(addr: u16) -> (r: (usize, TimerReg))
    requires
        MIK_ADDR <= addr,
    ensures
        (r.0 as int, r.1) == timer_slot(addr),
{
    if addr < AUD0VOL {
        (
            ((addr - MIK_ADDR) / 4) as usize,
            if addr % 4 == 0 {
                TimerReg::Backup
            } else if addr % 4 == 1 {
                TimerReg::ControlA
            } else if addr % 4 == 2 {
                TimerReg::Count
            } else {
                TimerReg::ControlB
            },
        )
    } else {
        (
            (((addr - AUD0VOL) / 8) + 8) as usize,
            if addr % 8 == 0 {
                TimerReg::Volume
            } else if addr % 8 == 1 {
                TimerReg::Feedback
            } else if addr % 8 == 2 {
                TimerReg::Output
            } else if addr % 8 == 3 {
                TimerReg::ShiftRegister
            } else if addr % 8 == 4 {
                TimerReg::Backup
            } else if addr % 8 == 5 {
                TimerReg::ControlA
            } else if addr % 8 == 6 {
                TimerReg::Count
            } else {
                TimerReg::ControlB
            },
        )
    }
}

/// A timer clock: borrow-in is raised (borrow-out cleared) and the count
/// goes down by one; at zero the timer reloads from its backup (or stops)
/// and is done, an audio channel clocking its waveform. Gives whether the
/// timer was done, the interrupt it raised, and the new states.
pub open spec fn count_down(t: TimerView, a: Option<AudioView>) -> (bool, u8, TimerView, Option<AudioView>) {
    let t1 = with_control_b(t, ((t.control_b & !0x01u8) | 0x02u8) as u8);
    if t1.count == 0 {
        let t2 = if t1.reload_enabled {
            TimerView { count: t1.backup, ..t1 }
        } else {
            TimerView { tick_countdown: 0, ..t1 }
        };
        match a {
            Some(av) => {
                let (a3, t3) = audio_done(av, t2);
                (true, 0u8, t3, Some(a3))
            },
            None => (true, done_interrupt(t2), timer_done(t2), None),
        }
    } else {
        (false, 0u8, TimerView { count: (t1.count - 1) as u8, ..t1 }, a)
    }
}

/// The audio channel of timer `id`, if it has one.
pub open spec fn audio_of(au: Seq<AudioView>, id: int) -> Option<AudioView> {
    if id >= 8 {
        Some(au[id - 8])
    } else {
        None
    }
}

/// A clock of timer `id` and of the linked timers it clocks in turn: a
/// free-running timer drops borrow-in and, unless stopped (or its channel
/// disabled), restarts its countdown; the timer counts down, and when done
/// clocks the next timer in its chain if that one is linked. Gives the new
/// timers, channels and done flags, and the interrupts raised.
pub open spec fn cascade(ts: Seq<TimerView>, au: Seq<AudioView>, tr: Seq<bool>, id: int, fuel: nat) -> (
    Seq<TimerView>,
    Seq<AudioView>,
    Seq<bool>,
    u8,
)
    decreases fuel,
{
    let t0 = ts[id];
    let tb = with_control_b(t0, t0.control_b & !0x02u8);
    if !t0.is_linked && (!t0.count_enabled || (id >= 8 && au[id - 8].disabled)) {
        (ts.update(id, TimerView { tick_countdown: 0, ..tb }), au, tr.update(id, false), 0u8)
    } else {
        let t1 = if t0.is_linked {
            t0
        } else {
            TimerView { tick_countdown: (1 + tb.clock_ticks->0) as u16, ..tb }
        };
        let (trig, irq, t2, a2) = count_down(t1, audio_of(au, id));
        let ts2 = ts.update(id, t2);
        let au2 = if id >= 8 {
            au.update(id - 8, a2->0)
        } else {
            au
        };
        let tr2 = tr.update(id, trig);
        if !trig {
            (ts2, au2, tr2, 0u8)
        } else {
            match t2.linked {
                Some(l) => if ts2[l as int].is_linked && fuel > 0 {
                    let r = cascade(ts2, au2, tr2, l as int, (fuel - 1) as nat);
                    (r.0, r.1, r.2, irq | r.3)
                } else {
                    (ts2, au2, tr2, irq)
                },
                None => (ts2, au2, tr2, irq),
            }
        }
    }
}

/// Whether, following the links from timer `id`, a timer whose successor
/// is not linked comes within `n` steps.
pub open spec fn chain_ok(ts: Seq<TimerView>, id: int, n: nat) -> bool
    decreases n,
{
    match ts[id].linked {
        None => true,
        Some(nx) => !ts[nx as int].is_linked || (n > 0 && chain_ok(ts, nx as int, (n - 1) as nat)),
    }
}

/// Whether two timer sequences agree on their links and linked modes.
pub open spec fn same_links(a: Seq<TimerView>, b: Seq<TimerView>) -> bool {
    &&& a.len() == b.len()
    &&& forall|i: int| 0 <= i < a.len() ==> #[trigger] a[i].linked == b[i].linked && a[i].is_linked == b[i].is_linked
}

/// Whether every timer is consistent and links to a timer that exists.
pub open spec fn timer_seq_wf(ts: Seq<TimerView>) -> bool {
    &&& ts.len() == 12
    &&& forall|i: int| 0 <= i < 12 ==> #[trigger] timer_wf(ts[i])
    &&& forall|i: int| 0 <= i < 12 ==> (#[trigger] ts[i].linked matches Some(l) ==> l < 12)
}

proof fn lemma_chain_frame(a: Seq<TimerView>, b: Seq<TimerView>, id: int, n: nat)
    requires
        same_links(a, b),
        0 <= id < a.len(),
        forall|i: int| 0 <= i < a.len() ==> (#[trigger] a[i].linked matches Some(l) ==> l < a.len()),
    ensures
        chain_ok(a, id, n) == chain_ok(b, id, n),
    decreases n,
{
    assert(a[id].linked == b[id].linked);
    match a[id].linked {
        None => {},
        Some(nx) => {
            assert(nx < a.len());
            assert(a[nx as int].linked == b[nx as int].linked);
            assert(a[nx as int].is_linked == b[nx as int].is_linked);
            if n > 0 {
                lemma_chain_frame(a, b, nx as int, (n - 1) as nat);
            }
        },
    }
}

/// The value read from the timer or audio register at `addr`.
pub open spec fn timers_peek(v: TimersView, addr: u16) -> u8 {
    let (index, reg) = timer_slot(addr);
    match reg {
        TimerReg::Backup => v.timer[index].backup,
        TimerReg::ControlA => v.timer[index].control_a,
        TimerReg::Count => v.timer[index].count,
        TimerReg::ControlB => v.timer[index].control_b,
        TimerReg::Volume => v.audio[index - 8].volume,
        TimerReg::Feedback => v.audio[index - 8].feedback,
        TimerReg::Output => v.audio[index - 8].output as u8,
        TimerReg::ShiftRegister => v.audio[index - 8].shift_register,
    }
}

/// The timers after writing `x` to the timer or audio register at `addr`:
/// the register takes the value (control B keeps its upper five bits), a
/// backup or feedback write updates whether the channel is disabled, and a
/// control A or count write refreshes that timer's pending countdown.
pub open spec fn timers_poke(o: TimersView, addr: u16, x: u8) -> TimersView {
    let (index, reg) = timer_slot(addr);
    match reg {
        TimerReg::Backup => TimersView {
            timer: o.timer.update(index, TimerView { backup: x, ..o.timer[index] }),
            audio: if index >= 8 {
                o.audio.update(
                    index - 8,
                    AudioView { disabled: x == 0 && o.audio[index - 8].feedback == 1, ..o.audio[index - 8] },
                )
            } else {
                o.audio
            },
            ..o
        },
        TimerReg::ControlA => {
            let t = with_control_a(o.timer[index], x);
            TimersView { timer: o.timer.update(index, t), countdown: o.countdown.update(index, t.tick_countdown), ..o }
        },
        TimerReg::Count => {
            let t = with_count(o.timer[index], x);
            TimersView { timer: o.timer.update(index, t), countdown: o.countdown.update(index, t.tick_countdown), ..o }
        },
        TimerReg::ControlB => TimersView { timer: o.timer.update(index, with_control_b(o.timer[index], x)), ..o },
        TimerReg::Volume => TimersView {
            audio: o.audio.update(index - 8, AudioView { volume: x, ..o.audio[index - 8] }),
            ..o
        },
        TimerReg::Feedback => TimersView {
            audio: o.audio.update(
                index - 8,
                AudioView { feedback: x, disabled: o.timer[index].backup == 0 && x == 1, ..o.audio[index - 8] },
            ),
            ..o
        },
        TimerReg::Output => TimersView {
            audio: o.audio.update(index - 8, AudioView { output: x as i8, ..o.audio[index - 8] }),
            ..o
        },
        TimerReg::ShiftRegister => TimersView {
            audio: o.audio.update(index - 8, AudioView { shift_register: x, ..o.audio[index - 8] }),
            ..o
        },
    }
}

/// A register written through `poke` reads back through `peek` as written,
/// but for control B, which keeps only its upper five bits.
pub proof fn lemma_poke_then_peek(v: TimersView, addr: u16, x: u8)
    requires
        timers_wf(v),
        timer_addr(addr),
    ensures
        timers_peek(timers_poke(v, addr, x), addr) == (if timer_slot(addr).1 == TimerReg::ControlB {
            x & 0xf8
        } else {
            x
        }),
{
    let (index, reg) = timer_slot(addr);
    assert(0 <= index < 12);
    assert(reg is Volume || reg is Feedback || reg is Output || reg is ShiftRegister ==> index >= 8);
    assert((x as i8) as u8 == x) by (bit_vector);
}

/// Writing one timer or audio register leaves every other timer and
/// channel as it was.
pub proof fn lemma_poke_frame(v: TimersView, addr: u16, x: u8, other: int)
    requires
        timers_wf(v),
        timer_addr(addr),
        0 <= other < 12,
        other != timer_slot(addr).0,
    ensures
        timers_poke(v, addr, x).timer[other] == v.timer[other],
        other >= 8 ==> timers_poke(v, addr, x).audio[other - 8] == v.audio[other - 8],
{
}

/// The state of every timer and channel.
pub struct Timers {
    timer: [Timer; 12],
    audio_reg: [AudioTimerRegisters; 4],
    countdown: [u16; 16],
    triggered: [bool; 12],
}

/// The abstract state of [`Timers`].
pub struct TimersView {
    pub timer: Seq<TimerView>,
    pub audio: Seq<AudioView>,
    pub countdown: Seq<u16>,
    pub triggered: Seq<bool>,
}

impl View for Timers {
    type V = TimersView;

    closed spec fn view(&self) -> TimersView {
        TimersView {
            timer: self.timer@.map_values(|t: Timer| t@),
            audio: self.audio_reg@.map_values(|a: AudioTimerRegisters| a@),
            countdown: self.countdown@,
            triggered: self.triggered@,
        }
    }
}

/// Whether the timers are consistent: each timer is, keeps its number,
/// links and interrupt bit, and a countdown is pending only for a
/// free-running timer.
pub open spec fn timers_wf(v: TimersView) -> bool {
    &&& timer_seq_wf(v.timer)
    &&& v.audio.len() == 4
    &&& v.countdown.len() == 16
    &&& v.triggered.len() == 12
    &&& forall|i: int| 0 <= i < 12 ==> #[trigger] v.timer[i].linked == timer_link(i)
    &&& forall|i: int| 0 <= i < 12 ==> (#[trigger] v.countdown[i] != 0 ==> !v.timer[i].is_linked)
}

/// The check of the countdowns: the timers whose countdown is at one are
/// due, and every countdown goes down by one (stopping at zero).
pub open spec fn countdown_due(c: Seq<u16>, i: int) -> u16 {
    if i < 12 && c[i] == 1 {
        1
    } else {
        0
    }
}

/// The countdowns after a check.
pub open spec fn countdown_next(c: Seq<u16>) -> Seq<u16> {
    Seq::new(16, |i: int| if i < 12 && c[i] > 0 { (c[i] - 1) as u16 } else { c[i] })
}

/// The timers after clocking, in order from `i` on, each due timer of
/// `due`, with `irq` the interrupts raised so far.
pub open spec fn tick_due_from(v: TimersView, due: Seq<u16>, i: int, irq: u8) -> (TimersView, u8)
    decreases 12 - i,
{
    if i >= 12 || i < 0 {
        (v, irq)
    } else if due[i] != 0 {
        let r = cascade(v.timer, v.audio, v.triggered, i, 11);
        let v2 = TimersView {
            timer: r.0,
            audio: r.1,
            triggered: r.2,
            countdown: v.countdown.update(i, r.0[i].tick_countdown),
        };
        tick_due_from(v2, due, i + 1, irq | r.3)
    } else {
        tick_due_from(v, due, i + 1, irq)
    }
}

/// The timers after one crystal tick, the interrupts raised, and whether
/// timer 4 (the UART's baud clock) was due.
pub open spec fn tick_all_spec(v: TimersView) -> (TimersView, u8, bool) {
    let due = Seq::new(16, |i: int| countdown_due(v.countdown, i));
    let v1 = TimersView { countdown: countdown_next(v.countdown), ..v };
    let r = tick_due_from(v1, due, 0, 0);
    (r.0, r.1, due[4] != 0)
}

proof fn lemma_chain_ring(ts: Seq<TimerView>, id: int)
    requires
        ts.len() == 12,
        0 <= id < 12,
        !ts[id].is_linked,
        forall|i: int| 0 <= i < 12 ==> #[trigger] ts[i].linked == timer_link(i),
    ensures
        chain_ok(ts, id, 11),
{
    reveal_with_fuel(chain_ok, 12);
    assert(ts[0].linked == timer_link(0));
    assert(ts[1].linked == timer_link(1));
    assert(ts[2].linked == timer_link(2));
    assert(ts[3].linked == timer_link(3));
    assert(ts[4].linked == timer_link(4));
    assert(ts[5].linked == timer_link(5));
    assert(ts[6].linked == timer_link(6));
    assert(ts[7].linked == timer_link(7));
    assert(ts[8].linked == timer_link(8));
    assert(ts[9].linked == timer_link(9));
    assert(ts[10].linked == timer_link(10));
    assert(ts[11].linked == timer_link(11));
}

impl Timers {
    /// Stopped timers with the console's links and interrupt bits.
    pub fn new() -> (r: Self)
        ensures
            timers_wf(r@),
            forall|i: int| 0 <= i < 12 ==> (#[trigger] r@.timer[i]) == (TimerView {
                id: i as u8,
                int: timer_int(i),
                backup: 0,
                control_a: 0,
                count: 0,
                control_b: 0,
                clock_ticks: None,
                tick_countdown: 0,
                linked: timer_link(i),
                is_linked: false,
                count_enabled: false,
                reload_enabled: false,
            }),
            forall|i: int| 0 <= i < 4 ==> (#[trigger] r@.audio[i]) == (AudioView {
                volume: 0,
                feedback: 0,
                shift_register: 0,
                output: 0,
                disabled: false,
            }),
            r@.countdown == Seq::new(16, |i: int| 0u16),
            r@.triggered == Seq::new(12, |i: int| false),
    {
        let r = Self {
            timer: [
                Timer::new(0, Some(2), 1),
                Timer::new(1, Some(3), 1 << 1),
                Timer::new(2, Some(4), 1 << 2),
                Timer::new(3, Some(5), 1 << 3),
                Timer::new(4, None, 1 << 4),
                Timer::new(5, Some(7), 1 << 5),
                Timer::new(6, None, 1 << 6),
                Timer::new(7, Some(8), 1 << 7),
                Timer::new(8, Some(9), 0),
                Timer::new(9, Some(10), 0),
                Timer::new(10, Some(11), 0),
                Timer::new(11, Some(1), 0),
            ],
            countdown: [0; 16],
            audio_reg: [
                AudioTimerRegisters::new(),
                AudioTimerRegisters::new(),
                AudioTimerRegisters::new(),
                AudioTimerRegisters::new(),
            ],
            triggered: [false; 12],
        };
        assert(r@.countdown =~= Seq::new(16, |i: int| 0u16));
        assert(r@.triggered =~= Seq::new(12, |i: int| false));
        assert((1u8 << 1u8) == 2 && (1u8 << 2u8) == 4 && (1u8 << 3u8) == 8 && (1u8 << 4u8) == 16 && (1u8 << 5u8)
            == 32 && (1u8 << 6u8) == 64 && (1u8 << 7u8) == 128 && (1u8 << 0u8) == 1) by (bit_vector);
        r
    }

    /// Whether timer 2 (vertical sync) has been done since the last call;
    /// clears that report.
    pub fn vsync(&mut self) -> (r: bool)
        requires
            old(self)@.triggered.len() == 12,
        ensures
            r == old(self)@.triggered[2],
            final(self)@ == (TimersView { triggered: old(self)@.triggered.update(2, false), ..old(self)@ }),
    {
        if self.triggered[2] {
            self.triggered[2] = false;
            return true;
        }
        assert(self@.triggered =~= old(self)@.triggered.update(2, false));
        false
    }

    /// Timer 2's count if timer 0 (horizontal sync) has been done since the
    /// last call; clears that report.
    pub fn hsync(&mut self) -> (r: Option<u8>)
        requires
            old(self)@.triggered.len() == 12,
        ensures
            r == (if old(self)@.triggered[0] { Some(old(self)@.timer[2].count) } else { None::<u8> }),
            final(self)@ == (TimersView { triggered: old(self)@.triggered.update(0, false), ..old(self)@ }),
    {
        if self.triggered[0] {
            self.triggered[0] = false;
            return Some(self.timer[2].count());
        }
        assert(self@.triggered =~= old(self)@.triggered.update(0, false));
        None
    }

    /// Marks due the timers whose countdown is at one, and counts every
    /// countdown down by one (stopping at zero).
    pub fn check_if_triggered(&mut self, countdown_triggered: &mut [u16; 16])
        ensures
            forall|i: int| 0 <= i < 12 ==> #[trigger] final(countdown_triggered)@[i] == countdown_due(old(self)@.countdown, i),
            forall|i: int| 12 <= i < 16 ==> #[trigger] final(countdown_triggered)@[i] == old(countdown_triggered)@[i],
            final(self)@ == (TimersView { countdown: countdown_next(old(self)@.countdown), ..old(self)@ }),
    {
        let mut i: usize = 0;
        while i < 12
            invariant
                i <= 12,
                self@ == (TimersView { countdown: self@.countdown, ..old(self)@ }),
                self@.countdown.len() == 16,
                forall|j: int| 0 <= j < i ==> #[trigger] countdown_triggered@[j] == countdown_due(old(self)@.countdown, j),
                forall|j: int| i <= j < 16 ==> #[trigger] countdown_triggered@[j] == old(countdown_triggered)@[j],
                forall|j: int| 0 <= j < i ==> #[trigger] self@.countdown[j] == countdown_next(old(self)@.countdown)[j],
                forall|j: int| i <= j < 16 ==> #[trigger] self@.countdown[j] == old(self)@.countdown[j],
            decreases 12 - i,
        {
            let c = self.countdown[i];
            countdown_triggered[i] = if c == 1 { 1 } else { 0 };
            self.countdown[i] = c.saturating_sub(1);
            i = i + 1;
        }
        assert(self@.countdown =~= countdown_next(old(self)@.countdown));
    }

    /// One crystal tick: checks the countdowns and clocks, in order, each
    /// due timer and the linked timers it clocks in turn. Gives the
    /// interrupts raised and whether timer 4 (the UART's baud clock) was due.
    pub fn tick_all(&mut self) -> (r: (u8, bool))
        requires
            timers_wf(old(self)@),
        ensures
            (final(self)@, r.0, r.1) == tick_all_spec(old(self)@),
            timers_wf(final(self)@),
    {
        let mut irq: u8 = 0;
        let mut countdown_triggered: [u16; 16] = [0; 16];
        let ghost v0 = self@;

        self.check_if_triggered(&mut countdown_triggered);
        let ghost due = Seq::new(16, |i: int| countdown_due(v0.countdown, i));
        assert(countdown_triggered@.subrange(0, 12) =~= due.subrange(0, 12));
        let ghost v1 = self@;
        assert(v1 == (TimersView { countdown: countdown_next(v0.countdown), ..v0 }));

        let mut id: usize = 0;
        while id < 12
            invariant
                id <= 12,
                countdown_triggered@.len() == 16,
                forall|j: int| 0 <= j < 12 ==> #[trigger] countdown_triggered@[j] == due[j],
                due == Seq::new(16, |i: int| countdown_due(v0.countdown, i)),
                tick_due_from(self@, due, id as int, irq) == tick_due_from(v1, due, 0, 0),
                timer_seq_wf(self@.timer),
                same_links(self@.timer, v0.timer),
                self@.audio.len() == 4,
                self@.countdown.len() == 16,
                self@.triggered.len() == 12,
                timers_wf(v0),
                forall|j: int| id <= j < 12 ==> #[trigger] self@.countdown[j] == countdown_next(v0.countdown)[j],
                forall|j: int| 0 <= j < 12 ==> (#[trigger] self@.countdown[j] != 0 ==> !self@.timer[j].is_linked),
            decreases 12 - id,
        {
            if countdown_triggered[id] != 0 {
                proof {
                    assert(v0.countdown[id as int] == 1);
                    assert(!v0.timer[id as int].is_linked);
                    assert(!self@.timer[id as int].is_linked);
                    assert forall|i: int| 0 <= i < 12 implies #[trigger] self@.timer[i].linked == timer_link(i) by {
                        assert(self@.timer[i].linked == v0.timer[i].linked);
                    }
                    lemma_chain_ring(self@.timer, id as int);
                }
                let ghost before = self@;
                let r = Self::tick_timer(&mut self.timer, &mut self.audio_reg, &mut self.triggered, id);
                irq = irq | r;
                self.update_timer_countdown(id);
                proof {
                    assert forall|j: int| 0 <= j < 12 implies (#[trigger] self@.countdown[j] != 0
                        ==> !self@.timer[j].is_linked) by {
                        assert(self@.timer[j].linked == before.timer[j].linked);
                        assert(timer_wf(self@.timer[j]));
                        if j != id {
                            assert(self@.countdown[j] == before.countdown[j]);
                        }
                    }
                    assert forall|j: int| 0 <= j < 12 implies #[trigger] self@.timer[j].linked == v0.timer[j].linked
                        && self@.timer[j].is_linked == v0.timer[j].is_linked by {
                        assert(self@.timer[j].linked == before.timer[j].linked);
                        assert(before.timer[j].linked == v0.timer[j].linked);
                    }
                }
            }
            id = id + 1;
        }
        proof {
            assert forall|i: int| 0 <= i < 12 implies #[trigger] self@.timer[i].linked == timer_link(i) by {
                assert(self@.timer[i].linked == v0.timer[i].linked);
            }
        }
        (irq, countdown_triggered[4] != 0)
    }

    /// Clocks timer `id` and, while each is done, the linked timers it
    /// clocks in turn; gives the interrupts raised.
    pub fn tick_timer(timers: &mut [Timer], audio_regs: &mut [AudioTimerRegisters], triggereds: &mut [bool], id: usize) -> (r: u8)
        requires
            timer_seq_wf(old(timers)@.map_values(|t: Timer| t@)),
            old(audio_regs)@.len() == 4,
            old(triggereds)@.len() == 12,
            id < 12,
            chain_ok(old(timers)@.map_values(|t: Timer| t@), id as int, 11),
        ensures
            ({
                let c = cascade(
                    old(timers)@.map_values(|t: Timer| t@),
                    old(audio_regs)@.map_values(|a: AudioTimerRegisters| a@),
                    old(triggereds)@,
                    id as int,
                    11,
                );
                &&& final(timers)@.map_values(|t: Timer| t@) == c.0
                &&& final(audio_regs)@.map_values(|a: AudioTimerRegisters| a@) == c.1
                &&& final(triggereds)@ == c.2
                &&& r == c.3
            }),
            timer_seq_wf(final(timers)@.map_values(|t: Timer| t@)),
            same_links(final(timers)@.map_values(|t: Timer| t@), old(timers)@.map_values(|t: Timer| t@)),
            final(audio_regs)@.len() == 4,
            final(triggereds)@.len() == 12,
    {
        Self::tick_timer_chain(timers, audio_regs, triggereds, id, Ghost(11))
    }

    fn tick_timer_chain(
        timers: &mut [Timer],
        audio_regs: &mut [AudioTimerRegisters],
        triggereds: &mut [bool],
        id: usize,
        Ghost(fuel): Ghost<nat>,
    ) -> (r: u8)
        requires
            timer_seq_wf(old(timers)@.map_values(|t: Timer| t@)),
            old(audio_regs)@.len() == 4,
            old(triggereds)@.len() == 12,
            id < 12,
            chain_ok(old(timers)@.map_values(|t: Timer| t@), id as int, fuel),
        ensures
            ({
                let c = cascade(
                    old(timers)@.map_values(|t: Timer| t@),
                    old(audio_regs)@.map_values(|a: AudioTimerRegisters| a@),
                    old(triggereds)@,
                    id as int,
                    fuel,
                );
                &&& final(timers)@.map_values(|t: Timer| t@) == c.0
                &&& final(audio_regs)@.map_values(|a: AudioTimerRegisters| a@) == c.1
                &&& final(triggereds)@ == c.2
                &&& r == c.3
            }),
            timer_seq_wf(final(timers)@.map_values(|t: Timer| t@)),
            same_links(final(timers)@.map_values(|t: Timer| t@), old(timers)@.map_values(|t: Timer| t@)),
            final(audio_regs)@.len() == 4,
            final(triggereds)@.len() == 12,
        decreases fuel,
    {
        let ghost ts0 = timers@.map_values(|t: Timer| t@);
        let ghost au0 = audio_regs@.map_values(|a: AudioTimerRegisters| a@);
        let ghost tr0 = triggereds@;
        assert(timer_wf(ts0[id as int]));
        let mut timer = timers[id];
        if !timer.is_linked() {
            let cb = timer.control_b();
            timer.set_control_b(cb & !CTRLB_BORROW_IN_BIT);
            if !timer.count_enabled() || (id >= TIMER_COUNT && audio_regs[id - TIMER_COUNT].disabled()) {
                timer.disable_tick_countdown();
                timers[id] = timer;
                triggereds[id] = false;
                proof {
                    assert(timers@.map_values(|t: Timer| t@) =~= ts0.update(id as int, timer@));
                    assert(same_links(timers@.map_values(|t: Timer| t@), ts0));
                }
                return 0;
            }
            timer.reset_tick_countdown();
        }
        let res: (bool, u8);
        if id >= TIMER_COUNT {
            let mut a = audio_regs[id - TIMER_COUNT];
            res = Self::timer_count_down(&mut timer, Some(&mut a));
            audio_regs[id - TIMER_COUNT] = a;
        } else {
            res = Self::timer_count_down(&mut timer, None);
        }
        let (trig, mut irq) = res;
        timers[id] = timer;
        triggereds[id] = trig;
        let ghost ts2 = timers@.map_values(|t: Timer| t@);
        proof {
            assert(ts2 =~= ts0.update(id as int, timer@));
            assert(same_links(ts2, ts0));
            assert(timers@.map_values(|t: Timer| t@)[id as int] == timer@);
            if id >= TIMER_COUNT {
                assert(audio_regs@.map_values(|a: AudioTimerRegisters| a@) =~= au0.update(
                    id - 8,
                    audio_regs@[id - 8]@,
                ));
            } else {
                assert(audio_regs@.map_values(|a: AudioTimerRegisters| a@) =~= au0);
            }
        }

        if !trig {
            return 0;
        }

        match timer.linked_timer() {
            Some(lid) => {
                let linked_id = lid as usize;
                assert(linked_id < 12);
                if timers[linked_id].is_linked() {
                    proof {
                        assert(ts2[linked_id as int].is_linked);
                        assert(ts0[id as int].linked == Some(lid));
                        assert(ts0[linked_id as int].is_linked);
                        assert(fuel > 0);
                        lemma_chain_frame(ts0, ts2, linked_id as int, (fuel - 1) as nat);
                    }
                    let more = Self::tick_timer_chain(timers, audio_regs, triggereds, linked_id, Ghost((fuel - 1) as nat));
                    irq = irq | more;
                }
            },
            None => {},
        }
        irq
    }

    /// A clock of `timer` (and of its audio channel, if given); gives
    /// whether the timer was done and the interrupt it raised.
    pub fn timer_count_down(timer: &mut Timer, audio: Option<&mut AudioTimerRegisters>) -> (r: (bool, u8))
        requires
            timer_wf(old(timer)@),
        ensures
            ({
                let c = count_down(
                    old(timer)@,
                    match audio {
                        Some(a) => Some(a@),
                        None => None,
                    },
                );
                &&& r.0 == c.0
                &&& r.1 == c.1
                &&& final(timer)@ == c.2
                &&& match audio {
                    Some(a) => Some(final(a)@) == c.3,
                    None => true,
                }
            }),
            timer_wf(final(timer)@),
    {
        let cb = timer.control_b();
        timer.set_control_b((cb & !CTRLB_BORROW_OUT_BIT) | CTRLB_BORROW_IN_BIT);
        let count = timer.count();

        if count == 0 {
            if timer.reload_enabled() {
                let b = timer.backup();
                timer.set_count_transparent(b);
            } else {
                timer.disable_tick_countdown();
            }
            let irq = match audio {
                Some(aud) => aud.done(timer),
                None => timer.done(),
            };
            return (true, irq);
        }
        timer.set_count_transparent(count - 1);
        (false, 0)
    }

    /// Whether timer 4's interrupt is enabled.
    pub fn timer4_interrupt_enabled(&self) -> (r: bool)
        requires
            timers_wf(self@),
        ensures
            r == (self@.timer[4].control_a & 0x80 != 0),
    {
        self.peek(TIM4CTLA) & CTRLA_INTERRUPT_BIT != 0
    }

    /// Reads the timer or audio register at `addr`.
    pub fn peek(&self, addr: u16) -> (r: u8)
        requires
            timers_wf(self@),
            timer_addr(addr),
        ensures
            r == timers_peek(self@, addr),
    {
        let (index, cmd) = get_timer(addr);
        match cmd {
            TimerReg::Backup => self.timer[index].backup(),
            TimerReg::ControlA => self.timer[index].control_a(),
            TimerReg::Count => self.timer[index].count(),
            TimerReg::ControlB => self.timer[index].control_b(),
            TimerReg::Volume => self.audio_reg[index - TIMER_COUNT].volume(),
            TimerReg::Feedback => self.audio_reg[index - TIMER_COUNT].feedback(),
            TimerReg::Output => self.audio_reg[index - TIMER_COUNT].output() as u8,
            TimerReg::ShiftRegister => self.audio_reg[index - TIMER_COUNT].shift_register(),
        }
    }

    /// Writes `v` to the timer or audio register at `addr`; writing control
    /// A or the count also refreshes that timer's pending countdown.
    pub fn poke(&mut self, addr: u16, v: u8)
        requires
            timers_wf(old(self)@),
            timer_addr(addr),
        ensures
            timers_wf(final(self)@),
            final(self)@ == timers_poke(old(self)@, addr, v),
    {
        let (index, cmd) = get_timer(addr);
        let ghost o = self@;
        match cmd {
            TimerReg::Backup => {
                let mut t = self.timer[index];
                t.set_backup(v);
                self.timer[index] = t;
                if index >= TIMER_COUNT {
                    let mut a = self.audio_reg[index - TIMER_COUNT];
                    a.update_disabled(v);
                    self.audio_reg[index - TIMER_COUNT] = a;
                }
            },
            TimerReg::ControlA => {
                let mut t = self.timer[index];
                t.set_control_a(v);
                self.timer[index] = t;
                self.update_timer_countdown(index);
            },
            TimerReg::Count => {
                let mut t = self.timer[index];
                t.set_count(v);
                self.timer[index] = t;
                self.update_timer_countdown(index);
            },
            TimerReg::ControlB => {
                let mut t = self.timer[index];
                t.set_control_b(v);
                self.timer[index] = t;
            },
            TimerReg::Volume => {
                let mut a = self.audio_reg[index - TIMER_COUNT];
                a.set_volume(v);
                self.audio_reg[index - TIMER_COUNT] = a;
            },
            TimerReg::Feedback => {
                let b = self.timer[index].backup();
                let mut a = self.audio_reg[index - TIMER_COUNT];
                a.set_feedback(b, v);
                self.audio_reg[index - TIMER_COUNT] = a;
            },
            TimerReg::Output => {
                let mut a = self.audio_reg[index - TIMER_COUNT];
                a.set_output(v as i8);
                self.audio_reg[index - TIMER_COUNT] = a;
            },
            TimerReg::ShiftRegister => {
                let mut a = self.audio_reg[index - TIMER_COUNT];
                a.set_shift_register(v);
                self.audio_reg[index - TIMER_COUNT] = a;
            },
        }
        proof {
            assert(self@.timer =~= (match cmd {
                TimerReg::Backup => o.timer.update(index as int, TimerView { backup: v, ..o.timer[index as int] }),
                TimerReg::ControlA => o.timer.update(index as int, with_control_a(o.timer[index as int], v)),
                TimerReg::Count => o.timer.update(index as int, with_count(o.timer[index as int], v)),
                TimerReg::ControlB => o.timer.update(index as int, with_control_b(o.timer[index as int], v)),
                _ => o.timer,
            }));
            if index >= 8 {
                assert(self@.audio =~= o.audio.update(index - 8, self@.audio[index - 8]));
            } else {
                assert(self@.audio =~= o.audio);
            }
            assert forall|j: int| 0 <= j < 12 implies #[trigger] self@.timer[j].linked == timer_link(j) by {
                assert(o.timer[j].linked == timer_link(j));
            }
            assert forall|j: int| 0 <= j < 12 implies #[trigger] timer_wf(self@.timer[j]) by {
                assert(timer_wf(o.timer[j]));
            }
            assert forall|j: int| 0 <= j < 12 implies (#[trigger] self@.timer[j].linked matches Some(l) ==> l < 12) by {
                assert(o.timer[j].linked == timer_link(j));
            }
            assert forall|j: int| 0 <= j < 12 implies (#[trigger] self@.countdown[j] != 0 ==> !self@.timer[j].is_linked) by {
                assert(o.countdown[j] != 0 ==> !o.timer[j].is_linked);
                assert(timer_wf(self@.timer[j]));
            }
        }
    }

    /// Crystal ticks before timer `id`'s next clock.
    pub fn timer_countdown(&self, id: usize) -> (r: u16)
        requires
            id < 12,
        ensures
            r == self@.timer[id as int].tick_countdown,
    {
        self.timer[id].tick_countdown()
    }

    fn update_timer_countdown(&mut self, id: usize)
        requires
            id < 12,
        ensures
            final(self)@ == (TimersView {
                countdown: old(self)@.countdown.update(id as int, old(self)@.timer[id as int].tick_countdown),
                ..old(self)@
            }),
    {
        self.countdown[id] = self.timer_countdown(id);
    }

    /// The output level of audio channel `n`.
    pub fn audio_out(&self, n: usize) -> (r: i16)
        requires
            n < 4,
        ensures
            r == self@.audio[n as int].output,
    {
        self.audio_reg[n].output() as i16
    }

    /// Timer `id`.
    pub fn timer(&self, id: usize) -> (r: &Timer)
        requires
            id < 12,
        ensures
            r@ == self@.timer[id as int],
    {
        &self.timer[id]
    }

    /// Audio channel `id`'s registers.
    pub fn audio_timer(&self, id: usize) -> (r: &AudioTimerRegisters)
        requires
            id < 4,
        ensures
            r@ == self@.audio[id as int],
    {
        &self.audio_reg[id]
    }
}

impl Default for Timers {
    fn default() -> (r: Self)
        ensures
            timers_wf(r@),
    {
        Timers::new()
    }
}

} // verus!

verus! {

/// A timer clocked at count 0 is done. With reload enabled its count
/// reloads from its backup register, so a free-running timer starts its
/// next period at the backup value; without reload it stops ticking.
pub proof fn lemma_done_at_zero(t: TimerView, a: Option<AudioView>)
    requires
        t.count == 0,
    ensures
        count_down(t, a).0,
        t.reload_enabled ==> count_down(t, a).2.count == t.backup,
        !t.reload_enabled ==> count_down(t, a).2.tick_countdown == 0 && count_down(t, a).2.count == 0,
        count_down(t, a).2.backup == t.backup,
        count_down(t, a).2.reload_enabled == t.reload_enabled,
{
    let t1 = with_control_b(t, ((t.control_b & !0x01u8) | 0x02u8) as u8);
    lemma_control_bits(((t.control_b & !0x01u8) | 0x02u8) as u8, 0, 0);
    match a {
        Some(av) => {
            let t2 = if t1.reload_enabled { TimerView { count: t1.backup, ..t1 } } else { TimerView { tick_countdown: 0, ..t1 } };
            let w = (t2.control_b | 0x08 | 0x01) as u8;
            lemma_control_bits(((t.control_b & !0x01u8) | 0x02u8) as u8, w, 0);
            let t3 = with_control_b(t2, w);
            let par = crate::mikey::timers::audio_timer_registers::feedback_bit(av, t3);
            let shifted = (((crate::mikey::timers::audio_timer_registers::shift_value(av, t3) as int) * 2) % 0x1_0000 + par) as u16;
            lemma_control_bits(((t.control_b & !0x01u8) | 0x02u8) as u8, w, shifted);
        },
        None => {},
    }
}

/// A timer clocked at a count above 1 is not done: its count goes down
/// (the rising borrow-in takes one more from it), and an audio channel is
/// left as it was.
pub proof fn lemma_not_done_above_zero(t: TimerView, a: Option<AudioView>)
    requires
        t.count > 1,
    ensures
        !count_down(t, a).0,
        count_down(t, a).1 == 0,
        count_down(t, a).2.count < t.count,
        count_down(t, a).2.backup == t.backup,
        count_down(t, a).2.reload_enabled == t.reload_enabled,
        count_down(t, a).3 == a,
{
}

} // verus!
