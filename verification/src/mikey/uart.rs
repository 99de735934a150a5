//! Mikey's UART: a serial transmitter and receiver on the Redeye line.
pub mod redeye_status;

use vstd::prelude::*;
use crate::mikey::registers::{MikeyRegisters, MikeyRegistersView, SerCtlR, SerCtlW};
use crate::mikey::timers::audio_timer_registers::{bit_count, count_ones_u16};
use redeye_status::RedeyeStatus;

verus! {

/// The UART's shift registers, buffers and line level.
pub struct Uart {
    receive_register_len: u8,
    receive_register_buffer: u8,
    receive_register: Option<u8>,
    break_count: u64,
    transmit_register: Vec<RedeyeStatus>,
    transmit_holding_register: Option<u8>,
    redeye_pin: RedeyeStatus,
}

/// The abstract state of a [`Uart`]; the bits to send are popped from the
/// end of `transmit_register`.
pub struct UartView {
    pub receive_register_len: u8,
    pub receive_register_buffer: u8,
    pub receive_register: Option<u8>,
    pub break_count: u64,
    pub transmit_register: Seq<RedeyeStatus>,
    pub transmit_holding_register: Option<u8>,
    pub redeye_pin: RedeyeStatus,
}

impl View for Uart {
    type V = UartView;

    closed spec fn view(&self) -> UartView {
        UartView {
            receive_register_len: self.receive_register_len,
            receive_register_buffer: self.receive_register_buffer,
            receive_register: self.receive_register,
            break_count: self.break_count,
            transmit_register: self.transmit_register@,
            transmit_holding_register: self.transmit_holding_register,
            redeye_pin: self.redeye_pin,
        }
    }
}

/// The line level for bit `b`.
pub open spec fn level(b: bool) -> RedeyeStatus {
    if b {
        RedeyeStatus::High
    } else {
        RedeyeStatus::Low
    }
}

/// The level of odd parity: high when `x` has an odd number of set bits.
pub open spec fn parity_level(x: u8) -> RedeyeStatus {
    level(bit_count(x as u16) % 2 == 1)
}

/// The frame sent for `data`, in the order it is stored (the last element
/// goes out first): stop bit, parity, data bits 0 to 7, start bit.
pub open spec fn frame(data: u8, par: RedeyeStatus) -> Seq<RedeyeStatus> {
    seq![RedeyeStatus::High, par] + Seq::new(8, |i: int| level((data >> (i as u8)) & 1 == 1)) + seq![
        RedeyeStatus::Low,
    ]
}

/// The parity bit sent for `data` under control bits `w`: odd parity when
/// parity is enabled, otherwise the even-parity control bit itself.
pub open spec fn frame_parity(data: u8, w: u8) -> RedeyeStatus {
    if w & 0x10 == 0x10 {
        parity_level(data)
    } else {
        level(w & 0x01 == 0x01)
    }
}

/// The UART and SERCTL status after a receive step on the current line
/// level: a low line counts toward a break (24 ticks raise it); a low start
/// bit opens a frame, eight data bits are shifted in (the eighth stores the
/// byte, raising overrun over an unread one), then the parity bit is
/// checked and the stop bit is checked and reports the byte ready.
pub open spec fn rx_spec(u: UartView, r: u8) -> (UartView, u8) {
    let pin = u.redeye_pin;
    let bc = if pin == RedeyeStatus::Low {
        (if u.break_count == u64::MAX { 0 } else { u.break_count + 1 }) as u64
    } else {
        0u64
    };
    let u1 = UartView { break_count: bc, ..u };
    let bit: u8 = if pin == RedeyeStatus::High { 1 } else { 0 };
    if pin == RedeyeStatus::Low && bc >= 24 {
        (u1, r | 0x02)
    } else if u1.receive_register_len == 0 {
        if pin != RedeyeStatus::Low {
            (UartView { receive_register_len: 0, ..u1 }, r)
        } else {
            (UartView { receive_register_buffer: 0, receive_register_len: 1, ..u1 }, r)
        }
    } else if 1 <= u1.receive_register_len <= 7 {
        (
            UartView {
                receive_register_buffer: (u1.receive_register_buffer << 1u8) | bit,
                receive_register_len: (u1.receive_register_len + 1) as u8,
                ..u1
            },
            r,
        )
    } else if u1.receive_register_len == 8 {
        let b = (u1.receive_register_buffer << 1u8) | bit;
        (
            UartView {
                receive_register_buffer: b,
                receive_register_len: 9,
                receive_register: Some(b),
                ..u1
            },
            if u1.receive_register is Some { r | 0x08 } else { r },
        )
    } else if u1.receive_register_len == 9 {
        (
            UartView { receive_register_len: 10, ..u1 },
            if parity_level(u1.receive_register_buffer) != pin { r | 0x10 } else { r },
        )
    } else if u1.receive_register_len == 10 {
        let r1 = if u1.receive_register_buffer != 0 && pin != RedeyeStatus::High { r | 0x04 } else { r };
        (UartView { receive_register_len: 0, ..u1 }, if u1.receive_register is Some { r1 | 0x40 } else { r1 })
    } else {
        (u1, r)
    }
}

/// The UART and SERCTL status after a transmit step under control bits `w`:
/// a break holds the line low; otherwise the next stored bit goes out, or
/// a waiting byte is framed (the holding register frees up and the
/// transmitter is no longer empty), or the transmitter reports empty.
pub open spec fn tx_spec(u: UartView, r: u8, w: u8) -> (UartView, u8) {
    if w & 0x02 == 0x02 {
        (UartView { redeye_pin: RedeyeStatus::Low, ..u }, r)
    } else if u.transmit_register.len() > 0 {
        (
            UartView {
                redeye_pin: u.transmit_register.last(),
                transmit_register: u.transmit_register.drop_last(),
                ..u
            },
            r,
        )
    } else {
        match u.transmit_holding_register {
            Some(data) => {
                let par = frame_parity(data, w);
                let r1 = if w & 0x10 == 0x10 {
                    if par == RedeyeStatus::High { r | 0x01 } else { r & !0x01u8 }
                } else {
                    r
                };
                (
                    UartView { transmit_register: frame(data, par), transmit_holding_register: None, ..u },
                    (r1 | 0x80) & !0x20u8,
                )
            },
            None => (u, r | 0x20),
        }
    }
}

/// Whether the UART raises its interrupt: transmit-ready or receive-ready
/// with that interrupt enabled.
pub open spec fn uart_interrupt(r: u8, w: u8) -> bool {
    (w & 0x80 == 0x80 && r & 0x80 == 0x80) || (w & 0x40 == 0x40 && r & 0x40 == 0x40)
}

impl Uart {
    /// An idle UART with the line high.
    pub fn new() -> (r: Self)
        ensures
            r@ == (UartView {
                receive_register_len: 0,
                receive_register_buffer: 0,
                receive_register: None,
                break_count: 0,
                transmit_register: Seq::empty(),
                transmit_holding_register: None,
                redeye_pin: RedeyeStatus::High,
            }),
    {
        Self {
            receive_register_len: 0,
            receive_register: None,
            receive_register_buffer: 0,
            break_count: 0,
            transmit_register: Vec::new(),
            transmit_holding_register: None,
            redeye_pin: RedeyeStatus::High,
        }
    }

    /// One baud tick: a receive step, then a transmit step; gives whether
    /// the UART raises its interrupt.
    pub fn tick(&mut self, regs: &mut MikeyRegisters) -> (r: bool)
        ensures
            ({
                let (u2, r2) = tick_spec(old(self)@, old(regs)@.serctl_r, old(regs)@.serctl_w);
                &&& final(self)@ == u2
                &&& final(regs)@ == (MikeyRegistersView { serctl_r: r2, ..old(regs)@ })
                &&& r == uart_interrupt(r2, old(regs)@.serctl_w)
            }),
    {
        self.rx(regs);
        self.tx(regs);

        (regs.serctl_w_is_flag_set(SerCtlW::tx_int_en()) && regs.serctl_r_is_flag_set(SerCtlR::tx_rdy())) || (
        regs.serctl_w_is_flag_set(SerCtlW::rx_int_en()) && regs.serctl_r_is_flag_set(SerCtlR::rx_rdy()))
    }

    fn tx(&mut self, regs: &mut MikeyRegisters)
        ensures
            ({
                let (u, r) = tx_spec(old(self)@, old(regs)@.serctl_r, old(regs)@.serctl_w);
                &&& final(self)@ == u
                &&& final(regs)@ == (MikeyRegistersView { serctl_r: r, ..old(regs)@ })
            }),
    {
        if regs.serctl_w_is_flag_set(SerCtlW::tx_brk()) {
            self.set_redeye_pin(RedeyeStatus::Low);
            return;
        }

        match self.transmit_register.pop() {
            Some(bit) => {
                self.set_redeye_pin(bit);
            },
            None => match self.transmit_holding_register {
                Some(data) => {
                    if self.transmit_register.len() == 0 {
                        self.load_transmit_data(data, regs);
                        self.transmit_holding_register = None;
                        regs.serctl_r_enable_flag(SerCtlR::tx_rdy());
                        regs.serctl_r_disable_flag(SerCtlR::tx_empty());
                    }
                },
                None => regs.serctl_r_enable_flag(SerCtlR::tx_empty()),
            },
        }
    }

    fn load_transmit_data(&mut self, data: u8, regs: &mut MikeyRegisters)
        ensures
            final(self)@ == (UartView {
                transmit_register: frame(data, frame_parity(data, old(regs)@.serctl_w)),
                ..old(self)@
            }),
            final(regs)@ == (MikeyRegistersView {
                serctl_r: if old(regs)@.serctl_w & 0x10 == 0x10 {
                    if parity_level(data) == RedeyeStatus::High {
                        old(regs)@.serctl_r | 0x01
                    } else {
                        old(regs)@.serctl_r & !0x01u8
                    }
                } else {
                    old(regs)@.serctl_r
                },
                ..old(regs)@
            }),
    {
        let mut data = data;
        let ghost d0 = data;
        self.transmit_register.clear();
        self.transmit_register.push(RedeyeStatus::High);
        let par = if regs.serctl_w_is_flag_set(SerCtlW::par_en()) {
            let ones = count_ones_u16(data as u16);
            let p = if ones & 1 == 1 {
                RedeyeStatus::High
            } else {
                RedeyeStatus::Low
            };
            proof {
                lemma_parity_bits(ones);
            }
            match p {
                RedeyeStatus::High => regs.serctl_r_enable_flag(SerCtlR::par_bit()),
                RedeyeStatus::Low => regs.serctl_r_disable_flag(SerCtlR::par_bit()),
            }
            p
        } else {
            if regs.serctl_w_is_flag_set(SerCtlW::par_even()) {
                RedeyeStatus::High
            } else {
                RedeyeStatus::Low
            }
        };
        self.transmit_register.push(par);
        proof {
            lemma_serial_bits(d0, 0, 0);
        }
        let mut i: u8 = 0;
        while i < 8
            invariant
                i <= 8,
                data == d0 >> i,
                self@.transmit_register.len() == 2 + i,
                self@.transmit_register.subrange(0, 2) == seq![RedeyeStatus::High, par],
                forall|j: int| 0 <= j < i ==> #[trigger] self@.transmit_register[2 + j] == level((d0 >> (j as u8)) & 1 == 1),
                self@ == (UartView { transmit_register: self@.transmit_register, ..old(self)@ }),
            decreases 8 - i,
        {
            proof {
                lemma_serial_bits(d0, i, 0);
            }
            self.transmit_register.push(
                if data & 0x01 != 0 {
                    RedeyeStatus::High
                } else {
                    RedeyeStatus::Low
                },
            );
            proof {
                lemma_serial_bits(d0, i, 0);
            }
            data = data >> 1;
            i = i + 1;
        }
        let ghost before = self@.transmit_register;
        self.transmit_register.push(RedeyeStatus::Low);
        proof {
            let f = frame(d0, par);
            let t = self@.transmit_register;
            assert(t.len() == 11 && f.len() == 11);
            assert(before.subrange(0, 2)[0] == RedeyeStatus::High);
            assert(before.subrange(0, 2)[1] == par);
            assert forall|k: int| 0 <= k < 11 implies t[k] == f[k] by {
                if 2 <= k < 10 {
                    assert(before[2 + (k - 2)] == level((d0 >> ((k - 2) as u8)) & 1 == 1));
                }
            }
            assert(t =~= f);
        }
    }

    fn rx(&mut self, regs: &mut MikeyRegisters)
        ensures
            ({
                let (u, r) = rx_spec(old(self)@, old(regs)@.serctl_r);
                &&& final(self)@ == u
                &&& final(regs)@ == (MikeyRegistersView { serctl_r: r, ..old(regs)@ })
            }),
    {
        match self.redeye_pin {
            RedeyeStatus::Low => {
                self.break_count = self.break_count.wrapping_add(1);
                if self.break_count >= 24 {
                    regs.serctl_r_enable_flag(SerCtlR::rx_brk());
                    return;
                }
            },
            RedeyeStatus::High => self.break_count = 0,
        }

        let bit: u8 = if self.redeye_pin == RedeyeStatus::High {
            1
        } else {
            0
        };
        if self.receive_register_len == 0 {
            if self.redeye_pin != RedeyeStatus::Low {
                self.receive_register_len = 0;
            } else {
                self.receive_register_buffer = 0;
                self.receive_register_len = 1;
            }
        } else if 1 <= self.receive_register_len && self.receive_register_len <= 7 {
            self.receive_register_buffer = self.receive_register_buffer << 1;
            self.receive_register_buffer = self.receive_register_buffer | bit;
            self.receive_register_len = self.receive_register_len + 1;
        } else if self.receive_register_len == 8 {
            self.receive_register_buffer = self.receive_register_buffer << 1;
            self.receive_register_buffer = self.receive_register_buffer | bit;
            self.receive_register_len = self.receive_register_len + 1;
            if self.receive_register.is_some() {
                regs.serctl_r_enable_flag(SerCtlR::overrun());
            }
            self.receive_register = Some(self.receive_register_buffer);
        } else if self.receive_register_len == 9 {
            let ones = count_ones_u16(self.receive_register_buffer as u16);
            let par = if ones & 1 == 1 {
                RedeyeStatus::High
            } else {
                RedeyeStatus::Low
            };
            proof {
                lemma_parity_bits(ones);
            }
            if par != self.redeye_pin {
                regs.serctl_r_enable_flag(SerCtlR::par_err());
            }
            self.receive_register_len = self.receive_register_len + 1;
        } else if self.receive_register_len == 10 {
            if self.receive_register_buffer != 0 && self.redeye_pin != RedeyeStatus::High {
                regs.serctl_r_enable_flag(SerCtlR::frame_err());
            }
            self.receive_register_len = 0;
            if self.receive_register.is_some() {
                regs.serctl_r_enable_flag(SerCtlR::rx_rdy());
            }
        }
    }

    /// Reads the received byte (0 when there is none); the receiver is no
    /// longer ready.
    pub fn get_data(&mut self, regs: &mut MikeyRegisters) -> (r: u8)
        ensures
            r == (match old(self)@.receive_register {
                Some(d) => d,
                None => 0u8,
            }),
            final(self)@ == (UartView { receive_register: None, ..old(self)@ }),
            final(regs)@ == (MikeyRegistersView { serctl_r: old(regs)@.serctl_r & !0x40u8, ..old(regs)@ }),
    {
        regs.serctl_r_disable_flag(SerCtlR::rx_rdy());
        match self.receive_register.take() {
            None => 0,
            Some(data) => data,
        }
    }

    /// Queues `data` for sending; the transmitter is no longer ready nor
    /// empty.
    pub fn set_transmit_holding_buffer(&mut self, regs: &mut MikeyRegisters, data: u8)
        ensures
            final(self)@ == (UartView { transmit_holding_register: Some(data), ..old(self)@ }),
            final(regs)@ == (MikeyRegistersView { serctl_r: old(regs)@.serctl_r & !0xa0u8, ..old(regs)@ }),
    {
        self.transmit_holding_register = Some(data);
        let ghost r = regs@.serctl_r;
        regs.serctl_r_disable_flag(SerCtlR::tx_rdy());
        regs.serctl_r_disable_flag(SerCtlR::tx_empty());
        proof {
            lemma_serial_bits(0, 0, r);
        }
    }

    /// Sets the serial line's level.
    pub fn set_redeye_pin(&mut self, status: RedeyeStatus)
        ensures
            final(self)@ == (UartView { redeye_pin: status, ..old(self)@ }),
    {
        self.redeye_pin = status;
    }
}

/// One baud tick: a receive step on the current line level, then a
/// transmit step under control bits `w`.
pub open spec fn tick_spec(u: UartView, r: u8, w: u8) -> (UartView, u8) {
    tx_spec(rx_spec(u, r).0, rx_spec(u, r).1, w)
}

/// The UART and SERCTL status after `n` baud ticks under control bits `w`.
pub open spec fn uart_ticks(u: UartView, r: u8, w: u8, n: nat) -> (UartView, u8)
    decreases n,
{
    if n == 0 {
        (u, r)
    } else {
        tick_spec(uart_ticks(u, r, w, (n - 1) as nat).0, uart_ticks(u, r, w, (n - 1) as nat).1, w)
    }
}

/// The receiver and transmitter while a queued byte goes round the serial
/// line: after `j + 2` ticks, `j` frame bits have reached the receiver.
proof fn lemma_loopback_steps(u: UartView, r: u8, w: u8, d: u8, j: nat)
    requires
        w & 0x02 == 0,
        u.transmit_register.len() == 0,
        u.receive_register_len == 0,
        u.redeye_pin == RedeyeStatus::High,
        1 <= j <= 8,
    ensures
        ({
            let f = frame(d, frame_parity(d, w));
            let s = uart_ticks(UartView { transmit_holding_register: Some(d), ..u }, r, w, j + 2).0;
            &&& s.receive_register_len == j
            &&& s.receive_register_buffer == (if j == 1 {
                0u8
            } else {
                d >> ((9 - j) as u8)
            })
            &&& s.transmit_register == f.subrange(0, 10 - j)
            &&& s.redeye_pin == f[10 - j]
            &&& s.break_count <= j
            &&& s.receive_register == u.receive_register
            &&& s.transmit_holding_register is None
        }),
    decreases j,
{
    let f = frame(d, frame_parity(d, w));
    let u0 = UartView { transmit_holding_register: Some(d), ..u };
    if j == 1 {
        assert(uart_ticks(u0, r, w, 0) == (u0, r));
        let s1 = uart_ticks(u0, r, w, 1).0;
        assert(s1.transmit_register == f);
        assert(s1.redeye_pin == RedeyeStatus::High);
        let s2 = uart_ticks(u0, r, w, 2).0;
        assert(s2.transmit_register == f.drop_last());
        assert(s2.break_count == 0);
        assert(s2.redeye_pin == RedeyeStatus::Low);
        assert(f.drop_last().drop_last() =~= f.subrange(0, 9));
    } else {
        lemma_loopback_steps(u, r, w, d, (j - 1) as nat);
        let k = (9 - j) as u8;
        lemma_loop_bits(d, k);
        assert(f[10 - (j - 1)] == level((d >> k) & 1 == 1));
        assert(f.subrange(0, 10 - (j - 1)).drop_last() =~= f.subrange(0, 10 - j));
    }
}

/// A byte sent on the serial line comes back to the sender: with no break
/// requested, an idle UART (its shift registers empty, the line high) that
/// is given a byte to send has received that very byte after eleven ticks.
pub proof fn lemma_loopback(u: UartView, r: u8, w: u8, d: u8)
    requires
        w & 0x02 == 0,
        u.transmit_register.len() == 0,
        u.receive_register_len == 0,
        u.redeye_pin == RedeyeStatus::High,
    ensures
        uart_ticks(UartView { transmit_holding_register: Some(d), ..u }, r, w, 11).0.receive_register == Some(d),
{
    let f = frame(d, frame_parity(d, w));
    lemma_loopback_steps(u, r, w, d, 8);
    lemma_loop_bits(d, 0);
    assert(f[2] == level((d >> 0u8) & 1 == 1));
}

/// Facts of bit arithmetic on the received byte: shifting the next bit of
/// `d` in, from the top down.
proof fn lemma_loop_bits(d: u8, k: u8)
    by (bit_vector)
    ensures
        (0u8 << 1u8) | (if (d >> 7u8) & 1 == 1 { 1u8 } else { 0u8 }) == d >> 7u8,
        k < 8 ==> ((d >> ((k + 1) as u8)) << 1u8) | (if (d >> k) & 1 == 1 { 1u8 } else { 0u8 }) == d >> k,
        d >> 0u8 == d,
{
}

/// Facts of bit arithmetic on the serial data and status bytes: shifting the
/// data out bit by bit, and clearing status flags.
proof fn lemma_serial_bits(d0: u8, i: u8, r: u8)
    by (bit_vector)
    ensures
        d0 >> 0u8 == d0,
        ((d0 >> i) & 0x01 != 0) == ((d0 >> i) & 1 == 1),
        i < 8 ==> (d0 >> i) >> 1u8 == d0 >> ((i + 1) as u8),
        (r & !0x80u8) & !0x20u8 == r & !0xa0u8,
{
}

/// The parity of a count of ones is its lowest bit.
proof fn lemma_parity_bits(ones: u32)
    by (bit_vector)
    ensures
        (ones & 1 == 1) == (ones % 2 == 1),
{
}

} // verus!
