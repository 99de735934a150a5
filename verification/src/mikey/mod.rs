//! Mikey: the CPU, timers, UART, video DMA and sound.
pub mod cpu;
pub mod registers;
pub mod timers;
pub mod uart;
pub mod video;

use vstd::prelude::*;
use crate::bus::{Bus, BusStatus, BusView};
use crate::cartridge::{Cartridge, CartridgeView, address_pins, cart_pins_set, cartridge_ready};
use crate::consts::{
    AUD3MISC, CPUSLEEP, DISPCTL, INTRST, INTSET, IODAT, IODAT_AUDIN, IODAT_CAD, IODAT_EXTPW, IODAT_NOEXP, IODAT_REST,
    IODIR, MIKEY_READ_TICKS, MIKEY_TIMER_READ_TICKS, MIKEY_TIMER_WRITE_TICKS, MIKEY_WRITE_TICKS, MIK_ADDR, MSTEREO,
    PBKUP, SERCTL, SERDAT, SYSCTL1, SYSCTL1_CAS, SYSCTL1_POWER, TIM0BKUP, ATTEN_A, DISPADR, INT_TIMER4, M6502_IRQ,
    M6502_RDY, M6502_RW, M6502_SYNC, RAM_PEEK_DATA_OPCODE, REFRESH_AND_VIDEO_DMA_TICKS, VIDEO_DMA_BUFFER_LENGTH,
};
use crate::mikey::cpu::{tick_spec, CPUPins, M6502, M6502Flags, M6502Stepper, M6502View, pins_addr, pins_data, pins_read, pins_sync, step_count};
use crate::mikey::registers::{MikeyRegisters, MikeyRegistersView, atten_left, atten_right, mikey_data_written, mikey_reg, mikey_regs_wf, mreg};
use crate::mikey::timers::{Timers, TimersView, timer_addr, timers_peek, timers_poke, timers_wf};
use crate::mikey::uart::{Uart, UartView};
use crate::mikey::uart::redeye_status::RedeyeStatus;
use crate::mikey::video::{
    RGBA_SCREEN_BUFFER_LEN, Video, VideoView, hsync_spec, packed_pixels, row_open, swap_nibbles, video_tick_spec, video_wf,
};
use crate::mikey::timers::tick_all_spec;
use crate::mikey::uart::{rx_spec, tx_spec, uart_interrupt};
use crate::ram::{Ram, ram_wf};

verus! {

/// The bus instruction Mikey is carrying out.
#[derive(Debug, Clone, Copy, PartialEq, Eq, Structural)]
pub enum MikeyInstruction {
    Idle,
    TimersPeek,
    TimersPoke,
    Poke,
    Peek,
    PeekNothing,
    PokeSysctl1,
    PeekIntRst,
    PeekIodat,
    PokeIodat,
    PokeOk,
    PeekIncCartRipple,
    PokeIncCartRipple,
    CpuSleep,
    PeekDispCtl,
    PokeDispCtl,
    PeekSerCtl,
    PokeSerCtl,
    PeekSerDat,
    PokeSerDat,
    PokePbkup,
    PokeChangeAttenuation,
}

/// Who owns Mikey's side of the bus.
#[derive(Debug, Clone, Copy, PartialEq, Eq, Structural)]
pub enum MikeyBusOwner {
    RefreshAndVideo,
    Cpu,
}

/// Mikey: the CPU and its pins, the timers, the UART, the registers, the
/// video DMA state and who owns the bus.
pub struct Mikey {
    cpu: M6502,
    cpu_pins: CPUPins,
    timers: Timers,
    uart: Uart,
    ticks: u64,
    registers: MikeyRegisters,
    bus_owner: MikeyBusOwner,
    video: Video,
    video_buffer_curr_addr: u16,
    disp_addr: u16,
    is_flipped: bool,
    bus_grant_bkup: Option<bool>,
    comlynx_cable_present: bool,
}

/// The abstract state of [`Mikey`].
pub struct MikeyView {
    pub cpu: M6502View,
    pub cpu_pins: u32,
    pub timers: TimersView,
    pub uart: UartView,
    pub ticks: u64,
    pub registers: MikeyRegistersView,
    pub bus_owner: MikeyBusOwner,
    pub video: VideoView,
    pub video_buffer_curr_addr: u16,
    pub disp_addr: u16,
    pub is_flipped: bool,
    pub bus_grant_bkup: Option<bool>,
    pub comlynx_cable_present: bool,
}

impl View for Mikey {
    type V = MikeyView;

    closed spec fn view(&self) -> MikeyView {
        MikeyView {
            cpu: self.cpu@,
            cpu_pins: self.cpu_pins@,
            timers: self.timers@,
            uart: self.uart@,
            ticks: self.ticks,
            registers: self.registers@,
            bus_owner: self.bus_owner,
            video: self.video@,
            video_buffer_curr_addr: self.video_buffer_curr_addr,
            disp_addr: self.disp_addr,
            is_flipped: self.is_flipped,
            bus_grant_bkup: self.bus_grant_bkup,
            comlynx_cable_present: self.comlynx_cable_present,
        }
    }
}

/// Whether the CPU, given `pins`, has a step of its instruction to run.
pub open spec fn cpu_ready(c: M6502View, pins: u32) -> bool {
    pins_sync(pins) || c.ir_step < step_count(c.ir)
}

/// Whether the bus instruction has the register address it needs.
pub open spec fn ir_addr_ok(g: MikeyRegistersView) -> bool {
    &&& (g.ir == MikeyInstruction::TimersPeek || g.ir == MikeyInstruction::TimersPoke) ==> timer_addr(g.addr_r)
    &&& (g.ir == MikeyInstruction::Peek || g.ir == MikeyInstruction::Poke || g.ir
        == MikeyInstruction::PokeChangeAttenuation) ==> mikey_reg(g.addr_r)
}

/// Whether a Mikey state is consistent.
pub open spec fn mikey_wf(s: MikeyView) -> bool {
    &&& mikey_regs_wf(s.registers)
    &&& timers_wf(s.timers)
    &&& video_wf(s.video)
    &&& cpu_ready(s.cpu, s.cpu_pins)
    &&& ir_addr_ok(s.registers)
}

/// Mikey with the bus instruction `ir` started and its delay set.
pub open spec fn with_mikey_ir(s: MikeyView, ir: MikeyInstruction, delay: u16) -> MikeyView {
    MikeyView { registers: MikeyRegistersView { ir, ticks_delay: delay, ..s.registers }, ..s }
}

/// Mikey with the bus address and data latched for the instruction.
pub open spec fn latched(s: MikeyView, addr: u16, data: u16) -> MikeyView {
    MikeyView { registers: MikeyRegistersView { addr_r: addr, data_r: data, ..s.registers }, ..s }
}

/// A read of the bus address starting: the timers, IODAT, INTRST (which
/// reads the pending interrupts), SYSCTL1 (which reads as nothing),
/// DISPCTL, SERCTL and SERDAT have their own reads; other registers read
/// their value.
pub open spec fn mikey_peeked(s: MikeyView, a: u16) -> MikeyView {
    if TIM0BKUP <= a <= AUD3MISC {
        with_mikey_ir(latched(s, a, s.registers.data_r), MikeyInstruction::TimersPeek, MIKEY_TIMER_READ_TICKS)
    } else if a == IODAT {
        with_mikey_ir(s, MikeyInstruction::PeekIodat, MIKEY_READ_TICKS)
    } else if a == INTRST {
        with_mikey_ir(latched(s, a, s.registers.data_r), MikeyInstruction::PeekIntRst, MIKEY_READ_TICKS)
    } else if a == SYSCTL1 {
        with_mikey_ir(latched(s, a, s.registers.data_r), MikeyInstruction::PeekNothing, MIKEY_READ_TICKS)
    } else if a == DISPCTL {
        with_mikey_ir(s, MikeyInstruction::PeekDispCtl, MIKEY_READ_TICKS)
    } else if a == SERCTL {
        with_mikey_ir(s, MikeyInstruction::PeekSerCtl, MIKEY_READ_TICKS)
    } else if a == SERDAT {
        with_mikey_ir(s, MikeyInstruction::PeekSerDat, MIKEY_READ_TICKS)
    } else {
        with_mikey_ir(latched(s, a, s.registers.data_r), MikeyInstruction::Peek, MIKEY_READ_TICKS)
    }
}

/// The registers once INTRST is written with `v`: the interrupts of `v`
/// are acknowledged, clearing them from INTSET.
pub open spec fn intrst_written(g: MikeyRegistersView, v: u8) -> MikeyRegistersView {
    let g1 = mikey_data_written(g, INTRST, v);
    mikey_data_written(g1, INTSET, mreg(g1.data, INTSET) & !v)
}

/// A write of the bus data to the bus address starting: INTRST takes
/// effect at once, the timers, INTSET, IODAT, SYSCTL1, CPUSLEEP, DISPCTL,
/// SERCTL, SERDAT, PBKUP and the attenuation registers have their own
/// writes; other registers are written as they are.
pub open spec fn mikey_poked(s: MikeyView, a: u16, d: u8) -> MikeyView {
    let l = latched(s, a, d as u16);
    let v = MikeyView { registers: MikeyRegistersView { data_r: d as u16, ..s.registers }, ..s };
    if TIM0BKUP <= a <= AUD3MISC {
        with_mikey_ir(l, MikeyInstruction::TimersPoke, MIKEY_TIMER_WRITE_TICKS)
    } else if a == INTSET {
        with_mikey_ir(l, MikeyInstruction::Poke, MIKEY_WRITE_TICKS)
    } else if a == INTRST {
        with_mikey_ir(
            MikeyView { registers: intrst_written(s.registers, d), ..s },
            MikeyInstruction::PokeOk,
            MIKEY_WRITE_TICKS,
        )
    } else if a == IODAT {
        with_mikey_ir(l, MikeyInstruction::PokeIodat, MIKEY_WRITE_TICKS)
    } else if a == SYSCTL1 {
        with_mikey_ir(l, MikeyInstruction::PokeSysctl1, MIKEY_WRITE_TICKS)
    } else if a == CPUSLEEP {
        with_mikey_ir(l, MikeyInstruction::CpuSleep, MIKEY_WRITE_TICKS)
    } else if a == DISPCTL {
        with_mikey_ir(v, MikeyInstruction::PokeDispCtl, MIKEY_WRITE_TICKS)
    } else if a == SERCTL {
        with_mikey_ir(v, MikeyInstruction::PokeSerCtl, MIKEY_WRITE_TICKS)
    } else if a == SERDAT {
        with_mikey_ir(v, MikeyInstruction::PokeSerDat, MIKEY_WRITE_TICKS)
    } else if a == PBKUP {
        with_mikey_ir(v, MikeyInstruction::PokePbkup, MIKEY_WRITE_TICKS)
    } else if ATTEN_A <= a <= MSTEREO {
        with_mikey_ir(l, MikeyInstruction::PokeChangeAttenuation, MIKEY_WRITE_TICKS)
    } else {
        with_mikey_ir(l, MikeyInstruction::Poke, MIKEY_WRITE_TICKS)
    }
}

/// The bus with a read done and `d` on the data lines.
pub open spec fn peek_done(b: BusView, d: u8) -> BusView {
    BusView { data: d, status: BusStatus::PeekDone, ..b }
}

/// The bus with a write done.
pub open spec fn poke_done(b: BusView) -> BusView {
    BusView { status: BusStatus::PokeDone, ..b }
}

/// The cartridge with its address pins driven from the block and position
/// counters and AUDIN of `g`.
pub open spec fn cart_addressed(c: CartridgeView, g: MikeyRegistersView) -> CartridgeView {
    cart_pins_set(c, address_pins(c.cart->0.pins, g.cart_shift, g.cart_position, g.audin))
}

/// What AUDIN reads from the cartridge: the EEPROM's output, if it has one.
pub open spec fn cart_audin(c: CartridgeView) -> bool {
    match c.eeprom {
        Some(e) => e.last_output,
        None => false,
    }
}

/// Whether a SYSCTL1 write of `new` over `prev` strobes the cartridge
/// address (power on and a rising CAS).
pub open spec fn cas_strobe(prev: u8, new: u8) -> bool {
    new & SYSCTL1_POWER != 0 && prev & SYSCTL1_CAS == 0 && new & SYSCTL1_CAS != 0
}

/// SYSCTL1 written with the latched data: powering on restarts the
/// cartridge counters, CAD restarts the position, and a CAS strobe shifts
/// CAD into the block number and drives the cartridge address.
pub open spec fn sysctl1_post(s: MikeyView, c: CartridgeView) -> (MikeyView, CartridgeView) {
    let g = s.registers;
    let prev = mreg(g.data, SYSCTL1);
    let new = g.data_r as u8;
    let g1 = mikey_data_written(g, SYSCTL1, new);
    let g2 = if prev & SYSCTL1_POWER == 0 && new & SYSCTL1_POWER != 0 {
        MikeyRegistersView { cart_position: 0, cart_shift: 0, ..g1 }
    } else {
        g1
    };
    let b: u8 = if mreg(g2.data, IODAT) & IODAT_CAD != 0 { 1 } else { 0 };
    let g3 = if b > 0 { MikeyRegistersView { cart_position: 0, ..g2 } } else { g2 };
    if cas_strobe(prev, new) {
        let g4 = MikeyRegistersView { cart_position: 0, cart_shift: (g3.cart_shift << 1u8) | b, ..g3 };
        (MikeyView { registers: g4, ..s }, cart_addressed(c, g4))
    } else {
        (MikeyView { registers: g3, ..s }, c)
    }
}

/// IODAT written with the latched data: AUDIN follows its bit and the
/// cartridge address is driven again.
pub open spec fn iodat_post(s: MikeyView, c: CartridgeView) -> (MikeyView, CartridgeView) {
    let g1 = mikey_data_written(s.registers, IODAT, s.registers.data_r as u8);
    let g2 = MikeyRegistersView { audin: if mreg(g1.data, IODAT) & IODAT_AUDIN != 0 { 1 } else { 0 }, ..g1 };
    (MikeyView { registers: g2, ..s }, cart_addressed(c, g2))
}

/// IODAT as read: AUDIN from the cartridge; external power, no expansion
/// (unless a cable is present) as inputs; the outputs as written.
pub open spec fn iodat_read(audin: bool, iodat: u8, iodir: u8, cable: bool) -> u8 {
    let v0: u8 = if audin { IODAT_AUDIN } else { 0 };
    let v1 = if iodir & IODAT_EXTPW != 0 { v0 | (iodat & IODAT_EXTPW) } else { v0 | IODAT_EXTPW };
    let v2 = if iodir & IODAT_CAD != 0 { v1 | (iodat & IODAT_CAD) } else { v1 };
    let v3 = if iodir & IODAT_NOEXP != 0 {
        v2 | (iodat & IODAT_NOEXP)
    } else if !cable {
        v2 | IODAT_NOEXP
    } else {
        v2
    };
    if iodir & IODAT_REST != 0 { v3 | (iodat & IODAT_REST) } else { v3 }
}

/// Whether carrying out the bus instruction drives the cartridge address.
pub open spec fn ir_drives_cart(g: MikeyRegistersView) -> bool {
    ||| g.ir == MikeyInstruction::PokeIodat
    ||| g.ir == MikeyInstruction::PokeIncCartRipple
    ||| g.ir == MikeyInstruction::PeekIncCartRipple
    ||| (g.ir == MikeyInstruction::PokeSysctl1 && cas_strobe(mreg(g.data, SYSCTL1), g.data_r as u8))
}

/// The block position moved on by one, stopping at the last.
pub open spec fn position_inc(g: MikeyRegistersView) -> MikeyRegistersView {
    MikeyRegistersView {
        cart_position: if g.cart_position == u16::MAX { u16::MAX } else { (g.cart_position + 1) as u16 },
        ..g
    }
}

/// Carrying out the bus instruction: Mikey, the bus and the cartridge
/// afterwards.
pub open spec fn mikey_ir_done(s: MikeyView, b: BusView, c: CartridgeView) -> (MikeyView, BusView, CartridgeView) {
    let g = s.registers;
    let idle = MikeyRegistersView { ir: MikeyInstruction::Idle, ..g };
    let sv = MikeyView { registers: idle, ..s };
    let d = g.data_r as u8;
    match g.ir {
        MikeyInstruction::Peek => (sv, peek_done(b, mreg(g.data, g.addr_r)), c),
        MikeyInstruction::Poke => (
            MikeyView { registers: MikeyRegistersView { ir: MikeyInstruction::Idle, ..mikey_data_written(g, g.addr_r, d) }, ..s },
            poke_done(b),
            c,
        ),
        MikeyInstruction::PokeChangeAttenuation => {
            let g1 = mikey_data_written(g, g.addr_r, d);
            (
                MikeyView {
                    registers: MikeyRegistersView {
                        attenuation_left: Seq::new(4, |i: int| atten_left(g1.data, i)),
                        attenuation_right: Seq::new(4, |i: int| atten_right(g1.data, i)),
                        ir: MikeyInstruction::Idle,
                        ..g1
                    },
                    ..s
                },
                poke_done(b),
                c,
            )
        },
        MikeyInstruction::TimersPeek => (sv, peek_done(b, timers_peek(s.timers, g.addr_r)), c),
        MikeyInstruction::TimersPoke => (MikeyView { timers: timers_poke(s.timers, g.addr_r, d), ..sv }, poke_done(b), c),
        MikeyInstruction::PeekIntRst => (sv, peek_done(b, mreg(g.data, INTSET)), c),
        MikeyInstruction::PeekNothing => (sv, peek_done(b, 0xff), c),
        MikeyInstruction::PokeSysctl1 => {
            let (s1, c1) = sysctl1_post(s, c);
            (MikeyView { registers: MikeyRegistersView { ir: MikeyInstruction::Idle, ..s1.registers }, ..s1 }, poke_done(b), c1)
        },
        MikeyInstruction::PokeIodat => {
            let (s1, c1) = iodat_post(s, c);
            (MikeyView { registers: MikeyRegistersView { ir: MikeyInstruction::Idle, ..s1.registers }, ..s1 }, poke_done(b), c1)
        },
        MikeyInstruction::PeekIodat => (
            sv,
            peek_done(b, iodat_read(cart_audin(c), mreg(g.data, IODAT), mreg(g.data, IODIR), s.comlynx_cable_present)),
            c,
        ),
        MikeyInstruction::PokeOk => (sv, poke_done(b), c),
        MikeyInstruction::PokeIncCartRipple => {
            let g1 = position_inc(g);
            (MikeyView { registers: MikeyRegistersView { ir: MikeyInstruction::Idle, ..g1 }, ..s }, poke_done(b), cart_addressed(c, g1))
        },
        MikeyInstruction::PeekIncCartRipple => {
            let g1 = position_inc(g);
            (
                MikeyView { registers: MikeyRegistersView { ir: MikeyInstruction::Idle, ..g1 }, ..s },
                BusView { status: BusStatus::PeekDone, ..b },
                cart_addressed(c, g1),
            )
        },
        MikeyInstruction::CpuSleep => (sv, BusView { grant: false, status: BusStatus::PokeDone, ..b }, c),
        MikeyInstruction::PeekDispCtl => (sv, peek_done(b, g.dispctl), c),
        MikeyInstruction::PokeDispCtl => (
            MikeyView { registers: MikeyRegistersView { dispctl: d & 0x0f, is_flipped: d & 0x02 == 0x02, ..idle }, ..s },
            poke_done(b),
            c,
        ),
        MikeyInstruction::PeekSerCtl => (sv, peek_done(b, g.serctl_r), c),
        MikeyInstruction::PokeSerCtl => {
            let brk = g.serctl_w & 0x02 == 0x02;
            let rst = d & 0x08 == 0x08;
            (
                MikeyView {
                    registers: MikeyRegistersView {
                        serctl_w: if rst { d & !0x08u8 } else { d },
                        serctl_r: if rst { g.serctl_r & !0x1cu8 } else { g.serctl_r },
                        ..idle
                    },
                    uart: if brk && d & 0x02 != 0x02 { UartView { redeye_pin: RedeyeStatus::High, ..s.uart } } else { s.uart },
                    ..s
                },
                poke_done(b),
                c,
            )
        },
        MikeyInstruction::PeekSerDat => (
            MikeyView {
                uart: UartView { receive_register: None, ..s.uart },
                registers: MikeyRegistersView { serctl_r: g.serctl_r & !0x40u8, ..idle },
                ..s
            },
            peek_done(
                b,
                match s.uart.receive_register {
                    Some(x) => x,
                    None => 0u8,
                },
            ),
            c,
        ),
        MikeyInstruction::PokeSerDat => (
            MikeyView {
                uart: UartView { transmit_holding_register: Some(d), ..s.uart },
                registers: MikeyRegistersView { serctl_r: g.serctl_r & !0xa0u8, ..idle },
                ..s
            },
            poke_done(b),
            c,
        ),
        MikeyInstruction::PokePbkup => (
            MikeyView { registers: MikeyRegistersView { ir: MikeyInstruction::Idle, ..mikey_data_written(g, PBKUP, d) }, ..s },
            poke_done(b),
            c,
        ),
        MikeyInstruction::Idle => (s, b, c),
    }
}

/// The offset of the next video bytes to fetch, when the video needs some.
pub open spec fn video_request(v: VideoView) -> Option<usize> {
    if row_open(v) && v.pix_buffer_available == 0 {
        Some((v.buffers[v.draw_buffer as int].index / 8 + v.row_index / 2) as usize)
    } else {
        None
    }
}

/// Mikey handling the bus for the CPU: a finished read hands its data to
/// the CPU, a finished access releases it; a cartridge access that moves
/// the block position becomes Mikey's instruction. With the bus free and
/// the video needing bytes, Mikey takes the bus for the video DMA (taking
/// the display address and flip at the start of a screen), or asks Suzy
/// for it.
pub open spec fn owner_handled(s: MikeyView, b: BusView) -> (MikeyView, BusView) {
    let (s1, b1) = match b.status {
        BusStatus::PeekDone => (
            MikeyView { cpu_pins: ((s.cpu_pins & !0xff0000u32) | (((b.data as u32) << 16) & 0xff0000)) & !M6502_RDY, ..s },
            BusView { status: BusStatus::Idle, ..b },
        ),
        BusStatus::PokeDone => (MikeyView { cpu_pins: s.cpu_pins & !M6502_RDY, ..s }, BusView { status: BusStatus::Idle, ..b }),
        BusStatus::PokeIncCartRipple => (
            with_mikey_ir(s, MikeyInstruction::PokeIncCartRipple, MIKEY_WRITE_TICKS),
            b,
        ),
        BusStatus::PeekIncCartRipple => (
            with_mikey_ir(s, MikeyInstruction::PeekIncCartRipple, MIKEY_WRITE_TICKS),
            b,
        ),
        _ => (s, b),
    };
    if b1.status == BusStatus::Idle {
        match video_request(s1.video) {
            Some(base) => if b1.grant {
                let da = if base == 0 { crate::mikey::registers::mword(s1.registers.data, DISPADR) } else { s1.disp_addr };
                let fl = if base == 0 { s1.registers.is_flipped } else { s1.is_flipped };
                (
                    MikeyView {
                        disp_addr: da,
                        is_flipped: fl,
                        bus_owner: MikeyBusOwner::RefreshAndVideo,
                        registers: MikeyRegistersView { ticks_delay: REFRESH_AND_VIDEO_DMA_TICKS, ..s1.registers },
                        video_buffer_curr_addr: if fl { da.wrapping_sub(base as u16) } else { da.wrapping_add(base as u16) },
                        ..s1
                    },
                    b1,
                )
            } else if !b1.request {
                (MikeyView { bus_grant_bkup: Some(false), ..s1 }, BusView { request: true, ..b1 })
            } else {
                (s1, b1)
            },
            None => (s1, b1),
        }
    } else {
        (s1, b1)
    }
}

/// The eight bytes of one video DMA from `addr`, walking down when the
/// screen is flipped (each byte then has its two pixels swapped).
pub open spec fn dma_bytes(m: Seq<u8>, addr: u16, flipped: bool) -> Seq<u8> {
    Seq::new(
        8,
        |i: int|
            if flipped {
                let a = ((addr - i) % 0x1_0000) as int;
                (((m[a] >> 4u8) | (m[a] << 4u8)) as u8)
            } else {
                m[((addr + i) % 0x1_0000) as int]
            },
    )
}

/// The video DMA: sixteen pixels fetched from RAM into the video, the bus
/// handed back to the CPU, and the bus grant restored if Mikey had asked
/// for the bus.
pub open spec fn dma_done(s: MikeyView, b: BusView, m: Seq<u8>) -> (MikeyView, BusView) {
    let bytes = dma_bytes(m, s.video_buffer_curr_addr, s.is_flipped);
    (
        MikeyView {
            video: VideoView { pix_buffer_available: 16, pix_buffer: packed_pixels(bytes), ..s.video },
            bus_owner: MikeyBusOwner::Cpu,
            bus_grant_bkup: None,
            ..s
        },
        BusView {
            status: BusStatus::Idle,
            grant: match s.bus_grant_bkup {
                Some(g) => g,
                None => b.grant,
            },
            ..b
        },
    )
}

/// The CPU's tick: the core runs one bus cycle ([`tick_spec`]), and the bus
/// carries the read (flagged as an op-code read on a fetch) or the write it
/// asks for.
pub open spec fn cpu_ticked(o: MikeyView, n: MikeyView, ob: BusView, nb: BusView) -> bool {
    let p = o.cpu_pins;
    let r = n.cpu_pins;
    &&& n == (MikeyView { cpu: n.cpu, cpu_pins: r, ..o })
    &&& n.cpu == tick_spec(o.cpu, p)
    &&& n.cpu.pins == r
    &&& cpu_ready(n.cpu, r)
    &&& p & M6502_RDY != 0 && p & M6502_RW != 0 ==> r == p && n.cpu.ir == o.cpu.ir && n.cpu.ir_step == o.cpu.ir_step
        && n.cpu.a == o.cpu.a && n.cpu.pc == o.cpu.pc
    &&& !(p & M6502_RDY != 0 && p & M6502_RW != 0) && pins_sync(p) ==> n.cpu.last_ir_pc == pins_addr(p) && n.cpu.ir_step
        == 1 && n.cpu.ir == (if n.cpu.break_flags != 0 { 0 } else { pins_data(p) })
    &&& nb == (if pins_read(r) {
        BusView {
            addr: pins_addr(r),
            data: if pins_sync(r) { RAM_PEEK_DATA_OPCODE } else { 0 },
            status: BusStatus::PeekCore,
            ..ob
        }
    } else {
        BusView { addr: pins_addr(r), data: pins_data(r), status: BusStatus::PokeCore, ..ob }
    })
}

/// Whether the screen buffer has room for the row a horizontal sync draws.
pub open spec fn row_room(v: VideoView) -> bool {
    v.buffers[v.draw_buffer as int].index + 4 * v.row_index <= RGBA_SCREEN_BUFFER_LEN
}

/// The devices' part of a tick: the timers run, timer 4 clocks the UART,
/// a horizontal sync draws the row, the video takes a pixel, and raised
/// interrupts are latched into INTSET (asking for the bus when the CPU
/// sleeps).
pub open spec fn devices_ticked(s: MikeyView, b: BusView) -> (MikeyView, BusView) {
    let (t1, int0, t4) = tick_all_spec(s.timers);
    let g = s.registers;
    let (u2, g1, int1) = if t4 {
        let (u1, r1) = rx_spec(s.uart, g.serctl_r);
        let (ux, r2) = tx_spec(u1, r1, g.serctl_w);
        (ux, MikeyRegistersView { serctl_r: r2, ..g }, if uart_interrupt(r2, g.serctl_w) { int0 | INT_TIMER4 } else { int0 })
    } else {
        (s.uart, g, int0)
    };
    let t2 = TimersView { triggered: t1.triggered.update(0, false), ..t1 };
    let v1 = if t1.triggered[0] {
        hsync_spec(s.video, t1.timer[2].count, g1.palette_r, g1.palette_g, g1.palette_b)
    } else {
        s.video
    };
    let v2 = video_tick_spec(v1);
    let g2 = if int1 != 0 { mikey_data_written(g1, INTSET, int1 | mreg(g1.data, INTSET)) } else { g1 };
    let b1 = if int1 != 0 && !b.grant { BusView { request: true, ..b } } else { b };
    (MikeyView { ticks: s.ticks.wrapping_add(1), timers: t2, uart: u2, registers: g2, video: v2, ..s }, b1)
}

/// Mikey once the CPU's IRQ and RDY pins follow the pending interrupts and
/// the bus grant.
pub open spec fn cpu_pins_driven(s: MikeyView, b: BusView) -> MikeyView {
    let p1 = if s.cpu.flags & 0x04 == 0x04 || mreg(s.registers.data, INTSET) == 0 {
        s.cpu_pins & !M6502_IRQ
    } else {
        s.cpu_pins | M6502_IRQ
    };
    let p2 = if b.grant { p1 & !M6502_RDY } else { p1 | M6502_RDY };
    MikeyView { cpu_pins: p2, ..s }
}

/// The state at which the bus instruction of a tick is carried out, if it
/// is.
pub open spec fn before_ir(o: MikeyView, ob: BusView) -> (MikeyView, BusView) {
    let (s1, b1) = devices_ticked(o, ob);
    let (s2, b2) = if s1.bus_owner == MikeyBusOwner::Cpu { owner_handled(s1, b1) } else { (s1, b1) };
    (cpu_pins_driven(s2, b2), b2)
}

/// Whether a tick can run: the screen has room for a row that a
/// horizontal sync draws, and a cartridge is present for an instruction
/// that addresses it.
pub open spec fn mikey_tick_ready(o: MikeyView, ob: BusView, oc: CartridgeView) -> bool {
    let (t1, _, _) = tick_all_spec(o.timers);
    let (s1, _) = devices_ticked(o, ob);
    let (s3, _) = before_ir(o, ob);
    &&& t1.triggered[0] ==> row_room(o.video)
    &&& (s1.registers.ticks_delay == 0 && s3.bus_owner == MikeyBusOwner::Cpu && s3.registers.ir
        != MikeyInstruction::Idle && ir_drives_cart(s3.registers)) ==> cartridge_ready(oc)
}

/// One tick of Mikey: the devices; then, unless an access is still under
/// way, the bus hand-over and either the CPU's part (interrupt and ready
/// pins, the bus instruction, and a CPU cycle when the bus is free) or the
/// video DMA.
pub open spec fn mikey_tick_post(
    o: MikeyView,
    ob: BusView,
    oc: CartridgeView,
    m: Seq<u8>,
    n: MikeyView,
    nb: BusView,
    nc: CartridgeView,
) -> bool {
    let (s1, b1) = devices_ticked(o, ob);
    if s1.registers.ticks_delay > 0 {
        &&& n == (MikeyView {
            registers: MikeyRegistersView { ticks_delay: (s1.registers.ticks_delay - 1) as u16, ..s1.registers },
            ..s1
        })
        &&& nb == b1
        &&& nc == oc
    } else {
        let (s3, b3) = before_ir(o, ob);
        let (s2, b2) = if s1.bus_owner == MikeyBusOwner::Cpu { owner_handled(s1, b1) } else { (s1, b1) };
        if s2.bus_owner == MikeyBusOwner::Cpu {
            let (s4, b4, c4) = if s3.registers.ir != MikeyInstruction::Idle { mikey_ir_done(s3, b3, oc) } else { (s3, b3, oc) };
            &&& nc == c4
            &&& if b4.status == BusStatus::Idle { cpu_ticked(s4, n, b4, nb) } else { n == s4 && nb == b4 }
        } else {
            let (s5, b5) = dma_done(s2, b2, m);
            n == s5 && nb == b5 && nc == oc
        }
    }
}

/// Switching the IRQ and RDY pins, and the data lines, leaves the opcode
/// fetch signal alone.
proof fn lemma_mikey_pins(p: u32)
    by (bit_vector)
    ensures
        ((p | M6502_IRQ) & M6502_SYNC != 0) == (p & M6502_SYNC != 0),
        ((p & !M6502_IRQ) & M6502_SYNC != 0) == (p & M6502_SYNC != 0),
        ((p | M6502_RDY) & M6502_SYNC != 0) == (p & M6502_SYNC != 0),
        ((p & !M6502_RDY) & M6502_SYNC != 0) == (p & M6502_SYNC != 0),
        (M6502_SYNC & M6502_SYNC != 0),
{
}

/// Facts of bit arithmetic on IODAT.
proof fn lemma_iodat_bits()
    by (bit_vector)
    ensures
        0u8 | IODAT_AUDIN == IODAT_AUDIN,
        0u8 & !IODAT_AUDIN == 0u8,
{
}

impl Mikey {
    /// Mikey at power-on: the CPU at rest, nothing under way, the CPU
    /// owning the bus.
    pub fn new() -> (r: Self)
        ensures
            mikey_wf(r@),
            r@.ticks == 0,
            r@.bus_owner == MikeyBusOwner::Cpu,
            r@.bus_grant_bkup is None,
            !r@.comlynx_cable_present,
            r@.registers.ir == MikeyInstruction::Idle,
            r@.registers.ticks_delay == 0,
            r@.video_buffer_curr_addr == 0,
            r@.disp_addr == 0,
            !r@.is_flipped,
    {
        Self {
            cpu: M6502::new(),
            cpu_pins: CPUPins::default(),
            uart: Uart::new(),
            ticks: 0,
            timers: Timers::new(),
            registers: MikeyRegisters::new(),
            video: Video::new(),
            video_buffer_curr_addr: 0,
            disp_addr: 0,
            is_flipped: false,
            bus_owner: MikeyBusOwner::Cpu,
            bus_grant_bkup: None,
            comlynx_cable_present: false,
        }
    }

    /// The register at `addr`.
    pub fn get(&self, addr: u16) -> (r: u8)
        requires
            mikey_reg(addr),
        ensures
            r == mreg(self@.registers.data, addr),
    {
        self.registers.data(addr)
    }

    /// Starts a read of the bus address, one of Mikey's.
    pub fn peek(&mut self, bus: &Bus)
        requires
            mikey_wf(old(self)@),
            mikey_reg(bus@.addr),
        ensures
            mikey_wf(final(self)@),
            final(self)@ == mikey_peeked(old(self)@, bus@.addr),
    {
        let addr = bus.addr();
        if TIM0BKUP <= addr && addr <= AUD3MISC {
            self.registers.set_addr_r(addr);
            self.registers.set_ir(MikeyInstruction::TimersPeek);
            self.registers.set_ticks_delay(MIKEY_TIMER_READ_TICKS);
        } else if addr == IODAT {
            self.registers.set_ir(MikeyInstruction::PeekIodat);
            self.registers.set_ticks_delay(MIKEY_READ_TICKS);
        } else if addr == INTRST {
            self.registers.set_addr_r(addr);
            self.registers.set_ir(MikeyInstruction::PeekIntRst);
            self.registers.set_ticks_delay(MIKEY_READ_TICKS);
        } else if addr == SYSCTL1 {
            self.registers.set_addr_r(addr);
            self.registers.set_ir(MikeyInstruction::PeekNothing);
            self.registers.set_ticks_delay(MIKEY_READ_TICKS);
        } else if addr == DISPCTL {
            self.registers.set_ir(MikeyInstruction::PeekDispCtl);
            self.registers.set_ticks_delay(MIKEY_READ_TICKS);
        } else if addr == SERCTL {
            self.registers.set_ir(MikeyInstruction::PeekSerCtl);
            self.registers.set_ticks_delay(MIKEY_READ_TICKS);
        } else if addr == SERDAT {
            self.registers.set_ir(MikeyInstruction::PeekSerDat);
            self.registers.set_ticks_delay(MIKEY_READ_TICKS);
        } else {
            self.registers.set_addr_r(addr);
            self.registers.set_ir(MikeyInstruction::Peek);
            self.registers.set_ticks_delay(MIKEY_READ_TICKS);
        }
    }

    /// Acknowledges the interrupts of `v`.
    fn set_intrst(&mut self, v: u8)
        requires
            mikey_wf(old(self)@),
        ensures
            mikey_wf(final(self)@),
            final(self)@ == (MikeyView { registers: intrst_written(old(self)@.registers, v), ..old(self)@ }),
    {
        self.registers.set_data(INTRST, v);
        let set = self.registers.data(INTSET) & !v;
        self.registers.set_data(INTSET, set);
        proof {
            self.registers.lemma_sizes();
        }
    }

    /// Starts a write of the bus data to the bus address, one of Mikey's.
    pub fn poke(&mut self, bus: &Bus)
        requires
            mikey_wf(old(self)@),
            mikey_reg(bus@.addr),
        ensures
            mikey_wf(final(self)@),
            final(self)@ == mikey_poked(old(self)@, bus@.addr, bus@.data),
    {
        let addr = bus.addr();
        if TIM0BKUP <= addr && addr <= AUD3MISC {
            self.registers.set_addr_r(addr);
            self.registers.set_data_r(bus.data() as u16);
            self.registers.set_ir(MikeyInstruction::TimersPoke);
            self.registers.set_ticks_delay(MIKEY_TIMER_WRITE_TICKS);
        } else if addr == INTSET {
            self.registers.set_addr_r(addr);
            self.registers.set_data_r(bus.data() as u16);
            self.registers.set_ir(MikeyInstruction::Poke);
            self.registers.set_ticks_delay(MIKEY_WRITE_TICKS);
        } else if addr == INTRST {
            self.set_intrst(bus.data());
            self.registers.set_ir(MikeyInstruction::PokeOk);
            self.registers.set_ticks_delay(MIKEY_WRITE_TICKS);
        } else if addr == IODAT {
            self.registers.set_addr_r(addr);
            self.registers.set_data_r(bus.data() as u16);
            self.registers.set_ir(MikeyInstruction::PokeIodat);
            self.registers.set_ticks_delay(MIKEY_WRITE_TICKS);
        } else if addr == SYSCTL1 {
            self.registers.set_addr_r(addr);
            self.registers.set_data_r(bus.data() as u16);
            self.registers.set_ir(MikeyInstruction::PokeSysctl1);
            self.registers.set_ticks_delay(MIKEY_WRITE_TICKS);
        } else if addr == CPUSLEEP {
            self.registers.set_addr_r(addr);
            self.registers.set_data_r(bus.data() as u16);
            self.registers.set_ir(MikeyInstruction::CpuSleep);
            self.registers.set_ticks_delay(MIKEY_WRITE_TICKS);
        } else if addr == DISPCTL {
            self.registers.set_data_r(bus.data() as u16);
            self.registers.set_ir(MikeyInstruction::PokeDispCtl);
            self.registers.set_ticks_delay(MIKEY_WRITE_TICKS);
        } else if addr == SERCTL {
            self.registers.set_data_r(bus.data() as u16);
            self.registers.set_ir(MikeyInstruction::PokeSerCtl);
            self.registers.set_ticks_delay(MIKEY_WRITE_TICKS);
        } else if addr == SERDAT {
            self.registers.set_data_r(bus.data() as u16);
            self.registers.set_ir(MikeyInstruction::PokeSerDat);
            self.registers.set_ticks_delay(MIKEY_WRITE_TICKS);
        } else if addr == PBKUP {
            self.registers.set_data_r(bus.data() as u16);
            self.registers.set_ir(MikeyInstruction::PokePbkup);
            self.registers.set_ticks_delay(MIKEY_WRITE_TICKS);
        } else if ATTEN_A <= addr && addr <= MSTEREO {
            self.registers.set_addr_r(addr);
            self.registers.set_data_r(bus.data() as u16);
            self.registers.set_ir(MikeyInstruction::PokeChangeAttenuation);
            self.registers.set_ticks_delay(MIKEY_WRITE_TICKS);
        } else {
            self.registers.set_addr_r(addr);
            self.registers.set_data_r(bus.data() as u16);
            self.registers.set_ir(MikeyInstruction::Poke);
            self.registers.set_ticks_delay(MIKEY_WRITE_TICKS);
        }
    }

    /// SYSCTL1 written with the latched data.
    fn sysctl1_updated(&mut self, _bus: &mut Bus, cart: &mut Cartridge)
        requires
            mikey_wf(old(self)@),
            cas_strobe(mreg(old(self)@.registers.data, SYSCTL1), old(self)@.registers.data_r as u8) ==> cartridge_ready(
                old(cart)@,
            ),
        ensures
            mikey_wf(final(self)@),
            (final(self)@, final(cart)@) == sysctl1_post(old(self)@, old(cart)@),
            cartridge_ready(old(cart)@) ==> cartridge_ready(final(cart)@),
            final(_bus)@ == old(_bus)@,
    {
        let prev = self.registers.data(SYSCTL1);
        let new = self.registers.data_r() as u8;
        self.registers.set_data(SYSCTL1, new);

        if prev & SYSCTL1_POWER == 0 && new & SYSCTL1_POWER != 0 {
            self.registers.reset_cart_position();
            self.registers.reset_cart_shift();
        }

        let b: u8 = if self.registers.data(IODAT) & IODAT_CAD != 0 {
            1
        } else {
            0
        };
        if b > 0 {
            self.registers.reset_cart_position();
        }

        if new & SYSCTL1_POWER != 0 && prev & SYSCTL1_CAS == 0 && new & SYSCTL1_CAS != 0 {
            self.registers.shift_cart_shift(b);
            cart.write_address_to_pins(
                self.registers.cart_shift(),
                self.registers.cart_position(),
                self.registers.audin(),
            );
        }
        proof {
            self.registers.lemma_sizes();
        }
    }

    /// IODAT written with the latched data.
    fn iodat_updated(&mut self, cart: &mut Cartridge)
        requires
            mikey_wf(old(self)@),
            cartridge_ready(old(cart)@),
        ensures
            mikey_wf(final(self)@),
            (final(self)@, final(cart)@) == iodat_post(old(self)@, old(cart)@),
            cartridge_ready(final(cart)@),
    {
        let new = self.registers.data_r() as u8;
        self.registers.set_data(IODAT, new);

        let b: u16 = if self.registers.data(IODAT) & IODAT_AUDIN != 0 {
            1
        } else {
            0
        };
        self.registers.set_audin(b);
        cart.write_address_to_pins(self.registers.cart_shift(), self.registers.cart_position(), self.registers.audin());
        proof {
            self.registers.lemma_sizes();
        }
    }

    /// Carries out the bus instruction.
    #[verifier::rlimit(80)]
    fn process_ir_step(&mut self, bus: &mut Bus, cart: &mut Cartridge)
        requires
            mikey_wf(old(self)@),
            ir_drives_cart(old(self)@.registers) ==> cartridge_ready(old(cart)@),
        ensures
            mikey_wf(final(self)@),
            (final(self)@, final(bus)@, final(cart)@) == mikey_ir_done(old(self)@, old(bus)@, old(cart)@),
            cartridge_ready(old(cart)@) ==> cartridge_ready(final(cart)@),
    {
        proof {
            self.registers.lemma_sizes();
        }
        match self.registers.ir() {
            MikeyInstruction::Peek => {
                bus.set_data(self.registers.data(self.registers.addr_r()));
                bus.set_status(BusStatus::PeekDone);
                self.registers.reset_ir();
            },
            MikeyInstruction::Poke => {
                let a = self.registers.addr_r();
                let d = self.registers.data_r() as u8;
                self.registers.set_data(a, d);
                bus.set_status(BusStatus::PokeDone);
                self.registers.reset_ir();
            },
            MikeyInstruction::PokeChangeAttenuation => {
                let a = self.registers.addr_r();
                let d = self.registers.data_r() as u8;
                self.registers.set_data(a, d);
                self.registers.update_attenuations();
                bus.set_status(BusStatus::PokeDone);
                self.registers.reset_ir();
            },
            MikeyInstruction::TimersPeek => {
                bus.set_data(self.timers.peek(self.registers.addr_r()));
                bus.set_status(BusStatus::PeekDone);
                self.registers.reset_ir();
            },
            MikeyInstruction::TimersPoke => {
                let a = self.registers.addr_r();
                let d = self.registers.data_r() as u8;
                self.timers.poke(a, d);
                bus.set_status(BusStatus::PokeDone);
                self.registers.reset_ir();
            },
            MikeyInstruction::PeekIntRst => {
                bus.set_data(self.registers.data(INTSET));
                bus.set_status(BusStatus::PeekDone);
                self.registers.reset_ir();
            },
            MikeyInstruction::PeekNothing => {
                bus.set_data(0xff);
                bus.set_status(BusStatus::PeekDone);
                self.registers.reset_ir();
            },
            MikeyInstruction::PokeSysctl1 => {
                self.sysctl1_updated(bus, cart);
                self.registers.reset_ir();
                bus.set_status(BusStatus::PokeDone);
            },
            MikeyInstruction::PokeIodat => {
                self.iodat_updated(cart);
                self.registers.reset_ir();
                bus.set_status(BusStatus::PokeDone);
            },
            MikeyInstruction::PeekIodat => {
                let iodat = self.registers.data(IODAT);
                let iodir = self.registers.data(IODIR);
                let mut v: u8 = 0;
                if cart.audin() {
                    v = v | IODAT_AUDIN;
                } else {
                    v = v & !IODAT_AUDIN;
                }
                if iodir & IODAT_EXTPW != 0 {
                    v = v | (iodat & IODAT_EXTPW);
                } else {
                    v = v | IODAT_EXTPW;
                }
                if iodir & IODAT_CAD != 0 {
                    v = v | (iodat & IODAT_CAD);
                }
                if iodir & IODAT_NOEXP != 0 {
                    v = v | (iodat & IODAT_NOEXP);
                } else if !self.comlynx_cable_present {
                    v = v | IODAT_NOEXP;
                }
                if iodir & IODAT_REST != 0 {
                    v = v | (iodat & IODAT_REST);
                }
                proof {
                    lemma_iodat_bits();
                }
                bus.set_data(v);
                bus.set_status(BusStatus::PeekDone);
                self.registers.reset_ir();
            },
            MikeyInstruction::PokeOk => {
                self.registers.reset_ir();
                bus.set_status(BusStatus::PokeDone);
            },
            MikeyInstruction::PokeIncCartRipple => {
                self.registers.inc_cart_position();
                cart.write_address_to_pins(
                    self.registers.cart_shift(),
                    self.registers.cart_position(),
                    self.registers.audin(),
                );
                self.registers.reset_ir();
                bus.set_status(BusStatus::PokeDone);
            },
            MikeyInstruction::PeekIncCartRipple => {
                self.registers.inc_cart_position();
                cart.write_address_to_pins(
                    self.registers.cart_shift(),
                    self.registers.cart_position(),
                    self.registers.audin(),
                );
                self.registers.reset_ir();
                bus.set_status(BusStatus::PeekDone);
            },
            MikeyInstruction::CpuSleep => {
                self.registers.reset_ir();
                bus.set_grant(false);
                bus.set_status(BusStatus::PokeDone);
            },
            MikeyInstruction::PeekDispCtl => {
                bus.set_data(self.registers.dispctl());
                self.registers.reset_ir();
                bus.set_status(BusStatus::PeekDone);
            },
            MikeyInstruction::PokeDispCtl => {
                let d = self.registers.data_r() as u8;
                self.registers.set_dispctl(d);
                self.registers.reset_ir();
                bus.set_status(BusStatus::PokeDone);
            },
            MikeyInstruction::PeekSerCtl => {
                bus.set_data(self.registers.serctl());
                self.registers.reset_ir();
                bus.set_status(BusStatus::PeekDone);
            },
            MikeyInstruction::PokeSerCtl => {
                let d = self.registers.data_r() as u8;
                self.registers.set_serctl(&mut self.uart, d);
                self.registers.reset_ir();
                bus.set_status(BusStatus::PokeDone);
            },
            MikeyInstruction::PeekSerDat => {
                bus.set_data(self.uart.get_data(&mut self.registers));
                self.registers.reset_ir();
                bus.set_status(BusStatus::PeekDone);
            },
            MikeyInstruction::PokeSerDat => {
                let data = self.registers.data_r() as u8;
                self.uart.set_transmit_holding_buffer(&mut self.registers, data);
                self.registers.reset_ir();
                bus.set_status(BusStatus::PokeDone);
            },
            MikeyInstruction::PokePbkup => {
                let d = self.registers.data_r() as u8;
                self.registers.set_data(PBKUP, d);
                self.registers.reset_ir();
                bus.set_status(BusStatus::PokeDone);
            },
            MikeyInstruction::Idle => {},
        }
        proof {
            self.registers.lemma_sizes();
        }
    }

    /// Handles the bus for the CPU, and starts a video DMA when the video
    /// needs bytes.
    fn handle_mikey_bus_owner(&mut self, bus: &mut Bus)
        requires
            mikey_wf(old(self)@),
        ensures
            mikey_wf(final(self)@),
            (final(self)@, final(bus)@) == owner_handled(old(self)@, old(bus)@),
    {
        match bus.status() {
            BusStatus::PeekDone => {
                self.cpu_pins.sd(bus.data());
                bus.set_status(BusStatus::Idle);
                proof {
                    lemma_mikey_pins(self.cpu_pins@);
                }
                self.cpu_pins.pin_off(M6502_RDY);
            },
            BusStatus::PokeDone => {
                bus.set_status(BusStatus::Idle);
                proof {
                    lemma_mikey_pins(self.cpu_pins@);
                }
                self.cpu_pins.pin_off(M6502_RDY);
            },
            BusStatus::PokeIncCartRipple => {
                self.registers.set_ir(MikeyInstruction::PokeIncCartRipple);
                self.registers.set_ticks_delay(MIKEY_WRITE_TICKS);
            },
            BusStatus::PeekIncCartRipple => {
                self.registers.set_ir(MikeyInstruction::PeekIncCartRipple);
                self.registers.set_ticks_delay(MIKEY_WRITE_TICKS);
            },
            _ => {},
        }
        if bus.status() == BusStatus::Idle {
            if let Some(screen_pixel_base) = self.video.required_bytes() {
                if bus.grant() {
                    if screen_pixel_base == 0 {
                        self.disp_addr = self.registers.disp_addr();
                        self.is_flipped = self.registers.is_flipped();
                    }
                    self.bus_owner = MikeyBusOwner::RefreshAndVideo;
                    self.registers.set_ticks_delay(REFRESH_AND_VIDEO_DMA_TICKS);
                    let base = screen_pixel_base as u16;
                    self.video_buffer_curr_addr = if self.is_flipped {
                        self.disp_addr.wrapping_sub(base)
                    } else {
                        self.disp_addr.wrapping_add(base)
                    };
                } else if !bus.request() {
                    bus.set_request(true);
                    self.bus_grant_bkup = Some(false);
                }
            }
        }
    }

    /// The video DMA: fetches sixteen pixels for the video and hands the
    /// bus back to the CPU.
    fn refresh_and_video(&mut self, bus: &mut Bus, dma_ram: &Ram)
        requires
            mikey_wf(old(self)@),
            ram_wf(dma_ram@),
        ensures
            mikey_wf(final(self)@),
            (final(self)@, final(bus)@) == dma_done(old(self)@, old(bus)@, dma_ram@.data),
    {
        let mut base_addr: u16 = self.video_buffer_curr_addr;
        let mut b: Vec<u8> = Vec::new();
        let mut i: usize = 0;
        while i < VIDEO_DMA_BUFFER_LENGTH
            invariant
                i <= 8,
                ram_wf(dma_ram@),
                b@.len() == i,
                base_addr == (if self.is_flipped {
                    ((self.video_buffer_curr_addr - i) % 0x1_0000) as u16
                } else {
                    ((self.video_buffer_curr_addr + i) % 0x1_0000) as u16
                }),
                forall|j: int| 0 <= j < i ==> #[trigger] b@[j] == dma_bytes(dma_ram@.data, self.video_buffer_curr_addr, self.is_flipped)[j],
            decreases 8 - i,
        {
            let d = dma_ram.get(base_addr);
            b.push(if self.is_flipped { swap_nibbles(d) } else { d });
            base_addr = if self.is_flipped { base_addr.wrapping_sub(1) } else { base_addr.wrapping_add(1) };
            i = i + 1;
        }
        proof {
            assert(b@ =~= dma_bytes(dma_ram@.data, self.video_buffer_curr_addr, self.is_flipped));
        }
        self.video.push_pix_buffer(b.as_slice());
        self.bus_owner = MikeyBusOwner::Cpu;
        bus.set_status(BusStatus::Idle);
        if let Some(grant) = self.bus_grant_bkup {
            bus.set_grant(grant);
        }
        self.bus_grant_bkup = None;
    }

    /// One cycle of the CPU, with the bus carrying the access it asks for.
    pub fn cpu_tick(&mut self, bus: &mut Bus)
        requires
            mikey_wf(old(self)@),
        ensures
            mikey_wf(final(self)@),
            cpu_ticked(old(self)@, final(self)@, old(bus)@, final(bus)@),
    {
        let stepper = M6502Stepper::new();
        self.cpu_pins = stepper.tick(&mut self.cpu, self.cpu_pins);
        let addr = self.cpu_pins.ga();
        if self.cpu_pins.is_set(M6502_RW) {
            bus.set_addr(addr);
            // An op-code read is flagged to the RAM, which serves it in page mode.
            if self.cpu_pins.is_set(M6502_SYNC) {
                bus.set_data(RAM_PEEK_DATA_OPCODE);
            } else {
                bus.set_data(0);
            }
            bus.set_status(BusStatus::PeekCore);
        } else {
            bus.set_addr(addr);
            bus.set_data(self.cpu_pins.gd());
            bus.set_status(BusStatus::PokeCore);
        }
    }

    /// Points the CPU at `pc`, whose byte `opcode` it fetches first.
    pub fn cpu_prefetch(&mut self, pc: u16, opcode: u8)
        requires
            mikey_wf(old(self)@),
        ensures
            mikey_wf(final(self)@),
            pins_sync(final(self)@.cpu_pins),
            pins_addr(final(self)@.cpu_pins) == pc,
            pins_data(final(self)@.cpu_pins) == opcode,
            final(self)@.cpu.pc == pc,
            final(self)@ == (MikeyView { cpu: final(self)@.cpu, cpu_pins: final(self)@.cpu_pins, ..old(self)@ }),
    {
        self.cpu_pins.set(M6502_SYNC);
        proof {
            lemma_mikey_pins(0);
        }
        self.cpu_pins.sa(pc);
        self.cpu_pins.sd(opcode);
        self.cpu.set_pc(pc);
    }

    /// Mikey back at power-on: a new CPU, timers, registers, video and
    /// UART; nothing under way, the CPU owning the bus.
    pub fn reset(&mut self)
        requires
            mikey_wf(old(self)@),
        ensures
            mikey_wf(final(self)@),
            final(self)@.ticks == 0,
            final(self)@.bus_owner == MikeyBusOwner::Cpu,
            final(self)@.video_buffer_curr_addr == 0,
            final(self)@.registers.ir == MikeyInstruction::Idle,
            final(self)@.registers.ticks_delay == 0,
            final(self)@.disp_addr == old(self)@.disp_addr,
            final(self)@.is_flipped == old(self)@.is_flipped,
            final(self)@.bus_grant_bkup == old(self)@.bus_grant_bkup,
            final(self)@.comlynx_cable_present == old(self)@.comlynx_cable_present,
    {
        self.cpu = M6502::new();
        self.cpu_pins = CPUPins::default();
        self.ticks = 0;
        self.timers = Timers::new();
        self.registers = MikeyRegisters::new();
        self.video = Video::new();
        self.video_buffer_curr_addr = 0;
        self.bus_owner = MikeyBusOwner::Cpu;
        self.uart = Uart::new();
    }

    /// The devices' part of a tick.
    fn tick_devices(&mut self, bus: &mut Bus)
        requires
            mikey_wf(old(self)@),
            ({
                let (t1, _, _) = tick_all_spec(old(self)@.timers);
                t1.triggered[0] ==> row_room(old(self)@.video)
            }),
        ensures
            mikey_wf(final(self)@),
            (final(self)@, final(bus)@) == devices_ticked(old(self)@, old(bus)@),
    {
        self.ticks = self.ticks.wrapping_add(1);
        let (irq0, int4_triggered) = self.timers.tick_all();
        let mut irq = irq0;
        if int4_triggered {
            // The interrupt of timer 4, the UART's baud clock, is driven by the
            // UART's receiver and transmitter.
            if self.uart.tick(&mut self.registers) {
                irq = irq | INT_TIMER4;
            }
        }
        let ghost t1 = self.timers@;
        if let Some(hsync_count) = self.timers.hsync() {
            proof {
                self.registers.lemma_sizes();
            }
            self.video.hsync(hsync_count, &self.registers);
        }
        proof {
            assert(self.timers@.triggered =~= t1.triggered.update(0, false));
        }
        self.video.tick();
        if irq != 0 {
            irq = irq | self.registers.data(INTSET);
            self.registers.set_data(INTSET, irq);
            if !bus.grant() {
                bus.set_request(true);
            }
        }
        proof {
            self.registers.lemma_sizes();
        }
    }

    /// One tick of Mikey.
    #[verifier::rlimit(60)]
    pub fn tick(&mut self, bus: &mut Bus, cart: &mut Cartridge, dma_ram: &Ram)
        requires
            mikey_wf(old(self)@),
            ram_wf(dma_ram@),
            mikey_tick_ready(old(self)@, old(bus)@, old(cart)@),
        ensures
            mikey_wf(final(self)@),
            mikey_tick_post(old(self)@, old(bus)@, old(cart)@, dma_ram@.data, final(self)@, final(bus)@, final(cart)@),
            cartridge_ready(old(cart)@) ==> cartridge_ready(final(cart)@),
    {
        self.tick_devices(bus);
        if self.registers.ticks_delay() > 0 {
            self.registers.dec_ticks_delay();
            return ;
        }
        if self.bus_owner == MikeyBusOwner::Cpu {
            self.handle_mikey_bus_owner(bus);
        }
        match self.bus_owner {
            MikeyBusOwner::Cpu => {
                proof {
                    lemma_mikey_pins(self.cpu_pins@);
                }
                if self.cpu.flags().contains(M6502Flags::I()) || self.registers.data(INTSET) == 0 {
                    self.cpu_pins.pin_off(M6502_IRQ);
                } else {
                    self.cpu_pins.pin_on(M6502_IRQ);
                }
                proof {
                    lemma_mikey_pins(self.cpu_pins@);
                }
                if bus.grant() {
                    self.cpu_pins.pin_off(M6502_RDY);
                } else {
                    self.cpu_pins.pin_on(M6502_RDY);
                }
                if self.registers.ir() != MikeyInstruction::Idle {
                    self.process_ir_step(bus, cart);
                }
                if bus.status() == BusStatus::Idle {
                    self.cpu_tick(bus);
                }
            },
            MikeyBusOwner::RefreshAndVideo => {
                self.refresh_and_video(bus, dma_ram);
            },
        }
    }

    /// Whether a cable is plugged into the ComLynx port.
    pub fn set_comlynx_cable_present(&mut self, comlynx_cable_present: bool)
        ensures
            final(self)@ == (MikeyView { comlynx_cable_present, ..old(self)@ }),
    {
        self.comlynx_cable_present = comlynx_cable_present;
    }

    /// The CPU's pins.
    pub fn cpu_pins(&self) -> (r: CPUPins)
        ensures
            r@ == self@.cpu_pins,
    {
        self.cpu_pins
    }

    /// The CPU.
    pub fn cpu(&self) -> (r: &M6502)
        ensures
            r@ == self@.cpu,
    {
        &self.cpu
    }

    /// The registers.
    pub fn registers(&self) -> (r: &MikeyRegisters)
        ensures
            r@ == self@.registers,
    {
        &self.registers
    }

    /// The timers.
    pub fn timers(&self) -> (r: &Timers)
        ensures
            r@ == self@.timers,
    {
        &self.timers
    }

    /// The video state.
    pub fn video(&self) -> (r: &Video)
        ensures
            r@ == self@.video,
    {
        &self.video
    }

    /// Who owns Mikey's side of the bus.
    pub fn bus_owner(&self) -> (r: MikeyBusOwner)
        ensures
            r == self@.bus_owner,
    {
        self.bus_owner
    }
}


impl Default for Mikey {
    fn default() -> (r: Self)
        ensures
            mikey_wf(r@),
            r@.ticks == 0,
            r@.bus_owner == MikeyBusOwner::Cpu,
    {
        Mikey::new()
    }
}

/// Writing INTRST acknowledges the interrupts written: INTSET keeps only
/// the others, and INTRST holds what was written.
pub proof fn lemma_intrst_acknowledges(g: MikeyRegistersView, v: u8)
    requires
        mikey_regs_wf(g),
    ensures
        mreg(intrst_written(g, v).data, INTSET) == mreg(g.data, INTSET) & !v,
        mreg(intrst_written(g, v).data, INTRST) == v,
{
}
} // verus!
