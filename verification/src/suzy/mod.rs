//! Suzy: the sprite engine, the math unit and the joystick.
pub mod math;
pub mod registers;
pub mod renderer;
pub mod sprite_data;

use vstd::prelude::*;
use crate::bus::{Bus, BusStatus, BusView};
use crate::consts::{
    COLLADRL, COLLBASL, COLLOFFL, HOFFL, HPOSSTRTL, HSIZOFFL, MATHA, MATHB, MATHC, MATHD, MATHE, MATHF, MATHH, MATHK,
    MATHM, MATHP, PROCADRL, RAM_PAGE_READ_TICKS, RCART0, RCART1, SCBADRL, SCBNEXTL, SPRDLINEL, SPRDOFFL, SPRGO,
    SPRGO_GO, SPRHSIZL, SPRSYS, SPRVPOSL, SPRVSIZL, STRETCHL, SUZ_ADDR, VPOSSTRTL, SUZYBUSEN, SUZY_BUS_GRANT_TICKS,
    SUZY_READ_TICKS, SUZY_WRITE_TICKS, SWITCHES, TILTACUML, TILTL, TMPADRL, VIDADRL, VIDBASL, VOFFL, VSIZACUML,
    VSIZOFFL,
};
use crate::ram::{Ram, RamView, ram_wf};
use crate::suzy::math::{
    divide, divided, mathc_written, matha_written, mathe_written, mathm_written, multiplied, multiply, set_matha,
    set_mathc, set_mathe, set_mathm,
};
use crate::suzy::registers::{
    Joystick, SprSysW, Switches, SuzyRegisters, SuzyRegistersView, TaskStep, put_word, reg_at, sprsys_written, suzy_reg,
    word_at,
};
use crate::suzy::renderer::{
    Renderer, RendererView, collides, records_collision, render_post, renderer_wf, sprite_end_ram, step_ready,
};

verus! {

/// The bus instruction Suzy is carrying out.
#[derive(Debug, Clone, Copy, PartialEq, Eq, Structural)]
pub enum SuzyInstruction {
    Idle,
    Peek,
    Poke,
    PeekNothing,
    PokeNothing,
    PokeMathA,
    PokeMathC,
    PokeMathE,
    PokeMathM,
    PokeAndResetNext,
    PeekSprSys,
    PokeSprSys,
}

/// The task Suzy is carrying out.
#[derive(Debug, Clone, Copy, PartialEq, Eq, Structural)]
pub enum SuzyTask {
    Idle,
    SpriteGo,
    EndSprite,
    Multiply,
    Divide,
}

/// Suzy: its tick count, the state of the bus hand-over to Mikey, the
/// sprite engine and the registers.
pub struct Suzy {
    ticks: u64,
    request_monitor: bool,
    pending_bus_request_ticks: i8,
    renderer: Renderer,
    registers: SuzyRegisters,
}

/// The abstract state of [`Suzy`].
pub struct SuzyView {
    pub ticks: u64,
    pub request_monitor: bool,
    pub pending_bus_request_ticks: i8,
    pub renderer: RendererView,
    pub registers: SuzyRegistersView,
}

impl View for Suzy {
    type V = SuzyView;

    closed spec fn view(&self) -> SuzyView {
        SuzyView {
            ticks: self.ticks,
            request_monitor: self.request_monitor,
            pending_bus_request_ticks: self.pending_bus_request_ticks,
            renderer: self.renderer@,
            registers: self.registers@,
        }
    }
}

/// Whether the signs of the math operands are -1, 0 or 1.
pub open spec fn signs_ok(g: SuzyRegistersView) -> bool {
    &&& -1 <= g.sign_ab <= 1
    &&& -1 <= g.sign_cd <= 1
    &&& -1 <= g.tmp_sign_cd <= 1
}

/// Whether a Suzy state is consistent: a consistent sprite engine, 256
/// registers, operand signs of -1, 0 or 1, a bus countdown between -1 (none)
/// and the grant delay, and a register address for the bus instruction that
/// needs one.
pub open spec fn suzy_wf(s: SuzyView) -> bool {
    let g = s.registers;
    &&& renderer_wf(s.renderer)
    &&& g.data.len() == 0x100
    &&& signs_ok(g)
    &&& -1 <= s.pending_bus_request_ticks <= SUZY_BUS_GRANT_TICKS
    &&& (g.ir == SuzyInstruction::Peek || g.ir == SuzyInstruction::Poke) ==> suzy_reg(g.addr_r)
    &&& g.ir == SuzyInstruction::PokeAndResetNext ==> SUZ_ADDR <= g.addr_r < 0xfcff
}

/// Whether a write to `a` is to the low byte of a word register, which also
/// clears its high byte.
pub open spec fn resets_high_byte(a: u16) -> bool {
    a == TMPADRL || a == TILTACUML || a == HOFFL || a == VOFFL || a == VIDBASL || a == COLLBASL || a == VIDADRL
        || a == COLLADRL || a == SCBNEXTL || a == SPRDLINEL || a == HPOSSTRTL || a == VPOSSTRTL || a == SPRHSIZL
        || a == SPRVSIZL || a == STRETCHL || a == TILTL || a == SPRDOFFL || a == SPRVPOSL || a == COLLOFFL || a
        == VSIZACUML || a == HSIZOFFL || a == VSIZOFFL || a == SCBADRL || a == PROCADRL || a == MATHB || a == MATHD
        || a == MATHF || a == MATHH || a == MATHK || a == MATHP
}

/// Suzy with the bus instruction `ir` started and its delay set.
pub open spec fn with_ir(s: SuzyView, ir: SuzyInstruction, delay: u16) -> SuzyView {
    SuzyView { registers: SuzyRegistersView { ir, ir_ticks_delay: delay, ..s.registers }, ..s }
}

/// A read of the bus address starting: the cartridge ports go to the
/// cartridge, SPRSYS and the registers are read after the read delay, and
/// other addresses read as nothing.
pub open spec fn peeked(s: SuzyView, b: BusView) -> (SuzyView, BusView) {
    let a = b.addr;
    if a == RCART0 {
        (s, BusView { status: BusStatus::PeekCart0, ..b })
    } else if a == RCART1 {
        (s, BusView { status: BusStatus::PeekCart1, ..b })
    } else if a == SPRSYS {
        (with_ir(s, SuzyInstruction::PeekSprSys, SUZY_READ_TICKS), b)
    } else if TMPADRL <= a <= SWITCHES {
        let s1 = with_ir(s, SuzyInstruction::Peek, SUZY_READ_TICKS);
        (SuzyView { registers: SuzyRegistersView { addr_r: a, ..s1.registers }, ..s1 }, b)
    } else {
        (with_ir(s, SuzyInstruction::PeekNothing, SUZY_READ_TICKS), b)
    }
}

/// A write of the bus data to the bus address starting: the cartridge ports
/// go to the cartridge, the math operands that start or prepare an
/// operation, the low bytes of word registers, SPRSYS and the other
/// registers are written after the write delay, other addresses ignore it.
pub open spec fn poked(s: SuzyView, b: BusView) -> (SuzyView, BusView) {
    let a = b.addr;
    let g = s.registers;
    let with_data = SuzyView { registers: SuzyRegistersView { data_r: b.data as u16, ..g }, ..s };
    if a == RCART0 {
        (s, BusView { status: BusStatus::PokeCart0, ..b })
    } else if a == RCART1 {
        (s, BusView { status: BusStatus::PokeCart1, ..b })
    } else if a == MATHA {
        (with_ir(with_data, SuzyInstruction::PokeMathA, SUZY_WRITE_TICKS), b)
    } else if a == MATHC {
        (with_ir(with_data, SuzyInstruction::PokeMathC, SUZY_WRITE_TICKS), b)
    } else if a == MATHE {
        (with_ir(with_data, SuzyInstruction::PokeMathE, SUZY_WRITE_TICKS), b)
    } else if a == MATHM {
        (with_ir(with_data, SuzyInstruction::PokeMathM, SUZY_WRITE_TICKS), b)
    } else if resets_high_byte(a) {
        let s1 = with_ir(with_data, SuzyInstruction::PokeAndResetNext, SUZY_WRITE_TICKS);
        (SuzyView { registers: SuzyRegistersView { addr_r: a, ..s1.registers }, ..s1 }, b)
    } else if a == SPRSYS {
        (with_ir(with_data, SuzyInstruction::PokeSprSys, SUZY_WRITE_TICKS), b)
    } else if TMPADRL <= a <= SWITCHES {
        let s1 = with_ir(with_data, SuzyInstruction::Poke, SUZY_WRITE_TICKS);
        (SuzyView { registers: SuzyRegistersView { addr_r: a, ..s1.registers }, ..s1 }, b)
    } else {
        (with_ir(s, SuzyInstruction::PokeNothing, SUZY_WRITE_TICKS), b)
    }
}

/// Suzy and the bus once Suzy grants the bus to Mikey.
pub open spec fn granted(s: SuzyView, b: BusView) -> (SuzyView, BusView) {
    (SuzyView { request_monitor: false, ..s }, BusView { grant: true, request: false, ..b })
}

/// The bus hand-over for one tick: with its bus enable off Suzy ignores
/// requests and grants the bus; otherwise a new request starts the grant
/// delay, whose end grants the bus.
pub open spec fn bus_managed(s: SuzyView, b: BusView) -> (SuzyView, BusView) {
    if reg_at(s.registers.data, SUZYBUSEN) != 1 {
        granted(s, b)
    } else {
        bus_request_managed(s, b)
    }
}

/// The bus hand-over with the bus enable on: a new request starts the grant
/// delay, whose end grants the bus.
pub open spec fn bus_request_managed(s: SuzyView, b: BusView) -> (SuzyView, BusView) {
    let s1 = if b.request && b.request != s.request_monitor {
        SuzyView { pending_bus_request_ticks: SUZY_BUS_GRANT_TICKS, request_monitor: b.request, ..s }
    } else {
        s
    };
    if s1.pending_bus_request_ticks == -1 {
        (s1, b)
    } else if s1.pending_bus_request_ticks == 0 {
        granted(SuzyView { pending_bus_request_ticks: -1i8, ..s1 }, b)
    } else {
        (SuzyView { pending_bus_request_ticks: (s1.pending_bus_request_ticks - 1) as i8, ..s1 }, b)
    }
}

/// Carrying out the bus instruction: the write or read it stands for, the
/// math operations that writes start, and the bus told that the access is
/// done.
pub open spec fn ir_done(s: SuzyView, b: BusView) -> (SuzyView, BusView) {
    let g = s.registers;
    let idle = SuzyRegistersView { ir: SuzyInstruction::Idle, ..g };
    let poke_done = BusView { status: BusStatus::PokeDone, ..b };
    match g.ir {
        SuzyInstruction::PokeAndResetNext => (
            SuzyView { registers: SuzyRegistersView { data: put_word(g.data, g.addr_r, g.data_r & 0xff), ..idle }, ..s },
            poke_done,
        ),
        SuzyInstruction::PokeMathA => (
            SuzyView { registers: SuzyRegistersView { task: SuzyTask::Multiply, ..matha_written(g) }, ..s },
            poke_done,
        ),
        SuzyInstruction::PokeMathC => (SuzyView { registers: mathc_written(g), ..s }, poke_done),
        SuzyInstruction::PokeMathE => (
            SuzyView { registers: SuzyRegistersView { task: SuzyTask::Divide, ..mathe_written(g) }, ..s },
            poke_done,
        ),
        SuzyInstruction::PokeMathM => (SuzyView { registers: mathm_written(g), ..s }, poke_done),
        SuzyInstruction::Peek => (
            SuzyView { registers: idle, ..s },
            BusView { data: reg_at(g.data, g.addr_r), status: BusStatus::PeekDone, ..b },
        ),
        SuzyInstruction::Poke => (
            SuzyView { registers: SuzyRegistersView { data: g.data.update(g.addr_r - SUZ_ADDR, g.data_r as u8), ..idle }, ..s },
            poke_done,
        ),
        SuzyInstruction::PeekSprSys => (
            SuzyView { registers: idle, ..s },
            BusView { data: g.sprsys_r, status: BusStatus::PeekDone, ..b },
        ),
        SuzyInstruction::PokeSprSys => (
            SuzyView { registers: SuzyRegistersView { ir: SuzyInstruction::Idle, ..sprsys_written(g, g.data_r as u8) }, ..s },
            poke_done,
        ),
        SuzyInstruction::PeekNothing => (
            SuzyView { registers: idle, ..s },
            BusView { data: 0xff, status: BusStatus::PeekDone, ..b },
        ),
        SuzyInstruction::PokeNothing => (SuzyView { registers: idle, ..s }, poke_done),
        SuzyInstruction::Idle => (SuzyView { registers: idle, ..s }, b),
    }
}

/// The bus instruction for one tick: its delay counts down, then it is
/// carried out.
pub open spec fn ir_managed(s: SuzyView, b: BusView) -> (SuzyView, BusView) {
    let g = s.registers;
    if g.ir_ticks_delay > 0 {
        (SuzyView { registers: SuzyRegistersView { ir_ticks_delay: (g.ir_ticks_delay - 1) as u16, ..g }, ..s }, b)
    } else if g.ir == SuzyInstruction::Idle {
        (s, b)
    } else {
        ir_done(s, b)
    }
}

/// `g` with no task.
pub open spec fn task_reset(g: SuzyRegistersView) -> SuzyRegistersView {
    SuzyRegistersView { task: SuzyTask::Idle, task_step: TaskStep::Idle, ..g }
}

/// A step of the sprite engine (only while Suzy holds the bus): the task
/// ends, clearing SPRGO, once the engine is done.
pub open spec fn sprite_go_post(s: SuzyView, b: BusView, m: Seq<u8>, n: SuzyView, nm: Seq<u8>) -> bool {
    let g = s.registers;
    if b.grant {
        n == s && nm == m
    } else {
        exists|g1: SuzyRegistersView|
            #[trigger] render_post(s.renderer, g, m, n.renderer, g1, nm) && n == (SuzyView {
                renderer: n.renderer,
                registers: if g1.task == SuzyTask::Idle {
                    task_reset(
                        SuzyRegistersView {
                            data: g1.data.update(SPRGO - SUZ_ADDR, reg_at(g1.data, SPRGO) & !1u8),
                            ..g1
                        },
                    )
                } else {
                    g1
                },
                ..s
            })
    }
}

/// The end of a sprite (only while Suzy holds the bus): its collision is
/// recorded, the task waits for the RAM writes and the engine goes on.
pub open spec fn end_sprite_post(s: SuzyView, b: BusView, m: Seq<u8>, n: SuzyView, nm: Seq<u8>) -> bool {
    let g = s.registers;
    if b.grant {
        n == s && nm == m
    } else {
        let writes: u16 = if collides(g) && records_collision(g) { 1 } else { 0 };
        &&& nm == sprite_end_ram(s.renderer, g, m)
        &&& n == (SuzyView {
            registers: SuzyRegistersView {
                task_step: if g.sprsys_w & 0x02 == 0x02 {
                    crate::suzy::registers::next_task_step(g.task_step)
                } else {
                    TaskStep::InitializePainting
                },
                task_ticks_delay: (writes * 3) as u16,
                task: SuzyTask::SpriteGo,
                ..g
            },
            ..s
        })
    }
}

/// One step of the task, given the bus: a step of the sprite engine, the
/// end of a sprite, or a math operation.
pub open spec fn task_processed(s: SuzyView, b: BusView, m: Seq<u8>, n: SuzyView, nm: Seq<u8>) -> bool {
    let g = s.registers;
    match g.task {
        SuzyTask::SpriteGo => sprite_go_post(s, b, m, n, nm),
        SuzyTask::EndSprite => end_sprite_post(s, b, m, n, nm),
        SuzyTask::Multiply => nm == m && n == (SuzyView { registers: task_reset(multiplied(g)), ..s }),
        SuzyTask::Divide => nm == m && n == (SuzyView { registers: task_reset(divided(g)), ..s }),
        SuzyTask::Idle => nm == m && n == (SuzyView { registers: task_reset(g), ..s }),
    }
}

/// Suzy once SPRGO starts the sprite engine, when no task runs.
pub open spec fn sprites_started(s: SuzyView) -> SuzyView {
    let g = s.registers;
    if g.task == SuzyTask::Idle && reg_at(g.data, SPRGO) & SPRGO_GO != 0 {
        SuzyView {
            registers: SuzyRegistersView {
                sprsys_w: g.sprsys_w & !0x02u8,
                task: SuzyTask::SpriteGo,
                task_step: TaskStep::InitializePainting,
                ..g
            },
            ..s
        }
    } else {
        s
    }
}

/// The task for one tick: its delay counts down; otherwise SPRGO may start
/// the sprite engine, the task takes a step, and the bus is granted to
/// Mikey once Suzy holds it with nothing to do.
pub open spec fn task_managed(s: SuzyView, b: BusView, m: Seq<u8>, n: SuzyView, nb: BusView, nm: Seq<u8>) -> bool {
    let g = s.registers;
    if g.task_ticks_delay > 0 {
        &&& n == (SuzyView {
            registers: SuzyRegistersView { task_ticks_delay: (g.task_ticks_delay - 1) as u16, ..g },
            ..s
        })
        &&& nb == b
        &&& nm == m
    } else {
        let s1 = sprites_started(s);
        let s2 = SuzyView { request_monitor: s1.request_monitor, ..n };
        &&& if s1.registers.task != SuzyTask::Idle {
            task_processed(s1, b, m, s2, nm)
        } else {
            s2 == s1 && nm == m
        }
        &&& if !b.grant && s2.registers.task == SuzyTask::Idle {
            (n, nb) == granted(s2, b)
        } else {
            n == s2 && nb == b
        }
    }
}

/// Whether a tick can run: a sprite step that it takes has the bytes it
/// reads.
pub open spec fn tick_ready(o: SuzyView, ob: BusView) -> bool {
    let (s1, b1) = bus_managed(SuzyView { ticks: o.ticks.wrapping_add(1), ..o }, ob);
    let (s2, b2) = ir_managed(s1, b1);
    let s3 = sprites_started(s2);
    (s1.pending_bus_request_ticks < 0 && reg_at(s1.registers.data, SUZYBUSEN) == 1
        && s2.registers.task_ticks_delay == 0 && s3.registers.task == SuzyTask::SpriteGo && !b2.grant)
        ==> step_ready(s3.renderer, s3.registers)
}

/// One tick of Suzy: the bus hand-over, then (while Suzy holds the bus and
/// is enabled on it) the bus instruction and the task.
pub open spec fn tick_post(o: SuzyView, ob: BusView, om: Seq<u8>, n: SuzyView, nb: BusView, nm: Seq<u8>) -> bool {
    let (s1, b1) = bus_managed(SuzyView { ticks: o.ticks.wrapping_add(1), ..o }, ob);
    if s1.pending_bus_request_ticks >= 0 || reg_at(s1.registers.data, SUZYBUSEN) != 1 {
        n == s1 && nb == b1 && nm == om
    } else {
        let (s2, b2) = ir_managed(s1, b1);
        task_managed(s2, b2, om, n, nb, nm)
    }
}

/// The ticks of one page-mode read of RAM.
fn page_ticks() -> (r: u16)
    ensures
        r == 3,
{
    RAM_PAGE_READ_TICKS as u16
}

impl Suzy {
    /// Suzy at power-on: enabled on the bus, no bus request seen, nothing
    /// under way.
    pub fn new() -> (r: Self)
        ensures
            suzy_wf(r@),
            r@.ticks == 0,
            r@.request_monitor,
            r@.pending_bus_request_ticks == -1,
            r@.renderer == Renderer::new_view(),
            reg_at(r@.registers.data, SUZYBUSEN) == 1,
            r@.registers.ir == SuzyInstruction::Idle,
            r@.registers.task == SuzyTask::Idle,
            r@.registers.task_step == TaskStep::Idle,
            r@.registers.ir_ticks_delay == 0,
            r@.registers.task_ticks_delay == 0,
            r@.registers.sprsys_r == 0,
            r@.registers.sprsys_w == 0,
    {
        let mut s = Self {
            ticks: 0,
            request_monitor: true,
            pending_bus_request_ticks: -1,
            renderer: Renderer::new(),
            registers: SuzyRegisters::new(),
        };
        s.registers.set_data(SUZYBUSEN, 1);
        s
    }

    /// Sets the joystick register.
    pub fn set_joystick(&mut self, joy: u8)
        requires
            suzy_wf(old(self)@),
        ensures
            suzy_wf(final(self)@),
            final(self)@ == (SuzyView {
                registers: SuzyRegistersView {
                    data: old(self)@.registers.data.update(crate::consts::JOYSTICK - SUZ_ADDR, joy),
                    ..old(self)@.registers
                },
                ..old(self)@
            }),
    {
        self.registers.set_data(crate::consts::JOYSTICK, joy);
    }

    /// Sets the switches register.
    pub fn set_switches(&mut self, sw: u8)
        requires
            suzy_wf(old(self)@),
        ensures
            suzy_wf(final(self)@),
            final(self)@ == (SuzyView {
                registers: SuzyRegistersView {
                    data: old(self)@.registers.data.update(SWITCHES - SUZ_ADDR, sw),
                    ..old(self)@.registers
                },
                ..old(self)@
            }),
    {
        self.registers.set_data(SWITCHES, sw);
    }

    /// The joystick register as buttons.
    pub fn joystick(&self) -> (r: Joystick)
        ensures
            r@ == reg_at(self@.registers.data, crate::consts::JOYSTICK),
    {
        self.registers.joystick()
    }

    /// The switches register as switches (none where it holds an undefined
    /// bit).
    pub fn switches(&self) -> (r: Switches)
        ensures
            r@ == (if reg_at(self@.registers.data, SWITCHES) & !0x07u8 == 0 {
                reg_at(self@.registers.data, SWITCHES)
            } else {
                0
            }),
    {
        self.registers.switches()
    }

    /// The register at `addr`.
    pub fn get(&self, addr: u16) -> (r: u8)
        requires
            suzy_reg(addr),
        ensures
            r == reg_at(self@.registers.data, addr),
    {
        self.registers.data(addr)
    }

    /// Starts a read of the bus address, one of Suzy's.
    pub fn peek(&mut self, bus: &mut Bus)
        requires
            suzy_wf(old(self)@),
            suzy_reg(old(bus)@.addr),
        ensures
            suzy_wf(final(self)@),
            (final(self)@, final(bus)@) == peeked(old(self)@, old(bus)@),
    {
        let a = bus.addr();
        if a == RCART0 {
            bus.set_status(BusStatus::PeekCart0);
        } else if a == RCART1 {
            bus.set_status(BusStatus::PeekCart1);
        } else if a == SPRSYS {
            self.registers.set_ir(SuzyInstruction::PeekSprSys);
            self.registers.set_ir_ticks_delay(SUZY_READ_TICKS);
        } else if TMPADRL <= a && a <= SWITCHES {
            self.registers.set_addr_r(a);
            self.registers.set_ir(SuzyInstruction::Peek);
            self.registers.set_ir_ticks_delay(SUZY_READ_TICKS);
        } else {
            self.registers.set_ir(SuzyInstruction::PeekNothing);
            self.registers.set_ir_ticks_delay(SUZY_READ_TICKS);
        }
    }

    /// Starts a write of the bus data to the bus address, one of Suzy's.
    pub fn poke(&mut self, bus: &mut Bus)
        requires
            suzy_wf(old(self)@),
            suzy_reg(old(bus)@.addr),
        ensures
            suzy_wf(final(self)@),
            (final(self)@, final(bus)@) == poked(old(self)@, old(bus)@),
    {
        let a = bus.addr();
        if a == RCART0 {
            bus.set_status(BusStatus::PokeCart0);
        } else if a == RCART1 {
            bus.set_status(BusStatus::PokeCart1);
        } else if a == MATHA {
            self.registers.set_data_r(bus.data() as u16);
            self.registers.set_ir(SuzyInstruction::PokeMathA);
            self.registers.set_ir_ticks_delay(SUZY_WRITE_TICKS);
        } else if a == MATHC {
            self.registers.set_data_r(bus.data() as u16);
            self.registers.set_ir(SuzyInstruction::PokeMathC);
            self.registers.set_ir_ticks_delay(SUZY_WRITE_TICKS);
        } else if a == MATHE {
            self.registers.set_data_r(bus.data() as u16);
            self.registers.set_ir(SuzyInstruction::PokeMathE);
            self.registers.set_ir_ticks_delay(SUZY_WRITE_TICKS);
        } else if a == MATHM {
            self.registers.set_data_r(bus.data() as u16);
            self.registers.set_ir(SuzyInstruction::PokeMathM);
            self.registers.set_ir_ticks_delay(SUZY_WRITE_TICKS);
        } else if a == TMPADRL || a == TILTACUML || a == HOFFL || a == VOFFL || a == VIDBASL || a == COLLBASL || a
            == VIDADRL || a == COLLADRL || a == SCBNEXTL || a == SPRDLINEL || a == HPOSSTRTL || a == VPOSSTRTL || a
            == SPRHSIZL || a == SPRVSIZL || a == STRETCHL || a == TILTL || a == SPRDOFFL || a == SPRVPOSL || a
            == COLLOFFL || a == VSIZACUML || a == HSIZOFFL || a == VSIZOFFL || a == SCBADRL || a == PROCADRL || a
            == MATHB || a == MATHD || a == MATHF || a == MATHH || a == MATHK || a == MATHP {
            self.registers.set_addr_r(a);
            self.registers.set_data_r(bus.data() as u16);
            self.registers.set_ir(SuzyInstruction::PokeAndResetNext);
            self.registers.set_ir_ticks_delay(SUZY_WRITE_TICKS);
        } else if a == SPRSYS {
            self.registers.set_data_r(bus.data() as u16);
            self.registers.set_ir(SuzyInstruction::PokeSprSys);
            self.registers.set_ir_ticks_delay(SUZY_WRITE_TICKS);
        } else if TMPADRL <= a && a <= SWITCHES {
            self.registers.set_addr_r(a);
            self.registers.set_data_r(bus.data() as u16);
            self.registers.set_ir(SuzyInstruction::Poke);
            self.registers.set_ir_ticks_delay(SUZY_WRITE_TICKS);
        } else {
            self.registers.set_ir(SuzyInstruction::PokeNothing);
            self.registers.set_ir_ticks_delay(SUZY_WRITE_TICKS);
        }
    }

    /// Whether Suzy holds the bus (Mikey has not been granted it).
    fn has_bus(&self, bus: &Bus) -> (r: bool)
        ensures
            r == !bus@.grant,
    {
        !bus.grant()
    }

    /// Grants the bus to Mikey.
    fn grant_bus(&mut self, bus: &mut Bus)
        ensures
            (final(self)@, final(bus)@) == granted(old(self)@, old(bus)@),
    {
        bus.set_grant(true);
        bus.set_request(false);
        self.request_monitor = false;
    }

    /// The bus hand-over for one tick.
    fn manage_bus(&mut self, bus: &mut Bus)
        requires
            suzy_wf(old(self)@),
        ensures
            suzy_wf(final(self)@),
            (final(self)@, final(bus)@) == bus_managed(old(self)@, old(bus)@),
    {
        // "Suzy has a bus enable flip-flop. If it is on, Suzy can participate
        // in the bus game. If not, then Suzy ignores bus request and always
        // provides bus grant."
        if self.registers.data(SUZYBUSEN) != 1 {
            self.grant_bus(bus);
            return;
        }
        let req = bus.request();
        if req && req != self.request_monitor {
            self.pending_bus_request_ticks = SUZY_BUS_GRANT_TICKS;
            self.request_monitor = req;
        }
        if self.pending_bus_request_ticks == -1 {
        } else if self.pending_bus_request_ticks == 0 {
            self.pending_bus_request_ticks = -1;
            self.grant_bus(bus);
        } else {
            self.pending_bus_request_ticks = self.pending_bus_request_ticks - 1;
        }
    }

    /// Carries out the bus instruction.
    fn process_ir_step(&mut self, bus: &mut Bus)
        requires
            suzy_wf(old(self)@),
        ensures
            suzy_wf(final(self)@),
            (final(self)@, final(bus)@) == ir_done(old(self)@, old(bus)@),
    {
        match self.registers.ir() {
            SuzyInstruction::PokeAndResetNext => {
                let a = self.registers.addr_r();
                let v = self.registers.data_r() & 0xff;
                self.registers.set_u16(a, v);
                self.registers.reset_ir();
                bus.set_status(BusStatus::PokeDone);
            },
            SuzyInstruction::PokeMathA => {
                set_matha(&mut self.registers);
                self.registers.set_task(SuzyTask::Multiply);
                bus.set_status(BusStatus::PokeDone);
            },
            SuzyInstruction::PokeMathC => {
                set_mathc(&mut self.registers);
                self.registers.reset_ir();
                bus.set_status(BusStatus::PokeDone);
            },
            SuzyInstruction::PokeMathE => {
                set_mathe(&mut self.registers);
                self.registers.set_task(SuzyTask::Divide);
                bus.set_status(BusStatus::PokeDone);
            },
            SuzyInstruction::PokeMathM => {
                set_mathm(&mut self.registers);
                self.registers.reset_ir();
                bus.set_status(BusStatus::PokeDone);
            },
            SuzyInstruction::Peek => {
                bus.set_data(self.registers.data(self.registers.addr_r()));
                self.registers.reset_ir();
                bus.set_status(BusStatus::PeekDone);
            },
            SuzyInstruction::Poke => {
                let a = self.registers.addr_r();
                let v = self.registers.data_r() as u8;
                self.registers.set_data(a, v);
                self.registers.reset_ir();
                bus.set_status(BusStatus::PokeDone);
            },
            SuzyInstruction::PeekSprSys => {
                bus.set_data(self.registers.sprsys());
                self.registers.reset_ir();
                bus.set_status(BusStatus::PeekDone);
            },
            SuzyInstruction::PokeSprSys => {
                let v = self.registers.data_r() as u8;
                self.registers.set_sprsys(v);
                self.registers.reset_ir();
                bus.set_status(BusStatus::PokeDone);
            },
            SuzyInstruction::PeekNothing => {
                bus.set_data(0xFF);
                self.registers.reset_ir();
                bus.set_status(BusStatus::PeekDone);
            },
            SuzyInstruction::PokeNothing => {
                self.registers.reset_ir();
                bus.set_status(BusStatus::PokeDone);
            },
            SuzyInstruction::Idle => self.registers.reset_ir(),
        }
    }

    /// The bus instruction for one tick.
    fn manage_ir(&mut self, bus: &mut Bus)
        requires
            suzy_wf(old(self)@),
        ensures
            suzy_wf(final(self)@),
            (final(self)@, final(bus)@) == ir_managed(old(self)@, old(bus)@),
    {
        if self.registers.ir_ticks_delay() > 0 {
            self.registers.dec_ir_ticks_delay();
            return ;
        }
        if self.registers.ir() == SuzyInstruction::Idle {
            return ;
        }
        self.process_ir_step(bus);
    }

    /// A step of the sprite engine.
    fn sprite_go(&mut self, bus: &mut Bus, dma_ram: &mut Ram)
        requires
            suzy_wf(old(self)@),
            ram_wf(old(dma_ram)@),
            !old(bus)@.grant ==> step_ready(old(self)@.renderer, old(self)@.registers),
        ensures
            suzy_wf(final(self)@),
            ram_wf(final(dma_ram)@),
            final(dma_ram)@ == (RamView { data: final(dma_ram)@.data, ..old(dma_ram)@ }),
            final(bus)@ == old(bus)@,
            sprite_go_post(old(self)@, old(bus)@, old(dma_ram)@.data, final(self)@, final(dma_ram)@.data),
    {
        if !self.has_bus(bus) {
            return ;
        }
        let ghost o = self@;
        let done = self.renderer.render_sprites(&mut self.registers, dma_ram);
        let ghost g1 = self.registers@;
        proof {
            self.registers.lemma_len();
        }
        if done {
            let go = self.registers.data(SPRGO) & !(1u8);
            self.registers.set_data(SPRGO, go);
            self.registers.reset_task();
        }
        proof {
            assert(render_post(o.renderer, o.registers, old(dma_ram)@.data, self@.renderer, g1, dma_ram@.data));
        }
    }

    /// The end of a sprite.
    fn end_sprite(&mut self, bus: &mut Bus, dma_ram: &mut Ram)
        requires
            suzy_wf(old(self)@),
            ram_wf(old(dma_ram)@),
        ensures
            suzy_wf(final(self)@),
            ram_wf(final(dma_ram)@),
            final(dma_ram)@ == (RamView { data: final(dma_ram)@.data, ..old(dma_ram)@ }),
            final(bus)@ == old(bus)@,
            end_sprite_post(old(self)@, old(bus)@, old(dma_ram)@.data, final(self)@, final(dma_ram)@.data),
    {
        if !self.has_bus(bus) {
            return ;
        }
        let mem_access_count = self.renderer.sprite_end(&mut self.registers, dma_ram);
        self.registers.set_task_ticks_delay(mem_access_count * page_ticks());
        self.registers.set_task(SuzyTask::SpriteGo);
    }

    /// One step of the task.
    fn process_task_step(&mut self, bus: &mut Bus, dma_ram: &mut Ram)
        requires
            suzy_wf(old(self)@),
            ram_wf(old(dma_ram)@),
            old(self)@.registers.task == SuzyTask::SpriteGo && !old(bus)@.grant ==> step_ready(
                old(self)@.renderer,
                old(self)@.registers,
            ),
        ensures
            suzy_wf(final(self)@),
            ram_wf(final(dma_ram)@),
            final(dma_ram)@ == (RamView { data: final(dma_ram)@.data, ..old(dma_ram)@ }),
            final(bus)@ == old(bus)@,
            task_processed(old(self)@, old(bus)@, old(dma_ram)@.data, final(self)@, final(dma_ram)@.data),
    {
        match self.registers.task() {
            SuzyTask::SpriteGo => self.sprite_go(bus, dma_ram),
            SuzyTask::EndSprite => self.end_sprite(bus, dma_ram),
            SuzyTask::Multiply => {
                multiply(&mut self.registers);
                self.registers.reset_task();
            },
            SuzyTask::Divide => {
                divide(&mut self.registers);
                self.registers.reset_task();
            },
            SuzyTask::Idle => self.registers.reset_task(),
        }
    }

    /// The task for one tick.
    fn manage_task(&mut self, bus: &mut Bus, dma_ram: &mut Ram)
        requires
            suzy_wf(old(self)@),
            ram_wf(old(dma_ram)@),
            ({
                let s3 = sprites_started(old(self)@);
                old(self)@.registers.task_ticks_delay == 0 && s3.registers.task == SuzyTask::SpriteGo
                    && !old(bus)@.grant ==> step_ready(s3.renderer, s3.registers)
            }),
        ensures
            suzy_wf(final(self)@),
            ram_wf(final(dma_ram)@),
            final(dma_ram)@ == (RamView { data: final(dma_ram)@.data, ..old(dma_ram)@ }),
            task_managed(old(self)@, old(bus)@, old(dma_ram)@.data, final(self)@, final(bus)@, final(dma_ram)@.data),
    {
        if self.registers.task_ticks_delay() > 0 {
            self.registers.dec_task_ticks_delay();
            return ;
        }
        if self.registers.task() == SuzyTask::Idle && self.registers.data(SPRGO) & SPRGO_GO != 0 {
            self.registers.sprsys_w_disable_flag(SprSysW::sprite_to_stop());
            self.registers.set_task(SuzyTask::SpriteGo);
            self.registers.set_task_step(TaskStep::InitializePainting);
        }
        if self.registers.task() != SuzyTask::Idle {
            self.process_task_step(bus, dma_ram);
        }
        if self.has_bus(bus) && self.registers.task() == SuzyTask::Idle {
            self.grant_bus(bus);
        }
    }

    /// One tick of Suzy.
    pub fn tick(&mut self, bus: &mut Bus, dma_ram: &mut Ram)
        requires
            suzy_wf(old(self)@),
            ram_wf(old(dma_ram)@),
            tick_ready(old(self)@, old(bus)@),
        ensures
            suzy_wf(final(self)@),
            ram_wf(final(dma_ram)@),
            final(dma_ram)@ == (RamView { data: final(dma_ram)@.data, ..old(dma_ram)@ }),
            tick_post(old(self)@, old(bus)@, old(dma_ram)@.data, final(self)@, final(bus)@, final(dma_ram)@.data),
    {
        self.ticks = self.ticks.wrapping_add(1);
        self.manage_bus(bus);
        if self.pending_bus_request_ticks >= 0 || self.registers.data(SUZYBUSEN) != 1 {
            return ;
        }
        self.manage_ir(bus);
        self.manage_task(bus, dma_ram);
    }

    /// The registers.
    pub fn registers(&self) -> (r: &SuzyRegisters)
        ensures
            r@ == self@.registers,
    {
        &self.registers
    }

    /// Whether the player set the Lynx up for left-handed play.
    pub fn left_handed(&self) -> (r: bool)
        ensures
            r == (self@.registers.sprsys_w & 0x08 == 0x08),
    {
        self.registers.sprsys_w_is_flag_set(SprSysW::left_handed())
    }
}

impl Default for Suzy {
    fn default() -> (r: Self)
        ensures
            suzy_wf(r@),
            r@.pending_bus_request_ticks == -1,
            reg_at(r@.registers.data, SUZYBUSEN) == 1,
    {
        Suzy::new()
    }
}


/// A write to the low byte of a word register, once carried out, leaves
/// the word equal to the byte written: the high byte is cleared.
pub proof fn lemma_low_byte_write(s: SuzyView, b: BusView)
    requires
        suzy_wf(s),
        resets_high_byte(b.addr),
    ensures
        ({
            let (s1, b1) = poked(s, b);
            let (s2, b2) = ir_done(s1, b1);
            &&& word_at(s2.registers.data, b.addr) == b.data as u16
            &&& b2.status == BusStatus::PokeDone
        }),
{
    let (s1, b1) = poked(s, b);
    crate::suzy::registers::lemma_word_roundtrip(s1.registers.data, b.addr, (b.data as u16) & 0xff);
    let d = b.data;
    assert((d as u16) & 0xff == d as u16) by (bit_vector);
}
} // verus!
