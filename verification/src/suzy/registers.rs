//! Suzy's register file, with the math unit's operands and the state of
//! the current bus instruction and task.
use vstd::prelude::*;
use crate::consts::{
    SUZ_ADDR, MATHA, MATHB, MATHC, MATHD, MATHE, MATHF, MATHG, MATHH, MATHJ, MATHK, MATHL, MATHM, MATHN,
    MATHP, HSIZOFFL, JOYSTICK, PROCADRL, SCBADRL, SCBNEXTL, SPRCOLL, SPRCTL0, SPRCTL0_BPP, SPRCTL1,
    SPRCTL1_DRAW_QUAD, SPRDLINEL, SUZYHREV, SWITCHES, TILTACUML, VIDADRL, VSIZOFFL,
};
use crate::mikey::cpu::with_flag;
use crate::suzy::{SuzyInstruction, SuzyTask};

verus! {


/// SPRSYS as read: the state of the math unit and the sprite engine.
#[derive(Clone, Copy, Debug, PartialEq, Eq, Structural)]
pub struct SprSysR {
    bits: u8,
}

impl View for SprSysR {
    type V = u8;

    closed spec fn view(&self) -> u8 {
        self.bits
    }
}

impl SprSysR {
    /// The set of all defined flags.
    pub open spec fn spec_all() -> u8 {
        0xff
    }

    /// A multiply or divide is in progress.
    pub fn math_working() -> (r: Self)
        ensures
            r@ == 0x80,
    {
        Self { bits: 0x80 }
    }

    /// The accumulator overflowed or a division by zero happened.
    pub fn math_warning() -> (r: Self)
        ensures
            r@ == 0x40,
    {
        Self { bits: 0x40 }
    }

    /// Carry out of the accumulator.
    pub fn math_carry() -> (r: Self)
        ensures
            r@ == 0x20,
    {
        Self { bits: 0x20 }
    }

    /// Vertical stretching is on.
    pub fn v_stretching() -> (r: Self)
        ensures
            r@ == 0x10,
    {
        Self { bits: 0x10 }
    }

    /// The display is flipped for left-handed play.
    pub fn left_handed() -> (r: Self)
        ensures
            r@ == 0x8,
    {
        Self { bits: 0x8 }
    }

    /// An unsafe access happened.
    pub fn unsafe_acces() -> (r: Self)
        ensures
            r@ == 0x4,
    {
        Self { bits: 0x4 }
    }

    /// The sprite engine stops after the current sprite.
    pub fn sprite_to_stop() -> (r: Self)
        ensures
            r@ == 0x2,
    {
        Self { bits: 0x2 }
    }

    /// The sprite engine is busy.
    pub fn sprite_working() -> (r: Self)
        ensures
            r@ == 0x1,
    {
        Self { bits: 0x1 }
    }

    /// No flag set.
    pub fn empty() -> (r: Self)
        ensures
            r@ == 0,
    {
        Self { bits: 0 }
    }

    /// The flags as a byte.
    pub fn bits(&self) -> (r: u8)
        ensures
            r == self@,
    {
        self.bits
    }

    /// The flags of `bits`, or nothing where `bits` holds an undefined flag.
    pub fn from_bits(bits: u8) -> (r: Option<Self>)
        ensures
            r is Some,
            r matches Some(f) ==> f@ == bits,
    {
        proof { crate::mikey::cpu::lemma_full_byte(bits); }
        if bits & !0xffu8 == 0 {
            Some(Self { bits })
        } else {
            None
        }
    }

    /// The flags of `bits`, undefined flags dropped.
    pub fn from_bits_truncate(bits: u8) -> (r: Self)
        ensures
            r@ == bits & 0xffu8,
    {
        Self { bits: bits & 0xffu8 }
    }

    /// The flags of `bits`, undefined flags kept.
    pub fn from_bits_retain(bits: u8) -> (r: Self)
        ensures
            r@ == bits,
    {
        Self { bits }
    }

    /// Whether every flag of `other` is set.
    pub fn contains(&self, other: Self) -> (r: bool)
        ensures
            r == (self@ & other@ == other@),
    {
        self.bits & other.bits == other.bits
    }

    /// Whether no flag is set.
    pub fn is_empty(&self) -> (r: bool)
        ensures
            r == (self@ == 0),
    {
        self.bits == 0
    }

    /// The flags set in either.
    pub fn union(self, other: Self) -> (r: Self)
        ensures
            r@ == self@ | other@,
    {
        Self { bits: self.bits | other.bits }
    }

    /// The flags set in both.
    pub fn intersection(self, other: Self) -> (r: Self)
        ensures
            r@ == self@ & other@,
    {
        Self { bits: self.bits & other.bits }
    }

    /// The flags of `self` not in `other`.
    pub fn difference(self, other: Self) -> (r: Self)
        ensures
            r@ == self@ & !other@,
    {
        Self { bits: self.bits & !other.bits }
    }

    /// Sets (`value`) or clears the flags of `other`.
    pub fn set(&mut self, other: Self, value: bool)
        ensures
            final(self)@ == (if value { old(self)@ | other@ } else { old(self)@ & !other@ }),
    {
        if value {
            self.bits = self.bits | other.bits;
        } else {
            self.bits = self.bits & !other.bits;
        }
    }
}

/// SPRSYS as written: how the math unit and the sprite engine work.
#[derive(Clone, Copy, Debug, PartialEq, Eq, Structural)]
pub struct SprSysW {
    bits: u8,
}

impl View for SprSysW {
    type V = u8;

    closed spec fn view(&self) -> u8 {
        self.bits
    }
}

impl SprSysW {
    /// The set of all defined flags.
    pub open spec fn spec_all() -> u8 {
        0xff
    }

    /// Multiplies are signed.
    pub fn sign_math() -> (r: Self)
        ensures
            r@ == 0x80,
    {
        Self { bits: 0x80 }
    }

    /// Products are added to the accumulator.
    pub fn accumulate() -> (r: Self)
        ensures
            r@ == 0x40,
    {
        Self { bits: 0x40 }
    }

    /// No collision detection.
    pub fn no_collide() -> (r: Self)
        ensures
            r@ == 0x20,
    {
        Self { bits: 0x20 }
    }

    /// Vertical stretching.
    pub fn v_stretching() -> (r: Self)
        ensures
            r@ == 0x10,
    {
        Self { bits: 0x10 }
    }

    /// Left-handed display.
    pub fn left_handed() -> (r: Self)
        ensures
            r@ == 0x8,
    {
        Self { bits: 0x8 }
    }

    /// Clears the unsafe-access flag.
    pub fn clear_unsafe() -> (r: Self)
        ensures
            r@ == 0x4,
    {
        Self { bits: 0x4 }
    }

    /// Stop after the current sprite.
    pub fn sprite_to_stop() -> (r: Self)
        ensures
            r@ == 0x2,
    {
        Self { bits: 0x2 }
    }

    /// Unused.
    pub fn no_effect() -> (r: Self)
        ensures
            r@ == 0x1,
    {
        Self { bits: 0x1 }
    }

    /// No flag set.
    pub fn empty() -> (r: Self)
        ensures
            r@ == 0,
    {
        Self { bits: 0 }
    }

    /// The flags as a byte.
    pub fn bits(&self) -> (r: u8)
        ensures
            r == self@,
    {
        self.bits
    }

    /// The flags of `bits`, or nothing where `bits` holds an undefined flag.
    pub fn from_bits(bits: u8) -> (r: Option<Self>)
        ensures
            r is Some,
            r matches Some(f) ==> f@ == bits,
    {
        proof { crate::mikey::cpu::lemma_full_byte(bits); }
        if bits & !0xffu8 == 0 {
            Some(Self { bits })
        } else {
            None
        }
    }

    /// The flags of `bits`, undefined flags dropped.
    pub fn from_bits_truncate(bits: u8) -> (r: Self)
        ensures
            r@ == bits & 0xffu8,
    {
        Self { bits: bits & 0xffu8 }
    }

    /// The flags of `bits`, undefined flags kept.
    pub fn from_bits_retain(bits: u8) -> (r: Self)
        ensures
            r@ == bits,
    {
        Self { bits }
    }

    /// Whether every flag of `other` is set.
    pub fn contains(&self, other: Self) -> (r: bool)
        ensures
            r == (self@ & other@ == other@),
    {
        self.bits & other.bits == other.bits
    }

    /// Whether no flag is set.
    pub fn is_empty(&self) -> (r: bool)
        ensures
            r == (self@ == 0),
    {
        self.bits == 0
    }

    /// The flags set in either.
    pub fn union(self, other: Self) -> (r: Self)
        ensures
            r@ == self@ | other@,
    {
        Self { bits: self.bits | other.bits }
    }

    /// The flags set in both.
    pub fn intersection(self, other: Self) -> (r: Self)
        ensures
            r@ == self@ & other@,
    {
        Self { bits: self.bits & other.bits }
    }

    /// The flags of `self` not in `other`.
    pub fn difference(self, other: Self) -> (r: Self)
        ensures
            r@ == self@ & !other@,
    {
        Self { bits: self.bits & !other.bits }
    }

    /// Sets (`value`) or clears the flags of `other`.
    pub fn set(&mut self, other: Self, value: bool)
        ensures
            final(self)@ == (if value { old(self)@ | other@ } else { old(self)@ & !other@ }),
    {
        if value {
            self.bits = self.bits | other.bits;
        } else {
            self.bits = self.bits & !other.bits;
        }
    }
}

/// The joystick and buttons.
#[derive(Clone, Copy, Debug, PartialEq, Eq, Structural)]
pub struct Joystick {
    bits: u8,
}

impl View for Joystick {
    type V = u8;

    closed spec fn view(&self) -> u8 {
        self.bits
    }
}

impl Joystick {
    /// The set of all defined flags.
    pub open spec fn spec_all() -> u8 {
        0xff
    }

    /// Up.
    pub fn up() -> (r: Self)
        ensures
            r@ == 0x40,
    {
        Self { bits: 0x40 }
    }

    /// Down.
    pub fn down() -> (r: Self)
        ensures
            r@ == 0x80,
    {
        Self { bits: 0x80 }
    }

    /// Left.
    pub fn left() -> (r: Self)
        ensures
            r@ == 0x10,
    {
        Self { bits: 0x10 }
    }

    /// Right.
    pub fn right() -> (r: Self)
        ensures
            r@ == 0x20,
    {
        Self { bits: 0x20 }
    }

    /// Option 1.
    pub fn option_1() -> (r: Self)
        ensures
            r@ == 0x8,
    {
        Self { bits: 0x8 }
    }

    /// Option 2.
    pub fn option_2() -> (r: Self)
        ensures
            r@ == 0x4,
    {
        Self { bits: 0x4 }
    }

    /// Inner button (A).
    pub fn inside() -> (r: Self)
        ensures
            r@ == 0x2,
    {
        Self { bits: 0x2 }
    }

    /// Outer button (B).
    pub fn outside() -> (r: Self)
        ensures
            r@ == 0x1,
    {
        Self { bits: 0x1 }
    }

    /// No flag set.
    pub fn empty() -> (r: Self)
        ensures
            r@ == 0,
    {
        Self { bits: 0 }
    }

    /// The flags as a byte.
    pub fn bits(&self) -> (r: u8)
        ensures
            r == self@,
    {
        self.bits
    }

    /// The flags of `bits`, or nothing where `bits` holds an undefined flag.
    pub fn from_bits(bits: u8) -> (r: Option<Self>)
        ensures
            r is Some,
            r matches Some(f) ==> f@ == bits,
    {
        proof { crate::mikey::cpu::lemma_full_byte(bits); }
        if bits & !0xffu8 == 0 {
            Some(Self { bits })
        } else {
            None
        }
    }

    /// The flags of `bits`, undefined flags dropped.
    pub fn from_bits_truncate(bits: u8) -> (r: Self)
        ensures
            r@ == bits & 0xffu8,
    {
        Self { bits: bits & 0xffu8 }
    }

    /// The flags of `bits`, undefined flags kept.
    pub fn from_bits_retain(bits: u8) -> (r: Self)
        ensures
            r@ == bits,
    {
        Self { bits }
    }

    /// Whether every flag of `other` is set.
    pub fn contains(&self, other: Self) -> (r: bool)
        ensures
            r == (self@ & other@ == other@),
    {
        self.bits & other.bits == other.bits
    }

    /// Whether no flag is set.
    pub fn is_empty(&self) -> (r: bool)
        ensures
            r == (self@ == 0),
    {
        self.bits == 0
    }

    /// The flags set in either.
    pub fn union(self, other: Self) -> (r: Self)
        ensures
            r@ == self@ | other@,
    {
        Self { bits: self.bits | other.bits }
    }

    /// The flags set in both.
    pub fn intersection(self, other: Self) -> (r: Self)
        ensures
            r@ == self@ & other@,
    {
        Self { bits: self.bits & other.bits }
    }

    /// The flags of `self` not in `other`.
    pub fn difference(self, other: Self) -> (r: Self)
        ensures
            r@ == self@ & !other@,
    {
        Self { bits: self.bits & !other.bits }
    }

    /// Sets (`value`) or clears the flags of `other`.
    pub fn set(&mut self, other: Self, value: bool)
        ensures
            final(self)@ == (if value { old(self)@ | other@ } else { old(self)@ & !other@ }),
    {
        if value {
            self.bits = self.bits | other.bits;
        } else {
            self.bits = self.bits & !other.bits;
        }
    }
}

/// The other switches: the cartridge strobes and pause.
#[derive(Clone, Copy, Debug, PartialEq, Eq, Structural)]
pub struct Switches {
    bits: u8,
}

impl View for Switches {
    type V = u8;

    closed spec fn view(&self) -> u8 {
        self.bits
    }
}

impl Switches {
    /// The set of all defined flags.
    pub open spec fn spec_all() -> u8 {
        0x7
    }

    /// Cartridge bank 1 not selected.
    pub fn cart1_inactive() -> (r: Self)
        ensures
            r@ == 0x4,
    {
        Self { bits: 0x4 }
    }

    /// Cartridge bank 0 not selected.
    pub fn cart0_inactive() -> (r: Self)
        ensures
            r@ == 0x2,
    {
        Self { bits: 0x2 }
    }

    /// Pause.
    pub fn pause() -> (r: Self)
        ensures
            r@ == 0x1,
    {
        Self { bits: 0x1 }
    }

    /// No flag set.
    pub fn empty() -> (r: Self)
        ensures
            r@ == 0,
    {
        Self { bits: 0 }
    }

    /// The flags as a byte.
    pub fn bits(&self) -> (r: u8)
        ensures
            r == self@,
    {
        self.bits
    }

    /// The flags of `bits`, or nothing where `bits` holds an undefined flag.
    pub fn from_bits(bits: u8) -> (r: Option<Self>)
        ensures
            r is Some <==> bits & !0x7u8 == 0,
            r matches Some(f) ==> f@ == bits,
    {
        
        if bits & !0x7u8 == 0 {
            Some(Self { bits })
        } else {
            None
        }
    }

    /// The flags of `bits`, undefined flags dropped.
    pub fn from_bits_truncate(bits: u8) -> (r: Self)
        ensures
            r@ == bits & 0x7u8,
    {
        Self { bits: bits & 0x7u8 }
    }

    /// The flags of `bits`, undefined flags kept.
    pub fn from_bits_retain(bits: u8) -> (r: Self)
        ensures
            r@ == bits,
    {
        Self { bits }
    }

    /// Whether every flag of `other` is set.
    pub fn contains(&self, other: Self) -> (r: bool)
        ensures
            r == (self@ & other@ == other@),
    {
        self.bits & other.bits == other.bits
    }

    /// Whether no flag is set.
    pub fn is_empty(&self) -> (r: bool)
        ensures
            r == (self@ == 0),
    {
        self.bits == 0
    }

    /// The flags set in either.
    pub fn union(self, other: Self) -> (r: Self)
        ensures
            r@ == self@ | other@,
    {
        Self { bits: self.bits | other.bits }
    }

    /// The flags set in both.
    pub fn intersection(self, other: Self) -> (r: Self)
        ensures
            r@ == self@ & other@,
    {
        Self { bits: self.bits & other.bits }
    }

    /// The flags of `self` not in `other`.
    pub fn difference(self, other: Self) -> (r: Self)
        ensures
            r@ == self@ & !other@,
    {
        Self { bits: self.bits & !other.bits }
    }

    /// Sets (`value`) or clears the flags of `other`.
    pub fn set(&mut self, other: Self, value: bool)
        ensures
            final(self)@ == (if value { old(self)@ | other@ } else { old(self)@ & !other@ }),
    {
        if value {
            self.bits = self.bits | other.bits;
        } else {
            self.bits = self.bits & !other.bits;
        }
    }
}


/// The steps of the sprite engine's task.
#[derive(Debug, Clone, Copy, PartialEq, Eq, Structural)]
pub enum TaskStep {
    Idle,
    InitializePainting,
    LoadSCB,
    InitializeQuadrants,
    InitializeQuadrant,
    RenderLinesStart,
    RenderPixelHeightStart,
    RenderPixelsInLine,
    RenderPixelheightEnd,
    RenderLinesEnd,
    NextQuadrant,
    SpriteEnd,
    MaxSteps,
}

/// The step after `s`: steps are numbered 0 to 12 and counted modulo 12,
/// so the sprite's end is followed by idle.
pub open spec fn next_task_step(s: TaskStep) -> TaskStep {
    match s {
        TaskStep::Idle => TaskStep::InitializePainting,
        TaskStep::InitializePainting => TaskStep::LoadSCB,
        TaskStep::LoadSCB => TaskStep::InitializeQuadrants,
        TaskStep::InitializeQuadrants => TaskStep::InitializeQuadrant,
        TaskStep::InitializeQuadrant => TaskStep::RenderLinesStart,
        TaskStep::RenderLinesStart => TaskStep::RenderPixelHeightStart,
        TaskStep::RenderPixelHeightStart => TaskStep::RenderPixelsInLine,
        TaskStep::RenderPixelsInLine => TaskStep::RenderPixelheightEnd,
        TaskStep::RenderPixelheightEnd => TaskStep::RenderLinesEnd,
        TaskStep::RenderLinesEnd => TaskStep::NextQuadrant,
        TaskStep::NextQuadrant => TaskStep::SpriteEnd,
        TaskStep::SpriteEnd => TaskStep::Idle,
        TaskStep::MaxSteps => TaskStep::InitializePainting,
    }
}

/// The registers once SPRSYS is written with `w`: the written flags are
/// kept and vertical stretching, left-handedness and stop-after-sprite are
/// reflected into SPRSYS as read; the unsafe-access flag is cleared when
/// asked.
pub open spec fn sprsys_written(g: SuzyRegistersView, w: u8) -> SuzyRegistersView {
    let r1 = if w & 0x10 == 0x10 { g.sprsys_r | 0x10 } else { g.sprsys_r };
    let r2 = if w & 0x08 == 0x08 { r1 | 0x08 } else { r1 };
    let r3 = if w & 0x02 == 0x02 { r2 | 0x02 } else { r2 };
    let r4 = if w & 0x04 == 0x04 { r3 & !0x04u8 } else { r3 };
    SuzyRegistersView { sprsys_w: w, sprsys_r: r4, ..g }
}

/// `j` with the buttons `b1` and `b2` exchanged.
pub fn joystick_swap(j: Joystick, b1: Joystick, b2: Joystick) -> (r: Joystick)
    ensures
        r@ == with_flag(with_flag(j@, b1@, j@ & b2@ == b2@), b2@, j@ & b1@ == b1@),
{
    let mut j = j;
    let b1_set = j.contains(b1);
    let b2_set = j.contains(b2);
    j.set(b1, b2_set);
    j.set(b2, b1_set);
    j
}

/// Whether `addr` is one of Suzy's 256 register addresses.
pub open spec fn suzy_reg(addr: u16) -> bool {
    SUZ_ADDR <= addr && addr <= 0xfcff
}

/// The register at `addr`.
pub open spec fn reg_at(d: Seq<u8>, addr: u16) -> u8 {
    d[addr - SUZ_ADDR]
}

/// The little-endian word at `addr`.
pub open spec fn word_at(d: Seq<u8>, addr: u16) -> u16 {
    (reg_at(d, addr) + 256 * reg_at(d, (addr + 1) as u16)) as u16
}

/// The little-endian long word at `addr`.
pub open spec fn long_at(d: Seq<u8>, addr: u16) -> u32 {
    (reg_at(d, addr) + 0x100 * reg_at(d, (addr + 1) as u16) + 0x10000 * reg_at(d, (addr + 2) as u16)
        + 0x1000000 * reg_at(d, (addr + 3) as u16)) as u32
}

/// `d` with the word `v` stored little-endian at `addr`.
pub open spec fn put_word(d: Seq<u8>, addr: u16, v: u16) -> Seq<u8> {
    d.update(addr - SUZ_ADDR, (v % 256) as u8).update(addr + 1 - SUZ_ADDR, (v / 256) as u8)
}

/// `d` with the long word `v` stored little-endian at `addr`.
pub open spec fn put_long(d: Seq<u8>, addr: u16, v: u32) -> Seq<u8> {
    d.update(addr - SUZ_ADDR, (v % 0x100) as u8).update(addr + 1 - SUZ_ADDR, ((v / 0x100) % 0x100) as u8).update(
        addr + 2 - SUZ_ADDR,
        ((v / 0x10000) % 0x100) as u8,
    ).update(addr + 3 - SUZ_ADDR, (v / 0x1000000) as u8)
}

proof fn lemma_word_bytes(lo: u8, hi: u8, v: u16)
    by (bit_vector)
    ensures
        (lo as u16 | ((hi as u16) << 8u16)) == lo as u16 + 256 * hi as u16,
        ((v & 0xff) as u8) == v % 256,
        (((v & 0xff00) >> 8u16) as u8) == v / 256,
{
}

proof fn lemma_long_bytes(b0: u8, b1: u8, b2: u8, b3: u8, v: u32)
    by (bit_vector)
    ensures
        (b0 as u32 | ((b1 as u32) << 8u32) | ((b2 as u32) << 16u32) | ((b3 as u32) << 24u32)) == b0 as u32 + 0x100
            * b1 as u32 + 0x10000 * b2 as u32 + 0x1000000 * b3 as u32,
        ((v & 0xff) as u8) == v % 0x100,
        (((v & 0xff00) >> 8u32) as u8) == (v / 0x100) % 0x100,
        (((v & 0x00ff_0000) >> 16u32) as u8) == (v / 0x10000) % 0x100,
        (((v & 0xff00_0000) >> 24u32) as u8) == v / 0x1000000,
        v % 0x100 + 0x100 * ((v / 0x100) % 0x100) + 0x10000 * ((v / 0x10000) % 0x100) + 0x1000000 * (v
            / 0x1000000) == v,
{
}

proof fn lemma_signed_bytes(v: i16)
    by (bit_vector)
    ensures
        ((v & 0xff) as u8) == (v as u16) % 256,
        ((((v as u16) & 0xff00) >> 8u16) as u8) == (v as u16) / 256,
        (v as u16) as i16 == v,
{
}

/// A word stored at `addr` reads back as the same word.
pub proof fn lemma_word_roundtrip(d: Seq<u8>, addr: u16, v: u16)
    requires
        d.len() == 0x100,
        suzy_reg(addr),
        suzy_reg((addr + 1) as u16),
        addr + 1 <= 0xffff,
    ensures
        word_at(put_word(d, addr, v), addr) == v,
{
}

/// A long word stored at `addr` reads back as the same long word.
pub proof fn lemma_long_roundtrip(d: Seq<u8>, addr: u16, v: u32)
    requires
        d.len() == 0x100,
        suzy_reg(addr),
        suzy_reg((addr + 3) as u16),
        addr + 3 <= 0xffff,
    ensures
        long_at(put_long(d, addr, v), addr) == v,
{
    let e = put_long(d, addr, v);
    assert(reg_at(e, addr) == v % 0x100);
    assert(reg_at(e, (addr + 1) as u16) == (v / 0x100) % 0x100);
    assert(reg_at(e, (addr + 2) as u16) == (v / 0x10000) % 0x100);
    assert(reg_at(e, (addr + 3) as u16) == v / 0x1000000);
    lemma_long_bytes(0, 0, 0, 0, v);
}

/// A signed word stored at `addr` reads back as the same signed word.
pub proof fn lemma_signed_word_roundtrip(d: Seq<u8>, addr: u16, v: i16)
    requires
        d.len() == 0x100,
        suzy_reg(addr),
        suzy_reg((addr + 1) as u16),
        addr + 1 <= 0xffff,
    ensures
        word_at(put_word(d, addr, v as u16), addr) as i16 == v,
{
    lemma_word_roundtrip(d, addr, v as u16);
    lemma_signed_bytes(v);
}

/// Suzy's registers: the 256 byte-wide hardware registers, the split state
/// of SPRSYS, the signs of the math operands, and the instruction and task
/// in progress.
#[derive(Clone)]
pub struct SuzyRegisters {
    data: [u8; 0x100],
    ir_ticks_delay: u16,
    task_ticks_delay: u16,
    sprsys_r: SprSysR,
    sprsys_w: SprSysW,
    sign_ab: i8,
    sign_cd: i8,
    tmp_cd: u16,
    tmp_sign_cd: i8,
    ir: SuzyInstruction,
    addr_r: u16,
    data_r: u16,
    task: SuzyTask,
    task_step: TaskStep,
}

/// The abstract state of [`SuzyRegisters`].
pub struct SuzyRegistersView {
    pub data: Seq<u8>,
    pub ir_ticks_delay: u16,
    pub task_ticks_delay: u16,
    pub sprsys_r: u8,
    pub sprsys_w: u8,
    pub sign_ab: i8,
    pub sign_cd: i8,
    pub tmp_cd: u16,
    pub tmp_sign_cd: i8,
    pub ir: SuzyInstruction,
    pub addr_r: u16,
    pub data_r: u16,
    pub task: SuzyTask,
    pub task_step: TaskStep,
}

impl View for SuzyRegisters {
    type V = SuzyRegistersView;

    closed spec fn view(&self) -> SuzyRegistersView {
        SuzyRegistersView {
            data: self.data@,
            ir_ticks_delay: self.ir_ticks_delay,
            task_ticks_delay: self.task_ticks_delay,
            sprsys_r: self.sprsys_r@,
            sprsys_w: self.sprsys_w@,
            sign_ab: self.sign_ab,
            sign_cd: self.sign_cd,
            tmp_cd: self.tmp_cd,
            tmp_sign_cd: self.tmp_sign_cd,
            ir: self.ir,
            addr_r: self.addr_r,
            data_r: self.data_r,
            task: self.task,
            task_step: self.task_step,
        }
    }
}

impl SuzyRegisters {
    /// The register file never changes size.
    pub proof fn lemma_len(&self)
        ensures
            self@.data.len() == 0x100,
    {
        vstd::array::array_len_matches_n(&self.data);
    }

    /// Registers at power-on: hardware revision 1, math operands and results
    /// at their all-ones reset value, both signs positive, the size offsets at
    /// 0x7f and both cartridge strobes inactive.
    pub fn new() -> (r: Self)
        ensures
            r@.data.len() == 0x100,
            reg_at(r@.data, SUZYHREV) == 1,
            long_at(r@.data, MATHD) == 0xffff_ffff,
            long_at(r@.data, MATHH) == 0xffff_ffff,
            long_at(r@.data, MATHM) == 0xffff_ffff,
            word_at(r@.data, MATHP) == 0xffff,
            reg_at(r@.data, HSIZOFFL) == 0x7f,
            reg_at(r@.data, VSIZOFFL) == 0x7f,
            reg_at(r@.data, SWITCHES) == 0b110,
            r@.sign_ab == 1,
            r@.sign_cd == 1,
            r@.tmp_sign_cd == 0,
            r@.tmp_cd == 0,
            r@.sprsys_r == 0,
            r@.sprsys_w == 0,
            r@.ir_ticks_delay == 0,
            r@.task_ticks_delay == 0,
            r@.ir == SuzyInstruction::Idle,
            r@.task == SuzyTask::Idle,
            r@.task_step == TaskStep::Idle,
            r@.addr_r == 0,
            r@.data_r == 0,
    {
        let mut r = Self {
            data: [0; 0x100],
            ir_ticks_delay: 0,
            task_ticks_delay: 0,
            sprsys_r: SprSysR::empty(),
            sprsys_w: SprSysW::empty(),
            sign_ab: 0,
            sign_cd: 0,
            ir: SuzyInstruction::Idle,
            tmp_cd: 0,
            tmp_sign_cd: 0,
            addr_r: 0,
            data_r: 0,
            task: SuzyTask::Idle,
            task_step: TaskStep::Idle,
        };
        r.set_data(SUZYHREV, 1);
        r.set_abcd(0xffff_ffff);
        r.set_efgh(0xffff_ffff);
        r.set_jklm(0xffff_ffff);
        r.set_np(0xffff);
        r.set_sign_ab(1);
        r.set_sign_cd(1);
        r.set_data(HSIZOFFL, 0x7f);
        r.set_data(VSIZOFFL, 0x7f);
        r.set_data(SWITCHES, 0b110);
        r
    }

    /// The register at `addr`.
    pub fn data(&self, addr: u16) -> (r: u8)
        requires
            suzy_reg(addr),
        ensures
            r == reg_at(self@.data, addr),
    {
        self.data[(addr - SUZ_ADDR) as usize]
    }

    /// Writes the register at `addr`.
    pub fn set_data(&mut self, addr: u16, data: u8)
        requires
            suzy_reg(addr),
        ensures
            final(self)@ == (SuzyRegistersView { data: old(self)@.data.update(addr - SUZ_ADDR, data), ..old(self)@ }),
    {
        self.data[(addr - SUZ_ADDR) as usize] = data;
    }

    /// The little-endian word at `addr`.
    pub fn u16(&self, addr: u16) -> (r: u16)
        requires
            suzy_reg(addr),
            suzy_reg((addr + 1) as u16),
            addr + 1 <= 0xffff,
        ensures
            r == word_at(self@.data, addr),
    {
        let lo = self.data(addr);
        let hi = self.data(addr + 1);
        proof {
            lemma_word_bytes(lo, hi, 0);
        }
        lo as u16 | ((hi as u16) << 8u16)
    }

    /// The little-endian word at `addr`, as a signed number.
    pub fn i16(&self, addr: u16) -> (r: i16)
        requires
            suzy_reg(addr),
            suzy_reg((addr + 1) as u16),
            addr + 1 <= 0xffff,
        ensures
            r == word_at(self@.data, addr) as i16,
    {
        self.u16(addr) as i16
    }

    /// The little-endian long word at `addr`.
    pub fn u32(&self, addr: u16) -> (r: u32)
        requires
            suzy_reg(addr),
            suzy_reg((addr + 3) as u16),
            addr + 3 <= 0xffff,
        ensures
            r == long_at(self@.data, addr),
    {
        let b0 = self.data(addr);
        let b1 = self.data(addr + 1);
        let b2 = self.data(addr + 2);
        let b3 = self.data(addr + 3);
        proof {
            lemma_long_bytes(b0, b1, b2, b3, 0);
        }
        b0 as u32 | ((b1 as u32) << 8u32) | ((b2 as u32) << 16u32) | ((b3 as u32) << 24u32)
    }

    /// Stores the word `data` little-endian at `addr`.
    pub fn set_u16(&mut self, addr: u16, data: u16)
        requires
            suzy_reg(addr),
            suzy_reg((addr + 1) as u16),
            addr + 1 <= 0xffff,
        ensures
            final(self)@ == (SuzyRegistersView { data: put_word(old(self)@.data, addr, data), ..old(self)@ }),
    {
        proof {
            lemma_word_bytes(0, 0, data);
        }
        self.set_data(addr, (data & 0xff) as u8);
        self.set_data(addr + 1, ((data & 0xff00) >> 8u16) as u8);
    }

    /// Stores the signed word `data` little-endian at `addr`.
    pub fn set_i16(&mut self, addr: u16, data: i16)
        requires
            suzy_reg(addr),
            suzy_reg((addr + 1) as u16),
            addr + 1 <= 0xffff,
        ensures
            final(self)@ == (SuzyRegistersView { data: put_word(old(self)@.data, addr, data as u16), ..old(self)@ }),
    {
        proof {
            lemma_signed_bytes(data);
        }
        self.set_data(addr, (data & 0xff) as u8);
        self.set_data(addr + 1, (((data as u16) & 0xff00) >> 8u16) as u8);
    }

    /// Stores the long word `data` little-endian at `addr`.
    pub fn set_u32(&mut self, addr: u16, data: u32)
        requires
            suzy_reg(addr),
            suzy_reg((addr + 3) as u16),
            addr + 3 <= 0xffff,
        ensures
            final(self)@ == (SuzyRegistersView { data: put_long(old(self)@.data, addr, data), ..old(self)@ }),
    {
        proof {
            lemma_long_bytes(0, 0, 0, 0, data);
        }
        self.set_data(addr, (data & 0xff) as u8);
        self.set_data(addr + 1, ((data & 0xff00) >> 8u32) as u8);
        self.set_data(addr + 2, ((data & 0x00ff_0000) >> 16u32) as u8);
        self.set_data(addr + 3, ((data & 0xff00_0000) >> 24u32) as u8);
    }

    /// The math register EFGH.
    pub fn efgh(&self) -> (r: u32)
        ensures
            r == long_at(self@.data, MATHH),
    {
        self.u32(MATHH)
    }

    /// The math register JKLM.
    pub fn jklm(&self) -> (r: u32)
        ensures
            r == long_at(self@.data, MATHM),
    {
        self.u32(MATHM)
    }

    /// The math register ABCD.
    pub fn abcd(&self) -> (r: u32)
        ensures
            r == long_at(self@.data, MATHD),
    {
        self.u32(MATHD)
    }

    /// The math register NP.
    pub fn np(&self) -> (r: u16)
        ensures
            r == word_at(self@.data, MATHP),
    {
        self.u16(MATHP)
    }

    /// The math register AB.
    pub fn ab(&self) -> (r: u16)
        ensures
            r == word_at(self@.data, MATHB),
    {
        self.u16(MATHB)
    }

    /// The math register CD.
    pub fn cd(&self) -> (r: u16)
        ensures
            r == word_at(self@.data, MATHD),
    {
        self.u16(MATHD)
    }

    /// Writes the math register AB.
    pub fn set_ab(&mut self, v: u16)
        ensures
            final(self)@ == (SuzyRegistersView { data: put_word(old(self)@.data, MATHB, v), ..old(self)@ }),
    {
        self.set_u16(MATHB, v);
    }

    /// Writes the math register CD.
    pub fn set_cd(&mut self, v: u16)
        ensures
            final(self)@ == (SuzyRegistersView { data: put_word(old(self)@.data, MATHD, v), ..old(self)@ }),
    {
        self.set_u16(MATHD, v);
    }

    /// Writes the math register ABCD.
    pub fn set_abcd(&mut self, v: u32)
        ensures
            final(self)@ == (SuzyRegistersView { data: put_long(old(self)@.data, MATHD, v), ..old(self)@ }),
    {
        self.set_u32(MATHD, v);
    }

    /// Writes the math register EFGH.
    pub fn set_efgh(&mut self, v: u32)
        ensures
            final(self)@ == (SuzyRegistersView { data: put_long(old(self)@.data, MATHH, v), ..old(self)@ }),
    {
        self.set_u32(MATHH, v);
    }

    /// Writes the math register JKLM.
    pub fn set_jklm(&mut self, v: u32)
        ensures
            final(self)@ == (SuzyRegistersView { data: put_long(old(self)@.data, MATHM, v), ..old(self)@ }),
    {
        self.set_u32(MATHM, v);
    }

    /// Writes the math register NP.
    pub fn set_np(&mut self, v: u16)
        ensures
            final(self)@ == (SuzyRegistersView { data: put_word(old(self)@.data, MATHP, v), ..old(self)@ }),
    {
        self.set_u16(MATHP, v);
    }

    /// SPRSYS as read.
    pub fn sprsys(&self) -> (r: u8)
        ensures
            r == self@.sprsys_r,
    {
        self.sprsys_r.bits()
    }

    /// Writes the joystick register.
    pub fn set_joystick(&mut self, joy: Joystick)
        ensures
            final(self)@ == (SuzyRegistersView { data: old(self)@.data.update(JOYSTICK - SUZ_ADDR, joy@), ..old(self)@ }),
    {
        self.set_data(JOYSTICK, joy.bits());
    }

    /// Writes the switches register.
    pub fn set_switches(&mut self, sw: Switches)
        ensures
            final(self)@ == (SuzyRegistersView { data: old(self)@.data.update(SWITCHES - SUZ_ADDR, sw@), ..old(self)@ }),
    {
        self.set_data(SWITCHES, sw.bits());
    }

    /// The joystick register as buttons (all off where it holds an undefined bit).
    pub fn joystick(&self) -> (r: Joystick)
        ensures
            r@ == reg_at(self@.data, JOYSTICK),
    {
        match Joystick::from_bits(self.data(JOYSTICK)) {
            Option::None => Joystick::empty(),
            Option::Some(v) => v,
        }
    }

    /// The switches register as switches (none where it holds an undefined bit).
    pub fn switches(&self) -> (r: Switches)
        ensures
            r@ == (if reg_at(self@.data, SWITCHES) & !0x07u8 == 0 { reg_at(self@.data, SWITCHES) } else { 0 }),
    {
        match Switches::from_bits(self.data(SWITCHES)) {
            Option::None => Switches::empty(),
            Option::Some(v) => v,
        }
    }

    /// Writes SPRSYS: the written flags are kept (none where `v` holds an
    /// undefined bit) and reflected into SPRSYS as read: vertical stretching,
    /// left-handedness and stop-after-sprite are set, and the unsafe-access
    /// flag is cleared when asked.
    pub fn set_sprsys(&mut self, v: u8)
        ensures
            final(self)@ == sprsys_written(old(self)@, v),
    {
        self.sprsys_w = match SprSysW::from_bits(v) {
            Option::Some(bits) => bits,
            Option::None => SprSysW::empty(),
        };
        if self.sprsys_w_is_flag_set(SprSysW::v_stretching()) {
            self.sprsys_r_enable_flag(SprSysR::v_stretching());
        }
        if self.sprsys_w_is_flag_set(SprSysW::left_handed()) {
            self.sprsys_r_enable_flag(SprSysR::left_handed());
        }
        if self.sprsys_w_is_flag_set(SprSysW::sprite_to_stop()) {
            self.sprsys_r_enable_flag(SprSysR::sprite_to_stop());
        }
        if self.sprsys_w_is_flag_set(SprSysW::clear_unsafe()) {
            self.sprsys_r_disable_flag(SprSysR::unsafe_acces());
        }
    }

    /// Sets the read-side SPRSYS flags of `flag`.
    pub fn sprsys_r_enable_flag(&mut self, flag: SprSysR)
        ensures
            final(self)@ == (SuzyRegistersView { sprsys_r: old(self)@.sprsys_r | flag@, ..old(self)@ }),
    {
        self.sprsys_r.set(flag, true);
    }

    /// Clears the read-side SPRSYS flags of `flag`.
    pub fn sprsys_r_disable_flag(&mut self, flag: SprSysR)
        ensures
            final(self)@ == (SuzyRegistersView { sprsys_r: old(self)@.sprsys_r & !flag@, ..old(self)@ }),
    {
        self.sprsys_r.set(flag, false);
    }

    /// Whether all read-side SPRSYS flags of `flag` are set.
    pub fn sprsys_r_is_flag_set(&self, flag: SprSysR) -> (r: bool)
        ensures
            r == (self@.sprsys_r & flag@ == flag@),
    {
        self.sprsys_r.contains(flag)
    }

    /// Sets the write-side SPRSYS flags of `flag`.
    pub fn sprsys_w_enable_flag(&mut self, flag: SprSysW)
        ensures
            final(self)@ == (SuzyRegistersView { sprsys_w: old(self)@.sprsys_w | flag@, ..old(self)@ }),
    {
        self.sprsys_w.set(flag, true);
    }

    /// Clears the write-side SPRSYS flags of `flag`.
    pub fn sprsys_w_disable_flag(&mut self, flag: SprSysW)
        ensures
            final(self)@ == (SuzyRegistersView { sprsys_w: old(self)@.sprsys_w & !flag@, ..old(self)@ }),
    {
        self.sprsys_w.set(flag, false);
    }

    /// Whether all write-side SPRSYS flags of `flag` are set.
    pub fn sprsys_w_is_flag_set(&self, flag: SprSysW) -> (r: bool)
        ensures
            r == (self@.sprsys_w & flag@ == flag@),
    {
        self.sprsys_w.contains(flag)
    }

    /// SPRCTL0.
    pub fn sprctl0(&self) -> (r: u8)
        ensures
            r == reg_at(self@.data, SPRCTL0),
    {
        self.data(SPRCTL0)
    }

    /// Bits per pixel of the current sprite, less one (the top two bits of
    /// SPRCTL0).
    pub fn bpp(&self) -> (r: u8)
        ensures
            r == reg_at(self@.data, SPRCTL0) / 64,
    {
        let v = self.data(SPRCTL0);
        proof {
            lemma_top_bits(v);
        }
        (v & SPRCTL0_BPP) >> 6u8
    }

    /// SPRCTL1.
    pub fn sprctl1(&self) -> (r: u8)
        ensures
            r == reg_at(self@.data, SPRCTL1),
    {
        self.data(SPRCTL1)
    }

    /// The quadrant in which drawing starts: 0, 3, 1 or 2 for the draw-up and
    /// draw-left bits of SPRCTL1.
    pub fn start_quadrant(&self) -> (r: u8)
        ensures
            r == (if reg_at(self@.data, SPRCTL1) % 4 == 0 {
                0u8
            } else if reg_at(self@.data, SPRCTL1) % 4 == 1 {
                3u8
            } else if reg_at(self@.data, SPRCTL1) % 4 == 2 {
                1u8
            } else {
                2u8
            }),
    {
        let v = self.sprctl1();
        proof {
            lemma_top_bits(v);
        }
        let q = v & SPRCTL1_DRAW_QUAD;
        if q == 0 {
            0
        } else if q == 1 {
            3
        } else if q == 2 {
            1
        } else {
            2
        }
    }

    /// SPRCOLL.
    pub fn sprcoll(&self) -> (r: u8)
        ensures
            r == reg_at(self@.data, SPRCOLL),
    {
        self.data(SPRCOLL)
    }

    /// The address of the next sprite control block.
    pub fn sbc_next(&self) -> (r: u16)
        ensures
            r == word_at(self@.data, SCBNEXTL),
    {
        self.u16(SCBNEXTL)
    }

    /// The address of the current sprite data line.
    pub fn sprdline(&self) -> (r: u16)
        ensures
            r == word_at(self@.data, SPRDLINEL),
    {
        self.u16(SPRDLINEL)
    }

    /// Advances the sprite data line address by one, wrapping.
    pub fn inc_sprdline(&mut self)
        ensures
            final(self)@ == (SuzyRegistersView {
                data: put_word(old(self)@.data, SPRDLINEL, ((word_at(old(self)@.data, SPRDLINEL) + 1) % 0x10000) as u16),
                ..old(self)@
            }),
    {
        let v = self.u16(SPRDLINEL).wrapping_add(1);
        self.set_u16(SPRDLINEL, v);
    }

    /// Writes the address of the current sprite control block.
    pub fn set_scb_addr(&mut self, v: u16)
        ensures
            final(self)@ == (SuzyRegistersView { data: put_word(old(self)@.data, SCBADRL, v), ..old(self)@ }),
    {
        self.set_u16(SCBADRL, v);
    }

    /// Writes the sprite data processing address.
    pub fn set_proc_addr(&mut self, v: u16)
        ensures
            final(self)@ == (SuzyRegistersView { data: put_word(old(self)@.data, PROCADRL, v), ..old(self)@ }),
    {
        self.set_u16(PROCADRL, v);
    }

    /// Writes the tilt accumulator.
    pub fn set_tiltacum(&mut self, v: u16)
        ensures
            final(self)@ == (SuzyRegistersView { data: put_word(old(self)@.data, TILTACUML, v), ..old(self)@ }),
    {
        self.set_u16(TILTACUML, v);
    }

    /// The address of the current sprite control block.
    pub fn scb_addr(&self) -> (r: u16)
        ensures
            r == word_at(self@.data, SCBADRL),
    {
        self.u16(SCBADRL)
    }

    /// The current video build address.
    pub fn vid_addr(&self) -> (r: u16)
        ensures
            r == word_at(self@.data, VIDADRL),
    {
        self.u16(VIDADRL)
    }

    /// Ticks until the bus instruction completes.
    pub fn ir_ticks_delay(&self) -> (r: u16)
        ensures
            r == self@.ir_ticks_delay,
    {
        self.ir_ticks_delay
    }

    /// Ticks until the task goes on.
    pub fn task_ticks_delay(&self) -> (r: u16)
        ensures
            r == self@.task_ticks_delay,
    {
        self.task_ticks_delay
    }

    /// The data latched by the bus instruction.
    pub fn data_r(&self) -> (r: u16)
        ensures
            r == self@.data_r,
    {
        self.data_r
    }

    /// The address latched by the bus instruction.
    pub fn addr_r(&self) -> (r: u16)
        ensures
            r == self@.addr_r,
    {
        self.addr_r
    }

    /// The running task.
    pub fn task(&self) -> (r: SuzyTask)
        ensures
            r == self@.task,
    {
        self.task
    }

    /// The bus instruction in progress.
    pub fn ir(&self) -> (r: SuzyInstruction)
        ensures
            r == self@.ir,
    {
        self.ir
    }

    /// The sign of the AB operand.
    pub fn sign_ab(&self) -> (r: i8)
        ensures
            r == self@.sign_ab,
    {
        self.sign_ab
    }

    /// The sign of the CD operand.
    pub fn sign_cd(&self) -> (r: i8)
        ensures
            r == self@.sign_cd,
    {
        self.sign_cd
    }

    /// The step of the sprite task.
    pub fn task_step(&self) -> (r: TaskStep)
        ensures
            r == self@.task_step,
    {
        self.task_step
    }

    /// CD as saved when the multiply started.
    pub fn tmp_cd(&self) -> (r: u16)
        ensures
            r == self@.tmp_cd,
    {
        self.tmp_cd
    }

    /// The sign of CD as saved when the multiply started.
    pub fn tmp_sign_cd(&self) -> (r: i8)
        ensures
            r == self@.tmp_sign_cd,
    {
        self.tmp_sign_cd
    }

    pub fn set_ir_ticks_delay(&mut self, ticks_delay: u16)
        ensures
            final(self)@ == (SuzyRegistersView { ir_ticks_delay: ticks_delay, ..old(self)@ }),
    {
        self.ir_ticks_delay = ticks_delay;
    }

    pub fn set_task_ticks_delay(&mut self, ticks_delay: u16)
        ensures
            final(self)@ == (SuzyRegistersView { task_ticks_delay: ticks_delay, ..old(self)@ }),
    {
        self.task_ticks_delay = ticks_delay;
    }

    pub fn set_data_r(&mut self, data_r: u16)
        ensures
            final(self)@ == (SuzyRegistersView { data_r: data_r, ..old(self)@ }),
    {
        self.data_r = data_r;
    }

    pub fn set_addr_r(&mut self, addr_r: u16)
        ensures
            final(self)@ == (SuzyRegistersView { addr_r: addr_r, ..old(self)@ }),
    {
        self.addr_r = addr_r;
    }

    pub fn set_task(&mut self, t: SuzyTask)
        ensures
            final(self)@ == (SuzyRegistersView { task: t, ..old(self)@ }),
    {
        self.task = t;
    }

    pub fn set_ir(&mut self, ir: SuzyInstruction)
        ensures
            final(self)@ == (SuzyRegistersView { ir: ir, ..old(self)@ }),
    {
        self.ir = ir;
    }

    pub fn set_sign_ab(&mut self, sign_ab: i8)
        ensures
            final(self)@ == (SuzyRegistersView { sign_ab: sign_ab, ..old(self)@ }),
    {
        self.sign_ab = sign_ab;
    }

    pub fn set_sign_cd(&mut self, sign_cd: i8)
        ensures
            final(self)@ == (SuzyRegistersView { sign_cd: sign_cd, ..old(self)@ }),
    {
        self.sign_cd = sign_cd;
    }

    pub fn set_task_step(&mut self, step: TaskStep)
        ensures
            final(self)@ == (SuzyRegistersView { task_step: step, ..old(self)@ }),
    {
        self.task_step = step;
    }

    /// Counts down the instruction delay.
    pub fn dec_ir_ticks_delay(&mut self)
        requires
            old(self)@.ir_ticks_delay > 0,
        ensures
            final(self)@ == (SuzyRegistersView { ir_ticks_delay: (old(self)@.ir_ticks_delay - 1) as u16, ..old(self)@ }),
    {
        self.ir_ticks_delay = self.ir_ticks_delay - 1;
    }

    /// Lengthens the task delay.
    pub fn add_task_ticks_delay(&mut self, ticks_delay: u16)
        requires
            old(self)@.task_ticks_delay + ticks_delay <= u16::MAX,
        ensures
            final(self)@ == (SuzyRegistersView {
                task_ticks_delay: (old(self)@.task_ticks_delay + ticks_delay) as u16,
                ..old(self)@
            }),
    {
        self.task_ticks_delay = self.task_ticks_delay + ticks_delay;
    }

    /// Counts down the task delay.
    pub fn dec_task_ticks_delay(&mut self)
        requires
            old(self)@.task_ticks_delay > 0,
        ensures
            final(self)@ == (SuzyRegistersView { task_ticks_delay: (old(self)@.task_ticks_delay - 1) as u16, ..old(self)@ }),
    {
        self.task_ticks_delay = self.task_ticks_delay - 1;
    }

    /// Ends the bus instruction.
    pub fn reset_ir(&mut self)
        ensures
            final(self)@ == (SuzyRegistersView { ir: SuzyInstruction::Idle, ..old(self)@ }),
    {
        self.ir = SuzyInstruction::Idle;
    }

    /// Ends the task.
    pub fn reset_task(&mut self)
        ensures
            final(self)@ == (SuzyRegistersView { task: SuzyTask::Idle, task_step: TaskStep::Idle, ..old(self)@ }),
    {
        self.task_step = TaskStep::Idle;
        self.task = SuzyTask::Idle;
    }

    /// Moves the sprite task to its next step.
    pub fn inc_task_step(&mut self)
        ensures
            final(self)@ == (SuzyRegistersView { task_step: next_task_step(old(self)@.task_step), ..old(self)@ }),
    {
        self.task_step = match self.task_step {
            TaskStep::Idle => TaskStep::InitializePainting,
            TaskStep::InitializePainting => TaskStep::LoadSCB,
            TaskStep::LoadSCB => TaskStep::InitializeQuadrants,
            TaskStep::InitializeQuadrants => TaskStep::InitializeQuadrant,
            TaskStep::InitializeQuadrant => TaskStep::RenderLinesStart,
            TaskStep::RenderLinesStart => TaskStep::RenderPixelHeightStart,
            TaskStep::RenderPixelHeightStart => TaskStep::RenderPixelsInLine,
            TaskStep::RenderPixelsInLine => TaskStep::RenderPixelheightEnd,
            TaskStep::RenderPixelheightEnd => TaskStep::RenderLinesEnd,
            TaskStep::RenderLinesEnd => TaskStep::NextQuadrant,
            TaskStep::NextQuadrant => TaskStep::SpriteEnd,
            TaskStep::SpriteEnd => TaskStep::Idle,
            TaskStep::MaxSteps => TaskStep::InitializePainting,
        };
    }

    /// Saves CD and its sign for the multiply that starts.
    pub fn backup_cd(&mut self)
        ensures
            final(self)@ == (SuzyRegistersView {
                tmp_cd: word_at(old(self)@.data, MATHD),
                tmp_sign_cd: old(self)@.sign_cd,
                ..old(self)@
            }),
    {
        self.tmp_cd = self.cd();
        self.tmp_sign_cd = self.sign_cd();
    }
}

proof fn lemma_top_bits(v: u8)
    by (bit_vector)
    ensures
        (v & 0xc0) >> 6u8 == v / 64,
        v & 0x03 == v % 4,
{
}

impl Default for SuzyRegisters {
    fn default() -> (r: Self)
        ensures
            r@.data.len() == 0x100,
    {
        Self::new()
    }
}

} // verus!
