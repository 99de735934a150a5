//! The 65C02 core: its pins, registers and arithmetic, and the stepper
//! that runs one bus cycle of the current instruction at a time.
use vstd::prelude::*;
use crate::consts::{M6502_RW, M6502_SYNC, M6502_IRQ, M6502_NMI, M6502_RDY, M6502_RES};

mod opcodes;
pub mod steps;
use steps::step_spec;

verus! {

pub const FLAG_N: u8 = 0x80;
pub const FLAG_V: u8 = 0x40;
pub const FLAG_X: u8 = 0x20;
pub const FLAG_B: u8 = 0x10;
pub const FLAG_D: u8 = 0x08;
pub const FLAG_I: u8 = 0x04;
pub const FLAG_Z: u8 = 0x02;
pub const FLAG_C: u8 = 0x01;

pub const BREAK_IRQ: u8 = 0x01;
pub const BREAK_NMI: u8 = 0x02;
pub const BREAK_RESET: u8 = 0x04;

/// The status register of the 65C02.
#[derive(Clone, Copy, Debug, PartialEq, Eq, Structural)]
pub struct M6502Flags {
    bits: u8,
}

impl View for M6502Flags {
    type V = u8;

    closed spec fn view(&self) -> u8 {
        self.bits
    }
}

impl M6502Flags {
    /// The set of all defined flags.
    pub open spec fn spec_all() -> u8 {
        0xff
    }

    /// Negative.
    pub fn N() -> (r: Self)
        ensures
            r@ == 0x80,
    {
        Self { bits: 0x80 }
    }

    /// Overflow.
    pub fn V() -> (r: Self)
        ensures
            r@ == 0x40,
    {
        Self { bits: 0x40 }
    }

    /// Unused, always read as set.
    pub fn X() -> (r: Self)
        ensures
            r@ == 0x20,
    {
        Self { bits: 0x20 }
    }

    /// Break.
    pub fn B() -> (r: Self)
        ensures
            r@ == 0x10,
    {
        Self { bits: 0x10 }
    }

    /// Decimal mode.
    pub fn D() -> (r: Self)
        ensures
            r@ == 0x8,
    {
        Self { bits: 0x8 }
    }

    /// Interrupts disabled.
    pub fn I() -> (r: Self)
        ensures
            r@ == 0x4,
    {
        Self { bits: 0x4 }
    }

    /// Zero.
    pub fn Z() -> (r: Self)
        ensures
            r@ == 0x2,
    {
        Self { bits: 0x2 }
    }

    /// Carry.
    pub fn C() -> (r: Self)
        ensures
            r@ == 0x1,
    {
        Self { bits: 0x1 }
    }

    /// No flag set.
    pub fn empty() -> (r: Self)
        ensures
            r@ == 0,
    {
        Self { bits: 0 }
    }

    /// The flags as a byte.
    pub fn bits(&self) -> (r: u8)
        ensures
            r == self@,
    {
        self.bits
    }

    /// The flags of `bits`, or nothing where `bits` holds an undefined flag.
    pub fn from_bits(bits: u8) -> (r: Option<Self>)
        ensures
            r is Some,
            r matches Some(f) ==> f@ == bits,
    {
        proof { crate::mikey::cpu::lemma_full_byte(bits); }
        if bits & !0xffu8 == 0 {
            Some(Self { bits })
        } else {
            None
        }
    }

    /// The flags of `bits`, undefined flags dropped.
    pub fn from_bits_truncate(bits: u8) -> (r: Self)
        ensures
            r@ == bits & 0xffu8,
    {
        Self { bits: bits & 0xffu8 }
    }

    /// The flags of `bits`, undefined flags kept.
    pub fn from_bits_retain(bits: u8) -> (r: Self)
        ensures
            r@ == bits,
    {
        Self { bits }
    }

    /// Whether every flag of `other` is set.
    pub fn contains(&self, other: Self) -> (r: bool)
        ensures
            r == (self@ & other@ == other@),
    {
        self.bits & other.bits == other.bits
    }

    /// Whether no flag is set.
    pub fn is_empty(&self) -> (r: bool)
        ensures
            r == (self@ == 0),
    {
        self.bits == 0
    }

    /// The flags set in either.
    pub fn union(self, other: Self) -> (r: Self)
        ensures
            r@ == self@ | other@,
    {
        Self { bits: self.bits | other.bits }
    }

    /// The flags set in both.
    pub fn intersection(self, other: Self) -> (r: Self)
        ensures
            r@ == self@ & other@,
    {
        Self { bits: self.bits & other.bits }
    }

    /// The flags of `self` not in `other`.
    pub fn difference(self, other: Self) -> (r: Self)
        ensures
            r@ == self@ & !other@,
    {
        Self { bits: self.bits & !other.bits }
    }

    /// Sets (`value`) or clears the flags of `other`.
    pub fn set(&mut self, other: Self, value: bool)
        ensures
            final(self)@ == (if value { old(self)@ | other@ } else { old(self)@ & !other@ }),
    {
        if value {
            self.bits = self.bits | other.bits;
        } else {
            self.bits = self.bits & !other.bits;
        }
    }
}

/// What a forced BRK stands for: an interrupt request, a non-maskable interrupt or a reset.
#[derive(Clone, Copy, Debug, PartialEq, Eq, Structural)]
pub struct M6502BreakFlags {
    bits: u8,
}

impl View for M6502BreakFlags {
    type V = u8;

    closed spec fn view(&self) -> u8 {
        self.bits
    }
}

impl M6502BreakFlags {
    /// The set of all defined flags.
    pub open spec fn spec_all() -> u8 {
        0x7
    }

    /// Interrupt request.
    pub fn IRQ() -> (r: Self)
        ensures
            r@ == 0x1,
    {
        Self { bits: 0x1 }
    }

    /// Non-maskable interrupt.
    pub fn NMI() -> (r: Self)
        ensures
            r@ == 0x2,
    {
        Self { bits: 0x2 }
    }

    /// Reset.
    pub fn RESET() -> (r: Self)
        ensures
            r@ == 0x4,
    {
        Self { bits: 0x4 }
    }

    /// No flag set.
    pub fn empty() -> (r: Self)
        ensures
            r@ == 0,
    {
        Self { bits: 0 }
    }

    /// The flags as a byte.
    pub fn bits(&self) -> (r: u8)
        ensures
            r == self@,
    {
        self.bits
    }

    /// The flags of `bits`, or nothing where `bits` holds an undefined flag.
    pub fn from_bits(bits: u8) -> (r: Option<Self>)
        ensures
            r is Some <==> bits & !0x7u8 == 0,
            r matches Some(f) ==> f@ == bits,
    {
        
        if bits & !0x7u8 == 0 {
            Some(Self { bits })
        } else {
            None
        }
    }

    /// The flags of `bits`, undefined flags dropped.
    pub fn from_bits_truncate(bits: u8) -> (r: Self)
        ensures
            r@ == bits & 0x7u8,
    {
        Self { bits: bits & 0x7u8 }
    }

    /// The flags of `bits`, undefined flags kept.
    pub fn from_bits_retain(bits: u8) -> (r: Self)
        ensures
            r@ == bits,
    {
        Self { bits }
    }

    /// Whether every flag of `other` is set.
    pub fn contains(&self, other: Self) -> (r: bool)
        ensures
            r == (self@ & other@ == other@),
    {
        self.bits & other.bits == other.bits
    }

    /// Whether no flag is set.
    pub fn is_empty(&self) -> (r: bool)
        ensures
            r == (self@ == 0),
    {
        self.bits == 0
    }

    /// The flags set in either.
    pub fn union(self, other: Self) -> (r: Self)
        ensures
            r@ == self@ | other@,
    {
        Self { bits: self.bits | other.bits }
    }

    /// The flags set in both.
    pub fn intersection(self, other: Self) -> (r: Self)
        ensures
            r@ == self@ & other@,
    {
        Self { bits: self.bits & other.bits }
    }

    /// The flags of `self` not in `other`.
    pub fn difference(self, other: Self) -> (r: Self)
        ensures
            r@ == self@ & !other@,
    {
        Self { bits: self.bits & !other.bits }
    }

    /// Sets (`value`) or clears the flags of `other`.
    pub fn set(&mut self, other: Self, value: bool)
        ensures
            final(self)@ == (if value { old(self)@ | other@ } else { old(self)@ & !other@ }),
    {
        if value {
            self.bits = self.bits | other.bits;
        } else {
            self.bits = self.bits & !other.bits;
        }
    }
}


impl Default for M6502Flags {
    /// Interrupts disabled, the unused flag and zero set.
    fn default() -> (r: M6502Flags)
        ensures
            r@ == 0x26,
    {
        M6502Flags { bits: 0x26 }
    }
}

/// Facts of bit arithmetic on the pin word: setting the address and data
/// lines, switching control pins.
proof fn lemma_pin_word(p: u32, q: u32, a: u16, d: u8)
    by (bit_vector)
    ensures
        ((p & !0xffffu32) | a as u32) & 0xffff == a as u32,
        ((((p & !0xffffu32) | a as u32) & 0xff0000) >> 16) as u8 == (((p & 0xff0000) >> 16) as u8),
        ((p & !0xffffu32) | a as u32) & 0xff00_0000 == p & 0xff00_0000,
        ((((p & !0xff0000u32) | (((d as u32) << 16) & 0xff0000)) & 0xff0000) >> 16) as u8 == d,
        ((p & !0xff0000u32) | (((d as u32) << 16) & 0xff0000)) & 0xffff == p & 0xffff,
        ((p & !0xff0000u32) | (((d as u32) << 16) & 0xff0000)) & 0xff00_0000 == p & 0xff00_0000,
        (p | 0x0200_0000) & 0x0200_0000 != 0,
        (p | 0x0100_0000) & 0x0100_0000 != 0,
        (p & !0x0100_0000u32) & 0x0100_0000 == 0,
        (p & !0x0200_0000u32) & 0x0200_0000 == 0,
        ((p & !0x0100_0000u32) & 0x0200_0000 != 0) == (p & 0x0200_0000 != 0),
        ((p | 0x0100_0000u32) & 0x0200_0000 != 0) == (p & 0x0200_0000 != 0),
        ((p & !0x0200_0000u32) & 0x0100_0000 != 0) == (p & 0x0100_0000 != 0),
        ((p | 0x0200_0000u32) & 0x0100_0000 != 0) == (p & 0x0100_0000 != 0),
        ((p & !0x4000_0000u32) & 0x0200_0000 != 0) == (p & 0x0200_0000 != 0),
        (p | 0x0200_0000) & 0xffff == p & 0xffff,
        (p | 0x0200_0000) & 0xff0000 == p & 0xff0000,
        (p & !0x0100_0000u32) & 0xffff == p & 0xffff,
        (p & !0x0100_0000u32) & 0xff0000 == p & 0xff0000,
        (p & !0x0200_0000u32) & 0xffff == p & 0xffff,
        (p & !0x0200_0000u32) & 0xff0000 == p & 0xff0000,
        p & (M6502_SYNC | M6502_IRQ | M6502_NMI | M6502_RDY | M6502_RES) == 0 ==> p & M6502_SYNC == 0,
        p & (M6502_SYNC | M6502_IRQ | M6502_NMI | M6502_RDY | M6502_RES) == 0 ==> p & M6502_RDY == 0,
        p & M6502_SYNC != 0 ==> p & (M6502_SYNC | M6502_IRQ | M6502_NMI | M6502_RDY | M6502_RES) != 0,
        (p & !M6502_SYNC) & M6502_SYNC == 0,
        p & 0xff00_0000 == q & 0xff00_0000 ==> ((p & 0x0200_0000 != 0) == (q & 0x0200_0000 != 0)),
        p & 0xff00_0000 == q & 0xff00_0000 ==> ((p & 0x0100_0000 != 0) == (q & 0x0100_0000 != 0)),
{
}

/// Facts of bit arithmetic on bytes: flags, nibbles and the low byte of a
/// word.
proof fn lemma_byte_facts(x: u8, f: u8, t: u16)
    by (bit_vector)
    ensures
        x & !0xffu8 == 0,
        ((f & !(FLAG_N | FLAG_Z)) | (if x != 0 { if x & FLAG_N != 0 { FLAG_N } else { 0u8 } } else { FLAG_Z })) == nz_flags(f, x),
        nz_flags(f, x) & !(FLAG_N | FLAG_Z) == f & !(FLAG_N | FLAG_Z),
        x & 0x0f <= 15,
        x >> 4u8 <= 15,
        (x & 0x80 != 0) == (x >= 128),
        (t & 0xff00 == 0) == (t < 256),
        (t & 0xff00 != 0) == (t >= 256),
        t as u8 == t % 256,
{
}

/// Every byte is made of defined bits.
pub proof fn lemma_full_byte(x: u8)
    ensures
        x & !0xffu8 == 0,
{
    lemma_byte_facts(x, 0, 0);
}

/// `f` with the flags of `mask` set where `on`, cleared otherwise.
pub open spec fn with_flag(f: u8, mask: u8, on: bool) -> u8 {
    if on {
        f | mask
    } else {
        f & !mask
    }
}

/// Address lines of a pin state.
pub open spec fn pins_addr(p: u32) -> u16 {
    (p & 0xffff) as u16
}

/// Data lines of a pin state.
pub open spec fn pins_data(p: u32) -> u8 {
    ((p & 0xff0000) >> 16) as u8
}

/// Whether the opcode-fetch (SYNC) pin is on.
pub open spec fn pins_sync(p: u32) -> bool {
    p & M6502_SYNC != 0
}

/// Whether the read/write pin says "read".
pub open spec fn pins_read(p: u32) -> bool {
    p & M6502_RW != 0
}

/// The pins above the data lines: RW, SYNC, IRQ, NMI, RDY and RES.
pub open spec fn pins_control(p: u32) -> u32 {
    p & 0xff00_0000
}

/// The pins with `a` on the address lines.
pub open spec fn set_addr(p: u32, a: u16) -> u32 {
    (p & !0xffffu32) | a as u32
}

/// The pins with `d` on the data lines.
pub open spec fn set_data(p: u32, d: u8) -> u32 {
    (p & !0xff0000u32) | (((d as u32) << 16) & 0xff0000)
}

proof fn lemma_set_addr(p: u32, a: u16)
    ensures
        ((p & !0xffffu32) | a as u32) & 0xffff == a as u32,
        ((((p & !0xffffu32) | a as u32) & 0xff0000) >> 16) as u8 == (((p & 0xff0000) >> 16) as u8),
        ((p & !0xffffu32) | a as u32) & 0xff00_0000 == p & 0xff00_0000,
{
    lemma_pin_word(p, 0, a, 0);
}

proof fn lemma_set_data(p: u32, d: u8)
    ensures
        ((((p & !0xff0000u32) | (((d as u32) << 16) & 0xff0000)) & 0xff0000) >> 16) as u8 == d,
        ((p & !0xff0000u32) | (((d as u32) << 16) & 0xff0000)) & 0xffff == p & 0xffff,
        ((p & !0xff0000u32) | (((d as u32) << 16) & 0xff0000)) & 0xff00_0000 == p & 0xff00_0000,
{
    lemma_pin_word(p, 0, 0, d);
}

proof fn lemma_control(p: u32, q: u32)
    requires
        p & 0xff00_0000 == q & 0xff00_0000,
    ensures
        (p & 0x0200_0000 != 0) == (q & 0x0200_0000 != 0),
        (p & 0x0100_0000 != 0) == (q & 0x0100_0000 != 0),
{
    lemma_pin_word(p, q, 0, 0);
}

proof fn lemma_pin_switch(p: u32)
    ensures
        (p | 0x0200_0000) & 0x0200_0000 != 0,
        (p | 0x0100_0000) & 0x0100_0000 != 0,
        (p & !0x0100_0000u32) & 0x0100_0000 == 0,
        (p & !0x0200_0000u32) & 0x0200_0000 == 0,
        ((p & !0x0100_0000u32) & 0x0200_0000 != 0) == (p & 0x0200_0000 != 0),
        ((p | 0x0100_0000u32) & 0x0200_0000 != 0) == (p & 0x0200_0000 != 0),
        ((p & !0x0200_0000u32) & 0x0100_0000 != 0) == (p & 0x0100_0000 != 0),
        ((p | 0x0200_0000u32) & 0x0100_0000 != 0) == (p & 0x0100_0000 != 0),
        ((p & !0x4000_0000u32) & 0x0200_0000 != 0) == (p & 0x0200_0000 != 0),
        (p | 0x0200_0000) & 0xffff == p & 0xffff,
        (p | 0x0200_0000) & 0xff0000 == p & 0xff0000,
        (p & !0x0100_0000u32) & 0xffff == p & 0xffff,
        (p & !0x0100_0000u32) & 0xff0000 == p & 0xff0000,
        (p & !0x0200_0000u32) & 0xffff == p & 0xffff,
        (p & !0x0200_0000u32) & 0xff0000 == p & 0xff0000,
{
    lemma_pin_word(p, 0, 0, 0);
}

/// The 32 pins of the core: address lines 0-15, data lines 16-23 and the
/// control pins above.
#[derive(Clone, Copy, Debug, PartialEq, Eq, Structural)]
pub struct CPUPins {
    data: u32,
}

impl View for CPUPins {
    type V = u32;

    closed spec fn view(&self) -> u32 {
        self.data
    }
}

impl Default for CPUPins {
    fn default() -> (r: CPUPins)
        ensures
            r@ == 0,
    {
        CPUPins { data: 0 }
    }
}

impl CPUPins {
    /// All pins at once.
    pub fn set(&mut self, pins: u32)
        ensures
            final(self)@ == pins,
    {
        self.data = pins;
    }

    /// Whether any of the pins of `v` is on.
    pub fn is_set(&self, v: u32) -> (r: bool)
        ensures
            r == (self@ & v != 0),
    {
        self.data & v != 0
    }

    /// The address lines.
    pub fn ga(&self) -> (r: u16)
        ensures
            r == pins_addr(self@),
    {
        (self.data & 0xffff) as u16
    }

    /// Drives the address lines; data and control pins are kept.
    pub fn sa(&mut self, addr: u16)
        ensures
            final(self)@ == (old(self)@ & !0xffffu32) | addr as u32,
            pins_addr(final(self)@) == addr,
            pins_data(final(self)@) == pins_data(old(self)@),
            pins_control(final(self)@) == pins_control(old(self)@),
            pins_sync(final(self)@) == pins_sync(old(self)@),
            pins_read(final(self)@) == pins_read(old(self)@),
    {
        proof {
            lemma_set_addr(self.data, addr);
            lemma_control((self.data & !0xffffu32) | addr as u32, self.data);
        }
        self.data = (self.data & !0xffff) | addr as u32;
    }

    /// The data lines.
    pub fn gd(&self) -> (r: u8)
        ensures
            r == pins_data(self@),
    {
        ((self.data & 0xff0000) >> 16) as u8
    }

    /// Drives the data lines; address and control pins are kept.
    pub fn sd(&mut self, data: u8)
        ensures
            final(self)@ == (old(self)@ & !0xff0000u32) | (((data as u32) << 16) & 0xff0000),
            pins_data(final(self)@) == data,
            pins_addr(final(self)@) == pins_addr(old(self)@),
            pins_control(final(self)@) == pins_control(old(self)@),
            pins_sync(final(self)@) == pins_sync(old(self)@),
            pins_read(final(self)@) == pins_read(old(self)@),
    {
        proof {
            lemma_set_data(self.data, data);
            lemma_control((self.data & !0xff0000u32) | (((data as u32) << 16) & 0xff0000), self.data);
        }
        self.data = (self.data & !0xff0000) | (((data as u32) << 16) & 0xff0000);
    }

    /// Drives address and data lines.
    pub fn sad(&mut self, addr: u16, data: u8)
        ensures
            final(self)@ == set_data(set_addr(old(self)@, addr), data),
            pins_addr(final(self)@) == addr,
            pins_data(final(self)@) == data,
            pins_control(final(self)@) == pins_control(old(self)@),
            pins_sync(final(self)@) == pins_sync(old(self)@),
            pins_read(final(self)@) == pins_read(old(self)@),
    {
        self.sa(addr);
        self.sd(data);
    }

    /// Switches on the pins of `pin`.
    pub fn pin_on(&mut self, pin: u32)
        ensures
            final(self)@ == old(self)@ | pin,
            pin == M6502_RW ==> pins_read(final(self)@) && pins_sync(final(self)@) == pins_sync(old(self)@),
            pin == M6502_SYNC ==> pins_sync(final(self)@) && pins_read(final(self)@) == pins_read(old(self)@),
            pin == M6502_SYNC ==> pins_addr(final(self)@) == pins_addr(old(self)@),
            pin == M6502_SYNC ==> pins_data(final(self)@) == pins_data(old(self)@),
    {
        proof {
            lemma_pin_switch(self.data);
        }
        self.data = self.data | pin;
    }

    /// Switches off the pins of `pin`.
    pub fn pin_off(&mut self, pin: u32)
        ensures
            final(self)@ == old(self)@ & !pin,
            pin == M6502_RW ==> !pins_read(final(self)@) && pins_sync(final(self)@) == pins_sync(old(self)@),
            pin == M6502_SYNC ==> !pins_sync(final(self)@) && pins_read(final(self)@) == pins_read(old(self)@),
            pin == M6502_RW ==> pins_addr(final(self)@) == pins_addr(old(self)@),
            pin == M6502_RW ==> pins_data(final(self)@) == pins_data(old(self)@),
            pin == M6502_RES ==> pins_sync(final(self)@) == pins_sync(old(self)@),
            pin == M6502_SYNC ==> pins_addr(final(self)@) == pins_addr(old(self)@),
            pin == M6502_SYNC ==> pins_data(final(self)@) == pins_data(old(self)@),
    {
        proof {
            lemma_pin_switch(self.data);
        }
        self.data = self.data & !pin;
    }

    /// Puts `pc` on the address lines and signals an opcode fetch.
    pub fn fetch(&mut self, pc: u16)
        ensures
            final(self)@ == set_addr(old(self)@, pc) | M6502_SYNC,
            pins_addr(final(self)@) == pc,
            pins_data(final(self)@) == pins_data(old(self)@),
            pins_sync(final(self)@),
            pins_read(final(self)@) == pins_read(old(self)@),
    {
        self.sa(pc);
        self.pin_on(M6502_SYNC);
    }

    /// All pins as one word.
    pub fn pins(&self) -> (r: u32)
        ensures
            r == self@,
    {
        self.data
    }
}


/// The number of bus cycles (steps) that opcode `ir` takes at most.
pub open spec fn step_count(ir: u8) -> u8 {
    match ir {
        0x00 => 7,
        0x01 => 6,
        0x02 => 2,
        0x03 => 1,
        0x04 => 5,
        0x05 => 3,
        0x06 => 5,
        0x07 => 5,
        0x08 => 3,
        0x09 => 2,
        0x0a => 2,
        0x0b => 1,
        0x0c => 6,
        0x0d => 4,
        0x0e => 6,
        0x0f => 7,
        0x10 => 4,
        0x11 => 6,
        0x12 => 5,
        0x13 => 1,
        0x14 => 5,
        0x15 => 4,
        0x16 => 6,
        0x17 => 5,
        0x18 => 2,
        0x19 => 5,
        0x1a => 2,
        0x1b => 1,
        0x1c => 6,
        0x1d => 5,
        0x1e => 7,
        0x1f => 7,
        0x20 => 6,
        0x21 => 6,
        0x22 => 2,
        0x23 => 1,
        0x24 => 3,
        0x25 => 3,
        0x26 => 5,
        0x27 => 5,
        0x28 => 4,
        0x29 => 2,
        0x2a => 2,
        0x2b => 1,
        0x2c => 4,
        0x2d => 4,
        0x2e => 6,
        0x2f => 7,
        0x30 => 4,
        0x31 => 6,
        0x32 => 5,
        0x33 => 1,
        0x34 => 3,
        0x35 => 4,
        0x36 => 6,
        0x37 => 5,
        0x38 => 2,
        0x39 => 5,
        0x3a => 2,
        0x3b => 1,
        0x3c => 4,
        0x3d => 5,
        0x3e => 7,
        0x3f => 7,
        0x40 => 6,
        0x41 => 6,
        0x42 => 2,
        0x43 => 1,
        0x44 => 3,
        0x45 => 3,
        0x46 => 5,
        0x47 => 5,
        0x48 => 3,
        0x49 => 2,
        0x4a => 2,
        0x4b => 1,
        0x4c => 3,
        0x4d => 4,
        0x4e => 6,
        0x4f => 7,
        0x50 => 4,
        0x51 => 6,
        0x52 => 5,
        0x53 => 1,
        0x54 => 3,
        0x55 => 4,
        0x56 => 6,
        0x57 => 5,
        0x58 => 2,
        0x59 => 5,
        0x5a => 3,
        0x5b => 1,
        0x5c => 8,
        0x5d => 5,
        0x5e => 7,
        0x5f => 7,
        0x60 => 6,
        0x61 => 6,
        0x62 => 2,
        0x63 => 1,
        0x64 => 3,
        0x65 => 3,
        0x66 => 5,
        0x67 => 5,
        0x68 => 4,
        0x69 => 2,
        0x6a => 2,
        0x6b => 1,
        0x6c => 5,
        0x6d => 4,
        0x6e => 6,
        0x6f => 7,
        0x70 => 4,
        0x71 => 6,
        0x72 => 5,
        0x73 => 1,
        0x74 => 4,
        0x75 => 4,
        0x76 => 6,
        0x77 => 5,
        0x78 => 2,
        0x79 => 5,
        0x7a => 4,
        0x7b => 1,
        0x7c => 6,
        0x7d => 5,
        0x7e => 7,
        0x7f => 7,
        0x80 => 3,
        0x81 => 6,
        0x82 => 2,
        0x83 => 1,
        0x84 => 3,
        0x85 => 3,
        0x86 => 3,
        0x87 => 5,
        0x88 => 2,
        0x89 => 3,
        0x8a => 2,
        0x8b => 1,
        0x8c => 4,
        0x8d => 4,
        0x8e => 4,
        0x8f => 7,
        0x90 => 4,
        0x91 => 6,
        0x92 => 5,
        0x93 => 1,
        0x94 => 4,
        0x95 => 4,
        0x96 => 4,
        0x97 => 5,
        0x98 => 2,
        0x99 => 5,
        0x9a => 2,
        0x9b => 1,
        0x9c => 4,
        0x9d => 5,
        0x9e => 5,
        0x9f => 7,
        0xa0 => 2,
        0xa1 => 6,
        0xa2 => 2,
        0xa3 => 1,
        0xa4 => 3,
        0xa5 => 3,
        0xa6 => 3,
        0xa7 => 5,
        0xa8 => 2,
        0xa9 => 2,
        0xaa => 2,
        0xab => 1,
        0xac => 4,
        0xad => 4,
        0xae => 4,
        0xaf => 7,
        0xb0 => 4,
        0xb1 => 6,
        0xb2 => 5,
        0xb3 => 1,
        0xb4 => 4,
        0xb5 => 4,
        0xb6 => 4,
        0xb7 => 5,
        0xb8 => 2,
        0xb9 => 5,
        0xba => 2,
        0xbb => 1,
        0xbc => 5,
        0xbd => 5,
        0xbe => 5,
        0xbf => 7,
        0xc0 => 2,
        0xc1 => 6,
        0xc2 => 2,
        0xc3 => 1,
        0xc4 => 3,
        0xc5 => 3,
        0xc6 => 5,
        0xc7 => 5,
        0xc8 => 2,
        0xc9 => 2,
        0xca => 2,
        0xcb => 1,
        0xcc => 4,
        0xcd => 4,
        0xce => 6,
        0xcf => 7,
        0xd0 => 4,
        0xd1 => 6,
        0xd2 => 5,
        0xd3 => 1,
        0xd4 => 4,
        0xd5 => 4,
        0xd6 => 6,
        0xd7 => 5,
        0xd8 => 2,
        0xd9 => 5,
        0xda => 3,
        0xdb => 1,
        0xdc => 4,
        0xdd => 5,
        0xde => 7,
        0xdf => 7,
        0xe0 => 2,
        0xe1 => 6,
        0xe2 => 2,
        0xe3 => 1,
        0xe4 => 3,
        0xe5 => 3,
        0xe6 => 5,
        0xe7 => 5,
        0xe8 => 2,
        0xe9 => 2,
        0xea => 2,
        0xeb => 1,
        0xec => 4,
        0xed => 4,
        0xee => 6,
        0xef => 7,
        0xf0 => 4,
        0xf1 => 6,
        0xf2 => 5,
        0xf3 => 1,
        0xf4 => 4,
        0xf5 => 4,
        0xf6 => 6,
        0xf7 => 5,
        0xf8 => 2,
        0xf9 => 5,
        0xfa => 4,
        0xfb => 1,
        0xfc => 4,
        0xfd => 5,
        0xfe => 7,
        0xff => 7,
    }
}

/// The signed value of a byte.
pub open spec fn signed(v: u8) -> int {
    if v >= 128 {
        v as int - 256
    } else {
        v as int
    }
}

/// The flags after a result `v`: N and Z follow `v`, the others stay.
pub open spec fn nz_flags(f: u8, v: u8) -> u8 {
    with_flag(with_flag(f, FLAG_Z, v == 0), FLAG_N, v >= 128)
}

/// Binary add with carry: the sum of accumulator, operand and carry modulo
/// 256; C tells an unsigned carry out, V a signed overflow, N and Z follow the
/// sum.
pub open spec fn adc_binary(a: u8, v: u8, f: u8) -> (u8, u8) {
    (adc_binary_value(a, v, f), adc_binary_flags(a, v, f))
}

/// The sum of a binary add with carry.
pub open spec fn adc_binary_value(a: u8, v: u8, f: u8) -> u8 {
    let c: int = if f & FLAG_C != 0 { 1 } else { 0 };
    ((a + v + c) % 256) as u8
}

/// The flags after a binary add with carry.
pub open spec fn adc_binary_flags(a: u8, v: u8, f: u8) -> u8 {
    let c: int = if f & FLAG_C != 0 { 1 } else { 0 };
    let s: int = signed(a) + signed(v) + c;
    with_flag(with_flag(nz_flags(f, adc_binary_value(a, v, f)), FLAG_V, s < -128 || s > 127), FLAG_C, a + v + c > 255)
}

/// Binary subtract with borrow (a clear carry borrows one): the difference
/// modulo 256; C tells that no borrow was needed, V a signed overflow.
pub open spec fn sbc_binary(a: u8, v: u8, f: u8) -> (u8, u8) {
    (sbc_binary_value(a, v, f), sbc_binary_flags(a, v, f))
}

/// The difference of a binary subtract with borrow.
pub open spec fn sbc_binary_value(a: u8, v: u8, f: u8) -> u8 {
    let b: int = if f & FLAG_C != 0 { 0 } else { 1 };
    ((a - v - b + 256) % 256) as u8
}

/// The flags after a binary subtract with borrow.
pub open spec fn sbc_binary_flags(a: u8, v: u8, f: u8) -> u8 {
    let b: int = if f & FLAG_C != 0 { 0 } else { 1 };
    let s: int = signed(a) - signed(v) - b;
    with_flag(with_flag(nz_flags(f, sbc_binary_value(a, v, f)), FLAG_V, s < -128 || s > 127), FLAG_C, a - v - b >= 0)
}

/// Decimal add with carry as the 65C02 computes it, digit by digit (the
/// method of MAME's core), including its results for non-decimal digits.
pub open spec fn adc_decimal(a: u8, v: u8, f: u8) -> (u8, u8) {
    let c: u8 = if f & FLAG_C != 0 { 1 } else { 0 };
    let f0 = f & !(FLAG_N | FLAG_V | FLAG_Z | FLAG_C);
    let al0: u8 = ((a & 0x0f) + (v & 0x0f) + c) as u8;
    let al: u8 = if al0 > 9 { (al0 + 6) as u8 } else { al0 };
    let ah0: u8 = ((a >> 4) + (v >> 4) + (if al > 0x0f { 1u8 } else { 0u8 })) as u8;
    let f1 = if ((a as u16 + v as u16 + c as u16) as u16) & 0xff == 0 {
        f0 | FLAG_Z
    } else if ah0 & 0x08 != 0 {
        f0 | FLAG_N
    } else {
        f0
    };
    let f2 = if (!(a ^ v) & (a ^ (ah0 << 4u8))) & 0x80 != 0 { f1 | FLAG_V } else { f1 };
    let ah: u8 = if ah0 > 9 { (ah0 + 6) as u8 } else { ah0 };
    let f3 = if ah > 15 { f2 | FLAG_C } else { f2 };
    ((ah << 4u8) | (al & 0x0f), f3)
}

/// Decimal subtract with borrow as the 65C02 computes it, digit by digit.
pub open spec fn sbc_decimal(a: u8, v: u8, f: u8) -> (u8, u8) {
    let c: u8 = if f & FLAG_C != 0 { 0 } else { 1 };
    let f0 = f & !(FLAG_N | FLAG_V | FLAG_Z | FLAG_C);
    let diff: u16 = ((a as int - v as int - c as int + 0x10000) % 0x10000) as u16;
    let al0: u8 = (((a & 0x0f) as int - (v & 0x0f) as int - c as int + 0x100) % 0x100) as u8;
    let al: u8 = if al0 >= 0x80 { (al0 - 6) as u8 } else { al0 };
    let ah0: u8 = (((a >> 4) as int - (v >> 4) as int - (if al >= 0x80 { 1int } else { 0int }) + 0x100) % 0x100) as u8;
    let f1 = if diff & 0xff == 0 {
        f0 | FLAG_Z
    } else if diff & 0x80 != 0 {
        f0 | FLAG_N
    } else {
        f0
    };
    let f2 = if ((a ^ v) & (a ^ (diff as u8)) & 0x80) != 0 { f1 | FLAG_V } else { f1 };
    let f3 = if diff & 0xff00 == 0 { f2 | FLAG_C } else { f2 };
    let ah: u8 = if ah0 & 0x80 != 0 { (ah0 - 6) as u8 } else { ah0 };
    ((ah << 4u8) | (al & 0x0f), f3)
}

/// Compare: the flags of `r - v`, with C set when `r >= v`.
pub open spec fn compare_flags(r: u8, v: u8, f: u8) -> u8 {
    with_flag(nz_flags(f, ((r as int - v as int + 256) % 256) as u8), FLAG_C, r >= v)
}

/// Shift left: the doubled byte; C receives bit 7.
pub open spec fn asl_spec(v: u8, f: u8) -> (u8, u8) {
    (asl_spec_value(v, f), with_flag(nz_flags(f, asl_spec_value(v, f)), FLAG_C, v >= 128))
}

/// The byte shifted left.
pub open spec fn asl_spec_value(v: u8, f: u8) -> u8 {
    ((v as int * 2) % 256) as u8
}

/// Shift right: the halved byte; C receives bit 0.
pub open spec fn lsr_spec(v: u8, f: u8) -> (u8, u8) {
    (lsr_spec_value(v, f), with_flag(nz_flags(f, lsr_spec_value(v, f)), FLAG_C, v % 2 == 1))
}

/// The byte shifted right.
pub open spec fn lsr_spec_value(v: u8, f: u8) -> u8 {
    v / 2
}

/// Rotate left through the carry.
pub open spec fn rol_spec(v: u8, f: u8) -> (u8, u8) {
    (rol_spec_value(v, f), with_flag(nz_flags(f, rol_spec_value(v, f)), FLAG_C, v >= 128))
}

/// The byte rotated left through the carry.
pub open spec fn rol_spec_value(v: u8, f: u8) -> u8 {
    let c: int = if f & FLAG_C != 0 { 1 } else { 0 };
    ((v as int * 2 + c) % 256) as u8
}

/// Rotate right through the carry.
pub open spec fn ror_spec(v: u8, f: u8) -> (u8, u8) {
    (ror_spec_value(v, f), with_flag(nz_flags(f, ror_spec_value(v, f)), FLAG_C, v % 2 == 1))
}

/// The byte rotated right through the carry.
pub open spec fn ror_spec_value(v: u8, f: u8) -> u8 {
    let c: int = if f & FLAG_C != 0 { 128 } else { 0 };
    (v / 2 + c) as u8
}

/// Bit test: Z tells whether `a & v` is zero, N and V copy bits 7 and 6 of `v`.
pub open spec fn bit_flags(a: u8, v: u8, f: u8) -> u8 {
    with_flag(with_flag(with_flag(f, FLAG_Z, a & v == 0), FLAG_N, v & 0x80 != 0), FLAG_V, v & 0x40 != 0)
}

proof fn lemma_nz(f: u8, v: u8)
    ensures
        ((f & !(FLAG_N | FLAG_Z)) | (if v != 0 { if v & FLAG_N != 0 { FLAG_N } else { 0u8 } } else { FLAG_Z })) == nz_flags(f, v),
        nz_flags(f, v) & !(FLAG_N | FLAG_Z) == f & !(FLAG_N | FLAG_Z),
{
    lemma_byte_facts(v, f, 0);
}

proof fn lemma_nibbles(a: u8)
    ensures
        a & 0x0f <= 15,
        a >> 4u8 <= 15,
        (a & 0x80 != 0) == (a >= 128),
{
    lemma_byte_facts(a, 0, 0);
}

proof fn lemma_adc_binary(a: u8, v: u8, f: u8)
    by (bit_vector)
    ensures ({
        let c: u16 = if f & FLAG_C != 0 { 1u16 } else { 0u16 };
        let sum: u16 = (a as u16 + v as u16 + c) as u16;
        let r = sum as u8;
        let f1 = f & !(FLAG_V | FLAG_C);
        let f2 = (f1 & !(FLAG_N | FLAG_Z)) | (if r != 0 { if r & FLAG_N != 0 { FLAG_N } else { 0u8 } } else { FLAG_Z });
        let f3 = if !(a ^ v) & (a ^ r) & 0x80 != 0 { f2 | FLAG_V } else { f2 };
        let f4 = if sum & 0xff00 != 0 { f3 | FLAG_C } else { f3 };
        r == adc_binary_value(a, v, f) && f4 == adc_binary_flags(a, v, f)
    }),
{
}

proof fn lemma_sbc_binary(a: u8, v: u8, f: u8)
    by (bit_vector)
    ensures ({
        let c: u8 = if f & FLAG_C != 0 { 0u8 } else { 1u8 };
        let diff: u16 = ((a as u16 - v as u16 - c as u16 + 0x10000) % 0x10000) as u16;
        let r = diff as u8;
        let f1 = f & !(FLAG_V | FLAG_C);
        let f2 = (f1 & !(FLAG_N | FLAG_Z)) | (if r != 0 { if r & FLAG_N != 0 { FLAG_N } else { 0u8 } } else { FLAG_Z });
        let f3 = if ((a ^ v) & (a ^ r) & 0x80) != 0 { f2 | FLAG_V } else { f2 };
        let f4 = if diff & 0xff00 == 0 { f3 | FLAG_C } else { f3 };
        r == sbc_binary_value(a, v, f) && f4 == sbc_binary_flags(a, v, f)
    }),
{
}

proof fn lemma_shifts(v: u8, f: u8)
    by (bit_vector)
    ensures ({
        let r = v << 1u8;
        let g = (f & !(FLAG_N | FLAG_Z)) | (if r != 0 { if r & FLAG_N != 0 { FLAG_N } else { 0u8 } } else { FLAG_Z });
        let g2 = g & !FLAG_C;
        r == asl_spec_value(v, f) && (if v & 0x80 != 0 { g2 | FLAG_C } else { g2 }) == with_flag(nz_flags(f, asl_spec_value(v, f)), FLAG_C, v >= 128)
    }),
    ({
        let r = v >> 1u8;
        let g = (f & !(FLAG_N | FLAG_Z)) | (if r != 0 { if r & FLAG_N != 0 { FLAG_N } else { 0u8 } } else { FLAG_Z });
        let g2 = g & !FLAG_C;
        r == lsr_spec_value(v, f) && (if v & 0x01 != 0 { g2 | FLAG_C } else { g2 }) == with_flag(nz_flags(f, lsr_spec_value(v, f)), FLAG_C, v % 2 == 1)
    }),
    ({
        let f1 = f & !(FLAG_N | FLAG_Z | FLAG_C);
        let f2 = if v & 0x80 != 0 { f1 | FLAG_C } else { f1 };
        let r0 = v << 1u8;
        let r = if f & FLAG_C != 0 { r0 | 1 } else { r0 };
        let f3 = (f2 & !(FLAG_N | FLAG_Z)) | (if r != 0 { if r & FLAG_N != 0 { FLAG_N } else { 0u8 } } else { FLAG_Z });
        r == rol_spec_value(v, f) && f3 == with_flag(nz_flags(f, rol_spec_value(v, f)), FLAG_C, v >= 128)
    }),
    ({
        let f1 = f & !(FLAG_N | FLAG_Z | FLAG_C);
        let f2 = if v & 1 != 0 { f1 | FLAG_C } else { f1 };
        let r0 = v >> 1u8;
        let r = if f & FLAG_C != 0 { r0 | 0x80 } else { r0 };
        let f3 = (f2 & !(FLAG_N | FLAG_Z)) | (if r != 0 { if r & FLAG_N != 0 { FLAG_N } else { 0u8 } } else { FLAG_Z });
        r == ror_spec_value(v, f) && f3 == with_flag(nz_flags(f, ror_spec_value(v, f)), FLAG_C, v % 2 == 1)
    }),
{
}

proof fn lemma_compare_bit(r: u8, v: u8, f: u8, a: u8)
    by (bit_vector)
    ensures ({
        let t: u16 = ((r as u16 - v as u16 + 0x10000) % 0x10000) as u16;
        let t8 = t as u8;
        let g = (f & !(FLAG_N | FLAG_Z)) | (if t8 != 0 { if t8 & FLAG_N != 0 { FLAG_N } else { 0u8 } } else { FLAG_Z });
        let g2 = g & !FLAG_C;
        (if t & 0xff00 == 0 { g2 | FLAG_C } else { g2 }) == compare_flags(r, v, f)
    }),
    ({
        let t = a & v;
        let f1 = f & !(FLAG_N | FLAG_Z | FLAG_V);
        let f2 = if t == 0 { f1 | FLAG_Z } else { f1 };
        (f2 | (v & (FLAG_N | FLAG_V))) == bit_flags(a, v, f)
    }),
{
}

fn adc_decimal_exec(a: u8, v: u8, f: u8) -> (r: (u8, u8))
    ensures
    r == adc_decimal(a, v, f),
{
    proof {
        lemma_nibbles(a);
        lemma_nibbles(v);
    }
    let c: u8 = if f & FLAG_C != 0 { 1 } else { 0 };
    let mut fl = f & !(FLAG_N | FLAG_V | FLAG_Z | FLAG_C);
    let mut al: u8 = (a & 0x0f) + (v & 0x0f) + c;
    if al > 9 {
        al = al + 6;
    }
    let mut ah: u8 = (a >> 4) + (v >> 4) + (if al > 0x0f { 1 } else { 0 });
    if ((a as u16 + v as u16 + c as u16) as u16) & 0xff == 0 {
        fl = fl | FLAG_Z;
    } else if ah & 0x08 != 0 {
        fl = fl | FLAG_N;
    }
    if (!(a ^ v) & (a ^ (ah << 4u8))) & 0x80 != 0 {
        fl = fl | FLAG_V;
    }
    if ah > 9 {
        ah = ah + 6;
    }
    if ah > 15 {
        fl = fl | FLAG_C;
    }
    ((ah << 4u8) | (al & 0x0f), fl)
}

fn sbc_decimal_exec(a: u8, v: u8, f: u8) -> (r: (u8, u8))
    ensures
    r == sbc_decimal(a, v, f),
{
    let c: u8 = if f & FLAG_C != 0 { 0 } else { 1 };
    let mut fl = f & !(FLAG_N | FLAG_V | FLAG_Z | FLAG_C);
    let diff: u16 = (a as u16).wrapping_sub(v as u16).wrapping_sub(c as u16);
    assert(diff == ((a as int - v as int - c as int + 0x10000) % 0x10000) as u16);
    let mut al: u8 = (a & 0x0f).wrapping_sub(v & 0x0f).wrapping_sub(c);
    assert(al == (((a & 0x0f) as int - (v & 0x0f) as int - c as int + 0x100) % 0x100) as u8);
    if al >= 0x80 {
        al = al - 6;
    }
    let mut ah: u8 = (a >> 4).wrapping_sub(v >> 4).wrapping_sub(if al >= 0x80 { 1 } else { 0 });
    if diff & 0xff == 0 {
        fl = fl | FLAG_Z;
    } else if diff & 0x80 != 0 {
        fl = fl | FLAG_N;
    }
    if ((a ^ v) & (a ^ (diff as u8)) & 0x80) != 0 {
        fl = fl | FLAG_V;
    }
    if diff & 0xff00 == 0 {
        fl = fl | FLAG_C;
    }
    proof {
        lemma_nibbles(ah);
    }
    if ah & 0x80 != 0 {
        ah = ah - 6;
    }
    ((ah << 4u8) | (al & 0x0f), fl)
}

/// The 65C02 core's registers and the state of the instruction in flight.
#[derive(Clone, Copy)]
pub struct M6502 {
    a: u8,
    x: u8,
    y: u8,
    s: u8,
    pc: u16,
    ad: u16,
    flags: M6502Flags,
    break_flags: M6502BreakFlags,
    pins: CPUPins,
    ir: u8,
    ir_step: u8,
    irq_pip: u16,
    nmi_pip: u16,
    pub last_ir_pc: u16,
}

/// The abstract state of an [`M6502`].
pub struct M6502View {
    pub a: u8,
    pub x: u8,
    pub y: u8,
    pub s: u8,
    pub pc: u16,
    pub ad: u16,
    pub flags: u8,
    pub break_flags: u8,
    pub pins: u32,
    pub ir: u8,
    pub ir_step: u8,
    pub irq_pip: u16,
    pub nmi_pip: u16,
    pub last_ir_pc: u16,
}

impl View for M6502 {
    type V = M6502View;

    closed spec fn view(&self) -> M6502View {
        M6502View {
            a: self.a,
            x: self.x,
            y: self.y,
            s: self.s,
            pc: self.pc,
            ad: self.ad,
            flags: self.flags@,
            break_flags: self.break_flags@,
            pins: self.pins@,
            ir: self.ir,
            ir_step: self.ir_step,
            irq_pip: self.irq_pip,
            nmi_pip: self.nmi_pip,
            last_ir_pc: self.last_ir_pc,
        }
    }
}

impl M6502 {
    /// A core after power-on: registers cleared, flags at their default, and
    /// the RW, SYNC and RES pins on so that the first tick runs the reset
    /// sequence.
    pub fn new() -> (r: M6502)
        ensures
            r@ == (M6502View {
                a: 0, x: 0, y: 0, s: 0, pc: 0, ad: 0, flags: 0x26, break_flags: 0,
                pins: M6502_RW | M6502_SYNC | M6502_RES, ir: 0, ir_step: 0,
                irq_pip: 0, nmi_pip: 0, last_ir_pc: 0,
            }),
    {
        let mut c = M6502 {
            a: 0,
            x: 0,
            y: 0,
            s: 0,
            pc: 0,
            ad: 0,
            flags: M6502Flags::default(),
            break_flags: M6502BreakFlags::empty(),
            pins: CPUPins::default(),
            ir: 0,
            ir_step: 0,
            irq_pip: 0,
            nmi_pip: 0,
            last_ir_pc: 0,
        };
        c.init();
        c
    }

    /// Puts the RW, SYNC and RES pins on and restarts the instruction.
    pub fn init(&mut self)
        ensures
            final(self)@ == (M6502View {
                pins: M6502_RW | M6502_SYNC | M6502_RES, ir: 0, ir_step: 0, ..old(self)@
            }),
    {
        self.pins.set(M6502_RW | M6502_SYNC | M6502_RES);
        self.ir = 0;
        self.ir_step = 0;
    }

    fn adc(&mut self, val: u8)
        ensures
            (final(self)@.a, final(self)@.flags) == (if old(self)@.flags & FLAG_D != 0 {
                adc_decimal(old(self)@.a, val, old(self)@.flags)
            } else {
                adc_binary(old(self)@.a, val, old(self)@.flags)
            }),
            final(self)@ == (M6502View { a: final(self)@.a, flags: final(self)@.flags, ..old(self)@ }),
    {
        let a = self.a;
        let f = self.flags.bits;
        if f & FLAG_D != 0 {
            let (r, fl) = adc_decimal_exec(a, val, f);
            self.a = r;
            self.flags.bits = fl;
        } else {
            proof {
                lemma_adc_binary(a, val, f);
            }
            let c: u16 = if f & FLAG_C != 0 { 1 } else { 0 };
            let sum: u16 = a as u16 + val as u16 + c;
            let r = sum as u8;
            let f1 = f & !(FLAG_V | FLAG_C);
            let mut f2 = (f1 & !(FLAG_N | FLAG_Z)) | (if r != 0 { if r & FLAG_N != 0 { FLAG_N } else { 0u8 } } else { FLAG_Z });
            if !(a ^ val) & (a ^ r) & 0x80 != 0 {
                f2 = f2 | FLAG_V;
            }
            if sum & 0xff00 != 0 {
                f2 = f2 | FLAG_C;
            }
            self.flags.bits = f2;
            self.a = r;
        }
    }

    fn sbc(&mut self, val: u8)
        ensures
            (final(self)@.a, final(self)@.flags) == (if old(self)@.flags & FLAG_D != 0 {
                sbc_decimal(old(self)@.a, val, old(self)@.flags)
            } else {
                sbc_binary(old(self)@.a, val, old(self)@.flags)
            }),
            final(self)@ == (M6502View { a: final(self)@.a, flags: final(self)@.flags, ..old(self)@ }),
    {
        let a = self.a;
        let f = self.flags.bits;
        if f & FLAG_D != 0 {
            let (r, fl) = sbc_decimal_exec(a, val, f);
            self.a = r;
            self.flags.bits = fl;
        } else {
            proof {
                lemma_sbc_binary(a, val, f);
            }
            let c: u8 = if f & FLAG_C != 0 { 0 } else { 1 };
            let diff: u16 = (a as u16).wrapping_sub(val as u16).wrapping_sub(c as u16);
            let r = diff as u8;
            let f1 = f & !(FLAG_V | FLAG_C);
            let mut f2 = (f1 & !(FLAG_N | FLAG_Z)) | (if r != 0 { if r & FLAG_N != 0 { FLAG_N } else { 0u8 } } else { FLAG_Z });
            if ((a ^ val) & (a ^ r) & 0x80) != 0 {
                f2 = f2 | FLAG_V;
            }
            if diff & 0xff00 == 0 {
                f2 = f2 | FLAG_C;
            }
            self.flags.bits = f2;
            self.a = r;
        }
    }

    fn compare(&mut self, r: u8, v: u8)
        ensures
            final(self)@ == (M6502View { flags: compare_flags(r, v, old(self)@.flags), ..old(self)@ }),
    {
        let f = self.flags.bits;
        proof {
            lemma_compare_bit(r, v, f, self.a);
        }
        let t: u16 = (r as u16).wrapping_sub(v as u16);
        let t8 = t as u8;
        let g = (f & !(FLAG_N | FLAG_Z)) | (if t8 != 0 { if t8 & FLAG_N != 0 { FLAG_N } else { 0u8 } } else { FLAG_Z });
        let g2 = g & !FLAG_C;
        self.flags.bits = if t & 0xff00 == 0 { g2 | FLAG_C } else { g2 };
    }

    fn asl(&mut self, v: u8) -> (r: u8)
        ensures
            (r, final(self)@.flags) == asl_spec(v, old(self)@.flags),
            final(self)@ == (M6502View { flags: final(self)@.flags, ..old(self)@ }),
    {
        let f = self.flags.bits;
        proof {
            lemma_shifts(v, f);
        }
        let r = v << 1u8;
        let g = (f & !(FLAG_N | FLAG_Z)) | (if r != 0 { if r & FLAG_N != 0 { FLAG_N } else { 0u8 } } else { FLAG_Z });
        let g2 = g & !FLAG_C;
        self.flags.bits = if v & 0x80 != 0 { g2 | FLAG_C } else { g2 };
        r
    }

    fn lsr(&mut self, v: u8) -> (r: u8)
        ensures
            (r, final(self)@.flags) == lsr_spec(v, old(self)@.flags),
            final(self)@ == (M6502View { flags: final(self)@.flags, ..old(self)@ }),
    {
        let f = self.flags.bits;
        proof {
            lemma_shifts(v, f);
        }
        let r = v >> 1u8;
        let g = (f & !(FLAG_N | FLAG_Z)) | (if r != 0 { if r & FLAG_N != 0 { FLAG_N } else { 0u8 } } else { FLAG_Z });
        let g2 = g & !FLAG_C;
        self.flags.bits = if v & 0x01 != 0 { g2 | FLAG_C } else { g2 };
        r
    }

    fn rol(&mut self, v: u8) -> (r: u8)
        ensures
            (r, final(self)@.flags) == rol_spec(v, old(self)@.flags),
            final(self)@ == (M6502View { flags: final(self)@.flags, ..old(self)@ }),
    {
        let f = self.flags.bits;
        proof {
            lemma_shifts(v, f);
        }
        let f1 = f & !(FLAG_N | FLAG_Z | FLAG_C);
        let f2 = if v & 0x80 != 0 { f1 | FLAG_C } else { f1 };
        let r0 = v << 1u8;
        let r = if f & FLAG_C != 0 { r0 | 1 } else { r0 };
        self.flags.bits = (f2 & !(FLAG_N | FLAG_Z)) | (if r != 0 { if r & FLAG_N != 0 { FLAG_N } else { 0u8 } } else { FLAG_Z });
        r
    }

    fn ror(&mut self, v: u8) -> (r: u8)
        ensures
            (r, final(self)@.flags) == ror_spec(v, old(self)@.flags),
            final(self)@ == (M6502View { flags: final(self)@.flags, ..old(self)@ }),
    {
        let f = self.flags.bits;
        proof {
            lemma_shifts(v, f);
        }
        let f1 = f & !(FLAG_N | FLAG_Z | FLAG_C);
        let f2 = if v & 1 != 0 { f1 | FLAG_C } else { f1 };
        let r0 = v >> 1u8;
        let r = if f & FLAG_C != 0 { r0 | 0x80 } else { r0 };
        self.flags.bits = (f2 & !(FLAG_N | FLAG_Z)) | (if r != 0 { if r & FLAG_N != 0 { FLAG_N } else { 0u8 } } else { FLAG_Z });
        r
    }

    fn bit(&mut self, v: u8)
        ensures
            final(self)@ == (M6502View { flags: bit_flags(old(self)@.a, v, old(self)@.flags), ..old(self)@ }),
    {
        proof {
            lemma_compare_bit(0, 0, self.flags.bits, self.a);
            lemma_compare_bit(0, v, self.flags.bits, self.a);
        }
        let t: u8 = self.a & v;
        self.flags.bits = self.flags.bits & !(FLAG_N | FLAG_Z | FLAG_V);
        if t == 0 {
            self.flags.bits = self.flags.bits | FLAG_Z;
        }
        self.flags.bits = self.flags.bits | (v & (FLAG_N | FLAG_V));
    }

    /// Sets Z when `value` is zero, clears it otherwise.
    pub fn z(&mut self, value: u8)
        ensures
            final(self)@ == (M6502View { flags: with_flag(old(self)@.flags, FLAG_Z, value == 0), ..old(self)@ }),
    {
        if value == 0 {
            self.flags.bits = self.flags.bits | FLAG_Z;
        } else {
            self.flags.bits = self.flags.bits & !FLAG_Z;
        }
    }

    /// Sets N and Z after the result `value`.
    pub fn nz(&mut self, value: u8)
        ensures
            final(self)@ == (M6502View { flags: nz_flags(old(self)@.flags, value), ..old(self)@ }),
    {
        proof {
            lemma_nz(self.flags.bits, value);
        }
        self.flags.bits = self.flags.bits & !(FLAG_N | FLAG_Z);
        self.flags.bits = self.flags.bits | (if value != 0 {
            if value & FLAG_N != 0 {
                FLAG_N
            } else {
                0u8
            }
        } else {
            FLAG_Z
        });
    }

    pub fn set_a(&mut self, a: u8)
        ensures
            final(self)@ == (M6502View { a, ..old(self)@ }),
    {
        self.a = a;
    }

    pub fn set_x(&mut self, x: u8)
        ensures
            final(self)@ == (M6502View { x, ..old(self)@ }),
    {
        self.x = x;
    }

    pub fn set_y(&mut self, y: u8)
        ensures
            final(self)@ == (M6502View { y, ..old(self)@ }),
    {
        self.y = y;
    }

    pub fn set_s(&mut self, s: u8)
        ensures
            final(self)@ == (M6502View { s, ..old(self)@ }),
    {
        self.s = s;
    }

    pub fn set_pc(&mut self, pc: u16)
        ensures
            final(self)@ == (M6502View { pc, ..old(self)@ }),
    {
        self.pc = pc;
    }

    pub fn set_flags(&mut self, flags: M6502Flags)
        ensures
            final(self)@ == (M6502View { flags: flags@, ..old(self)@ }),
    {
        self.flags = flags;
    }

    pub fn a(&self) -> (r: u8)
        ensures
            r == self@.a,
    {
        self.a
    }

    pub fn x(&self) -> (r: u8)
        ensures
            r == self@.x,
    {
        self.x
    }

    pub fn y(&self) -> (r: u8)
        ensures
            r == self@.y,
    {
        self.y
    }

    pub fn s(&self) -> (r: u8)
        ensures
            r == self@.s,
    {
        self.s
    }

    pub fn pc(&self) -> (r: u16)
        ensures
            r == self@.pc,
    {
        self.pc
    }

    pub fn flags(&self) -> (r: M6502Flags)
        ensures
            r@ == self@.flags,
    {
        self.flags
    }

    pub fn break_flags(&self) -> (r: M6502BreakFlags)
        ensures
            r@ == self@.break_flags,
    {
        self.break_flags
    }

    pub fn pins(&self) -> (r: CPUPins)
        ensures
            r@ == self@.pins,
    {
        self.pins
    }

    pub fn ir_step(&self) -> (r: u8)
        ensures
            r == self@.ir_step,
    {
        self.ir_step
    }

    /// Whether a tick with `pins` finds a step of the current instruction to
    /// run: either an opcode fetch is signalled, or the instruction has steps
    /// left.
    pub open spec fn ready_for(&self, pins: u32) -> bool {
        pins_sync(pins) || self@.ir_step < step_count(self@.ir)
    }
}

impl Default for M6502 {
    fn default() -> (r: M6502)
        ensures
            r@.pins == M6502_RW | M6502_SYNC | M6502_RES,
            r@.ir_step == 0,
    {
        M6502::new()
    }
}

proof fn lemma_any_control(p: u32)
    ensures
        p & (M6502_SYNC | M6502_IRQ | M6502_NMI | M6502_RDY | M6502_RES) == 0 ==> p & M6502_SYNC == 0,
        p & (M6502_SYNC | M6502_IRQ | M6502_NMI | M6502_RDY | M6502_RES) == 0 ==> p & M6502_RDY == 0,
        p & M6502_SYNC != 0 ==> p & (M6502_SYNC | M6502_IRQ | M6502_NMI | M6502_RDY | M6502_RES) != 0,
        (p & !M6502_SYNC) & M6502_SYNC == 0,
{
    lemma_pin_word(p, 0, 0, 0);
}

/// Runs the 65C02 one bus cycle at a time: each tick performs the next step
/// of the current instruction, as the 65C02's cycle-by-cycle tables give it.
pub struct M6502Stepper {}

impl M6502Stepper {
    /// The stepper.
    pub fn new() -> (r: M6502Stepper) {
        M6502Stepper {}
    }

    /// One bus cycle. Where the incoming pins signal an opcode fetch, the
    /// opcode on the data lines is latched (or BRK forced when an interrupt
    /// or reset is pending); with RDY on during a read the core stalls;
    /// otherwise the next step of the current instruction runs. The pins the
    /// core drives are returned and kept in the core. A tick that runs a
    /// step needs a step to run, and leaves the core with one for the next
    /// tick; a stalled tick runs none and can be made on any core.
    pub fn tick(&self, cpu: &mut M6502, pins: CPUPins) -> (r: CPUPins)
        requires
            stalled(pins@) || old(cpu).ready_for(pins@),
        ensures
            final(cpu)@ == tick_spec(old(cpu)@, pins@),
            final(cpu)@.pins == r@,
            !stalled(pins@) ==> final(cpu).ready_for(r@),
            stalled(pins@) ==> (final(cpu).ready_for(r@) <==> old(cpu).ready_for(pins@)),
            stalled(pins@) ==> final(cpu)@ == (M6502View {
                pins: pins@,
                irq_pip: final(cpu)@.irq_pip,
                nmi_pip: final(cpu)@.nmi_pip,
                ..old(cpu)@
            }),
            pins@ & M6502_RDY != 0 && pins@ & M6502_RW != 0 ==> r == pins && final(cpu)@.ir
                == old(cpu)@.ir && final(cpu)@.ir_step == old(cpu)@.ir_step && final(cpu)@.a
                == old(cpu)@.a && final(cpu)@.pc == old(cpu)@.pc,
            !(pins@ & M6502_RDY != 0 && pins@ & M6502_RW != 0) && pins_sync(pins@) ==> final(cpu)@.last_ir_pc
                == pins_addr(pins@) && final(cpu)@.ir_step == 1 && final(cpu)@.ir == (if final(cpu)@.break_flags
                != 0 {
                0
            } else {
                pins_data(pins@)
            }),
    {
        let mut ps = pins;
        proof {
            lemma_any_control(ps@);
        }
        if ps.is_set(M6502_SYNC | M6502_IRQ | M6502_NMI | M6502_RDY | M6502_RES) {
            if 0 != (ps.pins() & (ps.pins() ^ cpu.pins.pins()) & M6502_NMI) {
                cpu.nmi_pip = cpu.nmi_pip | 0x100;
            }
            // IRQ is level triggered
            if ps.is_set(M6502_IRQ) && !cpu.flags.contains(M6502Flags::I()) {
                cpu.irq_pip = cpu.irq_pip | 0x100;
            }
            // RDY is only checked during read cycles
            if ps.is_set(M6502_RDY) && ps.is_set(M6502_RW) {
                cpu.pins = ps;
                cpu.irq_pip = cpu.irq_pip << 1u16;
                return ps;
            }
            if ps.is_set(M6502_SYNC) {
                cpu.ir = ps.gd();
                cpu.ir_step = 0;
                ps.pin_off(M6502_SYNC);
                cpu.last_ir_pc = ps.ga();
                // IRQ must be active during the whole cycle before SYNC, NMI
                // changes may come at any cycle before it, RES is taken at once.
                if 0 != (cpu.irq_pip & 0x400) {
                    cpu.break_flags.bits = cpu.break_flags.bits | BREAK_IRQ;
                }
                if 0 != (cpu.nmi_pip & 0xfc00) {
                    cpu.break_flags.bits = cpu.break_flags.bits | BREAK_NMI;
                }
                if pins.is_set(M6502_RES) {
                    cpu.break_flags.bits = cpu.break_flags.bits | BREAK_RESET;
                }
                cpu.irq_pip = cpu.irq_pip & 0x3ff;
                cpu.nmi_pip = cpu.nmi_pip & 0x3ff;
                // a pending interrupt or reset runs as a forced BRK
                if cpu.break_flags.bits != 0 {
                    cpu.ir = 0;
                    cpu.flags.bits = cpu.flags.bits & !FLAG_B;
                    ps.pin_off(M6502_RES);
                } else {
                    cpu.pc = cpu.pc.wrapping_add(1);
                }
            }
        }
        ps.pin_on(M6502_RW);
        opcodes::step(cpu, &mut ps);
        cpu.ir_step = cpu.ir_step + 1;
        cpu.pins = ps;
        cpu.irq_pip = cpu.irq_pip << 1u16;
        cpu.nmi_pip = cpu.nmi_pip << 1u16;
        cpu.pins
    }
}

impl Default for M6502Stepper {
    fn default() -> (r: M6502Stepper) {
        M6502Stepper::new()
    }
}



/// The core after an opcode fetch is seen on the pins `p`: the opcode and
/// its address are latched, pending interrupts and reset are taken into the
/// break flags, and a pending one forces a BRK (B cleared, RES released);
/// otherwise the program counter moves past the opcode. Gives the core and
/// the pins.
pub open spec fn opcode_fetched(c: M6502View, p: u32) -> (M6502View, u32) {
    let q = p & !M6502_SYNC;
    let b1 = if c.irq_pip & 0x400 != 0 { c.break_flags | BREAK_IRQ } else { c.break_flags };
    let b2 = if c.nmi_pip & 0xfc00 != 0 { b1 | BREAK_NMI } else { b1 };
    let b3 = if p & M6502_RES != 0 { b2 | BREAK_RESET } else { b2 };
    let c1 = M6502View {
        ir: pins_data(p),
        ir_step: 0,
        last_ir_pc: pins_addr(q),
        break_flags: b3,
        irq_pip: c.irq_pip & 0x3ff,
        nmi_pip: c.nmi_pip & 0x3ff,
        ..c
    };
    if b3 != 0 {
        (M6502View { ir: 0, flags: c1.flags & !FLAG_B, ..c1 }, q & !M6502_RES)
    } else {
        (M6502View { pc: c1.pc.wrapping_add(1), ..c1 }, q)
    }
}

/// Whether the incoming pins stall the core: RDY during a read cycle.
pub open spec fn stalled(p: u32) -> bool {
    p & M6502_RDY != 0 && p & M6502_RW != 0
}

/// The core after one bus cycle with incoming pins `p`: a rising NMI, and
/// IRQ while interrupts are enabled, enter their pipelines; a stall keeps
/// everything but the pins and the IRQ pipeline; otherwise an opcode fetch
/// is latched, the RW pin is set to read, the current step of the
/// instruction runs ([`step_spec`]) and the step counter advances. The
/// pins the core drives are its `pins`.
pub open spec fn tick_spec(c: M6502View, p: u32) -> M6502View {
    let ctrl = p & (M6502_SYNC | M6502_IRQ | M6502_NMI | M6502_RDY | M6502_RES) != 0;
    let c1 = if ctrl && p & (p ^ c.pins) & M6502_NMI != 0 { M6502View { nmi_pip: c.nmi_pip | 0x100, ..c } } else { c };
    let c2 = if ctrl && p & M6502_IRQ != 0 && !(c1.flags & FLAG_I == FLAG_I) {
        M6502View { irq_pip: c1.irq_pip | 0x100, ..c1 }
    } else {
        c1
    };
    if ctrl && stalled(p) {
        M6502View { pins: p, irq_pip: c2.irq_pip << 1u16, ..c2 }
    } else {
        let (c3, p3) = if ctrl && p & M6502_SYNC != 0 { opcode_fetched(c2, p) } else { (c2, p) };
        let (c4, p4) = step_spec(c3, p3 | M6502_RW);
        M6502View {
            ir_step: (c4.ir_step + 1) as u8,
            pins: p4,
            irq_pip: c4.irq_pip << 1u16,
            nmi_pip: c4.nmi_pip << 1u16,
            ..c4
        }
    }
}

/// In binary mode, subtracting with no borrow what was added with no carry
/// gives back the accumulator.
pub proof fn lemma_sbc_undoes_adc(a: u8, v: u8, f: u8, g: u8)
    requires
        f & FLAG_C == 0,
        g & FLAG_C != 0,
    ensures
        sbc_binary_value(adc_binary_value(a, v, f), v, g) == a,
{
    let s = adc_binary_value(a, v, f);
    assert(s == (a + v) % 256);
    if a + v >= 256 {
        assert(s == a + v - 256);
    } else {
        assert(s == a + v);
    }
}
} // verus!

verus! {

/// Whether `x` is a valid BCD byte: both its digits are 0 to 9.
pub open spec fn is_bcd(x: u8) -> bool {
    x % 16 <= 9 && x / 16 <= 9
}

/// The number a BCD byte stands for.
pub open spec fn bcd_value(x: u8) -> int {
    (x / 16) * 10 + x % 16
}

/// Decimal ADC adds: with A and the operand valid BCD, A takes the BCD
/// encoding of the decimal sum with the carry, modulo 100, and the carry is
/// set exactly when that sum reaches 100.
pub proof fn lemma_adc_decimal_adds(a: u8, v: u8, f: u8)
    requires
        is_bcd(a),
        is_bcd(v),
    ensures
        ({
            let c: int = if f & FLAG_C != 0 { 1 } else { 0 };
            let (r, g) = adc_decimal(a, v, f);
            let sum = bcd_value(a) + bcd_value(v) + c;
            &&& is_bcd(r)
            &&& bcd_value(r) == sum % 100
            &&& (g & FLAG_C != 0) == (sum >= 100)
        }),
{
    let c: u8 = if f & FLAG_C != 0 { 1 } else { 0 };
    lemma_adc_decimal_digits(a, v, c, f);
}

/// The digit arithmetic of decimal ADC on valid BCD bytes.
proof fn lemma_adc_decimal_digits(a: u8, v: u8, c: u8, f: u8)
    by (bit_vector)
    requires
        a % 16 <= 9 && a / 16 <= 9,
        v % 16 <= 9 && v / 16 <= 9,
        c == (if f & FLAG_C != 0 { 1u8 } else { 0u8 }),
    ensures
        ({
            let f0 = f & !(FLAG_N | FLAG_V | FLAG_Z | FLAG_C);
            let al0: u8 = ((a & 0x0f) + (v & 0x0f) + c) as u8;
            let al: u8 = if al0 > 9 { (al0 + 6) as u8 } else { al0 };
            let ah0: u8 = ((a >> 4) + (v >> 4) + (if al > 0x0f { 1u8 } else { 0u8 })) as u8;
            let f1 = if ((a as u16 + v as u16 + c as u16) as u16) & 0xff == 0 {
                f0 | FLAG_Z
            } else if ah0 & 0x08 != 0 {
                f0 | FLAG_N
            } else {
                f0
            };
            let f2 = if (!(a ^ v) & (a ^ (ah0 << 4u8))) & 0x80 != 0 { f1 | FLAG_V } else { f1 };
            let ah: u8 = if ah0 > 9 { (ah0 + 6) as u8 } else { ah0 };
            let f3 = if ah > 15 { f2 | FLAG_C } else { f2 };
            let r = (ah << 4u8) | (al & 0x0f);
            let sum = (a / 16) * 10 + a % 16 + (v / 16) * 10 + v % 16 + c;
            &&& r % 16 <= 9 && r / 16 <= 9
            &&& (r / 16) * 10 + r % 16 == sum % 100
            &&& (f3 & FLAG_C != 0) == (sum >= 100)
        }),
{
}

} // verus!
