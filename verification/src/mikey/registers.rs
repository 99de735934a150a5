//! Mikey's register file: the hardware registers, UART and display
//! control, the palette and the audio attenuations.
use vstd::prelude::*;
use crate::consts::{ATTEN_A, ATTEN_B, ATTEN_C, ATTEN_D, BLUERED0, BLUEREDF, DISPADR, GREEN0, GREENF, MIK_ADDR, MPAN, MSTEREO};
use crate::mikey::MikeyInstruction;
use crate::mikey::uart::{Uart, UartView};
use crate::mikey::uart::redeye_status::RedeyeStatus;

verus! {

/// SERCTL as written: the UART's control bits.
#[derive(Clone, Copy, Debug, PartialEq, Eq, Structural)]
pub struct SerCtlW {
    bits: u8,
}

impl View for SerCtlW {
    type V = u8;

    closed spec fn view(&self) -> u8 {
        self.bits
    }
}

impl SerCtlW {
    /// The set of all defined flags.
    pub open spec fn spec_all() -> u8 {
        0xff
    }

    /// Transmit-ready interrupt enable.
    pub fn tx_int_en() -> (r: Self)
        ensures
            r@ == 0x80,
    {
        Self { bits: 0x80 }
    }

    /// Receive-ready interrupt enable.
    pub fn rx_int_en() -> (r: Self)
        ensures
            r@ == 0x40,
    {
        Self { bits: 0x40 }
    }

    /// Must be zero.
    pub fn zero() -> (r: Self)
        ensures
            r@ == 0x20,
    {
        Self { bits: 0x20 }
    }

    /// Parity enable.
    pub fn par_en() -> (r: Self)
        ensures
            r@ == 0x10,
    {
        Self { bits: 0x10 }
    }

    /// Clears the error flags.
    pub fn reset_err() -> (r: Self)
        ensures
            r@ == 0x8,
    {
        Self { bits: 0x8 }
    }

    /// Open-collector transmit.
    pub fn tx_open() -> (r: Self)
        ensures
            r@ == 0x4,
    {
        Self { bits: 0x4 }
    }

    /// Sends a break.
    pub fn tx_brk() -> (r: Self)
        ensures
            r@ == 0x2,
    {
        Self { bits: 0x2 }
    }

    /// Even parity (or the parity bit when parity is off).
    pub fn par_even() -> (r: Self)
        ensures
            r@ == 0x1,
    {
        Self { bits: 0x1 }
    }

    /// No flag set.
    pub fn empty() -> (r: Self)
        ensures
            r@ == 0,
    {
        Self { bits: 0 }
    }

    /// The flags as a byte.
    pub fn bits(&self) -> (r: u8)
        ensures
            r == self@,
    {
        self.bits
    }

    /// The flags of `bits`, or nothing where `bits` holds an undefined flag.
    pub fn from_bits(bits: u8) -> (r: Option<Self>)
        ensures
            r is Some,
            r matches Some(f) ==> f@ == bits,
    {
        proof { crate::mikey::cpu::lemma_full_byte(bits); }
        if bits & !0xffu8 == 0 {
            Some(Self { bits })
        } else {
            None
        }
    }

    /// The flags of `bits`, undefined flags dropped.
    pub fn from_bits_truncate(bits: u8) -> (r: Self)
        ensures
            r@ == bits & 0xffu8,
    {
        Self { bits: bits & 0xffu8 }
    }

    /// The flags of `bits`, undefined flags kept.
    pub fn from_bits_retain(bits: u8) -> (r: Self)
        ensures
            r@ == bits,
    {
        Self { bits }
    }

    /// Whether every flag of `other` is set.
    pub fn contains(&self, other: Self) -> (r: bool)
        ensures
            r == (self@ & other@ == other@),
    {
        self.bits & other.bits == other.bits
    }

    /// Whether no flag is set.
    pub fn is_empty(&self) -> (r: bool)
        ensures
            r == (self@ == 0),
    {
        self.bits == 0
    }

    /// The flags set in either.
    pub fn union(self, other: Self) -> (r: Self)
        ensures
            r@ == self@ | other@,
    {
        Self { bits: self.bits | other.bits }
    }

    /// The flags set in both.
    pub fn intersection(self, other: Self) -> (r: Self)
        ensures
            r@ == self@ & other@,
    {
        Self { bits: self.bits & other.bits }
    }

    /// The flags of `self` not in `other`.
    pub fn difference(self, other: Self) -> (r: Self)
        ensures
            r@ == self@ & !other@,
    {
        Self { bits: self.bits & !other.bits }
    }

    /// Sets (`value`) or clears the flags of `other`.
    pub fn set(&mut self, other: Self, value: bool)
        ensures
            final(self)@ == (if value { old(self)@ | other@ } else { old(self)@ & !other@ }),
    {
        if value {
            self.bits = self.bits | other.bits;
        } else {
            self.bits = self.bits & !other.bits;
        }
    }
}

/// SERCTL as read: the UART's status bits.
#[derive(Clone, Copy, Debug, PartialEq, Eq, Structural)]
pub struct SerCtlR {
    bits: u8,
}

impl View for SerCtlR {
    type V = u8;

    closed spec fn view(&self) -> u8 {
        self.bits
    }
}

impl SerCtlR {
    /// The set of all defined flags.
    pub open spec fn spec_all() -> u8 {
        0xff
    }

    /// The transmit holding register is free.
    pub fn tx_rdy() -> (r: Self)
        ensures
            r@ == 0x80,
    {
        Self { bits: 0x80 }
    }

    /// A byte was received.
    pub fn rx_rdy() -> (r: Self)
        ensures
            r@ == 0x40,
    {
        Self { bits: 0x40 }
    }

    /// Nothing is being sent.
    pub fn tx_empty() -> (r: Self)
        ensures
            r@ == 0x20,
    {
        Self { bits: 0x20 }
    }

    /// Parity error.
    pub fn par_err() -> (r: Self)
        ensures
            r@ == 0x10,
    {
        Self { bits: 0x10 }
    }

    /// A byte was received before the previous one was read.
    pub fn overrun() -> (r: Self)
        ensures
            r@ == 0x8,
    {
        Self { bits: 0x8 }
    }

    /// Framing error.
    pub fn frame_err() -> (r: Self)
        ensures
            r@ == 0x4,
    {
        Self { bits: 0x4 }
    }

    /// A break is being received.
    pub fn rx_brk() -> (r: Self)
        ensures
            r@ == 0x2,
    {
        Self { bits: 0x2 }
    }

    /// The parity bit of the byte sent.
    pub fn par_bit() -> (r: Self)
        ensures
            r@ == 0x1,
    {
        Self { bits: 0x1 }
    }

    /// No flag set.
    pub fn empty() -> (r: Self)
        ensures
            r@ == 0,
    {
        Self { bits: 0 }
    }

    /// The flags as a byte.
    pub fn bits(&self) -> (r: u8)
        ensures
            r == self@,
    {
        self.bits
    }

    /// The flags of `bits`, or nothing where `bits` holds an undefined flag.
    pub fn from_bits(bits: u8) -> (r: Option<Self>)
        ensures
            r is Some,
            r matches Some(f) ==> f@ == bits,
    {
        proof { crate::mikey::cpu::lemma_full_byte(bits); }
        if bits & !0xffu8 == 0 {
            Some(Self { bits })
        } else {
            None
        }
    }

    /// The flags of `bits`, undefined flags dropped.
    pub fn from_bits_truncate(bits: u8) -> (r: Self)
        ensures
            r@ == bits & 0xffu8,
    {
        Self { bits: bits & 0xffu8 }
    }

    /// The flags of `bits`, undefined flags kept.
    pub fn from_bits_retain(bits: u8) -> (r: Self)
        ensures
            r@ == bits,
    {
        Self { bits }
    }

    /// Whether every flag of `other` is set.
    pub fn contains(&self, other: Self) -> (r: bool)
        ensures
            r == (self@ & other@ == other@),
    {
        self.bits & other.bits == other.bits
    }

    /// Whether no flag is set.
    pub fn is_empty(&self) -> (r: bool)
        ensures
            r == (self@ == 0),
    {
        self.bits == 0
    }

    /// The flags set in either.
    pub fn union(self, other: Self) -> (r: Self)
        ensures
            r@ == self@ | other@,
    {
        Self { bits: self.bits | other.bits }
    }

    /// The flags set in both.
    pub fn intersection(self, other: Self) -> (r: Self)
        ensures
            r@ == self@ & other@,
    {
        Self { bits: self.bits & other.bits }
    }

    /// The flags of `self` not in `other`.
    pub fn difference(self, other: Self) -> (r: Self)
        ensures
            r@ == self@ & !other@,
    {
        Self { bits: self.bits & !other.bits }
    }

    /// Sets (`value`) or clears the flags of `other`.
    pub fn set(&mut self, other: Self, value: bool)
        ensures
            final(self)@ == (if value { old(self)@ | other@ } else { old(self)@ & !other@ }),
    {
        if value {
            self.bits = self.bits | other.bits;
        } else {
            self.bits = self.bits & !other.bits;
        }
    }
}

/// DISPCTL: the display control bits.
#[derive(Clone, Copy, Debug, PartialEq, Eq, Structural)]
pub struct DispCtl {
    bits: u8,
}

impl View for DispCtl {
    type V = u8;

    closed spec fn view(&self) -> u8 {
        self.bits
    }
}

impl DispCtl {
    /// The set of all defined flags.
    pub open spec fn spec_all() -> u8 {
        0xf
    }

    /// Colour display.
    pub fn color() -> (r: Self)
        ensures
            r@ == 0x8,
    {
        Self { bits: 0x8 }
    }

    /// Four bits per pixel.
    pub fn fourbit() -> (r: Self)
        ensures
            r@ == 0x4,
    {
        Self { bits: 0x4 }
    }

    /// The screen is flipped.
    pub fn flip() -> (r: Self)
        ensures
            r@ == 0x2,
    {
        Self { bits: 0x2 }
    }

    /// Video DMA enabled.
    pub fn dma_enable() -> (r: Self)
        ensures
            r@ == 0x1,
    {
        Self { bits: 0x1 }
    }

    /// No flag set.
    pub fn empty() -> (r: Self)
        ensures
            r@ == 0,
    {
        Self { bits: 0 }
    }

    /// The flags as a byte.
    pub fn bits(&self) -> (r: u8)
        ensures
            r == self@,
    {
        self.bits
    }

    /// The flags of `bits`, or nothing where `bits` holds an undefined flag.
    pub fn from_bits(bits: u8) -> (r: Option<Self>)
        ensures
            r is Some <==> bits & !0xfu8 == 0,
            r matches Some(f) ==> f@ == bits,
    {
        
        if bits & !0xfu8 == 0 {
            Some(Self { bits })
        } else {
            None
        }
    }

    /// The flags of `bits`, undefined flags dropped.
    pub fn from_bits_truncate(bits: u8) -> (r: Self)
        ensures
            r@ == bits & 0xfu8,
    {
        Self { bits: bits & 0xfu8 }
    }

    /// The flags of `bits`, undefined flags kept.
    pub fn from_bits_retain(bits: u8) -> (r: Self)
        ensures
            r@ == bits,
    {
        Self { bits }
    }

    /// Whether every flag of `other` is set.
    pub fn contains(&self, other: Self) -> (r: bool)
        ensures
            r == (self@ & other@ == other@),
    {
        self.bits & other.bits == other.bits
    }

    /// Whether no flag is set.
    pub fn is_empty(&self) -> (r: bool)
        ensures
            r == (self@ == 0),
    {
        self.bits == 0
    }

    /// The flags set in either.
    pub fn union(self, other: Self) -> (r: Self)
        ensures
            r@ == self@ | other@,
    {
        Self { bits: self.bits | other.bits }
    }

    /// The flags set in both.
    pub fn intersection(self, other: Self) -> (r: Self)
        ensures
            r@ == self@ & other@,
    {
        Self { bits: self.bits & other.bits }
    }

    /// The flags of `self` not in `other`.
    pub fn difference(self, other: Self) -> (r: Self)
        ensures
            r@ == self@ & !other@,
    {
        Self { bits: self.bits & !other.bits }
    }

    /// Sets (`value`) or clears the flags of `other`.
    pub fn set(&mut self, other: Self, value: bool)
        ensures
            final(self)@ == (if value { old(self)@ | other@ } else { old(self)@ & !other@ }),
    {
        if value {
            self.bits = self.bits | other.bits;
        } else {
            self.bits = self.bits & !other.bits;
        }
    }
}

/// Mikey's registers: the 256 byte-wide hardware registers, the split
/// state of SERCTL, the display control, the palette, the audio
/// attenuations, the cartridge address counters and the instruction in
/// progress.
pub struct MikeyRegisters {
    ticks_delay: u16,
    data_r: u16,
    addr_r: u16,
    ir: MikeyInstruction,
    data: [u8; 0x100],
    cart_shift: u8,
    cart_position: u16,
    audin: u16,
    serctl_r: SerCtlR,
    serctl_w: SerCtlW,
    dispctl: DispCtl,
    is_flipped: bool,
    palette_r: [u8; 16],
    palette_g: [u8; 16],
    palette_b: [u8; 16],
    attenuation_left: [u8; 4],
    attenuation_right: [u8; 4],
}

/// The abstract state of [`MikeyRegisters`]; attenuations are in
/// fifteenths (15 is full volume).
pub struct MikeyRegistersView {
    pub ticks_delay: u16,
    pub data_r: u16,
    pub addr_r: u16,
    pub ir: MikeyInstruction,
    pub data: Seq<u8>,
    pub cart_shift: u8,
    pub cart_position: u16,
    pub audin: u16,
    pub serctl_r: u8,
    pub serctl_w: u8,
    pub dispctl: u8,
    pub is_flipped: bool,
    pub palette_r: Seq<u8>,
    pub palette_g: Seq<u8>,
    pub palette_b: Seq<u8>,
    pub attenuation_left: Seq<u8>,
    pub attenuation_right: Seq<u8>,
}

impl View for MikeyRegisters {
    type V = MikeyRegistersView;

    closed spec fn view(&self) -> MikeyRegistersView {
        MikeyRegistersView {
            ticks_delay: self.ticks_delay,
            data_r: self.data_r,
            addr_r: self.addr_r,
            ir: self.ir,
            data: self.data@,
            cart_shift: self.cart_shift,
            cart_position: self.cart_position,
            audin: self.audin,
            serctl_r: self.serctl_r@,
            serctl_w: self.serctl_w@,
            dispctl: self.dispctl@,
            is_flipped: self.is_flipped,
            palette_r: self.palette_r@,
            palette_g: self.palette_g@,
            palette_b: self.palette_b@,
            attenuation_left: self.attenuation_left@,
            attenuation_right: self.attenuation_right@,
        }
    }
}

/// Whether `addr` is one of Mikey's registers.
pub open spec fn mikey_reg(addr: u16) -> bool {
    MIK_ADDR <= addr <= 0xfdff
}

/// The register at `addr`.
pub open spec fn mreg(d: Seq<u8>, addr: u16) -> u8 {
    d[addr - MIK_ADDR]
}

/// The little-endian word at `addr`.
pub open spec fn mword(d: Seq<u8>, addr: u16) -> u16 {
    (mreg(d, addr) + 256 * mreg(d, (addr + 1) as u16)) as u16
}

/// Channel `i`'s left attenuation in fifteenths: full when the channel is
/// not attenuated, the upper nibble of its attenuation register when it is
/// panned, silent otherwise.
pub open spec fn atten_left(d: Seq<u8>, i: int) -> u8 {
    let bit = (0x10u8 << (i as u8)) as u8;
    if mreg(d, MSTEREO) & bit != 0 {
        if mreg(d, MPAN) & bit != 0 {
            mreg(d, (ATTEN_A + i) as u16) >> 4u8
        } else {
            0
        }
    } else {
        15
    }
}

/// Channel `i`'s right attenuation in fifteenths, from the lower nibble.
pub open spec fn atten_right(d: Seq<u8>, i: int) -> u8 {
    let bit = (1u8 << (i as u8)) as u8;
    if mreg(d, MSTEREO) & bit != 0 {
        if mreg(d, MPAN) & bit != 0 {
            mreg(d, (ATTEN_A + i) as u16) & 0x0f
        } else {
            0
        }
    } else {
        15
    }
}

/// The register file after writing `data` to `addr`: a green register
/// keeps only its low nibble; a green or blue-red write recomputes that
/// pen's colour.
pub open spec fn mikey_data_written(v: MikeyRegistersView, addr: u16, data: u8) -> MikeyRegistersView {
    if GREEN0 <= addr <= GREENF {
        let d = v.data.update(addr - MIK_ADDR, data & 0x0f);
        pen_updated(MikeyRegistersView { data: d, ..v }, (addr - GREEN0) as int)
    } else if BLUERED0 <= addr <= BLUEREDF {
        let d = v.data.update(addr - MIK_ADDR, data);
        pen_updated(MikeyRegistersView { data: d, ..v }, (addr - BLUERED0) as int)
    } else {
        MikeyRegistersView { data: v.data.update(addr - MIK_ADDR, data), ..v }
    }
}

/// The palette with pen `i` recomputed from its green and blue-red
/// registers, each nibble scaled by 16.
pub open spec fn pen_updated(v: MikeyRegistersView, i: int) -> MikeyRegistersView {
    let bluered = mreg(v.data, (BLUERED0 + i) as u16);
    let green = mreg(v.data, (GREEN0 + i) as u16);
    MikeyRegistersView {
        palette_r: v.palette_r.update(i, ((bluered & 0xf) * 16) as u8),
        palette_g: v.palette_g.update(i, ((green & 0xf) * 16) as u8),
        palette_b: v.palette_b.update(i, ((bluered >> 4u8) * 16) as u8),
        ..v
    }
}

/// Whether the register file is consistent in its sizes.
pub open spec fn mikey_regs_wf(v: MikeyRegistersView) -> bool {
    &&& v.data.len() == 0x100
    &&& v.palette_r.len() == 16
    &&& v.palette_g.len() == 16
    &&& v.palette_b.len() == 16
    &&& v.attenuation_left.len() == 4
    &&& v.attenuation_right.len() == 4
}

impl MikeyRegisters {
    pub proof fn lemma_sizes(&self)
        ensures
            mikey_regs_wf(self@),
    {
    }

    /// Mikey's power-on registers: all zero but the attenuations (0xFF),
    /// with the UART ready and empty and four-bit video DMA enabled.
    pub fn new() -> (r: Self)
        ensures
            mikey_regs_wf(r@),
            r@.data == Seq::new(0x100, |i: int| 0u8).update(ATTEN_A - MIK_ADDR, 0xff).update(
                ATTEN_B - MIK_ADDR,
                0xff,
            ).update(ATTEN_C - MIK_ADDR, 0xff).update(ATTEN_D - MIK_ADDR, 0xff),
            r@.serctl_r == 0xa0,
            r@.serctl_w == 0,
            r@.dispctl == 0x05,
            !r@.is_flipped,
            r@.ir == MikeyInstruction::Idle,
            r@.ticks_delay == 0,
            r@.data_r == 0,
            r@.addr_r == 0,
            r@.cart_shift == 0,
            r@.cart_position == 0,
            r@.audin == 0,
            r@.palette_r == Seq::new(16, |i: int| 0u8),
            r@.palette_g == Seq::new(16, |i: int| 0u8),
            r@.palette_b == Seq::new(16, |i: int| 0u8),
            forall|i: int| 0 <= i < 4 ==> #[trigger] r@.attenuation_left[i] == atten_left(r@.data, i),
            forall|i: int| 0 <= i < 4 ==> #[trigger] r@.attenuation_right[i] == atten_right(r@.data, i),
    {
        let mut slf = Self {
            ticks_delay: 0,
            data_r: 0,
            addr_r: 0,
            ir: MikeyInstruction::Idle,
            data: [0; 0x100],
            cart_shift: 0,
            cart_position: 0,
            audin: 0,
            serctl_r: SerCtlR::tx_rdy().union(SerCtlR::tx_empty()),
            serctl_w: SerCtlW::empty(),
            dispctl: DispCtl::fourbit().union(DispCtl::dma_enable()),
            is_flipped: false,
            palette_r: [0; 16],
            palette_g: [0; 16],
            palette_b: [0; 16],
            attenuation_left: [0; 4],
            attenuation_right: [0; 4],
        };
        assert(0x80u8 | 0x20u8 == 0xa0u8 && 0x04u8 | 0x01u8 == 0x05u8) by (bit_vector);
        let ghost d0 = slf@.data;
        slf.set_data(ATTEN_A, 0xFF);
        slf.set_data(ATTEN_B, 0xFF);
        slf.set_data(ATTEN_C, 0xFF);
        slf.set_data(ATTEN_D, 0xFF);
        slf.update_attenuations();
        assert(slf@.palette_r =~= Seq::new(16, |i: int| 0u8));
        assert(slf@.palette_g =~= Seq::new(16, |i: int| 0u8));
        assert(slf@.palette_b =~= Seq::new(16, |i: int| 0u8));
        assert(d0 =~= Seq::new(0x100, |i: int| 0u8));
        slf
    }

    /// Shifts `bit` into the cartridge block address and restarts the
    /// position within the block.
    pub fn shift_cart_shift(&mut self, bit: u8)
        ensures
            final(self)@ == (MikeyRegistersView {
                cart_position: 0,
                cart_shift: (old(self)@.cart_shift << 1u8) | bit,
                ..old(self)@
            }),
    {
        self.cart_position = 0;
        self.cart_shift = self.cart_shift << 1;
        self.cart_shift = self.cart_shift | bit;
    }

    /// The cartridge block address.
    pub fn cart_shift(&self) -> (r: u8)
        ensures
            r == self@.cart_shift,
    {
        self.cart_shift
    }

    /// The position within the cartridge block.
    pub fn cart_position(&self) -> (r: u16)
        ensures
            r == self@.cart_position,
    {
        self.cart_position
    }

    /// Moves to the next byte of the block (stopping at the last position).
    pub fn inc_cart_position(&mut self)
        ensures
            final(self)@ == (MikeyRegistersView {
                cart_position: if old(self)@.cart_position == u16::MAX {
                    u16::MAX
                } else {
                    (old(self)@.cart_position + 1) as u16
                },
                ..old(self)@
            }),
    {
        self.cart_position = self.cart_position.saturating_add(1);
    }

    /// Restarts the position within the block.
    pub fn reset_cart_position(&mut self)
        ensures
            final(self)@ == (MikeyRegistersView { cart_position: 0, ..old(self)@ }),
    {
        self.cart_position = 0;
    }

    /// Clears the block address.
    pub fn reset_cart_shift(&mut self)
        ensures
            final(self)@ == (MikeyRegistersView { cart_shift: 0, ..old(self)@ }),
    {
        self.cart_shift = 0;
    }

    /// The red component of each pen.
    pub fn palette_r(&self) -> (r: &[u8; 16])
        ensures
            r@ == self@.palette_r,
    {
        &self.palette_r
    }

    /// The green component of each pen.
    pub fn palette_g(&self) -> (r: &[u8; 16])
        ensures
            r@ == self@.palette_g,
    {
        &self.palette_g
    }

    /// The blue component of each pen.
    pub fn palette_b(&self) -> (r: &[u8; 16])
        ensures
            r@ == self@.palette_b,
    {
        &self.palette_b
    }

    /// The register at `addr`.
    pub fn data(&self, addr: u16) -> (r: u8)
        requires
            mikey_reg(addr),
        ensures
            r == mreg(self@.data, addr),
    {
        self.data[(addr - MIK_ADDR) as usize]
    }

    /// Writes the register at `addr`; green registers keep only their low
    /// nibble, and palette writes recompute that pen's colour.
    pub fn set_data(&mut self, addr: u16, data: u8)
        requires
            mikey_reg(addr),
        ensures
            final(self)@ == mikey_data_written(old(self)@, addr, data),
    {
        if GREEN0 <= addr && addr <= GREENF {
            let d = data & 0x0f;
            self.data[(addr - MIK_ADDR) as usize] = d;
            self.update_pen(addr - GREEN0);
        } else if BLUERED0 <= addr && addr <= BLUEREDF {
            self.data[(addr - MIK_ADDR) as usize] = data;
            self.update_pen(addr - BLUERED0);
        } else {
            self.data[(addr - MIK_ADDR) as usize] = data;
        }
    }

    fn update_pen(&mut self, pen_index: u16)
        requires
            pen_index < 16,
        ensures
            final(self)@ == pen_updated(old(self)@, pen_index as int),
    {
        let bluered = self.data(BLUERED0 + pen_index);
        let green = self.data(GREEN0 + pen_index);
        assert((bluered & 0xf) * 16 <= 240 && (green & 0xf) * 16 <= 240 && (bluered >> 4u8) * 16 <= 240) by (bit_vector);
        self.palette_r[pen_index as usize] = (bluered & 0xf) * 16;
        self.palette_g[pen_index as usize] = (green & 0xf) * 16;
        self.palette_b[pen_index as usize] = (bluered >> 4) * 16;
    }

    /// Pen `pen_index` as red, green, blue and an opaque alpha.
    pub fn get_pen(&self, pen_index: u8) -> (r: [u8; 4])
        requires
            pen_index < 16,
        ensures
            r@ == seq![
                self@.palette_r[pen_index as int],
                self@.palette_g[pen_index as int],
                self@.palette_b[pen_index as int],
                0xffu8,
            ],
    {
        let r = [
            self.palette_r[pen_index as usize],
            self.palette_g[pen_index as usize],
            self.palette_b[pen_index as usize],
            0xFF,
        ];
        assert(r@ =~= seq![
            self@.palette_r[pen_index as int],
            self@.palette_g[pen_index as int],
            self@.palette_b[pen_index as int],
            0xffu8,
        ]);
        r
    }

    /// Ticks before the instruction in progress completes.
    pub fn ticks_delay(&self) -> (r: u16)
        ensures
            r == self@.ticks_delay,
    {
        self.ticks_delay
    }

    /// Sets the ticks before the instruction in progress completes.
    pub fn set_ticks_delay(&mut self, ticks_delay: u16)
        ensures
            final(self)@ == (MikeyRegistersView { ticks_delay, ..old(self)@ }),
    {
        self.ticks_delay = ticks_delay;
    }

    /// One tick less before the instruction completes.
    pub fn dec_ticks_delay(&mut self)
        requires
            old(self)@.ticks_delay > 0,
        ensures
            final(self)@ == (MikeyRegistersView { ticks_delay: (old(self)@.ticks_delay - 1) as u16, ..old(self)@ }),
    {
        self.ticks_delay = self.ticks_delay - 1;
    }

    /// The data of the bus write in progress.
    pub fn data_r(&self) -> (r: u16)
        ensures
            r == self@.data_r,
    {
        self.data_r
    }

    /// Records the data of the bus write in progress.
    pub fn set_data_r(&mut self, data_r: u16)
        ensures
            final(self)@ == (MikeyRegistersView { data_r, ..old(self)@ }),
    {
        self.data_r = data_r;
    }

    /// The little-endian word at `addr`.
    pub fn u16(&self, addr: u16) -> (r: u16)
        requires
            mikey_reg(addr),
            addr < 0xfdff,
        ensures
            r == mword(self@.data, addr),
    {
        let lo = self.data(addr);
        let hi = self.data(addr + 1);
        assert((lo as u16 | ((hi as u16) << 8u16)) == lo as u16 + 256 * hi as u16) by (bit_vector);
        (lo as u16) | ((hi as u16) << 8)
    }

    /// The address of the bus access in progress.
    pub fn addr_r(&self) -> (r: u16)
        ensures
            r == self@.addr_r,
    {
        self.addr_r
    }

    /// Records the address of the bus access in progress.
    pub fn set_addr_r(&mut self, addr_r: u16)
        ensures
            final(self)@ == (MikeyRegistersView { addr_r, ..old(self)@ }),
    {
        self.addr_r = addr_r;
    }

    /// The instruction in progress.
    pub fn ir(&self) -> (r: MikeyInstruction)
        ensures
            r == self@.ir,
    {
        self.ir
    }

    /// Starts an instruction.
    pub fn set_ir(&mut self, ir: MikeyInstruction)
        ensures
            final(self)@ == (MikeyRegistersView { ir, ..old(self)@ }),
    {
        self.ir = ir;
    }

    /// Ends the instruction in progress.
    pub fn reset_ir(&mut self)
        ensures
            final(self)@ == (MikeyRegistersView { ir: MikeyInstruction::Idle, ..old(self)@ }),
    {
        self.ir = MikeyInstruction::Idle;
    }

    /// The AUDIN line driven to the cartridge.
    pub fn audin(&self) -> (r: u16)
        ensures
            r == self@.audin,
    {
        self.audin
    }

    /// Drives the AUDIN line.
    pub fn set_audin(&mut self, audin: u16)
        ensures
            final(self)@ == (MikeyRegistersView { audin, ..old(self)@ }),
    {
        self.audin = audin;
    }

    /// The display start address.
    pub fn disp_addr(&self) -> (r: u16)
        ensures
            r == mword(self@.data, DISPADR),
    {
        self.u16(DISPADR)
    }

    /// SERCTL as read.
    pub fn serctl(&self) -> (r: u8)
        ensures
            r == self@.serctl_r,
    {
        self.serctl_r.bits()
    }

    /// DISPCTL.
    pub fn dispctl(&self) -> (r: u8)
        ensures
            r == self@.dispctl,
    {
        self.dispctl.bits()
    }

    /// Writes DISPCTL (its defined bits) and records whether the screen is
    /// flipped.
    pub fn set_dispctl(&mut self, v: u8)
        ensures
            final(self)@ == (MikeyRegistersView {
                dispctl: v & 0x0f,
                is_flipped: v & 0x02 == 0x02,
                ..old(self)@
            }),
    {
        self.dispctl = DispCtl::from_bits_truncate(v);
        self.is_flipped = self.dispctl.contains(DispCtl::flip());
        assert((v & 0x0f) & 0x02 == v & 0x02) by (bit_vector);
    }

    /// Whether the screen is flipped.
    pub fn is_flipped(&self) -> (r: bool)
        ensures
            r == self@.is_flipped,
    {
        self.is_flipped
    }

    /// Writes SERCTL: the written control bits are kept; ending a break
    /// raises the serial line; a reset-error request clears the parity,
    /// framing and overrun errors and is not kept.
    pub fn set_serctl(&mut self, uart: &mut Uart, v: u8)
        ensures
            ({
                let brk = old(self)@.serctl_w & 0x02 == 0x02;
                let rst = v & 0x08 == 0x08;
                &&& final(self)@ == (MikeyRegistersView {
                    serctl_w: if rst { v & !0x08u8 } else { v },
                    serctl_r: if rst { old(self)@.serctl_r & !0x1cu8 } else { old(self)@.serctl_r },
                    ..old(self)@
                })
                &&& final(uart)@ == (if brk && v & 0x02 != 0x02 {
                    UartView { redeye_pin: RedeyeStatus::High, ..old(uart)@ }
                } else {
                    old(uart)@
                })
            }),
    {
        let brk = self.serctl_w_is_flag_set(SerCtlW::tx_brk());
        self.serctl_w = match SerCtlW::from_bits(v) {
            Some(bits) => bits,
            None => SerCtlW::empty(),
        };

        if brk && !self.serctl_w_is_flag_set(SerCtlW::tx_brk()) {
            uart.set_redeye_pin(RedeyeStatus::High);
        }

        if self.serctl_w_is_flag_set(SerCtlW::reset_err()) {
            let ghost r = self@.serctl_r;
            self.serctl_r_disable_flag(SerCtlR::par_err());
            self.serctl_r_disable_flag(SerCtlR::frame_err());
            self.serctl_r_disable_flag(SerCtlR::overrun());
            self.serctl_w_disable_flag(SerCtlW::reset_err());
            assert(((r & !0x10u8) & !0x04u8) & !0x08u8 == r & !0x1cu8) by (bit_vector);
        }
    }

    /// Sets the SERCTL status bits of `flag`.
    pub fn serctl_r_enable_flag(&mut self, flag: SerCtlR)
        ensures
            final(self)@ == (MikeyRegistersView { serctl_r: old(self)@.serctl_r | flag@, ..old(self)@ }),
    {
        self.serctl_r.set(flag, true);
    }

    /// Clears the SERCTL status bits of `flag`.
    pub fn serctl_r_disable_flag(&mut self, flag: SerCtlR)
        ensures
            final(self)@ == (MikeyRegistersView { serctl_r: old(self)@.serctl_r & !flag@, ..old(self)@ }),
    {
        self.serctl_r.set(flag, false);
    }

    /// Whether every SERCTL status bit of `flag` is set.
    pub fn serctl_r_is_flag_set(&self, flag: SerCtlR) -> (r: bool)
        ensures
            r == (self@.serctl_r & flag@ == flag@),
    {
        self.serctl_r.contains(flag)
    }

    /// Sets the SERCTL control bits of `flag`.
    pub fn serctl_w_enable_flag(&mut self, flag: SerCtlW)
        ensures
            final(self)@ == (MikeyRegistersView { serctl_w: old(self)@.serctl_w | flag@, ..old(self)@ }),
    {
        self.serctl_w.set(flag, true);
    }

    /// Clears the SERCTL control bits of `flag`.
    pub fn serctl_w_disable_flag(&mut self, flag: SerCtlW)
        ensures
            final(self)@ == (MikeyRegistersView { serctl_w: old(self)@.serctl_w & !flag@, ..old(self)@ }),
    {
        self.serctl_w.set(flag, false);
    }

    /// Whether every SERCTL control bit of `flag` is set.
    pub fn serctl_w_is_flag_set(&self, flag: SerCtlW) -> (r: bool)
        ensures
            r == (self@.serctl_w & flag@ == flag@),
    {
        self.serctl_w.contains(flag)
    }

    /// Recomputes the four channels' left and right attenuations from the
    /// stereo, pan and attenuation registers.
    pub fn update_attenuations(&mut self)
        ensures
            final(self)@ == (MikeyRegistersView {
                attenuation_left: Seq::new(4, |i: int| atten_left(old(self)@.data, i)),
                attenuation_right: Seq::new(4, |i: int| atten_right(old(self)@.data, i)),
                ..old(self)@
            }),
    {
        let stereo = self.data(MSTEREO);
        let pan = self.data(MPAN);
        let mut i: usize = 0;
        while i < 4
            invariant
                i <= 4,
                stereo == mreg(old(self)@.data, MSTEREO),
                pan == mreg(old(self)@.data, MPAN),
                self@ == (MikeyRegistersView {
                    attenuation_left: self@.attenuation_left,
                    attenuation_right: self@.attenuation_right,
                    ..old(self)@
                }),
                self@.attenuation_left.len() == 4,
                self@.attenuation_right.len() == 4,
                forall|j: int| 0 <= j < i ==> #[trigger] self@.attenuation_left[j] == atten_left(old(self)@.data, j),
                forall|j: int| 0 <= j < i ==> #[trigger] self@.attenuation_right[j] == atten_right(old(self)@.data, j),
            decreases 4 - i,
        {
            let atten = self.data(ATTEN_A + i as u16);
            let lbit: u8 = 0x10 << (i as u8);
            let rbit: u8 = 1 << (i as u8);
            self.attenuation_left[i] = if stereo & lbit != 0 {
                if pan & lbit != 0 {
                    atten >> 4
                } else {
                    0
                }
            } else {
                15
            };
            self.attenuation_right[i] = if stereo & rbit != 0 {
                if pan & rbit != 0 {
                    atten & 0xF
                } else {
                    0
                }
            } else {
                15
            };
            i = i + 1;
        }
        assert(self@.attenuation_left =~= Seq::new(4, |i: int| atten_left(old(self)@.data, i)));
        assert(self@.attenuation_right =~= Seq::new(4, |i: int| atten_right(old(self)@.data, i)));
    }

    /// Channel `i`'s left attenuation, in fifteenths.
    pub fn attenuation_left(&self, i: usize) -> (r: u8)
        requires
            i < 4,
        ensures
            r == self@.attenuation_left[i as int],
    {
        self.attenuation_left[i]
    }

    /// Channel `i`'s right attenuation, in fifteenths.
    pub fn attenuation_right(&self, i: usize) -> (r: u8)
        requires
            i < 4,
        ensures
            r == self@.attenuation_right[i as int],
    {
        self.attenuation_right[i]
    }
}

/// A register written through `set_data` reads back as written, but for a
/// green register, which keeps only its low nibble.
pub proof fn lemma_mikey_write_read(v: MikeyRegistersView, addr: u16, x: u8)
    requires
        mikey_regs_wf(v),
        mikey_reg(addr),
    ensures
        mreg(mikey_data_written(v, addr, x).data, addr) == (if GREEN0 <= addr <= GREENF { x & 0x0f } else { x }),
{
}

/// A palette write sets its pen to the nibbles of its green and blue-red
/// registers, each scaled by 16.
pub proof fn lemma_pen_colour(v: MikeyRegistersView, addr: u16, x: u8)
    requires
        mikey_regs_wf(v),
        BLUERED0 <= addr <= BLUEREDF,
    ensures
        ({
            let w = mikey_data_written(v, addr, x);
            let i = addr - BLUERED0;
            &&& w.palette_r[i] == (x & 0x0f) * 16
            &&& w.palette_b[i] == (x >> 4u8) * 16
            &&& w.palette_g[i] == (mreg(v.data, (GREEN0 + i) as u16) & 0x0f) * 16
        }),
{
    let i = addr - BLUERED0;
    let g = mreg(v.data, (GREEN0 + i) as u16);
    assert((x & 0x0f) * 16 <= 240 && (x >> 4u8) * 16 <= 240 && (g & 0x0f) * 16 <= 240) by (bit_vector);
    assert(mreg(mikey_data_written(v, addr, x).data, addr) == x);
    assert(mreg(mikey_data_written(v, addr, x).data, (GREEN0 + i) as u16) == g);
}

impl Default for MikeyRegisters {
    fn default() -> (r: Self)
        ensures
            mikey_regs_wf(r@),
            r@.ir == MikeyInstruction::Idle,
    {
        Self::new()
    }
}

} // verus!
