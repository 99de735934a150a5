//! The sprite data decoder: a shift register of fetched sprite bytes read
//! bit by bit into literal and packed pixel runs.
use vstd::prelude::*;
use crate::consts::{COLLADRL, COLLBASL, LINE_END, SPRCTL0, SPRCTL1, SPRCTL1_LITERAL, SPRDLINEL, SUZY_DATA_BUFFER_LEN, VIDADRL, VIDBASL};
use crate::suzy::registers::{SuzyRegisters, SuzyRegistersView, put_word, reg_at, word_at};

verus! {

/// How the pixels of a sprite line are encoded.
#[derive(Clone, Copy, Debug, PartialEq, Eq, Structural)]
pub enum LineType {
    Error,
    AbsLiteral,
    Literal,
    Packed,
}

/// The decoder's shift register, the bits left in the line, the current
/// run and the address of the next sprite byte to fetch.
#[derive(Clone, Copy, Debug)]
pub struct SpriteData {
    shift_reg: u64,
    bits_left: u16,
    shift_reg_count: u16,
    repeat_count: u16,
    line_pixel: u8,
    line_type: LineType,
    addr: u16,
}

/// The abstract state of a [`SpriteData`].
pub struct SpriteView {
    pub shift_reg: u64,
    pub bits_left: u16,
    pub shift_reg_count: u16,
    pub repeat_count: u16,
    pub line_pixel: u8,
    pub line_type: LineType,
    pub addr: u16,
}

impl View for SpriteData {
    type V = SpriteView;

    closed spec fn view(&self) -> SpriteView {
        SpriteView {
            shift_reg: self.shift_reg,
            bits_left: self.bits_left,
            shift_reg_count: self.shift_reg_count,
            repeat_count: self.repeat_count,
            line_pixel: self.line_pixel,
            line_type: self.line_type,
            addr: self.addr,
        }
    }
}

/// The byte offset of screen row `voff` (two pixels per byte), in 16 bits.
pub open spec fn row_offset(voff: i16) -> i16 {
    let w = voff.wrapping_mul(160);
    (if w >= 0 { w / 2 } else { -((-w) / 2) }) as i16
}

/// Whether the decoder's register holds at most 64 bits.
pub open spec fn sprite_wf(s: SpriteView) -> bool {
    s.shift_reg_count <= 64
}

/// The mask of the low `c` bits, as a shift of the full width gives it on
/// the target: no bits at all once `c` reaches 64.
pub open spec fn low_mask(c: u16) -> u64 {
    if c >= 64 {
        0
    } else {
        ((1u64 << (c as u64)) - 1) as u64
    }
}

/// The `bits` bits that start `start` bits into the register (the oldest
/// bit first): none once the line has no more bits (an empty read), nothing
/// while the register holds too few.
pub open spec fn peek_spec(s: SpriteView, start: u16, bits: u16) -> Option<(u8, u8)> {
    let end = start + bits;
    if s.bits_left <= end {
        Some((0u8, 0u8))
    } else if s.shift_reg_count < end {
        None
    } else {
        let shift = (s.shift_reg_count - end) as u64;
        Some((((s.shift_reg >> shift) & ((1u64 << (bits as u64)) - 1) as u64) as u8, bits as u8))
    }
}

/// The decoder after `n` bits are consumed: they leave the register and
/// the line.
pub open spec fn consumed(s: SpriteView, n: u8) -> SpriteView {
    let count = (s.shift_reg_count - n) as u16;
    SpriteView {
        shift_reg_count: count,
        bits_left: (s.bits_left - n) as u16,
        shift_reg: s.shift_reg & low_mask(count),
        ..s
    }
}

/// The decoder and the bits read by taking `bits` bits.
pub open spec fn get_spec(s: SpriteView, bits: u16) -> (SpriteView, Option<u8>) {
    match peek_spec(s, 0, bits) {
        Some((v, n)) => (consumed(s, n), Some(v)),
        None => (s, None),
    }
}

/// The result of decoding the next pixel of a line with `bpp` bits per
/// pixel and palette `pens`: the decoder's new run state, the bits it used,
/// and the pixel (its pen, or LINE_END), or nothing when the register holds
/// too few bits. A run starts with a literal flag (unless the line is
/// literal), then a 4-bit count; a packed run of count 0 ends the line, a
/// packed run repeats one pixel count + 1 times, a literal run gives count
/// + 1 pixels; in a literal line a last pixel of 0 ends the line.
pub open spec fn pixel_spec(s: SpriteView, bpp: u16, pens: Seq<u8>) -> Option<(LineType, u16, u8, u16)> {
    let lend = LINE_END as u8;
    let step1: Option<(LineType, u16, u8, u16)> = if s.repeat_count == 0 {
        let lt_r: Option<(LineType, u16)> = if s.line_type != LineType::AbsLiteral {
            match peek_spec(s, 0, 1) {
                None => None,
                Some((lit, _)) => Some((if lit == 1 { LineType::Literal } else { LineType::Packed }, 1u16)),
            }
        } else {
            Some((s.line_type, 0u16))
        };
        match lt_r {
            None => None,
            Some((lt, bc)) => match lt {
                LineType::Literal => match peek_spec(s, bc, 4) {
                    None => None,
                    Some((count, _)) => Some((lt, (bc + 4) as u16, s.line_pixel, (count + 1) as u16)),
                },
                LineType::Packed => match peek_spec(s, bc, 4) {
                    None => None,
                    Some((count, _)) => if count == 0 {
                        Some((lt, (bc + 4) as u16, lend, 1u16))
                    } else {
                        match peek_spec(s, (bc + 4) as u16, bpp) {
                            None => None,
                            Some((b, _)) => Some((lt, (bc + 4 + bpp) as u16, pens[b as int], (count + 1) as u16)),
                        }
                    },
                },
                _ => Some((lt, bc, lend, s.repeat_count)),
            },
        }
    } else {
        Some((s.line_type, 0u16, s.line_pixel, s.repeat_count))
    };
    match step1 {
        None => None,
        Some((lt, bc, lp, rc)) => if lp != lend {
            let rc2 = if rc == 0 { 0u16 } else { (rc - 1) as u16 };
            match lt {
                LineType::AbsLiteral => match peek_spec(s, bc, bpp) {
                    None => None,
                    Some((p, _)) => Some(
                        (lt, (bc + bpp) as u16, if rc2 == 0 && p == 0 { lend } else { pens[p as int] }, rc2),
                    ),
                },
                LineType::Literal => match peek_spec(s, bc, bpp) {
                    None => None,
                    Some((p, _)) => Some((lt, (bc + bpp) as u16, pens[p as int], rc2)),
                },
                LineType::Packed => Some((lt, bc, lp, rc2)),
                LineType::Error => Some((lt, bc, lend, rc2)),
            }
        } else {
            Some((lt, bc, lp, rc))
        },
    }
}

/// The decoder and registers once a line starts: its first byte (the
/// offset to the next line) taken, the bits left in the line, a literal
/// sprite decoding the whole line as literal pixels, and the video and
/// collision addresses pointed at screen row `voff`.
pub open spec fn initialized(s: SpriteView, d: Seq<u8>, voff: i16) -> (SpriteView, Seq<u8>) {
    let (s1, got) = get_spec(s, 8);
    let offset = match got {
        Some(off) => off as u16,
        None => 0u16,
    };
    let bl = if offset == 0 {
        0u16
    } else if (offset - 1) * 8 > 0xffff {
        0xffffu16
    } else {
        ((offset - 1) * 8) as u16
    };
    let literal = reg_at(d, SPRCTL1) & SPRCTL1_LITERAL != 0;
    let bpp = reg_at(d, SPRCTL0) / 64 + 1;
    let pos = row_offset(voff);
    let d1 = put_word(d, VIDADRL, (word_at(d, VIDBASL) as i16).wrapping_add(pos) as u16);
    let d2 = put_word(d1, COLLADRL, (word_at(d1, COLLBASL) as i16).wrapping_add(pos) as u16);
    (
        SpriteView {
            bits_left: bl,
            line_type: if literal { LineType::AbsLiteral } else { s1.line_type },
            repeat_count: if literal { (bl / (bpp as u16)) as u16 } else { s1.repeat_count },
            ..s1
        },
        d2,
    )
}

impl SpriteData {
    /// An empty decoder.
    pub fn new() -> (r: Self)
        ensures
            r@ == (SpriteView {
                shift_reg: 0,
                bits_left: 0xffff,
                shift_reg_count: 0,
                repeat_count: 0,
                line_pixel: 0,
                line_type: LineType::Error,
                addr: 0,
            }),
    {
        Self {
            shift_reg: 0,
            bits_left: 0xffff,
            shift_reg_count: 0,
            repeat_count: 0,
            line_pixel: 0,
            line_type: LineType::Error,
            addr: 0,
        }
    }

    /// Empties the decoder and points it at the current sprite line.
    pub fn reset(&mut self, regs: &mut SuzyRegisters)
        ensures
            final(self)@ == (SpriteView {
                shift_reg: 0,
                bits_left: 0xffff,
                shift_reg_count: 0,
                repeat_count: 0,
                line_pixel: 0,
                line_type: LineType::Error,
                addr: word_at(old(regs)@.data, SPRDLINEL),
            }),
            final(regs)@ == old(regs)@,
    {
        self.shift_reg = 0;
        self.shift_reg_count = 0;
        self.repeat_count = 0;
        self.line_pixel = 0;
        self.line_type = LineType::Error;
        self.bits_left = 0xffff;
        self.addr = regs.sprdline();
    }

    /// Starts a line: its first byte is the offset to the next line; a
    /// literal sprite decodes the whole line as literal pixels. Points the
    /// video and collision addresses at screen row `voff`. Fails when the
    /// offset byte has not been fetched yet.
    #[verifier::rlimit(40)]
    pub fn initialize(&mut self, regs: &mut SuzyRegisters, voff: i16) -> (r: Result<u16, &'static str>)
        requires
            sprite_wf(old(self)@),
        ensures
            sprite_wf(final(self)@),
            match get_spec(old(self)@, 8).1 {
                None => r == Err::<u16, &'static str>("Not enough data available") && final(self)@ == old(self)@
                    && final(regs)@ == old(regs)@,
                Some(off) => {
                    &&& r == Ok::<u16, &'static str>(off as u16)
                    &&& final(self)@ == initialized(old(self)@, old(regs)@.data, voff).0
                    &&& final(regs)@ == (SuzyRegistersView {
                        data: initialized(old(self)@, old(regs)@.data, voff).1,
                        ..old(regs)@
                    })
                },
            },
    {
        let offset = match self.get_bits(8) {
            None => return Err("Not enough data available"),
            Some(v) => v as u16,
        };

        let prod: u32 = offset.saturating_sub(1) as u32 * 8;
        self.bits_left = if prod > 0xffff {
            0xffff
        } else {
            prod as u16
        };

        if regs.sprctl1() & SPRCTL1_LITERAL != 0 {
            self.line_type = LineType::AbsLiteral;
            self.repeat_count = self.bits_left / (regs.bpp() as u16 + 1);
        }

        Self::point_at_row(regs, voff);
        Ok(offset)
    }

    fn point_at_row(regs: &mut SuzyRegisters, voff: i16)
        ensures
            ({
                let pos = row_offset(voff);
                let d0 = old(regs)@.data;
                let d1 = put_word(d0, VIDADRL, (word_at(d0, VIDBASL) as i16).wrapping_add(pos) as u16);
                let d2 = put_word(d1, COLLADRL, (word_at(d1, COLLBASL) as i16).wrapping_add(pos) as u16);
                final(regs)@ == (SuzyRegistersView { data: d2, ..old(regs)@ })
            }),
    {
        proof {
            old(regs).lemma_len();
        }
        let sprvpos2: i16 = voff.wrapping_mul(160) / 2;

        let vb = regs.i16(VIDBASL);
        regs.set_i16(VIDADRL, vb.wrapping_add(sprvpos2));

        let cb = regs.i16(COLLBASL);
        regs.set_i16(COLLADRL, cb.wrapping_add(sprvpos2));
    }

    /// Shifts one fetched byte into the register.
    pub fn push_data(&mut self, data: u8)
        requires
            old(self)@.shift_reg_count + 8 <= 0xffff,
        ensures
            final(self)@ == (SpriteView {
                shift_reg: ((old(self)@.shift_reg << 8u64) | (data as u64)) as u64,
                shift_reg_count: (old(self)@.shift_reg_count + 8) as u16,
                ..old(self)@
            }),
    {
        self.shift_reg = self.shift_reg << (SUZY_DATA_BUFFER_LEN as u64 * 8);
        self.shift_reg = self.shift_reg | ((data as u64) << ((SUZY_DATA_BUFFER_LEN as u64 - 1) * 8));
        self.shift_reg_count = self.shift_reg_count + SUZY_DATA_BUFFER_LEN * 8;
        proof {
            lemma_register_bits(data as u64, 0, 0, 0);
        }
    }

    /// Reads `bits` bits starting `start` bits into the register, without
    /// consuming them: (0, 0) once the line has no more bits, nothing while
    /// the register holds too few, otherwise the bits and their number.
    pub fn peek_bits(&self, start: u16, bits: u16) -> (r: Option<(u8, u8)>)
        requires
            start + bits <= 0xffff,
            bits <= 16,
        ensures
            r == peek_spec(self@, start, bits),
    {
        let end = start + bits;

        if self.bits_left <= end {
            return Some((0, 0));
        }

        if self.shift_reg_count < end {
            return None;
        }

        let shift = self.shift_reg_count - end;
        let b = bits as u64;
        proof {
            lemma_register_bits(0, b, 0, 0);
        }
        let mask: u64 = (1u64 << bits as u64) - 1;
        let sh = shift as u64;
        let x = self.shift_reg;
        let moved: u64 = if shift >= 64 {
            proof {
                lemma_register_bits(x, 0, sh, 0);
            }
            0
        } else {
            x >> sh
        };
        let ret = moved & mask;
        Some((ret as u8, bits as u8))
    }

    /// Takes `bits` bits from the register: what `peek_bits` gives at the
    /// start, the bits read leaving the register and the line.
    pub fn get_bits(&mut self, bits: u16) -> (r: Option<u8>)
        requires
            sprite_wf(old(self)@),
            bits <= 16,
        ensures
            (final(self)@, r) == get_spec(old(self)@, bits),
            sprite_wf(final(self)@),
    {
        match self.peek_bits(0, bits) {
            Some(ret) => {
                self.shift_reg_count = self.shift_reg_count - ret.1 as u16;
                self.bits_left = self.bits_left - ret.1 as u16;
                let c = self.shift_reg_count;
                let mask: u64 = if c >= 64 {
                    0
                } else {
                    let cc = c as u64;
                    proof {
                        lemma_register_bits(0, cc, 0, 0);
                    }
                    (1u64 << cc) - 1
                };
                self.shift_reg = self.shift_reg & mask;
                Some(ret.0)
            },
            None => None,
        }
    }

    /// Decodes the next pixel of the line with palette `pens`: its pen, or
    /// LINE_END at the end of the line. Fails, changing nothing, when the
    /// register holds too few bits.
    pub fn line_get_pixel(&mut self, regs: &mut SuzyRegisters, pens: &[u8; 16]) -> (r: Result<u8, &'static str>)
        requires
            sprite_wf(old(self)@),
        ensures
            final(regs)@ == old(regs)@,
            sprite_wf(final(self)@),
            ({
                let bpp = (reg_at(old(regs)@.data, SPRCTL0) / 64 + 1) as u16;
                match pixel_spec(old(self)@, bpp, pens@) {
                    None => r == Err::<u8, &'static str>("Not enough data to peek bits") && final(self)@ == old(self)@,
                    Some((lt, bc, lp, rc)) => {
                        let s1 = SpriteView { line_pixel: lp, line_type: lt, repeat_count: rc, ..old(self)@ };
                        &&& r == Ok::<u8, &'static str>(lp)
                        &&& final(self)@ == get_spec(s1, bc).0
                    },
                }
            }),
    {
        let bpp: u16 = regs.bpp() as u16 + 1;
        let mut bit_count: u16 = 0;
        let mut line_pixel = self.line_pixel;
        let mut line_type = self.line_type;
        let mut repeat_count = self.repeat_count;
        let lend = LINE_END as u8;

        if repeat_count == 0 {
            if line_type != LineType::AbsLiteral {
                let literal = match self.peek_bits(0, 1) {
                    None => return Err("Not enough data to peek bits"),
                    Some((v, _)) => v,
                };
                bit_count = bit_count + 1;
                line_type = if literal == 1 {
                    LineType::Literal
                } else {
                    LineType::Packed
                };
            }
            match line_type {
                LineType::Literal => {
                    let count = match self.peek_bits(bit_count, 4) {
                        None => return Err("Not enough data to peek bits"),
                        Some((v, _)) => v,
                    };
                    bit_count = bit_count + 4;
                    repeat_count = count as u16 + 1;
                },
                LineType::Packed => {
                    let count = match self.peek_bits(bit_count, 4) {
                        None => return Err("Not enough data to peek bits"),
                        Some((v, _)) => v,
                    };
                    bit_count = bit_count + 4;
                    repeat_count = count as u16;
                    if repeat_count == 0 {
                        line_pixel = lend;
                    } else {
                        let bits = match self.peek_bits(bit_count, bpp) {
                            None => return Err("Not enough data to peek bits"),
                            Some((v, _)) => v,
                        };
                        bit_count = bit_count + bpp;
                        proof {
                            lemma_peek_small(self@, (bit_count - bpp) as u16, bpp);
                        }
                        line_pixel = pens[bits as usize];
                    }
                    repeat_count = repeat_count + 1;
                },
                _ => line_pixel = lend,
            }
        }
        if line_pixel != lend {
            repeat_count = repeat_count.saturating_sub(1);
            match line_type {
                LineType::AbsLiteral => {
                    let pixel = match self.peek_bits(bit_count, bpp) {
                        None => return Err("Not enough data to peek bits"),
                        Some((v, _)) => v,
                    };
                    proof {
                        lemma_peek_small(self@, bit_count, bpp);
                    }
                    bit_count = bit_count + bpp;
                    line_pixel = pixel;
                    if repeat_count == 0 && line_pixel == 0 {
                        line_pixel = lend;
                    } else {
                        line_pixel = pens[line_pixel as usize];
                    }
                },
                LineType::Literal => {
                    let bits = match self.peek_bits(bit_count, bpp) {
                        None => return Err("Not enough data to peek bits"),
                        Some((v, _)) => v,
                    };
                    proof {
                        lemma_peek_small(self@, bit_count, bpp);
                    }
                    bit_count = bit_count + bpp;
                    line_pixel = pens[bits as usize];
                },
                LineType::Packed => {},
                LineType::Error => line_pixel = lend,
            }
        }
        self.line_pixel = line_pixel;
        self.line_type = line_type;
        self.repeat_count = repeat_count;
        let _ = self.get_bits(bit_count);
        Ok(line_pixel)
    }

    /// The number of bits in the register.
    pub fn shift_reg_count(&self) -> (r: u16)
        ensures
            r == self@.shift_reg_count,
    {
        self.shift_reg_count
    }

    /// The address of the next sprite byte to fetch.
    pub fn addr(&self) -> (r: u16)
        ensures
            r == self@.addr,
    {
        self.addr
    }

    /// Sets the address of the next sprite byte to fetch.
    pub fn set_addr(&mut self, addr: u16)
        ensures
            final(self)@ == (SpriteView { addr, ..old(self)@ }),
    {
        self.addr = addr;
    }
}

/// A peek of at most four bits gives a value below 16.
proof fn lemma_peek_small(s: SpriteView, start: u16, bits: u16)
    requires
        1 <= bits <= 4,
        start + bits <= 0xffff,
    ensures
        peek_spec(s, start, bits) matches Some((v, _)) ==> v < 16,
{
    let end = start + bits;
    if !(s.bits_left <= end) && !(s.shift_reg_count < end) {
        let x = s.shift_reg >> ((s.shift_reg_count - end) as u64);
        let b = bits as u64;
        lemma_register_bits(0, b, 0, x);
    }
}

impl Default for SpriteData {
    fn default() -> (r: Self)
        ensures
            r@.shift_reg_count == 0,
            r@.bits_left == 0xffff,
    {
        Self::new()
    }
}


/// Facts of bit arithmetic on the shift register: shifting by nothing,
/// masks of up to 63 bits, shifting everything out, and a peek of at most
/// four bits.
proof fn lemma_register_bits(x: u64, b: u64, sh: u64, y: u64)
    by (bit_vector)
    ensures
        x << 0u64 == x,
        b < 64 ==> 1u64 << b >= 1,
        sh >= 64 ==> x >> sh == 0,
        1 <= b <= 4 ==> ((y & (((1u64 << b) - 1) as u64)) as u8) < 16,
{
}

/// An emptied decoder given one byte gives that byte back as the next
/// eight bits, and is empty again.
pub proof fn lemma_push_then_get(s: SpriteView, d: u8)
    requires
        s.shift_reg_count == 0,
        s.shift_reg == 0,
        s.bits_left > 8,
    ensures
        ({
            let p = SpriteView { shift_reg: ((s.shift_reg << 8u64) | (d as u64)) as u64, shift_reg_count: 8, ..s };
            let (n, got) = get_spec(p, 8);
            &&& got == Some(d)
            &&& n.shift_reg_count == 0
            &&& n.bits_left == s.bits_left - 8
        }),
{
    let x = s.shift_reg;
    assert(x == 0 ==> ((((x << 8u64) | (d as u64)) >> 0u64) & ((1u64 << 8u64) - 1) as u64) as u8 == d) by (bit_vector);
}
} // verus!
