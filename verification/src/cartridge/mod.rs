//! The cartridge: image formats (LNX and BS93), the pin-level interface
//! the console drives, and the optional EEPROM.
pub mod cartridge_generic;
pub mod eeprom;
pub mod lnx_header;

use vstd::prelude::*;
use vstd::arithmetic::power2::{pow2, lemma2_to64};
use vstd::bits::{low_bits_mask, lemma_u16_shl_is_mul, lemma_u16_low_bits_mask_is_mod};
use crate::bus::{Bus, BusStatus, BusView};
use crate::consts::{
    CART_PIN_A0, CART_PIN_A1, CART_PIN_A10, CART_PIN_A12, CART_PIN_A13, CART_PIN_A14, CART_PIN_A15,
    CART_PIN_A16, CART_PIN_A17, CART_PIN_A18, CART_PIN_A19, CART_PIN_A2, CART_PIN_A3, CART_PIN_A4,
    CART_PIN_A5, CART_PIN_A6, CART_PIN_A7, CART_PIN_A8, CART_PIN_A9, CART_PIN_AUDIN, CART_PIN_CE, CART_PIN_D0,
    CART_PIN_D1, CART_PIN_D2, CART_PIN_D3, CART_PIN_D4, CART_PIN_D5, CART_PIN_D6, CART_PIN_D7,
    CART_READ_TICKS, CART_WRITE_TICKS, SYSCTL1, SYSCTL1_POWER,
};
use crate::mikey::registers::{MikeyRegisters, mreg};
use crate::suzy::registers::Switches;
use cartridge_generic::{
    CartridgeGeneric, GenericView, _1024KAUDIN_PINS, _128K_PINS, _256K_PINS, _512K_PINS, BLOCK_PINS,
    generic_set_pins, generic_wf, generic_writes, data_address_of, generic_read,
};
use eeprom::{EEpromType, Eeprom, model_of};
use eeprom::ee93cxx::{EeView, ee_tick, ee_wf, geometry};
use lnx_header::{LNXHeader, LNXHeaderView, LNXRotation, unknown_header};

verus! {

const LNX_HEADER_LENGTH: usize = 64;

const BS93_HEADER_LENGTH: usize = 10;

/// The data pins, bit 0 first.
pub const DATA_PINS: [u32; 8] = [
    CART_PIN_D0,
    CART_PIN_D1,
    CART_PIN_D2,
    CART_PIN_D3,
    CART_PIN_D4,
    CART_PIN_D5,
    CART_PIN_D6,
    CART_PIN_D7,
];

/// The pins of the position within a block, bit 0 first.
pub const RIPPLE_PINS: [u32; 11] = [
    CART_PIN_A0,
    CART_PIN_A1,
    CART_PIN_A2,
    CART_PIN_A3,
    CART_PIN_A4,
    CART_PIN_A5,
    CART_PIN_A6,
    CART_PIN_A7,
    CART_PIN_A8,
    CART_PIN_A9,
    CART_PIN_A10,
];

/// The pins of the block number, bit 0 first.
pub const SHIFTER_PINS: [u32; 8] = [
    CART_PIN_A12,
    CART_PIN_A13,
    CART_PIN_A14,
    CART_PIN_A15,
    CART_PIN_A16,
    CART_PIN_A17,
    CART_PIN_A18,
    CART_PIN_A19,
];

/// The AUDIN pin.
pub const AUDIN_PINS: [u32; 1] = [CART_PIN_AUDIN];

const _128K: usize = 0x2_0000;

const _256K: usize = 0x4_0000;

const _512K: usize = 0x8_0000;

const _1024K: usize = 0x10_0000;

/// The BLL loader that starts a BS93 program.
pub const BLL_LOADER: [u8; 246] = [
    0xFF, 0x4A, 0x37, 0xB2, 0xB3, 0x0D, 0xEF, 0x61, 0x56, 0xAB, 0xD3, 0xC3, 0x5D, 0x4B, 0xDE, 0xB8,
    0x38, 0x17, 0x92, 0x59, 0xFA, 0x40, 0xB1, 0x58, 0xC4, 0x8F, 0xB6, 0x6D, 0xBE, 0xBB, 0x20, 0x8E,
    0x8A, 0x69, 0x86, 0x6C, 0x18, 0x12, 0x0C, 0x7C, 0x50, 0xCD, 0xAA, 0x63, 0x41, 0x3F, 0xD3, 0x89,
    0xAD, 0xAB, 0x37, 0x14, 0x01, 0xAD, 0xC5, 0x02, 0x49, 0xFF, 0x85, 0xF1, 0xAD, 0xC6, 0x02, 0x49,
    0xFF, 0x85, 0xF0, 0xAD, 0xC3, 0x02, 0x85, 0xF3, 0x85, 0xF5, 0xAD, 0xC4, 0x02, 0x85, 0xF2, 0x85,
    0xF4, 0xA2, 0xC0, 0x9A, 0xA0, 0x29, 0xB9, 0x2D, 0x02, 0x99, 0xC0, 0x01, 0x88, 0xD0, 0xF7, 0xA2,
    0x03, 0x80, 0x9F, 0xCA, 0xD0, 0x09, 0xE6, 0x00, 0xA5, 0x00, 0x20, 0x00, 0xFE, 0xA2, 0x04, 0xAD,
    0xB2, 0xFC, 0x92, 0xF2, 0xE6, 0xF2, 0xD0, 0x02, 0xE6, 0xF3, 0xE6, 0xF0, 0xD0, 0x07, 0xE6, 0xF1,
    0xD0, 0x03, 0x6C, 0xF4, 0x00, 0xC8, 0xD0, 0xE7, 0x80, 0xD9, 0x00, 0x00, 0x00, 0x00, 0x00, 0x00,
    0x00, 0x00, 0x00, 0x00, 0x00, 0x00, 0x00, 0x00, 0x00, 0x00, 0x00, 0x00, 0x00, 0x00, 0x00, 0x00,
    0x00, 0x00, 0x00, 0x00, 0x00, 0x00, 0x00, 0x00, 0x00, 0x00, 0x00, 0x00, 0x00, 0x00, 0x00, 0x00,
    0x00, 0x00, 0x00, 0x00, 0x00, 0x00, 0x00, 0x00, 0x00, 0x00, 0x00, 0x00, 0x00, 0x00, 0x00, 0x00,
    0x00, 0x00, 0x00, 0x00, 0x00, 0x00, 0x00, 0x00, 0x00, 0x00, 0x00, 0x00, 0x00, 0x00, 0x00, 0x00,
    0x00, 0x00, 0x00, 0x00, 0x00, 0x00, 0x00, 0x00, 0x00, 0x00, 0x00, 0x00, 0x00, 0x00, 0x00, 0x00,
    0x00, 0x00, 0x00, 0x00, 0x00, 0x00, 0x00, 0x00, 0x00, 0x00, 0x00, 0x00, 0x00, 0x00, 0x00, 0x00,
    0x00, 0x00, 0x00, 0x00, 0x00, 0x00,];

/// The word built from a low and a high byte.
pub open spec fn word(b0: u8, b1: u8) -> u16 {
    (b0 + 256 * b1) as u16
}

/// The word built from a low and a high byte.
pub fn to_u16(b0: u8, b1: u8) -> (r: u16)
    ensures
        r == word(b0, b1),
{
    proof {
        lemma_byte_bits(b0, b1, 0);
    }
    ((b1 as u16) << 8) | b0 as u16
}

/// Whether every pin of a list is a cartridge pin number (1 to 32) or the
/// 0 that ends the list.
pub open spec fn pins_valid(ps: Seq<u32>) -> bool {
    forall|i: int| 0 <= i < ps.len() ==> #[trigger] ps[i] <= 32
}

/// The bit of pin `p` (numbered from 1) in the pin word.
pub open spec fn pin_mask(p: u32) -> u32 {
    1u32 << ((p - 1) as u32)
}

/// Bit `i` of `data` (none past bit 15).
pub open spec fn data_bit(data: u16, i: nat) -> bool {
    i < 16 && (data >> (i as u16)) & 1 == 1
}

/// `pins` with pins `ps[i..]` (up to the first 0) driven by bits `i..` of
/// `data`.
pub open spec fn written_pins(pins: u32, data: u16, ps: Seq<u32>, i: nat) -> u32
    decreases ps.len() - i,
{
    if i >= ps.len() || ps[i as int] == 0 {
        pins
    } else {
        let m = pin_mask(ps[i as int]);
        let p = if data_bit(data, i) {
            pins | m
        } else {
            pins & !m
        };
        written_pins(p, data, ps, i + 1)
    }
}

/// The bits `i..` (below `width`) read from pins `ps[i..]` (up to the
/// first 0), each at its place in the list.
pub open spec fn pin_bits(pins: u32, ps: Seq<u32>, i: nat, width: nat) -> u16
    decreases ps.len() - i,
{
    if i >= ps.len() || ps[i as int] == 0 {
        0
    } else {
        let rest = pin_bits(pins, ps, i + 1, width);
        if i < width && pins & pin_mask(ps[i as int]) != 0 {
            (1u16 << (i as u16)) | rest
        } else {
            rest
        }
    }
}

/// The data pins as a sequence.
pub open spec fn data_pins_seq() -> Seq<u32> {
    seq![6u32, 4, 2, 1, 3, 5, 7, 8]
}

/// Facts of bit arithmetic on words.
proof fn lemma_word_bits(a: u16, b: u16, c: u16, i: u16, k: u16)
    by (bit_vector)
    ensures
        (a | b) | c == a | (b | c),
        a | 0 == a,
        0 | a == a,
        i < 16 ==> ((a & (1u16 << i)) != 0) == ((a >> i) & 1 == 1),
        i < 16 ==> (1u16 << i) << 1u16 == (if i + 1 < 16 { 1u16 << ((i + 1) as u16) } else { 0u16 }),
        k <= 15 ==> 0u16 < (1u16 << k),
        k <= 15 ==> (i < k && b < (1u16 << k) ==> ((1u16 << i) | b) < (1u16 << k)),
        1u16 << 0u16 == 1u16,
        0u16 << 1u16 == 0u16,
        a & 0u16 == 0u16,
        1u16 << 8u16 == 256u16,
        i < k && k <= 16 ==> a & range_mask(i, k) == ((if (a >> i) & 1 == 1 { 1u16 << i } else { 0u16 }) | (a
            & range_mask((i + 1) as u16, k))),
        k <= 16 ==> a & range_mask(k, k) == 0,
        range_mask(0, k) == low_mask16(k),
{
}

/// Facts of bit arithmetic on bytes.
proof fn lemma_byte_bits(b0: u8, b1: u8, i: u8)
    by (bit_vector)
    ensures
        (((b1 as u16) << 8u16) | b0 as u16) == b0 + 256 * b1,
        1u8 << 0u8 == 1u8,
        0u8 << 1u8 == 0u8,
        i < 8 ==> ((1u8 << i) as u16) == (1u16 << (i as u16)),
        (b0 | b1) as u16 == (b0 as u16 | b1 as u16),
        (b0 as u16) | 0 == b0 as u16,
        i < 8 ==> (1u8 << i) << 1u8 == (if i + 1 < 8 { 1u8 << ((i + 1) as u8) } else { 0u8 }),
{
}

/// Facts of bit arithmetic on pin words.
proof fn lemma_pin_word_bits(p: u32, q: u32, m: u32, mask: u32)
    by (bit_vector)
    ensures
        m & mask == 0 ==> (p | m) & mask == p & mask && (p & !m) & mask == p & mask,
        0u32 & 9u32 == 0 && 0u32 & 26u32 == 0,
        p & 0xff == q & 0xff ==> p & 9 == q & 9 && p & 26 == q & 26,
        p & 9 == 0 ==> (p | 9) & 9 != 0,
        (p & !9u32) & 9 == 0 && (p & !9u32) & 26 == (p & 26) & !9u32,
        (p & 26) & !9u32 != 0 ==> p & 26 != 0,
        9 <= p <= 32 ==> (1u32 << ((p - 1) as u32)) & 0xff == 0,
        1 <= q <= 32 ==> (p | (1u32 << ((q - 1) as u32))) & (1u32 << ((q - 1) as u32)) != 0,
        1 <= q <= 32 ==> (p & !(1u32 << ((q - 1) as u32))) & (1u32 << ((q - 1) as u32)) == 0,
        1 <= q <= 32 && 1 <= m <= 32 && q != m ==> (1u32 << ((q - 1) as u32)) & (1u32 << ((m - 1) as u32)) == 0,
{
}

proof fn lemma_or_assoc(a: u16, b: u16, c: u16)
    ensures
        (a | b) | c == a | (b | c),
        a | 0 == a,
        0 | a == a,
{
    lemma_word_bits(a, b, c, 0, 0);
}

proof fn lemma_shift_bit(data: u16, i: u16)
    requires
        i < 16,
    ensures
        ((data & (1u16 << i)) != 0) == ((data >> i) & 1 == 1),
        (1u16 << i) << 1u16 == (if i + 1 < 16 { 1u16 << ((i + 1) as u16) } else { 0u16 }),
{
    lemma_word_bits(data, 0, 0, i, 0);
}

/// The bits read from a list of at most `k` pins lie below bit `k`.
pub proof fn lemma_pin_bits_lt(pins: u32, ps: Seq<u32>, i: nat, width: nat, k: u16)
    requires
        ps.len() <= k,
        k <= 15,
    ensures
        pin_bits(pins, ps, i, width) < (1u16 << k),
    decreases ps.len() - i,
{
    if i >= ps.len() || ps[i as int] == 0 {
        lemma_word_bits(0, 0, 0, 0, k);
    } else {
        lemma_pin_bits_lt(pins, ps, i + 1, width, k);
        let rest = pin_bits(pins, ps, i + 1, width);
        let ii = i as u16;
        lemma_word_bits(0, rest, 0, ii, k);
    }
}

/// The bits read from a list of at most eight pins make a byte.
pub proof fn lemma_pin_bits_byte(pins: u32, ps: Seq<u32>, i: nat, width: nat)
    requires
        ps.len() <= 8,
    ensures
        pin_bits(pins, ps, i, width) < 256,
{
    lemma_pin_bits_lt(pins, ps, i, width, 8);
    lemma_word_bits(0, 0, 0, 0, 0);
}

/// Writing pins outside a mask leaves the masked bits of the pin word alone.
pub proof fn lemma_written_frame(pins: u32, data: u16, ps: Seq<u32>, i: nat, mask: u32)
    requires
        pins_valid(ps),
        forall|k: int| i <= k < ps.len() && ps[k] != 0 ==> pin_mask(#[trigger] ps[k]) & mask == 0,
    ensures
        written_pins(pins, data, ps, i) & mask == pins & mask,
    decreases ps.len() - i,
{
    if i < ps.len() && ps[i as int] != 0 {
        let m = pin_mask(ps[i as int]);
        assert(m & mask == 0);
        lemma_pin_word_bits(pins, 0, m, mask);
        let p = if data_bit(data, i) {
            pins | m
        } else {
            pins & !m
        };
        lemma_written_frame(p, data, ps, i + 1, mask);
    }
}

/// The bits `i` up to `k` (below 16) of a word, as a mask.
pub open spec fn range_mask(i: u16, k: u16) -> u16 {
    low_mask16(k) & !low_mask16(i)
}

/// The bits below `k` of a word, as a mask.
pub open spec fn low_mask16(k: u16) -> u16 {
    if k >= 16 {
        0xffff
    } else {
        ((1u16 << k) - 1) as u16
    }
}

/// Where the pin list `ps` ends, looking from `i`: at its first 0 or at
/// its end.
pub open spec fn pins_end(ps: Seq<u32>, i: nat) -> nat
    decreases ps.len() - i,
{
    if i >= ps.len() || ps[i as int] == 0 {
        i
    } else {
        pins_end(ps, i + 1)
    }
}

/// Whether the pins of a list, up to its first 0, are distinct cartridge
/// pins.
pub open spec fn pins_distinct(ps: Seq<u32>) -> bool {
    forall|j: int, k: int|
        0 <= j < k < pins_end(ps, 0) ==> #[trigger] ps[j] != #[trigger] ps[k] && 1 <= ps[j] <= 32 && 1 <= ps[k]
            <= 32
}

/// Bits `i` up to `n` of `d`, each at its place.
pub open spec fn data_bits_from(d: u16, i: nat, n: nat) -> u16
    decreases n - i,
{
    if i >= n {
        0
    } else {
        let rest = data_bits_from(d, i + 1, n);
        if data_bit(d, i) {
            (1u16 << (i as u16)) | rest
        } else {
            rest
        }
    }
}

proof fn lemma_pins_end(ps: Seq<u32>, i: nat)
    requires
        i <= ps.len(),
    ensures
        i <= pins_end(ps, i) <= ps.len(),
        forall|k: int| i <= k < pins_end(ps, i) ==> ps[k] != 0,
        pins_end(ps, i) < ps.len() ==> ps[pins_end(ps, i) as int] == 0,
        i < pins_end(ps, i) ==> pins_end(ps, i) == pins_end(ps, i + 1),
    decreases ps.len() - i,
{
    if i < ps.len() && ps[i as int] != 0 {
        lemma_pins_end(ps, i + 1);
    }
}

/// Writing the pins of a list from `i` on leaves a bit alone that none of
/// them up to the list's first 0 drives.
pub proof fn lemma_written_frame_upto(pins: u32, data: u16, ps: Seq<u32>, i: nat, mask: u32)
    requires
        i <= ps.len(),
        pins_valid(ps),
        forall|k: int| i <= k < pins_end(ps, i) ==> pin_mask(#[trigger] ps[k]) & mask == 0,
    ensures
        written_pins(pins, data, ps, i) & mask == pins & mask,
    decreases ps.len() - i,
{
    lemma_pins_end(ps, i);
    if i < ps.len() && ps[i as int] != 0 {
        let m = pin_mask(ps[i as int]);
        assert(m & mask == 0);
        lemma_pin_word_bits(pins, 0, m, mask);
        let p = if data_bit(data, i) {
            pins | m
        } else {
            pins & !m
        };
        lemma_written_frame_upto(p, data, ps, i + 1, mask);
    }
}

/// Reading back the pins of a list written from `i` on gives the data's
/// bits `i` up to the list's first 0.
proof fn lemma_pins_roundtrip_from(pins: u32, data: u16, ps: Seq<u32>, i: nat)
    requires
        i <= pins_end(ps, 0),
        pins_end(ps, 0) <= 16,
        pins_valid(ps),
        pins_distinct(ps),
    ensures
        pin_bits(written_pins(pins, data, ps, i), ps, i, 16) == data_bits_from(data, i, pins_end(ps, 0)),
    decreases pins_end(ps, 0) - i,
{
    let n = pins_end(ps, 0);
    lemma_pins_end(ps, 0);
    if i < n {
        lemma_pins_end_from(ps, i);
        let q = ps[i as int];
        let m = pin_mask(q);
        let p = if data_bit(data, i) {
            pins | m
        } else {
            pins & !m
        };
        lemma_pins_roundtrip_from(p, data, ps, i + 1);
        assert forall|k: int| i + 1 <= k < pins_end(ps, i + 1) implies pin_mask(#[trigger] ps[k]) & m == 0 by {
            lemma_pin_word_bits(0, ps[k], q, 0);
        }
        lemma_pins_end(ps, i + 1);
        lemma_written_frame_upto(p, data, ps, i + 1, m);
        lemma_pin_word_bits(pins, q, 0, 0);
    } else {
        lemma_pins_end_from(ps, i);
    }
}

/// From any place before a list's first 0, the list ends where it ends
/// from its start.
proof fn lemma_pins_end_from(ps: Seq<u32>, i: nat)
    requires
        i <= pins_end(ps, 0),
    ensures
        pins_end(ps, i) == pins_end(ps, 0),
    decreases i,
{
    lemma_pins_end(ps, 0);
    if i > 0 {
        lemma_pins_end_from(ps, (i - 1) as nat);
        lemma_pins_end(ps, (i - 1) as nat);
    }
}

/// The data's bits `i` up to `n`, as the data under a mask.
proof fn lemma_data_bits_from(d: u16, i: nat, n: nat)
    requires
        i <= n <= 16,
    ensures
        data_bits_from(d, i, n) == d & range_mask(i as u16, n as u16),
    decreases n - i,
{
    if i < n {
        lemma_data_bits_from(d, i + 1, n);
        let ii = i as u16;
        let nn = n as u16;
        lemma_word_bits(d, 0, 0, ii, nn);
        assert((ii + 1) as u16 == (i + 1) as u16);
        assert(data_bit(d, i) == ((d >> ii) & 1 == 1));
        lemma_or_assoc(d & range_mask((i + 1) as u16, nn), 0, 0);
    } else {
        lemma_word_bits(d, 0, 0, 0, n as u16);
    }
}

/// Reading back the pins of a list of at most 16 distinct pins gives the
/// data written to them, cut to as many bits as the list has pins; the
/// bits of the pin word that no pin of the list drives are left alone.
pub proof fn lemma_pins_roundtrip(pins: u32, data: u16, ps: Seq<u32>, mask: u32)
    requires
        pins_valid(ps),
        pins_distinct(ps),
        pins_end(ps, 0) <= 16,
    ensures
        pin_bits(written_pins(pins, data, ps, 0), ps, 0, 16) == data & low_mask16(pins_end(ps, 0) as u16),
        (forall|k: int| 0 <= k < pins_end(ps, 0) ==> pin_mask(#[trigger] ps[k]) & mask == 0) ==> written_pins(
            pins,
            data,
            ps,
            0,
        ) & mask == pins & mask,
{
    lemma_pins_roundtrip_from(pins, data, ps, 0);
    lemma_data_bits_from(data, 0, pins_end(ps, 0));
    lemma_word_bits(data, 0, 0, 0, pins_end(ps, 0) as u16);
    if forall|k: int| 0 <= k < pins_end(ps, 0) ==> pin_mask(#[trigger] ps[k]) & mask == 0 {
        lemma_written_frame_upto(pins, data, ps, 0, mask);
    }
}

/// The address pins a cartridge with pages of `bank_size` bytes decodes
/// address the whole page: for a page of 2^n bytes the list holds n
/// distinct pins, so a position within the page written to them reads
/// back as itself, and no part of the page is out of reach.
pub proof fn lemma_bank_pins_decode(bank_size: u16, pins: u32, a: u16)
    requires
        pins_for_bank(bank_size) is Some,
        a < bank_size,
    ensures
        ({
            let ps = pins_for_bank(bank_size).unwrap();
            &&& pins_valid(ps)
            &&& pins_distinct(ps)
            &&& pow2(pins_end(ps, 0)) == bank_size
            &&& pin_bits(written_pins(pins, a, ps, 0), ps, 0, 16) == a
        }),
{
    let ps = pins_for_bank(bank_size).unwrap();
    reveal_with_fuel(pins_end, 17);
    lemma2_to64();
    assert(ps.len() == 16);
    let n: nat = if bank_size == 512 {
        9
    } else if bank_size == 1024 {
        10
    } else if bank_size == 2048 {
        11
    } else {
        12
    };
    assert(pins_end(ps, 0) == n);
    assert(pins_valid(ps));
    assert(pins_distinct(ps));
    lemma_pins_roundtrip(pins, a, ps, 0);
    assert(pow2(n) == bank_size);
    lemma_u16_shl_is_mul(1, n as u16);
    assert((1u16 << (n as u16)) == pow2(n));
    lemma_u16_low_bits_mask_is_mod(a, n);
    assert(low_mask16(n as u16) == low_bits_mask(n) as u16);
    assert((pow2(n) as u16) == bank_size);
    vstd::arithmetic::div_mod::lemma_small_mod(a as nat, bank_size as nat);
    assert(a % (pow2(n) as u16) == a);
    assert(a & low_mask16(pins_end(ps, 0) as u16) == a);
}

/// `pins` with the data pins driven by the bits of `v`, written out pin by
/// pin.
spec fn data_pins_driven(p: u32, v: u16) -> u32 {
    let w1 = if (v >> 0u16) & 1 == 1 { p | (1u32 << 5u32) } else { p & !(1u32 << 5u32) };
    let w2 = if (v >> 1u16) & 1 == 1 { w1 | (1u32 << 3u32) } else { w1 & !(1u32 << 3u32) };
    let w3 = if (v >> 2u16) & 1 == 1 { w2 | (1u32 << 1u32) } else { w2 & !(1u32 << 1u32) };
    let w4 = if (v >> 3u16) & 1 == 1 { w3 | (1u32 << 0u32) } else { w3 & !(1u32 << 0u32) };
    let w5 = if (v >> 4u16) & 1 == 1 { w4 | (1u32 << 2u32) } else { w4 & !(1u32 << 2u32) };
    let w6 = if (v >> 5u16) & 1 == 1 { w5 | (1u32 << 4u32) } else { w5 & !(1u32 << 4u32) };
    let w7 = if (v >> 6u16) & 1 == 1 { w6 | (1u32 << 6u32) } else { w6 & !(1u32 << 6u32) };
    if (v >> 7u16) & 1 == 1 { w7 | (1u32 << 7u32) } else { w7 & !(1u32 << 7u32) }
}

/// The byte on the data pins of `w`, read pin by pin.
spec fn data_pins_read(w: u32) -> u16 {
    let r7: u16 = if w & (1u32 << 7u32) != 0 { (1u16 << 7u16) | 0u16 } else { 0u16 };
    let r6: u16 = if w & (1u32 << 6u32) != 0 { (1u16 << 6u16) | r7 } else { r7 };
    let r5: u16 = if w & (1u32 << 4u32) != 0 { (1u16 << 5u16) | r6 } else { r6 };
    let r4: u16 = if w & (1u32 << 2u32) != 0 { (1u16 << 4u16) | r5 } else { r5 };
    let r3: u16 = if w & (1u32 << 0u32) != 0 { (1u16 << 3u16) | r4 } else { r4 };
    let r2: u16 = if w & (1u32 << 1u32) != 0 { (1u16 << 2u16) | r3 } else { r3 };
    let r1: u16 = if w & (1u32 << 3u32) != 0 { (1u16 << 1u16) | r2 } else { r2 };
    if w & (1u32 << 5u32) != 0 { (1u16 << 0u16) | r1 } else { r1 }
}

/// The data pins in order, and their bits in the pin word.
proof fn lemma_data_pins_seq()
    ensures
        data_pins_seq().len() == 8,
        data_pins_seq()[0] == 6 && data_pins_seq()[1] == 4 && data_pins_seq()[2] == 2 && data_pins_seq()[3] == 1,
        data_pins_seq()[4] == 3 && data_pins_seq()[5] == 5 && data_pins_seq()[6] == 7 && data_pins_seq()[7] == 8,
        pin_mask(6) == 1u32 << 5u32 && pin_mask(4) == 1u32 << 3u32 && pin_mask(2) == 1u32 << 1u32,
        pin_mask(1) == 1u32 << 0u32 && pin_mask(3) == 1u32 << 2u32 && pin_mask(5) == 1u32 << 4u32,
        pin_mask(7) == 1u32 << 6u32 && pin_mask(8) == 1u32 << 7u32,
{
}

/// Driving the data pins, pin by pin.
proof fn lemma_data_pins_written(pins: u32, v: u16)
    ensures
        written_pins(pins, v, data_pins_seq(), 0) == data_pins_driven(pins, v),
{
    let ps = data_pins_seq();
    lemma_data_pins_seq();
    let w1 = if data_bit(v, 0) { pins | pin_mask(6) } else { pins & !pin_mask(6) };
    let w2 = if data_bit(v, 1) { w1 | pin_mask(4) } else { w1 & !pin_mask(4) };
    let w3 = if data_bit(v, 2) { w2 | pin_mask(2) } else { w2 & !pin_mask(2) };
    let w4 = if data_bit(v, 3) { w3 | pin_mask(1) } else { w3 & !pin_mask(1) };
    let w5 = if data_bit(v, 4) { w4 | pin_mask(3) } else { w4 & !pin_mask(3) };
    let w6 = if data_bit(v, 5) { w5 | pin_mask(5) } else { w5 & !pin_mask(5) };
    let w7 = if data_bit(v, 6) { w6 | pin_mask(7) } else { w6 & !pin_mask(7) };
    let w8 = if data_bit(v, 7) { w7 | pin_mask(8) } else { w7 & !pin_mask(8) };
    assert(written_pins(w8, v, ps, 8) == w8);
    assert(written_pins(w7, v, ps, 7) == w8);
    assert(written_pins(w6, v, ps, 6) == w8);
    assert(written_pins(w5, v, ps, 5) == w8);
    assert(written_pins(w4, v, ps, 4) == w8);
    assert(written_pins(w3, v, ps, 3) == w8);
    assert(written_pins(w2, v, ps, 2) == w8);
    assert(written_pins(w1, v, ps, 1) == w8);
    assert(written_pins(pins, v, ps, 0) == w8);
}

/// Reading the data pins, pin by pin.
proof fn lemma_data_pins_bits_read(w: u32)
    ensures
        pin_bits(w, data_pins_seq(), 0, 8) == data_pins_read(w),
{
    let ps = data_pins_seq();
    lemma_data_pins_seq();
    assert(pin_bits(w, ps, 8, 8) == 0);
    assert(pin_bits(w, ps, 7, 8) == (if w & (1u32 << 7u32) != 0 { (1u16 << 7u16) | 0u16 } else { 0u16 }));
    let r7 = pin_bits(w, ps, 7, 8);
    assert(pin_bits(w, ps, 6, 8) == (if w & (1u32 << 6u32) != 0 { (1u16 << 6u16) | r7 } else { r7 }));
    let r6 = pin_bits(w, ps, 6, 8);
    assert(pin_bits(w, ps, 5, 8) == (if w & (1u32 << 4u32) != 0 { (1u16 << 5u16) | r6 } else { r6 }));
    let r5 = pin_bits(w, ps, 5, 8);
    assert(pin_bits(w, ps, 4, 8) == (if w & (1u32 << 2u32) != 0 { (1u16 << 4u16) | r5 } else { r5 }));
    let r4 = pin_bits(w, ps, 4, 8);
    assert(pin_bits(w, ps, 3, 8) == (if w & (1u32 << 0u32) != 0 { (1u16 << 3u16) | r4 } else { r4 }));
    let r3 = pin_bits(w, ps, 3, 8);
    assert(pin_bits(w, ps, 2, 8) == (if w & (1u32 << 1u32) != 0 { (1u16 << 2u16) | r3 } else { r3 }));
    let r2 = pin_bits(w, ps, 2, 8);
    assert(pin_bits(w, ps, 1, 8) == (if w & (1u32 << 3u32) != 0 { (1u16 << 1u16) | r2 } else { r2 }));
    let r1 = pin_bits(w, ps, 1, 8);
    assert(pin_bits(w, ps, 0, 8) == (if w & (1u32 << 5u32) != 0 { (1u16 << 0u16) | r1 } else { r1 }));
}

/// Reading the data pins gives back the byte last driven onto them.
pub proof fn lemma_data_pins_roundtrip(pins: u32, v: u16)
    requires
        v < 256,
    ensures
        pin_bits(written_pins(pins, v, data_pins_seq(), 0), data_pins_seq(), 0, 8) == v,
{
    lemma_data_pins_written(pins, v);
    lemma_data_pins_bits_read(data_pins_driven(pins, v));
    lemma_data_pins_bits(pins, v);
}

/// Driving the eight data pins with the bits of a byte and reading them
/// back gives the byte.
proof fn lemma_data_pins_bits(p: u32, v: u16)
    by (bit_vector)
    requires
        v < 256,
    ensures
        data_pins_read(data_pins_driven(p, v)) == v,
{
}

/// Drives the pins of `data_pins` (up to the first 0) with the bits of
/// `data`, bit 0 on the first pin.
fn write_pins(pins: u32, data: u16, data_pins: &[u32]) -> (r: u32)
    requires
        pins_valid(data_pins@),
    ensures
        r == written_pins(pins, data, data_pins@, 0),
{
    let mut pins = pins;
    let ghost p0 = pins;
    let mut shift: u16 = 1;
    let mut i: usize = 0;
    proof {
        lemma_word_bits(0, 0, 0, 0, 0);
    }
    while i < data_pins.len() && data_pins[i] != 0
        invariant
            i <= data_pins@.len(),
            pins_valid(data_pins@),
            written_pins(pins, data, data_pins@, i as nat) == written_pins(p0, data, data_pins@, 0),
            shift == (if i < 16 { 1u16 << (i as u16) } else { 0u16 }),
        decreases data_pins@.len() - i,
    {
        let p = data_pins[i];
        assert(p <= 32);
        if i < 16 {
            proof {
                lemma_shift_bit(data, i as u16);
            }
        } else {
            proof {
                lemma_word_bits(data, 0, 0, 0, 0);
            }
        }
        if data & shift != 0 {
            pins = pins | (1 << (p - 1));
        } else {
            pins = pins & !(1 << (p - 1));
        }
        shift = shift << 1;
        i = i + 1;
    }
    pins
}

/// Drives the data pins with `data`.
fn write_data_pins(pins: u32, data: u8) -> (r: u32)
    ensures
        r == written_pins(pins, data as u16, data_pins_seq(), 0),
{
    assert(DATA_PINS@ =~= data_pins_seq());
    write_pins(pins, data as u16, DATA_PINS.as_slice())
}

/// The byte read from the pins of `data_pins` (up to the first 0), bit 0
/// from the first pin.
fn read_pins_u8(pins: u32, data_pins: &[u32]) -> (r: u8)
    requires
        pins_valid(data_pins@),
    ensures
        r as u16 == pin_bits(pins, data_pins@, 0, 8),
{
    let mut shift: u8 = 1;
    let mut r: u8 = 0;
    let mut i: usize = 0;
    proof {
        lemma_or_assoc(pin_bits(pins, data_pins@, 0, 8), 0, 0);
        assert((0u8 as u16) == 0u16);
    }
    proof {
        lemma_byte_bits(0, 0, 0);
    }
    while i < data_pins.len() && data_pins[i] != 0
        invariant
            i <= data_pins@.len(),
            pins_valid(data_pins@),
            (r as u16 | pin_bits(pins, data_pins@, i as nat, 8)) == pin_bits(pins, data_pins@, 0, 8),
            shift == (if i < 8 { 1u8 << (i as u8) } else { 0u8 }),
            r as u16 <= 0xff,
        decreases data_pins@.len() - i,
    {
        let p = data_pins[i];
        let ghost rest = pin_bits(pins, data_pins@, (i + 1) as nat, 8);
        if (pins & (1 << (p - 1))) != 0 {
            proof {
                if i < 8 {
                    let ii = i as u8;
                    lemma_byte_bits(0, 0, ii);
                }
                lemma_or_assoc(r as u16, shift as u16, rest);
                lemma_byte_bits(r, shift, 0);
            }
            r = r | shift;
        } else {
            proof {
                lemma_or_assoc(r as u16, 0, rest);
            }
        }
        proof {
            if i < 8 {
                let ii = i as u8;
                lemma_byte_bits(0, 0, ii);
            } else {
                lemma_byte_bits(0, 0, 0);
            }
        }
        shift = shift << 1;
        i = i + 1;
    }
    proof {
        lemma_byte_bits(r, 0, 0);
    }
    r
}

/// The word read from the pins of `data_pins` (up to the first 0), bit 0
/// from the first pin.
fn read_pins_u16(pins: u32, data_pins: &[u32]) -> (r: u16)
    requires
        pins_valid(data_pins@),
    ensures
        r == pin_bits(pins, data_pins@, 0, 16),
{
    let mut shift: u16 = 1;
    let mut r: u16 = 0;
    let mut i: usize = 0;
    proof {
        lemma_or_assoc(pin_bits(pins, data_pins@, 0, 16), 0, 0);
    }
    proof {
        lemma_word_bits(0, 0, 0, 0, 0);
    }
    while i < data_pins.len() && data_pins[i] != 0
        invariant
            i <= data_pins@.len(),
            pins_valid(data_pins@),
            (r | pin_bits(pins, data_pins@, i as nat, 16)) == pin_bits(pins, data_pins@, 0, 16),
            shift == (if i < 16 { 1u16 << (i as u16) } else { 0u16 }),
        decreases data_pins@.len() - i,
    {
        let p = data_pins[i];
        let ghost rest = pin_bits(pins, data_pins@, (i + 1) as nat, 16);
        if i < 16 {
            proof {
                lemma_shift_bit(0, i as u16);
            }
        } else {
            proof {
                lemma_word_bits(0, 0, 0, 0, 0);
            }
        }
        if (pins & (1 << (p - 1))) != 0 {
            proof {
                lemma_or_assoc(r, shift, rest);
                lemma_or_assoc(r, 0, rest);
            }
            r = r | shift;
        } else {
            proof {
                lemma_or_assoc(r, 0, rest);
            }
        }
        shift = shift << 1;
        i = i + 1;
    }
    proof {
        lemma_or_assoc(r, 0, 0);
    }
    r
}

/// The interface of a cartridge's memory chips: its image and its pins.
pub trait CartridgeI {
    /// Whether the cartridge can take the pin word `pins`.
    spec fn accepts_pins(&self, pins: u32) -> bool;

    /// Loads an image.
    fn load(&mut self, file_content: &[u8]);

    /// Drives the pins.
    fn set_pins(&mut self, pins: u32)
        requires
            old(self).accepts_pins(pins),
    ;

    /// The pins as last driven.
    fn pins(&self) -> u32;
}

/// The memory chips on the cartridge, if any.
enum CartType {
    Empty,
    Generic(CartridgeGeneric),
}

/// Why an image could not be loaded.
#[derive(Clone, Copy, Debug, PartialEq, Eq, Structural)]
pub enum CartridgeError {
    UnknownFormat,
}

impl CartridgeError {
    /// The error's message, as an I/O error of kind "other" carries it.
    pub fn message(&self) -> (r: &'static str)
        ensures
            r == "Couldn't identify cart file format.",
    {
        match self {
            CartridgeError::UnknownFormat => "Couldn't identify cart file format.",
        }
    }
}

/// A cartridge: its header, memory chips and EEPROM, and the bus access in
/// progress.
pub struct Cartridge {
    ticks_to_done: u8,
    header: LNXHeader,
    cart: CartType,
    eeprom: Option<Eeprom>,
    healthy: bool,
}

/// The abstract state of a [`Cartridge`].
pub struct CartridgeView {
    pub ticks_to_done: u8,
    pub header: LNXHeaderView,
    pub cart: Option<GenericView>,
    pub eeprom: Option<EeView>,
    pub healthy: bool,
}

impl View for Cartridge {
    type V = CartridgeView;

    closed spec fn view(&self) -> CartridgeView {
        CartridgeView {
            ticks_to_done: self.ticks_to_done,
            header: self.header@,
            cart: match self.cart {
                CartType::Empty => None,
                CartType::Generic(c) => Some(c@),
            },
            eeprom: match self.eeprom {
                None => None,
                Some(e) => Some(e@),
            },
            healthy: self.healthy,
        }
    }
}

/// Whether every byte is below 0x80.
pub open spec fn all_ascii(bytes: Seq<u8>) -> bool {
    forall|i: int| 0 <= i < bytes.len() ==> #[trigger] bytes[i] < 0x80
}

/// The name `String::from_utf8` gives to what it makes of bytes: the
/// characters they encode, or nothing when they are not valid UTF-8.
pub uninterp spec fn utf8_decode(bytes: Seq<u8>) -> Option<Seq<char>>;

/// `String::from_utf8`: the string the bytes encode, or nothing when they
/// are not valid UTF-8. The contract says its result is `utf8_decode` of
/// the bytes, and that bytes all below 0x80 (ASCII) decode one character
/// per byte.
#[verifier::external_body]
fn string_from_utf8(bytes: Vec<u8>) -> (r: Option<String>)
    ensures
        r is Some <==> utf8_decode(bytes@) is Some,
        r matches Some(s) ==> utf8_decode(bytes@) == Some(s@),
        r matches Some(s) || !all_ascii(bytes@),
        r matches Some(s) ==> (all_ascii(bytes@) ==> s@ == bytes@.map_values(|b: u8| b as char)),
{
    match String::from_utf8(bytes) {
        Ok(s) => Some(s),
        Err(_) => None,
    }
}

/// The text of a header field: its bytes as UTF-8, or "Error".
pub open spec fn header_text(bytes: Seq<u8>) -> Seq<char> {
    match utf8_decode(bytes) {
        Some(s) => s,
        None => "Error"@,
    }
}

/// The header read from an LNX image: page sizes and version as
/// little-endian words at 4, 6 and 8, the title from bytes 10-41, the
/// manufacturer from bytes 42-58, the rotation from byte 58 and the spare
/// bytes 59-63.
pub open spec fn lnx_header_of(d: Seq<u8>) -> LNXHeaderView {
    LNXHeaderView {
        bank0_size: word(d[4], d[5]),
        bank1_size: word(d[6], d[7]),
        version: word(d[8], d[9]),
        title: header_text(d.subrange(10, 42)),
        manufacturer: header_text(d.subrange(42, 59)),
        rotation: if d[58] == 1 {
            LNXRotation::_270
        } else if d[58] == 2 {
            LNXRotation::_90
        } else {
            LNXRotation::NoRotation
        },
        spare: d.subrange(59, 64),
    }
}

/// The address pins of a page size, if it is one of the known ones.
pub open spec fn pins_for_bank(bank_size: u16) -> Option<Seq<u32>> {
    if bank_size == 512 {
        Some(_128K_PINS@)
    } else if bank_size == 1024 {
        Some(_256K_PINS@)
    } else if bank_size == 2048 {
        Some(_512K_PINS@)
    } else if bank_size == 4096 {
        Some(_1024KAUDIN_PINS@)
    } else {
        None
    }
}

/// The EEPROM an LNX header's EEPROM byte names (its bits 0-2 the size,
/// bit 7 the 16-bit organisation).
pub open spec fn eeprom_of(code: u8) -> Option<EEpromType> {
    let c = code & 0x87;
    if c == 0x01 {
        Some(EEpromType::Ee93c46x8)
    } else if c == 0x02 {
        Some(EEpromType::Ee93c56x8)
    } else if c == 0x03 {
        Some(EEpromType::Ee93c66x8)
    } else if c == 0x04 {
        Some(EEpromType::Ee93c76x8)
    } else if c == 0x05 {
        Some(EEpromType::Ee93c86x8)
    } else if c == 0x81 {
        Some(EEpromType::Ee93c46x16)
    } else if c == 0x82 {
        Some(EEpromType::Ee93c56x16)
    } else if c == 0x83 {
        Some(EEpromType::Ee93c66x16)
    } else if c == 0x84 {
        Some(EEpromType::Ee93c76x16)
    } else if c == 0x85 {
        Some(EEpromType::Ee93c86x16)
    } else {
        None
    }
}

/// Whether `e` is the fresh EEPROM of type `t`.
pub open spec fn fresh_eeprom(e: EeView, t: EEpromType) -> bool {
    &&& ee_wf(e)
    &&& e.typ == model_of(t)
    &&& e.data == Seq::new(geometry(model_of(t)).0 as nat, |i: int| 0xffffu16)
    &&& e.ewds
    &&& !e.last_output
}

/// Whether the image starts with the LNX magic "LYNX" and holds more than
/// its header.
pub open spec fn is_lnx_image(d: Seq<u8>) -> bool {
    d.len() > 64 && d[0] == 0x4c && d[1] == 0x59 && d[2] == 0x4e && d[3] == 0x58
}

/// Whether the image carries the BS93 magic at bytes 6-9 and holds more
/// than its header.
pub open spec fn is_bs93_image(d: Seq<u8>) -> bool {
    d.len() > 10 && d[6] == 0x42 && d[7] == 0x53 && d[8] == 0x39 && d[9] == 0x33
}

/// Whether `c` is the cartridge loaded from LNX image `d`: its header
/// parsed, its memory set up when the page size is known (the image past
/// the header as its contents), and the EEPROM the header names.
pub open spec fn lnx_loaded(c: CartridgeView, d: Seq<u8>) -> bool {
    let h = lnx_header_of(d);
    &&& c.header == h
    &&& c.ticks_to_done == 0
    &&& match pins_for_bank(h.bank0_size) {
        Some(pins) => {
            &&& c.healthy
            &&& c.cart == Some(
                GenericView {
                    pins: 0,
                    banks: seq![d.subrange(64, d.len() as int)],
                    addr_pins: pins,
                    block_pins: BLOCK_PINS@,
                    bank_size: h.bank0_size as u32,
                },
            )
        },
        None => !c.healthy && c.cart is None,
    }
    &&& match eeprom_of(d[60]) {
        Some(t) => c.eeprom matches Some(e) && fresh_eeprom(e, t),
        None => c.eeprom is None,
    }
}

/// The 256 KiB image a BS93 program is loaded as: the BLL loader, the
/// program, then zeros.
pub open spec fn bs93_image(d: Seq<u8>) -> Seq<u8> {
    BLL_LOADER@ + d + Seq::new((0x4_0000 - 246 - d.len()) as nat, |i: int| 0u8)
}

/// Whether `c` is the cartridge loaded from BS93 image `d`.
pub open spec fn bs93_loaded(c: CartridgeView, d: Seq<u8>) -> bool {
    &&& c.ticks_to_done == 0
    &&& c.header == unknown_header()
    &&& c.eeprom is None
    &&& c.healthy
    &&& c.cart == Some(
        GenericView {
            pins: 0,
            banks: seq![bs93_image(d)],
            addr_pins: _256K_PINS@,
            block_pins: BLOCK_PINS@,
            bank_size: 1024,
        },
    )
}

/// Whether a cartridge has working memory chips and its pins are at rest
/// (chip enable and data bits 0 and 3 low).
pub open spec fn cartridge_ready(c: CartridgeView) -> bool {
    &&& c.cart matches Some(g) && generic_wf(g) && g.banks.len() >= 1 && g.pins & 9 == 0
    &&& c.eeprom matches Some(e) ==> ee_wf(e)
}

/// Whether the chips can take pin word `pins`.
pub open spec fn generic_accepts(g: GenericView, pins: u32) -> bool {
    &&& generic_wf(g)
    &&& g.banks.len() >= 1
    &&& generic_writes(g, pins) ==> data_address_of(g, pins) < g.banks[0].len()
}

/// The cartridge after its pins are driven with `pins`: the chips follow
/// them and so does the EEPROM.
pub open spec fn cart_pins_set(c: CartridgeView, pins: u32) -> CartridgeView {
    CartridgeView {
        cart: Some(generic_set_pins(c.cart->0, pins)),
        eeprom: match c.eeprom {
            Some(e) => Some(ee_tick(e, pins)),
            None => None,
        },
        ..c
    }
}

/// The pin word with the block number, the position in the block and
/// AUDIN on their address pins.
pub open spec fn address_pins(pins: u32, shifter: u8, ripple: u16, audin: u16) -> u32 {
    written_pins(
        written_pins(written_pins(pins, shifter as u16, SHIFTER_PINS@, 0), ripple, RIPPLE_PINS@, 0),
        audin,
        AUDIN_PINS@,
        0,
    )
}

/// A read of cartridge bank 0: chip enable rises (the chips put the
/// addressed byte on the data pins), the byte is taken from the data pins,
/// and chip enable falls. Gives the cartridge and the byte.
pub open spec fn cart_read(c: CartridgeView) -> (CartridgeView, u8) {
    let c1 = cart_pins_set(c, c.cart->0.pins | 9);
    let p1 = c1.cart->0.pins;
    (cart_pins_set(c1, p1 & !9u32), pin_bits(p1, data_pins_seq(), 0, 8) as u8)
}

impl Default for Cartridge {
    fn default() -> (r: Self)
        ensures
            r@ == (CartridgeView {
                ticks_to_done: 0,
                header: unknown_header(),
                cart: None,
                eeprom: None,
                healthy: false,
            }),
    {
        Self { ticks_to_done: 0, header: LNXHeader::new(), cart: CartType::Empty, eeprom: None, healthy: false }
    }
}

impl Cartridge {
    /// Loads a cartridge image: an LNX image (magic "LYNX") or a BS93
    /// program (magic "BS93" at byte 6, run through the BLL loader); any
    /// other image is refused.
    pub fn from_slice(data: &[u8]) -> (r: Result<Self, CartridgeError>)
        requires
            !is_lnx_image(data@) && is_bs93_image(data@) ==> data@.len() <= 0x4_0000 - 246,
        ensures
            r is Ok <==> is_lnx_image(data@) || is_bs93_image(data@),
            r matches Ok(c) ==> (if is_lnx_image(data@) {
                lnx_loaded(c@, data@)
            } else {
                bs93_loaded(c@, data@)
            }),
            r matches Err(e) ==> e == CartridgeError::UnknownFormat,
    {
        let mut cart = Self::default();

        if cart.is_lnx(data) {
            cart.lnx(data);
        } else if cart.is_bs93(data) {
            cart.bs93(data);
        } else {
            return Err(CartridgeError::UnknownFormat);
        }
        Ok(cart)
    }

    /// Drives every pin low and ends any access in progress.
    pub fn reset(&mut self)
        requires
            old(self)@.cart matches Some(g) && generic_wf(g) && g.banks.len() >= 1,
            old(self)@.eeprom matches Some(e) ==> ee_wf(e),
        ensures
            final(self)@ == (CartridgeView { ticks_to_done: 0, ..cart_pins_set(old(self)@, 0) }),
    {
        proof {
            lemma_pin_word_bits(0, 0, 0, 0);
        }
        self.set_cart_pins(0);
        self.ticks_to_done = 0;
    }

    fn is_bs93(&self, file_content: &[u8]) -> (r: bool)
        ensures
            r == is_bs93_image(file_content@),
    {
        file_content.len() > BS93_HEADER_LENGTH && file_content[6] == 0x42 && file_content[7] == 0x53
            && file_content[8] == 0x39 && file_content[9] == 0x33
    }

    fn is_lnx(&self, file_content: &[u8]) -> (r: bool)
        ensures
            r == is_lnx_image(file_content@),
    {
        file_content.len() > LNX_HEADER_LENGTH && file_content[0] == 0x4c && file_content[1] == 0x59
            && file_content[2] == 0x4e && file_content[3] == 0x58
    }

    fn bs93(&mut self, file_content: &[u8])
        requires
            file_content@.len() <= 0x4_0000 - 246,
            old(self)@.ticks_to_done == 0,
            old(self)@.header == unknown_header(),
            old(self)@.eeprom is None,
        ensures
            bs93_loaded(final(self)@, file_content@),
    {
        let mut cart = CartridgeGeneric::new(1024, _256K_PINS.as_slice());
        let mut content: Vec<u8> = Vec::new();
        let mut i: usize = 0;
        while i < BLL_LOADER.len()
            invariant
                i <= 246,
                content@ == BLL_LOADER@.subrange(0, i as int),
            decreases 246 - i,
        {
            content.push(BLL_LOADER[i]);
            i = i + 1;
            assert(content@ =~= BLL_LOADER@.subrange(0, i as int));
        }
        let mut j: usize = 0;
        while j < file_content.len()
            invariant
                j <= file_content@.len(),
                content@ == BLL_LOADER@ + file_content@.subrange(0, j as int),
            decreases file_content@.len() - j,
        {
            content.push(file_content[j]);
            j = j + 1;
            assert(content@ =~= BLL_LOADER@ + file_content@.subrange(0, j as int));
        }
        let fill_size: usize = 256 * 1024 - BLL_LOADER.len() - file_content.len();
        let mut k: usize = 0;
        while k < fill_size
            invariant
                k <= fill_size,
                fill_size == 0x4_0000 - 246 - file_content@.len(),
                content@ == BLL_LOADER@ + file_content@ + Seq::new(k as nat, |i: int| 0u8),
            decreases fill_size - k,
        {
            content.push(0);
            k = k + 1;
            assert(content@ =~= BLL_LOADER@ + file_content@ + Seq::new(k as nat, |i: int| 0u8));
        }
        assert(file_content@.subrange(0, file_content@.len() as int) =~= file_content@);
        cart.load(content.as_slice());
        self.cart = CartType::Generic(cart);
        self.healthy = true;
    }

    fn lnx(&mut self, file_content: &[u8])
        requires
            is_lnx_image(file_content@),
            old(self)@.ticks_to_done == 0,
        ensures
            lnx_loaded(final(self)@, file_content@),
    {
        self.load_lnx_header(file_content);

        let bank_size = self.header.bank0_size();
        let pins: Option<&[u32]> = if bank_size == 512 {
            Some(_128K_PINS.as_slice())
        } else if bank_size == 1024 {
            Some(_256K_PINS.as_slice())
        } else if bank_size == 2048 {
            Some(_512K_PINS.as_slice())
        } else if bank_size == 4096 {
            Some(_1024KAUDIN_PINS.as_slice())
        } else {
            None
        };
        match pins {
            None => {
                self.cart = CartType::Empty;
                self.healthy = false;
            },
            Some(pins) => {
                let mut cart = CartridgeGeneric::new(bank_size as u32, pins);
                cart.load(vstd::slice::slice_subrange(file_content, LNX_HEADER_LENGTH, file_content.len()));
                self.cart = CartType::Generic(cart);
                self.healthy = true;
            },
        }

        let code = self.header.eeprom() & 0b1000_0111;
        self.eeprom = if code == 0x01 {
            Some(Eeprom::new(&EEpromType::Ee93c46x8))
        } else if code == 0x02 {
            Some(Eeprom::new(&EEpromType::Ee93c56x8))
        } else if code == 0x03 {
            Some(Eeprom::new(&EEpromType::Ee93c66x8))
        } else if code == 0x04 {
            Some(Eeprom::new(&EEpromType::Ee93c76x8))
        } else if code == 0x05 {
            Some(Eeprom::new(&EEpromType::Ee93c86x8))
        } else if code == 0x81 {
            Some(Eeprom::new(&EEpromType::Ee93c46x16))
        } else if code == 0x82 {
            Some(Eeprom::new(&EEpromType::Ee93c56x16))
        } else if code == 0x83 {
            Some(Eeprom::new(&EEpromType::Ee93c66x16))
        } else if code == 0x84 {
            Some(Eeprom::new(&EEpromType::Ee93c76x16))
        } else if code == 0x85 {
            Some(Eeprom::new(&EEpromType::Ee93c86x16))
        } else {
            None
        };
    }

    fn load_lnx_header(&mut self, file_content: &[u8])
        requires
            file_content@.len() >= 64,
        ensures
            final(self)@ == (CartridgeView { header: lnx_header_of(file_content@), ..old(self)@ }),
    {
        self.header.set_bank0_size(to_u16(file_content[4], file_content[5]));
        self.header.set_bank1_size(to_u16(file_content[6], file_content[7]));
        self.header.set_version(to_u16(file_content[8], file_content[9]));
        let title = match string_from_utf8(vstd::slice::slice_to_vec(vstd::slice::slice_subrange(file_content, 10, 42))) {
            Some(t) => t,
            None => "Error".to_owned(),
        };
        self.header.set_title(title);
        let manufacturer = match string_from_utf8(
            vstd::slice::slice_to_vec(vstd::slice::slice_subrange(file_content, 42, 59)),
        ) {
            Some(m) => m,
            None => "Error".to_owned(),
        };
        self.header.set_manufacturer(manufacturer);
        self.header.set_rotation(
            if file_content[58] == 1 {
                LNXRotation::_270
            } else if file_content[58] == 2 {
                LNXRotation::_90
            } else {
                LNXRotation::NoRotation
            },
        );
        self.header.set_spare(vstd::slice::slice_to_vec(vstd::slice::slice_subrange(file_content, 59, 64)));
    }

    /// Drives the block number, the position in the block and AUDIN onto
    /// the cartridge's address pins.
    pub fn write_address_to_pins(&mut self, shifter: u8, ripple: u16, audin: u16)
        requires
            cartridge_ready(old(self)@),
        ensures
            final(self)@ == cart_pins_set(old(self)@, address_pins(old(self)@.cart->0.pins, shifter, ripple, audin)),
            cartridge_ready(final(self)@),
    {
        let ghost g = self@.cart->0;
        let mut pins = self.cart_pins();
        proof {
            lemma_address_pins_frame(pins, shifter, ripple, audin);
        }
        pins = write_pins(pins, shifter as u16, SHIFTER_PINS.as_slice());
        pins = write_pins(pins, ripple, RIPPLE_PINS.as_slice());
        pins = write_pins(pins, audin, AUDIN_PINS.as_slice());
        proof {
            let p0 = g.pins;
            assert(pins & 0xff == p0 & 0xff);
            lemma_pin_word_bits(pins, p0, 0, 0);
        }
        self.set_cart_pins(pins);
    }

    fn cart_pins(&self) -> (r: u32)
        requires
            self@.cart is Some,
        ensures
            r == self@.cart->0.pins,
    {
        match &self.cart {
            CartType::Generic(c) => c.pins(),
            CartType::Empty => 0,
        }
    }

    /// The header of the loaded image.
    pub fn header(&self) -> (r: &LNXHeader)
        ensures
            r@ == self@.header,
    {
        &self.header
    }

    /// The level the EEPROM drives onto AUDIN (low without an EEPROM).
    pub fn audin(&self) -> (r: bool)
        ensures
            r == (match self@.eeprom {
                Some(e) => e.last_output,
                None => false,
            }),
    {
        match &self.eeprom {
            None => false,
            Some(ee) => ee.audin(),
        }
    }

    fn set_cart_pins(&mut self, pins: u32)
        requires
            old(self)@.cart matches Some(g) && generic_accepts(g, pins),
            old(self)@.eeprom matches Some(e) ==> ee_wf(e),
        ensures
            final(self)@ == cart_pins_set(old(self)@, pins),
            final(self)@.eeprom matches Some(e) ==> ee_wf(e),
    {
        match &mut self.cart {
            CartType::Generic(c) => c.set_pins(pins),
            CartType::Empty => {},
        };
        if let Some(ee) = &mut self.eeprom {
            ee.tick(pins);
        }
    }

    fn set_pin(&mut self, pin: u32)
        requires
            old(self)@.cart matches Some(g) && generic_accepts(g, g.pins | pin),
            old(self)@.eeprom matches Some(e) ==> ee_wf(e),
        ensures
            final(self)@ == cart_pins_set(old(self)@, old(self)@.cart->0.pins | pin),
            final(self)@.eeprom matches Some(e) ==> ee_wf(e),
    {
        let mut pins = self.cart_pins();
        pins = pins | pin;
        self.set_cart_pins(pins);
    }

    fn clear_pin(&mut self, pin: u32)
        requires
            old(self)@.cart matches Some(g) && generic_accepts(g, g.pins & !pin),
            old(self)@.eeprom matches Some(e) ==> ee_wf(e),
        ensures
            final(self)@ == cart_pins_set(old(self)@, old(self)@.cart->0.pins & !pin),
            final(self)@.eeprom matches Some(e) ==> ee_wf(e),
    {
        let mut pins = self.cart_pins();
        pins = pins & !pin;
        self.set_cart_pins(pins);
    }

    /// The screen rotation the header asks for.
    pub fn rotation(&self) -> (r: LNXRotation)
        ensures
            r == self@.header.rotation,
    {
        self.header.rotation()
    }

    /// One tick of a cartridge bus access. Idle, it starts the access the
    /// bus asks for (a read or write of bank 0 or 1), marking that bank's
    /// strobe active; on its last tick it completes it: a read of bank 0
    /// gives the addressed byte when the cartridge is powered (0xFF
    /// otherwise), a read of bank 1 gives 0xFF, a write stores nothing; the
    /// bus is told to move to the next byte and the strobe goes inactive.
    pub fn tick(&mut self, bus: &mut Bus, mikey_regs: &mut MikeyRegisters, switches: &mut Switches)
        requires
            old(self)@.ticks_to_done == 1 && old(bus)@.status == BusStatus::PeekCart0 && mreg(old(mikey_regs)@.data, SYSCTL1)
                & SYSCTL1_POWER != 0 ==> cartridge_ready(old(self)@),
        ensures
            final(mikey_regs)@ == old(mikey_regs)@,
            ({
                let c = old(self)@;
                let b = old(bus)@;
                let s = old(switches)@;
                if c.ticks_to_done == 0 {
                    final(bus)@ == b && if b.status == BusStatus::PeekCart0 {
                        final(self)@ == (CartridgeView { ticks_to_done: CART_READ_TICKS, ..c }) && final(switches)@ == s
                            & !0x02u8
                    } else if b.status == BusStatus::PeekCart1 {
                        final(self)@ == (CartridgeView { ticks_to_done: CART_READ_TICKS, ..c }) && final(switches)@ == s
                            & !0x04u8
                    } else if b.status == BusStatus::PokeCart0 {
                        final(self)@ == (CartridgeView { ticks_to_done: CART_WRITE_TICKS, ..c }) && final(switches)@
                            == s & !0x02u8
                    } else if b.status == BusStatus::PokeCart1 {
                        final(self)@ == (CartridgeView { ticks_to_done: CART_WRITE_TICKS, ..c }) && final(switches)@
                            == s & !0x04u8
                    } else {
                        final(self)@ == c && final(switches)@ == s
                    }
                } else if c.ticks_to_done == 1 {
                    if b.status == BusStatus::PeekCart0 {
                        final(switches)@ == s | 0x02 && if mreg(old(mikey_regs)@.data, SYSCTL1) & SYSCTL1_POWER != 0 {
                            let (c2, byte) = cart_read(c);
                            final(self)@ == (CartridgeView { ticks_to_done: 0, ..c2 }) && final(bus)@ == (BusView {
                                data: byte,
                                status: BusStatus::PeekIncCartRipple,
                                ..b
                            })
                        } else {
                            final(self)@ == (CartridgeView { ticks_to_done: 0, ..c }) && final(bus)@ == (BusView {
                                data: 0xff,
                                status: BusStatus::PeekIncCartRipple,
                                ..b
                            })
                        }
                    } else if b.status == BusStatus::PeekCart1 {
                        final(switches)@ == s | 0x04 && final(self)@ == (CartridgeView { ticks_to_done: 0, ..c })
                            && final(bus)@ == (BusView { data: 0xff, status: BusStatus::PeekIncCartRipple, ..b })
                    } else if b.status == BusStatus::PokeCart0 {
                        final(switches)@ == s | 0x02 && final(self)@ == (CartridgeView { ticks_to_done: 0, ..c })
                            && final(bus)@ == (BusView { status: BusStatus::PokeIncCartRipple, ..b })
                    } else if b.status == BusStatus::PokeCart1 {
                        final(switches)@ == s | 0x04 && final(self)@ == (CartridgeView { ticks_to_done: 0, ..c })
                            && final(bus)@ == (BusView { status: BusStatus::PokeIncCartRipple, ..b })
                    } else {
                        final(switches)@ == s && final(self)@ == (CartridgeView { ticks_to_done: 0, ..c })
                            && final(bus)@ == b
                    }
                } else {
                    final(self)@ == (CartridgeView { ticks_to_done: (c.ticks_to_done - 1) as u8, ..c })
                        && final(bus)@ == b && final(switches)@ == s
                }
            }),
    {
        let buss = bus.status();

        if self.ticks_to_done == 0 {
            match buss {
                BusStatus::PeekCart0 => {
                    self.ticks_to_done = CART_READ_TICKS;
                    switches.set(Switches::cart0_inactive(), false);
                },
                BusStatus::PeekCart1 => {
                    self.ticks_to_done = CART_READ_TICKS;
                    switches.set(Switches::cart1_inactive(), false);
                },
                BusStatus::PokeCart0 => {
                    self.ticks_to_done = CART_WRITE_TICKS;
                    switches.set(Switches::cart0_inactive(), false);
                },
                BusStatus::PokeCart1 => {
                    self.ticks_to_done = CART_WRITE_TICKS;
                    switches.set(Switches::cart1_inactive(), false);
                },
                _ => {},
            }
        } else if self.ticks_to_done == 1 {
            match buss {
                BusStatus::PeekCart0 => {
                    if mikey_regs.data(SYSCTL1) & SYSCTL1_POWER != 0 {
                        let ghost c = self@;
                        let ghost g = c.cart->0;
                        proof {
                            let gp = g.pins;
                            lemma_pin_word_bits(gp, 0, 0, 0);
                        }
                        self.set_pin(CART_PIN_CE);
                        let p1 = self.cart_pins();
                        let data = read_pins_u8(p1, DATA_PINS.as_slice());
                        proof {
                            assert(DATA_PINS@ =~= data_pins_seq());
                            lemma_pin_word_bits(p1, 0, 0, 0);
                        }
                        bus.set_data(data);
                        self.clear_pin(CART_PIN_CE);
                    } else {
                        bus.set_data(0xff);
                    }
                    bus.set_status(BusStatus::PeekIncCartRipple);
                    switches.set(Switches::cart0_inactive(), true);
                },
                BusStatus::PeekCart1 => {
                    bus.set_data(0xff);
                    bus.set_status(BusStatus::PeekIncCartRipple);
                    switches.set(Switches::cart1_inactive(), true);
                },
                BusStatus::PokeCart0 => {
                    bus.set_status(BusStatus::PokeIncCartRipple);
                    switches.set(Switches::cart0_inactive(), true);
                },
                BusStatus::PokeCart1 => {
                    bus.set_status(BusStatus::PokeIncCartRipple);
                    switches.set(Switches::cart1_inactive(), true);
                },
                _ => {},
            }
            self.ticks_to_done = 0;
        } else {
            self.ticks_to_done = self.ticks_to_done - 1;
        }
    }

    /// Takes the other cartridge's header and image.
    pub fn copy_from(&mut self, other: &Cartridge)
        requires
            old(self)@.cart is Some,
            other@.cart is Some,
        ensures
            final(self)@.cart == Some(GenericView { banks: other@.cart->0.banks, ..old(self)@.cart->0 }),
            final(self)@.ticks_to_done == old(self)@.ticks_to_done,
            final(self)@.eeprom == old(self)@.eeprom,
            final(self)@.healthy == old(self)@.healthy,
    {
        self.header = other.header.clone();
        match &other.cart {
            CartType::Generic(from) => match &mut self.cart {
                CartType::Generic(to) => to.copy_from(from),
                CartType::Empty => {},
            },
            CartType::Empty => {},
        };
    }
}

proof fn lemma_address_pins_frame(pins: u32, shifter: u8, ripple: u16, audin: u16)
    ensures
        address_pins(pins, shifter, ripple, audin) & 0xff == pins & 0xff,
        pins_valid(SHIFTER_PINS@),
        pins_valid(RIPPLE_PINS@),
        pins_valid(AUDIN_PINS@),
{
    assert(forall|p: u32| 9 <= p <= 32 ==> #[trigger] pin_mask(p) & 0xff == 0) by {
        assert forall|p: u32| 9 <= p <= 32 implies #[trigger] pin_mask(p) & 0xff == 0 by {
            lemma_pin_word_bits(p, 0, 0, 0);
        }
    }
    let p1 = written_pins(pins, shifter as u16, SHIFTER_PINS@, 0);
    let p2 = written_pins(p1, ripple, RIPPLE_PINS@, 0);
    lemma_written_frame(pins, shifter as u16, SHIFTER_PINS@, 0, 0xff);
    lemma_written_frame(p1, ripple, RIPPLE_PINS@, 0, 0xff);
    lemma_written_frame(p2, audin, AUDIN_PINS@, 0, 0xff);
}

} // verus!
