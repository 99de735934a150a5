//! Suzy's math unit: 16 x 16 multiply with optional sign and accumulation,
//! and 32 / 16 divide.
use vstd::prelude::*;
use crate::consts::{
    SUZ_ADDR, MATHA, MATHB, MATHC, MATHD, MATHE, MATHH, MATHL, MATHM, MATHP, SUZY_MULT_NON_SIGN_TICKS,
    SUZY_MULT_SIGN_TICKS,
};
use crate::suzy::SuzyInstruction;
use crate::suzy::registers::{
    SprSysR, SprSysW, SuzyRegisters, SuzyRegistersView, long_at, put_long, put_word, reg_at, word_at,
    lemma_long_roundtrip, lemma_word_roundtrip,
};
use vstd::std_specs::bits::{u16_leading_zeros, axiom_u16_leading_zeros};

verus! {

/// Whether signed mode treats `v` as negative. The hardware takes 0x8000
/// for a positive number and 0 for a negative one.
pub open spec fn sign_negative(v: u16) -> bool {
    v == 0 || v > 0x8000
}

/// The magnitude signed mode keeps of `v`.
pub open spec fn sign_magnitude(v: u16) -> u16 {
    if sign_negative(v) {
        ((0x1_0000 - v) % 0x1_0000) as u16
    } else {
        v
    }
}

/// The number signed mode reads in `v`: 0x8000 counts as +32768.
pub open spec fn signed_operand(v: u16) -> int {
    if v > 0x8000 {
        v - 0x1_0000
    } else {
        v as int
    }
}

/// The product of `ab` and `cd`, negated modulo 2^32 when asked.
pub open spec fn product(ab: u16, cd: u16, negate: bool) -> u32 {
    let p = ab as int * cd as int;
    if negate {
        ((0x1_0000_0000 - p) % 0x1_0000_0000) as u32
    } else {
        p as u32
    }
}

/// SPRSYS as read after a multiply or divide: the math flags cleared, then
/// warning and carry raised on `overflow`, and the unit no longer working.
pub open spec fn math_done_flags(r: u8, overflow: bool) -> u8 {
    if overflow {
        (r | 0x60) & !0x80u8
    } else {
        r & !0xe0u8
    }
}

/// Whether SPRSYS as written asks for signed math.
pub open spec fn signed_math(v: SuzyRegistersView) -> bool {
    v.sprsys_w & 0x80 == 0x80
}

/// Whether SPRSYS as written asks for accumulation into JKLM.
pub open spec fn accumulating(v: SuzyRegistersView) -> bool {
    v.sprsys_w & 0x40 == 0x40
}

/// Whether a multiply negates its product: signed mode, with operands of
/// opposite signs.
pub open spec fn mult_negates(v: SuzyRegistersView) -> bool {
    signed_math(v) && v.sign_ab + v.tmp_sign_cd == 0
}

/// EFGH after a multiply from `v`.
pub open spec fn mult_efgh(v: SuzyRegistersView) -> u32 {
    product(word_at(v.data, MATHB), v.tmp_cd, mult_negates(v))
}

/// JKLM plus the new product, before it wraps to 32 bits.
pub open spec fn mult_sum(v: SuzyRegistersView) -> int {
    long_at(v.data, MATHM) + mult_efgh(v)
}

/// The registers after a multiply from `v`.
pub open spec fn multiplied(v: SuzyRegistersView) -> SuzyRegistersView {
    let e = mult_efgh(v);
    let with_e = put_long(v.data, MATHH, e);
    if accumulating(v) {
        SuzyRegistersView {
            data: put_long(with_e, MATHM, (mult_sum(v) % 0x1_0000_0000) as u32),
            sprsys_r: math_done_flags(v.sprsys_r, mult_sum(v) > 0xffff_ffff),
            ..v
        }
    } else {
        SuzyRegistersView { data: with_e, sprsys_r: math_done_flags(v.sprsys_r, false), ..v }
    }
}

/// The registers after a divide from `v`: ABCD takes the quotient of EFGH by
/// NP and JKLM the remainder; by zero, ABCD is all ones, JKLM zero, and
/// warning and carry are raised.
pub open spec fn divided(v: SuzyRegistersView) -> SuzyRegistersView {
    let efgh = long_at(v.data, MATHH);
    let np = word_at(v.data, MATHP);
    if np == 0 {
        SuzyRegistersView {
            data: put_long(put_long(v.data, MATHD, 0xffff_ffff), MATHM, 0),
            sprsys_r: math_done_flags(v.sprsys_r, true),
            ..v
        }
    } else {
        SuzyRegistersView {
            data: put_long(put_long(v.data, MATHD, efgh / (np as u32)), MATHM, efgh % (np as u32)),
            sprsys_r: math_done_flags(v.sprsys_r, false),
            ..v
        }
    }
}

proof fn lemma_sign_bits(v: u16)
    by (bit_vector)
    ensures
        (v ^ 0xffff) == 0xffff - v,
        (v & 0x8000 != 0) <==> v >= 0x8000,
{
}

proof fn lemma_flag_bits(r: u8)
    by (bit_vector)
    ensures
        ((((r & !0x40u8) & !0x20u8) | 0x40u8) | 0x20u8) & !0x80u8 == (r | 0x60) & !0x80u8,
        ((r & !0x40u8) & !0x20u8) & !0x80u8 == r & !0xe0u8,
        ((r | 0x60) & !0x80u8) & 0x60 == 0x60,
        (r & !0xe0u8) & 0x60 != 0x60,
{
}

proof fn lemma_wide_bits(e: u32, r: u64)
    by (bit_vector)
    ensures
        (e ^ 0xffff_ffff) == 0xffff_ffff - e,
        r as u32 == r % 0x1_0000_0000,
{
}

/// The registers once MATHA is written from the bus data, which starts a
/// multiply: in signed mode AB becomes its magnitude and its sign is kept,
/// CD and its sign are saved, and the unit reports working for the
/// multiply's duration.
pub open spec fn matha_written(v: SuzyRegistersView) -> SuzyRegistersView {
    let d = v.data.update(MATHA - SUZ_ADDR, v.data_r as u8);
    let ab = word_at(d, MATHB);
    (SuzyRegistersView {
        data: if signed_math(v) { put_word(d, MATHB, sign_magnitude(ab)) } else { d },
        sign_ab: if signed_math(v) && sign_negative(ab) { -1i8 } else { 1i8 },
        task_ticks_delay: if signed_math(v) || accumulating(v) {
            SUZY_MULT_SIGN_TICKS
        } else {
            SUZY_MULT_NON_SIGN_TICKS
        },
        tmp_cd: word_at(v.data, MATHD),
        tmp_sign_cd: v.sign_cd,
        sprsys_r: v.sprsys_r | 0x80,
        ir: SuzyInstruction::Idle,
        ..v
    })
}

/// The registers once MATHC is written from the bus data: in signed mode
/// CD becomes its magnitude and its sign is kept.
pub open spec fn mathc_written(v: SuzyRegistersView) -> SuzyRegistersView {
    let d = v.data.update(MATHC - SUZ_ADDR, v.data_r as u8);
    let cd = word_at(d, MATHD);
    (SuzyRegistersView {
        data: if signed_math(v) { put_word(d, MATHD, sign_magnitude(cd)) } else { d },
        sign_cd: if signed_math(v) && sign_negative(cd) { -1i8 } else { 1i8 },
        ir: SuzyInstruction::Idle,
        ..v
    })
}

/// The registers once MATHE is written from the bus data, which starts a
/// divide: the unit reports working for 176 ticks plus 14 per leading zero
/// of NP.
pub open spec fn mathe_written(v: SuzyRegistersView) -> SuzyRegistersView {
    let d = v.data.update(MATHE - SUZ_ADDR, v.data_r as u8);
    (SuzyRegistersView {
        data: d,
        sprsys_r: v.sprsys_r | 0x80,
        task_ticks_delay: (176 + 14 * u16_leading_zeros(word_at(d, MATHP))) as u16,
        ir: SuzyInstruction::Idle,
        ..v
    })
}

/// The registers once MATHM is written from the bus data and MATHL
/// cleared; this clears the accumulator's overflow warning.
pub open spec fn mathm_written(v: SuzyRegistersView) -> SuzyRegistersView {
    (SuzyRegistersView {
        data: v.data.update(MATHM - SUZ_ADDR, v.data_r as u8).update(MATHL - SUZ_ADDR, 0),
        sprsys_r: v.sprsys_r & !0x40u8,
        ir: SuzyInstruction::Idle,
        ..v
    })
}

/// Turns a signed-mode operand into its magnitude and sign (-1 or 1).
pub fn convert_sign(v: u16) -> (r: (u16, i8))
    ensures
        r.0 == sign_magnitude(v),
        r.1 == (if sign_negative(v) { -1i8 } else { 1i8 }),
{
    proof {
        lemma_sign_bits(v);
        lemma_sign_bits(v.wrapping_sub(1));
    }
    let mut v = v;
    let mut sign: i8 = 1;
    if v.wrapping_sub(1) & 0x8000 != 0 {
        let conversion: u16 = (v ^ 0xffff).wrapping_add(1);
        sign = -1;
        v = conversion;
    }
    (v, sign)
}

/// Divides EFGH by NP into ABCD (quotient) and JKLM (remainder).
pub fn divide(regs: &mut SuzyRegisters)
    ensures
        final(regs)@ == divided(old(regs)@),
{
    proof {
        old(regs).lemma_len();
        lemma_flag_bits(old(regs)@.sprsys_r);
    }
    let efgh = regs.efgh();
    let np = regs.np() as u32;

    regs.sprsys_r_disable_flag(SprSysR::math_warning());
    regs.sprsys_r_disable_flag(SprSysR::math_carry());

    if 0 == np {
        regs.set_abcd(0xffff_ffff);
        regs.set_jklm(0);
        regs.sprsys_r_enable_flag(SprSysR::math_warning());
        regs.sprsys_r_enable_flag(SprSysR::math_carry());
    } else {
        let abcd = efgh / np;
        let jklm = efgh % np;
        regs.set_abcd(abcd);
        regs.set_jklm(jklm);
    }

    regs.sprsys_r_disable_flag(SprSysR::math_working());
}

/// Multiplies AB by the saved CD into EFGH, negated where signed mode
/// found the operands of opposite signs, and adds it into JKLM when
/// accumulating, raising warning and carry on a 32-bit overflow.
#[verifier::rlimit(50)]
#[verifier::spinoff_prover]
pub fn multiply(regs: &mut SuzyRegisters)
    requires
        signed_math(old(regs)@) ==> -128 <= old(regs)@.sign_ab + old(regs)@.tmp_sign_cd <= 127,
    ensures
        final(regs)@ == multiplied(old(regs)@),
{
    proof {
        old(regs).lemma_len();
        lemma_flag_bits(old(regs)@.sprsys_r);
    }
    let ghost v = regs@;
    let ab = regs.ab() as u32;
    let cd = regs.tmp_cd() as u32;
    assert(ab * cd <= 0xffff * 0xffff) by (nonlinear_arith)
        requires
            ab <= 0xffff,
            cd <= 0xffff,
    ;
    let mut efgh: u32 = ab * cd;

    regs.sprsys_r_disable_flag(SprSysR::math_warning());
    regs.sprsys_r_disable_flag(SprSysR::math_carry());

    if regs.sprsys_w_is_flag_set(SprSysW::sign_math()) && 0 == regs.sign_ab() + regs.tmp_sign_cd() {
        proof {
            lemma_sign_bits(0);
            lemma_wide_bits(efgh, 0);
        }
        efgh = efgh ^ 0xffff_ffff;
        efgh = efgh.wrapping_add(1);
    }
    assert(efgh == mult_efgh(v));

    regs.set_efgh(efgh);
    proof {
        lemma_long_roundtrip(v.data, MATHH, efgh);
    }

    if regs.sprsys_w_is_flag_set(SprSysW::accumulate()) {
        let jklm = regs.jklm() as u64;
        let efgh = regs.efgh() as u64;
        let r = jklm + efgh;
        if r > 0xffff_ffff {
            regs.sprsys_r_enable_flag(SprSysR::math_warning());
            regs.sprsys_r_enable_flag(SprSysR::math_carry());
        }
        proof {
            lemma_wide_bits(0, r);
        }
        regs.set_jklm(r as u32);
    }

    regs.sprsys_r_disable_flag(SprSysR::math_working());
}

/// Writes MATHA from the bus data, which starts a multiply: in signed mode
/// AB becomes its magnitude and its sign is kept, CD and its sign are saved,
/// and the unit reports working for the multiply's duration.
pub fn set_matha(regs: &mut SuzyRegisters)
    ensures
        final(regs)@ == matha_written(old(regs)@),
{
    proof {
        old(regs).lemma_len();
    }
    let b = regs.data_r() as u8;
    regs.set_data(MATHA, b);
    if regs.sprsys_w_is_flag_set(SprSysW::sign_math()) {
        let (v, s) = convert_sign(regs.ab());
        regs.set_ab(v);
        regs.set_sign_ab(s);
        regs.set_task_ticks_delay(SUZY_MULT_SIGN_TICKS);
    } else if regs.sprsys_w_is_flag_set(SprSysW::accumulate()) {
        regs.set_sign_ab(1);
        regs.set_task_ticks_delay(SUZY_MULT_SIGN_TICKS);
    } else {
        regs.set_sign_ab(1);
        regs.set_task_ticks_delay(SUZY_MULT_NON_SIGN_TICKS);
    }
    regs.backup_cd();
    regs.sprsys_r_enable_flag(SprSysR::math_working());
    regs.reset_ir();
}

/// Writes MATHC from the bus data: in signed mode CD becomes its magnitude
/// and its sign is kept.
pub fn set_mathc(regs: &mut SuzyRegisters)
    ensures
        final(regs)@ == mathc_written(old(regs)@),
{
    proof {
        old(regs).lemma_len();
    }
    let b = regs.data_r() as u8;
    regs.set_data(MATHC, b);
    if regs.sprsys_w_is_flag_set(SprSysW::sign_math()) {
        let (v, s) = convert_sign(regs.cd());
        regs.set_cd(v);
        regs.set_sign_cd(s);
    } else {
        regs.set_sign_cd(1);
    }
    regs.reset_ir();
}

/// Writes MATHE from the bus data, which starts a divide: the unit reports
/// working for 176 ticks plus 14 per leading zero of NP.
pub fn set_mathe(regs: &mut SuzyRegisters)
    ensures
        final(regs)@ == mathe_written(old(regs)@),
{
    proof {
        old(regs).lemma_len();
    }
    let b = regs.data_r() as u8;
    regs.set_data(MATHE, b);
    regs.sprsys_r_enable_flag(SprSysR::math_working());
    let np = regs.np();
    proof {
        axiom_u16_leading_zeros(np);
    }
    let zeros = np.leading_zeros() as u16;
    regs.set_task_ticks_delay(176_u16 + 14 * zeros);
    regs.reset_ir();
}

/// Writes MATHM from the bus data and clears MATHL; this clears the
/// accumulator's overflow warning.
pub fn set_mathm(regs: &mut SuzyRegisters)
    ensures
        final(regs)@ == mathm_written(old(regs)@),
{
    proof {
        old(regs).lemma_len();
    }
    let b = regs.data_r() as u8;
    regs.set_data(MATHM, b);
    regs.set_data(MATHL, 0);
    regs.sprsys_r_disable_flag(SprSysR::math_warning());
    regs.reset_ir();
}


/// Signed multiply gives the two's-complement product of the operands as
/// signed mode reads them: the product of the magnitudes, negated when
/// exactly one operand is negative, is that product modulo 2^32.
pub proof fn lemma_signed_product(a: u16, c: u16)
    ensures
        product(sign_magnitude(a), sign_magnitude(c), sign_negative(a) != sign_negative(c)) as int
            == (signed_operand(a) * signed_operand(c)) % 0x1_0000_0000,
{
    let ma = sign_magnitude(a) as int;
    let mc = sign_magnitude(c) as int;
    let sa = signed_operand(a);
    let sc = signed_operand(c);
    assert(0 <= ma <= 0x8000 && 0 <= mc <= 0x8000);
    assert(sa == (if sign_negative(a) { -ma } else { ma }));
    assert(sc == (if sign_negative(c) { -mc } else { mc }));
    let p = ma * mc;
    assert(0 <= p <= 0x4000_0000) by (nonlinear_arith)
        requires
            0 <= ma <= 0x8000,
            0 <= mc <= 0x8000,
            p == ma * mc,
    ;
    assert(sa * sc == (if sign_negative(a) != sign_negative(c) { -p } else { p })) by (nonlinear_arith)
        requires
            sa == (if sign_negative(a) { -ma } else { ma }),
            sc == (if sign_negative(c) { -mc } else { mc }),
            p == ma * mc,
    ;
}

/// Once signed mode has turned operands `a` and `c` into magnitudes and
/// signs (as `set_matha` and `set_mathc` do), a multiply leaves their
/// two's-complement product in EFGH.
pub proof fn lemma_signed_multiply(v: SuzyRegistersView, a: u16, c: u16)
    requires
        v.data.len() == 0x100,
        signed_math(v),
        word_at(v.data, MATHB) == sign_magnitude(a),
        v.tmp_cd == sign_magnitude(c),
        v.sign_ab == (if sign_negative(a) { -1i8 } else { 1i8 }),
        v.tmp_sign_cd == (if sign_negative(c) { -1i8 } else { 1i8 }),
    ensures
        long_at(multiplied(v).data, MATHH) as int == (signed_operand(a) * signed_operand(c)) % 0x1_0000_0000,
{
    lemma_signed_product(a, c);
    lemma_long_roundtrip(v.data, MATHH, mult_efgh(v));
}

/// Unsigned multiply leaves the exact product of AB and CD in EFGH.
pub proof fn lemma_unsigned_multiply(v: SuzyRegistersView)
    requires
        v.data.len() == 0x100,
        !signed_math(v),
    ensures
        long_at(multiplied(v).data, MATHH) as int == word_at(v.data, MATHB) * v.tmp_cd,
{
    let ab = word_at(v.data, MATHB) as int;
    let cd = v.tmp_cd as int;
    assert(ab * cd <= 0xffff * 0xffff) by (nonlinear_arith)
        requires
            0 <= ab <= 0xffff,
            0 <= cd <= 0xffff,
    ;
    lemma_long_roundtrip(v.data, MATHH, mult_efgh(v));
}

/// Accumulating adds the new product into JKLM modulo 2^32, and warning and
/// carry are raised exactly when the sum overflows 32 bits.
pub proof fn lemma_accumulate(v: SuzyRegistersView)
    requires
        v.data.len() == 0x100,
        accumulating(v),
    ensures
        long_at(multiplied(v).data, MATHM) as int == (long_at(v.data, MATHM) + long_at(multiplied(v).data, MATHH))
            % 0x1_0000_0000,
        (multiplied(v).sprsys_r & 0x60 == 0x60) <==> long_at(v.data, MATHM) + long_at(
            multiplied(v).data,
            MATHH,
        ) > 0xffff_ffff,
{
    let e = mult_efgh(v);
    let with_e = put_long(v.data, MATHH, e);
    lemma_long_roundtrip(v.data, MATHH, e);
    assert(long_at(with_e, MATHM) == long_at(v.data, MATHM));
    let s = (mult_sum(v) % 0x1_0000_0000) as u32;
    lemma_long_roundtrip(with_e, MATHM, s);
    assert(long_at(put_long(with_e, MATHM, s), MATHH) == e);
    let r = v.sprsys_r;
    lemma_flag_bits(r);
}

/// Divide leaves quotient and remainder of EFGH by a nonzero NP: ABCD * NP
/// + JKLM is EFGH, and JKLM is below NP.
pub proof fn lemma_divide_identity(v: SuzyRegistersView)
    requires
        v.data.len() == 0x100,
        word_at(v.data, MATHP) != 0,
    ensures
        ({
            let d = divided(v).data;
            let np = word_at(v.data, MATHP) as int;
            &&& long_at(d, MATHD) * np + long_at(d, MATHM) == long_at(v.data, MATHH)
            &&& long_at(d, MATHM) < np
        }),
{
    let efgh = long_at(v.data, MATHH);
    let np = word_at(v.data, MATHP) as u32;
    let q = efgh / np;
    let r = efgh % np;
    let d1 = put_long(v.data, MATHD, q);
    lemma_long_roundtrip(v.data, MATHD, q);
    lemma_long_roundtrip(d1, MATHM, r);
    assert(long_at(put_long(d1, MATHM, r), MATHD) == long_at(d1, MATHD));
    vstd::arithmetic::div_mod::lemma_fundamental_div_mod(efgh as int, np as int);
    assert(q as int * np as int == np as int * (efgh as int / np as int)) by (nonlinear_arith)
        requires
            q as int == efgh as int / np as int,
    ;
}

/// Dividing by zero leaves all ones in ABCD and zero in JKLM, and raises
/// warning and carry.
pub proof fn lemma_divide_by_zero(v: SuzyRegistersView)
    requires
        v.data.len() == 0x100,
        word_at(v.data, MATHP) == 0,
    ensures
        long_at(divided(v).data, MATHD) == 0xffff_ffff,
        long_at(divided(v).data, MATHM) == 0,
        divided(v).sprsys_r & 0x60 == 0x60,
{
    let d1 = put_long(v.data, MATHD, 0xffff_ffff);
    lemma_long_roundtrip(v.data, MATHD, 0xffff_ffff);
    lemma_long_roundtrip(d1, MATHM, 0);
    assert(long_at(put_long(d1, MATHM, 0), MATHD) == long_at(d1, MATHD));
    let r = v.sprsys_r;
    lemma_flag_bits(r);
}

} // verus!
