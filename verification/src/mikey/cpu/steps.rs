//! What each step of each 65C02 opcode does: the core's registers and the
//! pins it drives, cycle by cycle.
use vstd::prelude::*;
use crate::consts::{M6502_IRQ, M6502_NMI, M6502_RDY, M6502_RES, M6502_RW, M6502_SYNC};
use super::{
    M6502View, set_addr, set_data, pins_data, pins_addr, pins_read, pins_sync, tick_spec, opcode_fetched, nz_flags, with_flag, bit_flags, compare_flags, adc_binary,
    adc_decimal, sbc_binary, sbc_decimal, asl_spec, lsr_spec, rol_spec, ror_spec, FLAG_N, FLAG_V, FLAG_X, FLAG_B,
    FLAG_D, FLAG_I, FLAG_Z, FLAG_C, BREAK_IRQ, BREAK_NMI, BREAK_RESET,
};

verus! {

/// What step `c.ir_step` of opcode `c.ir` does to the core `c` and the pins
/// `p`.
pub open spec fn step_spec(c: M6502View, p: u32) -> (M6502View, u32) {
    if c.ir < 0x10 {
        step_spec_0(c, p)
    } else if c.ir < 0x20 {
        step_spec_1(c, p)
    } else if c.ir < 0x30 {
        step_spec_2(c, p)
    } else if c.ir < 0x40 {
        step_spec_3(c, p)
    } else if c.ir < 0x50 {
        step_spec_4(c, p)
    } else if c.ir < 0x60 {
        step_spec_5(c, p)
    } else if c.ir < 0x70 {
        step_spec_6(c, p)
    } else if c.ir < 0x80 {
        step_spec_7(c, p)
    } else if c.ir < 0x90 {
        step_spec_8(c, p)
    } else if c.ir < 0xa0 {
        step_spec_9(c, p)
    } else if c.ir < 0xb0 {
        step_spec_a(c, p)
    } else if c.ir < 0xc0 {
        step_spec_b(c, p)
    } else if c.ir < 0xd0 {
        step_spec_c(c, p)
    } else if c.ir < 0xe0 {
        step_spec_d(c, p)
    } else if c.ir < 0xf0 {
        step_spec_e(c, p)
    } else {
        step_spec_f(c, p)
    }
}

/// What the step `c.ir_step` of opcodes 0x00 to 0x0f does to the core `c` and the
/// pins `p` it drives (the steps of the 65C02's cycle tables).
pub open spec fn step_spec_0(c: M6502View, p: u32) -> (M6502View, u32) {
    match c.ir {
        0x00 => match c.ir_step {
            0 => {
                let p = set_addr(p, c.pc);
                (c, p)
            },
            1 => {
                let (c, p) = if (c.break_flags & BREAK_IRQ) == 0 && (c.break_flags & BREAK_NMI) == 0 {
                    let c = M6502View { pc: (c.pc.wrapping_add(1)) as u16, ..c };
                    (c, p)
                } else {
                    (c, p)
                };
                let t0 = 0x0100 | (c.s as u16);
                let t1 = (c.pc >> 8u16) as u8;
                let p = set_data(set_addr(p, t0), t1);
                let c = M6502View { s: (c.s.wrapping_sub(1)) as u8, ..c };
                let (c, p) = if (c.break_flags & BREAK_RESET) == 0 {
                    let p = p & !M6502_RW;
                    (c, p)
                } else {
                    (c, p)
                };
                (c, p)
            },
            2 => {
                let t0 = 0x0100 | (c.s as u16);
                let t1 = c.pc as u8;
                let p = set_data(set_addr(p, t0), t1);
                let c = M6502View { s: (c.s.wrapping_sub(1)) as u8, ..c };
                let (c, p) = if (c.break_flags & BREAK_RESET) == 0 {
                    let p = p & !M6502_RW;
                    (c, p)
                } else {
                    (c, p)
                };
                (c, p)
            },
            3 => {
                let t0 = 0x0100 | (c.s as u16);
                let t1 = c.flags | FLAG_X | (if c.break_flags == 0 { FLAG_B } else { 0u8 });
                let p = set_data(set_addr(p, t0), t1);
                let c = M6502View { s: (c.s.wrapping_sub(1)) as u8, ..c };
                let (c, p) = if (c.break_flags & BREAK_RESET) != 0 {
                    let c = M6502View { ad: (0xfffc) as u16, ..c };
                    (c, p)
                } else {
                    let p = p & !M6502_RW;
                    let (c, p) = if (c.break_flags & BREAK_NMI) != 0 {
                        let c = M6502View { ad: (0xfffa) as u16, ..c };
                        (c, p)
                    } else {
                        let c = M6502View { ad: (0xfffe) as u16, ..c };
                        (c, p)
                    };
                    (c, p)
                };
                (c, p)
            },
            4 => {
                let p = set_addr(p, c.ad);
                let c = M6502View { ad: (c.ad.wrapping_add(1)) as u16, ..c };
                let c = M6502View { flags: c.flags | FLAG_I | FLAG_B, ..c };
                let c = M6502View { break_flags: 0, ..c };
                (c, p)
            },
            5 => {
                let p = set_addr(p, c.ad);
                let c = M6502View { ad: (pins_data(p) as u16) as u16, ..c };
                (c, p)
            },
            6 => {
                let c = M6502View { pc: (((pins_data(p) as u16) << 8u16) | c.ad) as u16, ..c };
                let p = set_addr(p, c.pc) | M6502_SYNC;
                (c, p)
            },
            _ => (c, p),
        },
        0x01 => match c.ir_step {
            0 => {
                let p = set_addr(p, c.pc);
                let c = M6502View { pc: (c.pc.wrapping_add(1)) as u16, ..c };
                (c, p)
            },
            1 => {
                let c = M6502View { ad: (pins_data(p) as u16) as u16, ..c };
                let p = set_addr(p, c.ad);
                (c, p)
            },
            2 => {
                let c = M6502View { ad: ((c.ad.wrapping_add(c.x as u16))&0xFF) as u16, ..c };
                let p = set_addr(p, c.ad);
                (c, p)
            },
            3 => {
                let t1 = (c.ad.wrapping_add(1))&0xFF;
                let p = set_addr(p, t1);
                let c = M6502View { ad: (pins_data(p) as u16) as u16, ..c };
                (c, p)
            },
            4 => {
                let t2 = ((pins_data(p) as u16)<<8)|c.ad;
                let p = set_addr(p, t2);
                (c, p)
            },
            5 => {
                let c = M6502View { a: (c.a | (pins_data(p))) as u8, ..c };
                let t3 = c.a;
                let c = M6502View { flags: nz_flags(c.flags, t3), ..c };
                let p = set_addr(p, c.pc) | M6502_SYNC;
                (c, p)
            },
            _ => (c, p),
        },
        0x02 => match c.ir_step {
            0 => {
                let p = set_addr(p, c.pc);
                let c = M6502View { pc: (c.pc.wrapping_add(1)) as u16, ..c };
                (c, p)
            },
            1 => {
                let p = set_addr(p, c.pc) | M6502_SYNC;
                (c, p)
            },
            _ => (c, p),
        },
        0x03 => match c.ir_step {
            0 => {
                let p = set_addr(p, c.pc) | M6502_SYNC;
                (c, p)
            },
            _ => (c, p),
        },
        0x04 => match c.ir_step {
            0 => {
                let p = set_addr(p, c.pc);
                let c = M6502View { pc: (c.pc.wrapping_add(1)) as u16, ..c };
                (c, p)
            },
            1 => {
                let t4 = pins_data(p) as u16;
                let p = set_addr(p, t4);
                (c, p)
            },
            2 => {
                let c = M6502View { ad: (pins_data(p) as u16) as u16, ..c };
                (c, p)
            },
            3 => {
                let t5 = c.ad as u8 & c.a;
                let c = M6502View { flags: with_flag(c.flags, FLAG_Z, t5 == 0), ..c };
                let c = M6502View { ad: (c.ad | (c.a as u16)) as u16, ..c };
                let t6 = c.ad as u8;
                let p = set_data(p, t6);
                let p = p & !M6502_RW;
                (c, p)
            },
            4 => {
                let p = set_addr(p, c.pc) | M6502_SYNC;
                (c, p)
            },
            _ => (c, p),
        },
        0x05 => match c.ir_step {
            0 => {
                let p = set_addr(p, c.pc);
                let c = M6502View { pc: (c.pc.wrapping_add(1)) as u16, ..c };
                (c, p)
            },
            1 => {
                let t7 = pins_data(p) as u16;
                let p = set_addr(p, t7);
                (c, p)
            },
            2 => {
                let c = M6502View { a: (c.a | (pins_data(p))) as u8, ..c };
                let t8 = c.a;
                let c = M6502View { flags: nz_flags(c.flags, t8), ..c };
                let p = set_addr(p, c.pc) | M6502_SYNC;
                (c, p)
            },
            _ => (c, p),
        },
        0x06 => match c.ir_step {
            0 => {
                let p = set_addr(p, c.pc);
                let c = M6502View { pc: (c.pc.wrapping_add(1)) as u16, ..c };
                (c, p)
            },
            1 => {
                let t9 = pins_data(p) as u16;
                let p = set_addr(p, t9);
                (c, p)
            },
            2 => {
                let c = M6502View { ad: (pins_data(p) as u16) as u16, ..c };
                let p = p & !M6502_RW;
                (c, p)
            },
            3 => {
                let t10 = c.ad as u8;
                let r1 = asl_spec(t10, c.flags);
                let t11 = r1.0;
                let c = M6502View { flags: r1.1, ..c };
                let p = set_data(p, t11);
                let p = p & !M6502_RW;
                (c, p)
            },
            4 => {
                let p = set_addr(p, c.pc) | M6502_SYNC;
                (c, p)
            },
            _ => (c, p),
        },
        0x07 => match c.ir_step {
            0 => {
                let p = set_addr(p, c.pc);
                let c = M6502View { pc: (c.pc.wrapping_add(1)) as u16, ..c };
                (c, p)
            },
            1 => {
                let t12 = pins_data(p) as u16;
                let p = set_addr(p, t12);
                (c, p)
            },
            2 => {
                let c = M6502View { ad: (pins_data(p) as u16 & !0x1) as u16, ..c };
                (c, p)
            },
            3 => {
                let t13 = c.ad as u8;
                let p = set_data(p, t13);
                let p = p & !M6502_RW;
                (c, p)
            },
            4 => {
                let p = set_addr(p, c.pc) | M6502_SYNC;
                (c, p)
            },
            _ => (c, p),
        },
        0x08 => match c.ir_step {
            0 => {
                let p = set_addr(p, c.pc);
                (c, p)
            },
            1 => {
                let t14 = 0x0100|(c.s as u16);
                let t15 = (c.flags|FLAG_X|FLAG_B);
                let p = set_data(set_addr(p, t14), t15);
                let c = M6502View { s: (c.s.wrapping_sub(1)) as u8, ..c };
                let p = p & !M6502_RW;
                (c, p)
            },
            2 => {
                let p = set_addr(p, c.pc) | M6502_SYNC;
                (c, p)
            },
            _ => (c, p),
        },
        0x09 => match c.ir_step {
            0 => {
                let p = set_addr(p, c.pc);
                let c = M6502View { pc: (c.pc.wrapping_add(1)) as u16, ..c };
                (c, p)
            },
            1 => {
                let c = M6502View { a: (c.a | (pins_data(p))) as u8, ..c };
                let t16 = c.a;
                let c = M6502View { flags: nz_flags(c.flags, t16), ..c };
                let p = set_addr(p, c.pc) | M6502_SYNC;
                (c, p)
            },
            _ => (c, p),
        },
        0x0a => match c.ir_step {
            0 => {
                let p = set_addr(p, c.pc);
                (c, p)
            },
            1 => {
                let t17 = c.a;
                let r2 = asl_spec(t17, c.flags);
                let t18 = r2.0;
                let c = M6502View { flags: r2.1, ..c };
                let c = M6502View { a: (t18) as u8, ..c };
                let p = set_addr(p, c.pc) | M6502_SYNC;
                (c, p)
            },
            _ => (c, p),
        },
        0x0b => match c.ir_step {
            0 => {
                let p = set_addr(p, c.pc) | M6502_SYNC;
                (c, p)
            },
            _ => (c, p),
        },
        0x0c => match c.ir_step {
            0 => {
                let p = set_addr(p, c.pc);
                let c = M6502View { pc: (c.pc.wrapping_add(1)) as u16, ..c };
                (c, p)
            },
            1 => {
                let p = set_addr(p, c.pc);
                let c = M6502View { pc: (c.pc.wrapping_add(1)) as u16, ..c };
                let c = M6502View { ad: (pins_data(p) as u16) as u16, ..c };
                (c, p)
            },
            2 => {
                let t19 = ((pins_data(p) as u16)<<8)|c.ad;
                let p = set_addr(p, t19);
                (c, p)
            },
            3 => {
                let c = M6502View { ad: (pins_data(p) as u16) as u16, ..c };
                let p = p & !M6502_RW;
                (c, p)
            },
            4 => {
                let t20 = c.ad as u8 & c.a;
                let c = M6502View { flags: with_flag(c.flags, FLAG_Z, t20 == 0), ..c };
                let c = M6502View { ad: (c.ad | (c.a as u16)) as u16, ..c };
                let t21 = c.ad as u8;
                let p = set_data(p, t21);
                let p = p & !M6502_RW;
                (c, p)
            },
            5 => {
                let p = set_addr(p, c.pc) | M6502_SYNC;
                (c, p)
            },
            _ => (c, p),
        },
        0x0d => match c.ir_step {
            0 => {
                let p = set_addr(p, c.pc);
                let c = M6502View { pc: (c.pc.wrapping_add(1)) as u16, ..c };
                (c, p)
            },
            1 => {
                let p = set_addr(p, c.pc);
                let c = M6502View { pc: (c.pc.wrapping_add(1)) as u16, ..c };
                let c = M6502View { ad: (pins_data(p) as u16) as u16, ..c };
                (c, p)
            },
            2 => {
                let t22 = ((pins_data(p) as u16)<<8)|c.ad;
                let p = set_addr(p, t22);
                (c, p)
            },
            3 => {
                let c = M6502View { a: (c.a | (pins_data(p))) as u8, ..c };
                let t23 = c.a;
                let c = M6502View { flags: nz_flags(c.flags, t23), ..c };
                let p = set_addr(p, c.pc) | M6502_SYNC;
                (c, p)
            },
            _ => (c, p),
        },
        0x0e => match c.ir_step {
            0 => {
                let p = set_addr(p, c.pc);
                let c = M6502View { pc: (c.pc.wrapping_add(1)) as u16, ..c };
                (c, p)
            },
            1 => {
                let p = set_addr(p, c.pc);
                let c = M6502View { pc: (c.pc.wrapping_add(1)) as u16, ..c };
                let c = M6502View { ad: (pins_data(p) as u16) as u16, ..c };
                (c, p)
            },
            2 => {
                let t24 = ((pins_data(p) as u16)<<8)|c.ad;
                let p = set_addr(p, t24);
                (c, p)
            },
            3 => {
                let c = M6502View { ad: (pins_data(p) as u16) as u16, ..c };
                let p = p & !M6502_RW;
                (c, p)
            },
            4 => {
                let t25 = c.ad as u8;
                let r3 = asl_spec(t25, c.flags);
                let t26 = r3.0;
                let c = M6502View { flags: r3.1, ..c };
                let p = set_data(p, t26);
                let p = p & !M6502_RW;
                (c, p)
            },
            5 => {
                let p = set_addr(p, c.pc) | M6502_SYNC;
                (c, p)
            },
            _ => (c, p),
        },
        0x0f => match c.ir_step {
            0 => {
                let p = set_addr(p, c.pc);
                let c = M6502View { pc: (c.pc.wrapping_add(1)) as u16, ..c };
                (c, p)
            },
            1 => {
                let t27 = pins_data(p) as u16;
                let p = set_addr(p, t27);
                (c, p)
            },
            2 => {
                let p = set_addr(p, c.pc);
                let c = M6502View { ad: ((pins_data(p) & 0x1) as u16) as u16, ..c };
                (c, p)
            },
            3 => {
                let p = set_addr(p, c.pc);
                let (c, p) = if c.ad != 0 {
                    let c = M6502View { ad: (c.pc.wrapping_add(1)) as u16, ..c };
                    let c = M6502View { ir_step: (c.ir_step + (2)) as u8, ..c };
                    (c, p)
                } else {
                    (c, p)
                };
                (c, p)
            },
            4 => {
                let p = set_addr(p, c.pc);
                let c = M6502View { ad: (c.pc.wrapping_add(1).wrapping_add(pins_data(p) as u16) as u16) as u16, ..c };
                (c, p)
            },
            5 => {
                let t28 = (c.pc&0xFF00)|(c.ad&0x00FF);
                let p = set_addr(p, t28);
                let (c, p) = if (c.ad&0xFF00)==(c.pc&0xFF00) {
                    let c = M6502View { pc: (c.ad) as u16, ..c };
                    let c = M6502View { irq_pip: (c.irq_pip >> 1) as u16, ..c };
                    let c = M6502View { nmi_pip: (c.nmi_pip >> 1) as u16, ..c };
                    let p = set_addr(p, c.pc) | M6502_SYNC;
                    (c, p)
                } else {
                    (c, p)
                };
                (c, p)
            },
            6 => {
                let c = M6502View { pc: (c.ad) as u16, ..c };
                let p = set_addr(p, c.pc) | M6502_SYNC;
                (c, p)
            },
            _ => (c, p),
        },
        _ => (c, p),
    }
}

/// What the step `c.ir_step` of opcodes 0x10 to 0x1f does to the core `c` and the
/// pins `p` it drives (the steps of the 65C02's cycle tables).
pub open spec fn step_spec_1(c: M6502View, p: u32) -> (M6502View, u32) {
    match c.ir {
        0x10 => match c.ir_step {
            0 => {
                let p = set_addr(p, c.pc);
                let c = M6502View { pc: (c.pc.wrapping_add(1)) as u16, ..c };
                (c, p)
            },
            1 => {
                let p = set_addr(p, c.pc);
                let c = M6502View { ad: (c.pc.wrapping_add((pins_data(p) as i8) as u16)) as u16, ..c };
                let (c, p) = if (c.flags & FLAG_N) != 0 {
                    let p = set_addr(p, c.pc) | M6502_SYNC;
                    (c, p)
                } else {
                    (c, p)
                };
                (c, p)
            },
            2 => {
                let t29 = (c.pc&0xFF00)|(c.ad&0x00FF);
                let p = set_addr(p, t29);
                let (c, p) = if (c.ad&0xFF00)==(c.pc&0xFF00) {
                    let c = M6502View { pc: (c.ad) as u16, ..c };
                    let c = M6502View { irq_pip: (c.irq_pip >> 1) as u16, ..c };
                    let c = M6502View { nmi_pip: (c.nmi_pip >> 1) as u16, ..c };
                    let p = set_addr(p, c.pc) | M6502_SYNC;
                    (c, p)
                } else {
                    (c, p)
                };
                (c, p)
            },
            3 => {
                let c = M6502View { pc: (c.ad) as u16, ..c };
                let p = set_addr(p, c.pc) | M6502_SYNC;
                (c, p)
            },
            _ => (c, p),
        },
        0x11 => match c.ir_step {
            0 => {
                let p = set_addr(p, c.pc);
                let c = M6502View { pc: (c.pc.wrapping_add(1)) as u16, ..c };
                (c, p)
            },
            1 => {
                let c = M6502View { ad: (pins_data(p) as u16) as u16, ..c };
                let p = set_addr(p, c.ad);
                (c, p)
            },
            2 => {
                let t30 = (c.ad.wrapping_add(1))&0xFF;
                let p = set_addr(p, t30);
                let c = M6502View { ad: (pins_data(p) as u16) as u16, ..c };
                (c, p)
            },
            3 => {
                let c = M6502View { ad: (c.ad | ((pins_data(p) as u16)<<8)) as u16, ..c };
                let t31 = (c.ad&0xFF00)|((c.ad.wrapping_add(c.y as u16))&0xFF);
                let p = set_addr(p, t31);
                let v = (c.ad>>8).wrapping_sub(c.ad.wrapping_add(c.y as u16)>>8);
                let c = M6502View { ir_step: (c.ir_step + ((!v as u8) & 1)) as u8, ..c };
                (c, p)
            },
            4 => {
                let t32 = c.ad.wrapping_add(c.y as u16);
                let p = set_addr(p, t32);
                (c, p)
            },
            5 => {
                let c = M6502View { a: (c.a | (pins_data(p))) as u8, ..c };
                let t33 = c.a;
                let c = M6502View { flags: nz_flags(c.flags, t33), ..c };
                let p = set_addr(p, c.pc) | M6502_SYNC;
                (c, p)
            },
            _ => (c, p),
        },
        0x12 => match c.ir_step {
            0 => {
                let p = set_addr(p, c.pc);
                let c = M6502View { pc: (c.pc.wrapping_add(1)) as u16, ..c };
                (c, p)
            },
            1 => {
                let c = M6502View { ad: (pins_data(p) as u16) as u16, ..c };
                let p = set_addr(p, c.ad);
                (c, p)
            },
            2 => {
                let t34 = (c.ad.wrapping_add(1))&0xFF;
                let p = set_addr(p, t34);
                let c = M6502View { ad: (pins_data(p) as u16) as u16, ..c };
                (c, p)
            },
            3 => {
                let c = M6502View { ad: (c.ad | ((pins_data(p) as u16)<<8)) as u16, ..c };
                let p = set_addr(p, c.ad);
                (c, p)
            },
            4 => {
                let c = M6502View { a: (c.a | (pins_data(p))) as u8, ..c };
                let t35 = c.a;
                let c = M6502View { flags: nz_flags(c.flags, t35), ..c };
                let p = set_addr(p, c.pc) | M6502_SYNC;
                (c, p)
            },
            _ => (c, p),
        },
        0x13 => match c.ir_step {
            0 => {
                let p = set_addr(p, c.pc) | M6502_SYNC;
                (c, p)
            },
            _ => (c, p),
        },
        0x14 => match c.ir_step {
            0 => {
                let p = set_addr(p, c.pc);
                let c = M6502View { pc: (c.pc.wrapping_add(1)) as u16, ..c };
                (c, p)
            },
            1 => {
                let t36 = pins_data(p) as u16;
                let p = set_addr(p, t36);
                (c, p)
            },
            2 => {
                let c = M6502View { ad: (pins_data(p) as u16) as u16, ..c };
                let p = p & !M6502_RW;
                (c, p)
            },
            3 => {
                let t37 = c.ad as u8 & c.a;
                let c = M6502View { flags: with_flag(c.flags, FLAG_Z, t37 == 0), ..c };
                let c = M6502View { ad: (c.ad & (!(c.a as u16))) as u16, ..c };
                let t38 = c.ad as u8;
                let p = set_data(p, t38);
                let p = p & !M6502_RW;
                (c, p)
            },
            4 => {
                let p = set_addr(p, c.pc) | M6502_SYNC;
                (c, p)
            },
            _ => (c, p),
        },
        0x15 => match c.ir_step {
            0 => {
                let p = set_addr(p, c.pc);
                let c = M6502View { pc: (c.pc.wrapping_add(1)) as u16, ..c };
                (c, p)
            },
            1 => {
                let c = M6502View { ad: (pins_data(p) as u16) as u16, ..c };
                let p = set_addr(p, c.ad);
                (c, p)
            },
            2 => {
                let t39 = (c.ad.wrapping_add(c.x as u16))&0x00FF;
                let p = set_addr(p, t39);
                (c, p)
            },
            3 => {
                let c = M6502View { a: (c.a | (pins_data(p))) as u8, ..c };
                let t40 = c.a;
                let c = M6502View { flags: nz_flags(c.flags, t40), ..c };
                let p = set_addr(p, c.pc) | M6502_SYNC;
                (c, p)
            },
            _ => (c, p),
        },
        0x16 => match c.ir_step {
            0 => {
                let p = set_addr(p, c.pc);
                let c = M6502View { pc: (c.pc.wrapping_add(1)) as u16, ..c };
                (c, p)
            },
            1 => {
                let c = M6502View { ad: (pins_data(p) as u16) as u16, ..c };
                let p = set_addr(p, c.ad);
                (c, p)
            },
            2 => {
                let t41 = (c.ad.wrapping_add(c.x as u16))&0x00FF;
                let p = set_addr(p, t41);
                (c, p)
            },
            3 => {
                let c = M6502View { ad: (pins_data(p) as u16) as u16, ..c };
                let p = p & !M6502_RW;
                (c, p)
            },
            4 => {
                let t42 = c.ad as u8;
                let r4 = asl_spec(t42, c.flags);
                let t43 = r4.0;
                let c = M6502View { flags: r4.1, ..c };
                let p = set_data(p, t43);
                let p = p & !M6502_RW;
                (c, p)
            },
            5 => {
                let p = set_addr(p, c.pc) | M6502_SYNC;
                (c, p)
            },
            _ => (c, p),
        },
        0x17 => match c.ir_step {
            0 => {
                let p = set_addr(p, c.pc);
                let c = M6502View { pc: (c.pc.wrapping_add(1)) as u16, ..c };
                (c, p)
            },
            1 => {
                let t44 = pins_data(p) as u16;
                let p = set_addr(p, t44);
                (c, p)
            },
            2 => {
                let c = M6502View { ad: (pins_data(p) as u16 & !0x2) as u16, ..c };
                (c, p)
            },
            3 => {
                let t45 = c.ad as u8;
                let p = set_data(p, t45);
                let p = p & !M6502_RW;
                (c, p)
            },
            4 => {
                let p = set_addr(p, c.pc) | M6502_SYNC;
                (c, p)
            },
            _ => (c, p),
        },
        0x18 => match c.ir_step {
            0 => {
                let p = set_addr(p, c.pc);
                (c, p)
            },
            1 => {
                let c = M6502View { flags: c.flags & (!FLAG_C), ..c };
                let p = set_addr(p, c.pc) | M6502_SYNC;
                (c, p)
            },
            _ => (c, p),
        },
        0x19 => match c.ir_step {
            0 => {
                let p = set_addr(p, c.pc);
                let c = M6502View { pc: (c.pc.wrapping_add(1)) as u16, ..c };
                (c, p)
            },
            1 => {
                let p = set_addr(p, c.pc);
                let c = M6502View { pc: (c.pc.wrapping_add(1)) as u16, ..c };
                let c = M6502View { ad: (pins_data(p) as u16) as u16, ..c };
                (c, p)
            },
            2 => {
                let c = M6502View { ad: (c.ad | ((pins_data(p) as u16)<<8)) as u16, ..c };
                let t46 = (c.ad&0xFF00)|((c.ad.wrapping_add(c.y as u16))&0xFF);
                let p = set_addr(p, t46);
                let v = (c.ad>>8).wrapping_sub(c.ad.wrapping_add(c.y as u16)>>8);
                let c = M6502View { ir_step: (c.ir_step + ((!v as u8) & 1)) as u8, ..c };
                (c, p)
            },
            3 => {
                let t47 = c.ad.wrapping_add(c.y as u16);
                let p = set_addr(p, t47);
                (c, p)
            },
            4 => {
                let c = M6502View { a: (c.a | (pins_data(p))) as u8, ..c };
                let t48 = c.a;
                let c = M6502View { flags: nz_flags(c.flags, t48), ..c };
                let p = set_addr(p, c.pc) | M6502_SYNC;
                (c, p)
            },
            _ => (c, p),
        },
        0x1a => match c.ir_step {
            0 => {
                let p = set_addr(p, c.pc);
                (c, p)
            },
            1 => {
                let c = M6502View { a: (c.a.wrapping_add(1)) as u8, ..c };
                let t49 = c.a;
                let c = M6502View { flags: nz_flags(c.flags, t49), ..c };
                let p = set_addr(p, c.pc) | M6502_SYNC;
                (c, p)
            },
            _ => (c, p),
        },
        0x1b => match c.ir_step {
            0 => {
                let p = set_addr(p, c.pc) | M6502_SYNC;
                (c, p)
            },
            _ => (c, p),
        },
        0x1c => match c.ir_step {
            0 => {
                let p = set_addr(p, c.pc);
                let c = M6502View { pc: (c.pc.wrapping_add(1)) as u16, ..c };
                (c, p)
            },
            1 => {
                let p = set_addr(p, c.pc);
                let c = M6502View { pc: (c.pc.wrapping_add(1)) as u16, ..c };
                let c = M6502View { ad: (pins_data(p) as u16) as u16, ..c };
                (c, p)
            },
            2 => {
                let t50 = ((pins_data(p) as u16)<<8)|c.ad;
                let p = set_addr(p, t50);
                (c, p)
            },
            3 => {
                let c = M6502View { ad: (pins_data(p) as u16) as u16, ..c };
                let p = p & !M6502_RW;
                (c, p)
            },
            4 => {
                let t51 = c.ad as u8 & c.a;
                let c = M6502View { flags: with_flag(c.flags, FLAG_Z, t51 == 0), ..c };
                let c = M6502View { ad: (c.ad & (!(c.a as u16))) as u16, ..c };
                let t52 = c.ad as u8;
                let p = set_data(p, t52);
                let p = p & !M6502_RW;
                (c, p)
            },
            5 => {
                let p = set_addr(p, c.pc) | M6502_SYNC;
                (c, p)
            },
            _ => (c, p),
        },
        0x1d => match c.ir_step {
            0 => {
                let p = set_addr(p, c.pc);
                let c = M6502View { pc: (c.pc.wrapping_add(1)) as u16, ..c };
                (c, p)
            },
            1 => {
                let p = set_addr(p, c.pc);
                let c = M6502View { pc: (c.pc.wrapping_add(1)) as u16, ..c };
                let c = M6502View { ad: (pins_data(p) as u16) as u16, ..c };
                (c, p)
            },
            2 => {
                let c = M6502View { ad: (c.ad | ((pins_data(p) as u16)<<8)) as u16, ..c };
                let t53 = (c.ad&0xFF00)|((c.ad.wrapping_add(c.x as u16))&0xFF);
                let p = set_addr(p, t53);
                let v = (c.ad>>8).wrapping_sub(c.ad.wrapping_add(c.x as u16)>>8);
                let c = M6502View { ir_step: (c.ir_step + ((!v as u8) & 1)) as u8, ..c };
                (c, p)
            },
            3 => {
                let t54 = c.ad.wrapping_add(c.x as u16);
                let p = set_addr(p, t54);
                (c, p)
            },
            4 => {
                let c = M6502View { a: (c.a | (pins_data(p))) as u8, ..c };
                let t55 = c.a;
                let c = M6502View { flags: nz_flags(c.flags, t55), ..c };
                let p = set_addr(p, c.pc) | M6502_SYNC;
                (c, p)
            },
            _ => (c, p),
        },
        0x1e => match c.ir_step {
            0 => {
                let p = set_addr(p, c.pc);
                let c = M6502View { pc: (c.pc.wrapping_add(1)) as u16, ..c };
                (c, p)
            },
            1 => {
                let p = set_addr(p, c.pc);
                let c = M6502View { pc: (c.pc.wrapping_add(1)) as u16, ..c };
                let c = M6502View { ad: (pins_data(p) as u16) as u16, ..c };
                (c, p)
            },
            2 => {
                let c = M6502View { ad: (c.ad | ((pins_data(p) as u16)<<8)) as u16, ..c };
                let t56 = (c.ad&0xFF00)|((c.ad.wrapping_add(c.x as u16))&0xFF);
                let p = set_addr(p, t56);
                (c, p)
            },
            3 => {
                let t57 = c.ad.wrapping_add(c.x as u16);
                let p = set_addr(p, t57);
                (c, p)
            },
            4 => {
                let c = M6502View { ad: (pins_data(p) as u16) as u16, ..c };
                let p = p & !M6502_RW;
                (c, p)
            },
            5 => {
                let t58 = c.ad as u8;
                let r5 = asl_spec(t58, c.flags);
                let t59 = r5.0;
                let c = M6502View { flags: r5.1, ..c };
                let p = set_data(p, t59);
                let p = p & !M6502_RW;
                (c, p)
            },
            6 => {
                let p = set_addr(p, c.pc) | M6502_SYNC;
                (c, p)
            },
            _ => (c, p),
        },
        0x1f => match c.ir_step {
            0 => {
                let p = set_addr(p, c.pc);
                let c = M6502View { pc: (c.pc.wrapping_add(1)) as u16, ..c };
                (c, p)
            },
            1 => {
                let t60 = pins_data(p) as u16;
                let p = set_addr(p, t60);
                (c, p)
            },
            2 => {
                let p = set_addr(p, c.pc);
                let c = M6502View { ad: ((pins_data(p) & 0x2) as u16) as u16, ..c };
                (c, p)
            },
            3 => {
                let p = set_addr(p, c.pc);
                let (c, p) = if c.ad != 0 {
                    let c = M6502View { ad: (c.pc.wrapping_add(1)) as u16, ..c };
                    let c = M6502View { ir_step: (c.ir_step + (2)) as u8, ..c };
                    (c, p)
                } else {
                    (c, p)
                };
                (c, p)
            },
            4 => {
                let p = set_addr(p, c.pc);
                let c = M6502View { ad: (c.pc.wrapping_add(1).wrapping_add(pins_data(p) as u16) as u16) as u16, ..c };
                (c, p)
            },
            5 => {
                let t61 = (c.pc&0xFF00)|(c.ad&0x00FF);
                let p = set_addr(p, t61);
                let (c, p) = if (c.ad&0xFF00)==(c.pc&0xFF00) {
                    let c = M6502View { pc: (c.ad) as u16, ..c };
                    let c = M6502View { irq_pip: (c.irq_pip >> 1) as u16, ..c };
                    let c = M6502View { nmi_pip: (c.nmi_pip >> 1) as u16, ..c };
                    let p = set_addr(p, c.pc) | M6502_SYNC;
                    (c, p)
                } else {
                    (c, p)
                };
                (c, p)
            },
            6 => {
                let c = M6502View { pc: (c.ad) as u16, ..c };
                let p = set_addr(p, c.pc) | M6502_SYNC;
                (c, p)
            },
            _ => (c, p),
        },
        _ => (c, p),
    }
}

/// What the step `c.ir_step` of opcodes 0x20 to 0x2f does to the core `c` and the
/// pins `p` it drives (the steps of the 65C02's cycle tables).
pub open spec fn step_spec_2(c: M6502View, p: u32) -> (M6502View, u32) {
    match c.ir {
        0x20 => match c.ir_step {
            0 => {
                let p = set_addr(p, c.pc);
                let c = M6502View { pc: (c.pc.wrapping_add(1)) as u16, ..c };
                (c, p)
            },
            1 => {
                let t62 = 0x0100|(c.s as u16);
                let p = set_addr(p, t62);
                let c = M6502View { ad: (pins_data(p) as u16) as u16, ..c };
                (c, p)
            },
            2 => {
                let t63 = 0x0100|(c.s as u16);
                let t64 = (c.pc>>8) as u8;
                let p = set_data(set_addr(p, t63), t64);
                let c = M6502View { s: (c.s.wrapping_sub(1)) as u8, ..c };
                let p = p & !M6502_RW;
                (c, p)
            },
            3 => {
                let t65 = 0x0100|(c.s as u16);
                let t66 = c.pc as u8;
                let p = set_data(set_addr(p, t65), t66);
                let c = M6502View { s: (c.s.wrapping_sub(1)) as u8, ..c };
                let p = p & !M6502_RW;
                (c, p)
            },
            4 => {
                let p = set_addr(p, c.pc);
                (c, p)
            },
            5 => {
                let c = M6502View { pc: (((pins_data(p) as u16)<<8)|c.ad) as u16, ..c };
                let p = set_addr(p, c.pc) | M6502_SYNC;
                (c, p)
            },
            _ => (c, p),
        },
        0x21 => match c.ir_step {
            0 => {
                let p = set_addr(p, c.pc);
                let c = M6502View { pc: (c.pc.wrapping_add(1)) as u16, ..c };
                (c, p)
            },
            1 => {
                let c = M6502View { ad: (pins_data(p) as u16) as u16, ..c };
                let p = set_addr(p, c.ad);
                (c, p)
            },
            2 => {
                let c = M6502View { ad: ((c.ad.wrapping_add(c.x as u16))&0xFF) as u16, ..c };
                let p = set_addr(p, c.ad);
                (c, p)
            },
            3 => {
                let t67 = (c.ad.wrapping_add(1))&0xFF;
                let p = set_addr(p, t67);
                let c = M6502View { ad: (pins_data(p) as u16) as u16, ..c };
                (c, p)
            },
            4 => {
                let t68 = ((pins_data(p) as u16)<<8)|c.ad;
                let p = set_addr(p, t68);
                (c, p)
            },
            5 => {
                let c = M6502View { a: (c.a & (pins_data(p))) as u8, ..c };
                let t69 = c.a;
                let c = M6502View { flags: nz_flags(c.flags, t69), ..c };
                let p = set_addr(p, c.pc) | M6502_SYNC;
                (c, p)
            },
            _ => (c, p),
        },
        0x22 => match c.ir_step {
            0 => {
                let p = set_addr(p, c.pc);
                let c = M6502View { pc: (c.pc.wrapping_add(1)) as u16, ..c };
                (c, p)
            },
            1 => {
                let p = set_addr(p, c.pc) | M6502_SYNC;
                (c, p)
            },
            _ => (c, p),
        },
        0x23 => match c.ir_step {
            0 => {
                let p = set_addr(p, c.pc) | M6502_SYNC;
                (c, p)
            },
            _ => (c, p),
        },
        0x24 => match c.ir_step {
            0 => {
                let p = set_addr(p, c.pc);
                let c = M6502View { pc: (c.pc.wrapping_add(1)) as u16, ..c };
                (c, p)
            },
            1 => {
                let t70 = pins_data(p) as u16;
                let p = set_addr(p, t70);
                (c, p)
            },
            2 => {
                let t71 = pins_data(p);
                let c = M6502View { flags: bit_flags(c.a, t71, c.flags), ..c };
                let p = set_addr(p, c.pc) | M6502_SYNC;
                (c, p)
            },
            _ => (c, p),
        },
        0x25 => match c.ir_step {
            0 => {
                let p = set_addr(p, c.pc);
                let c = M6502View { pc: (c.pc.wrapping_add(1)) as u16, ..c };
                (c, p)
            },
            1 => {
                let t72 = pins_data(p) as u16;
                let p = set_addr(p, t72);
                (c, p)
            },
            2 => {
                let c = M6502View { a: (c.a & (pins_data(p))) as u8, ..c };
                let t73 = c.a;
                let c = M6502View { flags: nz_flags(c.flags, t73), ..c };
                let p = set_addr(p, c.pc) | M6502_SYNC;
                (c, p)
            },
            _ => (c, p),
        },
        0x26 => match c.ir_step {
            0 => {
                let p = set_addr(p, c.pc);
                let c = M6502View { pc: (c.pc.wrapping_add(1)) as u16, ..c };
                (c, p)
            },
            1 => {
                let t74 = pins_data(p) as u16;
                let p = set_addr(p, t74);
                (c, p)
            },
            2 => {
                let c = M6502View { ad: (pins_data(p) as u16) as u16, ..c };
                let p = p & !M6502_RW;
                (c, p)
            },
            3 => {
                let t75 = c.ad as u8;
                let r6 = rol_spec(t75, c.flags);
                let t76 = r6.0;
                let c = M6502View { flags: r6.1, ..c };
                let p = set_data(p, t76);
                let p = p & !M6502_RW;
                (c, p)
            },
            4 => {
                let p = set_addr(p, c.pc) | M6502_SYNC;
                (c, p)
            },
            _ => (c, p),
        },
        0x27 => match c.ir_step {
            0 => {
                let p = set_addr(p, c.pc);
                let c = M6502View { pc: (c.pc.wrapping_add(1)) as u16, ..c };
                (c, p)
            },
            1 => {
                let t77 = pins_data(p) as u16;
                let p = set_addr(p, t77);
                (c, p)
            },
            2 => {
                let c = M6502View { ad: (pins_data(p) as u16 & !0x4) as u16, ..c };
                (c, p)
            },
            3 => {
                let t78 = c.ad as u8;
                let p = set_data(p, t78);
                let p = p & !M6502_RW;
                (c, p)
            },
            4 => {
                let p = set_addr(p, c.pc) | M6502_SYNC;
                (c, p)
            },
            _ => (c, p),
        },
        0x28 => match c.ir_step {
            0 => {
                let p = set_addr(p, c.pc);
                (c, p)
            },
            1 => {
                let t79 = 0x0100|(c.s as u16);
                let p = set_addr(p, t79);
                let c = M6502View { s: (c.s.wrapping_add(1)) as u8, ..c };
                (c, p)
            },
            2 => {
                let t80 = 0x0100|(c.s as u16);
                let p = set_addr(p, t80);
                (c, p)
            },
            3 => {
                let c = M6502View { flags: pins_data(p)&!(FLAG_B|FLAG_X), ..c };
                let p = set_addr(p, c.pc) | M6502_SYNC;
                (c, p)
            },
            _ => (c, p),
        },
        0x29 => match c.ir_step {
            0 => {
                let p = set_addr(p, c.pc);
                let c = M6502View { pc: (c.pc.wrapping_add(1)) as u16, ..c };
                (c, p)
            },
            1 => {
                let c = M6502View { a: (c.a & (pins_data(p))) as u8, ..c };
                let t81 = c.a;
                let c = M6502View { flags: nz_flags(c.flags, t81), ..c };
                let p = set_addr(p, c.pc) | M6502_SYNC;
                (c, p)
            },
            _ => (c, p),
        },
        0x2a => match c.ir_step {
            0 => {
                let p = set_addr(p, c.pc);
                (c, p)
            },
            1 => {
                let t82 = c.a;
                let r7 = rol_spec(t82, c.flags);
                let t83 = r7.0;
                let c = M6502View { flags: r7.1, ..c };
                let c = M6502View { a: (t83) as u8, ..c };
                let p = set_addr(p, c.pc) | M6502_SYNC;
                (c, p)
            },
            _ => (c, p),
        },
        0x2b => match c.ir_step {
            0 => {
                let p = set_addr(p, c.pc) | M6502_SYNC;
                (c, p)
            },
            _ => (c, p),
        },
        0x2c => match c.ir_step {
            0 => {
                let p = set_addr(p, c.pc);
                let c = M6502View { pc: (c.pc.wrapping_add(1)) as u16, ..c };
                (c, p)
            },
            1 => {
                let p = set_addr(p, c.pc);
                let c = M6502View { pc: (c.pc.wrapping_add(1)) as u16, ..c };
                let c = M6502View { ad: (pins_data(p) as u16) as u16, ..c };
                (c, p)
            },
            2 => {
                let t84 = ((pins_data(p) as u16)<<8)|c.ad;
                let p = set_addr(p, t84);
                (c, p)
            },
            3 => {
                let t85 = pins_data(p);
                let c = M6502View { flags: bit_flags(c.a, t85, c.flags), ..c };
                let p = set_addr(p, c.pc) | M6502_SYNC;
                (c, p)
            },
            _ => (c, p),
        },
        0x2d => match c.ir_step {
            0 => {
                let p = set_addr(p, c.pc);
                let c = M6502View { pc: (c.pc.wrapping_add(1)) as u16, ..c };
                (c, p)
            },
            1 => {
                let p = set_addr(p, c.pc);
                let c = M6502View { pc: (c.pc.wrapping_add(1)) as u16, ..c };
                let c = M6502View { ad: (pins_data(p) as u16) as u16, ..c };
                (c, p)
            },
            2 => {
                let t86 = ((pins_data(p) as u16)<<8)|c.ad;
                let p = set_addr(p, t86);
                (c, p)
            },
            3 => {
                let c = M6502View { a: (c.a & (pins_data(p))) as u8, ..c };
                let t87 = c.a;
                let c = M6502View { flags: nz_flags(c.flags, t87), ..c };
                let p = set_addr(p, c.pc) | M6502_SYNC;
                (c, p)
            },
            _ => (c, p),
        },
        0x2e => match c.ir_step {
            0 => {
                let p = set_addr(p, c.pc);
                let c = M6502View { pc: (c.pc.wrapping_add(1)) as u16, ..c };
                (c, p)
            },
            1 => {
                let p = set_addr(p, c.pc);
                let c = M6502View { pc: (c.pc.wrapping_add(1)) as u16, ..c };
                let c = M6502View { ad: (pins_data(p) as u16) as u16, ..c };
                (c, p)
            },
            2 => {
                let t88 = ((pins_data(p) as u16)<<8)|c.ad;
                let p = set_addr(p, t88);
                (c, p)
            },
            3 => {
                let c = M6502View { ad: (pins_data(p) as u16) as u16, ..c };
                let p = p & !M6502_RW;
                (c, p)
            },
            4 => {
                let t89 = c.ad as u8;
                let r8 = rol_spec(t89, c.flags);
                let t90 = r8.0;
                let c = M6502View { flags: r8.1, ..c };
                let p = set_data(p, t90);
                let p = p & !M6502_RW;
                (c, p)
            },
            5 => {
                let p = set_addr(p, c.pc) | M6502_SYNC;
                (c, p)
            },
            _ => (c, p),
        },
        0x2f => match c.ir_step {
            0 => {
                let p = set_addr(p, c.pc);
                let c = M6502View { pc: (c.pc.wrapping_add(1)) as u16, ..c };
                (c, p)
            },
            1 => {
                let t91 = pins_data(p) as u16;
                let p = set_addr(p, t91);
                (c, p)
            },
            2 => {
                let p = set_addr(p, c.pc);
                let c = M6502View { ad: ((pins_data(p) & 0x4) as u16) as u16, ..c };
                (c, p)
            },
            3 => {
                let p = set_addr(p, c.pc);
                let (c, p) = if c.ad != 0 {
                    let c = M6502View { ad: (c.pc.wrapping_add(1)) as u16, ..c };
                    let c = M6502View { ir_step: (c.ir_step + (2)) as u8, ..c };
                    (c, p)
                } else {
                    (c, p)
                };
                (c, p)
            },
            4 => {
                let p = set_addr(p, c.pc);
                let c = M6502View { ad: (c.pc.wrapping_add(1).wrapping_add(pins_data(p) as u16) as u16) as u16, ..c };
                (c, p)
            },
            5 => {
                let t92 = (c.pc&0xFF00)|(c.ad&0x00FF);
                let p = set_addr(p, t92);
                let (c, p) = if (c.ad&0xFF00)==(c.pc&0xFF00) {
                    let c = M6502View { pc: (c.ad) as u16, ..c };
                    let c = M6502View { irq_pip: (c.irq_pip >> 1) as u16, ..c };
                    let c = M6502View { nmi_pip: (c.nmi_pip >> 1) as u16, ..c };
                    let p = set_addr(p, c.pc) | M6502_SYNC;
                    (c, p)
                } else {
                    (c, p)
                };
                (c, p)
            },
            6 => {
                let c = M6502View { pc: (c.ad) as u16, ..c };
                let p = set_addr(p, c.pc) | M6502_SYNC;
                (c, p)
            },
            _ => (c, p),
        },
        _ => (c, p),
    }
}

/// What the step `c.ir_step` of opcodes 0x30 to 0x3f does to the core `c` and the
/// pins `p` it drives (the steps of the 65C02's cycle tables).
pub open spec fn step_spec_3(c: M6502View, p: u32) -> (M6502View, u32) {
    match c.ir {
        0x30 => match c.ir_step {
            0 => {
                let p = set_addr(p, c.pc);
                let c = M6502View { pc: (c.pc.wrapping_add(1)) as u16, ..c };
                (c, p)
            },
            1 => {
                let p = set_addr(p, c.pc);
                let c = M6502View { ad: (c.pc.wrapping_add((pins_data(p) as i8) as u16)) as u16, ..c };
                let (c, p) = if (c.flags & FLAG_N) == 0 {
                    let p = set_addr(p, c.pc) | M6502_SYNC;
                    (c, p)
                } else {
                    (c, p)
                };
                (c, p)
            },
            2 => {
                let t93 = (c.pc&0xFF00)|(c.ad&0x00FF);
                let p = set_addr(p, t93);
                let (c, p) = if (c.ad&0xFF00)==(c.pc&0xFF00) {
                    let c = M6502View { pc: (c.ad) as u16, ..c };
                    let c = M6502View { irq_pip: (c.irq_pip >> 1) as u16, ..c };
                    let c = M6502View { nmi_pip: (c.nmi_pip >> 1) as u16, ..c };
                    let p = set_addr(p, c.pc) | M6502_SYNC;
                    (c, p)
                } else {
                    (c, p)
                };
                (c, p)
            },
            3 => {
                let c = M6502View { pc: (c.ad) as u16, ..c };
                let p = set_addr(p, c.pc) | M6502_SYNC;
                (c, p)
            },
            _ => (c, p),
        },
        0x31 => match c.ir_step {
            0 => {
                let p = set_addr(p, c.pc);
                let c = M6502View { pc: (c.pc.wrapping_add(1)) as u16, ..c };
                (c, p)
            },
            1 => {
                let c = M6502View { ad: (pins_data(p) as u16) as u16, ..c };
                let p = set_addr(p, c.ad);
                (c, p)
            },
            2 => {
                let t94 = (c.ad.wrapping_add(1))&0xFF;
                let p = set_addr(p, t94);
                let c = M6502View { ad: (pins_data(p) as u16) as u16, ..c };
                (c, p)
            },
            3 => {
                let c = M6502View { ad: (c.ad | ((pins_data(p) as u16)<<8)) as u16, ..c };
                let t95 = (c.ad&0xFF00)|((c.ad.wrapping_add(c.y as u16))&0xFF);
                let p = set_addr(p, t95);
                let v = (c.ad>>8).wrapping_sub(c.ad.wrapping_add(c.y as u16)>>8);
                let c = M6502View { ir_step: (c.ir_step + ((!v as u8) & 1)) as u8, ..c };
                (c, p)
            },
            4 => {
                let t96 = c.ad.wrapping_add(c.y as u16);
                let p = set_addr(p, t96);
                (c, p)
            },
            5 => {
                let c = M6502View { a: (c.a & (pins_data(p))) as u8, ..c };
                let t97 = c.a;
                let c = M6502View { flags: nz_flags(c.flags, t97), ..c };
                let p = set_addr(p, c.pc) | M6502_SYNC;
                (c, p)
            },
            _ => (c, p),
        },
        0x32 => match c.ir_step {
            0 => {
                let p = set_addr(p, c.pc);
                let c = M6502View { pc: (c.pc.wrapping_add(1)) as u16, ..c };
                (c, p)
            },
            1 => {
                let c = M6502View { ad: (pins_data(p) as u16) as u16, ..c };
                let p = set_addr(p, c.ad);
                (c, p)
            },
            2 => {
                let t98 = (c.ad.wrapping_add(1))&0xFF;
                let p = set_addr(p, t98);
                let c = M6502View { ad: (pins_data(p) as u16) as u16, ..c };
                (c, p)
            },
            3 => {
                let c = M6502View { ad: (c.ad | ((pins_data(p) as u16)<<8)) as u16, ..c };
                let p = set_addr(p, c.ad);
                (c, p)
            },
            4 => {
                let c = M6502View { a: (c.a & (pins_data(p))) as u8, ..c };
                let t99 = c.a;
                let c = M6502View { flags: nz_flags(c.flags, t99), ..c };
                let p = set_addr(p, c.pc) | M6502_SYNC;
                (c, p)
            },
            _ => (c, p),
        },
        0x33 => match c.ir_step {
            0 => {
                let p = set_addr(p, c.pc) | M6502_SYNC;
                (c, p)
            },
            _ => (c, p),
        },
        0x34 => match c.ir_step {
            0 => {
                let p = set_addr(p, c.pc);
                let c = M6502View { pc: (c.pc.wrapping_add(1)) as u16, ..c };
                (c, p)
            },
            1 => {
                let c = M6502View { ad: (pins_data(p) as u16) as u16, ..c };
                let t100 = (c.ad.wrapping_add(c.x as u16))&0x00FF;
                let p = set_addr(p, t100);
                (c, p)
            },
            2 => {
                let t101 = pins_data(p);
                let c = M6502View { flags: bit_flags(c.a, t101, c.flags), ..c };
                let p = set_addr(p, c.pc) | M6502_SYNC;
                (c, p)
            },
            _ => (c, p),
        },
        0x35 => match c.ir_step {
            0 => {
                let p = set_addr(p, c.pc);
                let c = M6502View { pc: (c.pc.wrapping_add(1)) as u16, ..c };
                (c, p)
            },
            1 => {
                let c = M6502View { ad: (pins_data(p) as u16) as u16, ..c };
                let p = set_addr(p, c.ad);
                (c, p)
            },
            2 => {
                let t102 = (c.ad.wrapping_add(c.x as u16))&0x00FF;
                let p = set_addr(p, t102);
                (c, p)
            },
            3 => {
                let c = M6502View { a: (c.a & (pins_data(p))) as u8, ..c };
                let t103 = c.a;
                let c = M6502View { flags: nz_flags(c.flags, t103), ..c };
                let p = set_addr(p, c.pc) | M6502_SYNC;
                (c, p)
            },
            _ => (c, p),
        },
        0x36 => match c.ir_step {
            0 => {
                let p = set_addr(p, c.pc);
                let c = M6502View { pc: (c.pc.wrapping_add(1)) as u16, ..c };
                (c, p)
            },
            1 => {
                let c = M6502View { ad: (pins_data(p) as u16) as u16, ..c };
                let p = set_addr(p, c.ad);
                (c, p)
            },
            2 => {
                let t104 = (c.ad.wrapping_add(c.x as u16))&0x00FF;
                let p = set_addr(p, t104);
                (c, p)
            },
            3 => {
                let c = M6502View { ad: (pins_data(p) as u16) as u16, ..c };
                let p = p & !M6502_RW;
                (c, p)
            },
            4 => {
                let t105 = c.ad as u8;
                let r9 = rol_spec(t105, c.flags);
                let t106 = r9.0;
                let c = M6502View { flags: r9.1, ..c };
                let p = set_data(p, t106);
                let p = p & !M6502_RW;
                (c, p)
            },
            5 => {
                let p = set_addr(p, c.pc) | M6502_SYNC;
                (c, p)
            },
            _ => (c, p),
        },
        0x37 => match c.ir_step {
            0 => {
                let p = set_addr(p, c.pc);
                let c = M6502View { pc: (c.pc.wrapping_add(1)) as u16, ..c };
                (c, p)
            },
            1 => {
                let t107 = pins_data(p) as u16;
                let p = set_addr(p, t107);
                (c, p)
            },
            2 => {
                let c = M6502View { ad: (pins_data(p) as u16 & !0x8) as u16, ..c };
                (c, p)
            },
            3 => {
                let t108 = c.ad as u8;
                let p = set_data(p, t108);
                let p = p & !M6502_RW;
                (c, p)
            },
            4 => {
                let p = set_addr(p, c.pc) | M6502_SYNC;
                (c, p)
            },
            _ => (c, p),
        },
        0x38 => match c.ir_step {
            0 => {
                let p = set_addr(p, c.pc);
                (c, p)
            },
            1 => {
                let c = M6502View { flags: c.flags | (FLAG_C), ..c };
                let p = set_addr(p, c.pc) | M6502_SYNC;
                (c, p)
            },
            _ => (c, p),
        },
        0x39 => match c.ir_step {
            0 => {
                let p = set_addr(p, c.pc);
                let c = M6502View { pc: (c.pc.wrapping_add(1)) as u16, ..c };
                (c, p)
            },
            1 => {
                let p = set_addr(p, c.pc);
                let c = M6502View { pc: (c.pc.wrapping_add(1)) as u16, ..c };
                let c = M6502View { ad: (pins_data(p) as u16) as u16, ..c };
                (c, p)
            },
            2 => {
                let c = M6502View { ad: (c.ad | ((pins_data(p) as u16)<<8)) as u16, ..c };
                let t109 = (c.ad&0xFF00)|((c.ad.wrapping_add(c.y as u16))&0xFF);
                let p = set_addr(p, t109);
                let v = (c.ad>>8).wrapping_sub(c.ad.wrapping_add(c.y as u16)>>8);
                let c = M6502View { ir_step: (c.ir_step + ((!v as u8) & 1)) as u8, ..c };
                (c, p)
            },
            3 => {
                let t110 = c.ad.wrapping_add(c.y as u16);
                let p = set_addr(p, t110);
                (c, p)
            },
            4 => {
                let c = M6502View { a: (c.a & (pins_data(p))) as u8, ..c };
                let t111 = c.a;
                let c = M6502View { flags: nz_flags(c.flags, t111), ..c };
                let p = set_addr(p, c.pc) | M6502_SYNC;
                (c, p)
            },
            _ => (c, p),
        },
        0x3a => match c.ir_step {
            0 => {
                let p = set_addr(p, c.pc);
                (c, p)
            },
            1 => {
                let c = M6502View { a: (c.a.wrapping_sub(1)) as u8, ..c };
                let t112 = c.a;
                let c = M6502View { flags: nz_flags(c.flags, t112), ..c };
                let p = set_addr(p, c.pc) | M6502_SYNC;
                (c, p)
            },
            _ => (c, p),
        },
        0x3b => match c.ir_step {
            0 => {
                let p = set_addr(p, c.pc) | M6502_SYNC;
                (c, p)
            },
            _ => (c, p),
        },
        0x3c => match c.ir_step {
            0 => {
                let p = set_addr(p, c.pc);
                let c = M6502View { pc: (c.pc.wrapping_add(1)) as u16, ..c };
                (c, p)
            },
            1 => {
                let p = set_addr(p, c.pc);
                let c = M6502View { pc: (c.pc.wrapping_add(1)) as u16, ..c };
                let c = M6502View { ad: (pins_data(p) as u16) as u16, ..c };
                (c, p)
            },
            2 => {
                let c = M6502View { ad: (c.ad | ((pins_data(p) as u16)<<8)) as u16, ..c };
                let t113 = c.ad.wrapping_add(c.x as u16);
                let p = set_addr(p, t113);
                (c, p)
            },
            3 => {
                let t114 = pins_data(p);
                let c = M6502View { flags: bit_flags(c.a, t114, c.flags), ..c };
                let p = set_addr(p, c.pc) | M6502_SYNC;
                (c, p)
            },
            _ => (c, p),
        },
        0x3d => match c.ir_step {
            0 => {
                let p = set_addr(p, c.pc);
                let c = M6502View { pc: (c.pc.wrapping_add(1)) as u16, ..c };
                (c, p)
            },
            1 => {
                let p = set_addr(p, c.pc);
                let c = M6502View { pc: (c.pc.wrapping_add(1)) as u16, ..c };
                let c = M6502View { ad: (pins_data(p) as u16) as u16, ..c };
                (c, p)
            },
            2 => {
                let c = M6502View { ad: (c.ad | ((pins_data(p) as u16)<<8)) as u16, ..c };
                let t115 = (c.ad&0xFF00)|((c.ad.wrapping_add(c.x as u16))&0xFF);
                let p = set_addr(p, t115);
                let v = (c.ad>>8).wrapping_sub(c.ad.wrapping_add(c.x as u16)>>8);
                let c = M6502View { ir_step: (c.ir_step + ((!v as u8) & 1)) as u8, ..c };
                (c, p)
            },
            3 => {
                let t116 = c.ad.wrapping_add(c.x as u16);
                let p = set_addr(p, t116);
                (c, p)
            },
            4 => {
                let c = M6502View { a: (c.a & (pins_data(p))) as u8, ..c };
                let t117 = c.a;
                let c = M6502View { flags: nz_flags(c.flags, t117), ..c };
                let p = set_addr(p, c.pc) | M6502_SYNC;
                (c, p)
            },
            _ => (c, p),
        },
        0x3e => match c.ir_step {
            0 => {
                let p = set_addr(p, c.pc);
                let c = M6502View { pc: (c.pc.wrapping_add(1)) as u16, ..c };
                (c, p)
            },
            1 => {
                let p = set_addr(p, c.pc);
                let c = M6502View { pc: (c.pc.wrapping_add(1)) as u16, ..c };
                let c = M6502View { ad: (pins_data(p) as u16) as u16, ..c };
                (c, p)
            },
            2 => {
                let c = M6502View { ad: (c.ad | ((pins_data(p) as u16)<<8)) as u16, ..c };
                let t118 = (c.ad&0xFF00)|((c.ad.wrapping_add(c.x as u16))&0xFF);
                let p = set_addr(p, t118);
                (c, p)
            },
            3 => {
                let t119 = c.ad.wrapping_add(c.x as u16);
                let p = set_addr(p, t119);
                (c, p)
            },
            4 => {
                let c = M6502View { ad: (pins_data(p) as u16) as u16, ..c };
                let p = p & !M6502_RW;
                (c, p)
            },
            5 => {
                let t120 = c.ad as u8;
                let r10 = rol_spec(t120, c.flags);
                let t121 = r10.0;
                let c = M6502View { flags: r10.1, ..c };
                let p = set_data(p, t121);
                let p = p & !M6502_RW;
                (c, p)
            },
            6 => {
                let p = set_addr(p, c.pc) | M6502_SYNC;
                (c, p)
            },
            _ => (c, p),
        },
        0x3f => match c.ir_step {
            0 => {
                let p = set_addr(p, c.pc);
                let c = M6502View { pc: (c.pc.wrapping_add(1)) as u16, ..c };
                (c, p)
            },
            1 => {
                let t122 = pins_data(p) as u16;
                let p = set_addr(p, t122);
                (c, p)
            },
            2 => {
                let p = set_addr(p, c.pc);
                let c = M6502View { ad: ((pins_data(p) & 0x8) as u16) as u16, ..c };
                (c, p)
            },
            3 => {
                let p = set_addr(p, c.pc);
                let (c, p) = if c.ad != 0 {
                    let c = M6502View { ad: (c.pc.wrapping_add(1)) as u16, ..c };
                    let c = M6502View { ir_step: (c.ir_step + (2)) as u8, ..c };
                    (c, p)
                } else {
                    (c, p)
                };
                (c, p)
            },
            4 => {
                let p = set_addr(p, c.pc);
                let c = M6502View { ad: (c.pc.wrapping_add(1).wrapping_add(pins_data(p) as u16) as u16) as u16, ..c };
                (c, p)
            },
            5 => {
                let t123 = (c.pc&0xFF00)|(c.ad&0x00FF);
                let p = set_addr(p, t123);
                let (c, p) = if (c.ad&0xFF00)==(c.pc&0xFF00) {
                    let c = M6502View { pc: (c.ad) as u16, ..c };
                    let c = M6502View { irq_pip: (c.irq_pip >> 1) as u16, ..c };
                    let c = M6502View { nmi_pip: (c.nmi_pip >> 1) as u16, ..c };
                    let p = set_addr(p, c.pc) | M6502_SYNC;
                    (c, p)
                } else {
                    (c, p)
                };
                (c, p)
            },
            6 => {
                let c = M6502View { pc: (c.ad) as u16, ..c };
                let p = set_addr(p, c.pc) | M6502_SYNC;
                (c, p)
            },
            _ => (c, p),
        },
        _ => (c, p),
    }
}

/// What the step `c.ir_step` of opcodes 0x40 to 0x4f does to the core `c` and the
/// pins `p` it drives (the steps of the 65C02's cycle tables).
pub open spec fn step_spec_4(c: M6502View, p: u32) -> (M6502View, u32) {
    match c.ir {
        0x40 => match c.ir_step {
            0 => {
                let p = set_addr(p, c.pc);
                (c, p)
            },
            1 => {
                let t124 = 0x0100|(c.s as u16);
                let p = set_addr(p, t124);
                let c = M6502View { s: (c.s.wrapping_add(1)) as u8, ..c };
                (c, p)
            },
            2 => {
                let t125 = 0x0100|(c.s as u16);
                let p = set_addr(p, t125);
                let c = M6502View { s: (c.s.wrapping_add(1)) as u8, ..c };
                (c, p)
            },
            3 => {
                let t126 = 0x0100|(c.s as u16);
                let p = set_addr(p, t126);
                let c = M6502View { s: (c.s.wrapping_add(1)) as u8, ..c };
                let c = M6502View { flags: pins_data(p)&!(FLAG_B|FLAG_X), ..c };
                (c, p)
            },
            4 => {
                let t127 = 0x0100|(c.s as u16);
                let p = set_addr(p, t127);
                let c = M6502View { ad: (pins_data(p) as u16) as u16, ..c };
                (c, p)
            },
            5 => {
                let c = M6502View { pc: (((pins_data(p) as u16)<<8)|c.ad) as u16, ..c };
                let p = set_addr(p, c.pc) | M6502_SYNC;
                (c, p)
            },
            _ => (c, p),
        },
        0x41 => match c.ir_step {
            0 => {
                let p = set_addr(p, c.pc);
                let c = M6502View { pc: (c.pc.wrapping_add(1)) as u16, ..c };
                (c, p)
            },
            1 => {
                let c = M6502View { ad: (pins_data(p) as u16) as u16, ..c };
                let p = set_addr(p, c.ad);
                (c, p)
            },
            2 => {
                let c = M6502View { ad: ((c.ad.wrapping_add(c.x as u16))&0xFF) as u16, ..c };
                let p = set_addr(p, c.ad);
                (c, p)
            },
            3 => {
                let t128 = (c.ad.wrapping_add(1))&0xFF;
                let p = set_addr(p, t128);
                let c = M6502View { ad: (pins_data(p) as u16) as u16, ..c };
                (c, p)
            },
            4 => {
                let t129 = ((pins_data(p) as u16)<<8)|c.ad;
                let p = set_addr(p, t129);
                (c, p)
            },
            5 => {
                let c = M6502View { a: (c.a ^ (pins_data(p))) as u8, ..c };
                let t130 = c.a;
                let c = M6502View { flags: nz_flags(c.flags, t130), ..c };
                let p = set_addr(p, c.pc) | M6502_SYNC;
                (c, p)
            },
            _ => (c, p),
        },
        0x42 => match c.ir_step {
            0 => {
                let p = set_addr(p, c.pc);
                let c = M6502View { pc: (c.pc.wrapping_add(1)) as u16, ..c };
                (c, p)
            },
            1 => {
                let p = set_addr(p, c.pc) | M6502_SYNC;
                (c, p)
            },
            _ => (c, p),
        },
        0x43 => match c.ir_step {
            0 => {
                let p = set_addr(p, c.pc) | M6502_SYNC;
                (c, p)
            },
            _ => (c, p),
        },
        0x44 => match c.ir_step {
            0 => {
                let p = set_addr(p, c.pc);
                let c = M6502View { pc: (c.pc.wrapping_add(1)) as u16, ..c };
                (c, p)
            },
            1 => {
                let p = set_addr(p, c.pc);
                (c, p)
            },
            2 => {
                let p = set_addr(p, c.pc) | M6502_SYNC;
                (c, p)
            },
            _ => (c, p),
        },
        0x45 => match c.ir_step {
            0 => {
                let p = set_addr(p, c.pc);
                let c = M6502View { pc: (c.pc.wrapping_add(1)) as u16, ..c };
                (c, p)
            },
            1 => {
                let t131 = pins_data(p) as u16;
                let p = set_addr(p, t131);
                (c, p)
            },
            2 => {
                let c = M6502View { a: (c.a ^ (pins_data(p))) as u8, ..c };
                let t132 = c.a;
                let c = M6502View { flags: nz_flags(c.flags, t132), ..c };
                let p = set_addr(p, c.pc) | M6502_SYNC;
                (c, p)
            },
            _ => (c, p),
        },
        0x46 => match c.ir_step {
            0 => {
                let p = set_addr(p, c.pc);
                let c = M6502View { pc: (c.pc.wrapping_add(1)) as u16, ..c };
                (c, p)
            },
            1 => {
                let t133 = pins_data(p) as u16;
                let p = set_addr(p, t133);
                (c, p)
            },
            2 => {
                let c = M6502View { ad: (pins_data(p) as u16) as u16, ..c };
                let p = p & !M6502_RW;
                (c, p)
            },
            3 => {
                let t134 = c.ad as u8;
                let r11 = lsr_spec(t134, c.flags);
                let t135 = r11.0;
                let c = M6502View { flags: r11.1, ..c };
                let p = set_data(p, t135);
                let p = p & !M6502_RW;
                (c, p)
            },
            4 => {
                let p = set_addr(p, c.pc) | M6502_SYNC;
                (c, p)
            },
            _ => (c, p),
        },
        0x47 => match c.ir_step {
            0 => {
                let p = set_addr(p, c.pc);
                let c = M6502View { pc: (c.pc.wrapping_add(1)) as u16, ..c };
                (c, p)
            },
            1 => {
                let t136 = pins_data(p) as u16;
                let p = set_addr(p, t136);
                (c, p)
            },
            2 => {
                let c = M6502View { ad: (pins_data(p) as u16 & !0x10) as u16, ..c };
                (c, p)
            },
            3 => {
                let t137 = c.ad as u8;
                let p = set_data(p, t137);
                let p = p & !M6502_RW;
                (c, p)
            },
            4 => {
                let p = set_addr(p, c.pc) | M6502_SYNC;
                (c, p)
            },
            _ => (c, p),
        },
        0x48 => match c.ir_step {
            0 => {
                let p = set_addr(p, c.pc);
                (c, p)
            },
            1 => {
                let t138 = 0x0100|(c.s as u16);
                let p = set_data(set_addr(p, t138), c.a);
                let c = M6502View { s: (c.s.wrapping_sub(1)) as u8, ..c };
                let p = p & !M6502_RW;
                (c, p)
            },
            2 => {
                let p = set_addr(p, c.pc) | M6502_SYNC;
                (c, p)
            },
            _ => (c, p),
        },
        0x49 => match c.ir_step {
            0 => {
                let p = set_addr(p, c.pc);
                let c = M6502View { pc: (c.pc.wrapping_add(1)) as u16, ..c };
                (c, p)
            },
            1 => {
                let c = M6502View { a: (c.a ^ (pins_data(p))) as u8, ..c };
                let t139 = c.a;
                let c = M6502View { flags: nz_flags(c.flags, t139), ..c };
                let p = set_addr(p, c.pc) | M6502_SYNC;
                (c, p)
            },
            _ => (c, p),
        },
        0x4a => match c.ir_step {
            0 => {
                let p = set_addr(p, c.pc);
                (c, p)
            },
            1 => {
                let t140 = c.a;
                let r12 = lsr_spec(t140, c.flags);
                let t141 = r12.0;
                let c = M6502View { flags: r12.1, ..c };
                let c = M6502View { a: (t141) as u8, ..c };
                let p = set_addr(p, c.pc) | M6502_SYNC;
                (c, p)
            },
            _ => (c, p),
        },
        0x4b => match c.ir_step {
            0 => {
                let p = set_addr(p, c.pc) | M6502_SYNC;
                (c, p)
            },
            _ => (c, p),
        },
        0x4c => match c.ir_step {
            0 => {
                let p = set_addr(p, c.pc);
                let c = M6502View { pc: (c.pc.wrapping_add(1)) as u16, ..c };
                (c, p)
            },
            1 => {
                let p = set_addr(p, c.pc);
                let c = M6502View { pc: (c.pc.wrapping_add(1)) as u16, ..c };
                let c = M6502View { ad: (pins_data(p) as u16) as u16, ..c };
                (c, p)
            },
            2 => {
                let c = M6502View { pc: (((pins_data(p) as u16)<<8)|c.ad) as u16, ..c };
                let p = set_addr(p, c.pc) | M6502_SYNC;
                (c, p)
            },
            _ => (c, p),
        },
        0x4d => match c.ir_step {
            0 => {
                let p = set_addr(p, c.pc);
                let c = M6502View { pc: (c.pc.wrapping_add(1)) as u16, ..c };
                (c, p)
            },
            1 => {
                let p = set_addr(p, c.pc);
                let c = M6502View { pc: (c.pc.wrapping_add(1)) as u16, ..c };
                let c = M6502View { ad: (pins_data(p) as u16) as u16, ..c };
                (c, p)
            },
            2 => {
                let t142 = ((pins_data(p) as u16)<<8)|c.ad;
                let p = set_addr(p, t142);
                (c, p)
            },
            3 => {
                let c = M6502View { a: (c.a ^ (pins_data(p))) as u8, ..c };
                let t143 = c.a;
                let c = M6502View { flags: nz_flags(c.flags, t143), ..c };
                let p = set_addr(p, c.pc) | M6502_SYNC;
                (c, p)
            },
            _ => (c, p),
        },
        0x4e => match c.ir_step {
            0 => {
                let p = set_addr(p, c.pc);
                let c = M6502View { pc: (c.pc.wrapping_add(1)) as u16, ..c };
                (c, p)
            },
            1 => {
                let p = set_addr(p, c.pc);
                let c = M6502View { pc: (c.pc.wrapping_add(1)) as u16, ..c };
                let c = M6502View { ad: (pins_data(p) as u16) as u16, ..c };
                (c, p)
            },
            2 => {
                let t144 = ((pins_data(p) as u16)<<8)|c.ad;
                let p = set_addr(p, t144);
                (c, p)
            },
            3 => {
                let c = M6502View { ad: (pins_data(p) as u16) as u16, ..c };
                let p = p & !M6502_RW;
                (c, p)
            },
            4 => {
                let t145 = c.ad as u8;
                let r13 = lsr_spec(t145, c.flags);
                let t146 = r13.0;
                let c = M6502View { flags: r13.1, ..c };
                let p = set_data(p, t146);
                let p = p & !M6502_RW;
                (c, p)
            },
            5 => {
                let p = set_addr(p, c.pc) | M6502_SYNC;
                (c, p)
            },
            _ => (c, p),
        },
        0x4f => match c.ir_step {
            0 => {
                let p = set_addr(p, c.pc);
                let c = M6502View { pc: (c.pc.wrapping_add(1)) as u16, ..c };
                (c, p)
            },
            1 => {
                let t147 = pins_data(p) as u16;
                let p = set_addr(p, t147);
                (c, p)
            },
            2 => {
                let p = set_addr(p, c.pc);
                let c = M6502View { ad: ((pins_data(p) & 0x10) as u16) as u16, ..c };
                (c, p)
            },
            3 => {
                let p = set_addr(p, c.pc);
                let (c, p) = if c.ad != 0 {
                    let c = M6502View { ad: (c.pc.wrapping_add(1)) as u16, ..c };
                    let c = M6502View { ir_step: (c.ir_step + (2)) as u8, ..c };
                    (c, p)
                } else {
                    (c, p)
                };
                (c, p)
            },
            4 => {
                let p = set_addr(p, c.pc);
                let c = M6502View { ad: (c.pc.wrapping_add(1).wrapping_add(pins_data(p) as u16) as u16) as u16, ..c };
                (c, p)
            },
            5 => {
                let t148 = (c.pc&0xFF00)|(c.ad&0x00FF);
                let p = set_addr(p, t148);
                let (c, p) = if (c.ad&0xFF00)==(c.pc&0xFF00) {
                    let c = M6502View { pc: (c.ad) as u16, ..c };
                    let c = M6502View { irq_pip: (c.irq_pip >> 1) as u16, ..c };
                    let c = M6502View { nmi_pip: (c.nmi_pip >> 1) as u16, ..c };
                    let p = set_addr(p, c.pc) | M6502_SYNC;
                    (c, p)
                } else {
                    (c, p)
                };
                (c, p)
            },
            6 => {
                let c = M6502View { pc: (c.ad) as u16, ..c };
                let p = set_addr(p, c.pc) | M6502_SYNC;
                (c, p)
            },
            _ => (c, p),
        },
        _ => (c, p),
    }
}

/// What the step `c.ir_step` of opcodes 0x50 to 0x5f does to the core `c` and the
/// pins `p` it drives (the steps of the 65C02's cycle tables).
pub open spec fn step_spec_5(c: M6502View, p: u32) -> (M6502View, u32) {
    match c.ir {
        0x50 => match c.ir_step {
            0 => {
                let p = set_addr(p, c.pc);
                let c = M6502View { pc: (c.pc.wrapping_add(1)) as u16, ..c };
                (c, p)
            },
            1 => {
                let p = set_addr(p, c.pc);
                let c = M6502View { ad: (c.pc.wrapping_add((pins_data(p) as i8) as u16)) as u16, ..c };
                let (c, p) = if (c.flags & FLAG_V) != 0 {
                    let p = set_addr(p, c.pc) | M6502_SYNC;
                    (c, p)
                } else {
                    (c, p)
                };
                (c, p)
            },
            2 => {
                let t149 = (c.pc&0xFF00)|(c.ad&0x00FF);
                let p = set_addr(p, t149);
                let (c, p) = if (c.ad&0xFF00)==(c.pc&0xFF00) {
                    let c = M6502View { pc: (c.ad) as u16, ..c };
                    let c = M6502View { irq_pip: (c.irq_pip >> 1) as u16, ..c };
                    let c = M6502View { nmi_pip: (c.nmi_pip >> 1) as u16, ..c };
                    let p = set_addr(p, c.pc) | M6502_SYNC;
                    (c, p)
                } else {
                    (c, p)
                };
                (c, p)
            },
            3 => {
                let c = M6502View { pc: (c.ad) as u16, ..c };
                let p = set_addr(p, c.pc) | M6502_SYNC;
                (c, p)
            },
            _ => (c, p),
        },
        0x51 => match c.ir_step {
            0 => {
                let p = set_addr(p, c.pc);
                let c = M6502View { pc: (c.pc.wrapping_add(1)) as u16, ..c };
                (c, p)
            },
            1 => {
                let c = M6502View { ad: (pins_data(p) as u16) as u16, ..c };
                let p = set_addr(p, c.ad);
                (c, p)
            },
            2 => {
                let t150 = (c.ad.wrapping_add(1))&0xFF;
                let p = set_addr(p, t150);
                let c = M6502View { ad: (pins_data(p) as u16) as u16, ..c };
                (c, p)
            },
            3 => {
                let c = M6502View { ad: (c.ad | ((pins_data(p) as u16)<<8)) as u16, ..c };
                let t151 = (c.ad&0xFF00)|((c.ad.wrapping_add(c.y as u16))&0xFF);
                let p = set_addr(p, t151);
                let v = (c.ad>>8).wrapping_sub(c.ad.wrapping_add(c.y as u16)>>8);
                let c = M6502View { ir_step: (c.ir_step + ((!v as u8) & 1)) as u8, ..c };
                (c, p)
            },
            4 => {
                let t152 = c.ad.wrapping_add(c.y as u16);
                let p = set_addr(p, t152);
                (c, p)
            },
            5 => {
                let c = M6502View { a: (c.a ^ (pins_data(p))) as u8, ..c };
                let t153 = c.a;
                let c = M6502View { flags: nz_flags(c.flags, t153), ..c };
                let p = set_addr(p, c.pc) | M6502_SYNC;
                (c, p)
            },
            _ => (c, p),
        },
        0x52 => match c.ir_step {
            0 => {
                let p = set_addr(p, c.pc);
                let c = M6502View { pc: (c.pc.wrapping_add(1)) as u16, ..c };
                (c, p)
            },
            1 => {
                let c = M6502View { ad: (pins_data(p) as u16) as u16, ..c };
                let p = set_addr(p, c.ad);
                (c, p)
            },
            2 => {
                let t154 = (c.ad.wrapping_add(1))&0xFF;
                let p = set_addr(p, t154);
                let c = M6502View { ad: (pins_data(p) as u16) as u16, ..c };
                (c, p)
            },
            3 => {
                let c = M6502View { ad: (c.ad | ((pins_data(p) as u16)<<8)) as u16, ..c };
                let p = set_addr(p, c.ad);
                (c, p)
            },
            4 => {
                let c = M6502View { a: (c.a ^ (pins_data(p))) as u8, ..c };
                let t155 = c.a;
                let c = M6502View { flags: nz_flags(c.flags, t155), ..c };
                let p = set_addr(p, c.pc) | M6502_SYNC;
                (c, p)
            },
            _ => (c, p),
        },
        0x53 => match c.ir_step {
            0 => {
                let p = set_addr(p, c.pc) | M6502_SYNC;
                (c, p)
            },
            _ => (c, p),
        },
        0x54 => match c.ir_step {
            0 => {
                let p = set_addr(p, c.pc);
                let c = M6502View { pc: (c.pc.wrapping_add(1)) as u16, ..c };
                (c, p)
            },
            1 => {
                let p = set_addr(p, c.pc);
                (c, p)
            },
            2 => {
                let p = set_addr(p, c.pc) | M6502_SYNC;
                (c, p)
            },
            _ => (c, p),
        },
        0x55 => match c.ir_step {
            0 => {
                let p = set_addr(p, c.pc);
                let c = M6502View { pc: (c.pc.wrapping_add(1)) as u16, ..c };
                (c, p)
            },
            1 => {
                let c = M6502View { ad: (pins_data(p) as u16) as u16, ..c };
                let p = set_addr(p, c.ad);
                (c, p)
            },
            2 => {
                let t156 = (c.ad.wrapping_add(c.x as u16))&0x00FF;
                let p = set_addr(p, t156);
                (c, p)
            },
            3 => {
                let c = M6502View { a: (c.a ^ (pins_data(p))) as u8, ..c };
                let t157 = c.a;
                let c = M6502View { flags: nz_flags(c.flags, t157), ..c };
                let p = set_addr(p, c.pc) | M6502_SYNC;
                (c, p)
            },
            _ => (c, p),
        },
        0x56 => match c.ir_step {
            0 => {
                let p = set_addr(p, c.pc);
                let c = M6502View { pc: (c.pc.wrapping_add(1)) as u16, ..c };
                (c, p)
            },
            1 => {
                let c = M6502View { ad: (pins_data(p) as u16) as u16, ..c };
                let p = set_addr(p, c.ad);
                (c, p)
            },
            2 => {
                let t158 = (c.ad.wrapping_add(c.x as u16))&0x00FF;
                let p = set_addr(p, t158);
                (c, p)
            },
            3 => {
                let c = M6502View { ad: (pins_data(p) as u16) as u16, ..c };
                let p = p & !M6502_RW;
                (c, p)
            },
            4 => {
                let t159 = c.ad as u8;
                let r14 = lsr_spec(t159, c.flags);
                let t160 = r14.0;
                let c = M6502View { flags: r14.1, ..c };
                let p = set_data(p, t160);
                let p = p & !M6502_RW;
                (c, p)
            },
            5 => {
                let p = set_addr(p, c.pc) | M6502_SYNC;
                (c, p)
            },
            _ => (c, p),
        },
        0x57 => match c.ir_step {
            0 => {
                let p = set_addr(p, c.pc);
                let c = M6502View { pc: (c.pc.wrapping_add(1)) as u16, ..c };
                (c, p)
            },
            1 => {
                let t161 = pins_data(p) as u16;
                let p = set_addr(p, t161);
                (c, p)
            },
            2 => {
                let c = M6502View { ad: (pins_data(p) as u16 & !0x20) as u16, ..c };
                (c, p)
            },
            3 => {
                let t162 = c.ad as u8;
                let p = set_data(p, t162);
                let p = p & !M6502_RW;
                (c, p)
            },
            4 => {
                let p = set_addr(p, c.pc) | M6502_SYNC;
                (c, p)
            },
            _ => (c, p),
        },
        0x58 => match c.ir_step {
            0 => {
                let p = set_addr(p, c.pc);
                (c, p)
            },
            1 => {
                let c = M6502View { flags: c.flags & (!FLAG_I), ..c };
                let p = set_addr(p, c.pc) | M6502_SYNC;
                (c, p)
            },
            _ => (c, p),
        },
        0x59 => match c.ir_step {
            0 => {
                let p = set_addr(p, c.pc);
                let c = M6502View { pc: (c.pc.wrapping_add(1)) as u16, ..c };
                (c, p)
            },
            1 => {
                let p = set_addr(p, c.pc);
                let c = M6502View { pc: (c.pc.wrapping_add(1)) as u16, ..c };
                let c = M6502View { ad: (pins_data(p) as u16) as u16, ..c };
                (c, p)
            },
            2 => {
                let c = M6502View { ad: (c.ad | ((pins_data(p) as u16)<<8)) as u16, ..c };
                let t163 = (c.ad&0xFF00)|((c.ad.wrapping_add(c.y as u16))&0xFF);
                let p = set_addr(p, t163);
                let v = (c.ad>>8).wrapping_sub(c.ad.wrapping_add(c.y as u16)>>8);
                let c = M6502View { ir_step: (c.ir_step + ((!v as u8) & 1)) as u8, ..c };
                (c, p)
            },
            3 => {
                let t164 = c.ad.wrapping_add(c.y as u16);
                let p = set_addr(p, t164);
                (c, p)
            },
            4 => {
                let c = M6502View { a: (c.a ^ (pins_data(p))) as u8, ..c };
                let t165 = c.a;
                let c = M6502View { flags: nz_flags(c.flags, t165), ..c };
                let p = set_addr(p, c.pc) | M6502_SYNC;
                (c, p)
            },
            _ => (c, p),
        },
        0x5a => match c.ir_step {
            0 => {
                let p = set_addr(p, c.pc);
                (c, p)
            },
            1 => {
                let t166 = 0x0100|(c.s as u16);
                let p = set_data(set_addr(p, t166), c.y);
                let c = M6502View { s: (c.s.wrapping_sub(1)) as u8, ..c };
                let p = p & !M6502_RW;
                (c, p)
            },
            2 => {
                let p = set_addr(p, c.pc) | M6502_SYNC;
                (c, p)
            },
            _ => (c, p),
        },
        0x5b => match c.ir_step {
            0 => {
                let p = set_addr(p, c.pc) | M6502_SYNC;
                (c, p)
            },
            _ => (c, p),
        },
        0x5c => match c.ir_step {
            0 => {
                let p = set_addr(p, c.pc);
                let c = M6502View { pc: (c.pc.wrapping_add(1)) as u16, ..c };
                (c, p)
            },
            1 => {
                let p = set_addr(p, c.pc);
                let c = M6502View { pc: (c.pc.wrapping_add(1)) as u16, ..c };
                (c, p)
            },
            2 => {
                let p = set_addr(p, c.pc);
                (c, p)
            },
            3 => {
                let p = set_addr(p, c.pc);
                (c, p)
            },
            4 => {
                let p = set_addr(p, c.pc);
                (c, p)
            },
            5 => {
                let p = set_addr(p, c.pc);
                (c, p)
            },
            6 => {
                let p = set_addr(p, c.pc);
                (c, p)
            },
            7 => {
                let p = set_addr(p, c.pc) | M6502_SYNC;
                (c, p)
            },
            _ => (c, p),
        },
        0x5d => match c.ir_step {
            0 => {
                let p = set_addr(p, c.pc);
                let c = M6502View { pc: (c.pc.wrapping_add(1)) as u16, ..c };
                (c, p)
            },
            1 => {
                let p = set_addr(p, c.pc);
                let c = M6502View { pc: (c.pc.wrapping_add(1)) as u16, ..c };
                let c = M6502View { ad: (pins_data(p) as u16) as u16, ..c };
                (c, p)
            },
            2 => {
                let c = M6502View { ad: (c.ad | ((pins_data(p) as u16)<<8)) as u16, ..c };
                let t167 = (c.ad&0xFF00)|((c.ad.wrapping_add(c.x as u16))&0xFF);
                let p = set_addr(p, t167);
                let v = (c.ad>>8).wrapping_sub(c.ad.wrapping_add(c.x as u16)>>8);
                let c = M6502View { ir_step: (c.ir_step + ((!v as u8) & 1)) as u8, ..c };
                (c, p)
            },
            3 => {
                let t168 = c.ad.wrapping_add(c.x as u16);
                let p = set_addr(p, t168);
                (c, p)
            },
            4 => {
                let c = M6502View { a: (c.a ^ (pins_data(p))) as u8, ..c };
                let t169 = c.a;
                let c = M6502View { flags: nz_flags(c.flags, t169), ..c };
                let p = set_addr(p, c.pc) | M6502_SYNC;
                (c, p)
            },
            _ => (c, p),
        },
        0x5e => match c.ir_step {
            0 => {
                let p = set_addr(p, c.pc);
                let c = M6502View { pc: (c.pc.wrapping_add(1)) as u16, ..c };
                (c, p)
            },
            1 => {
                let p = set_addr(p, c.pc);
                let c = M6502View { pc: (c.pc.wrapping_add(1)) as u16, ..c };
                let c = M6502View { ad: (pins_data(p) as u16) as u16, ..c };
                (c, p)
            },
            2 => {
                let c = M6502View { ad: (c.ad | ((pins_data(p) as u16)<<8)) as u16, ..c };
                let t170 = (c.ad&0xFF00)|((c.ad.wrapping_add(c.x as u16))&0xFF);
                let p = set_addr(p, t170);
                (c, p)
            },
            3 => {
                let t171 = c.ad.wrapping_add(c.x as u16);
                let p = set_addr(p, t171);
                (c, p)
            },
            4 => {
                let c = M6502View { ad: (pins_data(p) as u16) as u16, ..c };
                let p = p & !M6502_RW;
                (c, p)
            },
            5 => {
                let t172 = c.ad as u8;
                let r15 = lsr_spec(t172, c.flags);
                let t173 = r15.0;
                let c = M6502View { flags: r15.1, ..c };
                let p = set_data(p, t173);
                let p = p & !M6502_RW;
                (c, p)
            },
            6 => {
                let p = set_addr(p, c.pc) | M6502_SYNC;
                (c, p)
            },
            _ => (c, p),
        },
        0x5f => match c.ir_step {
            0 => {
                let p = set_addr(p, c.pc);
                let c = M6502View { pc: (c.pc.wrapping_add(1)) as u16, ..c };
                (c, p)
            },
            1 => {
                let t174 = pins_data(p) as u16;
                let p = set_addr(p, t174);
                (c, p)
            },
            2 => {
                let p = set_addr(p, c.pc);
                let c = M6502View { ad: ((pins_data(p) & 0x20) as u16) as u16, ..c };
                (c, p)
            },
            3 => {
                let p = set_addr(p, c.pc);
                let (c, p) = if c.ad != 0 {
                    let c = M6502View { ad: (c.pc.wrapping_add(1)) as u16, ..c };
                    let c = M6502View { ir_step: (c.ir_step + (2)) as u8, ..c };
                    (c, p)
                } else {
                    (c, p)
                };
                (c, p)
            },
            4 => {
                let p = set_addr(p, c.pc);
                let c = M6502View { ad: (c.pc.wrapping_add(1).wrapping_add(pins_data(p) as u16) as u16) as u16, ..c };
                (c, p)
            },
            5 => {
                let t175 = (c.pc&0xFF00)|(c.ad&0x00FF);
                let p = set_addr(p, t175);
                let (c, p) = if (c.ad&0xFF00)==(c.pc&0xFF00) {
                    let c = M6502View { pc: (c.ad) as u16, ..c };
                    let c = M6502View { irq_pip: (c.irq_pip >> 1) as u16, ..c };
                    let c = M6502View { nmi_pip: (c.nmi_pip >> 1) as u16, ..c };
                    let p = set_addr(p, c.pc) | M6502_SYNC;
                    (c, p)
                } else {
                    (c, p)
                };
                (c, p)
            },
            6 => {
                let c = M6502View { pc: (c.ad) as u16, ..c };
                let p = set_addr(p, c.pc) | M6502_SYNC;
                (c, p)
            },
            _ => (c, p),
        },
        _ => (c, p),
    }
}

/// What the step `c.ir_step` of opcodes 0x60 to 0x6f does to the core `c` and the
/// pins `p` it drives (the steps of the 65C02's cycle tables).
pub open spec fn step_spec_6(c: M6502View, p: u32) -> (M6502View, u32) {
    match c.ir {
        0x60 => match c.ir_step {
            0 => {
                let p = set_addr(p, c.pc);
                (c, p)
            },
            1 => {
                let t176 = 0x0100|(c.s as u16);
                let p = set_addr(p, t176);
                let c = M6502View { s: (c.s.wrapping_add(1)) as u8, ..c };
                (c, p)
            },
            2 => {
                let t177 = 0x0100|(c.s as u16);
                let p = set_addr(p, t177);
                let c = M6502View { s: (c.s.wrapping_add(1)) as u8, ..c };
                (c, p)
            },
            3 => {
                let t178 = 0x0100|(c.s as u16);
                let p = set_addr(p, t178);
                let c = M6502View { ad: (pins_data(p) as u16) as u16, ..c };
                (c, p)
            },
            4 => {
                let c = M6502View { pc: (((pins_data(p) as u16)<<8)|c.ad) as u16, ..c };
                let p = set_addr(p, c.pc);
                let c = M6502View { pc: (c.pc.wrapping_add(1)) as u16, ..c };
                (c, p)
            },
            5 => {
                let p = set_addr(p, c.pc) | M6502_SYNC;
                (c, p)
            },
            _ => (c, p),
        },
        0x61 => match c.ir_step {
            0 => {
                let p = set_addr(p, c.pc);
                let c = M6502View { pc: (c.pc.wrapping_add(1)) as u16, ..c };
                (c, p)
            },
            1 => {
                let c = M6502View { ad: (pins_data(p) as u16) as u16, ..c };
                let p = set_addr(p, c.ad);
                (c, p)
            },
            2 => {
                let c = M6502View { ad: ((c.ad.wrapping_add(c.x as u16))&0xFF) as u16, ..c };
                let p = set_addr(p, c.ad);
                (c, p)
            },
            3 => {
                let t179 = (c.ad.wrapping_add(1))&0xFF;
                let p = set_addr(p, t179);
                let c = M6502View { ad: (pins_data(p) as u16) as u16, ..c };
                (c, p)
            },
            4 => {
                let t180 = ((pins_data(p) as u16)<<8)|c.ad;
                let p = set_addr(p, t180);
                (c, p)
            },
            5 => {
                let t181 = pins_data(p);
                let r16 = if c.flags & FLAG_D != 0 { adc_decimal(c.a, t181, c.flags) } else { adc_binary(c.a, t181, c.flags) };
                let c = M6502View { a: r16.0, flags: r16.1, ..c };
                let p = set_addr(p, c.pc) | M6502_SYNC;
                (c, p)
            },
            _ => (c, p),
        },
        0x62 => match c.ir_step {
            0 => {
                let p = set_addr(p, c.pc);
                let c = M6502View { pc: (c.pc.wrapping_add(1)) as u16, ..c };
                (c, p)
            },
            1 => {
                let p = set_addr(p, c.pc) | M6502_SYNC;
                (c, p)
            },
            _ => (c, p),
        },
        0x63 => match c.ir_step {
            0 => {
                let p = set_addr(p, c.pc) | M6502_SYNC;
                (c, p)
            },
            _ => (c, p),
        },
        0x64 => match c.ir_step {
            0 => {
                let p = set_addr(p, c.pc);
                let c = M6502View { pc: (c.pc.wrapping_add(1)) as u16, ..c };
                (c, p)
            },
            1 => {
                let t182 = pins_data(p) as u16;
                let p = set_addr(p, t182);
                let p = set_data(p, 0);
                let p = p & !M6502_RW;
                (c, p)
            },
            2 => {
                let p = set_addr(p, c.pc) | M6502_SYNC;
                (c, p)
            },
            _ => (c, p),
        },
        0x65 => match c.ir_step {
            0 => {
                let p = set_addr(p, c.pc);
                let c = M6502View { pc: (c.pc.wrapping_add(1)) as u16, ..c };
                (c, p)
            },
            1 => {
                let t183 = pins_data(p) as u16;
                let p = set_addr(p, t183);
                (c, p)
            },
            2 => {
                let t184 = pins_data(p);
                let r17 = if c.flags & FLAG_D != 0 { adc_decimal(c.a, t184, c.flags) } else { adc_binary(c.a, t184, c.flags) };
                let c = M6502View { a: r17.0, flags: r17.1, ..c };
                let p = set_addr(p, c.pc) | M6502_SYNC;
                (c, p)
            },
            _ => (c, p),
        },
        0x66 => match c.ir_step {
            0 => {
                let p = set_addr(p, c.pc);
                let c = M6502View { pc: (c.pc.wrapping_add(1)) as u16, ..c };
                (c, p)
            },
            1 => {
                let t185 = pins_data(p) as u16;
                let p = set_addr(p, t185);
                (c, p)
            },
            2 => {
                let c = M6502View { ad: (pins_data(p) as u16) as u16, ..c };
                let p = p & !M6502_RW;
                (c, p)
            },
            3 => {
                let t186 = c.ad as u8;
                let r18 = ror_spec(t186, c.flags);
                let t187 = r18.0;
                let c = M6502View { flags: r18.1, ..c };
                let p = set_data(p, t187);
                let p = p & !M6502_RW;
                (c, p)
            },
            4 => {
                let p = set_addr(p, c.pc) | M6502_SYNC;
                (c, p)
            },
            _ => (c, p),
        },
        0x67 => match c.ir_step {
            0 => {
                let p = set_addr(p, c.pc);
                let c = M6502View { pc: (c.pc.wrapping_add(1)) as u16, ..c };
                (c, p)
            },
            1 => {
                let t188 = pins_data(p) as u16;
                let p = set_addr(p, t188);
                (c, p)
            },
            2 => {
                let c = M6502View { ad: (pins_data(p) as u16 & !0x40) as u16, ..c };
                (c, p)
            },
            3 => {
                let t189 = c.ad as u8;
                let p = set_data(p, t189);
                let p = p & !M6502_RW;
                (c, p)
            },
            4 => {
                let p = set_addr(p, c.pc) | M6502_SYNC;
                (c, p)
            },
            _ => (c, p),
        },
        0x68 => match c.ir_step {
            0 => {
                let p = set_addr(p, c.pc);
                (c, p)
            },
            1 => {
                let t190 = 0x0100|(c.s as u16);
                let p = set_addr(p, t190);
                let c = M6502View { s: (c.s.wrapping_add(1)) as u8, ..c };
                (c, p)
            },
            2 => {
                let t191 = 0x0100|(c.s as u16);
                let p = set_addr(p, t191);
                (c, p)
            },
            3 => {
                let c = M6502View { a: (pins_data(p)) as u8, ..c };
                let t192 = c.a;
                let c = M6502View { flags: nz_flags(c.flags, t192), ..c };
                let p = set_addr(p, c.pc) | M6502_SYNC;
                (c, p)
            },
            _ => (c, p),
        },
        0x69 => match c.ir_step {
            0 => {
                let p = set_addr(p, c.pc);
                let c = M6502View { pc: (c.pc.wrapping_add(1)) as u16, ..c };
                (c, p)
            },
            1 => {
                let t193 = pins_data(p);
                let r19 = if c.flags & FLAG_D != 0 { adc_decimal(c.a, t193, c.flags) } else { adc_binary(c.a, t193, c.flags) };
                let c = M6502View { a: r19.0, flags: r19.1, ..c };
                let p = set_addr(p, c.pc) | M6502_SYNC;
                (c, p)
            },
            _ => (c, p),
        },
        0x6a => match c.ir_step {
            0 => {
                let p = set_addr(p, c.pc);
                (c, p)
            },
            1 => {
                let t194 = c.a;
                let r20 = ror_spec(t194, c.flags);
                let t195 = r20.0;
                let c = M6502View { flags: r20.1, ..c };
                let c = M6502View { a: (t195) as u8, ..c };
                let p = set_addr(p, c.pc) | M6502_SYNC;
                (c, p)
            },
            _ => (c, p),
        },
        0x6b => match c.ir_step {
            0 => {
                let p = set_addr(p, c.pc) | M6502_SYNC;
                (c, p)
            },
            _ => (c, p),
        },
        0x6c => match c.ir_step {
            0 => {
                let p = set_addr(p, c.pc);
                let c = M6502View { pc: (c.pc.wrapping_add(1)) as u16, ..c };
                (c, p)
            },
            1 => {
                let p = set_addr(p, c.pc);
                let c = M6502View { pc: (c.pc.wrapping_add(1)) as u16, ..c };
                let c = M6502View { ad: (pins_data(p) as u16) as u16, ..c };
                (c, p)
            },
            2 => {
                let c = M6502View { ad: (c.ad | ((pins_data(p) as u16)<<8)) as u16, ..c };
                let p = set_addr(p, c.ad);
                (c, p)
            },
            3 => {
                let t196 = (c.ad & 0xFF00)|((c.ad.wrapping_add(1))&0x00FF);
                let p = set_addr(p, t196);
                let c = M6502View { ad: (pins_data(p) as u16) as u16, ..c };
                (c, p)
            },
            4 => {
                let c = M6502View { pc: (((pins_data(p) as u16)<<8)|c.ad) as u16, ..c };
                let p = set_addr(p, c.pc) | M6502_SYNC;
                (c, p)
            },
            _ => (c, p),
        },
        0x6d => match c.ir_step {
            0 => {
                let p = set_addr(p, c.pc);
                let c = M6502View { pc: (c.pc.wrapping_add(1)) as u16, ..c };
                (c, p)
            },
            1 => {
                let p = set_addr(p, c.pc);
                let c = M6502View { pc: (c.pc.wrapping_add(1)) as u16, ..c };
                let c = M6502View { ad: (pins_data(p) as u16) as u16, ..c };
                (c, p)
            },
            2 => {
                let t197 = ((pins_data(p) as u16)<<8)|c.ad;
                let p = set_addr(p, t197);
                (c, p)
            },
            3 => {
                let t198 = pins_data(p);
                let r21 = if c.flags & FLAG_D != 0 { adc_decimal(c.a, t198, c.flags) } else { adc_binary(c.a, t198, c.flags) };
                let c = M6502View { a: r21.0, flags: r21.1, ..c };
                let p = set_addr(p, c.pc) | M6502_SYNC;
                (c, p)
            },
            _ => (c, p),
        },
        0x6e => match c.ir_step {
            0 => {
                let p = set_addr(p, c.pc);
                let c = M6502View { pc: (c.pc.wrapping_add(1)) as u16, ..c };
                (c, p)
            },
            1 => {
                let p = set_addr(p, c.pc);
                let c = M6502View { pc: (c.pc.wrapping_add(1)) as u16, ..c };
                let c = M6502View { ad: (pins_data(p) as u16) as u16, ..c };
                (c, p)
            },
            2 => {
                let t199 = ((pins_data(p) as u16)<<8)|c.ad;
                let p = set_addr(p, t199);
                (c, p)
            },
            3 => {
                let c = M6502View { ad: (pins_data(p) as u16) as u16, ..c };
                let p = p & !M6502_RW;
                (c, p)
            },
            4 => {
                let t200 = c.ad as u8;
                let r22 = ror_spec(t200, c.flags);
                let t201 = r22.0;
                let c = M6502View { flags: r22.1, ..c };
                let p = set_data(p, t201);
                let p = p & !M6502_RW;
                (c, p)
            },
            5 => {
                let p = set_addr(p, c.pc) | M6502_SYNC;
                (c, p)
            },
            _ => (c, p),
        },
        0x6f => match c.ir_step {
            0 => {
                let p = set_addr(p, c.pc);
                let c = M6502View { pc: (c.pc.wrapping_add(1)) as u16, ..c };
                (c, p)
            },
            1 => {
                let t202 = pins_data(p) as u16;
                let p = set_addr(p, t202);
                (c, p)
            },
            2 => {
                let p = set_addr(p, c.pc);
                let c = M6502View { ad: ((pins_data(p) & 0x40) as u16) as u16, ..c };
                (c, p)
            },
            3 => {
                let p = set_addr(p, c.pc);
                let (c, p) = if c.ad != 0 {
                    let c = M6502View { ad: (c.pc.wrapping_add(1)) as u16, ..c };
                    let c = M6502View { ir_step: (c.ir_step + (2)) as u8, ..c };
                    (c, p)
                } else {
                    (c, p)
                };
                (c, p)
            },
            4 => {
                let p = set_addr(p, c.pc);
                let c = M6502View { ad: (c.pc.wrapping_add(1).wrapping_add(pins_data(p) as u16) as u16) as u16, ..c };
                (c, p)
            },
            5 => {
                let t203 = (c.pc&0xFF00)|(c.ad&0x00FF);
                let p = set_addr(p, t203);
                let (c, p) = if (c.ad&0xFF00)==(c.pc&0xFF00) {
                    let c = M6502View { pc: (c.ad) as u16, ..c };
                    let c = M6502View { irq_pip: (c.irq_pip >> 1) as u16, ..c };
                    let c = M6502View { nmi_pip: (c.nmi_pip >> 1) as u16, ..c };
                    let p = set_addr(p, c.pc) | M6502_SYNC;
                    (c, p)
                } else {
                    (c, p)
                };
                (c, p)
            },
            6 => {
                let c = M6502View { pc: (c.ad) as u16, ..c };
                let p = set_addr(p, c.pc) | M6502_SYNC;
                (c, p)
            },
            _ => (c, p),
        },
        _ => (c, p),
    }
}

/// What the step `c.ir_step` of opcodes 0x70 to 0x7f does to the core `c` and the
/// pins `p` it drives (the steps of the 65C02's cycle tables).
pub open spec fn step_spec_7(c: M6502View, p: u32) -> (M6502View, u32) {
    match c.ir {
        0x70 => match c.ir_step {
            0 => {
                let p = set_addr(p, c.pc);
                let c = M6502View { pc: (c.pc.wrapping_add(1)) as u16, ..c };
                (c, p)
            },
            1 => {
                let p = set_addr(p, c.pc);
                let c = M6502View { ad: (c.pc.wrapping_add((pins_data(p) as i8) as u16)) as u16, ..c };
                let (c, p) = if (c.flags & FLAG_V) == 0 {
                    let p = set_addr(p, c.pc) | M6502_SYNC;
                    (c, p)
                } else {
                    (c, p)
                };
                (c, p)
            },
            2 => {
                let t204 = (c.pc&0xFF00)|(c.ad&0x00FF);
                let p = set_addr(p, t204);
                let (c, p) = if (c.ad&0xFF00)==(c.pc&0xFF00) {
                    let c = M6502View { pc: (c.ad) as u16, ..c };
                    let c = M6502View { irq_pip: (c.irq_pip >> 1) as u16, ..c };
                    let c = M6502View { nmi_pip: (c.nmi_pip >> 1) as u16, ..c };
                    let p = set_addr(p, c.pc) | M6502_SYNC;
                    (c, p)
                } else {
                    (c, p)
                };
                (c, p)
            },
            3 => {
                let c = M6502View { pc: (c.ad) as u16, ..c };
                let p = set_addr(p, c.pc) | M6502_SYNC;
                (c, p)
            },
            _ => (c, p),
        },
        0x71 => match c.ir_step {
            0 => {
                let p = set_addr(p, c.pc);
                let c = M6502View { pc: (c.pc.wrapping_add(1)) as u16, ..c };
                (c, p)
            },
            1 => {
                let c = M6502View { ad: (pins_data(p) as u16) as u16, ..c };
                let p = set_addr(p, c.ad);
                (c, p)
            },
            2 => {
                let t205 = (c.ad.wrapping_add(1))&0xFF;
                let p = set_addr(p, t205);
                let c = M6502View { ad: (pins_data(p) as u16) as u16, ..c };
                (c, p)
            },
            3 => {
                let c = M6502View { ad: (c.ad | ((pins_data(p) as u16)<<8)) as u16, ..c };
                let t206 = (c.ad&0xFF00)|((c.ad.wrapping_add(c.y as u16))&0xFF);
                let p = set_addr(p, t206);
                let v = (c.ad>>8).wrapping_sub(c.ad.wrapping_add(c.y as u16)>>8);
                let c = M6502View { ir_step: (c.ir_step + ((!v as u8) & 1)) as u8, ..c };
                (c, p)
            },
            4 => {
                let t207 = c.ad.wrapping_add(c.y as u16);
                let p = set_addr(p, t207);
                (c, p)
            },
            5 => {
                let t208 = pins_data(p);
                let r23 = if c.flags & FLAG_D != 0 { adc_decimal(c.a, t208, c.flags) } else { adc_binary(c.a, t208, c.flags) };
                let c = M6502View { a: r23.0, flags: r23.1, ..c };
                let p = set_addr(p, c.pc) | M6502_SYNC;
                (c, p)
            },
            _ => (c, p),
        },
        0x72 => match c.ir_step {
            0 => {
                let p = set_addr(p, c.pc);
                let c = M6502View { pc: (c.pc.wrapping_add(1)) as u16, ..c };
                (c, p)
            },
            1 => {
                let c = M6502View { ad: (pins_data(p) as u16) as u16, ..c };
                let p = set_addr(p, c.ad);
                (c, p)
            },
            2 => {
                let t209 = (c.ad.wrapping_add(1))&0xFF;
                let p = set_addr(p, t209);
                let c = M6502View { ad: (pins_data(p) as u16) as u16, ..c };
                (c, p)
            },
            3 => {
                let c = M6502View { ad: (c.ad | ((pins_data(p) as u16)<<8)) as u16, ..c };
                let p = set_addr(p, c.ad);
                (c, p)
            },
            4 => {
                let t210 = pins_data(p);
                let r24 = if c.flags & FLAG_D != 0 { adc_decimal(c.a, t210, c.flags) } else { adc_binary(c.a, t210, c.flags) };
                let c = M6502View { a: r24.0, flags: r24.1, ..c };
                let p = set_addr(p, c.pc) | M6502_SYNC;
                (c, p)
            },
            _ => (c, p),
        },
        0x73 => match c.ir_step {
            0 => {
                let p = set_addr(p, c.pc) | M6502_SYNC;
                (c, p)
            },
            _ => (c, p),
        },
        0x74 => match c.ir_step {
            0 => {
                let p = set_addr(p, c.pc);
                let c = M6502View { pc: (c.pc.wrapping_add(1)) as u16, ..c };
                (c, p)
            },
            1 => {
                let c = M6502View { ad: (pins_data(p) as u16) as u16, ..c };
                let p = set_addr(p, c.ad);
                (c, p)
            },
            2 => {
                let t211 = (c.ad.wrapping_add(c.x as u16))&0x00FF;
                let p = set_addr(p, t211);
                let p = set_data(p, 0);
                let p = p & !M6502_RW;
                (c, p)
            },
            3 => {
                let p = set_addr(p, c.pc) | M6502_SYNC;
                (c, p)
            },
            _ => (c, p),
        },
        0x75 => match c.ir_step {
            0 => {
                let p = set_addr(p, c.pc);
                let c = M6502View { pc: (c.pc.wrapping_add(1)) as u16, ..c };
                (c, p)
            },
            1 => {
                let c = M6502View { ad: (pins_data(p) as u16) as u16, ..c };
                let p = set_addr(p, c.ad);
                (c, p)
            },
            2 => {
                let t212 = (c.ad.wrapping_add(c.x as u16))&0x00FF;
                let p = set_addr(p, t212);
                (c, p)
            },
            3 => {
                let t213 = pins_data(p);
                let r25 = if c.flags & FLAG_D != 0 { adc_decimal(c.a, t213, c.flags) } else { adc_binary(c.a, t213, c.flags) };
                let c = M6502View { a: r25.0, flags: r25.1, ..c };
                let p = set_addr(p, c.pc) | M6502_SYNC;
                (c, p)
            },
            _ => (c, p),
        },
        0x76 => match c.ir_step {
            0 => {
                let p = set_addr(p, c.pc);
                let c = M6502View { pc: (c.pc.wrapping_add(1)) as u16, ..c };
                (c, p)
            },
            1 => {
                let c = M6502View { ad: (pins_data(p) as u16) as u16, ..c };
                let p = set_addr(p, c.ad);
                (c, p)
            },
            2 => {
                let t214 = (c.ad.wrapping_add(c.x as u16))&0x00FF;
                let p = set_addr(p, t214);
                (c, p)
            },
            3 => {
                let c = M6502View { ad: (pins_data(p) as u16) as u16, ..c };
                let p = p & !M6502_RW;
                (c, p)
            },
            4 => {
                let t215 = c.ad as u8;
                let r26 = ror_spec(t215, c.flags);
                let t216 = r26.0;
                let c = M6502View { flags: r26.1, ..c };
                let p = set_data(p, t216);
                let p = p & !M6502_RW;
                (c, p)
            },
            5 => {
                let p = set_addr(p, c.pc) | M6502_SYNC;
                (c, p)
            },
            _ => (c, p),
        },
        0x77 => match c.ir_step {
            0 => {
                let p = set_addr(p, c.pc);
                let c = M6502View { pc: (c.pc.wrapping_add(1)) as u16, ..c };
                (c, p)
            },
            1 => {
                let t217 = pins_data(p) as u16;
                let p = set_addr(p, t217);
                (c, p)
            },
            2 => {
                let c = M6502View { ad: (pins_data(p) as u16 & !0x80) as u16, ..c };
                (c, p)
            },
            3 => {
                let t218 = c.ad as u8;
                let p = set_data(p, t218);
                let p = p & !M6502_RW;
                (c, p)
            },
            4 => {
                let p = set_addr(p, c.pc) | M6502_SYNC;
                (c, p)
            },
            _ => (c, p),
        },
        0x78 => match c.ir_step {
            0 => {
                let p = set_addr(p, c.pc);
                (c, p)
            },
            1 => {
                let c = M6502View { flags: c.flags | (FLAG_I), ..c };
                let p = set_addr(p, c.pc) | M6502_SYNC;
                (c, p)
            },
            _ => (c, p),
        },
        0x79 => match c.ir_step {
            0 => {
                let p = set_addr(p, c.pc);
                let c = M6502View { pc: (c.pc.wrapping_add(1)) as u16, ..c };
                (c, p)
            },
            1 => {
                let p = set_addr(p, c.pc);
                let c = M6502View { pc: (c.pc.wrapping_add(1)) as u16, ..c };
                let c = M6502View { ad: (pins_data(p) as u16) as u16, ..c };
                (c, p)
            },
            2 => {
                let c = M6502View { ad: (c.ad | ((pins_data(p) as u16)<<8)) as u16, ..c };
                let t219 = (c.ad&0xFF00)|((c.ad.wrapping_add(c.y as u16))&0xFF);
                let p = set_addr(p, t219);
                let v = (c.ad>>8).wrapping_sub(c.ad.wrapping_add(c.y as u16)>>8);
                let c = M6502View { ir_step: (c.ir_step + ((!v as u8) & 1)) as u8, ..c };
                (c, p)
            },
            3 => {
                let t220 = c.ad.wrapping_add(c.y as u16);
                let p = set_addr(p, t220);
                (c, p)
            },
            4 => {
                let t221 = pins_data(p);
                let r27 = if c.flags & FLAG_D != 0 { adc_decimal(c.a, t221, c.flags) } else { adc_binary(c.a, t221, c.flags) };
                let c = M6502View { a: r27.0, flags: r27.1, ..c };
                let p = set_addr(p, c.pc) | M6502_SYNC;
                (c, p)
            },
            _ => (c, p),
        },
        0x7a => match c.ir_step {
            0 => {
                let p = set_addr(p, c.pc);
                (c, p)
            },
            1 => {
                let t222 = 0x0100|(c.s as u16);
                let p = set_addr(p, t222);
                let c = M6502View { s: (c.s.wrapping_add(1)) as u8, ..c };
                (c, p)
            },
            2 => {
                let t223 = 0x0100|(c.s as u16);
                let p = set_addr(p, t223);
                (c, p)
            },
            3 => {
                let c = M6502View { y: (pins_data(p)) as u8, ..c };
                let t224 = c.y;
                let c = M6502View { flags: nz_flags(c.flags, t224), ..c };
                let p = set_addr(p, c.pc) | M6502_SYNC;
                (c, p)
            },
            _ => (c, p),
        },
        0x7b => match c.ir_step {
            0 => {
                let p = set_addr(p, c.pc) | M6502_SYNC;
                (c, p)
            },
            _ => (c, p),
        },
        0x7c => match c.ir_step {
            0 => {
                let p = set_addr(p, c.pc);
                let c = M6502View { pc: (c.pc.wrapping_add(1)) as u16, ..c };
                (c, p)
            },
            1 => {
                let p = set_addr(p, c.pc);
                let c = M6502View { pc: (c.pc.wrapping_add(1)) as u16, ..c };
                let c = M6502View { ad: (pins_data(p) as u16) as u16, ..c };
                (c, p)
            },
            2 => {
                let c = M6502View { ad: (c.ad | ((pins_data(p) as u16)<<8)) as u16, ..c };
                (c, p)
            },
            3 => {
                let c = M6502View { ad: (c.ad.wrapping_add(c.x as u16)) as u16, ..c };
                let p = set_addr(p, c.ad);
                (c, p)
            },
            4 => {
                let t225 = c.ad.wrapping_add(1);
                let p = set_addr(p, t225);
                let c = M6502View { ad: (pins_data(p) as u16) as u16, ..c };
                (c, p)
            },
            5 => {
                let c = M6502View { pc: (((pins_data(p) as u16)<<8)|c.ad) as u16, ..c };
                let p = set_addr(p, c.pc) | M6502_SYNC;
                (c, p)
            },
            _ => (c, p),
        },
        0x7d => match c.ir_step {
            0 => {
                let p = set_addr(p, c.pc);
                let c = M6502View { pc: (c.pc.wrapping_add(1)) as u16, ..c };
                (c, p)
            },
            1 => {
                let p = set_addr(p, c.pc);
                let c = M6502View { pc: (c.pc.wrapping_add(1)) as u16, ..c };
                let c = M6502View { ad: (pins_data(p) as u16) as u16, ..c };
                (c, p)
            },
            2 => {
                let c = M6502View { ad: (c.ad | ((pins_data(p) as u16)<<8)) as u16, ..c };
                let t226 = (c.ad&0xFF00)|((c.ad.wrapping_add(c.x as u16))&0xFF);
                let p = set_addr(p, t226);
                let v = (c.ad>>8).wrapping_sub(c.ad.wrapping_add(c.x as u16)>>8);
                let c = M6502View { ir_step: (c.ir_step + ((!v as u8) & 1)) as u8, ..c };
                (c, p)
            },
            3 => {
                let t227 = c.ad.wrapping_add(c.x as u16);
                let p = set_addr(p, t227);
                (c, p)
            },
            4 => {
                let t228 = pins_data(p);
                let r28 = if c.flags & FLAG_D != 0 { adc_decimal(c.a, t228, c.flags) } else { adc_binary(c.a, t228, c.flags) };
                let c = M6502View { a: r28.0, flags: r28.1, ..c };
                let p = set_addr(p, c.pc) | M6502_SYNC;
                (c, p)
            },
            _ => (c, p),
        },
        0x7e => match c.ir_step {
            0 => {
                let p = set_addr(p, c.pc);
                let c = M6502View { pc: (c.pc.wrapping_add(1)) as u16, ..c };
                (c, p)
            },
            1 => {
                let p = set_addr(p, c.pc);
                let c = M6502View { pc: (c.pc.wrapping_add(1)) as u16, ..c };
                let c = M6502View { ad: (pins_data(p) as u16) as u16, ..c };
                (c, p)
            },
            2 => {
                let c = M6502View { ad: (c.ad | ((pins_data(p) as u16)<<8)) as u16, ..c };
                let t229 = (c.ad&0xFF00)|((c.ad.wrapping_add(c.x as u16))&0xFF);
                let p = set_addr(p, t229);
                (c, p)
            },
            3 => {
                let t230 = c.ad.wrapping_add(c.x as u16);
                let p = set_addr(p, t230);
                (c, p)
            },
            4 => {
                let c = M6502View { ad: (pins_data(p) as u16) as u16, ..c };
                let p = p & !M6502_RW;
                (c, p)
            },
            5 => {
                let t231 = c.ad as u8;
                let r29 = ror_spec(t231, c.flags);
                let t232 = r29.0;
                let c = M6502View { flags: r29.1, ..c };
                let p = set_data(p, t232);
                let p = p & !M6502_RW;
                (c, p)
            },
            6 => {
                let p = set_addr(p, c.pc) | M6502_SYNC;
                (c, p)
            },
            _ => (c, p),
        },
        0x7f => match c.ir_step {
            0 => {
                let p = set_addr(p, c.pc);
                let c = M6502View { pc: (c.pc.wrapping_add(1)) as u16, ..c };
                (c, p)
            },
            1 => {
                let t233 = pins_data(p) as u16;
                let p = set_addr(p, t233);
                (c, p)
            },
            2 => {
                let p = set_addr(p, c.pc);
                let c = M6502View { ad: ((pins_data(p) & 0x80) as u16) as u16, ..c };
                (c, p)
            },
            3 => {
                let p = set_addr(p, c.pc);
                let (c, p) = if c.ad != 0 {
                    let c = M6502View { ad: (c.pc.wrapping_add(1)) as u16, ..c };
                    let c = M6502View { ir_step: (c.ir_step + (2)) as u8, ..c };
                    (c, p)
                } else {
                    (c, p)
                };
                (c, p)
            },
            4 => {
                let p = set_addr(p, c.pc);
                let c = M6502View { ad: (c.pc.wrapping_add(1).wrapping_add(pins_data(p) as u16) as u16) as u16, ..c };
                (c, p)
            },
            5 => {
                let t234 = (c.pc&0xFF00)|(c.ad&0x00FF);
                let p = set_addr(p, t234);
                let (c, p) = if (c.ad&0xFF00)==(c.pc&0xFF00) {
                    let c = M6502View { pc: (c.ad) as u16, ..c };
                    let c = M6502View { irq_pip: (c.irq_pip >> 1) as u16, ..c };
                    let c = M6502View { nmi_pip: (c.nmi_pip >> 1) as u16, ..c };
                    let p = set_addr(p, c.pc) | M6502_SYNC;
                    (c, p)
                } else {
                    (c, p)
                };
                (c, p)
            },
            6 => {
                let c = M6502View { pc: (c.ad) as u16, ..c };
                let p = set_addr(p, c.pc) | M6502_SYNC;
                (c, p)
            },
            _ => (c, p),
        },
        _ => (c, p),
    }
}

/// What the step `c.ir_step` of opcodes 0x80 to 0x8f does to the core `c` and the
/// pins `p` it drives (the steps of the 65C02's cycle tables).
pub open spec fn step_spec_8(c: M6502View, p: u32) -> (M6502View, u32) {
    match c.ir {
        0x80 => match c.ir_step {
            0 => {
                let p = set_addr(p, c.pc);
                let c = M6502View { pc: (c.pc.wrapping_add(1)) as u16, ..c };
                (c, p)
            },
            1 => {
                let p = set_addr(p, c.pc);
                let c = M6502View { ad: (c.pc.wrapping_add((pins_data(p) as i8) as u16)) as u16, ..c };
                (c, p)
            },
            2 => {
                let c = M6502View { pc: (c.ad) as u16, ..c };
                let p = set_addr(p, c.pc) | M6502_SYNC;
                (c, p)
            },
            _ => (c, p),
        },
        0x81 => match c.ir_step {
            0 => {
                let p = set_addr(p, c.pc);
                let c = M6502View { pc: (c.pc.wrapping_add(1)) as u16, ..c };
                (c, p)
            },
            1 => {
                let c = M6502View { ad: (pins_data(p) as u16) as u16, ..c };
                let p = set_addr(p, c.ad);
                (c, p)
            },
            2 => {
                let c = M6502View { ad: ((c.ad.wrapping_add(c.x as u16))&0xFF) as u16, ..c };
                let p = set_addr(p, c.ad);
                (c, p)
            },
            3 => {
                let t235 = (c.ad.wrapping_add(1))&0xFF;
                let p = set_addr(p, t235);
                let c = M6502View { ad: (pins_data(p) as u16) as u16, ..c };
                (c, p)
            },
            4 => {
                let t236 = ((pins_data(p) as u16)<<8)|c.ad;
                let p = set_addr(p, t236);
                let p = set_data(p, c.a);
                let p = p & !M6502_RW;
                (c, p)
            },
            5 => {
                let p = set_addr(p, c.pc) | M6502_SYNC;
                (c, p)
            },
            _ => (c, p),
        },
        0x82 => match c.ir_step {
            0 => {
                let p = set_addr(p, c.pc);
                let c = M6502View { pc: (c.pc.wrapping_add(1)) as u16, ..c };
                (c, p)
            },
            1 => {
                let p = set_addr(p, c.pc) | M6502_SYNC;
                (c, p)
            },
            _ => (c, p),
        },
        0x83 => match c.ir_step {
            0 => {
                let p = set_addr(p, c.pc) | M6502_SYNC;
                (c, p)
            },
            _ => (c, p),
        },
        0x84 => match c.ir_step {
            0 => {
                let p = set_addr(p, c.pc);
                let c = M6502View { pc: (c.pc.wrapping_add(1)) as u16, ..c };
                (c, p)
            },
            1 => {
                let t237 = pins_data(p) as u16;
                let p = set_addr(p, t237);
                let p = set_data(p, c.y);
                let p = p & !M6502_RW;
                (c, p)
            },
            2 => {
                let p = set_addr(p, c.pc) | M6502_SYNC;
                (c, p)
            },
            _ => (c, p),
        },
        0x85 => match c.ir_step {
            0 => {
                let p = set_addr(p, c.pc);
                let c = M6502View { pc: (c.pc.wrapping_add(1)) as u16, ..c };
                (c, p)
            },
            1 => {
                let t238 = pins_data(p) as u16;
                let p = set_addr(p, t238);
                let p = set_data(p, c.a);
                let p = p & !M6502_RW;
                (c, p)
            },
            2 => {
                let p = set_addr(p, c.pc) | M6502_SYNC;
                (c, p)
            },
            _ => (c, p),
        },
        0x86 => match c.ir_step {
            0 => {
                let p = set_addr(p, c.pc);
                let c = M6502View { pc: (c.pc.wrapping_add(1)) as u16, ..c };
                (c, p)
            },
            1 => {
                let t239 = pins_data(p) as u16;
                let p = set_addr(p, t239);
                let p = set_data(p, c.x);
                let p = p & !M6502_RW;
                (c, p)
            },
            2 => {
                let p = set_addr(p, c.pc) | M6502_SYNC;
                (c, p)
            },
            _ => (c, p),
        },
        0x87 => match c.ir_step {
            0 => {
                let p = set_addr(p, c.pc);
                let c = M6502View { pc: (c.pc.wrapping_add(1)) as u16, ..c };
                (c, p)
            },
            1 => {
                let t240 = pins_data(p) as u16;
                let p = set_addr(p, t240);
                (c, p)
            },
            2 => {
                let c = M6502View { ad: (pins_data(p) as u16 | 0x1) as u16, ..c };
                (c, p)
            },
            3 => {
                let t241 = c.ad as u8;
                let p = set_data(p, t241);
                let p = p & !M6502_RW;
                (c, p)
            },
            4 => {
                let p = set_addr(p, c.pc) | M6502_SYNC;
                (c, p)
            },
            _ => (c, p),
        },
        0x88 => match c.ir_step {
            0 => {
                let p = set_addr(p, c.pc);
                (c, p)
            },
            1 => {
                let c = M6502View { y: (c.y.wrapping_sub(1)) as u8, ..c };
                let t242 = c.y;
                let c = M6502View { flags: nz_flags(c.flags, t242), ..c };
                let p = set_addr(p, c.pc) | M6502_SYNC;
                (c, p)
            },
            _ => (c, p),
        },
        0x89 => match c.ir_step {
            0 => {
                let p = set_addr(p, c.pc);
                let c = M6502View { pc: (c.pc.wrapping_add(1)) as u16, ..c };
                (c, p)
            },
            1 => {
                let p = set_addr(p, c.pc);
                let c = M6502View { ad: (pins_data(p) as u16) as u16, ..c };
                (c, p)
            },
            2 => {
                let t243 = c.ad as u8;
                let c = M6502View { flags: bit_flags(c.a, t243, c.flags), ..c };
                let p = set_addr(p, c.pc) | M6502_SYNC;
                (c, p)
            },
            _ => (c, p),
        },
        0x8a => match c.ir_step {
            0 => {
                let p = set_addr(p, c.pc);
                (c, p)
            },
            1 => {
                let c = M6502View { a: (c.x) as u8, ..c };
                let t244 = c.a;
                let c = M6502View { flags: nz_flags(c.flags, t244), ..c };
                let p = set_addr(p, c.pc) | M6502_SYNC;
                (c, p)
            },
            _ => (c, p),
        },
        0x8b => match c.ir_step {
            0 => {
                let p = set_addr(p, c.pc) | M6502_SYNC;
                (c, p)
            },
            _ => (c, p),
        },
        0x8c => match c.ir_step {
            0 => {
                let p = set_addr(p, c.pc);
                let c = M6502View { pc: (c.pc.wrapping_add(1)) as u16, ..c };
                (c, p)
            },
            1 => {
                let p = set_addr(p, c.pc);
                let c = M6502View { pc: (c.pc.wrapping_add(1)) as u16, ..c };
                let c = M6502View { ad: (pins_data(p) as u16) as u16, ..c };
                (c, p)
            },
            2 => {
                let t245 = ((pins_data(p) as u16)<<8)|c.ad;
                let p = set_addr(p, t245);
                let p = set_data(p, c.y);
                let p = p & !M6502_RW;
                (c, p)
            },
            3 => {
                let p = set_addr(p, c.pc) | M6502_SYNC;
                (c, p)
            },
            _ => (c, p),
        },
        0x8d => match c.ir_step {
            0 => {
                let p = set_addr(p, c.pc);
                let c = M6502View { pc: (c.pc.wrapping_add(1)) as u16, ..c };
                (c, p)
            },
            1 => {
                let p = set_addr(p, c.pc);
                let c = M6502View { pc: (c.pc.wrapping_add(1)) as u16, ..c };
                let c = M6502View { ad: (pins_data(p) as u16) as u16, ..c };
                (c, p)
            },
            2 => {
                let t246 = ((pins_data(p) as u16)<<8)|c.ad;
                let p = set_addr(p, t246);
                let p = set_data(p, c.a);
                let p = p & !M6502_RW;
                (c, p)
            },
            3 => {
                let p = set_addr(p, c.pc) | M6502_SYNC;
                (c, p)
            },
            _ => (c, p),
        },
        0x8e => match c.ir_step {
            0 => {
                let p = set_addr(p, c.pc);
                let c = M6502View { pc: (c.pc.wrapping_add(1)) as u16, ..c };
                (c, p)
            },
            1 => {
                let p = set_addr(p, c.pc);
                let c = M6502View { pc: (c.pc.wrapping_add(1)) as u16, ..c };
                let c = M6502View { ad: (pins_data(p) as u16) as u16, ..c };
                (c, p)
            },
            2 => {
                let t247 = ((pins_data(p) as u16)<<8)|c.ad;
                let p = set_addr(p, t247);
                let p = set_data(p, c.x);
                let p = p & !M6502_RW;
                (c, p)
            },
            3 => {
                let p = set_addr(p, c.pc) | M6502_SYNC;
                (c, p)
            },
            _ => (c, p),
        },
        0x8f => match c.ir_step {
            0 => {
                let p = set_addr(p, c.pc);
                let c = M6502View { pc: (c.pc.wrapping_add(1)) as u16, ..c };
                (c, p)
            },
            1 => {
                let t248 = pins_data(p) as u16;
                let p = set_addr(p, t248);
                (c, p)
            },
            2 => {
                let p = set_addr(p, c.pc);
                let c = M6502View { ad: ((pins_data(p) & 0x1) as u16) as u16, ..c };
                (c, p)
            },
            3 => {
                let p = set_addr(p, c.pc);
                let (c, p) = if c.ad == 0 {
                    let c = M6502View { ad: (c.pc.wrapping_add(1)) as u16, ..c };
                    let c = M6502View { ir_step: (c.ir_step + (2)) as u8, ..c };
                    (c, p)
                } else {
                    (c, p)
                };
                (c, p)
            },
            4 => {
                let p = set_addr(p, c.pc);
                let c = M6502View { ad: (c.pc.wrapping_add(1).wrapping_add(pins_data(p) as u16) as u16) as u16, ..c };
                (c, p)
            },
            5 => {
                let t249 = (c.pc&0xFF00)|(c.ad&0x00FF);
                let p = set_addr(p, t249);
                let (c, p) = if (c.ad&0xFF00)==(c.pc&0xFF00) {
                    let c = M6502View { pc: (c.ad) as u16, ..c };
                    let c = M6502View { irq_pip: (c.irq_pip >> 1) as u16, ..c };
                    let c = M6502View { nmi_pip: (c.nmi_pip >> 1) as u16, ..c };
                    let p = set_addr(p, c.pc) | M6502_SYNC;
                    (c, p)
                } else {
                    (c, p)
                };
                (c, p)
            },
            6 => {
                let c = M6502View { pc: (c.ad) as u16, ..c };
                let p = set_addr(p, c.pc) | M6502_SYNC;
                (c, p)
            },
            _ => (c, p),
        },
        _ => (c, p),
    }
}

/// What the step `c.ir_step` of opcodes 0x90 to 0x9f does to the core `c` and the
/// pins `p` it drives (the steps of the 65C02's cycle tables).
pub open spec fn step_spec_9(c: M6502View, p: u32) -> (M6502View, u32) {
    match c.ir {
        0x90 => match c.ir_step {
            0 => {
                let p = set_addr(p, c.pc);
                let c = M6502View { pc: (c.pc.wrapping_add(1)) as u16, ..c };
                (c, p)
            },
            1 => {
                let p = set_addr(p, c.pc);
                let c = M6502View { ad: (c.pc.wrapping_add((pins_data(p) as i8) as u16)) as u16, ..c };
                let (c, p) = if (c.flags & FLAG_C) != 0 {
                    let p = set_addr(p, c.pc) | M6502_SYNC;
                    (c, p)
                } else {
                    (c, p)
                };
                (c, p)
            },
            2 => {
                let t250 = (c.pc&0xFF00)|(c.ad&0x00FF);
                let p = set_addr(p, t250);
                let (c, p) = if (c.ad&0xFF00)==(c.pc&0xFF00) {
                    let c = M6502View { pc: (c.ad) as u16, ..c };
                    let c = M6502View { irq_pip: (c.irq_pip >> 1) as u16, ..c };
                    let c = M6502View { nmi_pip: (c.nmi_pip >> 1) as u16, ..c };
                    let p = set_addr(p, c.pc) | M6502_SYNC;
                    (c, p)
                } else {
                    (c, p)
                };
                (c, p)
            },
            3 => {
                let c = M6502View { pc: (c.ad) as u16, ..c };
                let p = set_addr(p, c.pc) | M6502_SYNC;
                (c, p)
            },
            _ => (c, p),
        },
        0x91 => match c.ir_step {
            0 => {
                let p = set_addr(p, c.pc);
                let c = M6502View { pc: (c.pc.wrapping_add(1)) as u16, ..c };
                (c, p)
            },
            1 => {
                let c = M6502View { ad: (pins_data(p) as u16) as u16, ..c };
                let p = set_addr(p, c.ad);
                (c, p)
            },
            2 => {
                let t251 = (c.ad.wrapping_add(1))&0xFF;
                let p = set_addr(p, t251);
                let c = M6502View { ad: (pins_data(p) as u16) as u16, ..c };
                (c, p)
            },
            3 => {
                let c = M6502View { ad: (c.ad | ((pins_data(p) as u16)<<8)) as u16, ..c };
                let t252 = (c.ad&0xFF00)|((c.ad.wrapping_add(c.y as u16))&0xFF);
                let p = set_addr(p, t252);
                (c, p)
            },
            4 => {
                let t253 = c.ad.wrapping_add(c.y as u16);
                let p = set_addr(p, t253);
                let p = set_data(p, c.a);
                let p = p & !M6502_RW;
                (c, p)
            },
            5 => {
                let p = set_addr(p, c.pc) | M6502_SYNC;
                (c, p)
            },
            _ => (c, p),
        },
        0x92 => match c.ir_step {
            0 => {
                let p = set_addr(p, c.pc);
                let c = M6502View { pc: (c.pc.wrapping_add(1)) as u16, ..c };
                (c, p)
            },
            1 => {
                let c = M6502View { ad: (pins_data(p) as u16) as u16, ..c };
                let p = set_addr(p, c.ad);
                (c, p)
            },
            2 => {
                let t254 = (c.ad.wrapping_add(1))&0xFF;
                let p = set_addr(p, t254);
                let c = M6502View { ad: (pins_data(p) as u16) as u16, ..c };
                (c, p)
            },
            3 => {
                let c = M6502View { ad: (c.ad | ((pins_data(p) as u16)<<8)) as u16, ..c };
                let p = set_addr(p, c.ad);
                let p = set_data(p, c.a);
                let p = p & !M6502_RW;
                (c, p)
            },
            4 => {
                let p = set_addr(p, c.pc) | M6502_SYNC;
                (c, p)
            },
            _ => (c, p),
        },
        0x93 => match c.ir_step {
            0 => {
                let p = set_addr(p, c.pc) | M6502_SYNC;
                (c, p)
            },
            _ => (c, p),
        },
        0x94 => match c.ir_step {
            0 => {
                let p = set_addr(p, c.pc);
                let c = M6502View { pc: (c.pc.wrapping_add(1)) as u16, ..c };
                (c, p)
            },
            1 => {
                let c = M6502View { ad: (pins_data(p) as u16) as u16, ..c };
                let p = set_addr(p, c.ad);
                (c, p)
            },
            2 => {
                let t255 = (c.ad.wrapping_add(c.x as u16))&0x00FF;
                let p = set_addr(p, t255);
                let p = set_data(p, c.y);
                let p = p & !M6502_RW;
                (c, p)
            },
            3 => {
                let p = set_addr(p, c.pc) | M6502_SYNC;
                (c, p)
            },
            _ => (c, p),
        },
        0x95 => match c.ir_step {
            0 => {
                let p = set_addr(p, c.pc);
                let c = M6502View { pc: (c.pc.wrapping_add(1)) as u16, ..c };
                (c, p)
            },
            1 => {
                let c = M6502View { ad: (pins_data(p) as u16) as u16, ..c };
                let p = set_addr(p, c.ad);
                (c, p)
            },
            2 => {
                let t256 = (c.ad.wrapping_add(c.x as u16))&0x00FF;
                let p = set_addr(p, t256);
                let p = set_data(p, c.a);
                let p = p & !M6502_RW;
                (c, p)
            },
            3 => {
                let p = set_addr(p, c.pc) | M6502_SYNC;
                (c, p)
            },
            _ => (c, p),
        },
        0x96 => match c.ir_step {
            0 => {
                let p = set_addr(p, c.pc);
                let c = M6502View { pc: (c.pc.wrapping_add(1)) as u16, ..c };
                (c, p)
            },
            1 => {
                let c = M6502View { ad: (pins_data(p) as u16) as u16, ..c };
                let p = set_addr(p, c.ad);
                (c, p)
            },
            2 => {
                let t257 = (c.ad.wrapping_add(c.y as u16))&0x00FF;
                let p = set_addr(p, t257);
                let p = set_data(p, c.x);
                let p = p & !M6502_RW;
                (c, p)
            },
            3 => {
                let p = set_addr(p, c.pc) | M6502_SYNC;
                (c, p)
            },
            _ => (c, p),
        },
        0x97 => match c.ir_step {
            0 => {
                let p = set_addr(p, c.pc);
                let c = M6502View { pc: (c.pc.wrapping_add(1)) as u16, ..c };
                (c, p)
            },
            1 => {
                let t258 = pins_data(p) as u16;
                let p = set_addr(p, t258);
                (c, p)
            },
            2 => {
                let c = M6502View { ad: (pins_data(p) as u16 | 0x2) as u16, ..c };
                (c, p)
            },
            3 => {
                let t259 = c.ad as u8;
                let p = set_data(p, t259);
                let p = p & !M6502_RW;
                (c, p)
            },
            4 => {
                let p = set_addr(p, c.pc) | M6502_SYNC;
                (c, p)
            },
            _ => (c, p),
        },
        0x98 => match c.ir_step {
            0 => {
                let p = set_addr(p, c.pc);
                (c, p)
            },
            1 => {
                let c = M6502View { a: (c.y) as u8, ..c };
                let t260 = c.a;
                let c = M6502View { flags: nz_flags(c.flags, t260), ..c };
                let p = set_addr(p, c.pc) | M6502_SYNC;
                (c, p)
            },
            _ => (c, p),
        },
        0x99 => match c.ir_step {
            0 => {
                let p = set_addr(p, c.pc);
                let c = M6502View { pc: (c.pc.wrapping_add(1)) as u16, ..c };
                (c, p)
            },
            1 => {
                let p = set_addr(p, c.pc);
                let c = M6502View { pc: (c.pc.wrapping_add(1)) as u16, ..c };
                let c = M6502View { ad: (pins_data(p) as u16) as u16, ..c };
                (c, p)
            },
            2 => {
                let c = M6502View { ad: (c.ad | ((pins_data(p) as u16)<<8)) as u16, ..c };
                let t261 = (c.ad&0xFF00)|((c.ad.wrapping_add(c.y as u16))&0xFF);
                let p = set_addr(p, t261);
                (c, p)
            },
            3 => {
                let t262 = c.ad.wrapping_add(c.y as u16);
                let p = set_addr(p, t262);
                let p = set_data(p, c.a);
                let p = p & !M6502_RW;
                (c, p)
            },
            4 => {
                let p = set_addr(p, c.pc) | M6502_SYNC;
                (c, p)
            },
            _ => (c, p),
        },
        0x9a => match c.ir_step {
            0 => {
                let p = set_addr(p, c.pc);
                (c, p)
            },
            1 => {
                let c = M6502View { s: (c.x) as u8, ..c };
                let p = set_addr(p, c.pc) | M6502_SYNC;
                (c, p)
            },
            _ => (c, p),
        },
        0x9b => match c.ir_step {
            0 => {
                let p = set_addr(p, c.pc) | M6502_SYNC;
                (c, p)
            },
            _ => (c, p),
        },
        0x9c => match c.ir_step {
            0 => {
                let p = set_addr(p, c.pc);
                let c = M6502View { pc: (c.pc.wrapping_add(1)) as u16, ..c };
                (c, p)
            },
            1 => {
                let p = set_addr(p, c.pc);
                let c = M6502View { pc: (c.pc.wrapping_add(1)) as u16, ..c };
                let c = M6502View { ad: (pins_data(p) as u16) as u16, ..c };
                (c, p)
            },
            2 => {
                let t263 = ((pins_data(p) as u16)<<8)|c.ad;
                let p = set_addr(p, t263);
                let p = set_data(p, 0);
                let p = p & !M6502_RW;
                (c, p)
            },
            3 => {
                let p = set_addr(p, c.pc) | M6502_SYNC;
                (c, p)
            },
            _ => (c, p),
        },
        0x9d => match c.ir_step {
            0 => {
                let p = set_addr(p, c.pc);
                let c = M6502View { pc: (c.pc.wrapping_add(1)) as u16, ..c };
                (c, p)
            },
            1 => {
                let p = set_addr(p, c.pc);
                let c = M6502View { pc: (c.pc.wrapping_add(1)) as u16, ..c };
                let c = M6502View { ad: (pins_data(p) as u16) as u16, ..c };
                (c, p)
            },
            2 => {
                let c = M6502View { ad: (c.ad | ((pins_data(p) as u16)<<8)) as u16, ..c };
                let t264 = (c.ad&0xFF00)|((c.ad.wrapping_add(c.x as u16))&0xFF);
                let p = set_addr(p, t264);
                (c, p)
            },
            3 => {
                let t265 = c.ad.wrapping_add(c.x as u16);
                let p = set_addr(p, t265);
                let p = set_data(p, c.a);
                let p = p & !M6502_RW;
                (c, p)
            },
            4 => {
                let p = set_addr(p, c.pc) | M6502_SYNC;
                (c, p)
            },
            _ => (c, p),
        },
        0x9e => match c.ir_step {
            0 => {
                let p = set_addr(p, c.pc);
                let c = M6502View { pc: (c.pc.wrapping_add(1)) as u16, ..c };
                (c, p)
            },
            1 => {
                let p = set_addr(p, c.pc);
                let c = M6502View { pc: (c.pc.wrapping_add(1)) as u16, ..c };
                let c = M6502View { ad: (pins_data(p) as u16) as u16, ..c };
                (c, p)
            },
            2 => {
                let c = M6502View { ad: (c.ad | ((pins_data(p) as u16)<<8)) as u16, ..c };
                let t266 = (c.ad&0xFF00)|((c.ad.wrapping_add(c.x as u16))&0xFF);
                let p = set_addr(p, t266);
                (c, p)
            },
            3 => {
                let t267 = c.ad.wrapping_add(c.x as u16);
                let p = set_addr(p, t267);
                let p = set_data(p, 0);
                let p = p & !M6502_RW;
                (c, p)
            },
            4 => {
                let p = set_addr(p, c.pc) | M6502_SYNC;
                (c, p)
            },
            _ => (c, p),
        },
        0x9f => match c.ir_step {
            0 => {
                let p = set_addr(p, c.pc);
                let c = M6502View { pc: (c.pc.wrapping_add(1)) as u16, ..c };
                (c, p)
            },
            1 => {
                let t268 = pins_data(p) as u16;
                let p = set_addr(p, t268);
                (c, p)
            },
            2 => {
                let p = set_addr(p, c.pc);
                let c = M6502View { ad: ((pins_data(p) & 0x2) as u16) as u16, ..c };
                (c, p)
            },
            3 => {
                let p = set_addr(p, c.pc);
                let (c, p) = if c.ad == 0 {
                    let c = M6502View { ad: (c.pc.wrapping_add(1)) as u16, ..c };
                    let c = M6502View { ir_step: (c.ir_step + (2)) as u8, ..c };
                    (c, p)
                } else {
                    (c, p)
                };
                (c, p)
            },
            4 => {
                let p = set_addr(p, c.pc);
                let c = M6502View { ad: (c.pc.wrapping_add(1).wrapping_add(pins_data(p) as u16) as u16) as u16, ..c };
                (c, p)
            },
            5 => {
                let t269 = (c.pc&0xFF00)|(c.ad&0x00FF);
                let p = set_addr(p, t269);
                let (c, p) = if (c.ad&0xFF00)==(c.pc&0xFF00) {
                    let c = M6502View { pc: (c.ad) as u16, ..c };
                    let c = M6502View { irq_pip: (c.irq_pip >> 1) as u16, ..c };
                    let c = M6502View { nmi_pip: (c.nmi_pip >> 1) as u16, ..c };
                    let p = set_addr(p, c.pc) | M6502_SYNC;
                    (c, p)
                } else {
                    (c, p)
                };
                (c, p)
            },
            6 => {
                let c = M6502View { pc: (c.ad) as u16, ..c };
                let p = set_addr(p, c.pc) | M6502_SYNC;
                (c, p)
            },
            _ => (c, p),
        },
        _ => (c, p),
    }
}

/// What the step `c.ir_step` of opcodes 0xa0 to 0xaf does to the core `c` and the
/// pins `p` it drives (the steps of the 65C02's cycle tables).
pub open spec fn step_spec_a(c: M6502View, p: u32) -> (M6502View, u32) {
    match c.ir {
        0xa0 => match c.ir_step {
            0 => {
                let p = set_addr(p, c.pc);
                let c = M6502View { pc: (c.pc.wrapping_add(1)) as u16, ..c };
                (c, p)
            },
            1 => {
                let c = M6502View { y: (pins_data(p)) as u8, ..c };
                let t270 = c.y;
                let c = M6502View { flags: nz_flags(c.flags, t270), ..c };
                let p = set_addr(p, c.pc) | M6502_SYNC;
                (c, p)
            },
            _ => (c, p),
        },
        0xa1 => match c.ir_step {
            0 => {
                let p = set_addr(p, c.pc);
                let c = M6502View { pc: (c.pc.wrapping_add(1)) as u16, ..c };
                (c, p)
            },
            1 => {
                let c = M6502View { ad: (pins_data(p) as u16) as u16, ..c };
                let p = set_addr(p, c.ad);
                (c, p)
            },
            2 => {
                let c = M6502View { ad: ((c.ad.wrapping_add(c.x as u16))&0xFF) as u16, ..c };
                let p = set_addr(p, c.ad);
                (c, p)
            },
            3 => {
                let t271 = (c.ad.wrapping_add(1))&0xFF;
                let p = set_addr(p, t271);
                let c = M6502View { ad: (pins_data(p) as u16) as u16, ..c };
                (c, p)
            },
            4 => {
                let t272 = ((pins_data(p) as u16)<<8)|c.ad;
                let p = set_addr(p, t272);
                (c, p)
            },
            5 => {
                let c = M6502View { a: (pins_data(p)) as u8, ..c };
                let t273 = c.a;
                let c = M6502View { flags: nz_flags(c.flags, t273), ..c };
                let p = set_addr(p, c.pc) | M6502_SYNC;
                (c, p)
            },
            _ => (c, p),
        },
        0xa2 => match c.ir_step {
            0 => {
                let p = set_addr(p, c.pc);
                let c = M6502View { pc: (c.pc.wrapping_add(1)) as u16, ..c };
                (c, p)
            },
            1 => {
                let c = M6502View { x: (pins_data(p)) as u8, ..c };
                let t274 = c.x;
                let c = M6502View { flags: nz_flags(c.flags, t274), ..c };
                let p = set_addr(p, c.pc) | M6502_SYNC;
                (c, p)
            },
            _ => (c, p),
        },
        0xa3 => match c.ir_step {
            0 => {
                let p = set_addr(p, c.pc) | M6502_SYNC;
                (c, p)
            },
            _ => (c, p),
        },
        0xa4 => match c.ir_step {
            0 => {
                let p = set_addr(p, c.pc);
                let c = M6502View { pc: (c.pc.wrapping_add(1)) as u16, ..c };
                (c, p)
            },
            1 => {
                let t275 = pins_data(p) as u16;
                let p = set_addr(p, t275);
                (c, p)
            },
            2 => {
                let c = M6502View { y: (pins_data(p)) as u8, ..c };
                let t276 = c.y;
                let c = M6502View { flags: nz_flags(c.flags, t276), ..c };
                let p = set_addr(p, c.pc) | M6502_SYNC;
                (c, p)
            },
            _ => (c, p),
        },
        0xa5 => match c.ir_step {
            0 => {
                let p = set_addr(p, c.pc);
                let c = M6502View { pc: (c.pc.wrapping_add(1)) as u16, ..c };
                (c, p)
            },
            1 => {
                let t277 = pins_data(p) as u16;
                let p = set_addr(p, t277);
                (c, p)
            },
            2 => {
                let c = M6502View { a: (pins_data(p)) as u8, ..c };
                let t278 = c.a;
                let c = M6502View { flags: nz_flags(c.flags, t278), ..c };
                let p = set_addr(p, c.pc) | M6502_SYNC;
                (c, p)
            },
            _ => (c, p),
        },
        0xa6 => match c.ir_step {
            0 => {
                let p = set_addr(p, c.pc);
                let c = M6502View { pc: (c.pc.wrapping_add(1)) as u16, ..c };
                (c, p)
            },
            1 => {
                let t279 = pins_data(p) as u16;
                let p = set_addr(p, t279);
                (c, p)
            },
            2 => {
                let c = M6502View { x: (pins_data(p)) as u8, ..c };
                let t280 = c.x;
                let c = M6502View { flags: nz_flags(c.flags, t280), ..c };
                let p = set_addr(p, c.pc) | M6502_SYNC;
                (c, p)
            },
            _ => (c, p),
        },
        0xa7 => match c.ir_step {
            0 => {
                let p = set_addr(p, c.pc);
                let c = M6502View { pc: (c.pc.wrapping_add(1)) as u16, ..c };
                (c, p)
            },
            1 => {
                let t281 = pins_data(p) as u16;
                let p = set_addr(p, t281);
                (c, p)
            },
            2 => {
                let c = M6502View { ad: (pins_data(p) as u16 | 0x4) as u16, ..c };
                (c, p)
            },
            3 => {
                let t282 = c.ad as u8;
                let p = set_data(p, t282);
                let p = p & !M6502_RW;
                (c, p)
            },
            4 => {
                let p = set_addr(p, c.pc) | M6502_SYNC;
                (c, p)
            },
            _ => (c, p),
        },
        0xa8 => match c.ir_step {
            0 => {
                let p = set_addr(p, c.pc);
                (c, p)
            },
            1 => {
                let c = M6502View { y: (c.a) as u8, ..c };
                let t283 = c.y;
                let c = M6502View { flags: nz_flags(c.flags, t283), ..c };
                let p = set_addr(p, c.pc) | M6502_SYNC;
                (c, p)
            },
            _ => (c, p),
        },
        0xa9 => match c.ir_step {
            0 => {
                let p = set_addr(p, c.pc);
                let c = M6502View { pc: (c.pc.wrapping_add(1)) as u16, ..c };
                (c, p)
            },
            1 => {
                let c = M6502View { a: (pins_data(p)) as u8, ..c };
                let t284 = c.a;
                let c = M6502View { flags: nz_flags(c.flags, t284), ..c };
                let p = set_addr(p, c.pc) | M6502_SYNC;
                (c, p)
            },
            _ => (c, p),
        },
        0xaa => match c.ir_step {
            0 => {
                let p = set_addr(p, c.pc);
                (c, p)
            },
            1 => {
                let c = M6502View { x: (c.a) as u8, ..c };
                let t285 = c.x;
                let c = M6502View { flags: nz_flags(c.flags, t285), ..c };
                let p = set_addr(p, c.pc) | M6502_SYNC;
                (c, p)
            },
            _ => (c, p),
        },
        0xab => match c.ir_step {
            0 => {
                let p = set_addr(p, c.pc) | M6502_SYNC;
                (c, p)
            },
            _ => (c, p),
        },
        0xac => match c.ir_step {
            0 => {
                let p = set_addr(p, c.pc);
                let c = M6502View { pc: (c.pc.wrapping_add(1)) as u16, ..c };
                (c, p)
            },
            1 => {
                let p = set_addr(p, c.pc);
                let c = M6502View { pc: (c.pc.wrapping_add(1)) as u16, ..c };
                let c = M6502View { ad: (pins_data(p) as u16) as u16, ..c };
                (c, p)
            },
            2 => {
                let t286 = ((pins_data(p) as u16)<<8)|c.ad;
                let p = set_addr(p, t286);
                (c, p)
            },
            3 => {
                let c = M6502View { y: (pins_data(p)) as u8, ..c };
                let t287 = c.y;
                let c = M6502View { flags: nz_flags(c.flags, t287), ..c };
                let p = set_addr(p, c.pc) | M6502_SYNC;
                (c, p)
            },
            _ => (c, p),
        },
        0xad => match c.ir_step {
            0 => {
                let p = set_addr(p, c.pc);
                let c = M6502View { pc: (c.pc.wrapping_add(1)) as u16, ..c };
                (c, p)
            },
            1 => {
                let p = set_addr(p, c.pc);
                let c = M6502View { pc: (c.pc.wrapping_add(1)) as u16, ..c };
                let c = M6502View { ad: (pins_data(p) as u16) as u16, ..c };
                (c, p)
            },
            2 => {
                let t288 = ((pins_data(p) as u16)<<8)|c.ad;
                let p = set_addr(p, t288);
                (c, p)
            },
            3 => {
                let c = M6502View { a: (pins_data(p)) as u8, ..c };
                let t289 = c.a;
                let c = M6502View { flags: nz_flags(c.flags, t289), ..c };
                let p = set_addr(p, c.pc) | M6502_SYNC;
                (c, p)
            },
            _ => (c, p),
        },
        0xae => match c.ir_step {
            0 => {
                let p = set_addr(p, c.pc);
                let c = M6502View { pc: (c.pc.wrapping_add(1)) as u16, ..c };
                (c, p)
            },
            1 => {
                let p = set_addr(p, c.pc);
                let c = M6502View { pc: (c.pc.wrapping_add(1)) as u16, ..c };
                let c = M6502View { ad: (pins_data(p) as u16) as u16, ..c };
                (c, p)
            },
            2 => {
                let t290 = ((pins_data(p) as u16)<<8)|c.ad;
                let p = set_addr(p, t290);
                (c, p)
            },
            3 => {
                let c = M6502View { x: (pins_data(p)) as u8, ..c };
                let t291 = c.x;
                let c = M6502View { flags: nz_flags(c.flags, t291), ..c };
                let p = set_addr(p, c.pc) | M6502_SYNC;
                (c, p)
            },
            _ => (c, p),
        },
        0xaf => match c.ir_step {
            0 => {
                let p = set_addr(p, c.pc);
                let c = M6502View { pc: (c.pc.wrapping_add(1)) as u16, ..c };
                (c, p)
            },
            1 => {
                let t292 = pins_data(p) as u16;
                let p = set_addr(p, t292);
                (c, p)
            },
            2 => {
                let p = set_addr(p, c.pc);
                let c = M6502View { ad: ((pins_data(p) & 0x4) as u16) as u16, ..c };
                (c, p)
            },
            3 => {
                let p = set_addr(p, c.pc);
                let (c, p) = if c.ad == 0 {
                    let c = M6502View { ad: (c.pc.wrapping_add(1)) as u16, ..c };
                    let c = M6502View { ir_step: (c.ir_step + (2)) as u8, ..c };
                    (c, p)
                } else {
                    (c, p)
                };
                (c, p)
            },
            4 => {
                let p = set_addr(p, c.pc);
                let c = M6502View { ad: (c.pc.wrapping_add(1).wrapping_add(pins_data(p) as u16) as u16) as u16, ..c };
                (c, p)
            },
            5 => {
                let t293 = (c.pc&0xFF00)|(c.ad&0x00FF);
                let p = set_addr(p, t293);
                let (c, p) = if (c.ad&0xFF00)==(c.pc&0xFF00) {
                    let c = M6502View { pc: (c.ad) as u16, ..c };
                    let c = M6502View { irq_pip: (c.irq_pip >> 1) as u16, ..c };
                    let c = M6502View { nmi_pip: (c.nmi_pip >> 1) as u16, ..c };
                    let p = set_addr(p, c.pc) | M6502_SYNC;
                    (c, p)
                } else {
                    (c, p)
                };
                (c, p)
            },
            6 => {
                let c = M6502View { pc: (c.ad) as u16, ..c };
                let p = set_addr(p, c.pc) | M6502_SYNC;
                (c, p)
            },
            _ => (c, p),
        },
        _ => (c, p),
    }
}

/// What the step `c.ir_step` of opcodes 0xb0 to 0xbf does to the core `c` and the
/// pins `p` it drives (the steps of the 65C02's cycle tables).
pub open spec fn step_spec_b(c: M6502View, p: u32) -> (M6502View, u32) {
    match c.ir {
        0xb0 => match c.ir_step {
            0 => {
                let p = set_addr(p, c.pc);
                let c = M6502View { pc: (c.pc.wrapping_add(1)) as u16, ..c };
                (c, p)
            },
            1 => {
                let p = set_addr(p, c.pc);
                let c = M6502View { ad: (c.pc.wrapping_add((pins_data(p) as i8) as u16)) as u16, ..c };
                let (c, p) = if (c.flags & FLAG_C) == 0 {
                    let p = set_addr(p, c.pc) | M6502_SYNC;
                    (c, p)
                } else {
                    (c, p)
                };
                (c, p)
            },
            2 => {
                let t294 = (c.pc&0xFF00)|(c.ad&0x00FF);
                let p = set_addr(p, t294);
                let (c, p) = if (c.ad&0xFF00)==(c.pc&0xFF00) {
                    let c = M6502View { pc: (c.ad) as u16, ..c };
                    let c = M6502View { irq_pip: (c.irq_pip >> 1) as u16, ..c };
                    let c = M6502View { nmi_pip: (c.nmi_pip >> 1) as u16, ..c };
                    let p = set_addr(p, c.pc) | M6502_SYNC;
                    (c, p)
                } else {
                    (c, p)
                };
                (c, p)
            },
            3 => {
                let c = M6502View { pc: (c.ad) as u16, ..c };
                let p = set_addr(p, c.pc) | M6502_SYNC;
                (c, p)
            },
            _ => (c, p),
        },
        0xb1 => match c.ir_step {
            0 => {
                let p = set_addr(p, c.pc);
                let c = M6502View { pc: (c.pc.wrapping_add(1)) as u16, ..c };
                (c, p)
            },
            1 => {
                let c = M6502View { ad: (pins_data(p) as u16) as u16, ..c };
                let p = set_addr(p, c.ad);
                (c, p)
            },
            2 => {
                let t295 = (c.ad.wrapping_add(1))&0xFF;
                let p = set_addr(p, t295);
                let c = M6502View { ad: (pins_data(p) as u16) as u16, ..c };
                (c, p)
            },
            3 => {
                let c = M6502View { ad: (c.ad | ((pins_data(p) as u16)<<8)) as u16, ..c };
                let t296 = (c.ad&0xFF00)|((c.ad.wrapping_add(c.y as u16))&0xFF);
                let p = set_addr(p, t296);
                let v = (c.ad>>8).wrapping_sub(c.ad.wrapping_add(c.y as u16)>>8);
                let c = M6502View { ir_step: (c.ir_step + ((!v as u8) & 1)) as u8, ..c };
                (c, p)
            },
            4 => {
                let t297 = c.ad.wrapping_add(c.y as u16);
                let p = set_addr(p, t297);
                (c, p)
            },
            5 => {
                let c = M6502View { a: (pins_data(p)) as u8, ..c };
                let t298 = c.a;
                let c = M6502View { flags: nz_flags(c.flags, t298), ..c };
                let p = set_addr(p, c.pc) | M6502_SYNC;
                (c, p)
            },
            _ => (c, p),
        },
        0xb2 => match c.ir_step {
            0 => {
                let p = set_addr(p, c.pc);
                let c = M6502View { pc: (c.pc.wrapping_add(1)) as u16, ..c };
                (c, p)
            },
            1 => {
                let c = M6502View { ad: (pins_data(p) as u16) as u16, ..c };
                let p = set_addr(p, c.ad);
                (c, p)
            },
            2 => {
                let t299 = (c.ad.wrapping_add(1))&0xFF;
                let p = set_addr(p, t299);
                let c = M6502View { ad: (pins_data(p) as u16) as u16, ..c };
                (c, p)
            },
            3 => {
                let c = M6502View { ad: (c.ad | ((pins_data(p) as u16)<<8)) as u16, ..c };
                let p = set_addr(p, c.ad);
                (c, p)
            },
            4 => {
                let c = M6502View { a: (pins_data(p)) as u8, ..c };
                let t300 = c.a;
                let c = M6502View { flags: nz_flags(c.flags, t300), ..c };
                let p = set_addr(p, c.pc) | M6502_SYNC;
                (c, p)
            },
            _ => (c, p),
        },
        0xb3 => match c.ir_step {
            0 => {
                let p = set_addr(p, c.pc) | M6502_SYNC;
                (c, p)
            },
            _ => (c, p),
        },
        0xb4 => match c.ir_step {
            0 => {
                let p = set_addr(p, c.pc);
                let c = M6502View { pc: (c.pc.wrapping_add(1)) as u16, ..c };
                (c, p)
            },
            1 => {
                let c = M6502View { ad: (pins_data(p) as u16) as u16, ..c };
                let p = set_addr(p, c.ad);
                (c, p)
            },
            2 => {
                let t301 = (c.ad.wrapping_add(c.x as u16))&0x00FF;
                let p = set_addr(p, t301);
                (c, p)
            },
            3 => {
                let c = M6502View { y: (pins_data(p)) as u8, ..c };
                let t302 = c.y;
                let c = M6502View { flags: nz_flags(c.flags, t302), ..c };
                let p = set_addr(p, c.pc) | M6502_SYNC;
                (c, p)
            },
            _ => (c, p),
        },
        0xb5 => match c.ir_step {
            0 => {
                let p = set_addr(p, c.pc);
                let c = M6502View { pc: (c.pc.wrapping_add(1)) as u16, ..c };
                (c, p)
            },
            1 => {
                let c = M6502View { ad: (pins_data(p) as u16) as u16, ..c };
                let p = set_addr(p, c.ad);
                (c, p)
            },
            2 => {
                let t303 = (c.ad.wrapping_add(c.x as u16))&0x00FF;
                let p = set_addr(p, t303);
                (c, p)
            },
            3 => {
                let c = M6502View { a: (pins_data(p)) as u8, ..c };
                let t304 = c.a;
                let c = M6502View { flags: nz_flags(c.flags, t304), ..c };
                let p = set_addr(p, c.pc) | M6502_SYNC;
                (c, p)
            },
            _ => (c, p),
        },
        0xb6 => match c.ir_step {
            0 => {
                let p = set_addr(p, c.pc);
                let c = M6502View { pc: (c.pc.wrapping_add(1)) as u16, ..c };
                (c, p)
            },
            1 => {
                let c = M6502View { ad: (pins_data(p) as u16) as u16, ..c };
                let p = set_addr(p, c.ad);
                (c, p)
            },
            2 => {
                let t305 = (c.ad.wrapping_add(c.y as u16))&0x00FF;
                let p = set_addr(p, t305);
                (c, p)
            },
            3 => {
                let c = M6502View { x: (pins_data(p)) as u8, ..c };
                let t306 = c.x;
                let c = M6502View { flags: nz_flags(c.flags, t306), ..c };
                let p = set_addr(p, c.pc) | M6502_SYNC;
                (c, p)
            },
            _ => (c, p),
        },
        0xb7 => match c.ir_step {
            0 => {
                let p = set_addr(p, c.pc);
                let c = M6502View { pc: (c.pc.wrapping_add(1)) as u16, ..c };
                (c, p)
            },
            1 => {
                let t307 = pins_data(p) as u16;
                let p = set_addr(p, t307);
                (c, p)
            },
            2 => {
                let c = M6502View { ad: (pins_data(p) as u16 | 0x8) as u16, ..c };
                (c, p)
            },
            3 => {
                let t308 = c.ad as u8;
                let p = set_data(p, t308);
                let p = p & !M6502_RW;
                (c, p)
            },
            4 => {
                let p = set_addr(p, c.pc) | M6502_SYNC;
                (c, p)
            },
            _ => (c, p),
        },
        0xb8 => match c.ir_step {
            0 => {
                let p = set_addr(p, c.pc);
                (c, p)
            },
            1 => {
                let c = M6502View { flags: c.flags & (!FLAG_V), ..c };
                let p = set_addr(p, c.pc) | M6502_SYNC;
                (c, p)
            },
            _ => (c, p),
        },
        0xb9 => match c.ir_step {
            0 => {
                let p = set_addr(p, c.pc);
                let c = M6502View { pc: (c.pc.wrapping_add(1)) as u16, ..c };
                (c, p)
            },
            1 => {
                let p = set_addr(p, c.pc);
                let c = M6502View { pc: (c.pc.wrapping_add(1)) as u16, ..c };
                let c = M6502View { ad: (pins_data(p) as u16) as u16, ..c };
                (c, p)
            },
            2 => {
                let c = M6502View { ad: (c.ad | ((pins_data(p) as u16)<<8)) as u16, ..c };
                let t309 = (c.ad&0xFF00)|(c.ad.wrapping_add(c.y as u16) & 0xFF);
                let p = set_addr(p, t309);
                let v = (c.ad>>8).wrapping_sub(c.ad.wrapping_add(c.y as u16)>>8);
                let c = M6502View { ir_step: (c.ir_step + ((!v as u8) & 1)) as u8, ..c };
                (c, p)
            },
            3 => {
                let t310 = c.ad.wrapping_add(c.y as u16);
                let p = set_addr(p, t310);
                (c, p)
            },
            4 => {
                let c = M6502View { a: (pins_data(p)) as u8, ..c };
                let t311 = c.a;
                let c = M6502View { flags: nz_flags(c.flags, t311), ..c };
                let p = set_addr(p, c.pc) | M6502_SYNC;
                (c, p)
            },
            _ => (c, p),
        },
        0xba => match c.ir_step {
            0 => {
                let p = set_addr(p, c.pc);
                (c, p)
            },
            1 => {
                let c = M6502View { x: (c.s) as u8, ..c };
                let t312 = c.x;
                let c = M6502View { flags: nz_flags(c.flags, t312), ..c };
                let p = set_addr(p, c.pc) | M6502_SYNC;
                (c, p)
            },
            _ => (c, p),
        },
        0xbb => match c.ir_step {
            0 => {
                let p = set_addr(p, c.pc) | M6502_SYNC;
                (c, p)
            },
            _ => (c, p),
        },
        0xbc => match c.ir_step {
            0 => {
                let p = set_addr(p, c.pc);
                let c = M6502View { pc: (c.pc.wrapping_add(1)) as u16, ..c };
                (c, p)
            },
            1 => {
                let p = set_addr(p, c.pc);
                let c = M6502View { pc: (c.pc.wrapping_add(1)) as u16, ..c };
                let c = M6502View { ad: (pins_data(p) as u16) as u16, ..c };
                (c, p)
            },
            2 => {
                let c = M6502View { ad: (c.ad | ((pins_data(p) as u16)<<8)) as u16, ..c };
                let t313 = (c.ad&0xFF00)|((c.ad.wrapping_add(c.x as u16))&0xFF);
                let p = set_addr(p, t313);
                let v = (c.ad>>8).wrapping_sub(c.ad.wrapping_add(c.x as u16)>>8);
                let c = M6502View { ir_step: (c.ir_step + ((!v as u8) & 1)) as u8, ..c };
                (c, p)
            },
            3 => {
                let t314 = c.ad.wrapping_add(c.x as u16);
                let p = set_addr(p, t314);
                (c, p)
            },
            4 => {
                let c = M6502View { y: (pins_data(p)) as u8, ..c };
                let t315 = c.y;
                let c = M6502View { flags: nz_flags(c.flags, t315), ..c };
                let p = set_addr(p, c.pc) | M6502_SYNC;
                (c, p)
            },
            _ => (c, p),
        },
        0xbd => match c.ir_step {
            0 => {
                let p = set_addr(p, c.pc);
                let c = M6502View { pc: (c.pc.wrapping_add(1)) as u16, ..c };
                (c, p)
            },
            1 => {
                let p = set_addr(p, c.pc);
                let c = M6502View { pc: (c.pc.wrapping_add(1)) as u16, ..c };
                let c = M6502View { ad: (pins_data(p) as u16) as u16, ..c };
                (c, p)
            },
            2 => {
                let c = M6502View { ad: (c.ad | ((pins_data(p) as u16)<<8)) as u16, ..c };
                let t316 = (c.ad&0xFF00)|((c.ad.wrapping_add(c.x as u16))&0xFF);
                let p = set_addr(p, t316);
                let v = (c.ad>>8).wrapping_sub(c.ad.wrapping_add(c.x as u16)>>8);
                let c = M6502View { ir_step: (c.ir_step + ((!v as u8) & 1)) as u8, ..c };
                (c, p)
            },
            3 => {
                let t317 = c.ad.wrapping_add(c.x as u16);
                let p = set_addr(p, t317);
                (c, p)
            },
            4 => {
                let c = M6502View { a: (pins_data(p)) as u8, ..c };
                let t318 = c.a;
                let c = M6502View { flags: nz_flags(c.flags, t318), ..c };
                let p = set_addr(p, c.pc) | M6502_SYNC;
                (c, p)
            },
            _ => (c, p),
        },
        0xbe => match c.ir_step {
            0 => {
                let p = set_addr(p, c.pc);
                let c = M6502View { pc: (c.pc.wrapping_add(1)) as u16, ..c };
                (c, p)
            },
            1 => {
                let p = set_addr(p, c.pc);
                let c = M6502View { pc: (c.pc.wrapping_add(1)) as u16, ..c };
                let c = M6502View { ad: (pins_data(p) as u16) as u16, ..c };
                (c, p)
            },
            2 => {
                let c = M6502View { ad: (c.ad | ((pins_data(p) as u16)<<8)) as u16, ..c };
                let t319 = (c.ad&0xFF00)|((c.ad.wrapping_add(c.y as u16))&0xFF);
                let p = set_addr(p, t319);
                let v = (c.ad>>8).wrapping_sub(c.ad.wrapping_add(c.y as u16)>>8);
                let c = M6502View { ir_step: (c.ir_step + ((!v as u8) & 1)) as u8, ..c };
                (c, p)
            },
            3 => {
                let t320 = c.ad.wrapping_add(c.y as u16);
                let p = set_addr(p, t320);
                (c, p)
            },
            4 => {
                let c = M6502View { x: (pins_data(p)) as u8, ..c };
                let t321 = c.x;
                let c = M6502View { flags: nz_flags(c.flags, t321), ..c };
                let p = set_addr(p, c.pc) | M6502_SYNC;
                (c, p)
            },
            _ => (c, p),
        },
        0xbf => match c.ir_step {
            0 => {
                let p = set_addr(p, c.pc);
                let c = M6502View { pc: (c.pc.wrapping_add(1)) as u16, ..c };
                (c, p)
            },
            1 => {
                let t322 = pins_data(p) as u16;
                let p = set_addr(p, t322);
                (c, p)
            },
            2 => {
                let p = set_addr(p, c.pc);
                let c = M6502View { ad: ((pins_data(p) & 0x8) as u16) as u16, ..c };
                (c, p)
            },
            3 => {
                let p = set_addr(p, c.pc);
                let (c, p) = if c.ad == 0 {
                    let c = M6502View { ad: (c.pc.wrapping_add(1)) as u16, ..c };
                    let c = M6502View { ir_step: (c.ir_step + (2)) as u8, ..c };
                    (c, p)
                } else {
                    (c, p)
                };
                (c, p)
            },
            4 => {
                let p = set_addr(p, c.pc);
                let c = M6502View { ad: (c.pc.wrapping_add(1).wrapping_add(pins_data(p) as u16) as u16) as u16, ..c };
                (c, p)
            },
            5 => {
                let t323 = (c.pc&0xFF00)|(c.ad&0x00FF);
                let p = set_addr(p, t323);
                let (c, p) = if (c.ad&0xFF00)==(c.pc&0xFF00) {
                    let c = M6502View { pc: (c.ad) as u16, ..c };
                    let c = M6502View { irq_pip: (c.irq_pip >> 1) as u16, ..c };
                    let c = M6502View { nmi_pip: (c.nmi_pip >> 1) as u16, ..c };
                    let p = set_addr(p, c.pc) | M6502_SYNC;
                    (c, p)
                } else {
                    (c, p)
                };
                (c, p)
            },
            6 => {
                let c = M6502View { pc: (c.ad) as u16, ..c };
                let p = set_addr(p, c.pc) | M6502_SYNC;
                (c, p)
            },
            _ => (c, p),
        },
        _ => (c, p),
    }
}

/// What the step `c.ir_step` of opcodes 0xc0 to 0xcf does to the core `c` and the
/// pins `p` it drives (the steps of the 65C02's cycle tables).
pub open spec fn step_spec_c(c: M6502View, p: u32) -> (M6502View, u32) {
    match c.ir {
        0xc0 => match c.ir_step {
            0 => {
                let p = set_addr(p, c.pc);
                let c = M6502View { pc: (c.pc.wrapping_add(1)) as u16, ..c };
                (c, p)
            },
            1 => {
                let t324 = c.y;
                let t325 = pins_data(p);
                let c = M6502View { flags: compare_flags(t324, t325, c.flags), ..c };
                let p = set_addr(p, c.pc) | M6502_SYNC;
                (c, p)
            },
            _ => (c, p),
        },
        0xc1 => match c.ir_step {
            0 => {
                let p = set_addr(p, c.pc);
                let c = M6502View { pc: (c.pc.wrapping_add(1)) as u16, ..c };
                (c, p)
            },
            1 => {
                let c = M6502View { ad: (pins_data(p) as u16) as u16, ..c };
                let p = set_addr(p, c.ad);
                (c, p)
            },
            2 => {
                let c = M6502View { ad: ((c.ad.wrapping_add(c.x as u16))&0xFF) as u16, ..c };
                let p = set_addr(p, c.ad);
                (c, p)
            },
            3 => {
                let t326 = (c.ad.wrapping_add(1))&0xFF;
                let p = set_addr(p, t326);
                let c = M6502View { ad: (pins_data(p) as u16) as u16, ..c };
                (c, p)
            },
            4 => {
                let t327 = ((pins_data(p) as u16)<<8)|c.ad;
                let p = set_addr(p, t327);
                (c, p)
            },
            5 => {
                let t328 = c.a;
                let t329 = pins_data(p);
                let c = M6502View { flags: compare_flags(t328, t329, c.flags), ..c };
                let p = set_addr(p, c.pc) | M6502_SYNC;
                (c, p)
            },
            _ => (c, p),
        },
        0xc2 => match c.ir_step {
            0 => {
                let p = set_addr(p, c.pc);
                let c = M6502View { pc: (c.pc.wrapping_add(1)) as u16, ..c };
                (c, p)
            },
            1 => {
                let p = set_addr(p, c.pc) | M6502_SYNC;
                (c, p)
            },
            _ => (c, p),
        },
        0xc3 => match c.ir_step {
            0 => {
                let p = set_addr(p, c.pc) | M6502_SYNC;
                (c, p)
            },
            _ => (c, p),
        },
        0xc4 => match c.ir_step {
            0 => {
                let p = set_addr(p, c.pc);
                let c = M6502View { pc: (c.pc.wrapping_add(1)) as u16, ..c };
                (c, p)
            },
            1 => {
                let t330 = pins_data(p) as u16;
                let p = set_addr(p, t330);
                (c, p)
            },
            2 => {
                let t331 = c.y;
                let t332 = pins_data(p);
                let c = M6502View { flags: compare_flags(t331, t332, c.flags), ..c };
                let p = set_addr(p, c.pc) | M6502_SYNC;
                (c, p)
            },
            _ => (c, p),
        },
        0xc5 => match c.ir_step {
            0 => {
                let p = set_addr(p, c.pc);
                let c = M6502View { pc: (c.pc.wrapping_add(1)) as u16, ..c };
                (c, p)
            },
            1 => {
                let t333 = pins_data(p) as u16;
                let p = set_addr(p, t333);
                (c, p)
            },
            2 => {
                let t334 = c.a;
                let t335 = pins_data(p);
                let c = M6502View { flags: compare_flags(t334, t335, c.flags), ..c };
                let p = set_addr(p, c.pc) | M6502_SYNC;
                (c, p)
            },
            _ => (c, p),
        },
        0xc6 => match c.ir_step {
            0 => {
                let p = set_addr(p, c.pc);
                let c = M6502View { pc: (c.pc.wrapping_add(1)) as u16, ..c };
                (c, p)
            },
            1 => {
                let t336 = pins_data(p) as u16;
                let p = set_addr(p, t336);
                (c, p)
            },
            2 => {
                let c = M6502View { ad: (pins_data(p) as u16) as u16, ..c };
                let p = p & !M6502_RW;
                (c, p)
            },
            3 => {
                let c = M6502View { ad: (c.ad.wrapping_sub(1)) as u16, ..c };
                let t337 = c.ad as u8;
                let c = M6502View { flags: nz_flags(c.flags, t337), ..c };
                let t338 = c.ad as u8;
                let p = set_data(p, t338);
                let p = p & !M6502_RW;
                (c, p)
            },
            4 => {
                let p = set_addr(p, c.pc) | M6502_SYNC;
                (c, p)
            },
            _ => (c, p),
        },
        0xc7 => match c.ir_step {
            0 => {
                let p = set_addr(p, c.pc);
                let c = M6502View { pc: (c.pc.wrapping_add(1)) as u16, ..c };
                (c, p)
            },
            1 => {
                let t339 = pins_data(p) as u16;
                let p = set_addr(p, t339);
                (c, p)
            },
            2 => {
                let c = M6502View { ad: (pins_data(p) as u16 | 0x10) as u16, ..c };
                (c, p)
            },
            3 => {
                let t340 = c.ad as u8;
                let p = set_data(p, t340);
                let p = p & !M6502_RW;
                (c, p)
            },
            4 => {
                let p = set_addr(p, c.pc) | M6502_SYNC;
                (c, p)
            },
            _ => (c, p),
        },
        0xc8 => match c.ir_step {
            0 => {
                let p = set_addr(p, c.pc);
                (c, p)
            },
            1 => {
                let c = M6502View { y: (c.y.wrapping_add(1)) as u8, ..c };
                let t341 = c.y;
                let c = M6502View { flags: nz_flags(c.flags, t341), ..c };
                let p = set_addr(p, c.pc) | M6502_SYNC;
                (c, p)
            },
            _ => (c, p),
        },
        0xc9 => match c.ir_step {
            0 => {
                let p = set_addr(p, c.pc);
                let c = M6502View { pc: (c.pc.wrapping_add(1)) as u16, ..c };
                (c, p)
            },
            1 => {
                let t342 = c.a;
                let t343 = pins_data(p);
                let c = M6502View { flags: compare_flags(t342, t343, c.flags), ..c };
                let p = set_addr(p, c.pc) | M6502_SYNC;
                (c, p)
            },
            _ => (c, p),
        },
        0xca => match c.ir_step {
            0 => {
                let p = set_addr(p, c.pc);
                (c, p)
            },
            1 => {
                let c = M6502View { x: (c.x.wrapping_sub(1)) as u8, ..c };
                let t344 = c.x;
                let c = M6502View { flags: nz_flags(c.flags, t344), ..c };
                let p = set_addr(p, c.pc) | M6502_SYNC;
                (c, p)
            },
            _ => (c, p),
        },
        0xcb => match c.ir_step {
            0 => {
                let p = set_addr(p, c.pc) | M6502_SYNC;
                (c, p)
            },
            _ => (c, p),
        },
        0xcc => match c.ir_step {
            0 => {
                let p = set_addr(p, c.pc);
                let c = M6502View { pc: (c.pc.wrapping_add(1)) as u16, ..c };
                (c, p)
            },
            1 => {
                let p = set_addr(p, c.pc);
                let c = M6502View { pc: (c.pc.wrapping_add(1)) as u16, ..c };
                let c = M6502View { ad: (pins_data(p) as u16) as u16, ..c };
                (c, p)
            },
            2 => {
                let t345 = ((pins_data(p) as u16)<<8)|c.ad;
                let p = set_addr(p, t345);
                (c, p)
            },
            3 => {
                let t346 = c.y;
                let t347 = pins_data(p);
                let c = M6502View { flags: compare_flags(t346, t347, c.flags), ..c };
                let p = set_addr(p, c.pc) | M6502_SYNC;
                (c, p)
            },
            _ => (c, p),
        },
        0xcd => match c.ir_step {
            0 => {
                let p = set_addr(p, c.pc);
                let c = M6502View { pc: (c.pc.wrapping_add(1)) as u16, ..c };
                (c, p)
            },
            1 => {
                let p = set_addr(p, c.pc);
                let c = M6502View { pc: (c.pc.wrapping_add(1)) as u16, ..c };
                let c = M6502View { ad: (pins_data(p) as u16) as u16, ..c };
                (c, p)
            },
            2 => {
                let t348 = ((pins_data(p) as u16)<<8)|c.ad;
                let p = set_addr(p, t348);
                (c, p)
            },
            3 => {
                let t349 = c.a;
                let t350 = pins_data(p);
                let c = M6502View { flags: compare_flags(t349, t350, c.flags), ..c };
                let p = set_addr(p, c.pc) | M6502_SYNC;
                (c, p)
            },
            _ => (c, p),
        },
        0xce => match c.ir_step {
            0 => {
                let p = set_addr(p, c.pc);
                let c = M6502View { pc: (c.pc.wrapping_add(1)) as u16, ..c };
                (c, p)
            },
            1 => {
                let p = set_addr(p, c.pc);
                let c = M6502View { pc: (c.pc.wrapping_add(1)) as u16, ..c };
                let c = M6502View { ad: (pins_data(p) as u16) as u16, ..c };
                (c, p)
            },
            2 => {
                let t351 = ((pins_data(p) as u16)<<8)|c.ad;
                let p = set_addr(p, t351);
                (c, p)
            },
            3 => {
                let c = M6502View { ad: (pins_data(p) as u16) as u16, ..c };
                let p = p & !M6502_RW;
                (c, p)
            },
            4 => {
                let c = M6502View { ad: (c.ad.wrapping_sub(1)) as u16, ..c };
                let t352 = c.ad as u8;
                let c = M6502View { flags: nz_flags(c.flags, t352), ..c };
                let t353 = c.ad as u8;
                let p = set_data(p, t353);
                let p = p & !M6502_RW;
                (c, p)
            },
            5 => {
                let p = set_addr(p, c.pc) | M6502_SYNC;
                (c, p)
            },
            _ => (c, p),
        },
        0xcf => match c.ir_step {
            0 => {
                let p = set_addr(p, c.pc);
                let c = M6502View { pc: (c.pc.wrapping_add(1)) as u16, ..c };
                (c, p)
            },
            1 => {
                let t354 = pins_data(p) as u16;
                let p = set_addr(p, t354);
                (c, p)
            },
            2 => {
                let p = set_addr(p, c.pc);
                let c = M6502View { ad: ((pins_data(p) & 0x10) as u16) as u16, ..c };
                (c, p)
            },
            3 => {
                let p = set_addr(p, c.pc);
                let (c, p) = if c.ad == 0 {
                    let c = M6502View { ad: (c.pc.wrapping_add(1)) as u16, ..c };
                    let c = M6502View { ir_step: (c.ir_step + (2)) as u8, ..c };
                    (c, p)
                } else {
                    (c, p)
                };
                (c, p)
            },
            4 => {
                let p = set_addr(p, c.pc);
                let c = M6502View { ad: (c.pc.wrapping_add(1).wrapping_add(pins_data(p) as u16) as u16) as u16, ..c };
                (c, p)
            },
            5 => {
                let t355 = (c.pc&0xFF00)|(c.ad&0x00FF);
                let p = set_addr(p, t355);
                let (c, p) = if (c.ad&0xFF00)==(c.pc&0xFF00) {
                    let c = M6502View { pc: (c.ad) as u16, ..c };
                    let c = M6502View { irq_pip: (c.irq_pip >> 1) as u16, ..c };
                    let c = M6502View { nmi_pip: (c.nmi_pip >> 1) as u16, ..c };
                    let p = set_addr(p, c.pc) | M6502_SYNC;
                    (c, p)
                } else {
                    (c, p)
                };
                (c, p)
            },
            6 => {
                let c = M6502View { pc: (c.ad) as u16, ..c };
                let p = set_addr(p, c.pc) | M6502_SYNC;
                (c, p)
            },
            _ => (c, p),
        },
        _ => (c, p),
    }
}

/// What the step `c.ir_step` of opcodes 0xd0 to 0xdf does to the core `c` and the
/// pins `p` it drives (the steps of the 65C02's cycle tables).
pub open spec fn step_spec_d(c: M6502View, p: u32) -> (M6502View, u32) {
    match c.ir {
        0xd0 => match c.ir_step {
            0 => {
                let p = set_addr(p, c.pc);
                let c = M6502View { pc: (c.pc.wrapping_add(1)) as u16, ..c };
                (c, p)
            },
            1 => {
                let p = set_addr(p, c.pc);
                let c = M6502View { ad: (c.pc.wrapping_add((pins_data(p) as i8) as u16)) as u16, ..c };
                let (c, p) = if (c.flags & FLAG_Z) != 0 {
                    let p = set_addr(p, c.pc) | M6502_SYNC;
                    (c, p)
                } else {
                    (c, p)
                };
                (c, p)
            },
            2 => {
                let t356 = (c.pc&0xFF00)|(c.ad&0x00FF);
                let p = set_addr(p, t356);
                let (c, p) = if (c.ad&0xFF00)==(c.pc&0xFF00) {
                    let c = M6502View { pc: (c.ad) as u16, ..c };
                    let c = M6502View { irq_pip: (c.irq_pip >> 1) as u16, ..c };
                    let c = M6502View { nmi_pip: (c.nmi_pip >> 1) as u16, ..c };
                    let p = set_addr(p, c.pc) | M6502_SYNC;
                    (c, p)
                } else {
                    (c, p)
                };
                (c, p)
            },
            3 => {
                let c = M6502View { pc: (c.ad) as u16, ..c };
                let p = set_addr(p, c.pc) | M6502_SYNC;
                (c, p)
            },
            _ => (c, p),
        },
        0xd1 => match c.ir_step {
            0 => {
                let p = set_addr(p, c.pc);
                let c = M6502View { pc: (c.pc.wrapping_add(1)) as u16, ..c };
                (c, p)
            },
            1 => {
                let c = M6502View { ad: (pins_data(p) as u16) as u16, ..c };
                let p = set_addr(p, c.ad);
                (c, p)
            },
            2 => {
                let t357 = (c.ad.wrapping_add(1))&0xFF;
                let p = set_addr(p, t357);
                let c = M6502View { ad: (pins_data(p) as u16) as u16, ..c };
                (c, p)
            },
            3 => {
                let c = M6502View { ad: (c.ad | ((pins_data(p) as u16)<<8)) as u16, ..c };
                let t358 = (c.ad&0xFF00)|((c.ad.wrapping_add(c.y as u16))&0xFF);
                let p = set_addr(p, t358);
                let v = (c.ad>>8).wrapping_sub(c.ad.wrapping_add(c.y as u16)>>8);
                let c = M6502View { ir_step: (c.ir_step + ((!v as u8) & 1)) as u8, ..c };
                (c, p)
            },
            4 => {
                let t359 = c.ad.wrapping_add(c.y as u16);
                let p = set_addr(p, t359);
                (c, p)
            },
            5 => {
                let t360 = c.a;
                let t361 = pins_data(p);
                let c = M6502View { flags: compare_flags(t360, t361, c.flags), ..c };
                let p = set_addr(p, c.pc) | M6502_SYNC;
                (c, p)
            },
            _ => (c, p),
        },
        0xd2 => match c.ir_step {
            0 => {
                let p = set_addr(p, c.pc);
                let c = M6502View { pc: (c.pc.wrapping_add(1)) as u16, ..c };
                (c, p)
            },
            1 => {
                let c = M6502View { ad: (pins_data(p) as u16) as u16, ..c };
                let p = set_addr(p, c.ad);
                (c, p)
            },
            2 => {
                let t362 = (c.ad.wrapping_add(1))&0xFF;
                let p = set_addr(p, t362);
                let c = M6502View { ad: (pins_data(p) as u16) as u16, ..c };
                (c, p)
            },
            3 => {
                let c = M6502View { ad: (c.ad | ((pins_data(p) as u16)<<8)) as u16, ..c };
                let p = set_addr(p, c.ad);
                (c, p)
            },
            4 => {
                let t363 = c.a;
                let t364 = pins_data(p);
                let c = M6502View { flags: compare_flags(t363, t364, c.flags), ..c };
                let p = set_addr(p, c.pc) | M6502_SYNC;
                (c, p)
            },
            _ => (c, p),
        },
        0xd3 => match c.ir_step {
            0 => {
                let p = set_addr(p, c.pc) | M6502_SYNC;
                (c, p)
            },
            _ => (c, p),
        },
        0xd4 => match c.ir_step {
            0 => {
                let p = set_addr(p, c.pc);
                let c = M6502View { pc: (c.pc.wrapping_add(1)) as u16, ..c };
                (c, p)
            },
            1 => {
                let p = set_addr(p, c.pc);
                (c, p)
            },
            2 => {
                let p = set_addr(p, c.pc);
                (c, p)
            },
            3 => {
                let p = set_addr(p, c.pc) | M6502_SYNC;
                (c, p)
            },
            _ => (c, p),
        },
        0xd5 => match c.ir_step {
            0 => {
                let p = set_addr(p, c.pc);
                let c = M6502View { pc: (c.pc.wrapping_add(1)) as u16, ..c };
                (c, p)
            },
            1 => {
                let c = M6502View { ad: (pins_data(p) as u16) as u16, ..c };
                let p = set_addr(p, c.ad);
                (c, p)
            },
            2 => {
                let t365 = (c.ad.wrapping_add(c.x as u16))&0x00FF;
                let p = set_addr(p, t365);
                (c, p)
            },
            3 => {
                let t366 = c.a;
                let t367 = pins_data(p);
                let c = M6502View { flags: compare_flags(t366, t367, c.flags), ..c };
                let p = set_addr(p, c.pc) | M6502_SYNC;
                (c, p)
            },
            _ => (c, p),
        },
        0xd6 => match c.ir_step {
            0 => {
                let p = set_addr(p, c.pc);
                let c = M6502View { pc: (c.pc.wrapping_add(1)) as u16, ..c };
                (c, p)
            },
            1 => {
                let c = M6502View { ad: (pins_data(p) as u16) as u16, ..c };
                let p = set_addr(p, c.ad);
                (c, p)
            },
            2 => {
                let t368 = (c.ad.wrapping_add(c.x as u16))&0x00FF;
                let p = set_addr(p, t368);
                (c, p)
            },
            3 => {
                let c = M6502View { ad: (pins_data(p) as u16) as u16, ..c };
                let p = p & !M6502_RW;
                (c, p)
            },
            4 => {
                let c = M6502View { ad: (c.ad.wrapping_sub(1)) as u16, ..c };
                let t369 = c.ad as u8;
                let c = M6502View { flags: nz_flags(c.flags, t369), ..c };
                let t370 = c.ad as u8;
                let p = set_data(p, t370);
                let p = p & !M6502_RW;
                (c, p)
            },
            5 => {
                let p = set_addr(p, c.pc) | M6502_SYNC;
                (c, p)
            },
            _ => (c, p),
        },
        0xd7 => match c.ir_step {
            0 => {
                let p = set_addr(p, c.pc);
                let c = M6502View { pc: (c.pc.wrapping_add(1)) as u16, ..c };
                (c, p)
            },
            1 => {
                let t371 = pins_data(p) as u16;
                let p = set_addr(p, t371);
                (c, p)
            },
            2 => {
                let c = M6502View { ad: (pins_data(p) as u16 | 0x20) as u16, ..c };
                (c, p)
            },
            3 => {
                let t372 = c.ad as u8;
                let p = set_data(p, t372);
                let p = p & !M6502_RW;
                (c, p)
            },
            4 => {
                let p = set_addr(p, c.pc) | M6502_SYNC;
                (c, p)
            },
            _ => (c, p),
        },
        0xd8 => match c.ir_step {
            0 => {
                let p = set_addr(p, c.pc);
                (c, p)
            },
            1 => {
                let c = M6502View { flags: c.flags & (!FLAG_D), ..c };
                let p = set_addr(p, c.pc) | M6502_SYNC;
                (c, p)
            },
            _ => (c, p),
        },
        0xd9 => match c.ir_step {
            0 => {
                let p = set_addr(p, c.pc);
                let c = M6502View { pc: (c.pc.wrapping_add(1)) as u16, ..c };
                (c, p)
            },
            1 => {
                let p = set_addr(p, c.pc);
                let c = M6502View { pc: (c.pc.wrapping_add(1)) as u16, ..c };
                let c = M6502View { ad: (pins_data(p) as u16) as u16, ..c };
                (c, p)
            },
            2 => {
                let c = M6502View { ad: (c.ad | ((pins_data(p) as u16)<<8)) as u16, ..c };
                let t373 = (c.ad&0xFF00)|((c.ad.wrapping_add(c.y as u16))&0xFF);
                let p = set_addr(p, t373);
                let v = (c.ad>>8).wrapping_sub(c.ad.wrapping_add(c.y as u16)>>8);
                let c = M6502View { ir_step: (c.ir_step + ((!v as u8) & 1)) as u8, ..c };
                (c, p)
            },
            3 => {
                let t374 = c.ad.wrapping_add(c.y as u16);
                let p = set_addr(p, t374);
                (c, p)
            },
            4 => {
                let t375 = c.a;
                let t376 = pins_data(p);
                let c = M6502View { flags: compare_flags(t375, t376, c.flags), ..c };
                let p = set_addr(p, c.pc) | M6502_SYNC;
                (c, p)
            },
            _ => (c, p),
        },
        0xda => match c.ir_step {
            0 => {
                let p = set_addr(p, c.pc);
                (c, p)
            },
            1 => {
                let t377 = 0x0100|(c.s as u16);
                let p = set_data(set_addr(p, t377), c.x);
                let c = M6502View { s: (c.s.wrapping_sub(1)) as u8, ..c };
                let p = p & !M6502_RW;
                (c, p)
            },
            2 => {
                let p = set_addr(p, c.pc) | M6502_SYNC;
                (c, p)
            },
            _ => (c, p),
        },
        0xdb => match c.ir_step {
            0 => {
                let p = set_addr(p, c.pc) | M6502_SYNC;
                (c, p)
            },
            _ => (c, p),
        },
        0xdc => match c.ir_step {
            0 => {
                let p = set_addr(p, c.pc);
                let c = M6502View { pc: (c.pc.wrapping_add(1)) as u16, ..c };
                (c, p)
            },
            1 => {
                let p = set_addr(p, c.pc);
                let c = M6502View { pc: (c.pc.wrapping_add(1)) as u16, ..c };
                (c, p)
            },
            2 => {
                let p = set_addr(p, c.pc);
                (c, p)
            },
            3 => {
                let p = set_addr(p, c.pc) | M6502_SYNC;
                (c, p)
            },
            _ => (c, p),
        },
        0xdd => match c.ir_step {
            0 => {
                let p = set_addr(p, c.pc);
                let c = M6502View { pc: (c.pc.wrapping_add(1)) as u16, ..c };
                (c, p)
            },
            1 => {
                let p = set_addr(p, c.pc);
                let c = M6502View { pc: (c.pc.wrapping_add(1)) as u16, ..c };
                let c = M6502View { ad: (pins_data(p) as u16) as u16, ..c };
                (c, p)
            },
            2 => {
                let c = M6502View { ad: (c.ad | ((pins_data(p) as u16)<<8)) as u16, ..c };
                let t378 = (c.ad&0xFF00)|((c.ad.wrapping_add(c.x as u16))&0xFF);
                let p = set_addr(p, t378);
                let v = (c.ad>>8).wrapping_sub(c.ad.wrapping_add(c.x as u16)>>8);
                let c = M6502View { ir_step: (c.ir_step + ((!v as u8) & 1)) as u8, ..c };
                (c, p)
            },
            3 => {
                let t379 = c.ad.wrapping_add(c.x as u16);
                let p = set_addr(p, t379);
                (c, p)
            },
            4 => {
                let t380 = c.a;
                let t381 = pins_data(p);
                let c = M6502View { flags: compare_flags(t380, t381, c.flags), ..c };
                let p = set_addr(p, c.pc) | M6502_SYNC;
                (c, p)
            },
            _ => (c, p),
        },
        0xde => match c.ir_step {
            0 => {
                let p = set_addr(p, c.pc);
                let c = M6502View { pc: (c.pc.wrapping_add(1)) as u16, ..c };
                (c, p)
            },
            1 => {
                let p = set_addr(p, c.pc);
                let c = M6502View { pc: (c.pc.wrapping_add(1)) as u16, ..c };
                let c = M6502View { ad: (pins_data(p) as u16) as u16, ..c };
                (c, p)
            },
            2 => {
                let c = M6502View { ad: (c.ad | ((pins_data(p) as u16)<<8)) as u16, ..c };
                let t382 = (c.ad&0xFF00)|((c.ad.wrapping_add(c.x as u16))&0xFF);
                let p = set_addr(p, t382);
                (c, p)
            },
            3 => {
                let t383 = c.ad.wrapping_add(c.x as u16);
                let p = set_addr(p, t383);
                (c, p)
            },
            4 => {
                let c = M6502View { ad: (pins_data(p) as u16) as u16, ..c };
                let p = p & !M6502_RW;
                (c, p)
            },
            5 => {
                let c = M6502View { ad: (c.ad.wrapping_sub(1)) as u16, ..c };
                let t384 = c.ad as u8;
                let c = M6502View { flags: nz_flags(c.flags, t384), ..c };
                let t385 = c.ad as u8;
                let p = set_data(p, t385);
                let p = p & !M6502_RW;
                (c, p)
            },
            6 => {
                let p = set_addr(p, c.pc) | M6502_SYNC;
                (c, p)
            },
            _ => (c, p),
        },
        0xdf => match c.ir_step {
            0 => {
                let p = set_addr(p, c.pc);
                let c = M6502View { pc: (c.pc.wrapping_add(1)) as u16, ..c };
                (c, p)
            },
            1 => {
                let t386 = pins_data(p) as u16;
                let p = set_addr(p, t386);
                (c, p)
            },
            2 => {
                let p = set_addr(p, c.pc);
                let c = M6502View { ad: ((pins_data(p) & 0x20) as u16) as u16, ..c };
                (c, p)
            },
            3 => {
                let p = set_addr(p, c.pc);
                let (c, p) = if c.ad == 0 {
                    let c = M6502View { ad: (c.pc.wrapping_add(1)) as u16, ..c };
                    let c = M6502View { ir_step: (c.ir_step + (2)) as u8, ..c };
                    (c, p)
                } else {
                    (c, p)
                };
                (c, p)
            },
            4 => {
                let p = set_addr(p, c.pc);
                let c = M6502View { ad: (c.pc.wrapping_add(1).wrapping_add(pins_data(p) as u16) as u16) as u16, ..c };
                (c, p)
            },
            5 => {
                let t387 = (c.pc&0xFF00)|(c.ad&0x00FF);
                let p = set_addr(p, t387);
                let (c, p) = if (c.ad&0xFF00)==(c.pc&0xFF00) {
                    let c = M6502View { pc: (c.ad) as u16, ..c };
                    let c = M6502View { irq_pip: (c.irq_pip >> 1) as u16, ..c };
                    let c = M6502View { nmi_pip: (c.nmi_pip >> 1) as u16, ..c };
                    let p = set_addr(p, c.pc) | M6502_SYNC;
                    (c, p)
                } else {
                    (c, p)
                };
                (c, p)
            },
            6 => {
                let c = M6502View { pc: (c.ad) as u16, ..c };
                let p = set_addr(p, c.pc) | M6502_SYNC;
                (c, p)
            },
            _ => (c, p),
        },
        _ => (c, p),
    }
}

/// What the step `c.ir_step` of opcodes 0xe0 to 0xef does to the core `c` and the
/// pins `p` it drives (the steps of the 65C02's cycle tables).
pub open spec fn step_spec_e(c: M6502View, p: u32) -> (M6502View, u32) {
    match c.ir {
        0xe0 => match c.ir_step {
            0 => {
                let p = set_addr(p, c.pc);
                let c = M6502View { pc: (c.pc.wrapping_add(1)) as u16, ..c };
                (c, p)
            },
            1 => {
                let t388 = c.x;
                let t389 = pins_data(p);
                let c = M6502View { flags: compare_flags(t388, t389, c.flags), ..c };
                let p = set_addr(p, c.pc) | M6502_SYNC;
                (c, p)
            },
            _ => (c, p),
        },
        0xe1 => match c.ir_step {
            0 => {
                let p = set_addr(p, c.pc);
                let c = M6502View { pc: (c.pc.wrapping_add(1)) as u16, ..c };
                (c, p)
            },
            1 => {
                let c = M6502View { ad: (pins_data(p) as u16) as u16, ..c };
                let p = set_addr(p, c.ad);
                (c, p)
            },
            2 => {
                let c = M6502View { ad: ((c.ad.wrapping_add(c.x as u16))&0xFF) as u16, ..c };
                let p = set_addr(p, c.ad);
                (c, p)
            },
            3 => {
                let t390 = (c.ad.wrapping_add(1))&0xFF;
                let p = set_addr(p, t390);
                let c = M6502View { ad: (pins_data(p) as u16) as u16, ..c };
                (c, p)
            },
            4 => {
                let t391 = ((pins_data(p) as u16)<<8)|c.ad;
                let p = set_addr(p, t391);
                (c, p)
            },
            5 => {
                let t392 = pins_data(p);
                let r30 = if c.flags & FLAG_D != 0 { sbc_decimal(c.a, t392, c.flags) } else { sbc_binary(c.a, t392, c.flags) };
                let c = M6502View { a: r30.0, flags: r30.1, ..c };
                let p = set_addr(p, c.pc) | M6502_SYNC;
                (c, p)
            },
            _ => (c, p),
        },
        0xe2 => match c.ir_step {
            0 => {
                let p = set_addr(p, c.pc);
                let c = M6502View { pc: (c.pc.wrapping_add(1)) as u16, ..c };
                (c, p)
            },
            1 => {
                let p = set_addr(p, c.pc) | M6502_SYNC;
                (c, p)
            },
            _ => (c, p),
        },
        0xe3 => match c.ir_step {
            0 => {
                let p = set_addr(p, c.pc) | M6502_SYNC;
                (c, p)
            },
            _ => (c, p),
        },
        0xe4 => match c.ir_step {
            0 => {
                let p = set_addr(p, c.pc);
                let c = M6502View { pc: (c.pc.wrapping_add(1)) as u16, ..c };
                (c, p)
            },
            1 => {
                let t393 = pins_data(p) as u16;
                let p = set_addr(p, t393);
                (c, p)
            },
            2 => {
                let t394 = c.x;
                let t395 = pins_data(p);
                let c = M6502View { flags: compare_flags(t394, t395, c.flags), ..c };
                let p = set_addr(p, c.pc) | M6502_SYNC;
                (c, p)
            },
            _ => (c, p),
        },
        0xe5 => match c.ir_step {
            0 => {
                let p = set_addr(p, c.pc);
                let c = M6502View { pc: (c.pc.wrapping_add(1)) as u16, ..c };
                (c, p)
            },
            1 => {
                let t396 = pins_data(p) as u16;
                let p = set_addr(p, t396);
                (c, p)
            },
            2 => {
                let t397 = pins_data(p);
                let r31 = if c.flags & FLAG_D != 0 { sbc_decimal(c.a, t397, c.flags) } else { sbc_binary(c.a, t397, c.flags) };
                let c = M6502View { a: r31.0, flags: r31.1, ..c };
                let p = set_addr(p, c.pc) | M6502_SYNC;
                (c, p)
            },
            _ => (c, p),
        },
        0xe6 => match c.ir_step {
            0 => {
                let p = set_addr(p, c.pc);
                let c = M6502View { pc: (c.pc.wrapping_add(1)) as u16, ..c };
                (c, p)
            },
            1 => {
                let t398 = pins_data(p) as u16;
                let p = set_addr(p, t398);
                (c, p)
            },
            2 => {
                let c = M6502View { ad: (pins_data(p) as u16) as u16, ..c };
                let p = p & !M6502_RW;
                (c, p)
            },
            3 => {
                let c = M6502View { ad: (c.ad.wrapping_add(1)) as u16, ..c };
                let t399 = c.ad as u8;
                let c = M6502View { flags: nz_flags(c.flags, t399), ..c };
                let t400 = c.ad as u8;
                let p = set_data(p, t400);
                let p = p & !M6502_RW;
                (c, p)
            },
            4 => {
                let p = set_addr(p, c.pc) | M6502_SYNC;
                (c, p)
            },
            _ => (c, p),
        },
        0xe7 => match c.ir_step {
            0 => {
                let p = set_addr(p, c.pc);
                let c = M6502View { pc: (c.pc.wrapping_add(1)) as u16, ..c };
                (c, p)
            },
            1 => {
                let t401 = pins_data(p) as u16;
                let p = set_addr(p, t401);
                (c, p)
            },
            2 => {
                let c = M6502View { ad: (pins_data(p) as u16 | 0x40) as u16, ..c };
                (c, p)
            },
            3 => {
                let t402 = c.ad as u8;
                let p = set_data(p, t402);
                let p = p & !M6502_RW;
                (c, p)
            },
            4 => {
                let p = set_addr(p, c.pc) | M6502_SYNC;
                (c, p)
            },
            _ => (c, p),
        },
        0xe8 => match c.ir_step {
            0 => {
                let p = set_addr(p, c.pc);
                (c, p)
            },
            1 => {
                let c = M6502View { x: (c.x.wrapping_add(1)) as u8, ..c };
                let t403 = c.x;
                let c = M6502View { flags: nz_flags(c.flags, t403), ..c };
                let p = set_addr(p, c.pc) | M6502_SYNC;
                (c, p)
            },
            _ => (c, p),
        },
        0xe9 => match c.ir_step {
            0 => {
                let p = set_addr(p, c.pc);
                let c = M6502View { pc: (c.pc.wrapping_add(1)) as u16, ..c };
                (c, p)
            },
            1 => {
                let t404 = pins_data(p);
                let r32 = if c.flags & FLAG_D != 0 { sbc_decimal(c.a, t404, c.flags) } else { sbc_binary(c.a, t404, c.flags) };
                let c = M6502View { a: r32.0, flags: r32.1, ..c };
                let p = set_addr(p, c.pc) | M6502_SYNC;
                (c, p)
            },
            _ => (c, p),
        },
        0xea => match c.ir_step {
            0 => {
                let p = set_addr(p, c.pc);
                (c, p)
            },
            1 => {
                let p = set_addr(p, c.pc) | M6502_SYNC;
                (c, p)
            },
            _ => (c, p),
        },
        0xeb => match c.ir_step {
            0 => {
                let p = set_addr(p, c.pc) | M6502_SYNC;
                (c, p)
            },
            _ => (c, p),
        },
        0xec => match c.ir_step {
            0 => {
                let p = set_addr(p, c.pc);
                let c = M6502View { pc: (c.pc.wrapping_add(1)) as u16, ..c };
                (c, p)
            },
            1 => {
                let p = set_addr(p, c.pc);
                let c = M6502View { pc: (c.pc.wrapping_add(1)) as u16, ..c };
                let c = M6502View { ad: (pins_data(p) as u16) as u16, ..c };
                (c, p)
            },
            2 => {
                let t405 = ((pins_data(p) as u16)<<8)|c.ad;
                let p = set_addr(p, t405);
                (c, p)
            },
            3 => {
                let t406 = c.x;
                let t407 = pins_data(p);
                let c = M6502View { flags: compare_flags(t406, t407, c.flags), ..c };
                let p = set_addr(p, c.pc) | M6502_SYNC;
                (c, p)
            },
            _ => (c, p),
        },
        0xed => match c.ir_step {
            0 => {
                let p = set_addr(p, c.pc);
                let c = M6502View { pc: (c.pc.wrapping_add(1)) as u16, ..c };
                (c, p)
            },
            1 => {
                let p = set_addr(p, c.pc);
                let c = M6502View { pc: (c.pc.wrapping_add(1)) as u16, ..c };
                let c = M6502View { ad: (pins_data(p) as u16) as u16, ..c };
                (c, p)
            },
            2 => {
                let t408 = ((pins_data(p) as u16)<<8)|c.ad;
                let p = set_addr(p, t408);
                (c, p)
            },
            3 => {
                let t409 = pins_data(p);
                let r33 = if c.flags & FLAG_D != 0 { sbc_decimal(c.a, t409, c.flags) } else { sbc_binary(c.a, t409, c.flags) };
                let c = M6502View { a: r33.0, flags: r33.1, ..c };
                let p = set_addr(p, c.pc) | M6502_SYNC;
                (c, p)
            },
            _ => (c, p),
        },
        0xee => match c.ir_step {
            0 => {
                let p = set_addr(p, c.pc);
                let c = M6502View { pc: (c.pc.wrapping_add(1)) as u16, ..c };
                (c, p)
            },
            1 => {
                let p = set_addr(p, c.pc);
                let c = M6502View { pc: (c.pc.wrapping_add(1)) as u16, ..c };
                let c = M6502View { ad: (pins_data(p) as u16) as u16, ..c };
                (c, p)
            },
            2 => {
                let t410 = ((pins_data(p) as u16)<<8)|c.ad;
                let p = set_addr(p, t410);
                (c, p)
            },
            3 => {
                let c = M6502View { ad: (pins_data(p) as u16) as u16, ..c };
                let p = p & !M6502_RW;
                (c, p)
            },
            4 => {
                let c = M6502View { ad: (c.ad.wrapping_add(1)) as u16, ..c };
                let t411 = c.ad as u8;
                let c = M6502View { flags: nz_flags(c.flags, t411), ..c };
                let t412 = c.ad as u8;
                let p = set_data(p, t412);
                let p = p & !M6502_RW;
                (c, p)
            },
            5 => {
                let p = set_addr(p, c.pc) | M6502_SYNC;
                (c, p)
            },
            _ => (c, p),
        },
        0xef => match c.ir_step {
            0 => {
                let p = set_addr(p, c.pc);
                let c = M6502View { pc: (c.pc.wrapping_add(1)) as u16, ..c };
                (c, p)
            },
            1 => {
                let t413 = pins_data(p) as u16;
                let p = set_addr(p, t413);
                (c, p)
            },
            2 => {
                let p = set_addr(p, c.pc);
                let c = M6502View { ad: ((pins_data(p) & 0x40) as u16) as u16, ..c };
                (c, p)
            },
            3 => {
                let p = set_addr(p, c.pc);
                let (c, p) = if c.ad == 0 {
                    let c = M6502View { ad: (c.pc.wrapping_add(1)) as u16, ..c };
                    let c = M6502View { ir_step: (c.ir_step + (2)) as u8, ..c };
                    (c, p)
                } else {
                    (c, p)
                };
                (c, p)
            },
            4 => {
                let p = set_addr(p, c.pc);
                let c = M6502View { ad: (c.pc.wrapping_add(1).wrapping_add(pins_data(p) as u16) as u16) as u16, ..c };
                (c, p)
            },
            5 => {
                let t414 = (c.pc&0xFF00)|(c.ad&0x00FF);
                let p = set_addr(p, t414);
                let (c, p) = if (c.ad&0xFF00)==(c.pc&0xFF00) {
                    let c = M6502View { pc: (c.ad) as u16, ..c };
                    let c = M6502View { irq_pip: (c.irq_pip >> 1) as u16, ..c };
                    let c = M6502View { nmi_pip: (c.nmi_pip >> 1) as u16, ..c };
                    let p = set_addr(p, c.pc) | M6502_SYNC;
                    (c, p)
                } else {
                    (c, p)
                };
                (c, p)
            },
            6 => {
                let c = M6502View { pc: (c.ad) as u16, ..c };
                let p = set_addr(p, c.pc) | M6502_SYNC;
                (c, p)
            },
            _ => (c, p),
        },
        _ => (c, p),
    }
}

/// What the step `c.ir_step` of opcodes 0xf0 to 0xff does to the core `c` and the
/// pins `p` it drives (the steps of the 65C02's cycle tables).
pub open spec fn step_spec_f(c: M6502View, p: u32) -> (M6502View, u32) {
    match c.ir {
        0xf0 => match c.ir_step {
            0 => {
                let p = set_addr(p, c.pc);
                let c = M6502View { pc: (c.pc.wrapping_add(1)) as u16, ..c };
                (c, p)
            },
            1 => {
                let p = set_addr(p, c.pc);
                let c = M6502View { ad: (c.pc.wrapping_add((pins_data(p) as i8) as u16)) as u16, ..c };
                let (c, p) = if (c.flags & FLAG_Z) == 0 {
                    let p = set_addr(p, c.pc) | M6502_SYNC;
                    (c, p)
                } else {
                    (c, p)
                };
                (c, p)
            },
            2 => {
                let t415 = (c.pc&0xFF00)|(c.ad&0x00FF);
                let p = set_addr(p, t415);
                let (c, p) = if (c.ad&0xFF00)==(c.pc&0xFF00) {
                    let c = M6502View { pc: (c.ad) as u16, ..c };
                    let c = M6502View { irq_pip: (c.irq_pip >> 1) as u16, ..c };
                    let c = M6502View { nmi_pip: (c.nmi_pip >> 1) as u16, ..c };
                    let p = set_addr(p, c.pc) | M6502_SYNC;
                    (c, p)
                } else {
                    (c, p)
                };
                (c, p)
            },
            3 => {
                let c = M6502View { pc: (c.ad) as u16, ..c };
                let p = set_addr(p, c.pc) | M6502_SYNC;
                (c, p)
            },
            _ => (c, p),
        },
        0xf1 => match c.ir_step {
            0 => {
                let p = set_addr(p, c.pc);
                let c = M6502View { pc: (c.pc.wrapping_add(1)) as u16, ..c };
                (c, p)
            },
            1 => {
                let c = M6502View { ad: (pins_data(p) as u16) as u16, ..c };
                let p = set_addr(p, c.ad);
                (c, p)
            },
            2 => {
                let t416 = (c.ad.wrapping_add(1))&0xFF;
                let p = set_addr(p, t416);
                let c = M6502View { ad: (pins_data(p) as u16) as u16, ..c };
                (c, p)
            },
            3 => {
                let c = M6502View { ad: (c.ad | ((pins_data(p) as u16)<<8)) as u16, ..c };
                let t417 = (c.ad&0xFF00)|((c.ad.wrapping_add(c.y as u16))&0xFF);
                let p = set_addr(p, t417);
                let v = (c.ad>>8).wrapping_sub(c.ad.wrapping_add(c.y as u16)>>8);
                let c = M6502View { ir_step: (c.ir_step + ((!v as u8) & 1)) as u8, ..c };
                (c, p)
            },
            4 => {
                let t418 = c.ad.wrapping_add(c.y as u16);
                let p = set_addr(p, t418);
                (c, p)
            },
            5 => {
                let t419 = pins_data(p);
                let r34 = if c.flags & FLAG_D != 0 { sbc_decimal(c.a, t419, c.flags) } else { sbc_binary(c.a, t419, c.flags) };
                let c = M6502View { a: r34.0, flags: r34.1, ..c };
                let p = set_addr(p, c.pc) | M6502_SYNC;
                (c, p)
            },
            _ => (c, p),
        },
        0xf2 => match c.ir_step {
            0 => {
                let p = set_addr(p, c.pc);
                let c = M6502View { pc: (c.pc.wrapping_add(1)) as u16, ..c };
                (c, p)
            },
            1 => {
                let c = M6502View { ad: (pins_data(p) as u16) as u16, ..c };
                let p = set_addr(p, c.ad);
                (c, p)
            },
            2 => {
                let t420 = (c.ad.wrapping_add(1))&0xFF;
                let p = set_addr(p, t420);
                let c = M6502View { ad: (pins_data(p) as u16) as u16, ..c };
                (c, p)
            },
            3 => {
                let c = M6502View { ad: (c.ad | ((pins_data(p) as u16)<<8)) as u16, ..c };
                let p = set_addr(p, c.ad);
                (c, p)
            },
            4 => {
                let t421 = pins_data(p);
                let r35 = if c.flags & FLAG_D != 0 { sbc_decimal(c.a, t421, c.flags) } else { sbc_binary(c.a, t421, c.flags) };
                let c = M6502View { a: r35.0, flags: r35.1, ..c };
                let p = set_addr(p, c.pc) | M6502_SYNC;
                (c, p)
            },
            _ => (c, p),
        },
        0xf3 => match c.ir_step {
            0 => {
                let p = set_addr(p, c.pc) | M6502_SYNC;
                (c, p)
            },
            _ => (c, p),
        },
        0xf4 => match c.ir_step {
            0 => {
                let p = set_addr(p, c.pc);
                let c = M6502View { pc: (c.pc.wrapping_add(1)) as u16, ..c };
                (c, p)
            },
            1 => {
                let p = set_addr(p, c.pc);
                (c, p)
            },
            2 => {
                let p = set_addr(p, c.pc);
                (c, p)
            },
            3 => {
                let p = set_addr(p, c.pc) | M6502_SYNC;
                (c, p)
            },
            _ => (c, p),
        },
        0xf5 => match c.ir_step {
            0 => {
                let p = set_addr(p, c.pc);
                let c = M6502View { pc: (c.pc.wrapping_add(1)) as u16, ..c };
                (c, p)
            },
            1 => {
                let c = M6502View { ad: (pins_data(p) as u16) as u16, ..c };
                let p = set_addr(p, c.ad);
                (c, p)
            },
            2 => {
                let t422 = (c.ad.wrapping_add(c.x as u16))&0x00FF;
                let p = set_addr(p, t422);
                (c, p)
            },
            3 => {
                let t423 = pins_data(p);
                let r36 = if c.flags & FLAG_D != 0 { sbc_decimal(c.a, t423, c.flags) } else { sbc_binary(c.a, t423, c.flags) };
                let c = M6502View { a: r36.0, flags: r36.1, ..c };
                let p = set_addr(p, c.pc) | M6502_SYNC;
                (c, p)
            },
            _ => (c, p),
        },
        0xf6 => match c.ir_step {
            0 => {
                let p = set_addr(p, c.pc);
                let c = M6502View { pc: (c.pc.wrapping_add(1)) as u16, ..c };
                (c, p)
            },
            1 => {
                let c = M6502View { ad: (pins_data(p) as u16) as u16, ..c };
                let p = set_addr(p, c.ad);
                (c, p)
            },
            2 => {
                let t424 = (c.ad.wrapping_add(c.x as u16))&0x00FF;
                let p = set_addr(p, t424);
                (c, p)
            },
            3 => {
                let c = M6502View { ad: (pins_data(p) as u16) as u16, ..c };
                let p = p & !M6502_RW;
                (c, p)
            },
            4 => {
                let c = M6502View { ad: (c.ad.wrapping_add(1)) as u16, ..c };
                let t425 = c.ad as u8;
                let c = M6502View { flags: nz_flags(c.flags, t425), ..c };
                let t426 = c.ad as u8;
                let p = set_data(p, t426);
                let p = p & !M6502_RW;
                (c, p)
            },
            5 => {
                let p = set_addr(p, c.pc) | M6502_SYNC;
                (c, p)
            },
            _ => (c, p),
        },
        0xf7 => match c.ir_step {
            0 => {
                let p = set_addr(p, c.pc);
                let c = M6502View { pc: (c.pc.wrapping_add(1)) as u16, ..c };
                (c, p)
            },
            1 => {
                let t427 = pins_data(p) as u16;
                let p = set_addr(p, t427);
                (c, p)
            },
            2 => {
                let c = M6502View { ad: (pins_data(p) as u16 | 0x80) as u16, ..c };
                (c, p)
            },
            3 => {
                let t428 = c.ad as u8;
                let p = set_data(p, t428);
                let p = p & !M6502_RW;
                (c, p)
            },
            4 => {
                let p = set_addr(p, c.pc) | M6502_SYNC;
                (c, p)
            },
            _ => (c, p),
        },
        0xf8 => match c.ir_step {
            0 => {
                let p = set_addr(p, c.pc);
                (c, p)
            },
            1 => {
                let c = M6502View { flags: c.flags | (FLAG_D), ..c };
                let p = set_addr(p, c.pc) | M6502_SYNC;
                (c, p)
            },
            _ => (c, p),
        },
        0xf9 => match c.ir_step {
            0 => {
                let p = set_addr(p, c.pc);
                let c = M6502View { pc: (c.pc.wrapping_add(1)) as u16, ..c };
                (c, p)
            },
            1 => {
                let p = set_addr(p, c.pc);
                let c = M6502View { pc: (c.pc.wrapping_add(1)) as u16, ..c };
                let c = M6502View { ad: (pins_data(p) as u16) as u16, ..c };
                (c, p)
            },
            2 => {
                let c = M6502View { ad: (c.ad | ((pins_data(p) as u16)<<8)) as u16, ..c };
                let t429 = (c.ad&0xFF00)|((c.ad.wrapping_add(c.y as u16))&0xFF);
                let p = set_addr(p, t429);
                let v = (c.ad>>8).wrapping_sub(c.ad.wrapping_add(c.y as u16)>>8);
                let c = M6502View { ir_step: (c.ir_step + ((!v as u8) & 1)) as u8, ..c };
                (c, p)
            },
            3 => {
                let t430 = c.ad.wrapping_add(c.y as u16);
                let p = set_addr(p, t430);
                (c, p)
            },
            4 => {
                let t431 = pins_data(p);
                let r37 = if c.flags & FLAG_D != 0 { sbc_decimal(c.a, t431, c.flags) } else { sbc_binary(c.a, t431, c.flags) };
                let c = M6502View { a: r37.0, flags: r37.1, ..c };
                let p = set_addr(p, c.pc) | M6502_SYNC;
                (c, p)
            },
            _ => (c, p),
        },
        0xfa => match c.ir_step {
            0 => {
                let p = set_addr(p, c.pc);
                (c, p)
            },
            1 => {
                let t432 = 0x0100|(c.s as u16);
                let p = set_addr(p, t432);
                let c = M6502View { s: (c.s.wrapping_add(1)) as u8, ..c };
                (c, p)
            },
            2 => {
                let t433 = 0x0100|(c.s as u16);
                let p = set_addr(p, t433);
                (c, p)
            },
            3 => {
                let c = M6502View { x: (pins_data(p)) as u8, ..c };
                let t434 = c.x;
                let c = M6502View { flags: nz_flags(c.flags, t434), ..c };
                let p = set_addr(p, c.pc) | M6502_SYNC;
                (c, p)
            },
            _ => (c, p),
        },
        0xfb => match c.ir_step {
            0 => {
                let p = set_addr(p, c.pc) | M6502_SYNC;
                (c, p)
            },
            _ => (c, p),
        },
        0xfc => match c.ir_step {
            0 => {
                let p = set_addr(p, c.pc);
                let c = M6502View { pc: (c.pc.wrapping_add(1)) as u16, ..c };
                (c, p)
            },
            1 => {
                let p = set_addr(p, c.pc);
                let c = M6502View { pc: (c.pc.wrapping_add(1)) as u16, ..c };
                (c, p)
            },
            2 => {
                let p = set_addr(p, c.pc);
                (c, p)
            },
            3 => {
                let p = set_addr(p, c.pc) | M6502_SYNC;
                (c, p)
            },
            _ => (c, p),
        },
        0xfd => match c.ir_step {
            0 => {
                let p = set_addr(p, c.pc);
                let c = M6502View { pc: (c.pc.wrapping_add(1)) as u16, ..c };
                (c, p)
            },
            1 => {
                let p = set_addr(p, c.pc);
                let c = M6502View { pc: (c.pc.wrapping_add(1)) as u16, ..c };
                let c = M6502View { ad: (pins_data(p) as u16) as u16, ..c };
                (c, p)
            },
            2 => {
                let c = M6502View { ad: (c.ad | ((pins_data(p) as u16)<<8)) as u16, ..c };
                let t435 = (c.ad&0xFF00)|((c.ad.wrapping_add(c.x as u16))&0xFF);
                let p = set_addr(p, t435);
                let v = (c.ad>>8).wrapping_sub(c.ad.wrapping_add(c.x as u16)>>8);
                let c = M6502View { ir_step: (c.ir_step + ((!v as u8) & 1)) as u8, ..c };
                (c, p)
            },
            3 => {
                let t436 = c.ad.wrapping_add(c.x as u16);
                let p = set_addr(p, t436);
                (c, p)
            },
            4 => {
                let t437 = pins_data(p);
                let r38 = if c.flags & FLAG_D != 0 { sbc_decimal(c.a, t437, c.flags) } else { sbc_binary(c.a, t437, c.flags) };
                let c = M6502View { a: r38.0, flags: r38.1, ..c };
                let p = set_addr(p, c.pc) | M6502_SYNC;
                (c, p)
            },
            _ => (c, p),
        },
        0xfe => match c.ir_step {
            0 => {
                let p = set_addr(p, c.pc);
                let c = M6502View { pc: (c.pc.wrapping_add(1)) as u16, ..c };
                (c, p)
            },
            1 => {
                let p = set_addr(p, c.pc);
                let c = M6502View { pc: (c.pc.wrapping_add(1)) as u16, ..c };
                let c = M6502View { ad: (pins_data(p) as u16) as u16, ..c };
                (c, p)
            },
            2 => {
                let c = M6502View { ad: (c.ad | ((pins_data(p) as u16)<<8)) as u16, ..c };
                let t438 = (c.ad&0xFF00)|((c.ad.wrapping_add(c.x as u16))&0xFF);
                let p = set_addr(p, t438);
                (c, p)
            },
            3 => {
                let t439 = c.ad.wrapping_add(c.x as u16);
                let p = set_addr(p, t439);
                (c, p)
            },
            4 => {
                let c = M6502View { ad: (pins_data(p) as u16) as u16, ..c };
                let p = p & !M6502_RW;
                (c, p)
            },
            5 => {
                let c = M6502View { ad: (c.ad.wrapping_add(1)) as u16, ..c };
                let t440 = c.ad as u8;
                let c = M6502View { flags: nz_flags(c.flags, t440), ..c };
                let t441 = c.ad as u8;
                let p = set_data(p, t441);
                let p = p & !M6502_RW;
                (c, p)
            },
            6 => {
                let p = set_addr(p, c.pc) | M6502_SYNC;
                (c, p)
            },
            _ => (c, p),
        },
        0xff => match c.ir_step {
            0 => {
                let p = set_addr(p, c.pc);
                let c = M6502View { pc: (c.pc.wrapping_add(1)) as u16, ..c };
                (c, p)
            },
            1 => {
                let t442 = pins_data(p) as u16;
                let p = set_addr(p, t442);
                (c, p)
            },
            2 => {
                let p = set_addr(p, c.pc);
                let c = M6502View { ad: ((pins_data(p) & 0x80) as u16) as u16, ..c };
                (c, p)
            },
            3 => {
                let p = set_addr(p, c.pc);
                let (c, p) = if c.ad == 0 {
                    let c = M6502View { ad: (c.pc.wrapping_add(1)) as u16, ..c };
                    let c = M6502View { ir_step: (c.ir_step + (2)) as u8, ..c };
                    (c, p)
                } else {
                    (c, p)
                };
                (c, p)
            },
            4 => {
                let p = set_addr(p, c.pc);
                let c = M6502View { ad: (c.pc.wrapping_add(1).wrapping_add(pins_data(p) as u16) as u16) as u16, ..c };
                (c, p)
            },
            5 => {
                let t443 = (c.pc&0xFF00)|(c.ad&0x00FF);
                let p = set_addr(p, t443);
                let (c, p) = if (c.ad&0xFF00)==(c.pc&0xFF00) {
                    let c = M6502View { pc: (c.ad) as u16, ..c };
                    let c = M6502View { irq_pip: (c.irq_pip >> 1) as u16, ..c };
                    let c = M6502View { nmi_pip: (c.nmi_pip >> 1) as u16, ..c };
                    let p = set_addr(p, c.pc) | M6502_SYNC;
                    (c, p)
                } else {
                    (c, p)
                };
                (c, p)
            },
            6 => {
                let c = M6502View { pc: (c.ad) as u16, ..c };
                let p = set_addr(p, c.pc) | M6502_SYNC;
                (c, p)
            },
            _ => (c, p),
        },
        _ => (c, p),
    }
}

} // verus!

verus! {

/// One bus cycle of a core wired to the 64 KiB memory `m`: the core ticks
/// with incoming pins `p`, then the memory answers the pins it drives (a
/// read puts the addressed byte on the data lines, a write stores the data
/// lines' byte).
pub open spec fn wired_cycle(c: M6502View, p: u32, m: Seq<u8>) -> (M6502View, u32, Seq<u8>) {
    let c1 = tick_spec(c, p);
    let q = c1.pins;
    if pins_read(q) {
        (c1, set_data(q, m[pins_addr(q) as int]), m)
    } else {
        (c1, q, m.update(pins_addr(q) as int, pins_data(q)))
    }
}

/// `n` bus cycles of a core wired to the memory `m`.
pub open spec fn wired_run(c: M6502View, p: u32, m: Seq<u8>, n: nat) -> (M6502View, u32, Seq<u8>)
    decreases n,
{
    if n == 0 {
        (c, p, m)
    } else {
        let (c1, p1, m1) = wired_run(c, p, m, (n - 1) as nat);
        wired_cycle(c1, p1, m1)
    }
}

/// LDA immediate: fetched with no interrupt, reset or wait pending, the
/// instruction takes two cycles; the byte after the opcode lands in A, N
/// and Z follow it, X, Y, S and the memory are kept, and the core fetches
/// the next opcode, two bytes on.
pub proof fn lemma_lda_immediate(c: M6502View, p: u32, m: Seq<u8>)
    requires
        m.len() == 0x1_0000,
        pins_sync(p),
        p & (M6502_IRQ | M6502_NMI | M6502_RDY | M6502_RES) == 0,
        pins_data(p) == 0xa9,
        pins_addr(p) == c.pc,
        c.break_flags == 0,
        c.irq_pip & 0x400 == 0,
        c.nmi_pip & 0xfc00 == 0,
    ensures
        ({
            let (c2, p2, m2) = wired_run(c, p, m, 2);
            let v = m[c.pc.wrapping_add(1) as int];
            &&& c2.a == v
            &&& c2.flags == nz_flags(c.flags, v)
            &&& c2.x == c.x && c2.y == c.y && c2.s == c.s
            &&& c2.pc == c.pc.wrapping_add(2)
            &&& m2 == m
            &&& pins_sync(p2)
            &&& pins_addr(p2) == c.pc.wrapping_add(2)
            &&& pins_data(p2) == m[c.pc.wrapping_add(2) as int]
            &&& p2 & (M6502_IRQ | M6502_NMI | M6502_RDY | M6502_RES) == 0
            &&& c2.break_flags == 0
            &&& c.irq_pip == 0 && c.nmi_pip == 0 ==> c2.irq_pip == 0 && c2.nmi_pip == 0
        }),
{
    let pc1 = c.pc.wrapping_add(1);
    let pc2 = pc1.wrapping_add(1);
    let v = m[pc1 as int];
    let w = m[pc2 as int];
    let q0 = p & !M6502_SYNC;
    let q1 = set_addr(q0 | M6502_RW, pc1);
    let q2 = set_data(q1, v);
    lemma_cycle_pins(p, c.pins, q0, pc1, v, 0, 0, 0);
    lemma_cycle_pins(p, c.pins, q2, pc2, w, 0, 0, 0);
    assert(wired_run(c, p, m, 0) == (c, p, m));
    let (cf, f0) = opcode_fetched(c, p);
    assert(cf.ir == 0xa9 && cf.ir_step == 0 && cf.pc == pc1 && cf.break_flags == 0);
    assert(f0 == q0);
    let c1 = tick_spec(c, p);
    assert(c1 == M6502View { ir_step: 1, pc: pc2, pins: q1, irq_pip: cf.irq_pip << 1u16, nmi_pip: cf.nmi_pip << 1u16, ..cf });
    assert(wired_run(c, p, m, 1) == (c1, q2, m));
    let c2 = tick_spec(c1, q2);
    assert(c2.a == v);
}

/// JMP (indirect): fetched with no interrupt, reset or wait pending, the
/// instruction takes five cycles and jumps to the address stored at the
/// pointer that follows the opcode; the pointer's high byte is read from
/// the same page as its low byte (a pointer at the end of a page wraps to
/// the page's start). Registers other than PC and the memory are kept.
pub proof fn lemma_jmp_indirect(c: M6502View, p: u32, m: Seq<u8>)
    requires
        m.len() == 0x1_0000,
        pins_sync(p),
        p & (M6502_IRQ | M6502_NMI | M6502_RDY | M6502_RES) == 0,
        pins_data(p) == 0x6c,
        pins_addr(p) == c.pc,
        c.break_flags == 0,
        c.irq_pip & 0x400 == 0,
        c.nmi_pip & 0xfc00 == 0,
    ensures
        ({
            let (c5, p5, m5) = wired_run(c, p, m, 5);
            let ptr = (m[c.pc.wrapping_add(1) as int] as u16) | ((m[c.pc.wrapping_add(2) as int] as u16) << 8u16);
            let high = (ptr & 0xff00) | (ptr.wrapping_add(1) & 0x00ff);
            &&& c5.pc == ((m[high as int] as u16) << 8u16) | (m[ptr as int] as u16)
            &&& c5.a == c.a && c5.x == c.x && c5.y == c.y && c5.s == c.s && c5.flags == c.flags
            &&& m5 == m
            &&& pins_sync(p5)
            &&& pins_addr(p5) == c5.pc
        }),
{
    let pc1 = c.pc.wrapping_add(1);
    let pc2 = pc1.wrapping_add(1);
    let pc3 = pc2.wrapping_add(1);
    let lo = m[pc1 as int];
    let hi = m[pc2 as int];
    let ptr = (lo as u16) | ((hi as u16) << 8u16);
    let high = (ptr & 0xff00) | (ptr.wrapping_add(1) & 0x00ff);
    let vl = m[ptr as int];
    let vh = m[high as int];
    let target = ((vh as u16) << 8u16) | (vl as u16);
    let vt = m[target as int];
    let q0 = p & !M6502_SYNC;
    let q1 = set_addr(q0 | M6502_RW, pc1);
    let r1 = set_data(q1, lo);
    let q2 = set_addr(r1 | M6502_RW, pc2);
    let r2 = set_data(q2, hi);
    let q3 = set_addr(r2 | M6502_RW, ptr);
    let r3 = set_data(q3, vl);
    let q4 = set_addr(r3 | M6502_RW, high);
    let r4 = set_data(q4, vh);
    let q5 = set_addr(r4 | M6502_RW, target) | M6502_SYNC;
    let r5 = set_data(q5, vt);
    lemma_cycle_pins(p, c.pins, q0, pc1, lo, 0, 0, 0);
    lemma_cycle_pins(p, c.pins, r1, pc2, hi, 0, 0, 0);
    lemma_cycle_pins(p, c.pins, r2, ptr, vl, 0, 0, 0);
    lemma_cycle_pins(p, c.pins, r3, high, vh, 0, 0, 0);
    lemma_cycle_pins(p, c.pins, r4, target, vt, 0, 0, 0);
    assert(wired_run(c, p, m, 0) == (c, p, m));
    let (cf, f0) = opcode_fetched(c, p);
    assert(cf.ir == 0x6c && cf.ir_step == 0 && cf.pc == pc1 && cf.break_flags == 0);
    assert(f0 == q0);
    let c1 = tick_spec(c, p);
    assert(c1.pins == q1 && c1.ir_step == 1 && c1.pc == pc2 && c1.ir == 0x6c);
    assert(wired_run(c, p, m, 1) == (c1, r1, m));
    let c2 = tick_spec(c1, r1);
    assert(c2.pins == q2 && c2.ir_step == 2 && c2.pc == pc3 && c2.ad == lo as u16);
    assert(wired_run(c, p, m, 2) == (c2, r2, m));
    let c3 = tick_spec(c2, r2);
    assert(c3.pins == q3 && c3.ir_step == 3 && c3.ad == ptr);
    assert(wired_run(c, p, m, 3) == (c3, r3, m));
    let c4 = tick_spec(c3, r3);
    assert(c4.pins == q4 && c4.ir_step == 4 && c4.ad == vl as u16);
    assert(wired_run(c, p, m, 4) == (c4, r4, m));
    let c5 = tick_spec(c4, r4);
    assert(c5.pins == q5 && c5.pc == target);
    assert(wired_run(c, p, m, 5) == (c5, r5, m));
}

/// The memory after JSR pushes the return address `ret` (the address of
/// the call's last byte) with the stack pointer at `s`: high byte first.
pub open spec fn pushed_return(m: Seq<u8>, s: u8, ret: u16) -> Seq<u8> {
    m.update((0x0100u16 | (s as u16)) as int, (ret >> 8u16) as u8).update(
        (0x0100u16 | (s.wrapping_sub(1) as u16)) as int,
        ret as u8,
    )
}

/// JSR: fetched with no interrupt, reset or wait pending, the call takes six
/// cycles; it pushes the address of its own last byte (high byte first),
/// leaves S two lower, and jumps to the address that follows the opcode.
/// The target's high byte is read after the pushes.
pub proof fn lemma_jsr(c: M6502View, p: u32, m: Seq<u8>)
    requires
        m.len() == 0x1_0000,
        pins_sync(p),
        p & (M6502_IRQ | M6502_NMI | M6502_RDY | M6502_RES) == 0,
        pins_data(p) == 0x20,
        pins_addr(p) == c.pc,
        c.break_flags == 0,
        c.irq_pip & 0x400 == 0,
        c.nmi_pip & 0xfc00 == 0,
    ensures
        ({
            let (c6, p6, m6) = wired_run(c, p, m, 6);
            let ret = c.pc.wrapping_add(2);
            let m2 = pushed_return(m, c.s, ret);
            let target = ((m2[ret as int] as u16) << 8u16) | (m[c.pc.wrapping_add(1) as int] as u16);
            &&& c6.pc == target
            &&& c6.s == c.s.wrapping_sub(2)
            &&& c6.a == c.a && c6.x == c.x && c6.y == c.y && c6.flags == c.flags
            &&& m6 == m2
            &&& pins_sync(p6)
            &&& pins_addr(p6) == target
            &&& pins_data(p6) == m2[target as int]
            &&& c6.break_flags == 0
            &&& p6 & (M6502_IRQ | M6502_NMI | M6502_RDY | M6502_RES) == 0
            &&& c.irq_pip == 0 && c.nmi_pip == 0 ==> c6.irq_pip == 0 && c6.nmi_pip == 0
        }),
{
    let pc1 = c.pc.wrapping_add(1);
    let pc2 = pc1.wrapping_add(1);
    let st = 0x0100u16 | (c.s as u16);
    let s1 = c.s.wrapping_sub(1);
    let st1 = 0x0100u16 | (s1 as u16);
    let lo = m[pc1 as int];
    let m1 = m.update(st as int, (pc2 >> 8u16) as u8);
    let m2 = m1.update(st1 as int, pc2 as u8);
    let hi = m2[pc2 as int];
    let target = ((hi as u16) << 8u16) | (lo as u16);
    let vt = m2[target as int];
    let vs = m[st as int];
    let q0 = p & !M6502_SYNC;
    let q1 = set_addr(q0 | M6502_RW, pc1);
    let r1 = set_data(q1, lo);
    let q2 = set_addr(r1 | M6502_RW, st);
    let r2 = set_data(q2, vs);
    let q3 = set_data(set_addr(r2 | M6502_RW, st), (pc2 >> 8u16) as u8) & !M6502_RW;
    let q4 = set_data(set_addr(q3 | M6502_RW, st1), pc2 as u8) & !M6502_RW;
    let q5 = set_addr(q4 | M6502_RW, pc2);
    let r5 = set_data(q5, hi);
    let q6 = set_addr(r5 | M6502_RW, target) | M6502_SYNC;
    let r6 = set_data(q6, vt);
    lemma_cycle_pins(p, c.pins, q0, pc1, lo, 0, 0, 0);
    lemma_cycle_pins(p, c.pins, r1, st, vs, 0, 0, 0);
    lemma_cycle_pins(p, c.pins, r2, st, (pc2 >> 8u16) as u8, 0, 0, 0);
    lemma_cycle_pins(p, c.pins, q3, st1, pc2 as u8, 0, 0, 0);
    lemma_cycle_pins(p, c.pins, q4, pc2, hi, 0, 0, 0);
    lemma_cycle_pins(p, c.pins, r5, target, vt, 0, 0, 0);
    assert(wired_run(c, p, m, 0) == (c, p, m));
    let (cf, f0) = opcode_fetched(c, p);
    assert(cf.ir == 0x20 && cf.ir_step == 0 && cf.pc == pc1 && cf.break_flags == 0);
    assert(f0 == q0);
    let c1 = tick_spec(c, p);
    assert(c1.pins == q1 && c1.ir_step == 1 && c1.pc == pc2 && c1.ir == 0x20);
    assert(wired_run(c, p, m, 1) == (c1, r1, m));
    let c2 = tick_spec(c1, r1);
    assert(c2.pins == q2 && c2.ir_step == 2 && c2.ad == lo as u16);
    assert(wired_run(c, p, m, 2) == (c2, r2, m));
    let c3 = tick_spec(c2, r2);
    assert(c3.pins == q3 && c3.ir_step == 3 && c3.s == s1);
    assert(wired_run(c, p, m, 3) == (c3, q3, m1));
    let c4 = tick_spec(c3, q3);
    assert(c4.pins == q4 && c4.ir_step == 4 && c4.s == c.s.wrapping_sub(2));
    assert(wired_run(c, p, m, 4) == (c4, q4, m2));
    let c5 = tick_spec(c4, q4);
    assert(c5.pins == q5 && c5.ir_step == 5);
    assert(wired_run(c, p, m, 5) == (c5, r5, m2));
    let c6 = tick_spec(c5, r5);
    assert(c6.pins == q6 && c6.pc == target);
    assert(wired_run(c, p, m, 6) == (c6, r6, m2));
}

/// RTS: fetched with no interrupt, reset or wait pending, the return takes
/// six cycles; it pulls an address (low byte first) from the stack, leaves
/// S two higher and resumes one byte after that address.
pub proof fn lemma_rts(c: M6502View, p: u32, m: Seq<u8>)
    requires
        m.len() == 0x1_0000,
        pins_sync(p),
        p & (M6502_IRQ | M6502_NMI | M6502_RDY | M6502_RES) == 0,
        pins_data(p) == 0x60,
        pins_addr(p) == c.pc,
        c.break_flags == 0,
        c.irq_pip & 0x400 == 0,
        c.nmi_pip & 0xfc00 == 0,
    ensures
        ({
            let (c6, p6, m6) = wired_run(c, p, m, 6);
            let lo = m[(0x0100u16 | (c.s.wrapping_add(1) as u16)) as int];
            let hi = m[(0x0100u16 | (c.s.wrapping_add(2) as u16)) as int];
            let ret = (((hi as u16) << 8u16) | (lo as u16)).wrapping_add(1);
            &&& c6.pc == ret
            &&& c6.s == c.s.wrapping_add(2)
            &&& c6.a == c.a && c6.x == c.x && c6.y == c.y && c6.flags == c.flags
            &&& m6 == m
            &&& pins_sync(p6)
            &&& pins_addr(p6) == ret
        }),
{
    let pc1 = c.pc.wrapping_add(1);
    let st0 = 0x0100u16 | (c.s as u16);
    let st1 = 0x0100u16 | (c.s.wrapping_add(1) as u16);
    let st2 = 0x0100u16 | (c.s.wrapping_add(2) as u16);
    let v1 = m[pc1 as int];
    let v2 = m[st0 as int];
    let lo = m[st1 as int];
    let hi = m[st2 as int];
    let back = ((hi as u16) << 8u16) | (lo as u16);
    let ret = back.wrapping_add(1);
    let v5 = m[back as int];
    let vt = m[ret as int];
    let q0 = p & !M6502_SYNC;
    let q1 = set_addr(q0 | M6502_RW, pc1);
    let r1 = set_data(q1, v1);
    let q2 = set_addr(r1 | M6502_RW, st0);
    let r2 = set_data(q2, v2);
    let q3 = set_addr(r2 | M6502_RW, st1);
    let r3 = set_data(q3, lo);
    let q4 = set_addr(r3 | M6502_RW, st2);
    let r4 = set_data(q4, hi);
    let q5 = set_addr(r4 | M6502_RW, back);
    let r5 = set_data(q5, v5);
    let q6 = set_addr(r5 | M6502_RW, ret) | M6502_SYNC;
    let r6 = set_data(q6, vt);
    lemma_cycle_pins(p, c.pins, q0, pc1, v1, 0, 0, 0);
    lemma_cycle_pins(p, c.pins, r1, st0, v2, 0, 0, 0);
    lemma_cycle_pins(p, c.pins, r2, st1, lo, 0, 0, 0);
    lemma_cycle_pins(p, c.pins, r3, st2, hi, 0, 0, 0);
    lemma_cycle_pins(p, c.pins, r4, back, v5, 0, 0, 0);
    lemma_cycle_pins(p, c.pins, r5, ret, vt, 0, 0, 0);
    assert(wired_run(c, p, m, 0) == (c, p, m));
    let (cf, f0) = opcode_fetched(c, p);
    assert(cf.ir == 0x60 && cf.ir_step == 0 && cf.pc == pc1 && cf.break_flags == 0);
    assert(f0 == q0);
    let c1 = tick_spec(c, p);
    assert(c1.pins == q1 && c1.ir_step == 1 && c1.ir == 0x60);
    assert(wired_run(c, p, m, 1) == (c1, r1, m));
    let c2 = tick_spec(c1, r1);
    assert(c2.pins == q2 && c2.ir_step == 2);
    assert(wired_run(c, p, m, 2) == (c2, r2, m));
    let c3 = tick_spec(c2, r2);
    assert(c3.pins == q3 && c3.ir_step == 3);
    assert(wired_run(c, p, m, 3) == (c3, r3, m));
    let c4 = tick_spec(c3, r3);
    assert(c4.pins == q4 && c4.ir_step == 4 && c4.ad == lo as u16);
    assert(wired_run(c, p, m, 4) == (c4, r4, m));
    let c5 = tick_spec(c4, r4);
    assert(c5.pins == q5 && c5.ir_step == 5 && c5.pc == ret);
    assert(wired_run(c, p, m, 5) == (c5, r5, m));
    let c6 = tick_spec(c5, r5);
    assert(c6.pins == q6 && c6.pc == ret);
    assert(wired_run(c, p, m, 6) == (c6, r6, m));
}

/// Running `a` cycles and then `b` more is running `a + b` cycles.
pub proof fn lemma_wired_run_append(c: M6502View, p: u32, m: Seq<u8>, a: nat, b: nat)
    ensures
        wired_run(c, p, m, a + b) == ({
            let (c1, p1, m1) = wired_run(c, p, m, a);
            wired_run(c1, p1, m1, b)
        }),
    decreases b,
{
    if b > 0 {
        lemma_wired_run_append(c, p, m, a, (b - 1) as nat);
        assert((a + b - 1) as nat == a + (b - 1) as nat);
    }
}

/// RTS undoes JSR: a call to a routine that returns at once resumes after
/// the three-byte JSR, twelve cycles later, with S restored and the other
/// registers kept.
#[verifier::rlimit(80)]
pub proof fn lemma_jsr_rts(c: M6502View, p: u32, m: Seq<u8>)
    requires
        m.len() == 0x1_0000,
        pins_sync(p),
        p & (M6502_IRQ | M6502_NMI | M6502_RDY | M6502_RES) == 0,
        pins_data(p) == 0x20,
        pins_addr(p) == c.pc,
        c.break_flags == 0,
        c.irq_pip == 0,
        c.nmi_pip == 0,
        ({
            let ret = c.pc.wrapping_add(2);
            let m2 = pushed_return(m, c.s, ret);
            let target = ((m2[ret as int] as u16) << 8u16) | (m[c.pc.wrapping_add(1) as int] as u16);
            m2[target as int] == 0x60
        }),
    ensures
        ({
            let (c12, p12, m12) = wired_run(c, p, m, 12);
            &&& c12.pc == c.pc.wrapping_add(3)
            &&& c12.s == c.s
            &&& c12.a == c.a && c12.x == c.x && c12.y == c.y && c12.flags == c.flags
            &&& pins_sync(p12)
            &&& pins_addr(p12) == c.pc.wrapping_add(3)
        }),
{
    let ret = c.pc.wrapping_add(2);
    let s0 = c.s;
    lemma_cycle_pins(0, 0, 0, 0, 0, ret, s0.wrapping_sub(1), s0);
    lemma_jsr(c, p, m);
    let r6 = wired_run(c, p, m, 6);
    let c6 = r6.0;
    let p6 = r6.1;
    let m6 = r6.2;
    let sm2 = s0.wrapping_sub(2);
    assert(c6.s == sm2);
    assert(sm2.wrapping_add(1) == s0.wrapping_sub(1));
    assert(sm2.wrapping_add(2) == s0);
    assert(c6.irq_pip & 0x400 == 0 && c6.nmi_pip & 0xfc00 == 0);
    lemma_rts(c6, p6, m6);
    lemma_wired_run_append(c, p, m, 6, 6);
    assert(m6[(0x0100u16 | (sm2.wrapping_add(1) as u16)) as int] == ret as u8);
    assert(m6[(0x0100u16 | (sm2.wrapping_add(2) as u16)) as int] == (ret >> 8u16) as u8);
}

/// PHA: fetched with no interrupt, reset or wait pending, the push takes
/// three cycles; A is stored at the top of the stack, S moves down one and
/// the next opcode, one byte on, is fetched.
pub proof fn lemma_pha(c: M6502View, p: u32, m: Seq<u8>)
    requires
        m.len() == 0x1_0000,
        pins_sync(p),
        p & (M6502_IRQ | M6502_NMI | M6502_RDY | M6502_RES) == 0,
        pins_data(p) == 0x48,
        pins_addr(p) == c.pc,
        c.break_flags == 0,
        c.irq_pip & 0x400 == 0,
        c.nmi_pip & 0xfc00 == 0,
    ensures
        ({
            let (c3, p3, m3) = wired_run(c, p, m, 3);
            let m1 = m.update((0x0100u16 | (c.s as u16)) as int, c.a);
            &&& m3 == m1
            &&& c3.s == c.s.wrapping_sub(1)
            &&& c3.pc == c.pc.wrapping_add(1)
            &&& c3.a == c.a && c3.x == c.x && c3.y == c.y && c3.flags == c.flags
            &&& c3.break_flags == 0
            &&& pins_sync(p3)
            &&& pins_addr(p3) == c.pc.wrapping_add(1)
            &&& pins_data(p3) == m1[c.pc.wrapping_add(1) as int]
            &&& p3 & (M6502_IRQ | M6502_NMI | M6502_RDY | M6502_RES) == 0
            &&& c.irq_pip == 0 && c.nmi_pip == 0 ==> c3.irq_pip == 0 && c3.nmi_pip == 0
        }),
{
    let pc1 = c.pc.wrapping_add(1);
    let st = 0x0100u16 | (c.s as u16);
    let m1 = m.update(st as int, c.a);
    let v1 = m[pc1 as int];
    let vt = m1[pc1 as int];
    let q0 = p & !M6502_SYNC;
    let q1 = set_addr(q0 | M6502_RW, pc1);
    let r1 = set_data(q1, v1);
    let q2 = set_data(set_addr(r1 | M6502_RW, st), c.a) & !M6502_RW;
    let q3 = set_addr(q2 | M6502_RW, pc1) | M6502_SYNC;
    let r3 = set_data(q3, vt);
    lemma_cycle_pins(p, c.pins, q0, pc1, v1, 0, 0, 0);
    lemma_cycle_pins(p, c.pins, r1, st, c.a, 0, 0, 0);
    lemma_cycle_pins(p, c.pins, q2, pc1, vt, 0, 0, 0);
    assert(wired_run(c, p, m, 0) == (c, p, m));
    let (cf, f0) = opcode_fetched(c, p);
    assert(cf.ir == 0x48 && cf.ir_step == 0 && cf.pc == pc1 && cf.break_flags == 0);
    assert(f0 == q0);
    let c1 = tick_spec(c, p);
    assert(c1.pins == q1 && c1.ir_step == 1 && c1.ir == 0x48);
    assert(wired_run(c, p, m, 1) == (c1, r1, m));
    let c2 = tick_spec(c1, r1);
    assert(c2.pins == q2 && c2.ir_step == 2);
    assert(wired_run(c, p, m, 2) == (c2, q2, m1));
    let c3 = tick_spec(c2, q2);
    assert(c3.pins == q3 && c3.pc == pc1);
    assert(wired_run(c, p, m, 3) == (c3, r3, m1));
}

/// PLA: fetched with no interrupt, reset or wait pending, the pull takes
/// four cycles; S moves up one, A takes the byte there with N and Z
/// following it, and the next opcode, one byte on, is fetched.
pub proof fn lemma_pla(c: M6502View, p: u32, m: Seq<u8>)
    requires
        m.len() == 0x1_0000,
        pins_sync(p),
        p & (M6502_IRQ | M6502_NMI | M6502_RDY | M6502_RES) == 0,
        pins_data(p) == 0x68,
        pins_addr(p) == c.pc,
        c.break_flags == 0,
        c.irq_pip & 0x400 == 0,
        c.nmi_pip & 0xfc00 == 0,
    ensures
        ({
            let (c4, p4, m4) = wired_run(c, p, m, 4);
            let v = m[(0x0100u16 | (c.s.wrapping_add(1) as u16)) as int];
            &&& c4.a == v
            &&& c4.flags == nz_flags(c.flags, v)
            &&& c4.s == c.s.wrapping_add(1)
            &&& c4.pc == c.pc.wrapping_add(1)
            &&& c4.x == c.x && c4.y == c.y
            &&& m4 == m
            &&& pins_sync(p4)
            &&& pins_addr(p4) == c.pc.wrapping_add(1)
        }),
{
    let pc1 = c.pc.wrapping_add(1);
    let st0 = 0x0100u16 | (c.s as u16);
    let st1 = 0x0100u16 | (c.s.wrapping_add(1) as u16);
    let v1 = m[pc1 as int];
    let v2 = m[st0 as int];
    let v = m[st1 as int];
    let vt = m[pc1 as int];
    let q0 = p & !M6502_SYNC;
    let q1 = set_addr(q0 | M6502_RW, pc1);
    let r1 = set_data(q1, v1);
    let q2 = set_addr(r1 | M6502_RW, st0);
    let r2 = set_data(q2, v2);
    let q3 = set_addr(r2 | M6502_RW, st1);
    let r3 = set_data(q3, v);
    let q4 = set_addr(r3 | M6502_RW, pc1) | M6502_SYNC;
    let r4 = set_data(q4, vt);
    lemma_cycle_pins(p, c.pins, q0, pc1, v1, 0, 0, 0);
    lemma_cycle_pins(p, c.pins, r1, st0, v2, 0, 0, 0);
    lemma_cycle_pins(p, c.pins, r2, st1, v, 0, 0, 0);
    lemma_cycle_pins(p, c.pins, r3, pc1, vt, 0, 0, 0);
    assert(wired_run(c, p, m, 0) == (c, p, m));
    let (cf, f0) = opcode_fetched(c, p);
    assert(cf.ir == 0x68 && cf.ir_step == 0 && cf.pc == pc1 && cf.break_flags == 0);
    assert(f0 == q0);
    let c1 = tick_spec(c, p);
    assert(c1.pins == q1 && c1.ir_step == 1 && c1.ir == 0x68);
    assert(wired_run(c, p, m, 1) == (c1, r1, m));
    let c2 = tick_spec(c1, r1);
    assert(c2.pins == q2 && c2.ir_step == 2);
    assert(wired_run(c, p, m, 2) == (c2, r2, m));
    let c3 = tick_spec(c2, r2);
    assert(c3.pins == q3 && c3.ir_step == 3);
    assert(wired_run(c, p, m, 3) == (c3, r3, m));
    let c4 = tick_spec(c3, r3);
    assert(c4.pins == q4 && c4.a == v);
    assert(wired_run(c, p, m, 4) == (c4, r4, m));
}

/// PLA undoes PHA: a push followed at once by a pull gives back A and S,
/// with N and Z set by A, seven cycles later.
#[verifier::rlimit(80)]
pub proof fn lemma_pha_pla(c: M6502View, p: u32, m: Seq<u8>)
    requires
        m.len() == 0x1_0000,
        pins_sync(p),
        p & (M6502_IRQ | M6502_NMI | M6502_RDY | M6502_RES) == 0,
        pins_data(p) == 0x48,
        pins_addr(p) == c.pc,
        c.break_flags == 0,
        c.irq_pip == 0,
        c.nmi_pip == 0,
        m.update((0x0100u16 | (c.s as u16)) as int, c.a)[c.pc.wrapping_add(1) as int] == 0x68,
    ensures
        ({
            let (c7, p7, m7) = wired_run(c, p, m, 7);
            &&& c7.a == c.a
            &&& c7.s == c.s
            &&& c7.flags == nz_flags(c.flags, c.a)
            &&& c7.x == c.x && c7.y == c.y
            &&& c7.pc == c.pc.wrapping_add(2)
            &&& pins_sync(p7)
        }),
{
    let s0 = c.s;
    lemma_cycle_pins(0, 0, 0, 0, 0, 0, 0, 0);
    lemma_pha(c, p, m);
    let r3 = wired_run(c, p, m, 3);
    let c3 = r3.0;
    assert(c3.s.wrapping_add(1) == s0);
    assert(c3.irq_pip & 0x400 == 0 && c3.nmi_pip & 0xfc00 == 0);
    lemma_pla(c3, r3.1, r3.2);
    lemma_wired_run_append(c, p, m, 3, 4);
}

/// BNE: fetched with no interrupt, reset or wait pending, with Z set the
/// branch is not taken and the next opcode, two bytes on, is fetched after
/// two cycles; with Z clear the core jumps by the signed offset that follows
/// the opcode (from the address after it), in three cycles when the target
/// is in the same page and four when it crosses a page.
pub proof fn lemma_bne(c: M6502View, p: u32, m: Seq<u8>)
    requires
        m.len() == 0x1_0000,
        pins_sync(p),
        p & (M6502_IRQ | M6502_NMI | M6502_RDY | M6502_RES) == 0,
        pins_data(p) == 0xd0,
        pins_addr(p) == c.pc,
        c.break_flags == 0,
        c.irq_pip & 0x400 == 0,
        c.nmi_pip & 0xfc00 == 0,
    ensures
        ({
            let next = c.pc.wrapping_add(2);
            let target = next.wrapping_add((m[c.pc.wrapping_add(1) as int] as i8) as u16);
            let n: nat = if c.flags & FLAG_Z != 0 {
                2
            } else if target & 0xff00 == next & 0xff00 {
                3
            } else {
                4
            };
            let (cn, pn, mn) = wired_run(c, p, m, n);
            &&& cn.pc == (if c.flags & FLAG_Z != 0 { next } else { target })
            &&& cn.a == c.a && cn.x == c.x && cn.y == c.y && cn.s == c.s && cn.flags == c.flags
            &&& mn == m
            &&& pins_sync(pn)
            &&& pins_addr(pn) == cn.pc
        }),
{
    let pc1 = c.pc.wrapping_add(1);
    let pc2 = pc1.wrapping_add(1);
    let off = m[pc1 as int];
    let target = pc2.wrapping_add((off as i8) as u16);
    let v2 = m[pc2 as int];
    let mid = (pc2 & 0xff00) | (target & 0x00ff);
    let v3 = m[mid as int];
    let vt = m[target as int];
    let q0 = p & !M6502_SYNC;
    let q1 = set_addr(q0 | M6502_RW, pc1);
    let r1 = set_data(q1, off);
    lemma_cycle_pins(p, c.pins, q0, pc1, off, 0, 0, 0);
    lemma_cycle_pins(p, c.pins, r1, pc2, v2, pc2, 0, 0);
    assert(wired_run(c, p, m, 0) == (c, p, m));
    let (cf, f0) = opcode_fetched(c, p);
    assert(cf.ir == 0xd0 && cf.ir_step == 0 && cf.pc == pc1 && cf.break_flags == 0);
    assert(f0 == q0);
    let c1 = tick_spec(c, p);
    assert(c1.pins == q1 && c1.ir_step == 1 && c1.pc == pc2 && c1.ir == 0xd0);
    assert(wired_run(c, p, m, 1) == (c1, r1, m));
    let c2 = tick_spec(c1, r1);
    if c.flags & FLAG_Z != 0 {
        let q2 = set_addr(set_addr(r1 | M6502_RW, pc2), pc2) | M6502_SYNC;
        assert(set_addr(set_addr(r1 | M6502_RW, pc2), pc2) == set_addr(r1 | M6502_RW, pc2));
        assert(c2.pins == q2 && c2.pc == pc2);
        assert(wired_run(c, p, m, 2) == (c2, set_data(q2, v2), m));
    } else {
        let q2 = set_addr(r1 | M6502_RW, pc2);
        let r2 = set_data(q2, v2);
        lemma_cycle_pins(p, c.pins, r2, mid, v3, target, 0, 0);
        lemma_cycle_pins(p, c.pins, r2, target, vt, 0, 0, 0);
        assert(c2.pins == q2 && c2.ad == target && c2.ir_step == 2);
        assert(wired_run(c, p, m, 2) == (c2, r2, m));
        let c3 = tick_spec(c2, r2);
        if target & 0xff00 == pc2 & 0xff00 {
            let q3 = set_addr(set_addr(r2 | M6502_RW, mid), target) | M6502_SYNC;
            assert(set_addr(set_addr(r2 | M6502_RW, mid), target) == set_addr(r2 | M6502_RW, target));
            assert(c3.pins == q3 && c3.pc == target);
            assert(wired_run(c, p, m, 3) == (c3, set_data(q3, vt), m));
        } else {
            let q3 = set_addr(r2 | M6502_RW, mid);
            let r3 = set_data(q3, v3);
            lemma_cycle_pins(p, c.pins, r3, target, vt, 0, 0, 0);
            assert(c3.pins == q3 && c3.ir_step == 3 && c3.ad == target);
            assert(wired_run(c, p, m, 3) == (c3, r3, m));
            let c4 = tick_spec(c3, r3);
            let q4 = set_addr(r3 | M6502_RW, target) | M6502_SYNC;
            assert(c4.pins == q4 && c4.pc == target);
            assert(wired_run(c, p, m, 4) == (c4, set_data(q4, vt), m));
        }
    }
}

/// Reset: a core started with RES and SYNC on (and no interrupt or wait)
/// runs the reset sequence in seven cycles without writing to memory: S
/// moves down three, I is set, and the core jumps through the reset vector
/// at 0xFFFC.
pub proof fn lemma_reset(c: M6502View, p: u32, m: Seq<u8>)
    requires
        m.len() == 0x1_0000,
        pins_sync(p),
        p & M6502_RES != 0,
        p & (M6502_IRQ | M6502_NMI | M6502_RDY) == 0,
        c.break_flags == 0,
        c.irq_pip & 0x400 == 0,
        c.nmi_pip & 0xfc00 == 0,
    ensures
        ({
            let (c7, p7, m7) = wired_run(c, p, m, 7);
            let vector = ((m[0xfffd] as u16) << 8u16) | (m[0xfffc] as u16);
            &&& c7.pc == vector
            &&& c7.s == c.s.wrapping_sub(3)
            &&& c7.flags & FLAG_I != 0
            &&& c7.break_flags == 0
            &&& c7.a == c.a && c7.x == c.x && c7.y == c.y
            &&& m7 == m
            &&& pins_sync(p7)
            &&& pins_addr(p7) == vector
        }),
{
    let pc = c.pc;
    let pc1 = pc.wrapping_add(1);
    let s0 = c.s;
    let s1 = s0.wrapping_sub(1);
    let s2 = s1.wrapping_sub(1);
    let st0 = 0x0100u16 | (s0 as u16);
    let st1 = 0x0100u16 | (s1 as u16);
    let st2 = 0x0100u16 | (s2 as u16);
    let f0 = c.flags & !FLAG_B;
    let lo = m[0xfffc];
    let hi = m[0xfffd];
    let vector = ((hi as u16) << 8u16) | (lo as u16);
    let v1 = m[pc as int];
    let v2 = m[st0 as int];
    let v3 = m[st1 as int];
    let v4 = m[st2 as int];
    let vt = m[vector as int];
    let q0 = (p & !M6502_SYNC) & !M6502_RES;
    let q1 = set_addr(q0 | M6502_RW, pc);
    let r1 = set_data(q1, v1);
    let q2 = set_data(set_addr(r1 | M6502_RW, st0), (pc1 >> 8u16) as u8);
    let r2 = set_data(q2, v2);
    let q3 = set_data(set_addr(r2 | M6502_RW, st1), pc1 as u8);
    let r3 = set_data(q3, v3);
    let q4 = set_data(set_addr(r3 | M6502_RW, st2), f0 | FLAG_X);
    let r4 = set_data(q4, v4);
    let q5 = set_addr(r4 | M6502_RW, 0xfffc);
    let r5 = set_data(q5, lo);
    let q6 = set_addr(r5 | M6502_RW, 0xfffd);
    let r6 = set_data(q6, hi);
    let q7 = set_addr(r6 | M6502_RW, vector) | M6502_SYNC;
    let r7 = set_data(q7, vt);
    lemma_cycle_pins(p, c.pins, q0, pc, v1, 0, 0, 0);
    lemma_cycle_pins(p, c.pins, r1, st0, (pc1 >> 8u16) as u8, 0, v2, 0);
    lemma_cycle_pins(p, c.pins, r2, st1, pc1 as u8, 0, v3, 0);
    lemma_cycle_pins(p, c.pins, r3, st2, f0 | FLAG_X, 0, v4, 0);
    lemma_cycle_pins(p, c.pins, r4, 0xfffc, lo, 0, 0, 0);
    lemma_cycle_pins(p, c.pins, r5, 0xfffd, hi, 0, 0, 0);
    lemma_cycle_pins(p, c.pins, r6, vector, vt, 0, 0, 0);
    lemma_cycle_pins(0, 0, 0, 0, 0, 0, f0, 0);
    assert(wired_run(c, p, m, 0) == (c, p, m));
    let (cf, g0) = opcode_fetched(c, p);
    assert(cf.ir == 0 && cf.ir_step == 0 && cf.pc == pc && cf.break_flags == BREAK_RESET && cf.flags == f0);
    assert(g0 == q0);
    let c1 = tick_spec(c, p);
    assert(c1.pins == q1 && c1.ir_step == 1 && c1.ir == 0 && c1.break_flags == BREAK_RESET);
    assert(wired_run(c, p, m, 1) == (c1, r1, m));
    let c2 = tick_spec(c1, r1);
    assert(c2.pins == q2 && c2.ir_step == 2 && c2.pc == pc1 && c2.s == s1);
    assert(wired_run(c, p, m, 2) == (c2, r2, m));
    let c3 = tick_spec(c2, r2);
    assert(c3.pins == q3 && c3.ir_step == 3 && c3.s == s2);
    assert(wired_run(c, p, m, 3) == (c3, r3, m));
    let c4 = tick_spec(c3, r3);
    assert(c4.pins == q4 && c4.ir_step == 4 && c4.ad == 0xfffc);
    assert(wired_run(c, p, m, 4) == (c4, r4, m));
    let c5 = tick_spec(c4, r4);
    assert(c5.pins == q5 && c5.ir_step == 5 && c5.ad == 0xfffd && c5.break_flags == 0);
    assert(wired_run(c, p, m, 5) == (c5, r5, m));
    let c6 = tick_spec(c5, r5);
    assert(c6.pins == q6 && c6.ir_step == 6 && c6.ad == lo as u16);
    assert(wired_run(c, p, m, 6) == (c6, r6, m));
    let c7 = tick_spec(c6, r6);
    assert(c7.pins == q7 && c7.pc == vector);
    assert(wired_run(c, p, m, 7) == (c7, r7, m));
}

/// The memory after BRK pushes the return address `ret` and the status
/// byte `f` with the stack pointer at `s`.
pub open spec fn pushed_interrupt(m: Seq<u8>, s: u8, ret: u16, f: u8) -> Seq<u8> {
    m.update((0x0100u16 | (s as u16)) as int, (ret >> 8u16) as u8).update(
        (0x0100u16 | (s.wrapping_sub(1) as u16)) as int,
        ret as u8,
    ).update((0x0100u16 | (s.wrapping_sub(2) as u16)) as int, f)
}

/// BRK: fetched with no interrupt, reset or wait pending, the break takes
/// seven cycles; it pushes the address two bytes past the opcode (high byte
/// first) and the status with B and the unused bit set, leaves S three
/// lower, sets I and jumps through the interrupt vector at 0xFFFE.
pub proof fn lemma_brk(c: M6502View, p: u32, m: Seq<u8>)
    requires
        m.len() == 0x1_0000,
        pins_sync(p),
        p & (M6502_IRQ | M6502_NMI | M6502_RDY | M6502_RES) == 0,
        pins_data(p) == 0x00,
        pins_addr(p) == c.pc,
        c.break_flags == 0,
        c.irq_pip & 0x400 == 0,
        c.nmi_pip & 0xfc00 == 0,
    ensures
        ({
            let (c7, p7, m7) = wired_run(c, p, m, 7);
            let m3 = pushed_interrupt(m, c.s, c.pc.wrapping_add(2), c.flags | FLAG_X | FLAG_B);
            let vector = ((m3[0xffff] as u16) << 8u16) | (m3[0xfffe] as u16);
            &&& c7.pc == vector
            &&& c7.s == c.s.wrapping_sub(3)
            &&& c7.flags == c.flags | FLAG_I | FLAG_B
            &&& c7.a == c.a && c7.x == c.x && c7.y == c.y
            &&& m7 == m3
            &&& pins_sync(p7)
            &&& pins_addr(p7) == vector
        }),
{
    let pc1 = c.pc.wrapping_add(1);
    let pc2 = pc1.wrapping_add(1);
    let s0 = c.s;
    let s1 = s0.wrapping_sub(1);
    let s2 = s1.wrapping_sub(1);
    let st0 = 0x0100u16 | (s0 as u16);
    let st1 = 0x0100u16 | (s1 as u16);
    let st2 = 0x0100u16 | (s2 as u16);
    let fb = c.flags | FLAG_X | FLAG_B;
    let m1 = m.update(st0 as int, (pc2 >> 8u16) as u8);
    let m2 = m1.update(st1 as int, pc2 as u8);
    let m3 = m2.update(st2 as int, fb);
    let lo = m3[0xfffe];
    let hi = m3[0xffff];
    let vector = ((hi as u16) << 8u16) | (lo as u16);
    let v1 = m[pc1 as int];
    let vt = m3[vector as int];
    let q0 = p & !M6502_SYNC;
    let q1 = set_addr(q0 | M6502_RW, pc1);
    let r1 = set_data(q1, v1);
    let q2 = set_data(set_addr(r1 | M6502_RW, st0), (pc2 >> 8u16) as u8) & !M6502_RW;
    let q3 = set_data(set_addr(q2 | M6502_RW, st1), pc2 as u8) & !M6502_RW;
    let q4 = set_data(set_addr(q3 | M6502_RW, st2), fb) & !M6502_RW;
    let q5 = set_addr(q4 | M6502_RW, 0xfffe);
    let r5 = set_data(q5, lo);
    let q6 = set_addr(r5 | M6502_RW, 0xffff);
    let r6 = set_data(q6, hi);
    let q7 = set_addr(r6 | M6502_RW, vector) | M6502_SYNC;
    let r7 = set_data(q7, vt);
    lemma_cycle_pins(p, c.pins, q0, pc1, v1, 0, 0, 0);
    lemma_cycle_pins(p, c.pins, r1, st0, (pc2 >> 8u16) as u8, 0, 0, 0);
    lemma_cycle_pins(p, c.pins, q2, st1, pc2 as u8, 0, 0, 0);
    lemma_cycle_pins(p, c.pins, q3, st2, fb, 0, 0, 0);
    lemma_cycle_pins(p, c.pins, q4, 0xfffe, lo, 0, 0, 0);
    lemma_cycle_pins(p, c.pins, r5, 0xffff, hi, 0, 0, 0);
    lemma_cycle_pins(p, c.pins, r6, vector, vt, 0, 0, 0);
    lemma_cycle_pins(0, 0, 0, 0, 0, 0, c.flags, 0);
    assert(wired_run(c, p, m, 0) == (c, p, m));
    let (cf, g0) = opcode_fetched(c, p);
    assert(cf.ir == 0 && cf.ir_step == 0 && cf.pc == pc1 && cf.break_flags == 0);
    assert(g0 == q0);
    let c1 = tick_spec(c, p);
    assert(c1.pins == q1 && c1.ir_step == 1 && c1.ir == 0 && c1.break_flags == 0);
    assert(wired_run(c, p, m, 1) == (c1, r1, m));
    let c2 = tick_spec(c1, r1);
    assert(c2.pins == q2 && c2.ir_step == 2 && c2.pc == pc2 && c2.s == s1);
    assert(wired_run(c, p, m, 2) == (c2, q2, m1));
    let c3 = tick_spec(c2, q2);
    assert(c3.pins == q3 && c3.ir_step == 3 && c3.s == s2);
    assert(wired_run(c, p, m, 3) == (c3, q3, m2));
    let c4 = tick_spec(c3, q3);
    assert(c4.pins == q4 && c4.ir_step == 4 && c4.ad == 0xfffe);
    assert(wired_run(c, p, m, 4) == (c4, q4, m3));
    let c5 = tick_spec(c4, q4);
    assert(c5.pins == q5 && c5.ir_step == 5 && c5.ad == 0xffff);
    assert(wired_run(c, p, m, 5) == (c5, r5, m3));
    let c6 = tick_spec(c5, r5);
    assert(c6.pins == q6 && c6.ir_step == 6 && c6.ad == lo as u16);
    assert(wired_run(c, p, m, 6) == (c6, r6, m3));
    let c7 = tick_spec(c6, r6);
    assert(c7.pins == q7 && c7.pc == vector);
    assert(wired_run(c, p, m, 7) == (c7, r7, m3));
}

/// PHA, LDA immediate, PLA: pushing A, loading another byte and pulling
/// gives back A and S, with N and Z set by A, nine cycles later; X and Y
/// are kept and only the pushed byte is written.
#[verifier::rlimit(80)]
pub proof fn lemma_pha_lda_pla(c: M6502View, p: u32, m: Seq<u8>)
    requires
        m.len() == 0x1_0000,
        pins_sync(p),
        p & (M6502_IRQ | M6502_NMI | M6502_RDY | M6502_RES) == 0,
        pins_data(p) == 0x48,
        pins_addr(p) == c.pc,
        c.break_flags == 0,
        c.irq_pip == 0,
        c.nmi_pip == 0,
        m.update((0x0100u16 | (c.s as u16)) as int, c.a)[c.pc.wrapping_add(1) as int] == 0xa9,
        m.update((0x0100u16 | (c.s as u16)) as int, c.a)[c.pc.wrapping_add(3) as int] == 0x68,
    ensures
        ({
            let m1 = m.update((0x0100u16 | (c.s as u16)) as int, c.a);
            let w = m1[c.pc.wrapping_add(2) as int];
            let (c9, p9, m9) = wired_run(c, p, m, 9);
            &&& c9.a == c.a
            &&& c9.s == c.s
            &&& c9.flags == nz_flags(nz_flags(c.flags, w), c.a)
            &&& c9.x == c.x && c9.y == c.y
            &&& c9.pc == c.pc.wrapping_add(4)
            &&& m9 == m1
            &&& pins_sync(p9)
        }),
{
    let s0 = c.s;
    lemma_cycle_pins(0, 0, 0, 0, 0, 0, 0, 0);
    lemma_pha(c, p, m);
    let r3 = wired_run(c, p, m, 3);
    let c3 = r3.0;
    assert(c3.irq_pip & 0x400 == 0 && c3.nmi_pip & 0xfc00 == 0);
    assert(c3.pc.wrapping_add(1) == c.pc.wrapping_add(2));
    assert(c3.pc.wrapping_add(2) == c.pc.wrapping_add(3));
    lemma_lda_immediate(c3, r3.1, r3.2);
    let r5 = wired_run(c3, r3.1, r3.2, 2);
    let c5 = r5.0;
    assert(c5.irq_pip & 0x400 == 0 && c5.nmi_pip & 0xfc00 == 0);
    assert(c5.s.wrapping_add(1) == s0);
    assert(c5.pc.wrapping_add(1) == c.pc.wrapping_add(4));
    lemma_pla(c5, r5.1, r5.2);
    lemma_wired_run_append(c, p, m, 3, 2);
    lemma_wired_run_append(c, p, m, 5, 4);
    lemma_wired_run_append(c3, r3.1, r3.2, 2, 4);
}

/// Facts of bit arithmetic on the pins over a run of cycles: the opcode
/// fetch that starts it, a read cycle (the address driven, the memory's
/// answer on the data lines), and the fetch of the next opcode.
proof fn lemma_cycle_pins(x: u32, y: u32, w: u32, a: u16, d: u8, t: u16, e1: u8, e2: u8)
    by (bit_vector)
    ensures
        x & (M6502_IRQ | M6502_NMI | M6502_RDY | M6502_RES) == 0 && x & M6502_SYNC != 0 ==> {
            &&& x & (M6502_SYNC | M6502_IRQ | M6502_NMI | M6502_RDY | M6502_RES) != 0
            &&& !(x & M6502_RDY != 0 && x & M6502_RW != 0)
            &&& x & (x ^ y) & M6502_NMI == 0
            &&& x & M6502_RES == 0
            &&& x & M6502_IRQ == 0
            &&& (x & !M6502_SYNC) & (M6502_SYNC | M6502_IRQ | M6502_NMI | M6502_RDY | M6502_RES) == 0
        },
        w & (M6502_SYNC | M6502_IRQ | M6502_NMI | M6502_RDY | M6502_RES) == 0 ==> {
            let q = set_addr(w | M6502_RW, a);
            let f = set_addr(w | M6502_RW, a) | M6502_SYNC;
            &&& q & M6502_RW != 0
            &&& (q & 0xffff) as u16 == a
            &&& ((q & 0xff0000) >> 16) as u8 == ((w & 0xff0000) >> 16) as u8
            &&& set_data(q, d) & (M6502_SYNC | M6502_IRQ | M6502_NMI | M6502_RDY | M6502_RES) == 0
            &&& ((set_data(q, d) & 0xff0000) >> 16) as u8 == d
            &&& f & M6502_RW != 0
            &&& (f & 0xffff) as u16 == a
            &&& ((f & 0xff0000) >> 16) as u8 == ((w & 0xff0000) >> 16) as u8
            &&& set_data(f, d) & M6502_SYNC != 0
            &&& (set_data(f, d) & 0xffff) as u16 == a
            &&& ((set_data(f, d) & 0xff0000) >> 16) as u8 == d
            &&& set_data(f, d) & (M6502_IRQ | M6502_NMI | M6502_RDY | M6502_RES) == 0
        },
        x & (M6502_IRQ | M6502_NMI | M6502_RDY) == 0 && x & M6502_SYNC != 0 && x & M6502_RES != 0 ==> {
            &&& x & (M6502_SYNC | M6502_IRQ | M6502_NMI | M6502_RDY | M6502_RES) != 0
            &&& !(x & M6502_RDY != 0 && x & M6502_RW != 0)
            &&& x & (x ^ y) & M6502_NMI == 0
            &&& x & M6502_IRQ == 0
            &&& ((x & !M6502_SYNC) & !M6502_RES) & (M6502_SYNC | M6502_IRQ | M6502_NMI | M6502_RDY | M6502_RES) == 0
        },
        w & (M6502_SYNC | M6502_IRQ | M6502_NMI | M6502_RDY | M6502_RES) == 0 ==> {
            let q = set_data(set_addr(w | M6502_RW, a), d);
            &&& q & M6502_RW != 0
            &&& (q & 0xffff) as u16 == a
            &&& set_data(q, e1) & (M6502_SYNC | M6502_IRQ | M6502_NMI | M6502_RDY | M6502_RES) == 0
            &&& ((set_data(q, e1) & 0xff0000) >> 16) as u8 == e1
        },
        0u8 | BREAK_RESET == BREAK_RESET && BREAK_RESET & BREAK_IRQ == 0 && BREAK_RESET & BREAK_NMI == 0,
        BREAK_RESET & BREAK_RESET != 0 && (e1 | FLAG_X) | 0u8 == e1 | FLAG_X,
        (e1 | FLAG_I | FLAG_B) & FLAG_I != 0,
        0u8 & BREAK_IRQ == 0 && 0u8 & BREAK_NMI == 0 && 0u8 & BREAK_RESET == 0,
        ((e1 | FLAG_X | FLAG_B) | FLAG_I | FLAG_B) == e1 | FLAG_I | FLAG_B | FLAG_X,
        0u16 & 0x3ff == 0u16 && 0u16 << 1u16 == 0u16 && 0u16 & 0x400 == 0u16 && 0u16 & 0xfc00 == 0u16,
        (((((t >> 8u16) as u8) as u16) << 8u16) | ((t as u8) as u16)) == t,
        e1 != e2 ==> (0x0100u16 | (e1 as u16)) != (0x0100u16 | (e2 as u16)),
        set_addr(set_addr(w | M6502_RW, a), t) == set_addr(w | M6502_RW, t),
        ((w | M6502_RW) & 0xff0000) >> 16 == (w & 0xff0000) >> 16,
        w & (M6502_SYNC | M6502_IRQ | M6502_NMI | M6502_RDY | M6502_RES) == 0 ==> {
            let q = set_data(set_addr(w | M6502_RW, a), d) & !M6502_RW;
            &&& q & M6502_RW == 0
            &&& (q & 0xffff) as u16 == a
            &&& ((q & 0xff0000) >> 16) as u8 == d
            &&& q & (M6502_SYNC | M6502_IRQ | M6502_NMI | M6502_RDY | M6502_RES) == 0
        },
{
}

} // verus!
