//! The cycle-by-cycle steps of every 65C02 opcode.
use vstd::prelude::*;
use crate::consts::M6502_RW;
use super::{M6502, CPUPins, step_count, pins_sync, FLAG_N, FLAG_V, FLAG_X, FLAG_B, FLAG_D, FLAG_I, FLAG_Z, FLAG_C, BREAK_IRQ, BREAK_NMI, BREAK_RESET};

use super::steps::{
    step_spec, step_spec_0, step_spec_1, step_spec_2, step_spec_3, step_spec_4, step_spec_5, step_spec_6, step_spec_7,
    step_spec_8, step_spec_9, step_spec_a, step_spec_b, step_spec_c, step_spec_d, step_spec_e, step_spec_f,
};

verus! {

proof fn lemma_low_bit(x: u8)
    by (bit_vector)
    ensures
        x & 1 <= 1,
{
}

/// Runs step `ir_step` of opcode `ir`.
pub(super) fn step(cpu: &mut M6502, pins: &mut CPUPins)
    requires
        old(cpu)@.ir_step < step_count(old(cpu)@.ir),
    ensures
        (final(cpu)@, final(pins)@) == step_spec(old(cpu)@, old(pins)@),
        final(cpu)@.ir == old(cpu)@.ir,
        final(cpu)@.last_ir_pc == old(cpu)@.last_ir_pc,
        pins_sync(final(pins)@) || final(cpu)@.ir_step + 1 < step_count(final(cpu)@.ir),
        final(cpu)@.ir_step <= old(cpu)@.ir_step + 2,
        old(cpu)@.ir_step == 0 ==> final(cpu)@.ir_step == 0 && final(cpu)@.break_flags == old(cpu)@.break_flags,
{
    if cpu.ir < 0x10 {
        step_0(cpu, pins);
    } else if cpu.ir < 0x20 {
        step_1(cpu, pins);
    } else if cpu.ir < 0x30 {
        step_2(cpu, pins);
    } else if cpu.ir < 0x40 {
        step_3(cpu, pins);
    } else if cpu.ir < 0x50 {
        step_4(cpu, pins);
    } else if cpu.ir < 0x60 {
        step_5(cpu, pins);
    } else if cpu.ir < 0x70 {
        step_6(cpu, pins);
    } else if cpu.ir < 0x80 {
        step_7(cpu, pins);
    } else if cpu.ir < 0x90 {
        step_8(cpu, pins);
    } else if cpu.ir < 0xa0 {
        step_9(cpu, pins);
    } else if cpu.ir < 0xb0 {
        step_a(cpu, pins);
    } else if cpu.ir < 0xc0 {
        step_b(cpu, pins);
    } else if cpu.ir < 0xd0 {
        step_c(cpu, pins);
    } else if cpu.ir < 0xe0 {
        step_d(cpu, pins);
    } else if cpu.ir < 0xf0 {
        step_e(cpu, pins);
    } else {
        step_f(cpu, pins);
    }
}

/// Steps of opcodes 0x00 to 0x0F.
#[verifier::rlimit(40)]
fn step_0(cpu: &mut M6502, pins: &mut CPUPins)
    requires
        old(cpu)@.ir < 0x10,
        old(cpu)@.ir_step < step_count(old(cpu)@.ir),
    ensures
        (final(cpu)@, final(pins)@) == step_spec_0(old(cpu)@, old(pins)@),
        final(cpu)@.ir == old(cpu)@.ir,
        final(cpu)@.last_ir_pc == old(cpu)@.last_ir_pc,
        pins_sync(final(pins)@) || final(cpu)@.ir_step + 1 < step_count(final(cpu)@.ir),
        final(cpu)@.ir_step <= old(cpu)@.ir_step + 2,
        old(cpu)@.ir_step == 0 ==> final(cpu)@.ir_step == 0 && final(cpu)@.break_flags == old(cpu)@.break_flags,
{
    match cpu.ir {
        // BRK
        0x00 => match cpu.ir_step {
            0 => {
                pins.sa(cpu.pc);
            },
            1 => {
                if (cpu.break_flags.bits & BREAK_IRQ) == 0 && (cpu.break_flags.bits & BREAK_NMI) == 0 {
                    cpu.pc = cpu.pc.wrapping_add(1);
                }
                let t0 = 0x0100 | (cpu.s as u16);
                let t1 = (cpu.pc >> 8u16) as u8;
                pins.sad(t0, t1);
                cpu.s = cpu.s.wrapping_sub(1);
                if (cpu.break_flags.bits & BREAK_RESET) == 0 {
                    pins.pin_off(M6502_RW);
                }
            },
            2 => {
                let t0 = 0x0100 | (cpu.s as u16);
                let t1 = cpu.pc as u8;
                pins.sad(t0, t1);
                cpu.s = cpu.s.wrapping_sub(1);
                if (cpu.break_flags.bits & BREAK_RESET) == 0 {
                    pins.pin_off(M6502_RW);
                }
            },
            3 => {
                let t0 = 0x0100 | (cpu.s as u16);
                let t1 = cpu.flags.bits | FLAG_X | (if cpu.break_flags.bits == 0 { FLAG_B } else { 0u8 });
                pins.sad(t0, t1);
                cpu.s = cpu.s.wrapping_sub(1);
                if (cpu.break_flags.bits & BREAK_RESET) != 0 {
                    cpu.ad = 0xfffc;
                } else {
                    pins.pin_off(M6502_RW);
                    if (cpu.break_flags.bits & BREAK_NMI) != 0 {
                        cpu.ad = 0xfffa;
                    } else {
                        cpu.ad = 0xfffe;
                    }
                }
            },
            4 => {
                pins.sa(cpu.ad);
                cpu.ad = cpu.ad.wrapping_add(1);
                cpu.flags.bits = cpu.flags.bits | FLAG_I | FLAG_B;
                cpu.break_flags.bits = 0;
            },
            5 => {
                pins.sa(cpu.ad);
                cpu.ad = pins.gd() as u16;
            },
            6 => {
                cpu.pc = ((pins.gd() as u16) << 8u16) | cpu.ad;
                pins.fetch(cpu.pc);
            },
            _ => {},
        },
        // ORA (zp,X)
        0x01 => match cpu.ir_step {
            0 => {
                pins.sa(cpu.pc);
                cpu.pc = cpu.pc.wrapping_add(1);
            },
            1 => {
                cpu.ad = pins.gd() as u16;
                pins.sa(cpu.ad);
            },
            2 => {
                cpu.ad = (cpu.ad.wrapping_add(cpu.x as u16))&0xFF;
                pins.sa(cpu.ad);
            },
            3 => {
                let t1 = (cpu.ad.wrapping_add(1))&0xFF;
                pins.sa(t1);
                cpu.ad = pins.gd() as u16;
            },
            4 => {
                let t2 = ((pins.gd() as u16)<<8)|cpu.ad;
                pins.sa(t2);
            },
            5 => {
                cpu.a = cpu.a | (pins.gd());
                let t3 = cpu.a;
                cpu.nz(t3);
                pins.fetch(cpu.pc);
            },
            _ => {},
        },
        // NOP 2 2
        0x02 => match cpu.ir_step {
            0 => {
                pins.sa(cpu.pc);
                cpu.pc = cpu.pc.wrapping_add(1);
            },
            1 => {
                pins.fetch(cpu.pc);
            },
            _ => {},
        },
        // NOP 1 1
        0x03 => match cpu.ir_step {
            0 => {
                pins.fetch(cpu.pc);
            },
            _ => {},
        },
        // TSB zp, 2, 5, A ∨ M → M
        0x04 => match cpu.ir_step {
            0 => {
                pins.sa(cpu.pc);
                cpu.pc = cpu.pc.wrapping_add(1);
            },
            1 => {
                let t4 = pins.gd() as u16;
                pins.sa(t4);
            },
            2 => {
                cpu.ad = pins.gd() as u16;
            },
            3 => {
                let t5 = cpu.ad as u8 & cpu.a;
                cpu.z(t5);
                cpu.ad = cpu.ad | (cpu.a as u16);
                let t6 = cpu.ad as u8;
                pins.sd(t6);
                pins.pin_off(M6502_RW);
            },
            4 => {
                pins.fetch(cpu.pc);
            },
            _ => {},
        },
        // ORA zp
        0x05 => match cpu.ir_step {
            0 => {
                pins.sa(cpu.pc);
                cpu.pc = cpu.pc.wrapping_add(1);
            },
            1 => {
                let t7 = pins.gd() as u16;
                pins.sa(t7);
            },
            2 => {
                cpu.a = cpu.a | (pins.gd());
                let t8 = cpu.a;
                cpu.nz(t8);
                pins.fetch(cpu.pc);
            },
            _ => {},
        },
        // ASL zp
        0x06 => match cpu.ir_step {
            0 => {
                pins.sa(cpu.pc);
                cpu.pc = cpu.pc.wrapping_add(1);
            },
            1 => {
                let t9 = pins.gd() as u16;
                pins.sa(t9);
            },
            2 => {
                cpu.ad = pins.gd() as u16;
                pins.pin_off(M6502_RW);
            },
            3 => {
                let t10 = cpu.ad as u8;
                let t11 = cpu.asl(t10);
                pins.sd(t11);
                pins.pin_off(M6502_RW);
            },
            4 => {
                pins.fetch(cpu.pc);
            },
            _ => {},
        },
        // RMB0
        0x07 => match cpu.ir_step {
            0 => {
                pins.sa(cpu.pc);
                cpu.pc = cpu.pc.wrapping_add(1);
            },
            1 => {
                let t12 = pins.gd() as u16;
                pins.sa(t12);
            },
            2 => {
                cpu.ad = pins.gd() as u16 & !0x1;
            },
            3 => {
                let t13 = cpu.ad as u8;
                pins.sd(t13);
                pins.pin_off(M6502_RW);
            },
            4 => {
                pins.fetch(cpu.pc);
            },
            _ => {},
        },
        // PHP
        0x08 => match cpu.ir_step {
            0 => {
                pins.sa(cpu.pc);
            },
            1 => {
                let t14 = 0x0100|(cpu.s as u16);
                let t15 = (cpu.flags.bits|FLAG_X|FLAG_B);
                pins.sad(t14, t15);
                cpu.s = cpu.s.wrapping_sub(1);
                pins.pin_off(M6502_RW);
            },
            2 => {
                pins.fetch(cpu.pc);
            },
            _ => {},
        },
        // ORA #
        0x09 => match cpu.ir_step {
            0 => {
                pins.sa(cpu.pc);
                cpu.pc = cpu.pc.wrapping_add(1);
            },
            1 => {
                cpu.a = cpu.a | (pins.gd());
                let t16 = cpu.a;
                cpu.nz(t16);
                pins.fetch(cpu.pc);
            },
            _ => {},
        },
        // ASL A
        0x0a => match cpu.ir_step {
            0 => {
                pins.sa(cpu.pc);
            },
            1 => {
                let t17 = cpu.a;
                let t18 = cpu.asl(t17);
                cpu.a = t18;
                pins.fetch(cpu.pc);
            },
            _ => {},
        },
        // NOP 1 1
        0x0b => match cpu.ir_step {
            0 => {
                pins.fetch(cpu.pc);
            },
            _ => {},
        },
        // TSB abs, 3, 6, A ∨ M → M
        0x0c => match cpu.ir_step {
            0 => {
                pins.sa(cpu.pc);
                cpu.pc = cpu.pc.wrapping_add(1);
            },
            1 => {
                pins.sa(cpu.pc);
                cpu.pc = cpu.pc.wrapping_add(1);
                cpu.ad = pins.gd() as u16;
            },
            2 => {
                let t19 = ((pins.gd() as u16)<<8)|cpu.ad;
                pins.sa(t19);
            },
            3 => {
                cpu.ad = pins.gd() as u16;
                pins.pin_off(M6502_RW);
            },
            4 => {
                let t20 = cpu.ad as u8 & cpu.a;
                cpu.z(t20);
                cpu.ad = cpu.ad | (cpu.a as u16);
                let t21 = cpu.ad as u8;
                pins.sd(t21);
                pins.pin_off(M6502_RW);
            },
            5 => {
                pins.fetch(cpu.pc);
            },
            _ => {},
        },
        // ORA abs
        0x0d => match cpu.ir_step {
            0 => {
                pins.sa(cpu.pc);
                cpu.pc = cpu.pc.wrapping_add(1);
            },
            1 => {
                pins.sa(cpu.pc);
                cpu.pc = cpu.pc.wrapping_add(1);
                cpu.ad = pins.gd() as u16;
            },
            2 => {
                let t22 = ((pins.gd() as u16)<<8)|cpu.ad;
                pins.sa(t22);
            },
            3 => {
                cpu.a = cpu.a | (pins.gd());
                let t23 = cpu.a;
                cpu.nz(t23);
                pins.fetch(cpu.pc);
            },
            _ => {},
        },
        // ASL abs
        0x0e => match cpu.ir_step {
            0 => {
                pins.sa(cpu.pc);
                cpu.pc = cpu.pc.wrapping_add(1);
            },
            1 => {
                pins.sa(cpu.pc);
                cpu.pc = cpu.pc.wrapping_add(1);
                cpu.ad = pins.gd() as u16;
            },
            2 => {
                let t24 = ((pins.gd() as u16)<<8)|cpu.ad;
                pins.sa(t24);
            },
            3 => {
                cpu.ad = pins.gd() as u16;
                pins.pin_off(M6502_RW);
            },
            4 => {
                let t25 = cpu.ad as u8;
                let t26 = cpu.asl(t25);
                pins.sd(t26);
                pins.pin_off(M6502_RW);
            },
            5 => {
                pins.fetch(cpu.pc);
            },
            _ => {},
        },
        // BBR0
        0x0f => match cpu.ir_step {
            0 => {
                pins.sa(cpu.pc);
                cpu.pc = cpu.pc.wrapping_add(1);
            },
            1 => {
                let t27 = pins.gd() as u16;
                pins.sa(t27);
            },
            2 => {
                pins.sa(cpu.pc);
                cpu.ad = (pins.gd() & 0x1) as u16;
            },
            3 => {
                pins.sa(cpu.pc);
                if cpu.ad != 0 {
                    cpu.ad = cpu.pc.wrapping_add(1);
                    cpu.ir_step = cpu.ir_step + (2);
                }
            },
            4 => {
                pins.sa(cpu.pc);
                cpu.ad = cpu.pc.wrapping_add(1).wrapping_add(pins.gd() as u16) as u16;
            },
            5 => {
                let t28 = (cpu.pc&0xFF00)|(cpu.ad&0x00FF);
                pins.sa(t28);
                if (cpu.ad&0xFF00)==(cpu.pc&0xFF00) {
                    cpu.pc = cpu.ad;
                    cpu.irq_pip = cpu.irq_pip >> 1;
                    cpu.nmi_pip = cpu.nmi_pip >> 1;
                    pins.fetch(cpu.pc);
                }
            },
            6 => {
                cpu.pc = cpu.ad;
                pins.fetch(cpu.pc);
            },
            _ => {},
        },
        _ => {},
    }
}

/// Steps of opcodes 0x10 to 0x1F.
#[verifier::rlimit(40)]
fn step_1(cpu: &mut M6502, pins: &mut CPUPins)
    requires
        0x10 <= old(cpu)@.ir,
        old(cpu)@.ir < 0x20,
        old(cpu)@.ir_step < step_count(old(cpu)@.ir),
    ensures
        (final(cpu)@, final(pins)@) == step_spec_1(old(cpu)@, old(pins)@),
        final(cpu)@.ir == old(cpu)@.ir,
        final(cpu)@.last_ir_pc == old(cpu)@.last_ir_pc,
        pins_sync(final(pins)@) || final(cpu)@.ir_step + 1 < step_count(final(cpu)@.ir),
        final(cpu)@.ir_step <= old(cpu)@.ir_step + 2,
        old(cpu)@.ir_step == 0 ==> final(cpu)@.ir_step == 0 && final(cpu)@.break_flags == old(cpu)@.break_flags,
{
    match cpu.ir {
        // BPL #
        0x10 => match cpu.ir_step {
            0 => {
                pins.sa(cpu.pc);
                cpu.pc = cpu.pc.wrapping_add(1);
            },
            1 => {
                pins.sa(cpu.pc);
                cpu.ad = cpu.pc.wrapping_add((pins.gd() as i8) as u16);
                if (cpu.flags.bits & FLAG_N) != 0 {
                    pins.fetch(cpu.pc);
                }
            },
            2 => {
                let t29 = (cpu.pc&0xFF00)|(cpu.ad&0x00FF);
                pins.sa(t29);
                if (cpu.ad&0xFF00)==(cpu.pc&0xFF00) {
                    cpu.pc = cpu.ad;
                    cpu.irq_pip = cpu.irq_pip >> 1;
                    cpu.nmi_pip = cpu.nmi_pip >> 1;
                    pins.fetch(cpu.pc);
                }
            },
            3 => {
                cpu.pc = cpu.ad;
                pins.fetch(cpu.pc);
            },
            _ => {},
        },
        // ORA (zp),Y
        0x11 => match cpu.ir_step {
            0 => {
                pins.sa(cpu.pc);
                cpu.pc = cpu.pc.wrapping_add(1);
            },
            1 => {
                cpu.ad = pins.gd() as u16;
                pins.sa(cpu.ad);
            },
            2 => {
                let t30 = (cpu.ad.wrapping_add(1))&0xFF;
                pins.sa(t30);
                cpu.ad = pins.gd() as u16;
            },
            3 => {
                cpu.ad = cpu.ad | ((pins.gd() as u16)<<8);
                let t31 = (cpu.ad&0xFF00)|((cpu.ad.wrapping_add(cpu.y as u16))&0xFF);
                pins.sa(t31);
                let v = (cpu.ad>>8).wrapping_sub(cpu.ad.wrapping_add(cpu.y as u16)>>8);
                proof { lemma_low_bit(!v as u8); }
                cpu.ir_step = cpu.ir_step + ((!v as u8) & 1);
            },
            4 => {
                let t32 = cpu.ad.wrapping_add(cpu.y as u16);
                pins.sa(t32);
            },
            5 => {
                cpu.a = cpu.a | (pins.gd());
                let t33 = cpu.a;
                cpu.nz(t33);
                pins.fetch(cpu.pc);
            },
            _ => {},
        },
        // ORA (zp), 2, 5, A ∨ M → A
        0x12 => match cpu.ir_step {
            0 => {
                pins.sa(cpu.pc);
                cpu.pc = cpu.pc.wrapping_add(1);
            },
            1 => {
                cpu.ad = pins.gd() as u16;
                pins.sa(cpu.ad);
            },
            2 => {
                let t34 = (cpu.ad.wrapping_add(1))&0xFF;
                pins.sa(t34);
                cpu.ad = pins.gd() as u16;
            },
            3 => {
                cpu.ad = cpu.ad | ((pins.gd() as u16)<<8);
                pins.sa(cpu.ad);
            },
            4 => {
                cpu.a = cpu.a | (pins.gd());
                let t35 = cpu.a;
                cpu.nz(t35);
                pins.fetch(cpu.pc);
            },
            _ => {},
        },
        // NOP 1 1
        0x13 => match cpu.ir_step {
            0 => {
                pins.fetch(cpu.pc);
            },
            _ => {},
        },
        // TRB zp, 2, 5, ~A ∧ M → M
        0x14 => match cpu.ir_step {
            0 => {
                pins.sa(cpu.pc);
                cpu.pc = cpu.pc.wrapping_add(1);
            },
            1 => {
                let t36 = pins.gd() as u16;
                pins.sa(t36);
            },
            2 => {
                cpu.ad = pins.gd() as u16;
                pins.pin_off(M6502_RW);
            },
            3 => {
                let t37 = cpu.ad as u8 & cpu.a;
                cpu.z(t37);
                cpu.ad = cpu.ad & (!(cpu.a as u16));
                let t38 = cpu.ad as u8;
                pins.sd(t38);
                pins.pin_off(M6502_RW);
            },
            4 => {
                pins.fetch(cpu.pc);
            },
            _ => {},
        },
        // ORA zp,X
        0x15 => match cpu.ir_step {
            0 => {
                pins.sa(cpu.pc);
                cpu.pc = cpu.pc.wrapping_add(1);
            },
            1 => {
                cpu.ad = pins.gd() as u16;
                pins.sa(cpu.ad);
            },
            2 => {
                let t39 = (cpu.ad.wrapping_add(cpu.x as u16))&0x00FF;
                pins.sa(t39);
            },
            3 => {
                cpu.a = cpu.a | (pins.gd());
                let t40 = cpu.a;
                cpu.nz(t40);
                pins.fetch(cpu.pc);
            },
            _ => {},
        },
        // ASL zp,X
        0x16 => match cpu.ir_step {
            0 => {
                pins.sa(cpu.pc);
                cpu.pc = cpu.pc.wrapping_add(1);
            },
            1 => {
                cpu.ad = pins.gd() as u16;
                pins.sa(cpu.ad);
            },
            2 => {
                let t41 = (cpu.ad.wrapping_add(cpu.x as u16))&0x00FF;
                pins.sa(t41);
            },
            3 => {
                cpu.ad = pins.gd() as u16;
                pins.pin_off(M6502_RW);
            },
            4 => {
                let t42 = cpu.ad as u8;
                let t43 = cpu.asl(t42);
                pins.sd(t43);
                pins.pin_off(M6502_RW);
            },
            5 => {
                pins.fetch(cpu.pc);
            },
            _ => {},
        },
        // RMB1
        0x17 => match cpu.ir_step {
            0 => {
                pins.sa(cpu.pc);
                cpu.pc = cpu.pc.wrapping_add(1);
            },
            1 => {
                let t44 = pins.gd() as u16;
                pins.sa(t44);
            },
            2 => {
                cpu.ad = pins.gd() as u16 & !0x2;
            },
            3 => {
                let t45 = cpu.ad as u8;
                pins.sd(t45);
                pins.pin_off(M6502_RW);
            },
            4 => {
                pins.fetch(cpu.pc);
            },
            _ => {},
        },
        // CLC
        0x18 => match cpu.ir_step {
            0 => {
                pins.sa(cpu.pc);
            },
            1 => {
                cpu.flags.bits = cpu.flags.bits & (!FLAG_C);
                pins.fetch(cpu.pc);
            },
            _ => {},
        },
        // ORA abs,Y
        0x19 => match cpu.ir_step {
            0 => {
                pins.sa(cpu.pc);
                cpu.pc = cpu.pc.wrapping_add(1);
            },
            1 => {
                pins.sa(cpu.pc);
                cpu.pc = cpu.pc.wrapping_add(1);
                cpu.ad = pins.gd() as u16;
            },
            2 => {
                cpu.ad = cpu.ad | ((pins.gd() as u16)<<8);
                let t46 = (cpu.ad&0xFF00)|((cpu.ad.wrapping_add(cpu.y as u16))&0xFF);
                pins.sa(t46);
                let v = (cpu.ad>>8).wrapping_sub(cpu.ad.wrapping_add(cpu.y as u16)>>8);
                proof { lemma_low_bit(!v as u8); }
                cpu.ir_step = cpu.ir_step + ((!v as u8) & 1);
            },
            3 => {
                let t47 = cpu.ad.wrapping_add(cpu.y as u16);
                pins.sa(t47);
            },
            4 => {
                cpu.a = cpu.a | (pins.gd());
                let t48 = cpu.a;
                cpu.nz(t48);
                pins.fetch(cpu.pc);
            },
            _ => {},
        },
        // INC A, 1, 2, A + 1 → A
        0x1a => match cpu.ir_step {
            0 => {
                pins.sa(cpu.pc);
            },
            1 => {
                cpu.a = cpu.a.wrapping_add(1);
                let t49 = cpu.a;
                cpu.nz(t49);
                pins.fetch(cpu.pc);
            },
            _ => {},
        },
        // NOP 1 1
        0x1b => match cpu.ir_step {
            0 => {
                pins.fetch(cpu.pc);
            },
            _ => {},
        },
        // TRB abs, 6, 3, ~A ∧ M → M
        0x1c => match cpu.ir_step {
            0 => {
                pins.sa(cpu.pc);
                cpu.pc = cpu.pc.wrapping_add(1);
            },
            1 => {
                pins.sa(cpu.pc);
                cpu.pc = cpu.pc.wrapping_add(1);
                cpu.ad = pins.gd() as u16;
            },
            2 => {
                let t50 = ((pins.gd() as u16)<<8)|cpu.ad;
                pins.sa(t50);
            },
            3 => {
                cpu.ad = pins.gd() as u16;
                pins.pin_off(M6502_RW);
            },
            4 => {
                let t51 = cpu.ad as u8 & cpu.a;
                cpu.z(t51);
                cpu.ad = cpu.ad & (!(cpu.a as u16));
                let t52 = cpu.ad as u8;
                pins.sd(t52);
                pins.pin_off(M6502_RW);
            },
            5 => {
                pins.fetch(cpu.pc);
            },
            _ => {},
        },
        // ORA abs,X
        0x1d => match cpu.ir_step {
            0 => {
                pins.sa(cpu.pc);
                cpu.pc = cpu.pc.wrapping_add(1);
            },
            1 => {
                pins.sa(cpu.pc);
                cpu.pc = cpu.pc.wrapping_add(1);
                cpu.ad = pins.gd() as u16;
            },
            2 => {
                cpu.ad = cpu.ad | ((pins.gd() as u16)<<8);
                let t53 = (cpu.ad&0xFF00)|((cpu.ad.wrapping_add(cpu.x as u16))&0xFF);
                pins.sa(t53);
                let v = (cpu.ad>>8).wrapping_sub(cpu.ad.wrapping_add(cpu.x as u16)>>8);
                proof { lemma_low_bit(!v as u8); }
                cpu.ir_step = cpu.ir_step + ((!v as u8) & 1);
            },
            3 => {
                let t54 = cpu.ad.wrapping_add(cpu.x as u16);
                pins.sa(t54);
            },
            4 => {
                cpu.a = cpu.a | (pins.gd());
                let t55 = cpu.a;
                cpu.nz(t55);
                pins.fetch(cpu.pc);
            },
            _ => {},
        },
        // ASL abs,X
        0x1e => match cpu.ir_step {
            0 => {
                pins.sa(cpu.pc);
                cpu.pc = cpu.pc.wrapping_add(1);
            },
            1 => {
                pins.sa(cpu.pc);
                cpu.pc = cpu.pc.wrapping_add(1);
                cpu.ad = pins.gd() as u16;
            },
            2 => {
                cpu.ad = cpu.ad | ((pins.gd() as u16)<<8);
                let t56 = (cpu.ad&0xFF00)|((cpu.ad.wrapping_add(cpu.x as u16))&0xFF);
                pins.sa(t56);
            },
            3 => {
                let t57 = cpu.ad.wrapping_add(cpu.x as u16);
                pins.sa(t57);
            },
            4 => {
                cpu.ad = pins.gd() as u16;
                pins.pin_off(M6502_RW);
            },
            5 => {
                let t58 = cpu.ad as u8;
                let t59 = cpu.asl(t58);
                pins.sd(t59);
                pins.pin_off(M6502_RW);
            },
            6 => {
                pins.fetch(cpu.pc);
            },
            _ => {},
        },
        // BBR1
        0x1f => match cpu.ir_step {
            0 => {
                pins.sa(cpu.pc);
                cpu.pc = cpu.pc.wrapping_add(1);
            },
            1 => {
                let t60 = pins.gd() as u16;
                pins.sa(t60);
            },
            2 => {
                pins.sa(cpu.pc);
                cpu.ad = (pins.gd() & 0x2) as u16;
            },
            3 => {
                pins.sa(cpu.pc);
                if cpu.ad != 0 {
                    cpu.ad = cpu.pc.wrapping_add(1);
                    cpu.ir_step = cpu.ir_step + (2);
                }
            },
            4 => {
                pins.sa(cpu.pc);
                cpu.ad = cpu.pc.wrapping_add(1).wrapping_add(pins.gd() as u16) as u16;
            },
            5 => {
                let t61 = (cpu.pc&0xFF00)|(cpu.ad&0x00FF);
                pins.sa(t61);
                if (cpu.ad&0xFF00)==(cpu.pc&0xFF00) {
                    cpu.pc = cpu.ad;
                    cpu.irq_pip = cpu.irq_pip >> 1;
                    cpu.nmi_pip = cpu.nmi_pip >> 1;
                    pins.fetch(cpu.pc);
                }
            },
            6 => {
                cpu.pc = cpu.ad;
                pins.fetch(cpu.pc);
            },
            _ => {},
        },
        _ => {},
    }
}

/// Steps of opcodes 0x20 to 0x2F.
#[verifier::rlimit(40)]
fn step_2(cpu: &mut M6502, pins: &mut CPUPins)
    requires
        0x20 <= old(cpu)@.ir,
        old(cpu)@.ir < 0x30,
        old(cpu)@.ir_step < step_count(old(cpu)@.ir),
    ensures
        (final(cpu)@, final(pins)@) == step_spec_2(old(cpu)@, old(pins)@),
        final(cpu)@.ir == old(cpu)@.ir,
        final(cpu)@.last_ir_pc == old(cpu)@.last_ir_pc,
        pins_sync(final(pins)@) || final(cpu)@.ir_step + 1 < step_count(final(cpu)@.ir),
        final(cpu)@.ir_step <= old(cpu)@.ir_step + 2,
        old(cpu)@.ir_step == 0 ==> final(cpu)@.ir_step == 0 && final(cpu)@.break_flags == old(cpu)@.break_flags,
{
    match cpu.ir {
        // JSR
        0x20 => match cpu.ir_step {
            0 => {
                pins.sa(cpu.pc);
                cpu.pc = cpu.pc.wrapping_add(1);
            },
            1 => {
                let t62 = 0x0100|(cpu.s as u16);
                pins.sa(t62);
                cpu.ad = pins.gd() as u16;
            },
            2 => {
                let t63 = 0x0100|(cpu.s as u16);
                let t64 = (cpu.pc>>8) as u8;
                pins.sad(t63, t64);
                cpu.s = cpu.s.wrapping_sub(1);
                pins.pin_off(M6502_RW);
            },
            3 => {
                let t65 = 0x0100|(cpu.s as u16);
                let t66 = cpu.pc as u8;
                pins.sad(t65, t66);
                cpu.s = cpu.s.wrapping_sub(1);
                pins.pin_off(M6502_RW);
            },
            4 => {
                pins.sa(cpu.pc);
            },
            5 => {
                cpu.pc = ((pins.gd() as u16)<<8)|cpu.ad;
                pins.fetch(cpu.pc);
            },
            _ => {},
        },
        // AND (zp,X)
        0x21 => match cpu.ir_step {
            0 => {
                pins.sa(cpu.pc);
                cpu.pc = cpu.pc.wrapping_add(1);
            },
            1 => {
                cpu.ad = pins.gd() as u16;
                pins.sa(cpu.ad);
            },
            2 => {
                cpu.ad = (cpu.ad.wrapping_add(cpu.x as u16))&0xFF;
                pins.sa(cpu.ad);
            },
            3 => {
                let t67 = (cpu.ad.wrapping_add(1))&0xFF;
                pins.sa(t67);
                cpu.ad = pins.gd() as u16;
            },
            4 => {
                let t68 = ((pins.gd() as u16)<<8)|cpu.ad;
                pins.sa(t68);
            },
            5 => {
                cpu.a = cpu.a & (pins.gd());
                let t69 = cpu.a;
                cpu.nz(t69);
                pins.fetch(cpu.pc);
            },
            _ => {},
        },
        // Nop 2 2
        0x22 => match cpu.ir_step {
            0 => {
                pins.sa(cpu.pc);
                cpu.pc = cpu.pc.wrapping_add(1);
            },
            1 => {
                pins.fetch(cpu.pc);
            },
            _ => {},
        },
        // NOP 1 1
        0x23 => match cpu.ir_step {
            0 => {
                pins.fetch(cpu.pc);
            },
            _ => {},
        },
        // BIT zp
        0x24 => match cpu.ir_step {
            0 => {
                pins.sa(cpu.pc);
                cpu.pc = cpu.pc.wrapping_add(1);
            },
            1 => {
                let t70 = pins.gd() as u16;
                pins.sa(t70);
            },
            2 => {
                let t71 = pins.gd();
                cpu.bit(t71);
                pins.fetch(cpu.pc);
            },
            _ => {},
        },
        // AND zp
        0x25 => match cpu.ir_step {
            0 => {
                pins.sa(cpu.pc);
                cpu.pc = cpu.pc.wrapping_add(1);
            },
            1 => {
                let t72 = pins.gd() as u16;
                pins.sa(t72);
            },
            2 => {
                cpu.a = cpu.a & (pins.gd());
                let t73 = cpu.a;
                cpu.nz(t73);
                pins.fetch(cpu.pc);
            },
            _ => {},
        },
        // ROL zp
        0x26 => match cpu.ir_step {
            0 => {
                pins.sa(cpu.pc);
                cpu.pc = cpu.pc.wrapping_add(1);
            },
            1 => {
                let t74 = pins.gd() as u16;
                pins.sa(t74);
            },
            2 => {
                cpu.ad = pins.gd() as u16;
                pins.pin_off(M6502_RW);
            },
            3 => {
                let t75 = cpu.ad as u8;
                let t76 = cpu.rol(t75);
                pins.sd(t76);
                pins.pin_off(M6502_RW);
            },
            4 => {
                pins.fetch(cpu.pc);
            },
            _ => {},
        },
        // RMB2
        0x27 => match cpu.ir_step {
            0 => {
                pins.sa(cpu.pc);
                cpu.pc = cpu.pc.wrapping_add(1);
            },
            1 => {
                let t77 = pins.gd() as u16;
                pins.sa(t77);
            },
            2 => {
                cpu.ad = pins.gd() as u16 & !0x4;
            },
            3 => {
                let t78 = cpu.ad as u8;
                pins.sd(t78);
                pins.pin_off(M6502_RW);
            },
            4 => {
                pins.fetch(cpu.pc);
            },
            _ => {},
        },
        // PLP
        0x28 => match cpu.ir_step {
            0 => {
                pins.sa(cpu.pc);
            },
            1 => {
                let t79 = 0x0100|(cpu.s as u16);
                pins.sa(t79);
                cpu.s = cpu.s.wrapping_add(1);
            },
            2 => {
                let t80 = 0x0100|(cpu.s as u16);
                pins.sa(t80);
            },
            3 => {
                cpu.flags.bits = pins.gd()&!(FLAG_B|FLAG_X);
                pins.fetch(cpu.pc);
            },
            _ => {},
        },
        // AND #
        0x29 => match cpu.ir_step {
            0 => {
                pins.sa(cpu.pc);
                cpu.pc = cpu.pc.wrapping_add(1);
            },
            1 => {
                cpu.a = cpu.a & (pins.gd());
                let t81 = cpu.a;
                cpu.nz(t81);
                pins.fetch(cpu.pc);
            },
            _ => {},
        },
        // ROLA
        0x2a => match cpu.ir_step {
            0 => {
                pins.sa(cpu.pc);
            },
            1 => {
                let t82 = cpu.a;
                let t83 = cpu.rol(t82);
                cpu.a = t83;
                pins.fetch(cpu.pc);
            },
            _ => {},
        },
        // NOP 1 1
        0x2b => match cpu.ir_step {
            0 => {
                pins.fetch(cpu.pc);
            },
            _ => {},
        },
        // BIT abs
        0x2c => match cpu.ir_step {
            0 => {
                pins.sa(cpu.pc);
                cpu.pc = cpu.pc.wrapping_add(1);
            },
            1 => {
                pins.sa(cpu.pc);
                cpu.pc = cpu.pc.wrapping_add(1);
                cpu.ad = pins.gd() as u16;
            },
            2 => {
                let t84 = ((pins.gd() as u16)<<8)|cpu.ad;
                pins.sa(t84);
            },
            3 => {
                let t85 = pins.gd();
                cpu.bit(t85);
                pins.fetch(cpu.pc);
            },
            _ => {},
        },
        // AND abs
        0x2d => match cpu.ir_step {
            0 => {
                pins.sa(cpu.pc);
                cpu.pc = cpu.pc.wrapping_add(1);
            },
            1 => {
                pins.sa(cpu.pc);
                cpu.pc = cpu.pc.wrapping_add(1);
                cpu.ad = pins.gd() as u16;
            },
            2 => {
                let t86 = ((pins.gd() as u16)<<8)|cpu.ad;
                pins.sa(t86);
            },
            3 => {
                cpu.a = cpu.a & (pins.gd());
                let t87 = cpu.a;
                cpu.nz(t87);
                pins.fetch(cpu.pc);
            },
            _ => {},
        },
        // ROL abs
        0x2e => match cpu.ir_step {
            0 => {
                pins.sa(cpu.pc);
                cpu.pc = cpu.pc.wrapping_add(1);
            },
            1 => {
                pins.sa(cpu.pc);
                cpu.pc = cpu.pc.wrapping_add(1);
                cpu.ad = pins.gd() as u16;
            },
            2 => {
                let t88 = ((pins.gd() as u16)<<8)|cpu.ad;
                pins.sa(t88);
            },
            3 => {
                cpu.ad = pins.gd() as u16;
                pins.pin_off(M6502_RW);
            },
            4 => {
                let t89 = cpu.ad as u8;
                let t90 = cpu.rol(t89);
                pins.sd(t90);
                pins.pin_off(M6502_RW);
            },
            5 => {
                pins.fetch(cpu.pc);
            },
            _ => {},
        },
        // BBR2
        0x2f => match cpu.ir_step {
            0 => {
                pins.sa(cpu.pc);
                cpu.pc = cpu.pc.wrapping_add(1);
            },
            1 => {
                let t91 = pins.gd() as u16;
                pins.sa(t91);
            },
            2 => {
                pins.sa(cpu.pc);
                cpu.ad = (pins.gd() & 0x4) as u16;
            },
            3 => {
                pins.sa(cpu.pc);
                if cpu.ad != 0 {
                    cpu.ad = cpu.pc.wrapping_add(1);
                    cpu.ir_step = cpu.ir_step + (2);
                }
            },
            4 => {
                pins.sa(cpu.pc);
                cpu.ad = cpu.pc.wrapping_add(1).wrapping_add(pins.gd() as u16) as u16;
            },
            5 => {
                let t92 = (cpu.pc&0xFF00)|(cpu.ad&0x00FF);
                pins.sa(t92);
                if (cpu.ad&0xFF00)==(cpu.pc&0xFF00) {
                    cpu.pc = cpu.ad;
                    cpu.irq_pip = cpu.irq_pip >> 1;
                    cpu.nmi_pip = cpu.nmi_pip >> 1;
                    pins.fetch(cpu.pc);
                }
            },
            6 => {
                cpu.pc = cpu.ad;
                pins.fetch(cpu.pc);
            },
            _ => {},
        },
        _ => {},
    }
}

/// Steps of opcodes 0x30 to 0x3F.
#[verifier::rlimit(40)]
fn step_3(cpu: &mut M6502, pins: &mut CPUPins)
    requires
        0x30 <= old(cpu)@.ir,
        old(cpu)@.ir < 0x40,
        old(cpu)@.ir_step < step_count(old(cpu)@.ir),
    ensures
        (final(cpu)@, final(pins)@) == step_spec_3(old(cpu)@, old(pins)@),
        final(cpu)@.ir == old(cpu)@.ir,
        final(cpu)@.last_ir_pc == old(cpu)@.last_ir_pc,
        pins_sync(final(pins)@) || final(cpu)@.ir_step + 1 < step_count(final(cpu)@.ir),
        final(cpu)@.ir_step <= old(cpu)@.ir_step + 2,
        old(cpu)@.ir_step == 0 ==> final(cpu)@.ir_step == 0 && final(cpu)@.break_flags == old(cpu)@.break_flags,
{
    match cpu.ir {
        // BMI #
        0x30 => match cpu.ir_step {
            0 => {
                pins.sa(cpu.pc);
                cpu.pc = cpu.pc.wrapping_add(1);
            },
            1 => {
                pins.sa(cpu.pc);
                cpu.ad = cpu.pc.wrapping_add((pins.gd() as i8) as u16);
                if (cpu.flags.bits & FLAG_N) == 0 {
                    pins.fetch(cpu.pc);
                }
            },
            2 => {
                let t93 = (cpu.pc&0xFF00)|(cpu.ad&0x00FF);
                pins.sa(t93);
                if (cpu.ad&0xFF00)==(cpu.pc&0xFF00) {
                    cpu.pc = cpu.ad;
                    cpu.irq_pip = cpu.irq_pip >> 1;
                    cpu.nmi_pip = cpu.nmi_pip >> 1;
                    pins.fetch(cpu.pc);
                }
            },
            3 => {
                cpu.pc = cpu.ad;
                pins.fetch(cpu.pc);
            },
            _ => {},
        },
        // AND (zp),Y
        0x31 => match cpu.ir_step {
            0 => {
                pins.sa(cpu.pc);
                cpu.pc = cpu.pc.wrapping_add(1);
            },
            1 => {
                cpu.ad = pins.gd() as u16;
                pins.sa(cpu.ad);
            },
            2 => {
                let t94 = (cpu.ad.wrapping_add(1))&0xFF;
                pins.sa(t94);
                cpu.ad = pins.gd() as u16;
            },
            3 => {
                cpu.ad = cpu.ad | ((pins.gd() as u16)<<8);
                let t95 = (cpu.ad&0xFF00)|((cpu.ad.wrapping_add(cpu.y as u16))&0xFF);
                pins.sa(t95);
                let v = (cpu.ad>>8).wrapping_sub(cpu.ad.wrapping_add(cpu.y as u16)>>8);
                proof { lemma_low_bit(!v as u8); }
                cpu.ir_step = cpu.ir_step + ((!v as u8) & 1);
            },
            4 => {
                let t96 = cpu.ad.wrapping_add(cpu.y as u16);
                pins.sa(t96);
            },
            5 => {
                cpu.a = cpu.a & (pins.gd());
                let t97 = cpu.a;
                cpu.nz(t97);
                pins.fetch(cpu.pc);
            },
            _ => {},
        },
        // AND (zp), 2, 5, A ∧ M → A
        0x32 => match cpu.ir_step {
            0 => {
                pins.sa(cpu.pc);
                cpu.pc = cpu.pc.wrapping_add(1);
            },
            1 => {
                cpu.ad = pins.gd() as u16;
                pins.sa(cpu.ad);
            },
            2 => {
                let t98 = (cpu.ad.wrapping_add(1))&0xFF;
                pins.sa(t98);
                cpu.ad = pins.gd() as u16;
            },
            3 => {
                cpu.ad = cpu.ad | ((pins.gd() as u16)<<8);
                pins.sa(cpu.ad);
            },
            4 => {
                cpu.a = cpu.a & (pins.gd());
                let t99 = cpu.a;
                cpu.nz(t99);
                pins.fetch(cpu.pc);
            },
            _ => {},
        },
        // NOP 1 1
        0x33 => match cpu.ir_step {
            0 => {
                pins.fetch(cpu.pc);
            },
            _ => {},
        },
        // BIT zp,X, 2, 3, A ∧ M, M7 → N, M6 → V
        0x34 => match cpu.ir_step {
            0 => {
                pins.sa(cpu.pc);
                cpu.pc = cpu.pc.wrapping_add(1);
            },
            1 => {
                cpu.ad = pins.gd() as u16;
                let t100 = (cpu.ad.wrapping_add(cpu.x as u16))&0x00FF;
                pins.sa(t100);
            },
            2 => {
                let t101 = pins.gd();
                cpu.bit(t101);
                pins.fetch(cpu.pc);
            },
            _ => {},
        },
        // AND zp,X
        0x35 => match cpu.ir_step {
            0 => {
                pins.sa(cpu.pc);
                cpu.pc = cpu.pc.wrapping_add(1);
            },
            1 => {
                cpu.ad = pins.gd() as u16;
                pins.sa(cpu.ad);
            },
            2 => {
                let t102 = (cpu.ad.wrapping_add(cpu.x as u16))&0x00FF;
                pins.sa(t102);
            },
            3 => {
                cpu.a = cpu.a & (pins.gd());
                let t103 = cpu.a;
                cpu.nz(t103);
                pins.fetch(cpu.pc);
            },
            _ => {},
        },
        // ROL zp,X
        0x36 => match cpu.ir_step {
            0 => {
                pins.sa(cpu.pc);
                cpu.pc = cpu.pc.wrapping_add(1);
            },
            1 => {
                cpu.ad = pins.gd() as u16;
                pins.sa(cpu.ad);
            },
            2 => {
                let t104 = (cpu.ad.wrapping_add(cpu.x as u16))&0x00FF;
                pins.sa(t104);
            },
            3 => {
                cpu.ad = pins.gd() as u16;
                pins.pin_off(M6502_RW);
            },
            4 => {
                let t105 = cpu.ad as u8;
                let t106 = cpu.rol(t105);
                pins.sd(t106);
                pins.pin_off(M6502_RW);
            },
            5 => {
                pins.fetch(cpu.pc);
            },
            _ => {},
        },
        // RMB3
        0x37 => match cpu.ir_step {
            0 => {
                pins.sa(cpu.pc);
                cpu.pc = cpu.pc.wrapping_add(1);
            },
            1 => {
                let t107 = pins.gd() as u16;
                pins.sa(t107);
            },
            2 => {
                cpu.ad = pins.gd() as u16 & !0x8;
            },
            3 => {
                let t108 = cpu.ad as u8;
                pins.sd(t108);
                pins.pin_off(M6502_RW);
            },
            4 => {
                pins.fetch(cpu.pc);
            },
            _ => {},
        },
        // SEC
        0x38 => match cpu.ir_step {
            0 => {
                pins.sa(cpu.pc);
            },
            1 => {
                cpu.flags.bits = cpu.flags.bits | (FLAG_C);
                pins.fetch(cpu.pc);
            },
            _ => {},
        },
        // AND abs,Y
        0x39 => match cpu.ir_step {
            0 => {
                pins.sa(cpu.pc);
                cpu.pc = cpu.pc.wrapping_add(1);
            },
            1 => {
                pins.sa(cpu.pc);
                cpu.pc = cpu.pc.wrapping_add(1);
                cpu.ad = pins.gd() as u16;
            },
            2 => {
                cpu.ad = cpu.ad | ((pins.gd() as u16)<<8);
                let t109 = (cpu.ad&0xFF00)|((cpu.ad.wrapping_add(cpu.y as u16))&0xFF);
                pins.sa(t109);
                let v = (cpu.ad>>8).wrapping_sub(cpu.ad.wrapping_add(cpu.y as u16)>>8);
                proof { lemma_low_bit(!v as u8); }
                cpu.ir_step = cpu.ir_step + ((!v as u8) & 1);
            },
            3 => {
                let t110 = cpu.ad.wrapping_add(cpu.y as u16);
                pins.sa(t110);
            },
            4 => {
                cpu.a = cpu.a & (pins.gd());
                let t111 = cpu.a;
                cpu.nz(t111);
                pins.fetch(cpu.pc);
            },
            _ => {},
        },
        // DEC A, 2, 1, A - 1 → A
        0x3a => match cpu.ir_step {
            0 => {
                pins.sa(cpu.pc);
            },
            1 => {
                cpu.a = cpu.a.wrapping_sub(1);
                let t112 = cpu.a;
                cpu.nz(t112);
                pins.fetch(cpu.pc);
            },
            _ => {},
        },
        // NOP 1 1
        0x3b => match cpu.ir_step {
            0 => {
                pins.fetch(cpu.pc);
            },
            _ => {},
        },
        // BIT abs,X, 3, 4, A ∧ M, M7 → N, M6 → V
        0x3c => match cpu.ir_step {
            0 => {
                pins.sa(cpu.pc);
                cpu.pc = cpu.pc.wrapping_add(1);
            },
            1 => {
                pins.sa(cpu.pc);
                cpu.pc = cpu.pc.wrapping_add(1);
                cpu.ad = pins.gd() as u16;
            },
            2 => {
                cpu.ad = cpu.ad | ((pins.gd() as u16)<<8);
                let t113 = cpu.ad.wrapping_add(cpu.x as u16);
                pins.sa(t113);
            },
            3 => {
                let t114 = pins.gd();
                cpu.bit(t114);
                pins.fetch(cpu.pc);
            },
            _ => {},
        },
        // AND abs,X
        0x3d => match cpu.ir_step {
            0 => {
                pins.sa(cpu.pc);
                cpu.pc = cpu.pc.wrapping_add(1);
            },
            1 => {
                pins.sa(cpu.pc);
                cpu.pc = cpu.pc.wrapping_add(1);
                cpu.ad = pins.gd() as u16;
            },
            2 => {
                cpu.ad = cpu.ad | ((pins.gd() as u16)<<8);
                let t115 = (cpu.ad&0xFF00)|((cpu.ad.wrapping_add(cpu.x as u16))&0xFF);
                pins.sa(t115);
                let v = (cpu.ad>>8).wrapping_sub(cpu.ad.wrapping_add(cpu.x as u16)>>8);
                proof { lemma_low_bit(!v as u8); }
                cpu.ir_step = cpu.ir_step + ((!v as u8) & 1);
            },
            3 => {
                let t116 = cpu.ad.wrapping_add(cpu.x as u16);
                pins.sa(t116);
            },
            4 => {
                cpu.a = cpu.a & (pins.gd());
                let t117 = cpu.a;
                cpu.nz(t117);
                pins.fetch(cpu.pc);
            },
            _ => {},
        },
        // ROL abs,X
        0x3e => match cpu.ir_step {
            0 => {
                pins.sa(cpu.pc);
                cpu.pc = cpu.pc.wrapping_add(1);
            },
            1 => {
                pins.sa(cpu.pc);
                cpu.pc = cpu.pc.wrapping_add(1);
                cpu.ad = pins.gd() as u16;
            },
            2 => {
                cpu.ad = cpu.ad | ((pins.gd() as u16)<<8);
                let t118 = (cpu.ad&0xFF00)|((cpu.ad.wrapping_add(cpu.x as u16))&0xFF);
                pins.sa(t118);
            },
            3 => {
                let t119 = cpu.ad.wrapping_add(cpu.x as u16);
                pins.sa(t119);
            },
            4 => {
                cpu.ad = pins.gd() as u16;
                pins.pin_off(M6502_RW);
            },
            5 => {
                let t120 = cpu.ad as u8;
                let t121 = cpu.rol(t120);
                pins.sd(t121);
                pins.pin_off(M6502_RW);
            },
            6 => {
                pins.fetch(cpu.pc);
            },
            _ => {},
        },
        // BBR3
        0x3f => match cpu.ir_step {
            0 => {
                pins.sa(cpu.pc);
                cpu.pc = cpu.pc.wrapping_add(1);
            },
            1 => {
                let t122 = pins.gd() as u16;
                pins.sa(t122);
            },
            2 => {
                pins.sa(cpu.pc);
                cpu.ad = (pins.gd() & 0x8) as u16;
            },
            3 => {
                pins.sa(cpu.pc);
                if cpu.ad != 0 {
                    cpu.ad = cpu.pc.wrapping_add(1);
                    cpu.ir_step = cpu.ir_step + (2);
                }
            },
            4 => {
                pins.sa(cpu.pc);
                cpu.ad = cpu.pc.wrapping_add(1).wrapping_add(pins.gd() as u16) as u16;
            },
            5 => {
                let t123 = (cpu.pc&0xFF00)|(cpu.ad&0x00FF);
                pins.sa(t123);
                if (cpu.ad&0xFF00)==(cpu.pc&0xFF00) {
                    cpu.pc = cpu.ad;
                    cpu.irq_pip = cpu.irq_pip >> 1;
                    cpu.nmi_pip = cpu.nmi_pip >> 1;
                    pins.fetch(cpu.pc);
                }
            },
            6 => {
                cpu.pc = cpu.ad;
                pins.fetch(cpu.pc);
            },
            _ => {},
        },
        _ => {},
    }
}

/// Steps of opcodes 0x40 to 0x4F.
#[verifier::rlimit(40)]
fn step_4(cpu: &mut M6502, pins: &mut CPUPins)
    requires
        0x40 <= old(cpu)@.ir,
        old(cpu)@.ir < 0x50,
        old(cpu)@.ir_step < step_count(old(cpu)@.ir),
    ensures
        (final(cpu)@, final(pins)@) == step_spec_4(old(cpu)@, old(pins)@),
        final(cpu)@.ir == old(cpu)@.ir,
        final(cpu)@.last_ir_pc == old(cpu)@.last_ir_pc,
        pins_sync(final(pins)@) || final(cpu)@.ir_step + 1 < step_count(final(cpu)@.ir),
        final(cpu)@.ir_step <= old(cpu)@.ir_step + 2,
        old(cpu)@.ir_step == 0 ==> final(cpu)@.ir_step == 0 && final(cpu)@.break_flags == old(cpu)@.break_flags,
{
    match cpu.ir {
        // RTI
        0x40 => match cpu.ir_step {
            0 => {
                pins.sa(cpu.pc);
            },
            1 => {
                let t124 = 0x0100|(cpu.s as u16);
                pins.sa(t124);
                cpu.s = cpu.s.wrapping_add(1);
            },
            2 => {
                let t125 = 0x0100|(cpu.s as u16);
                pins.sa(t125);
                cpu.s = cpu.s.wrapping_add(1);
            },
            3 => {
                let t126 = 0x0100|(cpu.s as u16);
                pins.sa(t126);
                cpu.s = cpu.s.wrapping_add(1);
                cpu.flags.bits = pins.gd()&!(FLAG_B|FLAG_X);
            },
            4 => {
                let t127 = 0x0100|(cpu.s as u16);
                pins.sa(t127);
                cpu.ad = pins.gd() as u16;
            },
            5 => {
                cpu.pc = ((pins.gd() as u16)<<8)|cpu.ad;
                pins.fetch(cpu.pc);
            },
            _ => {},
        },
        // EOR (zp,X)
        0x41 => match cpu.ir_step {
            0 => {
                pins.sa(cpu.pc);
                cpu.pc = cpu.pc.wrapping_add(1);
            },
            1 => {
                cpu.ad = pins.gd() as u16;
                pins.sa(cpu.ad);
            },
            2 => {
                cpu.ad = (cpu.ad.wrapping_add(cpu.x as u16))&0xFF;
                pins.sa(cpu.ad);
            },
            3 => {
                let t128 = (cpu.ad.wrapping_add(1))&0xFF;
                pins.sa(t128);
                cpu.ad = pins.gd() as u16;
            },
            4 => {
                let t129 = ((pins.gd() as u16)<<8)|cpu.ad;
                pins.sa(t129);
            },
            5 => {
                cpu.a = cpu.a ^ (pins.gd());
                let t130 = cpu.a;
                cpu.nz(t130);
                pins.fetch(cpu.pc);
            },
            _ => {},
        },
        // NOP 2 2
        0x42 => match cpu.ir_step {
            0 => {
                pins.sa(cpu.pc);
                cpu.pc = cpu.pc.wrapping_add(1);
            },
            1 => {
                pins.fetch(cpu.pc);
            },
            _ => {},
        },
        // NOP 1 1
        0x43 => match cpu.ir_step {
            0 => {
                pins.fetch(cpu.pc);
            },
            _ => {},
        },
        // NOP 2 3
        0x44 => match cpu.ir_step {
            0 => {
                pins.sa(cpu.pc);
                cpu.pc = cpu.pc.wrapping_add(1);
            },
            1 => {
                pins.sa(cpu.pc);
            },
            2 => {
                pins.fetch(cpu.pc);
            },
            _ => {},
        },
        // EOR zp
        0x45 => match cpu.ir_step {
            0 => {
                pins.sa(cpu.pc);
                cpu.pc = cpu.pc.wrapping_add(1);
            },
            1 => {
                let t131 = pins.gd() as u16;
                pins.sa(t131);
            },
            2 => {
                cpu.a = cpu.a ^ (pins.gd());
                let t132 = cpu.a;
                cpu.nz(t132);
                pins.fetch(cpu.pc);
            },
            _ => {},
        },
        // LSR zp
        0x46 => match cpu.ir_step {
            0 => {
                pins.sa(cpu.pc);
                cpu.pc = cpu.pc.wrapping_add(1);
            },
            1 => {
                let t133 = pins.gd() as u16;
                pins.sa(t133);
            },
            2 => {
                cpu.ad = pins.gd() as u16;
                pins.pin_off(M6502_RW);
            },
            3 => {
                let t134 = cpu.ad as u8;
                let t135 = cpu.lsr(t134);
                pins.sd(t135);
                pins.pin_off(M6502_RW);
            },
            4 => {
                pins.fetch(cpu.pc);
            },
            _ => {},
        },
        // RMB4
        0x47 => match cpu.ir_step {
            0 => {
                pins.sa(cpu.pc);
                cpu.pc = cpu.pc.wrapping_add(1);
            },
            1 => {
                let t136 = pins.gd() as u16;
                pins.sa(t136);
            },
            2 => {
                cpu.ad = pins.gd() as u16 & !0x10;
            },
            3 => {
                let t137 = cpu.ad as u8;
                pins.sd(t137);
                pins.pin_off(M6502_RW);
            },
            4 => {
                pins.fetch(cpu.pc);
            },
            _ => {},
        },
        // PHA
        0x48 => match cpu.ir_step {
            0 => {
                pins.sa(cpu.pc);
            },
            1 => {
                let t138 = 0x0100|(cpu.s as u16);
                pins.sad(t138, cpu.a);
                cpu.s = cpu.s.wrapping_sub(1);
                pins.pin_off(M6502_RW);
            },
            2 => {
                pins.fetch(cpu.pc);
            },
            _ => {},
        },
        // EOR #
        0x49 => match cpu.ir_step {
            0 => {
                pins.sa(cpu.pc);
                cpu.pc = cpu.pc.wrapping_add(1);
            },
            1 => {
                cpu.a = cpu.a ^ (pins.gd());
                let t139 = cpu.a;
                cpu.nz(t139);
                pins.fetch(cpu.pc);
            },
            _ => {},
        },
        // LSRA
        0x4a => match cpu.ir_step {
            0 => {
                pins.sa(cpu.pc);
            },
            1 => {
                let t140 = cpu.a;
                let t141 = cpu.lsr(t140);
                cpu.a = t141;
                pins.fetch(cpu.pc);
            },
            _ => {},
        },
        // NOP 1 1
        0x4b => match cpu.ir_step {
            0 => {
                pins.fetch(cpu.pc);
            },
            _ => {},
        },
        // JMP
        0x4c => match cpu.ir_step {
            0 => {
                pins.sa(cpu.pc);
                cpu.pc = cpu.pc.wrapping_add(1);
            },
            1 => {
                pins.sa(cpu.pc);
                cpu.pc = cpu.pc.wrapping_add(1);
                cpu.ad = pins.gd() as u16;
            },
            2 => {
                cpu.pc = ((pins.gd() as u16)<<8)|cpu.ad;
                pins.fetch(cpu.pc);
            },
            _ => {},
        },
        // EOR abs
        0x4d => match cpu.ir_step {
            0 => {
                pins.sa(cpu.pc);
                cpu.pc = cpu.pc.wrapping_add(1);
            },
            1 => {
                pins.sa(cpu.pc);
                cpu.pc = cpu.pc.wrapping_add(1);
                cpu.ad = pins.gd() as u16;
            },
            2 => {
                let t142 = ((pins.gd() as u16)<<8)|cpu.ad;
                pins.sa(t142);
            },
            3 => {
                cpu.a = cpu.a ^ (pins.gd());
                let t143 = cpu.a;
                cpu.nz(t143);
                pins.fetch(cpu.pc);
            },
            _ => {},
        },
        // LSR abs
        0x4e => match cpu.ir_step {
            0 => {
                pins.sa(cpu.pc);
                cpu.pc = cpu.pc.wrapping_add(1);
            },
            1 => {
                pins.sa(cpu.pc);
                cpu.pc = cpu.pc.wrapping_add(1);
                cpu.ad = pins.gd() as u16;
            },
            2 => {
                let t144 = ((pins.gd() as u16)<<8)|cpu.ad;
                pins.sa(t144);
            },
            3 => {
                cpu.ad = pins.gd() as u16;
                pins.pin_off(M6502_RW);
            },
            4 => {
                let t145 = cpu.ad as u8;
                let t146 = cpu.lsr(t145);
                pins.sd(t146);
                pins.pin_off(M6502_RW);
            },
            5 => {
                pins.fetch(cpu.pc);
            },
            _ => {},
        },
        // BBR4
        0x4f => match cpu.ir_step {
            0 => {
                pins.sa(cpu.pc);
                cpu.pc = cpu.pc.wrapping_add(1);
            },
            1 => {
                let t147 = pins.gd() as u16;
                pins.sa(t147);
            },
            2 => {
                pins.sa(cpu.pc);
                cpu.ad = (pins.gd() & 0x10) as u16;
            },
            3 => {
                pins.sa(cpu.pc);
                if cpu.ad != 0 {
                    cpu.ad = cpu.pc.wrapping_add(1);
                    cpu.ir_step = cpu.ir_step + (2);
                }
            },
            4 => {
                pins.sa(cpu.pc);
                cpu.ad = cpu.pc.wrapping_add(1).wrapping_add(pins.gd() as u16) as u16;
            },
            5 => {
                let t148 = (cpu.pc&0xFF00)|(cpu.ad&0x00FF);
                pins.sa(t148);
                if (cpu.ad&0xFF00)==(cpu.pc&0xFF00) {
                    cpu.pc = cpu.ad;
                    cpu.irq_pip = cpu.irq_pip >> 1;
                    cpu.nmi_pip = cpu.nmi_pip >> 1;
                    pins.fetch(cpu.pc);
                }
            },
            6 => {
                cpu.pc = cpu.ad;
                pins.fetch(cpu.pc);
            },
            _ => {},
        },
        _ => {},
    }
}

/// Steps of opcodes 0x50 to 0x5F.
#[verifier::rlimit(40)]
fn step_5(cpu: &mut M6502, pins: &mut CPUPins)
    requires
        0x50 <= old(cpu)@.ir,
        old(cpu)@.ir < 0x60,
        old(cpu)@.ir_step < step_count(old(cpu)@.ir),
    ensures
        (final(cpu)@, final(pins)@) == step_spec_5(old(cpu)@, old(pins)@),
        final(cpu)@.ir == old(cpu)@.ir,
        final(cpu)@.last_ir_pc == old(cpu)@.last_ir_pc,
        pins_sync(final(pins)@) || final(cpu)@.ir_step + 1 < step_count(final(cpu)@.ir),
        final(cpu)@.ir_step <= old(cpu)@.ir_step + 2,
        old(cpu)@.ir_step == 0 ==> final(cpu)@.ir_step == 0 && final(cpu)@.break_flags == old(cpu)@.break_flags,
{
    match cpu.ir {
        // BVC #
        0x50 => match cpu.ir_step {
            0 => {
                pins.sa(cpu.pc);
                cpu.pc = cpu.pc.wrapping_add(1);
            },
            1 => {
                pins.sa(cpu.pc);
                cpu.ad = cpu.pc.wrapping_add((pins.gd() as i8) as u16);
                if (cpu.flags.bits & FLAG_V) != 0 {
                    pins.fetch(cpu.pc);
                }
            },
            2 => {
                let t149 = (cpu.pc&0xFF00)|(cpu.ad&0x00FF);
                pins.sa(t149);
                if (cpu.ad&0xFF00)==(cpu.pc&0xFF00) {
                    cpu.pc = cpu.ad;
                    cpu.irq_pip = cpu.irq_pip >> 1;
                    cpu.nmi_pip = cpu.nmi_pip >> 1;
                    pins.fetch(cpu.pc);
                }
            },
            3 => {
                cpu.pc = cpu.ad;
                pins.fetch(cpu.pc);
            },
            _ => {},
        },
        // EOR (zp),Y
        0x51 => match cpu.ir_step {
            0 => {
                pins.sa(cpu.pc);
                cpu.pc = cpu.pc.wrapping_add(1);
            },
            1 => {
                cpu.ad = pins.gd() as u16;
                pins.sa(cpu.ad);
            },
            2 => {
                let t150 = (cpu.ad.wrapping_add(1))&0xFF;
                pins.sa(t150);
                cpu.ad = pins.gd() as u16;
            },
            3 => {
                cpu.ad = cpu.ad | ((pins.gd() as u16)<<8);
                let t151 = (cpu.ad&0xFF00)|((cpu.ad.wrapping_add(cpu.y as u16))&0xFF);
                pins.sa(t151);
                let v = (cpu.ad>>8).wrapping_sub(cpu.ad.wrapping_add(cpu.y as u16)>>8);
                proof { lemma_low_bit(!v as u8); }
                cpu.ir_step = cpu.ir_step + ((!v as u8) & 1);
            },
            4 => {
                let t152 = cpu.ad.wrapping_add(cpu.y as u16);
                pins.sa(t152);
            },
            5 => {
                cpu.a = cpu.a ^ (pins.gd());
                let t153 = cpu.a;
                cpu.nz(t153);
                pins.fetch(cpu.pc);
            },
            _ => {},
        },
        // EOR (zp), 2, 5, A ⊻ M → A
        0x52 => match cpu.ir_step {
            0 => {
                pins.sa(cpu.pc);
                cpu.pc = cpu.pc.wrapping_add(1);
            },
            1 => {
                cpu.ad = pins.gd() as u16;
                pins.sa(cpu.ad);
            },
            2 => {
                let t154 = (cpu.ad.wrapping_add(1))&0xFF;
                pins.sa(t154);
                cpu.ad = pins.gd() as u16;
            },
            3 => {
                cpu.ad = cpu.ad | ((pins.gd() as u16)<<8);
                pins.sa(cpu.ad);
            },
            4 => {
                cpu.a = cpu.a ^ (pins.gd());
                let t155 = cpu.a;
                cpu.nz(t155);
                pins.fetch(cpu.pc);
            },
            _ => {},
        },
        // NOP 1 1
        0x53 => match cpu.ir_step {
            0 => {
                pins.fetch(cpu.pc);
            },
            _ => {},
        },
        // NOP 2 3
        0x54 => match cpu.ir_step {
            0 => {
                pins.sa(cpu.pc);
                cpu.pc = cpu.pc.wrapping_add(1);
            },
            1 => {
                pins.sa(cpu.pc);
            },
            2 => {
                pins.fetch(cpu.pc);
            },
            _ => {},
        },
        // EOR zp,X
        0x55 => match cpu.ir_step {
            0 => {
                pins.sa(cpu.pc);
                cpu.pc = cpu.pc.wrapping_add(1);
            },
            1 => {
                cpu.ad = pins.gd() as u16;
                pins.sa(cpu.ad);
            },
            2 => {
                let t156 = (cpu.ad.wrapping_add(cpu.x as u16))&0x00FF;
                pins.sa(t156);
            },
            3 => {
                cpu.a = cpu.a ^ (pins.gd());
                let t157 = cpu.a;
                cpu.nz(t157);
                pins.fetch(cpu.pc);
            },
            _ => {},
        },
        // LSR zp,X
        0x56 => match cpu.ir_step {
            0 => {
                pins.sa(cpu.pc);
                cpu.pc = cpu.pc.wrapping_add(1);
            },
            1 => {
                cpu.ad = pins.gd() as u16;
                pins.sa(cpu.ad);
            },
            2 => {
                let t158 = (cpu.ad.wrapping_add(cpu.x as u16))&0x00FF;
                pins.sa(t158);
            },
            3 => {
                cpu.ad = pins.gd() as u16;
                pins.pin_off(M6502_RW);
            },
            4 => {
                let t159 = cpu.ad as u8;
                let t160 = cpu.lsr(t159);
                pins.sd(t160);
                pins.pin_off(M6502_RW);
            },
            5 => {
                pins.fetch(cpu.pc);
            },
            _ => {},
        },
        // RMB5
        0x57 => match cpu.ir_step {
            0 => {
                pins.sa(cpu.pc);
                cpu.pc = cpu.pc.wrapping_add(1);
            },
            1 => {
                let t161 = pins.gd() as u16;
                pins.sa(t161);
            },
            2 => {
                cpu.ad = pins.gd() as u16 & !0x20;
            },
            3 => {
                let t162 = cpu.ad as u8;
                pins.sd(t162);
                pins.pin_off(M6502_RW);
            },
            4 => {
                pins.fetch(cpu.pc);
            },
            _ => {},
        },
        // CLI
        0x58 => match cpu.ir_step {
            0 => {
                pins.sa(cpu.pc);
            },
            1 => {
                cpu.flags.bits = cpu.flags.bits & (!FLAG_I);
                pins.fetch(cpu.pc);
            },
            _ => {},
        },
        // EOR abs,Y
        0x59 => match cpu.ir_step {
            0 => {
                pins.sa(cpu.pc);
                cpu.pc = cpu.pc.wrapping_add(1);
            },
            1 => {
                pins.sa(cpu.pc);
                cpu.pc = cpu.pc.wrapping_add(1);
                cpu.ad = pins.gd() as u16;
            },
            2 => {
                cpu.ad = cpu.ad | ((pins.gd() as u16)<<8);
                let t163 = (cpu.ad&0xFF00)|((cpu.ad.wrapping_add(cpu.y as u16))&0xFF);
                pins.sa(t163);
                let v = (cpu.ad>>8).wrapping_sub(cpu.ad.wrapping_add(cpu.y as u16)>>8);
                proof { lemma_low_bit(!v as u8); }
                cpu.ir_step = cpu.ir_step + ((!v as u8) & 1);
            },
            3 => {
                let t164 = cpu.ad.wrapping_add(cpu.y as u16);
                pins.sa(t164);
            },
            4 => {
                cpu.a = cpu.a ^ (pins.gd());
                let t165 = cpu.a;
                cpu.nz(t165);
                pins.fetch(cpu.pc);
            },
            _ => {},
        },
        // PHY, 1, 3, Y↑
        0x5a => match cpu.ir_step {
            0 => {
                pins.sa(cpu.pc);
            },
            1 => {
                let t166 = 0x0100|(cpu.s as u16);
                pins.sad(t166, cpu.y);
                cpu.s = cpu.s.wrapping_sub(1);
                pins.pin_off(M6502_RW);
            },
            2 => {
                pins.fetch(cpu.pc);
            },
            _ => {},
        },
        // NOP 1 1
        0x5b => match cpu.ir_step {
            0 => {
                pins.fetch(cpu.pc);
            },
            _ => {},
        },
        // NOP 3 8
        0x5c => match cpu.ir_step {
            0 => {
                pins.sa(cpu.pc);
                cpu.pc = cpu.pc.wrapping_add(1);
            },
            1 => {
                pins.sa(cpu.pc);
                cpu.pc = cpu.pc.wrapping_add(1);
            },
            2 => {
                pins.sa(cpu.pc);
            },
            3 => {
                pins.sa(cpu.pc);
            },
            4 => {
                pins.sa(cpu.pc);
            },
            5 => {
                pins.sa(cpu.pc);
            },
            6 => {
                pins.sa(cpu.pc);
            },
            7 => {
                pins.fetch(cpu.pc);
            },
            _ => {},
        },
        // EOR abs,X
        0x5d => match cpu.ir_step {
            0 => {
                pins.sa(cpu.pc);
                cpu.pc = cpu.pc.wrapping_add(1);
            },
            1 => {
                pins.sa(cpu.pc);
                cpu.pc = cpu.pc.wrapping_add(1);
                cpu.ad = pins.gd() as u16;
            },
            2 => {
                cpu.ad = cpu.ad | ((pins.gd() as u16)<<8);
                let t167 = (cpu.ad&0xFF00)|((cpu.ad.wrapping_add(cpu.x as u16))&0xFF);
                pins.sa(t167);
                let v = (cpu.ad>>8).wrapping_sub(cpu.ad.wrapping_add(cpu.x as u16)>>8);
                proof { lemma_low_bit(!v as u8); }
                cpu.ir_step = cpu.ir_step + ((!v as u8) & 1);
            },
            3 => {
                let t168 = cpu.ad.wrapping_add(cpu.x as u16);
                pins.sa(t168);
            },
            4 => {
                cpu.a = cpu.a ^ (pins.gd());
                let t169 = cpu.a;
                cpu.nz(t169);
                pins.fetch(cpu.pc);
            },
            _ => {},
        },
        // LSR abs,X
        0x5e => match cpu.ir_step {
            0 => {
                pins.sa(cpu.pc);
                cpu.pc = cpu.pc.wrapping_add(1);
            },
            1 => {
                pins.sa(cpu.pc);
                cpu.pc = cpu.pc.wrapping_add(1);
                cpu.ad = pins.gd() as u16;
            },
            2 => {
                cpu.ad = cpu.ad | ((pins.gd() as u16)<<8);
                let t170 = (cpu.ad&0xFF00)|((cpu.ad.wrapping_add(cpu.x as u16))&0xFF);
                pins.sa(t170);
            },
            3 => {
                let t171 = cpu.ad.wrapping_add(cpu.x as u16);
                pins.sa(t171);
            },
            4 => {
                cpu.ad = pins.gd() as u16;
                pins.pin_off(M6502_RW);
            },
            5 => {
                let t172 = cpu.ad as u8;
                let t173 = cpu.lsr(t172);
                pins.sd(t173);
                pins.pin_off(M6502_RW);
            },
            6 => {
                pins.fetch(cpu.pc);
            },
            _ => {},
        },
        // BBR5
        0x5f => match cpu.ir_step {
            0 => {
                pins.sa(cpu.pc);
                cpu.pc = cpu.pc.wrapping_add(1);
            },
            1 => {
                let t174 = pins.gd() as u16;
                pins.sa(t174);
            },
            2 => {
                pins.sa(cpu.pc);
                cpu.ad = (pins.gd() & 0x20) as u16;
            },
            3 => {
                pins.sa(cpu.pc);
                if cpu.ad != 0 {
                    cpu.ad = cpu.pc.wrapping_add(1);
                    cpu.ir_step = cpu.ir_step + (2);
                }
            },
            4 => {
                pins.sa(cpu.pc);
                cpu.ad = cpu.pc.wrapping_add(1).wrapping_add(pins.gd() as u16) as u16;
            },
            5 => {
                let t175 = (cpu.pc&0xFF00)|(cpu.ad&0x00FF);
                pins.sa(t175);
                if (cpu.ad&0xFF00)==(cpu.pc&0xFF00) {
                    cpu.pc = cpu.ad;
                    cpu.irq_pip = cpu.irq_pip >> 1;
                    cpu.nmi_pip = cpu.nmi_pip >> 1;
                    pins.fetch(cpu.pc);
                }
            },
            6 => {
                cpu.pc = cpu.ad;
                pins.fetch(cpu.pc);
            },
            _ => {},
        },
        _ => {},
    }
}

/// Steps of opcodes 0x60 to 0x6F.
#[verifier::rlimit(40)]
fn step_6(cpu: &mut M6502, pins: &mut CPUPins)
    requires
        0x60 <= old(cpu)@.ir,
        old(cpu)@.ir < 0x70,
        old(cpu)@.ir_step < step_count(old(cpu)@.ir),
    ensures
        (final(cpu)@, final(pins)@) == step_spec_6(old(cpu)@, old(pins)@),
        final(cpu)@.ir == old(cpu)@.ir,
        final(cpu)@.last_ir_pc == old(cpu)@.last_ir_pc,
        pins_sync(final(pins)@) || final(cpu)@.ir_step + 1 < step_count(final(cpu)@.ir),
        final(cpu)@.ir_step <= old(cpu)@.ir_step + 2,
        old(cpu)@.ir_step == 0 ==> final(cpu)@.ir_step == 0 && final(cpu)@.break_flags == old(cpu)@.break_flags,
{
    match cpu.ir {
        // RTS
        0x60 => match cpu.ir_step {
            0 => {
                pins.sa(cpu.pc);
            },
            1 => {
                let t176 = 0x0100|(cpu.s as u16);
                pins.sa(t176);
                cpu.s = cpu.s.wrapping_add(1);
            },
            2 => {
                let t177 = 0x0100|(cpu.s as u16);
                pins.sa(t177);
                cpu.s = cpu.s.wrapping_add(1);
            },
            3 => {
                let t178 = 0x0100|(cpu.s as u16);
                pins.sa(t178);
                cpu.ad = pins.gd() as u16;
            },
            4 => {
                cpu.pc = ((pins.gd() as u16)<<8)|cpu.ad;
                pins.sa(cpu.pc);
                cpu.pc = cpu.pc.wrapping_add(1);
            },
            5 => {
                pins.fetch(cpu.pc);
            },
            _ => {},
        },
        // ADC (zp,X)
        0x61 => match cpu.ir_step {
            0 => {
                pins.sa(cpu.pc);
                cpu.pc = cpu.pc.wrapping_add(1);
            },
            1 => {
                cpu.ad = pins.gd() as u16;
                pins.sa(cpu.ad);
            },
            2 => {
                cpu.ad = (cpu.ad.wrapping_add(cpu.x as u16))&0xFF;
                pins.sa(cpu.ad);
            },
            3 => {
                let t179 = (cpu.ad.wrapping_add(1))&0xFF;
                pins.sa(t179);
                cpu.ad = pins.gd() as u16;
            },
            4 => {
                let t180 = ((pins.gd() as u16)<<8)|cpu.ad;
                pins.sa(t180);
            },
            5 => {
                let t181 = pins.gd();
                cpu.adc(t181);
                pins.fetch(cpu.pc);
            },
            _ => {},
        },
        // Nop 2 2
        0x62 => match cpu.ir_step {
            0 => {
                pins.sa(cpu.pc);
                cpu.pc = cpu.pc.wrapping_add(1);
            },
            1 => {
                pins.fetch(cpu.pc);
            },
            _ => {},
        },
        // NOP 1 1
        0x63 => match cpu.ir_step {
            0 => {
                pins.fetch(cpu.pc);
            },
            _ => {},
        },
        // STZ zp
        0x64 => match cpu.ir_step {
            0 => {
                pins.sa(cpu.pc);
                cpu.pc = cpu.pc.wrapping_add(1);
            },
            1 => {
                let t182 = pins.gd() as u16;
                pins.sa(t182);
                pins.sd(0);
                pins.pin_off(M6502_RW);
            },
            2 => {
                pins.fetch(cpu.pc);
            },
            _ => {},
        },
        // ADC zp
        0x65 => match cpu.ir_step {
            0 => {
                pins.sa(cpu.pc);
                cpu.pc = cpu.pc.wrapping_add(1);
            },
            1 => {
                let t183 = pins.gd() as u16;
                pins.sa(t183);
            },
            2 => {
                let t184 = pins.gd();
                cpu.adc(t184);
                pins.fetch(cpu.pc);
            },
            _ => {},
        },
        // ROR zp
        0x66 => match cpu.ir_step {
            0 => {
                pins.sa(cpu.pc);
                cpu.pc = cpu.pc.wrapping_add(1);
            },
            1 => {
                let t185 = pins.gd() as u16;
                pins.sa(t185);
            },
            2 => {
                cpu.ad = pins.gd() as u16;
                pins.pin_off(M6502_RW);
            },
            3 => {
                let t186 = cpu.ad as u8;
                let t187 = cpu.ror(t186);
                pins.sd(t187);
                pins.pin_off(M6502_RW);
            },
            4 => {
                pins.fetch(cpu.pc);
            },
            _ => {},
        },
        // RMB6
        0x67 => match cpu.ir_step {
            0 => {
                pins.sa(cpu.pc);
                cpu.pc = cpu.pc.wrapping_add(1);
            },
            1 => {
                let t188 = pins.gd() as u16;
                pins.sa(t188);
            },
            2 => {
                cpu.ad = pins.gd() as u16 & !0x40;
            },
            3 => {
                let t189 = cpu.ad as u8;
                pins.sd(t189);
                pins.pin_off(M6502_RW);
            },
            4 => {
                pins.fetch(cpu.pc);
            },
            _ => {},
        },
        // PLA
        0x68 => match cpu.ir_step {
            0 => {
                pins.sa(cpu.pc);
            },
            1 => {
                let t190 = 0x0100|(cpu.s as u16);
                pins.sa(t190);
                cpu.s = cpu.s.wrapping_add(1);
            },
            2 => {
                let t191 = 0x0100|(cpu.s as u16);
                pins.sa(t191);
            },
            3 => {
                cpu.a = pins.gd();
                let t192 = cpu.a;
                cpu.nz(t192);
                pins.fetch(cpu.pc);
            },
            _ => {},
        },
        // ADC #
        0x69 => match cpu.ir_step {
            0 => {
                pins.sa(cpu.pc);
                cpu.pc = cpu.pc.wrapping_add(1);
            },
            1 => {
                let t193 = pins.gd();
                cpu.adc(t193);
                pins.fetch(cpu.pc);
            },
            _ => {},
        },
        // ROR A
        0x6a => match cpu.ir_step {
            0 => {
                pins.sa(cpu.pc);
            },
            1 => {
                let t194 = cpu.a;
                let t195 = cpu.ror(t194);
                cpu.a = t195;
                pins.fetch(cpu.pc);
            },
            _ => {},
        },
        // NOP 1 1
        0x6b => match cpu.ir_step {
            0 => {
                pins.fetch(cpu.pc);
            },
            _ => {},
        },
        // JMPI
        0x6c => match cpu.ir_step {
            0 => {
                pins.sa(cpu.pc);
                cpu.pc = cpu.pc.wrapping_add(1);
            },
            1 => {
                pins.sa(cpu.pc);
                cpu.pc = cpu.pc.wrapping_add(1);
                cpu.ad = pins.gd() as u16;
            },
            2 => {
                cpu.ad = cpu.ad | ((pins.gd() as u16)<<8);
                pins.sa(cpu.ad);
            },
            3 => {
                let t196 = (cpu.ad & 0xFF00)|((cpu.ad.wrapping_add(1))&0x00FF);
                pins.sa(t196);
                cpu.ad = pins.gd() as u16;
            },
            4 => {
                cpu.pc = ((pins.gd() as u16)<<8)|cpu.ad;
                pins.fetch(cpu.pc);
            },
            _ => {},
        },
        // ADC abs
        0x6d => match cpu.ir_step {
            0 => {
                pins.sa(cpu.pc);
                cpu.pc = cpu.pc.wrapping_add(1);
            },
            1 => {
                pins.sa(cpu.pc);
                cpu.pc = cpu.pc.wrapping_add(1);
                cpu.ad = pins.gd() as u16;
            },
            2 => {
                let t197 = ((pins.gd() as u16)<<8)|cpu.ad;
                pins.sa(t197);
            },
            3 => {
                let t198 = pins.gd();
                cpu.adc(t198);
                pins.fetch(cpu.pc);
            },
            _ => {},
        },
        // ROR abs
        0x6e => match cpu.ir_step {
            0 => {
                pins.sa(cpu.pc);
                cpu.pc = cpu.pc.wrapping_add(1);
            },
            1 => {
                pins.sa(cpu.pc);
                cpu.pc = cpu.pc.wrapping_add(1);
                cpu.ad = pins.gd() as u16;
            },
            2 => {
                let t199 = ((pins.gd() as u16)<<8)|cpu.ad;
                pins.sa(t199);
            },
            3 => {
                cpu.ad = pins.gd() as u16;
                pins.pin_off(M6502_RW);
            },
            4 => {
                let t200 = cpu.ad as u8;
                let t201 = cpu.ror(t200);
                pins.sd(t201);
                pins.pin_off(M6502_RW);
            },
            5 => {
                pins.fetch(cpu.pc);
            },
            _ => {},
        },
        // BBR6
        0x6f => match cpu.ir_step {
            0 => {
                pins.sa(cpu.pc);
                cpu.pc = cpu.pc.wrapping_add(1);
            },
            1 => {
                let t202 = pins.gd() as u16;
                pins.sa(t202);
            },
            2 => {
                pins.sa(cpu.pc);
                cpu.ad = (pins.gd() & 0x40) as u16;
            },
            3 => {
                pins.sa(cpu.pc);
                if cpu.ad != 0 {
                    cpu.ad = cpu.pc.wrapping_add(1);
                    cpu.ir_step = cpu.ir_step + (2);
                }
            },
            4 => {
                pins.sa(cpu.pc);
                cpu.ad = cpu.pc.wrapping_add(1).wrapping_add(pins.gd() as u16) as u16;
            },
            5 => {
                let t203 = (cpu.pc&0xFF00)|(cpu.ad&0x00FF);
                pins.sa(t203);
                if (cpu.ad&0xFF00)==(cpu.pc&0xFF00) {
                    cpu.pc = cpu.ad;
                    cpu.irq_pip = cpu.irq_pip >> 1;
                    cpu.nmi_pip = cpu.nmi_pip >> 1;
                    pins.fetch(cpu.pc);
                }
            },
            6 => {
                cpu.pc = cpu.ad;
                pins.fetch(cpu.pc);
            },
            _ => {},
        },
        _ => {},
    }
}

/// Steps of opcodes 0x70 to 0x7F.
#[verifier::rlimit(40)]
fn step_7(cpu: &mut M6502, pins: &mut CPUPins)
    requires
        0x70 <= old(cpu)@.ir,
        old(cpu)@.ir < 0x80,
        old(cpu)@.ir_step < step_count(old(cpu)@.ir),
    ensures
        (final(cpu)@, final(pins)@) == step_spec_7(old(cpu)@, old(pins)@),
        final(cpu)@.ir == old(cpu)@.ir,
        final(cpu)@.last_ir_pc == old(cpu)@.last_ir_pc,
        pins_sync(final(pins)@) || final(cpu)@.ir_step + 1 < step_count(final(cpu)@.ir),
        final(cpu)@.ir_step <= old(cpu)@.ir_step + 2,
        old(cpu)@.ir_step == 0 ==> final(cpu)@.ir_step == 0 && final(cpu)@.break_flags == old(cpu)@.break_flags,
{
    match cpu.ir {
        // BVS #
        0x70 => match cpu.ir_step {
            0 => {
                pins.sa(cpu.pc);
                cpu.pc = cpu.pc.wrapping_add(1);
            },
            1 => {
                pins.sa(cpu.pc);
                cpu.ad = cpu.pc.wrapping_add((pins.gd() as i8) as u16);
                if (cpu.flags.bits & FLAG_V) == 0 {
                    pins.fetch(cpu.pc);
                }
            },
            2 => {
                let t204 = (cpu.pc&0xFF00)|(cpu.ad&0x00FF);
                pins.sa(t204);
                if (cpu.ad&0xFF00)==(cpu.pc&0xFF00) {
                    cpu.pc = cpu.ad;
                    cpu.irq_pip = cpu.irq_pip >> 1;
                    cpu.nmi_pip = cpu.nmi_pip >> 1;
                    pins.fetch(cpu.pc);
                }
            },
            3 => {
                cpu.pc = cpu.ad;
                pins.fetch(cpu.pc);
            },
            _ => {},
        },
        // ADC (zp),Y
        0x71 => match cpu.ir_step {
            0 => {
                pins.sa(cpu.pc);
                cpu.pc = cpu.pc.wrapping_add(1);
            },
            1 => {
                cpu.ad = pins.gd() as u16;
                pins.sa(cpu.ad);
            },
            2 => {
                let t205 = (cpu.ad.wrapping_add(1))&0xFF;
                pins.sa(t205);
                cpu.ad = pins.gd() as u16;
            },
            3 => {
                cpu.ad = cpu.ad | ((pins.gd() as u16)<<8);
                let t206 = (cpu.ad&0xFF00)|((cpu.ad.wrapping_add(cpu.y as u16))&0xFF);
                pins.sa(t206);
                let v = (cpu.ad>>8).wrapping_sub(cpu.ad.wrapping_add(cpu.y as u16)>>8);
                proof { lemma_low_bit(!v as u8); }
                cpu.ir_step = cpu.ir_step + ((!v as u8) & 1);
            },
            4 => {
                let t207 = cpu.ad.wrapping_add(cpu.y as u16);
                pins.sa(t207);
            },
            5 => {
                let t208 = pins.gd();
                cpu.adc(t208);
                pins.fetch(cpu.pc);
            },
            _ => {},
        },
        // ADC (zp), 2, 5-6, A + M + C → A, C
        0x72 => match cpu.ir_step {
            0 => {
                pins.sa(cpu.pc);
                cpu.pc = cpu.pc.wrapping_add(1);
            },
            1 => {
                cpu.ad = pins.gd() as u16;
                pins.sa(cpu.ad);
            },
            2 => {
                let t209 = (cpu.ad.wrapping_add(1))&0xFF;
                pins.sa(t209);
                cpu.ad = pins.gd() as u16;
            },
            3 => {
                cpu.ad = cpu.ad | ((pins.gd() as u16)<<8);
                pins.sa(cpu.ad);
            },
            4 => {
                let t210 = pins.gd();
                cpu.adc(t210);
                pins.fetch(cpu.pc);
            },
            _ => {},
        },
        // NOP 1 1
        0x73 => match cpu.ir_step {
            0 => {
                pins.fetch(cpu.pc);
            },
            _ => {},
        },
        // STZ zp,X
        0x74 => match cpu.ir_step {
            0 => {
                pins.sa(cpu.pc);
                cpu.pc = cpu.pc.wrapping_add(1);
            },
            1 => {
                cpu.ad = pins.gd() as u16;
                pins.sa(cpu.ad);
            },
            2 => {
                let t211 = (cpu.ad.wrapping_add(cpu.x as u16))&0x00FF;
                pins.sa(t211);
                pins.sd(0);
                pins.pin_off(M6502_RW);
            },
            3 => {
                pins.fetch(cpu.pc);
            },
            _ => {},
        },
        // ADC zp,X
        0x75 => match cpu.ir_step {
            0 => {
                pins.sa(cpu.pc);
                cpu.pc = cpu.pc.wrapping_add(1);
            },
            1 => {
                cpu.ad = pins.gd() as u16;
                pins.sa(cpu.ad);
            },
            2 => {
                let t212 = (cpu.ad.wrapping_add(cpu.x as u16))&0x00FF;
                pins.sa(t212);
            },
            3 => {
                let t213 = pins.gd();
                cpu.adc(t213);
                pins.fetch(cpu.pc);
            },
            _ => {},
        },
        // ROR zp,X
        0x76 => match cpu.ir_step {
            0 => {
                pins.sa(cpu.pc);
                cpu.pc = cpu.pc.wrapping_add(1);
            },
            1 => {
                cpu.ad = pins.gd() as u16;
                pins.sa(cpu.ad);
            },
            2 => {
                let t214 = (cpu.ad.wrapping_add(cpu.x as u16))&0x00FF;
                pins.sa(t214);
            },
            3 => {
                cpu.ad = pins.gd() as u16;
                pins.pin_off(M6502_RW);
            },
            4 => {
                let t215 = cpu.ad as u8;
                let t216 = cpu.ror(t215);
                pins.sd(t216);
                pins.pin_off(M6502_RW);
            },
            5 => {
                pins.fetch(cpu.pc);
            },
            _ => {},
        },
        // RMB7
        0x77 => match cpu.ir_step {
            0 => {
                pins.sa(cpu.pc);
                cpu.pc = cpu.pc.wrapping_add(1);
            },
            1 => {
                let t217 = pins.gd() as u16;
                pins.sa(t217);
            },
            2 => {
                cpu.ad = pins.gd() as u16 & !0x80;
            },
            3 => {
                let t218 = cpu.ad as u8;
                pins.sd(t218);
                pins.pin_off(M6502_RW);
            },
            4 => {
                pins.fetch(cpu.pc);
            },
            _ => {},
        },
        // SEI
        0x78 => match cpu.ir_step {
            0 => {
                pins.sa(cpu.pc);
            },
            1 => {
                cpu.flags.bits = cpu.flags.bits | (FLAG_I);
                pins.fetch(cpu.pc);
            },
            _ => {},
        },
        // ADC abs,Y
        0x79 => match cpu.ir_step {
            0 => {
                pins.sa(cpu.pc);
                cpu.pc = cpu.pc.wrapping_add(1);
            },
            1 => {
                pins.sa(cpu.pc);
                cpu.pc = cpu.pc.wrapping_add(1);
                cpu.ad = pins.gd() as u16;
            },
            2 => {
                cpu.ad = cpu.ad | ((pins.gd() as u16)<<8);
                let t219 = (cpu.ad&0xFF00)|((cpu.ad.wrapping_add(cpu.y as u16))&0xFF);
                pins.sa(t219);
                let v = (cpu.ad>>8).wrapping_sub(cpu.ad.wrapping_add(cpu.y as u16)>>8);
                proof { lemma_low_bit(!v as u8); }
                cpu.ir_step = cpu.ir_step + ((!v as u8) & 1);
            },
            3 => {
                let t220 = cpu.ad.wrapping_add(cpu.y as u16);
                pins.sa(t220);
            },
            4 => {
                let t221 = pins.gd();
                cpu.adc(t221);
                pins.fetch(cpu.pc);
            },
            _ => {},
        },
        // PLY, 1, 4, Y↑
        0x7a => match cpu.ir_step {
            0 => {
                pins.sa(cpu.pc);
            },
            1 => {
                let t222 = 0x0100|(cpu.s as u16);
                pins.sa(t222);
                cpu.s = cpu.s.wrapping_add(1);
            },
            2 => {
                let t223 = 0x0100|(cpu.s as u16);
                pins.sa(t223);
            },
            3 => {
                cpu.y = pins.gd();
                let t224 = cpu.y;
                cpu.nz(t224);
                pins.fetch(cpu.pc);
            },
            _ => {},
        },
        // NOP 1 1
        0x7b => match cpu.ir_step {
            0 => {
                pins.fetch(cpu.pc);
            },
            _ => {},
        },
        // JMP (abs, X), 3, 6, [PC + 1] → PCL, [PC + 2] → PCH
        0x7c => match cpu.ir_step {
            0 => {
                pins.sa(cpu.pc);
                cpu.pc = cpu.pc.wrapping_add(1);
            },
            1 => {
                pins.sa(cpu.pc);
                cpu.pc = cpu.pc.wrapping_add(1);
                cpu.ad = pins.gd() as u16;
            },
            2 => {
                cpu.ad = cpu.ad | ((pins.gd() as u16)<<8);
            },
            3 => {
                cpu.ad = cpu.ad.wrapping_add(cpu.x as u16);
                pins.sa(cpu.ad);
            },
            4 => {
                let t225 = cpu.ad.wrapping_add(1);
                pins.sa(t225);
                cpu.ad = pins.gd() as u16;
            },
            5 => {
                cpu.pc = ((pins.gd() as u16)<<8)|cpu.ad;
                pins.fetch(cpu.pc);
            },
            _ => {},
        },
        // ADC abs,X
        0x7d => match cpu.ir_step {
            0 => {
                pins.sa(cpu.pc);
                cpu.pc = cpu.pc.wrapping_add(1);
            },
            1 => {
                pins.sa(cpu.pc);
                cpu.pc = cpu.pc.wrapping_add(1);
                cpu.ad = pins.gd() as u16;
            },
            2 => {
                cpu.ad = cpu.ad | ((pins.gd() as u16)<<8);
                let t226 = (cpu.ad&0xFF00)|((cpu.ad.wrapping_add(cpu.x as u16))&0xFF);
                pins.sa(t226);
                let v = (cpu.ad>>8).wrapping_sub(cpu.ad.wrapping_add(cpu.x as u16)>>8);
                proof { lemma_low_bit(!v as u8); }
                cpu.ir_step = cpu.ir_step + ((!v as u8) & 1);
            },
            3 => {
                let t227 = cpu.ad.wrapping_add(cpu.x as u16);
                pins.sa(t227);
            },
            4 => {
                let t228 = pins.gd();
                cpu.adc(t228);
                pins.fetch(cpu.pc);
            },
            _ => {},
        },
        // ROR abs,X
        0x7e => match cpu.ir_step {
            0 => {
                pins.sa(cpu.pc);
                cpu.pc = cpu.pc.wrapping_add(1);
            },
            1 => {
                pins.sa(cpu.pc);
                cpu.pc = cpu.pc.wrapping_add(1);
                cpu.ad = pins.gd() as u16;
            },
            2 => {
                cpu.ad = cpu.ad | ((pins.gd() as u16)<<8);
                let t229 = (cpu.ad&0xFF00)|((cpu.ad.wrapping_add(cpu.x as u16))&0xFF);
                pins.sa(t229);
            },
            3 => {
                let t230 = cpu.ad.wrapping_add(cpu.x as u16);
                pins.sa(t230);
            },
            4 => {
                cpu.ad = pins.gd() as u16;
                pins.pin_off(M6502_RW);
            },
            5 => {
                let t231 = cpu.ad as u8;
                let t232 = cpu.ror(t231);
                pins.sd(t232);
                pins.pin_off(M6502_RW);
            },
            6 => {
                pins.fetch(cpu.pc);
            },
            _ => {},
        },
        // BBR7
        0x7f => match cpu.ir_step {
            0 => {
                pins.sa(cpu.pc);
                cpu.pc = cpu.pc.wrapping_add(1);
            },
            1 => {
                let t233 = pins.gd() as u16;
                pins.sa(t233);
            },
            2 => {
                pins.sa(cpu.pc);
                cpu.ad = (pins.gd() & 0x80) as u16;
            },
            3 => {
                pins.sa(cpu.pc);
                if cpu.ad != 0 {
                    cpu.ad = cpu.pc.wrapping_add(1);
                    cpu.ir_step = cpu.ir_step + (2);
                }
            },
            4 => {
                pins.sa(cpu.pc);
                cpu.ad = cpu.pc.wrapping_add(1).wrapping_add(pins.gd() as u16) as u16;
            },
            5 => {
                let t234 = (cpu.pc&0xFF00)|(cpu.ad&0x00FF);
                pins.sa(t234);
                if (cpu.ad&0xFF00)==(cpu.pc&0xFF00) {
                    cpu.pc = cpu.ad;
                    cpu.irq_pip = cpu.irq_pip >> 1;
                    cpu.nmi_pip = cpu.nmi_pip >> 1;
                    pins.fetch(cpu.pc);
                }
            },
            6 => {
                cpu.pc = cpu.ad;
                pins.fetch(cpu.pc);
            },
            _ => {},
        },
        _ => {},
    }
}

/// Steps of opcodes 0x80 to 0x8F.
#[verifier::rlimit(40)]
fn step_8(cpu: &mut M6502, pins: &mut CPUPins)
    requires
        0x80 <= old(cpu)@.ir,
        old(cpu)@.ir < 0x90,
        old(cpu)@.ir_step < step_count(old(cpu)@.ir),
    ensures
        (final(cpu)@, final(pins)@) == step_spec_8(old(cpu)@, old(pins)@),
        final(cpu)@.ir == old(cpu)@.ir,
        final(cpu)@.last_ir_pc == old(cpu)@.last_ir_pc,
        pins_sync(final(pins)@) || final(cpu)@.ir_step + 1 < step_count(final(cpu)@.ir),
        final(cpu)@.ir_step <= old(cpu)@.ir_step + 2,
        old(cpu)@.ir_step == 0 ==> final(cpu)@.ir_step == 0 && final(cpu)@.break_flags == old(cpu)@.break_flags,
{
    match cpu.ir {
        // BRA
        0x80 => match cpu.ir_step {
            0 => {
                pins.sa(cpu.pc);
                cpu.pc = cpu.pc.wrapping_add(1);
            },
            1 => {
                pins.sa(cpu.pc);
                cpu.ad = cpu.pc.wrapping_add((pins.gd() as i8) as u16);
            },
            2 => {
                cpu.pc = cpu.ad;
                pins.fetch(cpu.pc);
            },
            _ => {},
        },
        // STA (zp,X)
        0x81 => match cpu.ir_step {
            0 => {
                pins.sa(cpu.pc);
                cpu.pc = cpu.pc.wrapping_add(1);
            },
            1 => {
                cpu.ad = pins.gd() as u16;
                pins.sa(cpu.ad);
            },
            2 => {
                cpu.ad = (cpu.ad.wrapping_add(cpu.x as u16))&0xFF;
                pins.sa(cpu.ad);
            },
            3 => {
                let t235 = (cpu.ad.wrapping_add(1))&0xFF;
                pins.sa(t235);
                cpu.ad = pins.gd() as u16;
            },
            4 => {
                let t236 = ((pins.gd() as u16)<<8)|cpu.ad;
                pins.sa(t236);
                pins.sd(cpu.a);
                pins.pin_off(M6502_RW);
            },
            5 => {
                pins.fetch(cpu.pc);
            },
            _ => {},
        },
        // Nop 2 2
        0x82 => match cpu.ir_step {
            0 => {
                pins.sa(cpu.pc);
                cpu.pc = cpu.pc.wrapping_add(1);
            },
            1 => {
                pins.fetch(cpu.pc);
            },
            _ => {},
        },
        // NOP 1 1
        0x83 => match cpu.ir_step {
            0 => {
                pins.fetch(cpu.pc);
            },
            _ => {},
        },
        // STY zp
        0x84 => match cpu.ir_step {
            0 => {
                pins.sa(cpu.pc);
                cpu.pc = cpu.pc.wrapping_add(1);
            },
            1 => {
                let t237 = pins.gd() as u16;
                pins.sa(t237);
                pins.sd(cpu.y);
                pins.pin_off(M6502_RW);
            },
            2 => {
                pins.fetch(cpu.pc);
            },
            _ => {},
        },
        // STA zp
        0x85 => match cpu.ir_step {
            0 => {
                pins.sa(cpu.pc);
                cpu.pc = cpu.pc.wrapping_add(1);
            },
            1 => {
                let t238 = pins.gd() as u16;
                pins.sa(t238);
                pins.sd(cpu.a);
                pins.pin_off(M6502_RW);
            },
            2 => {
                pins.fetch(cpu.pc);
            },
            _ => {},
        },
        // STX zp
        0x86 => match cpu.ir_step {
            0 => {
                pins.sa(cpu.pc);
                cpu.pc = cpu.pc.wrapping_add(1);
            },
            1 => {
                let t239 = pins.gd() as u16;
                pins.sa(t239);
                pins.sd(cpu.x);
                pins.pin_off(M6502_RW);
            },
            2 => {
                pins.fetch(cpu.pc);
            },
            _ => {},
        },
        // SMB0
        0x87 => match cpu.ir_step {
            0 => {
                pins.sa(cpu.pc);
                cpu.pc = cpu.pc.wrapping_add(1);
            },
            1 => {
                let t240 = pins.gd() as u16;
                pins.sa(t240);
            },
            2 => {
                cpu.ad = pins.gd() as u16 | 0x1;
            },
            3 => {
                let t241 = cpu.ad as u8;
                pins.sd(t241);
                pins.pin_off(M6502_RW);
            },
            4 => {
                pins.fetch(cpu.pc);
            },
            _ => {},
        },
        // DEY
        0x88 => match cpu.ir_step {
            0 => {
                pins.sa(cpu.pc);
            },
            1 => {
                cpu.y = cpu.y.wrapping_sub(1);
                let t242 = cpu.y;
                cpu.nz(t242);
                pins.fetch(cpu.pc);
            },
            _ => {},
        },
        // BIT # , 2, 3, A ∧ M, M7 → N, M6 → V
        0x89 => match cpu.ir_step {
            0 => {
                pins.sa(cpu.pc);
                cpu.pc = cpu.pc.wrapping_add(1);
            },
            1 => {
                pins.sa(cpu.pc);
                cpu.ad = pins.gd() as u16;
            },
            2 => {
                let t243 = cpu.ad as u8;
                cpu.bit(t243);
                pins.fetch(cpu.pc);
            },
            _ => {},
        },
        // TXA
        0x8a => match cpu.ir_step {
            0 => {
                pins.sa(cpu.pc);
            },
            1 => {
                cpu.a = cpu.x;
                let t244 = cpu.a;
                cpu.nz(t244);
                pins.fetch(cpu.pc);
            },
            _ => {},
        },
        // NOP 1 1
        0x8b => match cpu.ir_step {
            0 => {
                pins.fetch(cpu.pc);
            },
            _ => {},
        },
        // STY abs
        0x8c => match cpu.ir_step {
            0 => {
                pins.sa(cpu.pc);
                cpu.pc = cpu.pc.wrapping_add(1);
            },
            1 => {
                pins.sa(cpu.pc);
                cpu.pc = cpu.pc.wrapping_add(1);
                cpu.ad = pins.gd() as u16;
            },
            2 => {
                let t245 = ((pins.gd() as u16)<<8)|cpu.ad;
                pins.sa(t245);
                pins.sd(cpu.y);
                pins.pin_off(M6502_RW);
            },
            3 => {
                pins.fetch(cpu.pc);
            },
            _ => {},
        },
        // STA abs
        0x8d => match cpu.ir_step {
            0 => {
                pins.sa(cpu.pc);
                cpu.pc = cpu.pc.wrapping_add(1);
            },
            1 => {
                pins.sa(cpu.pc);
                cpu.pc = cpu.pc.wrapping_add(1);
                cpu.ad = pins.gd() as u16;
            },
            2 => {
                let t246 = ((pins.gd() as u16)<<8)|cpu.ad;
                pins.sa(t246);
                pins.sd(cpu.a);
                pins.pin_off(M6502_RW);
            },
            3 => {
                pins.fetch(cpu.pc);
            },
            _ => {},
        },
        // STX abs
        0x8e => match cpu.ir_step {
            0 => {
                pins.sa(cpu.pc);
                cpu.pc = cpu.pc.wrapping_add(1);
            },
            1 => {
                pins.sa(cpu.pc);
                cpu.pc = cpu.pc.wrapping_add(1);
                cpu.ad = pins.gd() as u16;
            },
            2 => {
                let t247 = ((pins.gd() as u16)<<8)|cpu.ad;
                pins.sa(t247);
                pins.sd(cpu.x);
                pins.pin_off(M6502_RW);
            },
            3 => {
                pins.fetch(cpu.pc);
            },
            _ => {},
        },
        // BBS0
        0x8f => match cpu.ir_step {
            0 => {
                pins.sa(cpu.pc);
                cpu.pc = cpu.pc.wrapping_add(1);
            },
            1 => {
                let t248 = pins.gd() as u16;
                pins.sa(t248);
            },
            2 => {
                pins.sa(cpu.pc);
                cpu.ad = (pins.gd() & 0x1) as u16;
            },
            3 => {
                pins.sa(cpu.pc);
                if cpu.ad == 0 {
                    cpu.ad = cpu.pc.wrapping_add(1);
                    cpu.ir_step = cpu.ir_step + (2);
                }
            },
            4 => {
                pins.sa(cpu.pc);
                cpu.ad = cpu.pc.wrapping_add(1).wrapping_add(pins.gd() as u16) as u16;
            },
            5 => {
                let t249 = (cpu.pc&0xFF00)|(cpu.ad&0x00FF);
                pins.sa(t249);
                if (cpu.ad&0xFF00)==(cpu.pc&0xFF00) {
                    cpu.pc = cpu.ad;
                    cpu.irq_pip = cpu.irq_pip >> 1;
                    cpu.nmi_pip = cpu.nmi_pip >> 1;
                    pins.fetch(cpu.pc);
                }
            },
            6 => {
                cpu.pc = cpu.ad;
                pins.fetch(cpu.pc);
            },
            _ => {},
        },
        _ => {},
    }
}

/// Steps of opcodes 0x90 to 0x9F.
#[verifier::rlimit(40)]
fn step_9(cpu: &mut M6502, pins: &mut CPUPins)
    requires
        0x90 <= old(cpu)@.ir,
        old(cpu)@.ir < 0xa0,
        old(cpu)@.ir_step < step_count(old(cpu)@.ir),
    ensures
        (final(cpu)@, final(pins)@) == step_spec_9(old(cpu)@, old(pins)@),
        final(cpu)@.ir == old(cpu)@.ir,
        final(cpu)@.last_ir_pc == old(cpu)@.last_ir_pc,
        pins_sync(final(pins)@) || final(cpu)@.ir_step + 1 < step_count(final(cpu)@.ir),
        final(cpu)@.ir_step <= old(cpu)@.ir_step + 2,
        old(cpu)@.ir_step == 0 ==> final(cpu)@.ir_step == 0 && final(cpu)@.break_flags == old(cpu)@.break_flags,
{
    match cpu.ir {
        // BCC #
        0x90 => match cpu.ir_step {
            0 => {
                pins.sa(cpu.pc);
                cpu.pc = cpu.pc.wrapping_add(1);
            },
            1 => {
                pins.sa(cpu.pc);
                cpu.ad = cpu.pc.wrapping_add((pins.gd() as i8) as u16);
                if (cpu.flags.bits & FLAG_C) != 0 {
                    pins.fetch(cpu.pc);
                }
            },
            2 => {
                let t250 = (cpu.pc&0xFF00)|(cpu.ad&0x00FF);
                pins.sa(t250);
                if (cpu.ad&0xFF00)==(cpu.pc&0xFF00) {
                    cpu.pc = cpu.ad;
                    cpu.irq_pip = cpu.irq_pip >> 1;
                    cpu.nmi_pip = cpu.nmi_pip >> 1;
                    pins.fetch(cpu.pc);
                }
            },
            3 => {
                cpu.pc = cpu.ad;
                pins.fetch(cpu.pc);
            },
            _ => {},
        },
        // STA (zp),Y
        0x91 => match cpu.ir_step {
            0 => {
                pins.sa(cpu.pc);
                cpu.pc = cpu.pc.wrapping_add(1);
            },
            1 => {
                cpu.ad = pins.gd() as u16;
                pins.sa(cpu.ad);
            },
            2 => {
                let t251 = (cpu.ad.wrapping_add(1))&0xFF;
                pins.sa(t251);
                cpu.ad = pins.gd() as u16;
            },
            3 => {
                cpu.ad = cpu.ad | ((pins.gd() as u16)<<8);
                let t252 = (cpu.ad&0xFF00)|((cpu.ad.wrapping_add(cpu.y as u16))&0xFF);
                pins.sa(t252);
            },
            4 => {
                let t253 = cpu.ad.wrapping_add(cpu.y as u16);
                pins.sa(t253);
                pins.sd(cpu.a);
                pins.pin_off(M6502_RW);
            },
            5 => {
                pins.fetch(cpu.pc);
            },
            _ => {},
        },
        // STA (zp), 2, 5, A → M
        0x92 => match cpu.ir_step {
            0 => {
                pins.sa(cpu.pc);
                cpu.pc = cpu.pc.wrapping_add(1);
            },
            1 => {
                cpu.ad = pins.gd() as u16;
                pins.sa(cpu.ad);
            },
            2 => {
                let t254 = (cpu.ad.wrapping_add(1))&0xFF;
                pins.sa(t254);
                cpu.ad = pins.gd() as u16;
            },
            3 => {
                cpu.ad = cpu.ad | ((pins.gd() as u16)<<8);
                pins.sa(cpu.ad);
                pins.sd(cpu.a);
                pins.pin_off(M6502_RW);
            },
            4 => {
                pins.fetch(cpu.pc);
            },
            _ => {},
        },
        // NOP 1 1
        0x93 => match cpu.ir_step {
            0 => {
                pins.fetch(cpu.pc);
            },
            _ => {},
        },
        // STY zp,X
        0x94 => match cpu.ir_step {
            0 => {
                pins.sa(cpu.pc);
                cpu.pc = cpu.pc.wrapping_add(1);
            },
            1 => {
                cpu.ad = pins.gd() as u16;
                pins.sa(cpu.ad);
            },
            2 => {
                let t255 = (cpu.ad.wrapping_add(cpu.x as u16))&0x00FF;
                pins.sa(t255);
                pins.sd(cpu.y);
                pins.pin_off(M6502_RW);
            },
            3 => {
                pins.fetch(cpu.pc);
            },
            _ => {},
        },
        // STA zp,X
        0x95 => match cpu.ir_step {
            0 => {
                pins.sa(cpu.pc);
                cpu.pc = cpu.pc.wrapping_add(1);
            },
            1 => {
                cpu.ad = pins.gd() as u16;
                pins.sa(cpu.ad);
            },
            2 => {
                let t256 = (cpu.ad.wrapping_add(cpu.x as u16))&0x00FF;
                pins.sa(t256);
                pins.sd(cpu.a);
                pins.pin_off(M6502_RW);
            },
            3 => {
                pins.fetch(cpu.pc);
            },
            _ => {},
        },
        // STX zp,Y
        0x96 => match cpu.ir_step {
            0 => {
                pins.sa(cpu.pc);
                cpu.pc = cpu.pc.wrapping_add(1);
            },
            1 => {
                cpu.ad = pins.gd() as u16;
                pins.sa(cpu.ad);
            },
            2 => {
                let t257 = (cpu.ad.wrapping_add(cpu.y as u16))&0x00FF;
                pins.sa(t257);
                pins.sd(cpu.x);
                pins.pin_off(M6502_RW);
            },
            3 => {
                pins.fetch(cpu.pc);
            },
            _ => {},
        },
        // SMB1
        0x97 => match cpu.ir_step {
            0 => {
                pins.sa(cpu.pc);
                cpu.pc = cpu.pc.wrapping_add(1);
            },
            1 => {
                let t258 = pins.gd() as u16;
                pins.sa(t258);
            },
            2 => {
                cpu.ad = pins.gd() as u16 | 0x2;
            },
            3 => {
                let t259 = cpu.ad as u8;
                pins.sd(t259);
                pins.pin_off(M6502_RW);
            },
            4 => {
                pins.fetch(cpu.pc);
            },
            _ => {},
        },
        // TYA
        0x98 => match cpu.ir_step {
            0 => {
                pins.sa(cpu.pc);
            },
            1 => {
                cpu.a = cpu.y;
                let t260 = cpu.a;
                cpu.nz(t260);
                pins.fetch(cpu.pc);
            },
            _ => {},
        },
        // STA abs,Y
        0x99 => match cpu.ir_step {
            0 => {
                pins.sa(cpu.pc);
                cpu.pc = cpu.pc.wrapping_add(1);
            },
            1 => {
                pins.sa(cpu.pc);
                cpu.pc = cpu.pc.wrapping_add(1);
                cpu.ad = pins.gd() as u16;
            },
            2 => {
                cpu.ad = cpu.ad | ((pins.gd() as u16)<<8);
                let t261 = (cpu.ad&0xFF00)|((cpu.ad.wrapping_add(cpu.y as u16))&0xFF);
                pins.sa(t261);
            },
            3 => {
                let t262 = cpu.ad.wrapping_add(cpu.y as u16);
                pins.sa(t262);
                pins.sd(cpu.a);
                pins.pin_off(M6502_RW);
            },
            4 => {
                pins.fetch(cpu.pc);
            },
            _ => {},
        },
        // TXS
        0x9a => match cpu.ir_step {
            0 => {
                pins.sa(cpu.pc);
            },
            1 => {
                cpu.s = cpu.x;
                pins.fetch(cpu.pc);
            },
            _ => {},
        },
        // NOP 1 1
        0x9b => match cpu.ir_step {
            0 => {
                pins.fetch(cpu.pc);
            },
            _ => {},
        },
        // STZ abs
        0x9c => match cpu.ir_step {
            0 => {
                pins.sa(cpu.pc);
                cpu.pc = cpu.pc.wrapping_add(1);
            },
            1 => {
                pins.sa(cpu.pc);
                cpu.pc = cpu.pc.wrapping_add(1);
                cpu.ad = pins.gd() as u16;
            },
            2 => {
                let t263 = ((pins.gd() as u16)<<8)|cpu.ad;
                pins.sa(t263);
                pins.sd(0);
                pins.pin_off(M6502_RW);
            },
            3 => {
                pins.fetch(cpu.pc);
            },
            _ => {},
        },
        // STA abs,X
        0x9d => match cpu.ir_step {
            0 => {
                pins.sa(cpu.pc);
                cpu.pc = cpu.pc.wrapping_add(1);
            },
            1 => {
                pins.sa(cpu.pc);
                cpu.pc = cpu.pc.wrapping_add(1);
                cpu.ad = pins.gd() as u16;
            },
            2 => {
                cpu.ad = cpu.ad | ((pins.gd() as u16)<<8);
                let t264 = (cpu.ad&0xFF00)|((cpu.ad.wrapping_add(cpu.x as u16))&0xFF);
                pins.sa(t264);
            },
            3 => {
                let t265 = cpu.ad.wrapping_add(cpu.x as u16);
                pins.sa(t265);
                pins.sd(cpu.a);
                pins.pin_off(M6502_RW);
            },
            4 => {
                pins.fetch(cpu.pc);
            },
            _ => {},
        },
        // STZ abs,X
        0x9e => match cpu.ir_step {
            0 => {
                pins.sa(cpu.pc);
                cpu.pc = cpu.pc.wrapping_add(1);
            },
            1 => {
                pins.sa(cpu.pc);
                cpu.pc = cpu.pc.wrapping_add(1);
                cpu.ad = pins.gd() as u16;
            },
            2 => {
                cpu.ad = cpu.ad | ((pins.gd() as u16)<<8);
                let t266 = (cpu.ad&0xFF00)|((cpu.ad.wrapping_add(cpu.x as u16))&0xFF);
                pins.sa(t266);
            },
            3 => {
                let t267 = cpu.ad.wrapping_add(cpu.x as u16);
                pins.sa(t267);
                pins.sd(0);
                pins.pin_off(M6502_RW);
            },
            4 => {
                pins.fetch(cpu.pc);
            },
            _ => {},
        },
        // BBS1
        0x9f => match cpu.ir_step {
            0 => {
                pins.sa(cpu.pc);
                cpu.pc = cpu.pc.wrapping_add(1);
            },
            1 => {
                let t268 = pins.gd() as u16;
                pins.sa(t268);
            },
            2 => {
                pins.sa(cpu.pc);
                cpu.ad = (pins.gd() & 0x2) as u16;
            },
            3 => {
                pins.sa(cpu.pc);
                if cpu.ad == 0 {
                    cpu.ad = cpu.pc.wrapping_add(1);
                    cpu.ir_step = cpu.ir_step + (2);
                }
            },
            4 => {
                pins.sa(cpu.pc);
                cpu.ad = cpu.pc.wrapping_add(1).wrapping_add(pins.gd() as u16) as u16;
            },
            5 => {
                let t269 = (cpu.pc&0xFF00)|(cpu.ad&0x00FF);
                pins.sa(t269);
                if (cpu.ad&0xFF00)==(cpu.pc&0xFF00) {
                    cpu.pc = cpu.ad;
                    cpu.irq_pip = cpu.irq_pip >> 1;
                    cpu.nmi_pip = cpu.nmi_pip >> 1;
                    pins.fetch(cpu.pc);
                }
            },
            6 => {
                cpu.pc = cpu.ad;
                pins.fetch(cpu.pc);
            },
            _ => {},
        },
        _ => {},
    }
}

/// Steps of opcodes 0xA0 to 0xAF.
#[verifier::rlimit(40)]
fn step_a(cpu: &mut M6502, pins: &mut CPUPins)
    requires
        0xa0 <= old(cpu)@.ir,
        old(cpu)@.ir < 0xb0,
        old(cpu)@.ir_step < step_count(old(cpu)@.ir),
    ensures
        (final(cpu)@, final(pins)@) == step_spec_a(old(cpu)@, old(pins)@),
        final(cpu)@.ir == old(cpu)@.ir,
        final(cpu)@.last_ir_pc == old(cpu)@.last_ir_pc,
        pins_sync(final(pins)@) || final(cpu)@.ir_step + 1 < step_count(final(cpu)@.ir),
        final(cpu)@.ir_step <= old(cpu)@.ir_step + 2,
        old(cpu)@.ir_step == 0 ==> final(cpu)@.ir_step == 0 && final(cpu)@.break_flags == old(cpu)@.break_flags,
{
    match cpu.ir {
        // LDY #
        0xa0 => match cpu.ir_step {
            0 => {
                pins.sa(cpu.pc);
                cpu.pc = cpu.pc.wrapping_add(1);
            },
            1 => {
                cpu.y = pins.gd();
                let t270 = cpu.y;
                cpu.nz(t270);
                pins.fetch(cpu.pc);
            },
            _ => {},
        },
        // LDA (zp,X)
        0xa1 => match cpu.ir_step {
            0 => {
                pins.sa(cpu.pc);
                cpu.pc = cpu.pc.wrapping_add(1);
            },
            1 => {
                cpu.ad = pins.gd() as u16;
                pins.sa(cpu.ad);
            },
            2 => {
                cpu.ad = (cpu.ad.wrapping_add(cpu.x as u16))&0xFF;
                pins.sa(cpu.ad);
            },
            3 => {
                let t271 = (cpu.ad.wrapping_add(1))&0xFF;
                pins.sa(t271);
                cpu.ad = pins.gd() as u16;
            },
            4 => {
                let t272 = ((pins.gd() as u16)<<8)|cpu.ad;
                pins.sa(t272);
            },
            5 => {
                cpu.a = pins.gd();
                let t273 = cpu.a;
                cpu.nz(t273);
                pins.fetch(cpu.pc);
            },
            _ => {},
        },
        // LDX #
        0xa2 => match cpu.ir_step {
            0 => {
                pins.sa(cpu.pc);
                cpu.pc = cpu.pc.wrapping_add(1);
            },
            1 => {
                cpu.x = pins.gd();
                let t274 = cpu.x;
                cpu.nz(t274);
                pins.fetch(cpu.pc);
            },
            _ => {},
        },
        // NOP 1 1
        0xa3 => match cpu.ir_step {
            0 => {
                pins.fetch(cpu.pc);
            },
            _ => {},
        },
        // LDY zp
        0xa4 => match cpu.ir_step {
            0 => {
                pins.sa(cpu.pc);
                cpu.pc = cpu.pc.wrapping_add(1);
            },
            1 => {
                let t275 = pins.gd() as u16;
                pins.sa(t275);
            },
            2 => {
                cpu.y = pins.gd();
                let t276 = cpu.y;
                cpu.nz(t276);
                pins.fetch(cpu.pc);
            },
            _ => {},
        },
        // LDA zp
        0xa5 => match cpu.ir_step {
            0 => {
                pins.sa(cpu.pc);
                cpu.pc = cpu.pc.wrapping_add(1);
            },
            1 => {
                let t277 = pins.gd() as u16;
                pins.sa(t277);
            },
            2 => {
                cpu.a = pins.gd();
                let t278 = cpu.a;
                cpu.nz(t278);
                pins.fetch(cpu.pc);
            },
            _ => {},
        },
        // LDX zp
        0xa6 => match cpu.ir_step {
            0 => {
                pins.sa(cpu.pc);
                cpu.pc = cpu.pc.wrapping_add(1);
            },
            1 => {
                let t279 = pins.gd() as u16;
                pins.sa(t279);
            },
            2 => {
                cpu.x = pins.gd();
                let t280 = cpu.x;
                cpu.nz(t280);
                pins.fetch(cpu.pc);
            },
            _ => {},
        },
        // SMB2
        0xa7 => match cpu.ir_step {
            0 => {
                pins.sa(cpu.pc);
                cpu.pc = cpu.pc.wrapping_add(1);
            },
            1 => {
                let t281 = pins.gd() as u16;
                pins.sa(t281);
            },
            2 => {
                cpu.ad = pins.gd() as u16 | 0x4;
            },
            3 => {
                let t282 = cpu.ad as u8;
                pins.sd(t282);
                pins.pin_off(M6502_RW);
            },
            4 => {
                pins.fetch(cpu.pc);
            },
            _ => {},
        },
        // TAY
        0xa8 => match cpu.ir_step {
            0 => {
                pins.sa(cpu.pc);
            },
            1 => {
                cpu.y = cpu.a;
                let t283 = cpu.y;
                cpu.nz(t283);
                pins.fetch(cpu.pc);
            },
            _ => {},
        },
        // LDA #
        0xa9 => match cpu.ir_step {
            0 => {
                pins.sa(cpu.pc);
                cpu.pc = cpu.pc.wrapping_add(1);
            },
            1 => {
                cpu.a = pins.gd();
                let t284 = cpu.a;
                cpu.nz(t284);
                pins.fetch(cpu.pc);
            },
            _ => {},
        },
        // TAX
        0xaa => match cpu.ir_step {
            0 => {
                pins.sa(cpu.pc);
            },
            1 => {
                cpu.x = cpu.a;
                let t285 = cpu.x;
                cpu.nz(t285);
                pins.fetch(cpu.pc);
            },
            _ => {},
        },
        // NOP 1 1
        0xab => match cpu.ir_step {
            0 => {
                pins.fetch(cpu.pc);
            },
            _ => {},
        },
        // LDY abs
        0xac => match cpu.ir_step {
            0 => {
                pins.sa(cpu.pc);
                cpu.pc = cpu.pc.wrapping_add(1);
            },
            1 => {
                pins.sa(cpu.pc);
                cpu.pc = cpu.pc.wrapping_add(1);
                cpu.ad = pins.gd() as u16;
            },
            2 => {
                let t286 = ((pins.gd() as u16)<<8)|cpu.ad;
                pins.sa(t286);
            },
            3 => {
                cpu.y = pins.gd();
                let t287 = cpu.y;
                cpu.nz(t287);
                pins.fetch(cpu.pc);
            },
            _ => {},
        },
        // LDA abs
        0xad => match cpu.ir_step {
            0 => {
                pins.sa(cpu.pc);
                cpu.pc = cpu.pc.wrapping_add(1);
            },
            1 => {
                pins.sa(cpu.pc);
                cpu.pc = cpu.pc.wrapping_add(1);
                cpu.ad = pins.gd() as u16;
            },
            2 => {
                let t288 = ((pins.gd() as u16)<<8)|cpu.ad;
                pins.sa(t288);
            },
            3 => {
                cpu.a = pins.gd();
                let t289 = cpu.a;
                cpu.nz(t289);
                pins.fetch(cpu.pc);
            },
            _ => {},
        },
        // LDX abs
        0xae => match cpu.ir_step {
            0 => {
                pins.sa(cpu.pc);
                cpu.pc = cpu.pc.wrapping_add(1);
            },
            1 => {
                pins.sa(cpu.pc);
                cpu.pc = cpu.pc.wrapping_add(1);
                cpu.ad = pins.gd() as u16;
            },
            2 => {
                let t290 = ((pins.gd() as u16)<<8)|cpu.ad;
                pins.sa(t290);
            },
            3 => {
                cpu.x = pins.gd();
                let t291 = cpu.x;
                cpu.nz(t291);
                pins.fetch(cpu.pc);
            },
            _ => {},
        },
        // BBS2
        0xaf => match cpu.ir_step {
            0 => {
                pins.sa(cpu.pc);
                cpu.pc = cpu.pc.wrapping_add(1);
            },
            1 => {
                let t292 = pins.gd() as u16;
                pins.sa(t292);
            },
            2 => {
                pins.sa(cpu.pc);
                cpu.ad = (pins.gd() & 0x4) as u16;
            },
            3 => {
                pins.sa(cpu.pc);
                if cpu.ad == 0 {
                    cpu.ad = cpu.pc.wrapping_add(1);
                    cpu.ir_step = cpu.ir_step + (2);
                }
            },
            4 => {
                pins.sa(cpu.pc);
                cpu.ad = cpu.pc.wrapping_add(1).wrapping_add(pins.gd() as u16) as u16;
            },
            5 => {
                let t293 = (cpu.pc&0xFF00)|(cpu.ad&0x00FF);
                pins.sa(t293);
                if (cpu.ad&0xFF00)==(cpu.pc&0xFF00) {
                    cpu.pc = cpu.ad;
                    cpu.irq_pip = cpu.irq_pip >> 1;
                    cpu.nmi_pip = cpu.nmi_pip >> 1;
                    pins.fetch(cpu.pc);
                }
            },
            6 => {
                cpu.pc = cpu.ad;
                pins.fetch(cpu.pc);
            },
            _ => {},
        },
        _ => {},
    }
}

/// Steps of opcodes 0xB0 to 0xBF.
#[verifier::rlimit(40)]
fn step_b(cpu: &mut M6502, pins: &mut CPUPins)
    requires
        0xb0 <= old(cpu)@.ir,
        old(cpu)@.ir < 0xc0,
        old(cpu)@.ir_step < step_count(old(cpu)@.ir),
    ensures
        (final(cpu)@, final(pins)@) == step_spec_b(old(cpu)@, old(pins)@),
        final(cpu)@.ir == old(cpu)@.ir,
        final(cpu)@.last_ir_pc == old(cpu)@.last_ir_pc,
        pins_sync(final(pins)@) || final(cpu)@.ir_step + 1 < step_count(final(cpu)@.ir),
        final(cpu)@.ir_step <= old(cpu)@.ir_step + 2,
        old(cpu)@.ir_step == 0 ==> final(cpu)@.ir_step == 0 && final(cpu)@.break_flags == old(cpu)@.break_flags,
{
    match cpu.ir {
        // BCS #
        0xb0 => match cpu.ir_step {
            0 => {
                pins.sa(cpu.pc);
                cpu.pc = cpu.pc.wrapping_add(1);
            },
            1 => {
                pins.sa(cpu.pc);
                cpu.ad = cpu.pc.wrapping_add((pins.gd() as i8) as u16);
                if (cpu.flags.bits & FLAG_C) == 0 {
                    pins.fetch(cpu.pc);
                }
            },
            2 => {
                let t294 = (cpu.pc&0xFF00)|(cpu.ad&0x00FF);
                pins.sa(t294);
                if (cpu.ad&0xFF00)==(cpu.pc&0xFF00) {
                    cpu.pc = cpu.ad;
                    cpu.irq_pip = cpu.irq_pip >> 1;
                    cpu.nmi_pip = cpu.nmi_pip >> 1;
                    pins.fetch(cpu.pc);
                }
            },
            3 => {
                cpu.pc = cpu.ad;
                pins.fetch(cpu.pc);
            },
            _ => {},
        },
        // LDA (zp),Y
        0xb1 => match cpu.ir_step {
            0 => {
                pins.sa(cpu.pc);
                cpu.pc = cpu.pc.wrapping_add(1);
            },
            1 => {
                cpu.ad = pins.gd() as u16;
                pins.sa(cpu.ad);
            },
            2 => {
                let t295 = (cpu.ad.wrapping_add(1))&0xFF;
                pins.sa(t295);
                cpu.ad = pins.gd() as u16;
            },
            3 => {
                cpu.ad = cpu.ad | ((pins.gd() as u16)<<8);
                let t296 = (cpu.ad&0xFF00)|((cpu.ad.wrapping_add(cpu.y as u16))&0xFF);
                pins.sa(t296);
                let v = (cpu.ad>>8).wrapping_sub(cpu.ad.wrapping_add(cpu.y as u16)>>8);
                proof { lemma_low_bit(!v as u8); }
                cpu.ir_step = cpu.ir_step + ((!v as u8) & 1);
            },
            4 => {
                let t297 = cpu.ad.wrapping_add(cpu.y as u16);
                pins.sa(t297);
            },
            5 => {
                cpu.a = pins.gd();
                let t298 = cpu.a;
                cpu.nz(t298);
                pins.fetch(cpu.pc);
            },
            _ => {},
        },
        // LDA (zp), 2, 5, M → A
        0xb2 => match cpu.ir_step {
            0 => {
                pins.sa(cpu.pc);
                cpu.pc = cpu.pc.wrapping_add(1);
            },
            1 => {
                cpu.ad = pins.gd() as u16;
                pins.sa(cpu.ad);
            },
            2 => {
                let t299 = (cpu.ad.wrapping_add(1))&0xFF;
                pins.sa(t299);
                cpu.ad = pins.gd() as u16;
            },
            3 => {
                cpu.ad = cpu.ad | ((pins.gd() as u16)<<8);
                pins.sa(cpu.ad);
            },
            4 => {
                cpu.a = pins.gd();
                let t300 = cpu.a;
                cpu.nz(t300);
                pins.fetch(cpu.pc);
            },
            _ => {},
        },
        // NOP 1 1
        0xb3 => match cpu.ir_step {
            0 => {
                pins.fetch(cpu.pc);
            },
            _ => {},
        },
        // LDY zp,X
        0xb4 => match cpu.ir_step {
            0 => {
                pins.sa(cpu.pc);
                cpu.pc = cpu.pc.wrapping_add(1);
            },
            1 => {
                cpu.ad = pins.gd() as u16;
                pins.sa(cpu.ad);
            },
            2 => {
                let t301 = (cpu.ad.wrapping_add(cpu.x as u16))&0x00FF;
                pins.sa(t301);
            },
            3 => {
                cpu.y = pins.gd();
                let t302 = cpu.y;
                cpu.nz(t302);
                pins.fetch(cpu.pc);
            },
            _ => {},
        },
        // LDA zp,X
        0xb5 => match cpu.ir_step {
            0 => {
                pins.sa(cpu.pc);
                cpu.pc = cpu.pc.wrapping_add(1);
            },
            1 => {
                cpu.ad = pins.gd() as u16;
                pins.sa(cpu.ad);
            },
            2 => {
                let t303 = (cpu.ad.wrapping_add(cpu.x as u16))&0x00FF;
                pins.sa(t303);
            },
            3 => {
                cpu.a = pins.gd();
                let t304 = cpu.a;
                cpu.nz(t304);
                pins.fetch(cpu.pc);
            },
            _ => {},
        },
        // LDX zp,Y
        0xb6 => match cpu.ir_step {
            0 => {
                pins.sa(cpu.pc);
                cpu.pc = cpu.pc.wrapping_add(1);
            },
            1 => {
                cpu.ad = pins.gd() as u16;
                pins.sa(cpu.ad);
            },
            2 => {
                let t305 = (cpu.ad.wrapping_add(cpu.y as u16))&0x00FF;
                pins.sa(t305);
            },
            3 => {
                cpu.x = pins.gd();
                let t306 = cpu.x;
                cpu.nz(t306);
                pins.fetch(cpu.pc);
            },
            _ => {},
        },
        // SMB3
        0xb7 => match cpu.ir_step {
            0 => {
                pins.sa(cpu.pc);
                cpu.pc = cpu.pc.wrapping_add(1);
            },
            1 => {
                let t307 = pins.gd() as u16;
                pins.sa(t307);
            },
            2 => {
                cpu.ad = pins.gd() as u16 | 0x8;
            },
            3 => {
                let t308 = cpu.ad as u8;
                pins.sd(t308);
                pins.pin_off(M6502_RW);
            },
            4 => {
                pins.fetch(cpu.pc);
            },
            _ => {},
        },
        // CLV
        0xb8 => match cpu.ir_step {
            0 => {
                pins.sa(cpu.pc);
            },
            1 => {
                cpu.flags.bits = cpu.flags.bits & (!FLAG_V);
                pins.fetch(cpu.pc);
            },
            _ => {},
        },
        // LDA abs,Y
        0xb9 => match cpu.ir_step {
            0 => {
                pins.sa(cpu.pc);
                cpu.pc = cpu.pc.wrapping_add(1);
            },
            1 => {
                pins.sa(cpu.pc);
                cpu.pc = cpu.pc.wrapping_add(1);
                cpu.ad = pins.gd() as u16;
            },
            2 => {
                cpu.ad = cpu.ad | ((pins.gd() as u16)<<8);
                let t309 = (cpu.ad&0xFF00)|(cpu.ad.wrapping_add(cpu.y as u16) & 0xFF);
                pins.sa(t309);
                let v = (cpu.ad>>8).wrapping_sub(cpu.ad.wrapping_add(cpu.y as u16)>>8);
                proof { lemma_low_bit(!v as u8); }
                cpu.ir_step = cpu.ir_step + ((!v as u8) & 1);
            },
            3 => {
                let t310 = cpu.ad.wrapping_add(cpu.y as u16);
                pins.sa(t310);
            },
            4 => {
                cpu.a = pins.gd();
                let t311 = cpu.a;
                cpu.nz(t311);
                pins.fetch(cpu.pc);
            },
            _ => {},
        },
        // TSX
        0xba => match cpu.ir_step {
            0 => {
                pins.sa(cpu.pc);
            },
            1 => {
                cpu.x = cpu.s;
                let t312 = cpu.x;
                cpu.nz(t312);
                pins.fetch(cpu.pc);
            },
            _ => {},
        },
        // NOP 1 1
        0xbb => match cpu.ir_step {
            0 => {
                pins.fetch(cpu.pc);
            },
            _ => {},
        },
        // LDY abs,X
        0xbc => match cpu.ir_step {
            0 => {
                pins.sa(cpu.pc);
                cpu.pc = cpu.pc.wrapping_add(1);
            },
            1 => {
                pins.sa(cpu.pc);
                cpu.pc = cpu.pc.wrapping_add(1);
                cpu.ad = pins.gd() as u16;
            },
            2 => {
                cpu.ad = cpu.ad | ((pins.gd() as u16)<<8);
                let t313 = (cpu.ad&0xFF00)|((cpu.ad.wrapping_add(cpu.x as u16))&0xFF);
                pins.sa(t313);
                let v = (cpu.ad>>8).wrapping_sub(cpu.ad.wrapping_add(cpu.x as u16)>>8);
                proof { lemma_low_bit(!v as u8); }
                cpu.ir_step = cpu.ir_step + ((!v as u8) & 1);
            },
            3 => {
                let t314 = cpu.ad.wrapping_add(cpu.x as u16);
                pins.sa(t314);
            },
            4 => {
                cpu.y = pins.gd();
                let t315 = cpu.y;
                cpu.nz(t315);
                pins.fetch(cpu.pc);
            },
            _ => {},
        },
        // LDA abs,X
        0xbd => match cpu.ir_step {
            0 => {
                pins.sa(cpu.pc);
                cpu.pc = cpu.pc.wrapping_add(1);
            },
            1 => {
                pins.sa(cpu.pc);
                cpu.pc = cpu.pc.wrapping_add(1);
                cpu.ad = pins.gd() as u16;
            },
            2 => {
                cpu.ad = cpu.ad | ((pins.gd() as u16)<<8);
                let t316 = (cpu.ad&0xFF00)|((cpu.ad.wrapping_add(cpu.x as u16))&0xFF);
                pins.sa(t316);
                let v = (cpu.ad>>8).wrapping_sub(cpu.ad.wrapping_add(cpu.x as u16)>>8);
                proof { lemma_low_bit(!v as u8); }
                cpu.ir_step = cpu.ir_step + ((!v as u8) & 1);
            },
            3 => {
                let t317 = cpu.ad.wrapping_add(cpu.x as u16);
                pins.sa(t317);
            },
            4 => {
                cpu.a = pins.gd();
                let t318 = cpu.a;
                cpu.nz(t318);
                pins.fetch(cpu.pc);
            },
            _ => {},
        },
        // LDX abs,Y
        0xbe => match cpu.ir_step {
            0 => {
                pins.sa(cpu.pc);
                cpu.pc = cpu.pc.wrapping_add(1);
            },
            1 => {
                pins.sa(cpu.pc);
                cpu.pc = cpu.pc.wrapping_add(1);
                cpu.ad = pins.gd() as u16;
            },
            2 => {
                cpu.ad = cpu.ad | ((pins.gd() as u16)<<8);
                let t319 = (cpu.ad&0xFF00)|((cpu.ad.wrapping_add(cpu.y as u16))&0xFF);
                pins.sa(t319);
                let v = (cpu.ad>>8).wrapping_sub(cpu.ad.wrapping_add(cpu.y as u16)>>8);
                proof { lemma_low_bit(!v as u8); }
                cpu.ir_step = cpu.ir_step + ((!v as u8) & 1);
            },
            3 => {
                let t320 = cpu.ad.wrapping_add(cpu.y as u16);
                pins.sa(t320);
            },
            4 => {
                cpu.x = pins.gd();
                let t321 = cpu.x;
                cpu.nz(t321);
                pins.fetch(cpu.pc);
            },
            _ => {},
        },
        // BBS3
        0xbf => match cpu.ir_step {
            0 => {
                pins.sa(cpu.pc);
                cpu.pc = cpu.pc.wrapping_add(1);
            },
            1 => {
                let t322 = pins.gd() as u16;
                pins.sa(t322);
            },
            2 => {
                pins.sa(cpu.pc);
                cpu.ad = (pins.gd() & 0x8) as u16;
            },
            3 => {
                pins.sa(cpu.pc);
                if cpu.ad == 0 {
                    cpu.ad = cpu.pc.wrapping_add(1);
                    cpu.ir_step = cpu.ir_step + (2);
                }
            },
            4 => {
                pins.sa(cpu.pc);
                cpu.ad = cpu.pc.wrapping_add(1).wrapping_add(pins.gd() as u16) as u16;
            },
            5 => {
                let t323 = (cpu.pc&0xFF00)|(cpu.ad&0x00FF);
                pins.sa(t323);
                if (cpu.ad&0xFF00)==(cpu.pc&0xFF00) {
                    cpu.pc = cpu.ad;
                    cpu.irq_pip = cpu.irq_pip >> 1;
                    cpu.nmi_pip = cpu.nmi_pip >> 1;
                    pins.fetch(cpu.pc);
                }
            },
            6 => {
                cpu.pc = cpu.ad;
                pins.fetch(cpu.pc);
            },
            _ => {},
        },
        _ => {},
    }
}

/// Steps of opcodes 0xC0 to 0xCF.
#[verifier::rlimit(40)]
fn step_c(cpu: &mut M6502, pins: &mut CPUPins)
    requires
        0xc0 <= old(cpu)@.ir,
        old(cpu)@.ir < 0xd0,
        old(cpu)@.ir_step < step_count(old(cpu)@.ir),
    ensures
        (final(cpu)@, final(pins)@) == step_spec_c(old(cpu)@, old(pins)@),
        final(cpu)@.ir == old(cpu)@.ir,
        final(cpu)@.last_ir_pc == old(cpu)@.last_ir_pc,
        pins_sync(final(pins)@) || final(cpu)@.ir_step + 1 < step_count(final(cpu)@.ir),
        final(cpu)@.ir_step <= old(cpu)@.ir_step + 2,
        old(cpu)@.ir_step == 0 ==> final(cpu)@.ir_step == 0 && final(cpu)@.break_flags == old(cpu)@.break_flags,
{
    match cpu.ir {
        // CPY #
        0xc0 => match cpu.ir_step {
            0 => {
                pins.sa(cpu.pc);
                cpu.pc = cpu.pc.wrapping_add(1);
            },
            1 => {
                let t324 = cpu.y;
                let t325 = pins.gd();
                cpu.compare(t324, t325);
                pins.fetch(cpu.pc);
            },
            _ => {},
        },
        // CMP (zp,X)
        0xc1 => match cpu.ir_step {
            0 => {
                pins.sa(cpu.pc);
                cpu.pc = cpu.pc.wrapping_add(1);
            },
            1 => {
                cpu.ad = pins.gd() as u16;
                pins.sa(cpu.ad);
            },
            2 => {
                cpu.ad = (cpu.ad.wrapping_add(cpu.x as u16))&0xFF;
                pins.sa(cpu.ad);
            },
            3 => {
                let t326 = (cpu.ad.wrapping_add(1))&0xFF;
                pins.sa(t326);
                cpu.ad = pins.gd() as u16;
            },
            4 => {
                let t327 = ((pins.gd() as u16)<<8)|cpu.ad;
                pins.sa(t327);
            },
            5 => {
                let t328 = cpu.a;
                let t329 = pins.gd();
                cpu.compare(t328, t329);
                pins.fetch(cpu.pc);
            },
            _ => {},
        },
        // NOP 2 2
        0xc2 => match cpu.ir_step {
            0 => {
                pins.sa(cpu.pc);
                cpu.pc = cpu.pc.wrapping_add(1);
            },
            1 => {
                pins.fetch(cpu.pc);
            },
            _ => {},
        },
        // NOP 1 1
        0xc3 => match cpu.ir_step {
            0 => {
                pins.fetch(cpu.pc);
            },
            _ => {},
        },
        // CPY zp
        0xc4 => match cpu.ir_step {
            0 => {
                pins.sa(cpu.pc);
                cpu.pc = cpu.pc.wrapping_add(1);
            },
            1 => {
                let t330 = pins.gd() as u16;
                pins.sa(t330);
            },
            2 => {
                let t331 = cpu.y;
                let t332 = pins.gd();
                cpu.compare(t331, t332);
                pins.fetch(cpu.pc);
            },
            _ => {},
        },
        // CMP zp
        0xc5 => match cpu.ir_step {
            0 => {
                pins.sa(cpu.pc);
                cpu.pc = cpu.pc.wrapping_add(1);
            },
            1 => {
                let t333 = pins.gd() as u16;
                pins.sa(t333);
            },
            2 => {
                let t334 = cpu.a;
                let t335 = pins.gd();
                cpu.compare(t334, t335);
                pins.fetch(cpu.pc);
            },
            _ => {},
        },
        // DEC zp
        0xc6 => match cpu.ir_step {
            0 => {
                pins.sa(cpu.pc);
                cpu.pc = cpu.pc.wrapping_add(1);
            },
            1 => {
                let t336 = pins.gd() as u16;
                pins.sa(t336);
            },
            2 => {
                cpu.ad = pins.gd() as u16;
                pins.pin_off(M6502_RW);
            },
            3 => {
                cpu.ad = cpu.ad.wrapping_sub(1);
                let t337 = cpu.ad as u8;
                cpu.nz(t337);
                let t338 = cpu.ad as u8;
                pins.sd(t338);
                pins.pin_off(M6502_RW);
            },
            4 => {
                pins.fetch(cpu.pc);
            },
            _ => {},
        },
        // SMB4
        0xc7 => match cpu.ir_step {
            0 => {
                pins.sa(cpu.pc);
                cpu.pc = cpu.pc.wrapping_add(1);
            },
            1 => {
                let t339 = pins.gd() as u16;
                pins.sa(t339);
            },
            2 => {
                cpu.ad = pins.gd() as u16 | 0x10;
            },
            3 => {
                let t340 = cpu.ad as u8;
                pins.sd(t340);
                pins.pin_off(M6502_RW);
            },
            4 => {
                pins.fetch(cpu.pc);
            },
            _ => {},
        },
        // INY
        0xc8 => match cpu.ir_step {
            0 => {
                pins.sa(cpu.pc);
            },
            1 => {
                cpu.y = cpu.y.wrapping_add(1);
                let t341 = cpu.y;
                cpu.nz(t341);
                pins.fetch(cpu.pc);
            },
            _ => {},
        },
        // CMP #
        0xc9 => match cpu.ir_step {
            0 => {
                pins.sa(cpu.pc);
                cpu.pc = cpu.pc.wrapping_add(1);
            },
            1 => {
                let t342 = cpu.a;
                let t343 = pins.gd();
                cpu.compare(t342, t343);
                pins.fetch(cpu.pc);
            },
            _ => {},
        },
        // DEX
        0xca => match cpu.ir_step {
            0 => {
                pins.sa(cpu.pc);
            },
            1 => {
                cpu.x = cpu.x.wrapping_sub(1);
                let t344 = cpu.x;
                cpu.nz(t344);
                pins.fetch(cpu.pc);
            },
            _ => {},
        },
        // NOP 1 1
        0xcb => match cpu.ir_step {
            0 => {
                pins.fetch(cpu.pc);
            },
            _ => {},
        },
        // CPY abs
        0xcc => match cpu.ir_step {
            0 => {
                pins.sa(cpu.pc);
                cpu.pc = cpu.pc.wrapping_add(1);
            },
            1 => {
                pins.sa(cpu.pc);
                cpu.pc = cpu.pc.wrapping_add(1);
                cpu.ad = pins.gd() as u16;
            },
            2 => {
                let t345 = ((pins.gd() as u16)<<8)|cpu.ad;
                pins.sa(t345);
            },
            3 => {
                let t346 = cpu.y;
                let t347 = pins.gd();
                cpu.compare(t346, t347);
                pins.fetch(cpu.pc);
            },
            _ => {},
        },
        // CMP abs
        0xcd => match cpu.ir_step {
            0 => {
                pins.sa(cpu.pc);
                cpu.pc = cpu.pc.wrapping_add(1);
            },
            1 => {
                pins.sa(cpu.pc);
                cpu.pc = cpu.pc.wrapping_add(1);
                cpu.ad = pins.gd() as u16;
            },
            2 => {
                let t348 = ((pins.gd() as u16)<<8)|cpu.ad;
                pins.sa(t348);
            },
            3 => {
                let t349 = cpu.a;
                let t350 = pins.gd();
                cpu.compare(t349, t350);
                pins.fetch(cpu.pc);
            },
            _ => {},
        },
        // DEC abs
        0xce => match cpu.ir_step {
            0 => {
                pins.sa(cpu.pc);
                cpu.pc = cpu.pc.wrapping_add(1);
            },
            1 => {
                pins.sa(cpu.pc);
                cpu.pc = cpu.pc.wrapping_add(1);
                cpu.ad = pins.gd() as u16;
            },
            2 => {
                let t351 = ((pins.gd() as u16)<<8)|cpu.ad;
                pins.sa(t351);
            },
            3 => {
                cpu.ad = pins.gd() as u16;
                pins.pin_off(M6502_RW);
            },
            4 => {
                cpu.ad = cpu.ad.wrapping_sub(1);
                let t352 = cpu.ad as u8;
                cpu.nz(t352);
                let t353 = cpu.ad as u8;
                pins.sd(t353);
                pins.pin_off(M6502_RW);
            },
            5 => {
                pins.fetch(cpu.pc);
            },
            _ => {},
        },
        // BBS4
        0xcf => match cpu.ir_step {
            0 => {
                pins.sa(cpu.pc);
                cpu.pc = cpu.pc.wrapping_add(1);
            },
            1 => {
                let t354 = pins.gd() as u16;
                pins.sa(t354);
            },
            2 => {
                pins.sa(cpu.pc);
                cpu.ad = (pins.gd() & 0x10) as u16;
            },
            3 => {
                pins.sa(cpu.pc);
                if cpu.ad == 0 {
                    cpu.ad = cpu.pc.wrapping_add(1);
                    cpu.ir_step = cpu.ir_step + (2);
                }
            },
            4 => {
                pins.sa(cpu.pc);
                cpu.ad = cpu.pc.wrapping_add(1).wrapping_add(pins.gd() as u16) as u16;
            },
            5 => {
                let t355 = (cpu.pc&0xFF00)|(cpu.ad&0x00FF);
                pins.sa(t355);
                if (cpu.ad&0xFF00)==(cpu.pc&0xFF00) {
                    cpu.pc = cpu.ad;
                    cpu.irq_pip = cpu.irq_pip >> 1;
                    cpu.nmi_pip = cpu.nmi_pip >> 1;
                    pins.fetch(cpu.pc);
                }
            },
            6 => {
                cpu.pc = cpu.ad;
                pins.fetch(cpu.pc);
            },
            _ => {},
        },
        _ => {},
    }
}

/// Steps of opcodes 0xD0 to 0xDF.
#[verifier::rlimit(40)]
fn step_d(cpu: &mut M6502, pins: &mut CPUPins)
    requires
        0xd0 <= old(cpu)@.ir,
        old(cpu)@.ir < 0xe0,
        old(cpu)@.ir_step < step_count(old(cpu)@.ir),
    ensures
        (final(cpu)@, final(pins)@) == step_spec_d(old(cpu)@, old(pins)@),
        final(cpu)@.ir == old(cpu)@.ir,
        final(cpu)@.last_ir_pc == old(cpu)@.last_ir_pc,
        pins_sync(final(pins)@) || final(cpu)@.ir_step + 1 < step_count(final(cpu)@.ir),
        final(cpu)@.ir_step <= old(cpu)@.ir_step + 2,
        old(cpu)@.ir_step == 0 ==> final(cpu)@.ir_step == 0 && final(cpu)@.break_flags == old(cpu)@.break_flags,
{
    match cpu.ir {
        // BNE #
        0xd0 => match cpu.ir_step {
            0 => {
                pins.sa(cpu.pc);
                cpu.pc = cpu.pc.wrapping_add(1);
            },
            1 => {
                pins.sa(cpu.pc);
                cpu.ad = cpu.pc.wrapping_add((pins.gd() as i8) as u16);
                if (cpu.flags.bits & FLAG_Z) != 0 {
                    pins.fetch(cpu.pc);
                }
            },
            2 => {
                let t356 = (cpu.pc&0xFF00)|(cpu.ad&0x00FF);
                pins.sa(t356);
                if (cpu.ad&0xFF00)==(cpu.pc&0xFF00) {
                    cpu.pc = cpu.ad;
                    cpu.irq_pip = cpu.irq_pip >> 1;
                    cpu.nmi_pip = cpu.nmi_pip >> 1;
                    pins.fetch(cpu.pc);
                }
            },
            3 => {
                cpu.pc = cpu.ad;
                pins.fetch(cpu.pc);
            },
            _ => {},
        },
        // CMP (zp),Y
        0xd1 => match cpu.ir_step {
            0 => {
                pins.sa(cpu.pc);
                cpu.pc = cpu.pc.wrapping_add(1);
            },
            1 => {
                cpu.ad = pins.gd() as u16;
                pins.sa(cpu.ad);
            },
            2 => {
                let t357 = (cpu.ad.wrapping_add(1))&0xFF;
                pins.sa(t357);
                cpu.ad = pins.gd() as u16;
            },
            3 => {
                cpu.ad = cpu.ad | ((pins.gd() as u16)<<8);
                let t358 = (cpu.ad&0xFF00)|((cpu.ad.wrapping_add(cpu.y as u16))&0xFF);
                pins.sa(t358);
                let v = (cpu.ad>>8).wrapping_sub(cpu.ad.wrapping_add(cpu.y as u16)>>8);
                proof { lemma_low_bit(!v as u8); }
                cpu.ir_step = cpu.ir_step + ((!v as u8) & 1);
            },
            4 => {
                let t359 = cpu.ad.wrapping_add(cpu.y as u16);
                pins.sa(t359);
            },
            5 => {
                let t360 = cpu.a;
                let t361 = pins.gd();
                cpu.compare(t360, t361);
                pins.fetch(cpu.pc);
            },
            _ => {},
        },
        // CMP (zp), 2, 5, A - M
        0xd2 => match cpu.ir_step {
            0 => {
                pins.sa(cpu.pc);
                cpu.pc = cpu.pc.wrapping_add(1);
            },
            1 => {
                cpu.ad = pins.gd() as u16;
                pins.sa(cpu.ad);
            },
            2 => {
                let t362 = (cpu.ad.wrapping_add(1))&0xFF;
                pins.sa(t362);
                cpu.ad = pins.gd() as u16;
            },
            3 => {
                cpu.ad = cpu.ad | ((pins.gd() as u16)<<8);
                pins.sa(cpu.ad);
            },
            4 => {
                let t363 = cpu.a;
                let t364 = pins.gd();
                cpu.compare(t363, t364);
                pins.fetch(cpu.pc);
            },
            _ => {},
        },
        // NOP 1 1
        0xd3 => match cpu.ir_step {
            0 => {
                pins.fetch(cpu.pc);
            },
            _ => {},
        },
        // NOP 2 4
        0xd4 => match cpu.ir_step {
            0 => {
                pins.sa(cpu.pc);
                cpu.pc = cpu.pc.wrapping_add(1);
            },
            1 => {
                pins.sa(cpu.pc);
            },
            2 => {
                pins.sa(cpu.pc);
            },
            3 => {
                pins.fetch(cpu.pc);
            },
            _ => {},
        },
        // CMP zp,X
        0xd5 => match cpu.ir_step {
            0 => {
                pins.sa(cpu.pc);
                cpu.pc = cpu.pc.wrapping_add(1);
            },
            1 => {
                cpu.ad = pins.gd() as u16;
                pins.sa(cpu.ad);
            },
            2 => {
                let t365 = (cpu.ad.wrapping_add(cpu.x as u16))&0x00FF;
                pins.sa(t365);
            },
            3 => {
                let t366 = cpu.a;
                let t367 = pins.gd();
                cpu.compare(t366, t367);
                pins.fetch(cpu.pc);
            },
            _ => {},
        },
        // DEC zp,X
        0xd6 => match cpu.ir_step {
            0 => {
                pins.sa(cpu.pc);
                cpu.pc = cpu.pc.wrapping_add(1);
            },
            1 => {
                cpu.ad = pins.gd() as u16;
                pins.sa(cpu.ad);
            },
            2 => {
                let t368 = (cpu.ad.wrapping_add(cpu.x as u16))&0x00FF;
                pins.sa(t368);
            },
            3 => {
                cpu.ad = pins.gd() as u16;
                pins.pin_off(M6502_RW);
            },
            4 => {
                cpu.ad = cpu.ad.wrapping_sub(1);
                let t369 = cpu.ad as u8;
                cpu.nz(t369);
                let t370 = cpu.ad as u8;
                pins.sd(t370);
                pins.pin_off(M6502_RW);
            },
            5 => {
                pins.fetch(cpu.pc);
            },
            _ => {},
        },
        // SMB5
        0xd7 => match cpu.ir_step {
            0 => {
                pins.sa(cpu.pc);
                cpu.pc = cpu.pc.wrapping_add(1);
            },
            1 => {
                let t371 = pins.gd() as u16;
                pins.sa(t371);
            },
            2 => {
                cpu.ad = pins.gd() as u16 | 0x20;
            },
            3 => {
                let t372 = cpu.ad as u8;
                pins.sd(t372);
                pins.pin_off(M6502_RW);
            },
            4 => {
                pins.fetch(cpu.pc);
            },
            _ => {},
        },
        // CLD
        0xd8 => match cpu.ir_step {
            0 => {
                pins.sa(cpu.pc);
            },
            1 => {
                cpu.flags.bits = cpu.flags.bits & (!FLAG_D);
                pins.fetch(cpu.pc);
            },
            _ => {},
        },
        // CMP abs,Y
        0xd9 => match cpu.ir_step {
            0 => {
                pins.sa(cpu.pc);
                cpu.pc = cpu.pc.wrapping_add(1);
            },
            1 => {
                pins.sa(cpu.pc);
                cpu.pc = cpu.pc.wrapping_add(1);
                cpu.ad = pins.gd() as u16;
            },
            2 => {
                cpu.ad = cpu.ad | ((pins.gd() as u16)<<8);
                let t373 = (cpu.ad&0xFF00)|((cpu.ad.wrapping_add(cpu.y as u16))&0xFF);
                pins.sa(t373);
                let v = (cpu.ad>>8).wrapping_sub(cpu.ad.wrapping_add(cpu.y as u16)>>8);
                proof { lemma_low_bit(!v as u8); }
                cpu.ir_step = cpu.ir_step + ((!v as u8) & 1);
            },
            3 => {
                let t374 = cpu.ad.wrapping_add(cpu.y as u16);
                pins.sa(t374);
            },
            4 => {
                let t375 = cpu.a;
                let t376 = pins.gd();
                cpu.compare(t375, t376);
                pins.fetch(cpu.pc);
            },
            _ => {},
        },
        // PHX, 1, 3, X↑
        0xda => match cpu.ir_step {
            0 => {
                pins.sa(cpu.pc);
            },
            1 => {
                let t377 = 0x0100|(cpu.s as u16);
                pins.sad(t377, cpu.x);
                cpu.s = cpu.s.wrapping_sub(1);
                pins.pin_off(M6502_RW);
            },
            2 => {
                pins.fetch(cpu.pc);
            },
            _ => {},
        },
        // NOP 1 1
        0xdb => match cpu.ir_step {
            0 => {
                pins.fetch(cpu.pc);
            },
            _ => {},
        },
        // NOP 3 4
        0xdc => match cpu.ir_step {
            0 => {
                pins.sa(cpu.pc);
                cpu.pc = cpu.pc.wrapping_add(1);
            },
            1 => {
                pins.sa(cpu.pc);
                cpu.pc = cpu.pc.wrapping_add(1);
            },
            2 => {
                pins.sa(cpu.pc);
            },
            3 => {
                pins.fetch(cpu.pc);
            },
            _ => {},
        },
        // CMP abs,X
        0xdd => match cpu.ir_step {
            0 => {
                pins.sa(cpu.pc);
                cpu.pc = cpu.pc.wrapping_add(1);
            },
            1 => {
                pins.sa(cpu.pc);
                cpu.pc = cpu.pc.wrapping_add(1);
                cpu.ad = pins.gd() as u16;
            },
            2 => {
                cpu.ad = cpu.ad | ((pins.gd() as u16)<<8);
                let t378 = (cpu.ad&0xFF00)|((cpu.ad.wrapping_add(cpu.x as u16))&0xFF);
                pins.sa(t378);
                let v = (cpu.ad>>8).wrapping_sub(cpu.ad.wrapping_add(cpu.x as u16)>>8);
                proof { lemma_low_bit(!v as u8); }
                cpu.ir_step = cpu.ir_step + ((!v as u8) & 1);
            },
            3 => {
                let t379 = cpu.ad.wrapping_add(cpu.x as u16);
                pins.sa(t379);
            },
            4 => {
                let t380 = cpu.a;
                let t381 = pins.gd();
                cpu.compare(t380, t381);
                pins.fetch(cpu.pc);
            },
            _ => {},
        },
        // DEC abs,X
        0xde => match cpu.ir_step {
            0 => {
                pins.sa(cpu.pc);
                cpu.pc = cpu.pc.wrapping_add(1);
            },
            1 => {
                pins.sa(cpu.pc);
                cpu.pc = cpu.pc.wrapping_add(1);
                cpu.ad = pins.gd() as u16;
            },
            2 => {
                cpu.ad = cpu.ad | ((pins.gd() as u16)<<8);
                let t382 = (cpu.ad&0xFF00)|((cpu.ad.wrapping_add(cpu.x as u16))&0xFF);
                pins.sa(t382);
            },
            3 => {
                let t383 = cpu.ad.wrapping_add(cpu.x as u16);
                pins.sa(t383);
            },
            4 => {
                cpu.ad = pins.gd() as u16;
                pins.pin_off(M6502_RW);
            },
            5 => {
                cpu.ad = cpu.ad.wrapping_sub(1);
                let t384 = cpu.ad as u8;
                cpu.nz(t384);
                let t385 = cpu.ad as u8;
                pins.sd(t385);
                pins.pin_off(M6502_RW);
            },
            6 => {
                pins.fetch(cpu.pc);
            },
            _ => {},
        },
        // BBS5
        0xdf => match cpu.ir_step {
            0 => {
                pins.sa(cpu.pc);
                cpu.pc = cpu.pc.wrapping_add(1);
            },
            1 => {
                let t386 = pins.gd() as u16;
                pins.sa(t386);
            },
            2 => {
                pins.sa(cpu.pc);
                cpu.ad = (pins.gd() & 0x20) as u16;
            },
            3 => {
                pins.sa(cpu.pc);
                if cpu.ad == 0 {
                    cpu.ad = cpu.pc.wrapping_add(1);
                    cpu.ir_step = cpu.ir_step + (2);
                }
            },
            4 => {
                pins.sa(cpu.pc);
                cpu.ad = cpu.pc.wrapping_add(1).wrapping_add(pins.gd() as u16) as u16;
            },
            5 => {
                let t387 = (cpu.pc&0xFF00)|(cpu.ad&0x00FF);
                pins.sa(t387);
                if (cpu.ad&0xFF00)==(cpu.pc&0xFF00) {
                    cpu.pc = cpu.ad;
                    cpu.irq_pip = cpu.irq_pip >> 1;
                    cpu.nmi_pip = cpu.nmi_pip >> 1;
                    pins.fetch(cpu.pc);
                }
            },
            6 => {
                cpu.pc = cpu.ad;
                pins.fetch(cpu.pc);
            },
            _ => {},
        },
        _ => {},
    }
}

/// Steps of opcodes 0xE0 to 0xEF.
#[verifier::rlimit(40)]
fn step_e(cpu: &mut M6502, pins: &mut CPUPins)
    requires
        0xe0 <= old(cpu)@.ir,
        old(cpu)@.ir < 0xf0,
        old(cpu)@.ir_step < step_count(old(cpu)@.ir),
    ensures
        (final(cpu)@, final(pins)@) == step_spec_e(old(cpu)@, old(pins)@),
        final(cpu)@.ir == old(cpu)@.ir,
        final(cpu)@.last_ir_pc == old(cpu)@.last_ir_pc,
        pins_sync(final(pins)@) || final(cpu)@.ir_step + 1 < step_count(final(cpu)@.ir),
        final(cpu)@.ir_step <= old(cpu)@.ir_step + 2,
        old(cpu)@.ir_step == 0 ==> final(cpu)@.ir_step == 0 && final(cpu)@.break_flags == old(cpu)@.break_flags,
{
    match cpu.ir {
        // CPX #
        0xe0 => match cpu.ir_step {
            0 => {
                pins.sa(cpu.pc);
                cpu.pc = cpu.pc.wrapping_add(1);
            },
            1 => {
                let t388 = cpu.x;
                let t389 = pins.gd();
                cpu.compare(t388, t389);
                pins.fetch(cpu.pc);
            },
            _ => {},
        },
        // SBC (zp,X)
        0xe1 => match cpu.ir_step {
            0 => {
                pins.sa(cpu.pc);
                cpu.pc = cpu.pc.wrapping_add(1);
            },
            1 => {
                cpu.ad = pins.gd() as u16;
                pins.sa(cpu.ad);
            },
            2 => {
                cpu.ad = (cpu.ad.wrapping_add(cpu.x as u16))&0xFF;
                pins.sa(cpu.ad);
            },
            3 => {
                let t390 = (cpu.ad.wrapping_add(1))&0xFF;
                pins.sa(t390);
                cpu.ad = pins.gd() as u16;
            },
            4 => {
                let t391 = ((pins.gd() as u16)<<8)|cpu.ad;
                pins.sa(t391);
            },
            5 => {
                let t392 = pins.gd();
                cpu.sbc(t392);
                pins.fetch(cpu.pc);
            },
            _ => {},
        },
        // NOP 2 2
        0xe2 => match cpu.ir_step {
            0 => {
                pins.sa(cpu.pc);
                cpu.pc = cpu.pc.wrapping_add(1);
            },
            1 => {
                pins.fetch(cpu.pc);
            },
            _ => {},
        },
        // NOP 1 1
        0xe3 => match cpu.ir_step {
            0 => {
                pins.fetch(cpu.pc);
            },
            _ => {},
        },
        // CPX zp
        0xe4 => match cpu.ir_step {
            0 => {
                pins.sa(cpu.pc);
                cpu.pc = cpu.pc.wrapping_add(1);
            },
            1 => {
                let t393 = pins.gd() as u16;
                pins.sa(t393);
            },
            2 => {
                let t394 = cpu.x;
                let t395 = pins.gd();
                cpu.compare(t394, t395);
                pins.fetch(cpu.pc);
            },
            _ => {},
        },
        // SBC zp
        0xe5 => match cpu.ir_step {
            0 => {
                pins.sa(cpu.pc);
                cpu.pc = cpu.pc.wrapping_add(1);
            },
            1 => {
                let t396 = pins.gd() as u16;
                pins.sa(t396);
            },
            2 => {
                let t397 = pins.gd();
                cpu.sbc(t397);
                pins.fetch(cpu.pc);
            },
            _ => {},
        },
        // INC zp
        0xe6 => match cpu.ir_step {
            0 => {
                pins.sa(cpu.pc);
                cpu.pc = cpu.pc.wrapping_add(1);
            },
            1 => {
                let t398 = pins.gd() as u16;
                pins.sa(t398);
            },
            2 => {
                cpu.ad = pins.gd() as u16;
                pins.pin_off(M6502_RW);
            },
            3 => {
                cpu.ad = cpu.ad.wrapping_add(1);
                let t399 = cpu.ad as u8;
                cpu.nz(t399);
                let t400 = cpu.ad as u8;
                pins.sd(t400);
                pins.pin_off(M6502_RW);
            },
            4 => {
                pins.fetch(cpu.pc);
            },
            _ => {},
        },
        // SMB6
        0xe7 => match cpu.ir_step {
            0 => {
                pins.sa(cpu.pc);
                cpu.pc = cpu.pc.wrapping_add(1);
            },
            1 => {
                let t401 = pins.gd() as u16;
                pins.sa(t401);
            },
            2 => {
                cpu.ad = pins.gd() as u16 | 0x40;
            },
            3 => {
                let t402 = cpu.ad as u8;
                pins.sd(t402);
                pins.pin_off(M6502_RW);
            },
            4 => {
                pins.fetch(cpu.pc);
            },
            _ => {},
        },
        // INX
        0xe8 => match cpu.ir_step {
            0 => {
                pins.sa(cpu.pc);
            },
            1 => {
                cpu.x = cpu.x.wrapping_add(1);
                let t403 = cpu.x;
                cpu.nz(t403);
                pins.fetch(cpu.pc);
            },
            _ => {},
        },
        // SBC #
        0xe9 => match cpu.ir_step {
            0 => {
                pins.sa(cpu.pc);
                cpu.pc = cpu.pc.wrapping_add(1);
            },
            1 => {
                let t404 = pins.gd();
                cpu.sbc(t404);
                pins.fetch(cpu.pc);
            },
            _ => {},
        },
        // NOP
        0xea => match cpu.ir_step {
            0 => {
                pins.sa(cpu.pc);
            },
            1 => {
                pins.fetch(cpu.pc);
            },
            _ => {},
        },
        // NOP 1 1
        0xeb => match cpu.ir_step {
            0 => {
                pins.fetch(cpu.pc);
            },
            _ => {},
        },
        // CPX abs
        0xec => match cpu.ir_step {
            0 => {
                pins.sa(cpu.pc);
                cpu.pc = cpu.pc.wrapping_add(1);
            },
            1 => {
                pins.sa(cpu.pc);
                cpu.pc = cpu.pc.wrapping_add(1);
                cpu.ad = pins.gd() as u16;
            },
            2 => {
                let t405 = ((pins.gd() as u16)<<8)|cpu.ad;
                pins.sa(t405);
            },
            3 => {
                let t406 = cpu.x;
                let t407 = pins.gd();
                cpu.compare(t406, t407);
                pins.fetch(cpu.pc);
            },
            _ => {},
        },
        // SBC abs
        0xed => match cpu.ir_step {
            0 => {
                pins.sa(cpu.pc);
                cpu.pc = cpu.pc.wrapping_add(1);
            },
            1 => {
                pins.sa(cpu.pc);
                cpu.pc = cpu.pc.wrapping_add(1);
                cpu.ad = pins.gd() as u16;
            },
            2 => {
                let t408 = ((pins.gd() as u16)<<8)|cpu.ad;
                pins.sa(t408);
            },
            3 => {
                let t409 = pins.gd();
                cpu.sbc(t409);
                pins.fetch(cpu.pc);
            },
            _ => {},
        },
        // INC abs
        0xee => match cpu.ir_step {
            0 => {
                pins.sa(cpu.pc);
                cpu.pc = cpu.pc.wrapping_add(1);
            },
            1 => {
                pins.sa(cpu.pc);
                cpu.pc = cpu.pc.wrapping_add(1);
                cpu.ad = pins.gd() as u16;
            },
            2 => {
                let t410 = ((pins.gd() as u16)<<8)|cpu.ad;
                pins.sa(t410);
            },
            3 => {
                cpu.ad = pins.gd() as u16;
                pins.pin_off(M6502_RW);
            },
            4 => {
                cpu.ad = cpu.ad.wrapping_add(1);
                let t411 = cpu.ad as u8;
                cpu.nz(t411);
                let t412 = cpu.ad as u8;
                pins.sd(t412);
                pins.pin_off(M6502_RW);
            },
            5 => {
                pins.fetch(cpu.pc);
            },
            _ => {},
        },
        // BBS6
        0xef => match cpu.ir_step {
            0 => {
                pins.sa(cpu.pc);
                cpu.pc = cpu.pc.wrapping_add(1);
            },
            1 => {
                let t413 = pins.gd() as u16;
                pins.sa(t413);
            },
            2 => {
                pins.sa(cpu.pc);
                cpu.ad = (pins.gd() & 0x40) as u16;
            },
            3 => {
                pins.sa(cpu.pc);
                if cpu.ad == 0 {
                    cpu.ad = cpu.pc.wrapping_add(1);
                    cpu.ir_step = cpu.ir_step + (2);
                }
            },
            4 => {
                pins.sa(cpu.pc);
                cpu.ad = cpu.pc.wrapping_add(1).wrapping_add(pins.gd() as u16) as u16;
            },
            5 => {
                let t414 = (cpu.pc&0xFF00)|(cpu.ad&0x00FF);
                pins.sa(t414);
                if (cpu.ad&0xFF00)==(cpu.pc&0xFF00) {
                    cpu.pc = cpu.ad;
                    cpu.irq_pip = cpu.irq_pip >> 1;
                    cpu.nmi_pip = cpu.nmi_pip >> 1;
                    pins.fetch(cpu.pc);
                }
            },
            6 => {
                cpu.pc = cpu.ad;
                pins.fetch(cpu.pc);
            },
            _ => {},
        },
        _ => {},
    }
}

/// Steps of opcodes 0xF0 to 0xFF.
#[verifier::rlimit(40)]
fn step_f(cpu: &mut M6502, pins: &mut CPUPins)
    requires
        0xf0 <= old(cpu)@.ir,
        old(cpu)@.ir_step < step_count(old(cpu)@.ir),
    ensures
        (final(cpu)@, final(pins)@) == step_spec_f(old(cpu)@, old(pins)@),
        final(cpu)@.ir == old(cpu)@.ir,
        final(cpu)@.last_ir_pc == old(cpu)@.last_ir_pc,
        pins_sync(final(pins)@) || final(cpu)@.ir_step + 1 < step_count(final(cpu)@.ir),
        final(cpu)@.ir_step <= old(cpu)@.ir_step + 2,
        old(cpu)@.ir_step == 0 ==> final(cpu)@.ir_step == 0 && final(cpu)@.break_flags == old(cpu)@.break_flags,
{
    match cpu.ir {
        // BEQ #
        0xf0 => match cpu.ir_step {
            0 => {
                pins.sa(cpu.pc);
                cpu.pc = cpu.pc.wrapping_add(1);
            },
            1 => {
                pins.sa(cpu.pc);
                cpu.ad = cpu.pc.wrapping_add((pins.gd() as i8) as u16);
                if (cpu.flags.bits & FLAG_Z) == 0 {
                    pins.fetch(cpu.pc);
                }
            },
            2 => {
                let t415 = (cpu.pc&0xFF00)|(cpu.ad&0x00FF);
                pins.sa(t415);
                if (cpu.ad&0xFF00)==(cpu.pc&0xFF00) {
                    cpu.pc = cpu.ad;
                    cpu.irq_pip = cpu.irq_pip >> 1;
                    cpu.nmi_pip = cpu.nmi_pip >> 1;
                    pins.fetch(cpu.pc);
                }
            },
            3 => {
                cpu.pc = cpu.ad;
                pins.fetch(cpu.pc);
            },
            _ => {},
        },
        // SBC (zp),Y
        0xf1 => match cpu.ir_step {
            0 => {
                pins.sa(cpu.pc);
                cpu.pc = cpu.pc.wrapping_add(1);
            },
            1 => {
                cpu.ad = pins.gd() as u16;
                pins.sa(cpu.ad);
            },
            2 => {
                let t416 = (cpu.ad.wrapping_add(1))&0xFF;
                pins.sa(t416);
                cpu.ad = pins.gd() as u16;
            },
            3 => {
                cpu.ad = cpu.ad | ((pins.gd() as u16)<<8);
                let t417 = (cpu.ad&0xFF00)|((cpu.ad.wrapping_add(cpu.y as u16))&0xFF);
                pins.sa(t417);
                let v = (cpu.ad>>8).wrapping_sub(cpu.ad.wrapping_add(cpu.y as u16)>>8);
                proof { lemma_low_bit(!v as u8); }
                cpu.ir_step = cpu.ir_step + ((!v as u8) & 1);
            },
            4 => {
                let t418 = cpu.ad.wrapping_add(cpu.y as u16);
                pins.sa(t418);
            },
            5 => {
                let t419 = pins.gd();
                cpu.sbc(t419);
                pins.fetch(cpu.pc);
            },
            _ => {},
        },
        // SBC (zp), 2, 5-6, A - M - ~C → A
        0xf2 => match cpu.ir_step {
            0 => {
                pins.sa(cpu.pc);
                cpu.pc = cpu.pc.wrapping_add(1);
            },
            1 => {
                cpu.ad = pins.gd() as u16;
                pins.sa(cpu.ad);
            },
            2 => {
                let t420 = (cpu.ad.wrapping_add(1))&0xFF;
                pins.sa(t420);
                cpu.ad = pins.gd() as u16;
            },
            3 => {
                cpu.ad = cpu.ad | ((pins.gd() as u16)<<8);
                pins.sa(cpu.ad);
            },
            4 => {
                let t421 = pins.gd();
                cpu.sbc(t421);
                pins.fetch(cpu.pc);
            },
            _ => {},
        },
        // NOP 1 1
        0xf3 => match cpu.ir_step {
            0 => {
                pins.fetch(cpu.pc);
            },
            _ => {},
        },
        // NOP 2 4
        0xf4 => match cpu.ir_step {
            0 => {
                pins.sa(cpu.pc);
                cpu.pc = cpu.pc.wrapping_add(1);
            },
            1 => {
                pins.sa(cpu.pc);
            },
            2 => {
                pins.sa(cpu.pc);
            },
            3 => {
                pins.fetch(cpu.pc);
            },
            _ => {},
        },
        // SBC zp,X
        0xf5 => match cpu.ir_step {
            0 => {
                pins.sa(cpu.pc);
                cpu.pc = cpu.pc.wrapping_add(1);
            },
            1 => {
                cpu.ad = pins.gd() as u16;
                pins.sa(cpu.ad);
            },
            2 => {
                let t422 = (cpu.ad.wrapping_add(cpu.x as u16))&0x00FF;
                pins.sa(t422);
            },
            3 => {
                let t423 = pins.gd();
                cpu.sbc(t423);
                pins.fetch(cpu.pc);
            },
            _ => {},
        },
        // INC zp,X
        0xf6 => match cpu.ir_step {
            0 => {
                pins.sa(cpu.pc);
                cpu.pc = cpu.pc.wrapping_add(1);
            },
            1 => {
                cpu.ad = pins.gd() as u16;
                pins.sa(cpu.ad);
            },
            2 => {
                let t424 = (cpu.ad.wrapping_add(cpu.x as u16))&0x00FF;
                pins.sa(t424);
            },
            3 => {
                cpu.ad = pins.gd() as u16;
                pins.pin_off(M6502_RW);
            },
            4 => {
                cpu.ad = cpu.ad.wrapping_add(1);
                let t425 = cpu.ad as u8;
                cpu.nz(t425);
                let t426 = cpu.ad as u8;
                pins.sd(t426);
                pins.pin_off(M6502_RW);
            },
            5 => {
                pins.fetch(cpu.pc);
            },
            _ => {},
        },
        // SMB0
        0xf7 => match cpu.ir_step {
            0 => {
                pins.sa(cpu.pc);
                cpu.pc = cpu.pc.wrapping_add(1);
            },
            1 => {
                let t427 = pins.gd() as u16;
                pins.sa(t427);
            },
            2 => {
                cpu.ad = pins.gd() as u16 | 0x80;
            },
            3 => {
                let t428 = cpu.ad as u8;
                pins.sd(t428);
                pins.pin_off(M6502_RW);
            },
            4 => {
                pins.fetch(cpu.pc);
            },
            _ => {},
        },
        // SED
        0xf8 => match cpu.ir_step {
            0 => {
                pins.sa(cpu.pc);
            },
            1 => {
                cpu.flags.bits = cpu.flags.bits | (FLAG_D);
                pins.fetch(cpu.pc);
            },
            _ => {},
        },
        // SBC abs,Y
        0xf9 => match cpu.ir_step {
            0 => {
                pins.sa(cpu.pc);
                cpu.pc = cpu.pc.wrapping_add(1);
            },
            1 => {
                pins.sa(cpu.pc);
                cpu.pc = cpu.pc.wrapping_add(1);
                cpu.ad = pins.gd() as u16;
            },
            2 => {
                cpu.ad = cpu.ad | ((pins.gd() as u16)<<8);
                let t429 = (cpu.ad&0xFF00)|((cpu.ad.wrapping_add(cpu.y as u16))&0xFF);
                pins.sa(t429);
                let v = (cpu.ad>>8).wrapping_sub(cpu.ad.wrapping_add(cpu.y as u16)>>8);
                proof { lemma_low_bit(!v as u8); }
                cpu.ir_step = cpu.ir_step + ((!v as u8) & 1);
            },
            3 => {
                let t430 = cpu.ad.wrapping_add(cpu.y as u16);
                pins.sa(t430);
            },
            4 => {
                let t431 = pins.gd();
                cpu.sbc(t431);
                pins.fetch(cpu.pc);
            },
            _ => {},
        },
        // PLX, 1, 4, X↑
        0xfa => match cpu.ir_step {
            0 => {
                pins.sa(cpu.pc);
            },
            1 => {
                let t432 = 0x0100|(cpu.s as u16);
                pins.sa(t432);
                cpu.s = cpu.s.wrapping_add(1);
            },
            2 => {
                let t433 = 0x0100|(cpu.s as u16);
                pins.sa(t433);
            },
            3 => {
                cpu.x = pins.gd();
                let t434 = cpu.x;
                cpu.nz(t434);
                pins.fetch(cpu.pc);
            },
            _ => {},
        },
        // NOP 1 1
        0xfb => match cpu.ir_step {
            0 => {
                pins.fetch(cpu.pc);
            },
            _ => {},
        },
        // NOP 3 4
        0xfc => match cpu.ir_step {
            0 => {
                pins.sa(cpu.pc);
                cpu.pc = cpu.pc.wrapping_add(1);
            },
            1 => {
                pins.sa(cpu.pc);
                cpu.pc = cpu.pc.wrapping_add(1);
            },
            2 => {
                pins.sa(cpu.pc);
            },
            3 => {
                pins.fetch(cpu.pc);
            },
            _ => {},
        },
        // SBC abs,X
        0xfd => match cpu.ir_step {
            0 => {
                pins.sa(cpu.pc);
                cpu.pc = cpu.pc.wrapping_add(1);
            },
            1 => {
                pins.sa(cpu.pc);
                cpu.pc = cpu.pc.wrapping_add(1);
                cpu.ad = pins.gd() as u16;
            },
            2 => {
                cpu.ad = cpu.ad | ((pins.gd() as u16)<<8);
                let t435 = (cpu.ad&0xFF00)|((cpu.ad.wrapping_add(cpu.x as u16))&0xFF);
                pins.sa(t435);
                let v = (cpu.ad>>8).wrapping_sub(cpu.ad.wrapping_add(cpu.x as u16)>>8);
                proof { lemma_low_bit(!v as u8); }
                cpu.ir_step = cpu.ir_step + ((!v as u8) & 1);
            },
            3 => {
                let t436 = cpu.ad.wrapping_add(cpu.x as u16);
                pins.sa(t436);
            },
            4 => {
                let t437 = pins.gd();
                cpu.sbc(t437);
                pins.fetch(cpu.pc);
            },
            _ => {},
        },
        // INC abs,X
        0xfe => match cpu.ir_step {
            0 => {
                pins.sa(cpu.pc);
                cpu.pc = cpu.pc.wrapping_add(1);
            },
            1 => {
                pins.sa(cpu.pc);
                cpu.pc = cpu.pc.wrapping_add(1);
                cpu.ad = pins.gd() as u16;
            },
            2 => {
                cpu.ad = cpu.ad | ((pins.gd() as u16)<<8);
                let t438 = (cpu.ad&0xFF00)|((cpu.ad.wrapping_add(cpu.x as u16))&0xFF);
                pins.sa(t438);
            },
            3 => {
                let t439 = cpu.ad.wrapping_add(cpu.x as u16);
                pins.sa(t439);
            },
            4 => {
                cpu.ad = pins.gd() as u16;
                pins.pin_off(M6502_RW);
            },
            5 => {
                cpu.ad = cpu.ad.wrapping_add(1);
                let t440 = cpu.ad as u8;
                cpu.nz(t440);
                let t441 = cpu.ad as u8;
                pins.sd(t441);
                pins.pin_off(M6502_RW);
            },
            6 => {
                pins.fetch(cpu.pc);
            },
            _ => {},
        },
        // BBS7
        0xff => match cpu.ir_step {
            0 => {
                pins.sa(cpu.pc);
                cpu.pc = cpu.pc.wrapping_add(1);
            },
            1 => {
                let t442 = pins.gd() as u16;
                pins.sa(t442);
            },
            2 => {
                pins.sa(cpu.pc);
                cpu.ad = (pins.gd() & 0x80) as u16;
            },
            3 => {
                pins.sa(cpu.pc);
                if cpu.ad == 0 {
                    cpu.ad = cpu.pc.wrapping_add(1);
                    cpu.ir_step = cpu.ir_step + (2);
                }
            },
            4 => {
                pins.sa(cpu.pc);
                cpu.ad = cpu.pc.wrapping_add(1).wrapping_add(pins.gd() as u16) as u16;
            },
            5 => {
                let t443 = (cpu.pc&0xFF00)|(cpu.ad&0x00FF);
                pins.sa(t443);
                if (cpu.ad&0xFF00)==(cpu.pc&0xFF00) {
                    cpu.pc = cpu.ad;
                    cpu.irq_pip = cpu.irq_pip >> 1;
                    cpu.nmi_pip = cpu.nmi_pip >> 1;
                    pins.fetch(cpu.pc);
                }
            },
            6 => {
                cpu.pc = cpu.ad;
                pins.fetch(cpu.pc);
            },
            _ => {},
        },
        _ => {},
    }
}

} // verus!
