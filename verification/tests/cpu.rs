use holani::consts::{M6502_RW, M6502_SYNC};
use holani::mikey::cpu::{CPUPins, M6502, M6502Flags, M6502Stepper};

const F_N: u8 = 0x80;
const F_V: u8 = 0x40;
const F_X: u8 = 0x20;
const F_B: u8 = 0x10;
const F_D: u8 = 0x08;
const F_I: u8 = 0x04;
const F_Z: u8 = 0x02;
const F_C: u8 = 0x01;

struct TestCore {
    cpu_pins: CPUPins,
    cpu: M6502,
    stepper: M6502Stepper,
    ram: Vec<u8>,
}

impl TestCore {
    fn new() -> Self {
        Self { cpu_pins: CPUPins::default(), cpu: M6502::new(), stepper: M6502Stepper::new(), ram: vec![0; 0x10000] }
    }
}

fn init_core(c: &mut TestCore) {
    c.ram.fill(0);
    c.cpu.set_s(0xbd);
    c.cpu.set_flags(M6502Flags::from_bits_retain(F_Z | F_B | F_I));
}

fn tf(c: &TestCore, expected: u8) -> bool {
    (c.cpu.flags().bits() & !(F_X | F_I | F_B)) == expected
}

fn get(c: &TestCore, addr: u16) -> u8 {
    c.ram[addr as usize]
}

fn set(c: &mut TestCore, addr: u16, data: u8) {
    c.ram[addr as usize] = data;
}

fn copy(c: &mut TestCore, dest: u16, buf: &[u8]) {
    let d = dest as usize;
    c.ram[d..d + buf.len()].copy_from_slice(buf);
}

fn cpu_prefetch(c: &mut TestCore, pc: u16) {
    c.cpu_pins.set(M6502_SYNC);
    c.cpu_pins.sa(pc);
    let d = get(c, pc);
    c.cpu_pins.sd(d);
    c.cpu.set_pc(pc);
}

fn step(c: &mut TestCore) -> i32 {
    let mut ticks = 0;
    loop {
        c.cpu_pins = c.stepper.tick(&mut c.cpu, c.cpu_pins);
        let addr = c.cpu_pins.ga();

        if c.cpu_pins.is_set(M6502_RW) {
            let d = get(c, addr);
            c.cpu_pins.sd(d);
        } else {
            let d = c.cpu_pins.gd();
            set(c, addr, d);
        }
        ticks += 1;
        if c.cpu.pins().is_set(M6502_SYNC) {
            break;
        }
    }
    ticks
}

fn w8(c: &mut TestCore, addr: u16, data: u8) {
    c.ram[addr as usize] = data;
}

fn w16(c: &mut TestCore, addr: u16, data: u16) {
    c.ram[addr as usize] = (data & 0xFF) as u8;
    c.ram[(addr + 1) as usize] = (data >> 8) as u8;
}

fn r16(c: &TestCore, addr: u16) -> u16 {
    let l = c.ram[addr as usize];
    let h = c.ram[(addr + 1) as usize];
    ((h as u16) << 8) | (l as u16)
}

#[test]
fn init() {
    let mut core: TestCore = TestCore::new();
    init_core(&mut core);
    assert!(0 == core.cpu.a());
    assert!(0 == core.cpu.x());
    assert!(0 == core.cpu.y());
    assert!(0xBD == core.cpu.s());
    assert!(tf(&core, F_Z));
}

#[test]
fn brk() {
    let mut core: TestCore = TestCore::new();
    init_core(&mut core);
    let prog = [
        0xA9, 0xAA,     // LDA #$AA
        0x00,           // BRK
        0xFF, 0xFF, 0xFF, 0xFF, 0xFF, 0xFF, 0xFF, 0xFF,
        0xFF, 0xFF, 0xFF, 0xFF, 0xFF,
        0xA9, 0xBB,     // LDA #$BB
    ];
    copy(&mut core, 0x0000, &prog);
    // set BRK/IRQ vector
    w16(&mut core, 0xFFFE, 0x0010);
    cpu_prefetch(&mut core, 0x0000);

    assert!(2 == step(&mut core)); assert!(core.cpu.a() == 0xAA);
    assert!(7 == step(&mut core)); assert!(core.cpu.pc() == 0x0010); assert!(core.cpu.s()==0xBA); assert!(get(&core, 0x01BB) == 0xB4); assert!(r16(&core, 0x01BC) == 0x0004);
    assert!(2 == step(&mut core)); assert!(core.cpu.a() == 0xBB);
}

#[test]
fn lda() {
    let mut core: TestCore = TestCore::new();
    init_core(&mut core);
    let prog = [
        // immediate
        0xA9, 0x00,         // LDA #$00
        0xA9, 0x01,         // LDA #$01
        0xA9, 0x00,         // LDA #$00
        0xA9, 0x80,         // LDA #$80

        // zero page
        0xA5, 0x02,         // LDA $02
        0xA5, 0x03,         // LDA $03
        0xA5, 0x80,         // LDA $80
        0xA5, 0xFF,         // LDA $FF

        // absolute
        0xAD, 0x00, 0x10,   // LDA $1000
        0xAD, 0xFF, 0xFF,   // LDA $FFFF
        0xAD, 0x21, 0x00,   // LDA $0021

        // zero page,X
        0xA2, 0x0F,         // LDX #$0F
        0xB5, 0x10,         // LDA $10,X    => 0x1F
        0xB5, 0xF8,         // LDA $FE,X    => 0x07
        0xB5, 0x78,         // LDA $78,X    => 0x87

        // absolute,X
        0xBD, 0xF1, 0x0F,   // LDA $0x0FF1,X    => 0x1000
        0xBD, 0xF0, 0xFF,   // LDA $0xFFF0,X    => 0xFFFF
        0xBD, 0x12, 0x00,   // LDA $0x0012,X    => 0x0021

        // absolute,Y
        0xA0, 0xF0,         // LDY #$F0
        0xB9, 0x10, 0x0F,   // LDA $0x0F10,Y    => 0x1000
        0xB9, 0x0F, 0xFF,   // LDA $0xFF0F,Y    => 0xFFFF
        0xB9, 0x31, 0xFF,   // LDA $0xFF31,Y    => 0x0021

        // indirect,X
        0xA1, 0xF0,         // LDA ($F0,X)  => 0xFF, second byte in 0x00 => 0x1234
        0xA1, 0x70,         // LDA ($70,X)  => 0x70 => 0x4321

        // indirect,Y
        0xB1, 0xFF,         // LDA ($FF),Y  => 0x1234+0xF0 => 0x1324
        0xB1, 0x7F,         // LDA ($7F),Y  => 0x4321+0xF0 => 0x4411

        // zp indirect
        0xB2, 0xFF,         // LDA ($FF)  => 0x1234
        0xB2, 0x7F,         // LDA ($7F)  => 0x4321
    ];
    w8(&mut core, 0x0002, 0x01); w8(&mut core, 0x0003, 0x00); w8(&mut core, 0x0080, 0x80); w8(&mut core, 0x00FF, 0x03);
    w8(&mut core, 0x1000, 0x12); w8(&mut core, 0xFFFF, 0x34); w8(&mut core, 0x0021, 0x56);
    w8(&mut core, 0x001F, 0xAA); w8(&mut core, 0x0007, 0x33); w8(&mut core, 0x0087, 0x22);
    copy(&mut core, 0x0200, &prog);
    cpu_prefetch(&mut core, 0x0200);

    // immediate
    assert!(2 == step(&mut core)); assert!(core.cpu.a() == 0x00); assert!(tf(&core, F_Z));
    assert!(2 == step(&mut core)); assert!(core.cpu.a() == 0x01); assert!(tf(&core, 0));
    assert!(2 == step(&mut core)); assert!(core.cpu.a() == 0x00); assert!(tf(&core, F_Z));
    assert!(2 == step(&mut core)); assert!(core.cpu.a() == 0x80); assert!(tf(&core, F_N));

    // zero page
    assert!(3 == step(&mut core)); assert!(core.cpu.a() == 0x01); assert!(tf(&core, 0));
    assert!(3 == step(&mut core)); assert!(core.cpu.a() == 0x00); assert!(tf(&core, F_Z));
    assert!(3 == step(&mut core)); assert!(core.cpu.a() == 0x80); assert!(tf(&core, F_N));
    assert!(3 == step(&mut core)); assert!(core.cpu.a() == 0x03); assert!(tf(&core, 0));

    // absolute
    assert!(4 == step(&mut core)); assert!(core.cpu.a() == 0x12); assert!(tf(&core, 0));
    assert!(4 == step(&mut core)); assert!(core.cpu.a() == 0x34); assert!(tf(&core, 0));
    assert!(4 == step(&mut core)); assert!(core.cpu.a() == 0x56); assert!(tf(&core, 0));

    // zero page,X
    assert!(2 == step(&mut core)); assert!(core.cpu.x() == 0x0F); assert!(tf(&core, 0));
    assert!(4 == step(&mut core)); assert!(core.cpu.a() == 0xAA); assert!(tf(&core, F_N));
    assert!(4 == step(&mut core)); assert!(core.cpu.a() == 0x33); assert!(tf(&core, 0));
    assert!(4 == step(&mut core)); assert!(core.cpu.a() == 0x22); assert!(tf(&core, 0));

    // absolute,X
    assert!(5 == step(&mut core)); assert!(core.cpu.a() == 0x12); assert!(tf(&core, 0));
    assert!(4 == step(&mut core)); assert!(core.cpu.a() == 0x34); assert!(tf(&core, 0));
    assert!(4 == step(&mut core)); assert!(core.cpu.a() == 0x56); assert!(tf(&core, 0));

    // absolute,Y
    assert!(2 == step(&mut core)); assert!(core.cpu.y() == 0xF0); assert!(tf(&core, F_N));
    assert!(5 == step(&mut core)); assert!(core.cpu.a() == 0x12); assert!(tf(&core, 0));
    assert!(4 == step(&mut core)); assert!(core.cpu.a() == 0x34); assert!(tf(&core, 0));
    assert!(5 == step(&mut core)); assert!(core.cpu.a() == 0x56); assert!(tf(&core, 0));

    // indirect,X
    w8(&mut core, 0x00FF, 0x34); w8(&mut core, 0x0000, 0x12); w16(&mut core, 0x007f, 0x4321);
    w8(&mut core, 0x1234, 0x89); w8(&mut core, 0x4321, 0x8A);
    assert!(6 == step(&mut core)); assert!(core.cpu.a() == 0x89); assert!(tf(&core, F_N));
    assert!(6 == step(&mut core)); assert!(core.cpu.a() == 0x8A); assert!(tf(&core, F_N));

    // indirect,Y (both 6 cycles because page boundary crossed)
    w8(&mut core, 0x1324, 0x98); w8(&mut core, 0x4411, 0xA8);
    assert!(6 == step(&mut core)); assert!(core.cpu.a() == 0x98); assert!(tf(&core, F_N));
    assert!(6 == step(&mut core)); assert!(core.cpu.a() == 0xA8); assert!(tf(&core, F_N));

    // zp indirect
    w8(&mut core, 0x1234, 0x47); w8(&mut core, 0x4321, 0x87);
    assert!(5 == step(&mut core)); assert!(core.cpu.a() == 0x47); assert!(tf(&core, 0));
    assert!(5 == step(&mut core)); assert!(core.cpu.a() == 0x87); assert!(tf(&core, F_N));
}

#[test]
fn ldx() {
    let mut core: TestCore = TestCore::new();
    init_core(&mut core);
    let prog = [
        // immediate
        0xA2, 0x00,         // LDX #$00
        0xA2, 0x01,         // LDX #$01
        0xA2, 0x00,         // LDX #$00
        0xA2, 0x80,         // LDX #$80

        // zero page
        0xA6, 0x02,         // LDX $02
        0xA6, 0x03,         // LDX $03
        0xA6, 0x80,         // LDX $80
        0xA6, 0xFF,         // LDX $FF

        // absolute
        0xAE, 0x00, 0x10,   // LDX $1000
        0xAE, 0xFF, 0xFF,   // LDX $FFFF
        0xAE, 0x21, 0x00,   // LDX $0021

        // zero page,Y
        0xA0, 0x0F,         // LDY #$0F
        0xB6, 0x10,         // LDX $10,Y    => 0x1F
        0xB6, 0xF8,         // LDX $FE,Y    => 0x07
        0xB6, 0x78,         // LDX $78,Y    => 0x87

        // absolute,Y
        0xA0, 0xF0,         // LDY #$F0
        0xBE, 0x10, 0x0F,   // LDX $0F10,Y    => 0x1000
        0xBE, 0x0F, 0xFF,   // LDX $FF0F,Y    => 0xFFFF
        0xBE, 0x31, 0xFF,   // LDX $FF31,Y    => 0x0021
    ];
    w8(&mut core, 0x0002, 0x01); w8(&mut core, 0x0003, 0x00); w8(&mut core, 0x0080, 0x80); w8(&mut core, 0x00FF, 0x03);
    w8(&mut core, 0x1000, 0x12); w8(&mut core, 0xFFFF, 0x34); w8(&mut core, 0x0021, 0x56);
    w8(&mut core, 0x001F, 0xAA); w8(&mut core, 0x0007, 0x33); w8(&mut core, 0x0087, 0x22);
    copy(&mut core, 0x0200, &prog);
    cpu_prefetch(&mut core, 0x0200);

    // immediate
    assert!(2 == step(&mut core)); assert!(core.cpu.x() == 0x00); assert!(tf(&core, F_Z));
    assert!(2 == step(&mut core)); assert!(core.cpu.x() == 0x01); assert!(tf(&core, 0));
    assert!(2 == step(&mut core)); assert!(core.cpu.x() == 0x00); assert!(tf(&core, F_Z));
    assert!(2 == step(&mut core)); assert!(core.cpu.x() == 0x80); assert!(tf(&core, F_N));

    // zero page
    assert!(3 == step(&mut core)); assert!(core.cpu.x() == 0x01); assert!(tf(&core, 0));
    assert!(3 == step(&mut core)); assert!(core.cpu.x() == 0x00); assert!(tf(&core, F_Z));
    assert!(3 == step(&mut core)); assert!(core.cpu.x() == 0x80); assert!(tf(&core, F_N));
    assert!(3 == step(&mut core)); assert!(core.cpu.x() == 0x03); assert!(tf(&core, 0));

    // absolute
    assert!(4 == step(&mut core)); assert!(core.cpu.x() == 0x12); assert!(tf(&core, 0));
    assert!(4 == step(&mut core)); assert!(core.cpu.x() == 0x34); assert!(tf(&core, 0));
    assert!(4 == step(&mut core)); assert!(core.cpu.x() == 0x56); assert!(tf(&core, 0));

    // zero page,Y
    assert!(2 == step(&mut core)); assert!(core.cpu.y() == 0x0F); assert!(tf(&core, 0));
    assert!(4 == step(&mut core)); assert!(core.cpu.x() == 0xAA); assert!(tf(&core, F_N));
    assert!(4 == step(&mut core)); assert!(core.cpu.x() == 0x33); assert!(tf(&core, 0));
    assert!(4 == step(&mut core)); assert!(core.cpu.x() == 0x22); assert!(tf(&core, 0));

    // absolute,X
    assert!(2 == step(&mut core)); assert!(core.cpu.y() == 0xF0); assert!(tf(&core, F_N));
    assert!(5 == step(&mut core)); assert!(core.cpu.x() == 0x12); assert!(tf(&core, 0));
    assert!(4 == step(&mut core)); assert!(core.cpu.x() == 0x34); assert!(tf(&core, 0));
    assert!(5 == step(&mut core)); assert!(core.cpu.x() == 0x56); assert!(tf(&core, 0));
}

#[test]
fn ldy() {
    let mut core: TestCore = TestCore::new();
    init_core(&mut core);
    let prog = [
        // immediate
        0xA0, 0x00,         // LDY #$00
        0xA0, 0x01,         // LDY #$01
        0xA0, 0x00,         // LDY #$00
        0xA0, 0x80,         // LDY #$80

        // zero page
        0xA4, 0x02,         // LDY $02
        0xA4, 0x03,         // LDY $03
        0xA4, 0x80,         // LDY $80
        0xA4, 0xFF,         // LDY $FF

        // absolute
        0xAC, 0x00, 0x10,   // LDY $1000
        0xAC, 0xFF, 0xFF,   // LDY $FFFF
        0xAC, 0x21, 0x00,   // LDY $0021

        // zero page,X
        0xA2, 0x0F,         // LDX #$0F
        0xB4, 0x10,         // LDY $10,X    => 0x1F
        0xB4, 0xF8,         // LDY $FE,X    => 0x07
        0xB4, 0x78,         // LDY $78,X    => 0x87

        // absolute,X
        0xA2, 0xF0,         // LDX #$F0
        0xBC, 0x10, 0x0F,   // LDY $0F10,X    => 0x1000
        0xBC, 0x0F, 0xFF,   // LDY $FF0F,X    => 0xFFFF
        0xBC, 0x31, 0xFF,   // LDY $FF31,X    => 0x0021
    ];
    w8(&mut core, 0x0002, 0x01); w8(&mut core, 0x0003, 0x00); w8(&mut core, 0x0080, 0x80); w8(&mut core, 0x00FF, 0x03);
    w8(&mut core, 0x1000, 0x12); w8(&mut core, 0xFFFF, 0x34); w8(&mut core, 0x0021, 0x56);
    w8(&mut core, 0x001F, 0xAA); w8(&mut core, 0x0007, 0x33); w8(&mut core, 0x0087, 0x22);
    copy(&mut core, 0x0200, &prog);
    cpu_prefetch(&mut core, 0x0200);

    // immediate
    assert!(2 == step(&mut core)); assert!(core.cpu.y() == 0x00); assert!(tf(&core, F_Z));
    assert!(2 == step(&mut core)); assert!(core.cpu.y() == 0x01); assert!(tf(&core, 0));
    assert!(2 == step(&mut core)); assert!(core.cpu.y() == 0x00); assert!(tf(&core, F_Z));
    assert!(2 == step(&mut core)); assert!(core.cpu.y() == 0x80); assert!(tf(&core, F_N));

    // zero page
    assert!(3 == step(&mut core)); assert!(core.cpu.y() == 0x01); assert!(tf(&core, 0));
    assert!(3 == step(&mut core)); assert!(core.cpu.y() == 0x00); assert!(tf(&core, F_Z));
    assert!(3 == step(&mut core)); assert!(core.cpu.y() == 0x80); assert!(tf(&core, F_N));
    assert!(3 == step(&mut core)); assert!(core.cpu.y() == 0x03); assert!(tf(&core, 0));

    // absolute
    assert!(4 == step(&mut core)); assert!(core.cpu.y() == 0x12); assert!(tf(&core, 0));
    assert!(4 == step(&mut core)); assert!(core.cpu.y() == 0x34); assert!(tf(&core, 0));
    assert!(4 == step(&mut core)); assert!(core.cpu.y() == 0x56); assert!(tf(&core, 0));

    // zero page,Y
    assert!(2 == step(&mut core)); assert!(core.cpu.x() == 0x0F); assert!(tf(&core, 0));
    assert!(4 == step(&mut core)); assert!(core.cpu.y() == 0xAA); assert!(tf(&core, F_N));
    assert!(4 == step(&mut core)); assert!(core.cpu.y() == 0x33); assert!(tf(&core, 0));
    assert!(4 == step(&mut core)); assert!(core.cpu.y() == 0x22); assert!(tf(&core, 0));

    // absolute,X
    assert!(2 == step(&mut core)); assert!(core.cpu.x() == 0xF0); assert!(tf(&core, F_N));
    assert!(5 == step(&mut core)); assert!(core.cpu.y() == 0x12); assert!(tf(&core, 0));
    assert!(4 == step(&mut core)); assert!(core.cpu.y() == 0x34); assert!(tf(&core, 0));
    assert!(5 == step(&mut core)); assert!(core.cpu.y() == 0x56); assert!(tf(&core, 0));
}

#[test]
fn sta() {
    let mut core: TestCore = TestCore::new();
    init_core(&mut core);
    let prog = [
        0xA9, 0x23,             // LDA #$23
        0xA2, 0x10,             // LDX #$10
        0xA0, 0xC0,             // LDY #$C0
        0x85, 0x10,             // STA $10
        0x8D, 0x34, 0x12,       // STA $1234
        0x95, 0x10,             // STA $10,X
        0x9D, 0x00, 0x20,       // STA $2000,X
        0x99, 0x00, 0x20,       // STA $2000,Y
        0x81, 0x10,             // STA ($10,X)
        0x91, 0x20,             // STA ($20),Y
        0x92, 0x22,             // STA ($22) ;->5432
    ];
    copy(&mut core, 0x0200, &prog);
    cpu_prefetch(&mut core, 0x0200);

    assert!(2 == step(&mut core)); assert!(core.cpu.a() == 0x23);
    assert!(2 == step(&mut core)); assert!(core.cpu.x() == 0x10);
    assert!(2 == step(&mut core)); assert!(core.cpu.y() == 0xC0);
    assert!(3 == step(&mut core)); assert!(get(&core, 0x0010) == 0x23);
    assert!(4 == step(&mut core)); assert!(get(&core, 0x1234) == 0x23);
    assert!(4 == step(&mut core)); assert!(get(&core, 0x0020) == 0x23);
    assert!(5 == step(&mut core)); assert!(get(&core, 0x2010) == 0x23);
    assert!(5 == step(&mut core)); assert!(get(&core, 0x20C0) == 0x23);
    w16(&mut core, 0x0020, 0x4321);
    w16(&mut core, 0x0022, 0x5432);
    assert!(6 == step(&mut core)); assert!(get(&core, 0x4321) == 0x23);
    assert!(6 == step(&mut core)); assert!(get(&core, 0x43E1) == 0x23);
    assert!(5 == step(&mut core)); assert!(get(&core, 0x5432) == 0x23);
}

#[test]
fn stx() {
    let mut core: TestCore = TestCore::new();
    init_core(&mut core);
    let prog = [
        0xA2, 0x23,             // LDX #$23
        0xA0, 0x10,             // LDY #$10

        0x86, 0x10,             // STX $10
        0x8E, 0x34, 0x12,       // STX $1234
        0x96, 0x10,             // STX $10,Y
    ];
    copy(&mut core, 0x0200, &prog);
    cpu_prefetch(&mut core, 0x0200);

    assert!(2 == step(&mut core)); assert!(core.cpu.x() == 0x23);
    assert!(2 == step(&mut core)); assert!(core.cpu.y() == 0x10);
    assert!(3 == step(&mut core)); assert!(get(&core, 0x0010) == 0x23);
    assert!(4 == step(&mut core)); assert!(get(&core, 0x1234) == 0x23);
    assert!(4 == step(&mut core)); assert!(get(&core, 0x0020) == 0x23);
}

#[test]
fn sty() {
    let mut core: TestCore = TestCore::new();
    init_core(&mut core);
    let prog = [
        0xA0, 0x23,             // LDY #$23
        0xA2, 0x10,             // LDX #$10

        0x84, 0x10,             // STX $10
        0x8C, 0x34, 0x12,       // STX $1234
        0x94, 0x10,             // STX $10,Y
    ];
    copy(&mut core, 0x0200, &prog);
    cpu_prefetch(&mut core, 0x0200);

    assert!(2 == step(&mut core)); assert!(core.cpu.y() == 0x23);
    assert!(2 == step(&mut core)); assert!(core.cpu.x() == 0x10);
    assert!(3 == step(&mut core)); assert!(get(&core, 0x0010) == 0x23);
    assert!(4 == step(&mut core)); assert!(get(&core, 0x1234) == 0x23);
    assert!(4 == step(&mut core)); assert!(get(&core, 0x0020) == 0x23);
}

#[test]
fn tax_txa() {
    let mut core: TestCore = TestCore::new();
    init_core(&mut core);
    let prog = [
        0xA9, 0x00,     // LDA #$00
        0xA2, 0x10,     // LDX #$10
        0xAA,           // TAX
        0xA9, 0xF0,     // LDA #$F0
        0x8A,           // TXA
        0xA9, 0xF0,     // LDA #$F0
        0xA2, 0x00,     // LDX #$00
        0xAA,           // TAX
        0xA9, 0x01,     // LDA #$01
        0x8A,           // TXA
    ];
    copy(&mut core, 0x0200, &prog);
    cpu_prefetch(&mut core, 0x0200);

    assert!(2 == step(&mut core)); assert!(core.cpu.a() == 0x00); assert!(tf(&core, F_Z));
    assert!(2 == step(&mut core)); assert!(core.cpu.x() == 0x10); assert!(tf(&core, 0));
    assert!(2 == step(&mut core)); assert!(core.cpu.x() == 0x00); assert!(tf(&core, F_Z));
    assert!(2 == step(&mut core)); assert!(core.cpu.a() == 0xF0); assert!(tf(&core, F_N));
    assert!(2 == step(&mut core)); assert!(core.cpu.a() == 0x00); assert!(tf(&core, F_Z));
    assert!(2 == step(&mut core)); assert!(core.cpu.a() == 0xF0); assert!(tf(&core, F_N));
    assert!(2 == step(&mut core)); assert!(core.cpu.x() == 0x00); assert!(tf(&core, F_Z));
    assert!(2 == step(&mut core)); assert!(core.cpu.x() == 0xF0); assert!(tf(&core, F_N));
    assert!(2 == step(&mut core)); assert!(core.cpu.a() == 0x01); assert!(tf(&core, 0));
    assert!(2 == step(&mut core)); assert!(core.cpu.a() == 0xF0); assert!(tf(&core, F_N));
}

#[test]
fn tay_tya() {
    let mut core: TestCore = TestCore::new();
    init_core(&mut core);
    let prog = [
        0xA9, 0x00,     // LDA #$00
        0xA0, 0x10,     // LDY #$10
        0xA8,           // TAY
        0xA9, 0xF0,     // LDA #$F0
        0x98,           // TYA
        0xA9, 0xF0,     // LDA #$F0
        0xA0, 0x00,     // LDY #$00
        0xA8,           // TAY
        0xA9, 0x01,     // LDA #$01
        0x98,           // TYA
    ];
    copy(&mut core, 0x0200, &prog);
    cpu_prefetch(&mut core, 0x0200);

    assert!(2 == step(&mut core)); assert!(core.cpu.a() == 0x00); assert!(tf(&core, F_Z));
    assert!(2 == step(&mut core)); assert!(core.cpu.y() == 0x10); assert!(tf(&core, 0));
    assert!(2 == step(&mut core)); assert!(core.cpu.y() == 0x00); assert!(tf(&core, F_Z));
    assert!(2 == step(&mut core)); assert!(core.cpu.a() == 0xF0); assert!(tf(&core, F_N));
    assert!(2 == step(&mut core)); assert!(core.cpu.a() == 0x00); assert!(tf(&core, F_Z));
    assert!(2 == step(&mut core)); assert!(core.cpu.a() == 0xF0); assert!(tf(&core, F_N));
    assert!(2 == step(&mut core)); assert!(core.cpu.y() == 0x00); assert!(tf(&core, F_Z));
    assert!(2 == step(&mut core)); assert!(core.cpu.y() == 0xF0); assert!(tf(&core, F_N));
    assert!(2 == step(&mut core)); assert!(core.cpu.a() == 0x01); assert!(tf(&core, 0));
    assert!(2 == step(&mut core)); assert!(core.cpu.a() == 0xF0); assert!(tf(&core, F_N));
}

#[test]
fn dec_inc() {
    let mut core: TestCore = TestCore::new();
    init_core(&mut core);
    let prog = [
        0xA9, 0x01,     // LDA #$01
        0x3A,           // DEC
        0x3A,           // DEC
        0x1A,           // INC
        0x1A,           // INC            
    ];
    copy(&mut core, 0x0200, &prog);
    cpu_prefetch(&mut core, 0x0200);

    assert!(2 == step(&mut core)); assert!(core.cpu.a() == 0x01); assert!(tf(&core, 0));
    assert!(2 == step(&mut core)); assert!(core.cpu.a() == 0x00); assert!(tf(&core, F_Z));
    assert!(2 == step(&mut core)); assert!(core.cpu.a() == 0xFF); assert!(tf(&core, F_N));
    assert!(2 == step(&mut core)); assert!(core.cpu.a() == 0x00); assert!(tf(&core, F_Z));
    assert!(2 == step(&mut core)); assert!(core.cpu.a() == 0x01); assert!(tf(&core, 0));
}

#[test]
fn dex_inx_dey_iny() {
    let mut core: TestCore = TestCore::new();
    init_core(&mut core);
    let prog = [
        0xA2, 0x01,     // LDX #$01
        0xCA,           // DEX
        0xCA,           // DEX
        0xE8,           // INX
        0xE8,           // INX
        0xA0, 0x01,     // LDY #$01
        0x88,           // DEY
        0x88,           // DEY
        0xC8,           // INY
        0xC8,           // INY
    ];
    copy(&mut core, 0x0200, &prog);
    cpu_prefetch(&mut core, 0x0200);

    assert!(2 == step(&mut core)); assert!(core.cpu.x() == 0x01); assert!(tf(&core, 0));
    assert!(2 == step(&mut core)); assert!(core.cpu.x() == 0x00); assert!(tf(&core, F_Z));
    assert!(2 == step(&mut core)); assert!(core.cpu.x() == 0xFF); assert!(tf(&core, F_N));
    assert!(2 == step(&mut core)); assert!(core.cpu.x() == 0x00); assert!(tf(&core, F_Z));
    assert!(2 == step(&mut core)); assert!(core.cpu.x() == 0x01); assert!(tf(&core, 0));
    assert!(2 == step(&mut core)); assert!(core.cpu.y() == 0x01); assert!(tf(&core, 0));
    assert!(2 == step(&mut core)); assert!(core.cpu.y() == 0x00); assert!(tf(&core, F_Z));
    assert!(2 == step(&mut core)); assert!(core.cpu.y() == 0xFF); assert!(tf(&core, F_N));
    assert!(2 == step(&mut core)); assert!(core.cpu.y() == 0x00); assert!(tf(&core, F_Z));
    assert!(2 == step(&mut core)); assert!(core.cpu.y() == 0x01); assert!(tf(&core, 0));
}

#[test]
fn txs_tsx() {
    let mut core: TestCore = TestCore::new();
    init_core(&mut core);
    let prog = [
        0xA2, 0xAA,     // LDX #$AA
        0xA9, 0x00,     // LDA #$00
        0x9A,           // TXS
        0xAA,           // TAX
        0xBA,           // TSX
    ];
    copy(&mut core, 0x0200, &prog);
    cpu_prefetch(&mut core, 0x0200);

    assert!(2 == step(&mut core)); assert!(core.cpu.x() == 0xAA); assert!(tf(&core, F_N));
    assert!(2 == step(&mut core)); assert!(core.cpu.a() == 0x00); assert!(tf(&core, F_Z));
    assert!(2 == step(&mut core)); assert!(core.cpu.s() == 0xAA); assert!(tf(&core, F_Z));
    assert!(2 == step(&mut core)); assert!(core.cpu.x() == 0x00); assert!(tf(&core, F_Z));
    assert!(2 == step(&mut core)); assert!(core.cpu.x() == 0xAA); assert!(tf(&core, F_N));
}

#[test]
fn ora() {
    let mut core: TestCore = TestCore::new();
    init_core(&mut core);
    let prog = [
        0xA9, 0x00,         // LDA #$00
        0xA2, 0x01,         // LDX #$01
        0xA0, 0x02,         // LDY #$02
        0x09, 0x00,         // ORA #$00
        0x05, 0x10,         // ORA $10
        0x15, 0x10,         // ORA $10,X
        0x0d, 0x00, 0x10,   // ORA $1000
        0x1d, 0x00, 0x10,   // ORA $1000,X
        0x19, 0x00, 0x10,   // ORA $1000,Y
        0x01, 0x22,         // ORA ($22,X)
        0x11, 0x20,         // ORA ($20),Y
        0xA9, 0x05,         // LDA #$00
        0x12, 0x20,         // ORA ($20)
    ];
    copy(&mut core, 0x0200, &prog);
    w16(&mut core, 0x0020, 0x1002);
    w16(&mut core, 0x0023, 0x1003);
    w8(&mut core, 0x0010, 1<<0);
    w8(&mut core, 0x0011, 1<<1);
    w8(&mut core, 0x1000, 1<<2);
    w8(&mut core, 0x1001, 1<<3);
    w8(&mut core, 0x1002, 1<<4);
    w8(&mut core, 0x1003, 1<<5);
    w8(&mut core, 0x1004, 1<<6);
    cpu_prefetch(&mut core, 0x0200);

    assert!(2 == step(&mut core)); assert!(core.cpu.a() == 0x00); assert!(tf(&core, F_Z));
    assert!(2 == step(&mut core)); assert!(core.cpu.x() == 0x01); assert!(tf(&core, 0));
    assert!(2 == step(&mut core)); assert!(core.cpu.y() == 0x02); assert!(tf(&core, 0));
    assert!(2 == step(&mut core)); assert!(core.cpu.a() == 0x00); assert!(tf(&core, F_Z));
    assert!(3 == step(&mut core)); assert!(core.cpu.a() == 0x01); assert!(tf(&core, 0));
    assert!(4 == step(&mut core)); assert!(core.cpu.a() == 0x03); assert!(tf(&core, 0));
    assert!(4 == step(&mut core)); assert!(core.cpu.a() == 0x07); assert!(tf(&core, 0));
    assert!(4 == step(&mut core)); assert!(core.cpu.a() == 0x0F); assert!(tf(&core, 0));
    assert!(4 == step(&mut core)); assert!(core.cpu.a() == 0x1F); assert!(tf(&core, 0));
    assert!(6 == step(&mut core)); assert!(core.cpu.a() == 0x3F); assert!(tf(&core, 0));
    assert!(5 == step(&mut core)); assert!(core.cpu.a() == 0x7F); assert!(tf(&core, 0));
    assert!(2 == step(&mut core)); assert!(core.cpu.a() == 0x05); assert!(tf(&core, 0));
    assert!(5 == step(&mut core)); assert!(core.cpu.a() == 0x15); assert!(tf(&core, 0));
}

#[test]
fn and() {
    let mut core: TestCore = TestCore::new();
    init_core(&mut core);
    let prog = [
        0xA9, 0xFF,         // LDA #$FF
        0xA2, 0x01,         // LDX #$01
        0xA0, 0x02,         // LDY #$02
        0x29, 0xFF,         // AND #$FF
        0x25, 0x10,         // AND $10
        0x35, 0x10,         // AND $10,X
        0x2d, 0x00, 0x10,   // AND $1000
        0x3d, 0x00, 0x10,   // AND $1000,X
        0x39, 0x00, 0x10,   // AND $1000,Y
        0x21, 0x22,         // AND ($22,X)
        0x31, 0x20,         // AND ($20),Y
        0xA9, 0x15,         // LDA #$15
        0x32, 0x20,         // AND ($20)
    ];
    copy(&mut core, 0x0200, &prog);
    w16(&mut core, 0x0020, 0x1002);
    w16(&mut core, 0x0023, 0x1003);
    w8(&mut core, 0x0010, 0x7F);
    w8(&mut core, 0x0011, 0x3F);
    w8(&mut core, 0x1000, 0x1F);
    w8(&mut core, 0x1001, 0x0F);
    w8(&mut core, 0x1002, 0x07);
    w8(&mut core, 0x1003, 0x03);
    w8(&mut core, 0x1004, 0x01);
    cpu_prefetch(&mut core, 0x0200);

    assert!(2 == step(&mut core)); assert!(core.cpu.a() == 0xFF); assert!(tf(&core, F_N));
    assert!(2 == step(&mut core)); assert!(core.cpu.x() == 0x01); assert!(tf(&core, 0));
    assert!(2 == step(&mut core)); assert!(core.cpu.y() == 0x02); assert!(tf(&core, 0));
    assert!(2 == step(&mut core)); assert!(core.cpu.a() == 0xFF); assert!(tf(&core, F_N));
    assert!(3 == step(&mut core)); assert!(core.cpu.a() == 0x7F); assert!(tf(&core, 0));
    assert!(4 == step(&mut core)); assert!(core.cpu.a() == 0x3F); assert!(tf(&core, 0));
    assert!(4 == step(&mut core)); assert!(core.cpu.a() == 0x1F); assert!(tf(&core, 0));
    assert!(4 == step(&mut core)); assert!(core.cpu.a() == 0x0F); assert!(tf(&core, 0));
    assert!(4 == step(&mut core)); assert!(core.cpu.a() == 0x07); assert!(tf(&core, 0));
    assert!(6 == step(&mut core)); assert!(core.cpu.a() == 0x03); assert!(tf(&core, 0));
    assert!(5 == step(&mut core)); assert!(core.cpu.a() == 0x01); assert!(tf(&core, 0));
    assert!(2 == step(&mut core)); assert!(core.cpu.a() == 0x15); assert!(tf(&core, 0));
    assert!(5 == step(&mut core)); assert!(core.cpu.a() == 0x05); assert!(tf(&core, 0));
}

#[test]
fn eor() {
    let mut core: TestCore = TestCore::new();
    init_core(&mut core);
    let prog = [
        0xA9, 0xFF,         // LDA #$FF
        0xA2, 0x01,         // LDX #$01
        0xA0, 0x02,         // LDY #$02
        0x49, 0xFF,         // EOR #$FF
        0x45, 0x10,         // EOR $10
        0x55, 0x10,         // EOR $10,X
        0x4d, 0x00, 0x10,   // EOR $1000
        0x5d, 0x00, 0x10,   // EOR $1000,X
        0x59, 0x00, 0x10,   // EOR $1000,Y
        0x41, 0x22,         // EOR ($22,X)
        0x51, 0x20,         // EOR ($20),Y
        0x52, 0x20,         // EOR ($20)
    ];
    copy(&mut core, 0x0200, &prog);
    w16(&mut core, 0x0020, 0x1002);
    w16(&mut core, 0x0023, 0x1003);
    w8(&mut core, 0x0010, 0x7F);
    w8(&mut core, 0x0011, 0x3F);
    w8(&mut core, 0x1000, 0x1F);
    w8(&mut core, 0x1001, 0x0F);
    w8(&mut core, 0x1002, 0x07);
    w8(&mut core, 0x1003, 0x03);
    w8(&mut core, 0x1004, 0x01);
    cpu_prefetch(&mut core, 0x0200);

    assert!(2 == step(&mut core)); assert!(core.cpu.a() == 0xFF); assert!(tf(&core, F_N));
    assert!(2 == step(&mut core)); assert!(core.cpu.x() == 0x01); assert!(tf(&core, 0));
    assert!(2 == step(&mut core)); assert!(core.cpu.y() == 0x02); assert!(tf(&core, 0));
    assert!(2 == step(&mut core)); assert!(core.cpu.a() == 0x00); assert!(tf(&core, F_Z));
    assert!(3 == step(&mut core)); assert!(core.cpu.a() == 0x7F); assert!(tf(&core, 0));
    assert!(4 == step(&mut core)); assert!(core.cpu.a() == 0x40); assert!(tf(&core, 0));
    assert!(4 == step(&mut core)); assert!(core.cpu.a() == 0x5F); assert!(tf(&core, 0));
    assert!(4 == step(&mut core)); assert!(core.cpu.a() == 0x50); assert!(tf(&core, 0));
    assert!(4 == step(&mut core)); assert!(core.cpu.a() == 0x57); assert!(tf(&core, 0));
    assert!(6 == step(&mut core)); assert!(core.cpu.a() == 0x54); assert!(tf(&core, 0));
    assert!(5 == step(&mut core)); assert!(core.cpu.a() == 0x55); assert!(tf(&core, 0));
    assert!(5 == step(&mut core)); assert!(core.cpu.a() == 0x52); assert!(tf(&core, 0));
}

#[test]
fn nop() {
    let mut core: TestCore = TestCore::new();
    init_core(&mut core);
    let prog = [
        0xEA,       // NOP
    ];
    copy(&mut core, 0x0200, &prog);
    cpu_prefetch(&mut core, 0x0200);
    assert!(2 == step(&mut core));
}

#[test]
fn pha_pla_php_plp() {
    let mut core: TestCore = TestCore::new();
    init_core(&mut core);
    let prog = [
        0xA9, 0x23,     // LDA #$23
        0x48,           // PHA
        0xA9, 0x32,     // LDA #$32
        0x68,           // PLA
        0x08,           // PHP
        0xA9, 0x00,     // LDA #$00
        0x28,           // PLP
    ];
    copy(&mut core, 0x0200, &prog);
    cpu_prefetch(&mut core, 0x0200);

    assert!(2 == step(&mut core)); assert!(core.cpu.a() == 0x23); assert!(core.cpu.s() == 0xBD);
    assert!(3 == step(&mut core)); assert!(core.cpu.s() == 0xBC); assert!(get(&core, 0x01BD) == 0x23);
    assert!(2 == step(&mut core)); assert!(core.cpu.a() == 0x32);
    assert!(4 == step(&mut core)); assert!(core.cpu.a() == 0x23); assert!(core.cpu.s() == 0xBD); assert!(tf(&core, 0));
    assert!(3 == step(&mut core)); assert!(core.cpu.s() == 0xBC); assert!(get(&core, 0x01BD) == (F_X | F_I | F_B));
    assert!(2 == step(&mut core)); assert!(tf(&core, F_Z));
    assert!(4 == step(&mut core)); assert!(core.cpu.s() == 0xBD); assert!(tf(&core, 0));
}

#[test]
fn phx_plx_phy_ply() {
    let mut core: TestCore = TestCore::new();
    init_core(&mut core);
    let prog = [
        0xA2, 0x23,     // LDX #$23
        0xDA,           // PHX
        0xA2, 0x32,     // LDX #$32
        0xFA,           // PLX

        0xA0, 0x23,     // LDY #$23
        0x5A,           // PHY
        0xA0, 0x32,     // LDY #$32
        0x7A,           // PLY
    ];
    copy(&mut core, 0x0200, &prog);
    cpu_prefetch(&mut core, 0x0200);

    assert!(2 == step(&mut core)); assert!(core.cpu.x() == 0x23); assert!(core.cpu.s() == 0xBD);
    assert!(3 == step(&mut core)); assert!(core.cpu.s() == 0xBC); assert!(get(&core, 0x01BD) == 0x23);
    assert!(2 == step(&mut core)); assert!(core.cpu.x() == 0x32);
    assert!(4 == step(&mut core)); assert!(core.cpu.x() == 0x23); assert!(core.cpu.s() == 0xBD); assert!(tf(&core, 0));
    
    assert!(2 == step(&mut core)); assert!(core.cpu.y() == 0x23); assert!(core.cpu.s() == 0xBD);
    assert!(3 == step(&mut core)); assert!(core.cpu.s() == 0xBC); assert!(get(&core, 0x01BD) == 0x23);
    assert!(2 == step(&mut core)); assert!(core.cpu.y() == 0x32);
    assert!(4 == step(&mut core)); assert!(core.cpu.y() == 0x23); assert!(core.cpu.s() == 0xBD); assert!(tf(&core, 0));
}

#[test]
fn clc_sec_cli_sei_clv_cld_sed() {
    let mut core: TestCore = TestCore::new();
    init_core(&mut core);
    let prog = [
        0xB8,       // CLV
        0x78,       // SEI
        0x58,       // CLI
        
        0x38,       // SEC
        0x18,       // CLC
        0xF8,       // SED
        0xD8,       // CLD
    ];
    copy(&mut core, 0x0200, &prog);
    core.cpu.set_flags(M6502Flags::from_bits_retain(core.cpu.flags().bits() | F_V));
    cpu_prefetch(&mut core, 0x0200);

    assert!(2 == step(&mut core)); assert!(tf(&core, F_Z));
    assert!(2 == step(&mut core));
    assert!(2 == step(&mut core)); assert!(tf(&core, F_Z));
    assert!(2 == step(&mut core)); assert!(tf(&core, F_Z|F_C));
    assert!(2 == step(&mut core)); assert!(tf(&core, F_Z));
    assert!(2 == step(&mut core)); assert!(tf(&core, F_Z|F_D));
    assert!(2 == step(&mut core)); assert!(tf(&core, F_Z));
}

#[test]
fn inc_dec() {
    let mut core: TestCore = TestCore::new();
    init_core(&mut core);
    let prog = [
        0xA2, 0x10,         // LDX #$10
        0xE6, 0x33,         // INC $33
        0xF6, 0x33,         // INC $33,X
        0xEE, 0x00, 0x10,   // INC $1000
        0xFE, 0x00, 0x10,   // INC $1000,X
        0xC6, 0x33,         // DEC $33
        0xD6, 0x33,         // DEC $33,X
        0xCE, 0x00, 0x10,   // DEC $1000
        0xDE, 0x00, 0x10,   // DEC $1000,X
    ];
    copy(&mut core, 0x0200, &prog);
    cpu_prefetch(&mut core, 0x0200);

    assert!(2 == step(&mut core)); assert!(0x10 == core.cpu.x());
    assert!(5 == step(&mut core)); 
    assert!(0x01 == get(&core, 0x0033)); 
    assert!(tf(&core, 0));
    assert!(6 == step(&mut core)); assert!(0x01 == get(&core, 0x0043)); assert!(tf(&core, 0));
    assert!(6 == step(&mut core)); assert!(0x01 == get(&core, 0x1000)); assert!(tf(&core, 0));
    assert!(7 == step(&mut core)); assert!(0x01 == get(&core, 0x1010)); assert!(tf(&core, 0));
    assert!(5 == step(&mut core)); assert!(0x00 == get(&core, 0x0033)); assert!(tf(&core, F_Z));
    assert!(6 == step(&mut core)); assert!(0x00 == get(&core, 0x0043)); assert!(tf(&core, F_Z));
    assert!(6 == step(&mut core)); assert!(0x00 == get(&core, 0x1000)); assert!(tf(&core, F_Z));
    assert!(7 == step(&mut core)); assert!(0x00 == get(&core, 0x1010)); assert!(tf(&core, F_Z));
}

#[test]
fn adc_sbc() {
    let mut core: TestCore = TestCore::new();
    init_core(&mut core);
    let prog = [
        0xA9, 0x01,         // LDA #$01
        0x85, 0x10,         // STA $10
        0x8D, 0x00, 0x10,   // STA $1000
        0xA9, 0xFC,         // LDA #$FC
        0xA2, 0x08,         // LDX #$08
        0xA0, 0x04,         // LDY #$04
        0x18,               // CLC
        0x69, 0x01,         // ADC #$01
        0x65, 0x10,         // ADC $10
        0x75, 0x08,         // ADC $8,X
        0x6D, 0x00, 0x10,   // ADC $1000
        0x7D, 0xF8, 0x0F,   // ADC $0FF8,X
        0x79, 0xFC, 0x0F,   // ADC $0FFC,Y
        0xF9, 0xFC, 0x0F,   // SBC $0FFC,Y
        0xFD, 0xF8, 0x0F,   // SBC $0FF8,X
        0xED, 0x00, 0x10,   // SBC $1000
        0xF5, 0x08,         // SBC $8,X
        0xE5, 0x10,         // SBC $10
        0xE9, 0x01,         // SBC #$10

        0x72, 0x20,         // ADC ($20)
        0xF2, 0x20,         // SBC ($20)
    ];
    w16(&mut core, 0x20, 0x3000);
    w8(&mut core, 0x3000, 0x12);
    copy(&mut core, 0x0200, &prog);
    cpu_prefetch(&mut core, 0x0200);

    assert!(2 == step(&mut core)); assert!(0x01 == core.cpu.a());
    assert!(3 == step(&mut core)); assert!(0x01 == get(&core, 0x0010));
    assert!(4 == step(&mut core)); assert!(0x01 == get(&core, 0x1000));
    assert!(2 == step(&mut core)); assert!(0xFC == core.cpu.a());
    assert!(2 == step(&mut core)); assert!(0x08 == core.cpu.x());
    assert!(2 == step(&mut core)); assert!(0x04 == core.cpu.y());
    assert!(2 == step(&mut core));  // CLC
    // ADC
    assert!(2 == step(&mut core)); assert!(0xFD == core.cpu.a()); assert!(tf(&core, F_N));
    assert!(3 == step(&mut core)); assert!(0xFE == core.cpu.a()); assert!(tf(&core, F_N));
    assert!(4 == step(&mut core)); assert!(0xFF == core.cpu.a()); assert!(tf(&core, F_N));
    assert!(4 == step(&mut core)); assert!(0x00 == core.cpu.a()); assert!(tf(&core, F_Z|F_C));
    assert!(5 == step(&mut core)); assert!(0x02 == core.cpu.a()); assert!(tf(&core, 0));
    assert!(5 == step(&mut core)); assert!(0x03 == core.cpu.a()); assert!(tf(&core, 0));
    // SBC
    assert!(5 == step(&mut core)); assert!(0x01 == core.cpu.a()); assert!(tf(&core, F_C));
    assert!(5 == step(&mut core)); assert!(0x00 == core.cpu.a()); assert!(tf(&core, F_Z|F_C));
    assert!(4 == step(&mut core)); assert!(0xFF == core.cpu.a()); assert!(tf(&core, F_N));
    assert!(4 == step(&mut core)); assert!(0xFD == core.cpu.a()); assert!(tf(&core, F_N|F_C));
    assert!(3 == step(&mut core)); assert!(0xFC == core.cpu.a()); assert!(tf(&core, F_N|F_C));
    assert!(2 == step(&mut core)); assert!(0xFB == core.cpu.a()); assert!(tf(&core, F_N|F_C));
    
    assert!(5 == step(&mut core)); assert!(0x0E == core.cpu.a()); assert!(tf(&core, F_C));
    assert!(5 == step(&mut core)); assert!(0xFC == core.cpu.a()); assert!(tf(&core, F_N));
}

#[test]
fn cmp_cpx_cpy() {
    let mut core: TestCore = TestCore::new();
    init_core(&mut core);
    let prog = [
        0xA9, 0x01,     // LDA #$01
        0xA2, 0x02,     // LDX #$02
        0xA0, 0x03,     // LDY #$03

        0xC9, 0x00,     // CMP #$00
        0xC9, 0x01,     // CMP #$01
        0xC9, 0x02,     // CMP #$02

        0xE0, 0x01,     // CPX #$01
        0xE0, 0x02,     // CPX #$02
        0xE0, 0x03,     // CPX #$03

        0xC0, 0x02,     // CPY #$02
        0xC0, 0x03,     // CPY #$03
        0xC0, 0x04,     // CPY #$04

        0xD2, 0x30,      // CMP ($30)
        0xD2, 0x32,      // CMP ($32)
        0xD2, 0x34,      // CMP ($34)
    ];
    w16(&mut core, 0x0030, 0x1234);
    w8(&mut core, 0x1234, 0x00);
    w16(&mut core, 0x0032, 0x1236);
    w8(&mut core, 0x1236, 0x01);
    w16(&mut core, 0x0034, 0x1238);
    w8(&mut core, 0x1238, 0x02);

    copy(&mut core, 0x0200, &prog);
    cpu_prefetch(&mut core, 0x0200);

    assert!(2 == step(&mut core)); assert!(0x01 == core.cpu.a());
    assert!(2 == step(&mut core)); assert!(0x02 == core.cpu.x());
    assert!(2 == step(&mut core)); assert!(0x03 == core.cpu.y());

    assert!(2 == step(&mut core)); assert!(tf(&core, F_C));
    assert!(2 == step(&mut core)); assert!(tf(&core, F_Z|F_C));
    assert!(2 == step(&mut core)); assert!(tf(&core, F_N));

    assert!(2 == step(&mut core)); assert!(tf(&core, F_C));
    assert!(2 == step(&mut core)); assert!(tf(&core, F_Z|F_C));
    assert!(2 == step(&mut core)); assert!(tf(&core, F_N));

    assert!(2 == step(&mut core)); assert!(tf(&core, F_C));
    assert!(2 == step(&mut core)); assert!(tf(&core, F_Z|F_C));
    assert!(2 == step(&mut core)); assert!(tf(&core, F_N));
    
    assert!(5 == step(&mut core)); assert!(tf(&core, F_C));
    assert!(5 == step(&mut core)); assert!(tf(&core, F_Z|F_C));
    assert!(5 == step(&mut core)); assert!(tf(&core, F_N));
}

#[test]
fn asl() {
    let mut core: TestCore = TestCore::new();
    init_core(&mut core);
    let prog = [
        0xA9, 0x81,     // LDA #$81
        0xA2, 0x01,     // LDX #$01
        0x85, 0x10,     // STA $10
        0x06, 0x10,     // ASL $10
        0x16, 0x0F,     // ASL $0F,X
        0x0A,           // ASL
        0x0A,           // ASL
    ];
    copy(&mut core, 0x0200, &prog);
    cpu_prefetch(&mut core, 0x0200);

    assert!(2 == step(&mut core)); assert!(0x81 == core.cpu.a());
    assert!(2 == step(&mut core)); assert!(0x01 == core.cpu.x());
    assert!(3 == step(&mut core)); assert!(0x81 == get(&core, 0x0010));
    assert!(5 == step(&mut core)); assert!(0x02 == get(&core, 0x0010)); assert!(tf(&core, F_C));
    assert!(6 == step(&mut core)); assert!(0x04 == get(&core, 0x0010)); assert!(tf(&core, 0));
    assert!(2 == step(&mut core)); assert!(0x02 == core.cpu.a()); assert!(tf(&core, F_C));
    assert!(2 == step(&mut core)); assert!(0x04 == core.cpu.a()); assert!(tf(&core, 0));
}

#[test]
fn lsr() {
    let mut core: TestCore = TestCore::new();
    init_core(&mut core);
    let prog = [
        0xA9, 0x81,     // LDA #$81
        0xA2, 0x01,     // LDX #$01
        0x85, 0x10,     // STA $10
        0x46, 0x10,     // LSR $10
        0x56, 0x0F,     // LSR $0F,X
        0x4A,           // LSR
        0x4A,           // LSR
     ];
    copy(&mut core, 0x0200, &prog);
    cpu_prefetch(&mut core, 0x0200);

    assert!(2 == step(&mut core)); assert!(0x81 == core.cpu.a());
    assert!(2 == step(&mut core)); assert!(0x01 == core.cpu.x());
    assert!(3 == step(&mut core)); assert!(0x81 == get(&core, 0x0010));
    assert!(5 == step(&mut core)); assert!(0x40 == get(&core, 0x0010)); assert!(tf(&core, F_C));
    assert!(6 == step(&mut core)); assert!(0x20 == get(&core, 0x0010)); assert!(tf(&core, 0));
    assert!(2 == step(&mut core)); assert!(0x40 == core.cpu.a()); assert!(tf(&core, F_C));
    assert!(2 == step(&mut core)); assert!(0x20 == core.cpu.a()); assert!(tf(&core, 0));
}

#[test]
fn tsb_trb() {
    let mut core: TestCore = TestCore::new();
    init_core(&mut core);
    let prog = [
        0xA9, 0x10,       // LDA #$10
        0x04, 0x10,       // TSB $10
        0x0C, 0x00, 0x20, // TSB $2000
        0xA9, 0x00,       // LDA #$00
        0x04, 0x11,       // TSB $11
        0x0C, 0x01, 0x20, // TSB $2001

        0xA9, 0x22,       // LDA #$22
        0x14, 0x10,       // TRB $10
        0x1C, 0x00, 0x20, // TRB $2000
        0xA9, 0xC4,       // LDA #$C4
        0x14, 0x10,       // TRB $10
        0x1C, 0x00, 0x20, // TRB $2000

     ];
    w8(&mut core, 0x0010, 0xC0);
    w8(&mut core, 0x2000, 0x22);
    copy(&mut core, 0x0200, &prog);
    cpu_prefetch(&mut core, 0x0200);


    assert!(2 == step(&mut core)); assert!(0x10 == core.cpu.a());
    assert!(5 == step(&mut core)); assert!(0xD0 == get(&core, 0x0010)); 
    assert!(6 == step(&mut core)); assert!(0x32 == get(&core, 0x2000));
    assert!(2 == step(&mut core)); assert!(0x00 == core.cpu.a());
    assert!(5 == step(&mut core)); assert!(0x00 == get(&core, 0x0011)); assert!(tf(&core, F_Z));
    assert!(6 == step(&mut core)); assert!(0x00 == get(&core, 0x2001)); assert!(tf(&core, F_Z));

    w8(&mut core, 0x0010, 0xE0);
    w8(&mut core, 0x2000, 0x26);
    assert!(2 == step(&mut core)); assert!(0x22 == core.cpu.a());
    assert!(5 == step(&mut core)); assert!(0xC0 == get(&core, 0x0010)); 
    assert!(6 == step(&mut core)); assert!(0x04 == get(&core, 0x2000)); 
    assert!(2 == step(&mut core)); assert!(0xC4 == core.cpu.a());
    assert!(5 == step(&mut core)); assert!(0x00 == get(&core, 0x0010)); assert!(tf(&core, F_N));
    assert!(6 == step(&mut core)); assert!(0x00 == get(&core, 0x2000)); assert!(tf(&core, F_N));
}

#[test]
fn rmb_smb() {
    let mut core: TestCore = TestCore::new();
    init_core(&mut core);
    let prog = [
        0x07, 0x10,       // RMB0 $10
        0x17, 0x11,       // RMB1 $11
        0x27, 0x12,       // RMB2 $12
        0x37, 0x13,       // RMB3 $13
        0x47, 0x14,       // RMB4 $14
        0x57, 0x15,       // RMB5 $15
        0x67, 0x16,       // RMB6 $16
        0x77, 0x17,       // RMB7 $17
        0x87, 0x10,       // SMB0 $10
        0x97, 0x11,       // SMB1 $11
        0xA7, 0x12,       // SMB2 $12
        0xB7, 0x13,       // SMB3 $13
        0xC7, 0x14,       // SMB4 $14
        0xD7, 0x15,       // SMB5 $15
        0xE7, 0x16,       // SMB6 $16
        0xF7, 0x17,       // SMB7 $17
     ];
    w8(&mut core, 0x0010, 0xFF);
    w8(&mut core, 0x0011, 0xFF);
    w8(&mut core, 0x0012, 0xFF);
    w8(&mut core, 0x0013, 0xFF);
    w8(&mut core, 0x0014, 0xFF);
    w8(&mut core, 0x0015, 0xFF);
    w8(&mut core, 0x0016, 0xFF);
    w8(&mut core, 0x0017, 0xFF);
    copy(&mut core, 0x0200, &prog);
    cpu_prefetch(&mut core, 0x0200);

    assert!(5 == step(&mut core)); assert!(0b1111_1110 == get(&core, 0x0010)); 
    assert!(5 == step(&mut core)); assert!(0b1111_1101 == get(&core, 0x0011));
    assert!(5 == step(&mut core)); assert!(0b1111_1011 == get(&core, 0x0012));
    assert!(5 == step(&mut core)); assert!(0b1111_0111 == get(&core, 0x0013));
    assert!(5 == step(&mut core)); assert!(0b1110_1111 == get(&core, 0x0014));
    assert!(5 == step(&mut core)); assert!(0b1101_1111 == get(&core, 0x0015));
    assert!(5 == step(&mut core)); assert!(0b1011_1111 == get(&core, 0x0016));
    assert!(5 == step(&mut core)); assert!(0b0111_1111 == get(&core, 0x0017));

    w8(&mut core, 0x0010, 0x00);
    w8(&mut core, 0x0011, 0x00);
    w8(&mut core, 0x0012, 0x00);
    w8(&mut core, 0x0013, 0x00);
    w8(&mut core, 0x0014, 0x00);
    w8(&mut core, 0x0015, 0x00);
    w8(&mut core, 0x0016, 0x00);
    w8(&mut core, 0x0017, 0x00);

    assert!(5 == step(&mut core)); assert!(0b0000_0001 == get(&core, 0x0010)); 
    assert!(5 == step(&mut core)); assert!(0b0000_0010 == get(&core, 0x0011));
    assert!(5 == step(&mut core)); assert!(0b0000_0100 == get(&core, 0x0012));
    assert!(5 == step(&mut core)); assert!(0b0000_1000 == get(&core, 0x0013));
    assert!(5 == step(&mut core)); assert!(0b0001_0000 == get(&core, 0x0014));
    assert!(5 == step(&mut core)); assert!(0b0010_0000 == get(&core, 0x0015));
    assert!(5 == step(&mut core)); assert!(0b0100_0000 == get(&core, 0x0016));
    assert!(5 == step(&mut core)); assert!(0b1000_0000 == get(&core, 0x0017));        
}

#[test]
fn bbr() {
    let mut core: TestCore = TestCore::new();
    init_core(&mut core);
    let prog = [
        0x0F, 0x10, 0x06,   // BBR0 $10 nok 
        0x0F, 0x11, 0x02,   // BBR0 $11 -> +$02
        0xEA, 0xA,          // NOP, NOP            
        0x0F, 0x11, 0x10,   // BBR0 $11 -> +$10
    ];
    copy(&mut core, 0x02F0, &prog);
    cpu_prefetch(&mut core, 0x02F0);

    w8(&mut core, 0x0010, 0x01);
    w8(&mut core, 0x0011, 0x02);

    assert!(5 == step(&mut core)); assert!(core.cpu.pc() == 0x02F3);
    assert!(6 == step(&mut core)); assert!(core.cpu.pc() == 0x02F8);
    assert!(7 == step(&mut core)); assert!(core.cpu.pc() == 0x030B);        
}

#[test]
fn bbs() {
    let mut core: TestCore = TestCore::new();
    init_core(&mut core);
    let prog = [
        0x8F, 0x10, 0x06,   // BBS0 $10 nok 
        0x8F, 0x11, 0x02,   // BBS0 $11 -> +$02
        0xEA, 0xA,          // NOP, NOP            
        0x8F, 0x11, 0x10,   // BBS0 $11 -> +$11
    ];
    copy(&mut core, 0x02F0, &prog);
    cpu_prefetch(&mut core, 0x02F0);

    w8(&mut core, 0x0010, 0x02);
    w8(&mut core, 0x0011, 0x01);

    assert!(5 == step(&mut core)); assert!(core.cpu.pc() == 0x02F3);
    assert!(6 == step(&mut core)); assert!(core.cpu.pc() == 0x02F8);
    assert!(7 == step(&mut core)); assert!(core.cpu.pc() == 0x030B);        
}

#[test]
fn ror_rol() {
    let mut core: TestCore = TestCore::new();
    init_core(&mut core);
    let prog = [
        0xA9, 0x81,     // LDA #$81
        0xA2, 0x01,     // LDX #$01
        0x85, 0x10,     // STA $10
        0x26, 0x10,     // ROL $10
        0x36, 0x0F,     // ROL $0F,X
        0x76, 0x0F,     // ROR $0F,X
        0x66, 0x10,     // ROR $10
        0x6A,           // ROR
        0x6A,           // ROR
        0x2A,           // ROL
        0x2A,           // ROL
    ];
    copy(&mut core, 0x0200, &prog);
    cpu_prefetch(&mut core, 0x0200);

    assert!(2 == step(&mut core)); assert!(0x81 == core.cpu.a());
    assert!(2 == step(&mut core)); assert!(0x01 == core.cpu.x());
    assert!(3 == step(&mut core)); assert!(0x81 == get(&core, 0x0010));
    assert!(5 == step(&mut core)); assert!(0x02 == get(&core, 0x0010)); assert!(tf(&core, F_C));
    assert!(6 == step(&mut core)); assert!(0x05 == get(&core, 0x0010)); assert!(tf(&core, 0));
    assert!(6 == step(&mut core)); assert!(0x02 == get(&core, 0x0010)); assert!(tf(&core, F_C));
    assert!(5 == step(&mut core)); assert!(0x81 == get(&core, 0x0010)); assert!(tf(&core, F_N));
    assert!(2 == step(&mut core)); assert!(0x40 == core.cpu.a()); assert!(tf(&core, F_C));
    assert!(2 == step(&mut core)); assert!(0xA0 == core.cpu.a()); assert!(tf(&core, F_N));
    assert!(2 == step(&mut core)); assert!(0x40 == core.cpu.a()); assert!(tf(&core, F_C));
    assert!(2 == step(&mut core)); assert!(0x81 == core.cpu.a()); assert!(tf(&core, F_N));
}

#[test]
fn bit() {
    let mut core: TestCore = TestCore::new();
    init_core(&mut core);
    let prog = [
        0xA9, 0x00,         // LDA #$00
        0x85, 0x1F,         // STA $1F
        0xA9, 0x80,         // LDA #$80
        0x85, 0x20,         // STA $20
        0xA9, 0xC0,         // LDA #$C0
        0x8D, 0x00, 0x10,   // STA $1000
        0x24, 0x1F,         // BIT $1F
        0x24, 0x20,         // BIT $20
        0x2C, 0x00, 0x10,   // BIT $1000
        0xA9, 0xC7,         // LDA #$C7 
        0x89, 0x80,         // BIT #$80
        0x89, 0xD0,         // BIT #$D0
        0x89, 0x40,         // BIT #$40
        0x89, 0x08,         // BIT #$08
        0xA2, 0x02,         // LDX #$02
        0x3C, 0x1E, 0x00,   // BIT $001E, X
        0x3C, 0xFE, 0x0F,   // BIT $0FFE, X            
        0x34, 0x1E,         // BIT $1E, X
        0x34, 0xFE,         // BIT $1D, X  
    ];
    copy(&mut core, 0x0200, &prog);
    cpu_prefetch(&mut core, 0x0200);

    assert!(2 == step(&mut core)); assert!(0x00 == core.cpu.a());
    assert!(3 == step(&mut core)); assert!(0x00 == get(&core, 0x001F));
    assert!(2 == step(&mut core)); assert!(0x80 == core.cpu.a());
    assert!(3 == step(&mut core)); assert!(0x80 == get(&core, 0x0020));
    assert!(2 == step(&mut core)); assert!(0xC0 == core.cpu.a());
    assert!(4 == step(&mut core)); assert!(0xC0 == get(&core, 0x1000));
    assert!(3 == step(&mut core)); assert!(tf(&core, F_Z));
    assert!(3 == step(&mut core)); assert!(tf(&core, F_N));
    assert!(4 == step(&mut core)); assert!(tf(&core, F_N|F_V));
    assert!(2 == step(&mut core)); assert!(0xc7 == core.cpu.a());
    assert!(3 == step(&mut core)); assert!(tf(&core, F_N));
    assert!(3 == step(&mut core)); assert!(tf(&core, F_N|F_V));
    assert!(3 == step(&mut core)); assert!(tf(&core, F_V));
    assert!(3 == step(&mut core)); assert!(tf(&core, F_Z));
    assert!(2 == step(&mut core)); assert!(0x02 == core.cpu.x());
    assert!(4 == step(&mut core)); assert!(tf(&core, F_N));
    assert!(4 == step(&mut core)); assert!(tf(&core, F_N|F_V));
    assert!(3 == step(&mut core)); assert!(tf(&core, F_N));
    assert!(3 == step(&mut core)); assert!(tf(&core, F_Z));
}

#[test]
fn bne_beq() {
    let mut core: TestCore = TestCore::new();
    init_core(&mut core);
    let prog = [
        0xA9, 0x10,         // LDA #$10
        0xC9, 0x10,         // CMP #$10
        0xF0, 0x02,         // BEQ eq
        0xA9, 0x0F,         // ne: LDA #$0F
        0xC9, 0x0F,         // eq: CMP #$0F
        0xD0, 0xFA,         // BNE ne -> executed 2x, second time not taken
        0xEA,
    ];
    copy(&mut core, 0x0200, &prog);
    cpu_prefetch(&mut core, 0x0200);

    assert!(2 == step(&mut core)); assert!(0x10 == core.cpu.a());
    assert!(2 == step(&mut core)); assert!(tf(&core, F_Z|F_C));
    assert!(3 == step(&mut core)); assert!(core.cpu.pc() == 0x0208);
    assert!(2 == step(&mut core)); assert!(tf(&core, F_C));
    assert!(3 == step(&mut core)); assert!(core.cpu.pc() == 0x0206);
    assert!(2 == step(&mut core)); assert!(0x0F == core.cpu.a());
    assert!(2 == step(&mut core)); assert!(tf(&core, F_Z|F_C));
    assert!(2 == step(&mut core)); assert!(core.cpu.pc() == 0x020C);

    // patch jump target, and test jumping across 256 bytes page
    cpu_prefetch(&mut core, 0x0200);
    w8(&mut core, 0x0205, 0xC0);
    assert!(2 == step(&mut core)); assert!(0x10 == core.cpu.a());
    assert!(2 == step(&mut core)); assert!(tf(&core, F_Z|F_C));
    assert!(4 == step(&mut core)); assert!(core.cpu.pc() == 0x01C6);

}

#[test]
fn jmp() {
    let mut core: TestCore = TestCore::new();
    init_core(&mut core);
    let prog = [
        0x4C, 0x00, 0x10,   // JMP $1000
    ];
    copy(&mut core, 0x0200, &prog);
    cpu_prefetch(&mut core, 0x0200);
    assert!(3 == step(&mut core)); assert!(core.cpu.pc() == 0x1000);
}

#[test]
fn jmp_indirect_samepage() {
    let mut core: TestCore = TestCore::new();
    init_core(&mut core);
    let prog = [
        0xA9, 0x33,         // LDA #$33
        0x8D, 0x10, 0x21,   // STA $2110
        0xA9, 0x22,         // LDA #$22
        0x8D, 0x11, 0x21,   // STA $2111
        0x6C, 0x10, 0x21,   // JMP ($2110)
    ];
    copy(&mut core, 0x0200, &prog);
    cpu_prefetch(&mut core, 0x0200);
    assert!(2 == step(&mut core)); assert!(core.cpu.a() == 0x33);
    assert!(4 == step(&mut core)); assert!(get(&core, 0x2110) == 0x33);
    assert!(2 == step(&mut core)); assert!(core.cpu.a() == 0x22);
    assert!(4 == step(&mut core)); assert!(get(&core, 0x2111) == 0x22);
    assert!(5 == step(&mut core)); assert!(core.cpu.pc() == 0x2233);
}

#[test]
fn jmp_abs_x_indexed_indirect() {
    let mut core: TestCore = TestCore::new();
    init_core(&mut core);
    let prog = [
        0xA9, 0x33,         // LDA #$33
        0x8D, 0x10, 0x21,   // STA $2110
        0xA9, 0x22,         // LDA #$22
        0x8D, 0x11, 0x21,   // STA $2111   
        0xA2, 0x10,         // LDX #$10
        0x7C, 0x00, 0x21,   // JMP ($2100, X)
    ];
    copy(&mut core, 0x0200, &prog);
    cpu_prefetch(&mut core, 0x0200);

    assert!(2 == step(&mut core)); assert!(core.cpu.a() == 0x33);
    assert!(4 == step(&mut core)); assert!(get(&core, 0x2110) == 0x33);
    assert!(2 == step(&mut core)); assert!(core.cpu.a() == 0x22);
    assert!(4 == step(&mut core)); assert!(get(&core, 0x2111) == 0x22);
    assert!(2 == step(&mut core)); assert!(core.cpu.x() == 0x10);
    assert!(6 == step(&mut core)); assert!(core.cpu.pc() == 0x2233);
}

#[test]
fn jmp_abs_x_indexed_indirect_next_page() {
    let mut core: TestCore = TestCore::new();
    init_core(&mut core);
    let prog = [
        0xA9, 0x33,         // LDA #$33
        0x8D, 0x05, 0x22,   // STA $2205
        0xA9, 0x22,         // LDA #$22
        0x8D, 0x06, 0x22,   // STA $2206   
        0xA2, 0x10,         // LDX #$10
        0x7C, 0xF5, 0x21,   // JMP ($21F5, X)
    ];
    copy(&mut core, 0x0200, &prog);
    cpu_prefetch(&mut core, 0x0200);

    assert!(2 == step(&mut core)); assert!(core.cpu.a() == 0x33);
    assert!(4 == step(&mut core)); assert!(get(&core, 0x2205) == 0x33);
    assert!(2 == step(&mut core)); assert!(core.cpu.a() == 0x22);
    assert!(4 == step(&mut core)); assert!(get(&core, 0x2206) == 0x22);
    assert!(2 == step(&mut core)); assert!(core.cpu.x() == 0x10);
    assert!(6 == step(&mut core)); assert!(core.cpu.pc() == 0x2233);
}

#[test]
fn jmp_indirect_wrap() {
    let mut core: TestCore = TestCore::new();
    init_core(&mut core);
    let prog = [
        0xA9, 0x33,         // LDA #$33
        0x8D, 0xFF, 0x21,   // STA $21FF
        0xA9, 0x22,         // LDA #$22
        0x8D, 0x00, 0x21,   // STA $2100    // note: wraps around!
        0x6C, 0xFF, 0x21,   // JMP ($21FF)
    ];
    copy(&mut core, 0x0200, &prog);
    cpu_prefetch(&mut core, 0x0200);

    assert!(2 == step(&mut core)); assert!(core.cpu.a() == 0x33);
    assert!(4 == step(&mut core)); assert!(get(&core, 0x21FF) == 0x33);
    assert!(2 == step(&mut core)); assert!(core.cpu.a() == 0x22);
    assert!(4 == step(&mut core)); assert!(get(&core, 0x2100) == 0x22);
    assert!(5 == step(&mut core)); assert!(core.cpu.pc() == 0x2233);
}

#[test]
fn jsr_rts() {
    let mut core: TestCore = TestCore::new();
    init_core(&mut core);
    let prog = [
        0x20, 0x05, 0x03,   // JSR fun
        0xEA, 0xEA,         // NOP, NOP
        0xEA,               // fun: NOP
        0x60,               // RTS
    ];
    copy(&mut core, 0x0300, &prog);
    cpu_prefetch(&mut core, 0x0300);

    assert!(core.cpu.s() == 0xBD);
    assert!(6 == step(&mut core)); assert!(core.cpu.pc() == 0x0305); assert!(core.cpu.s() == 0xBB); assert!(r16(&core, 0x01BC)==0x0302);
    assert!(2 == step(&mut core));
    assert!(6 == step(&mut core)); assert!(core.cpu.pc() == 0x0303); assert!(core.cpu.s() == 0xBD);
}

#[test]
fn rti() {
    let mut core: TestCore = TestCore::new();
    init_core(&mut core);
    let prog = [
        0xA9, 0x11,     // LDA #$11
        0x48,           // PHA
        0xA9, 0x22,     // LDA #$22
        0x48,           // PHA
        0xA9, 0x33,     // LDA #$33
        0x48,           // PHA
        0x40,           // RTI
    ];
    copy(&mut core, 0x0200, &prog);
    cpu_prefetch(&mut core, 0x0200);

    assert!(core.cpu.s() == 0xBD);
    assert!(2 == step(&mut core)); assert!(core.cpu.a() == 0x11);
    assert!(3 == step(&mut core)); assert!(core.cpu.s() == 0xBC);
    assert!(2 == step(&mut core)); assert!(core.cpu.a() == 0x22);
    assert!(3 == step(&mut core)); assert!(core.cpu.s() == 0xBB);
    assert!(2 == step(&mut core)); assert!(core.cpu.a() == 0x33);
    assert!(3 == step(&mut core)); assert!(core.cpu.s() == 0xBA);
    assert!(6 == step(&mut core)); assert!(core.cpu.s() == 0xBD); assert!(core.cpu.pc() == 0x1122); assert!(tf(&core, F_Z|F_C));
}
