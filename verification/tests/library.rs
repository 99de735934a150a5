use holani::bus::{Bus, BusStatus};
use holani::cartridge::lnx_header::LNXRotation;
use holani::cartridge::cartridge_generic::{CartridgeGeneric, _256K_PINS};
use holani::cartridge::{Cartridge, CartridgeError, CartridgeI};
use holani::cartridge::eeprom::ee93cxx::{Ee93cxx, Ee93cxxType};
use holani::consts::{M6502_RDY, M6502_RW, MAPCTL_SUZ_BIT, MAPCTL_VEC_BIT, RAM_PEEK_DATA_OPCODE, GREEN0, INTRST, INTSET, MATHA, MATHB, MATHC, MATHD, TIM0BKUP, TMPADRH, TMPADRL};
use holani::mikey::cpu::{CPUPins, M6502, M6502Stepper};
use holani::mikey::registers::MikeyRegisters;
use holani::mikey::timers::Timers;
use holani::mikey::uart::redeye_status::RedeyeStatus;
use holani::mikey::uart::Uart;
use holani::mikey::video::Video;
use holani::mikey::Mikey;
use holani::memory_map::{joystick_for, peek_target, poke_target, screen_size, BusTarget};
use holani::ram::Ram;
use holani::shared_memory::SharedMemory;
use holani::suzy::registers::{joystick_swap, Joystick};
use holani::suzy::sprite_data::SpriteData;
use holani::suzy::Suzy;
use holani::vectors::Vectors;
use holani::{info, valid_extensions};

fn lnx_image(title: &[u8], rotation: u8, bank0: u16) -> Vec<u8> {
    let mut d = vec![0u8; 64];
    d[0..4].copy_from_slice(b"LYNX");
    d[4] = (bank0 & 0xff) as u8;
    d[5] = (bank0 >> 8) as u8;
    d[8] = 1;
    d[10..10 + title.len()].copy_from_slice(title);
    d[42..47].copy_from_slice(b"Maker");
    d[58] = rotation;
    for i in 0..1024 {
        d.push((i % 251) as u8);
    }
    d
}

#[test]
fn info_names_the_core() {
    assert_eq!(info().0, "Holani");
    assert_eq!(valid_extensions(), &["lnx", "o"]);
}

#[test]
fn shared_memory_set_get_copy() {
    let mut m = SharedMemory::new(16, 0xaa);
    assert_eq!(m.len(), 16);
    assert_eq!(m.get(3), 0xaa);
    m.set(3, 7);
    assert_eq!(m.get(3), 7);
    m.copy(4, &[1, 2, 3]);
    assert_eq!(m.as_slice()[3..8], [7, 1, 2, 3, 0xaa]);
    m.fill(0);
    assert_eq!(m.get(5), 0);
}

#[test]
fn ram_write_completes_after_its_delay() {
    let mut ram = Ram::new();
    let mut bus = Bus::new();
    bus.set_addr(0x1234);
    bus.set_data(0xab);
    ram.poke(&bus);
    for _ in 0..4 {
        ram.tick(&mut bus);
        assert_eq!(bus.status(), BusStatus::Idle);
    }
    ram.tick(&mut bus);
    assert_eq!(bus.status(), BusStatus::PokeDone);
    assert_eq!(ram.get(0x1234), 0xab);
}

fn ticks_to_read(ram: &mut Ram, addr: u16, opcode: bool) -> (u32, u8) {
    let mut bus = Bus::new();
    bus.set_addr(addr);
    bus.set_data(if opcode { RAM_PEEK_DATA_OPCODE } else { 0 });
    ram.peek(&bus);
    let mut n = 0;
    while bus.status() != BusStatus::PeekDone {
        ram.tick(&mut bus);
        n += 1;
    }
    (n, bus.data())
}

#[test]
fn ram_opcode_read_in_the_same_page_is_faster() {
    let mut ram = Ram::new();
    ram.set(0x2010, 0x42);
    let (far, _) = ticks_to_read(&mut ram, 0x3000, true);
    let (near, v) = ticks_to_read(&mut ram, 0x3010, true);
    assert_eq!(far, 5);
    assert_eq!(near, 4);
    let (_, w) = ticks_to_read(&mut ram, 0x2010, true);
    assert_eq!(v, 0xff);
    assert_eq!(w, 0x42);
}

#[test]
fn ram_data_read_in_the_same_page_takes_a_normal_cycle() {
    let mut ram = Ram::new();
    let (far, _) = ticks_to_read(&mut ram, 0x3000, false);
    let (near, _) = ticks_to_read(&mut ram, 0x3010, false);
    assert_eq!(far, 5);
    assert_eq!(near, 5);
}

#[test]
fn vectors_take_a_write() {
    let mut v = Vectors::new();
    let mut bus = Bus::new();
    bus.set_addr(0xfffc);
    bus.set_data(0x34);
    v.poke(&bus);
    while bus.status() != BusStatus::PokeDone {
        v.tick(&mut bus);
    }
    bus.set_addr(0xfffd);
    bus.set_data(0x12);
    bus.set_status(BusStatus::Idle);
    v.poke(&bus);
    while bus.status() != BusStatus::PokeDone {
        v.tick(&mut bus);
    }
    assert_eq!(v.get(0xfffc), 0x34);
    assert_eq!(v.reset(), 0x1234);
}

#[test]
fn cartridge_refuses_an_unknown_image() {
    let r = Cartridge::from_slice(&[0u8; 100]);
    assert!(matches!(r, Err(CartridgeError::UnknownFormat)));
    assert_eq!(CartridgeError::UnknownFormat.message(), "Couldn't identify cart file format.");
}

#[test]
fn cartridge_reads_the_lnx_header() {
    let mut title = b"Game".to_vec();
    title.resize(32, 0);
    let c = Cartridge::from_slice(&lnx_image(&title, 1, 1024)).ok().unwrap();
    let h = c.header();
    assert!(h.title().starts_with("Game"));
    assert_eq!(h.title().len(), 32);
    assert!(h.manufacturer().starts_with("Maker"));
    assert_eq!(h.bank0_size(), 1024);
    assert_eq!(h.version(), 1);
    assert_eq!(c.rotation(), LNXRotation::_270);
}

#[test]
fn cartridge_title_that_is_not_utf8_reads_error() {
    let c = Cartridge::from_slice(&lnx_image(&[0xff, 0xfe], 2, 1024)).ok().unwrap();
    assert_eq!(c.header().title(), "Error");
    assert_eq!(c.rotation(), LNXRotation::_90);
}

#[test]
fn cartridge_loads_a_bs93_program() {
    let mut d = vec![0u8; 32];
    d[6..10].copy_from_slice(b"BS93");
    let c = Cartridge::from_slice(&d).ok().unwrap();
    assert_eq!(c.rotation(), LNXRotation::NoRotation);
    assert_eq!(c.header().bank0_size(), 0);
}

fn suzy_write(suzy: &mut Suzy, ram: &mut Ram, addr: u16, data: u8) {
    let mut bus = Bus::new();
    bus.set_addr(addr);
    bus.set_data(data);
    suzy.poke(&mut bus);
    let mut n = 0;
    while bus.status() != BusStatus::PokeDone {
        suzy.tick(&mut bus, ram);
        n += 1;
        assert!(n < 100);
    }
}

#[test]
fn suzy_low_byte_write_clears_the_high_byte() {
    let mut suzy = Suzy::new();
    let mut ram = Ram::new();
    suzy_write(&mut suzy, &mut ram, TMPADRH, 0x12);
    assert_eq!(suzy.get(TMPADRH), 0x12);
    suzy_write(&mut suzy, &mut ram, TMPADRL, 0x34);
    assert_eq!(suzy.get(TMPADRL), 0x34);
    assert_eq!(suzy.get(TMPADRH), 0);
}

#[test]
fn suzy_multiplies_through_the_bus() {
    let mut suzy = Suzy::new();
    let mut ram = Ram::new();
    suzy_write(&mut suzy, &mut ram, MATHD, 0x0c);
    suzy_write(&mut suzy, &mut ram, MATHC, 0x00);
    suzy_write(&mut suzy, &mut ram, MATHB, 0x0a);
    suzy_write(&mut suzy, &mut ram, MATHA, 0x01);
    let mut bus = Bus::new();
    for _ in 0..200 {
        suzy.tick(&mut bus, &mut ram);
    }
    assert_eq!(suzy.registers().efgh(), 0x010a * 0x000c);
}

#[test]
fn joystick_swap_exchanges_two_buttons() {
    let j = Joystick::from_bits_truncate(0x80);
    let s = joystick_swap(j, Joystick::up(), Joystick::down());
    assert_eq!(s.bits(), Joystick::up().bits());
    let back = joystick_swap(s, Joystick::up(), Joystick::down());
    assert_eq!(back.bits(), 0x80);
}

#[test]
fn sprite_data_takes_bits_in_order() {
    let mut s = SpriteData::new();
    s.push_data(0b1011_0010);
    assert_eq!(s.get_bits(3), Some(0b101));
    assert_eq!(s.shift_reg_count(), 5);
    assert_eq!(s.get_bits(5), Some(0b10010));
    assert_eq!(s.get_bits(1), None);
}

fn mikey_write(mikey: &mut Mikey, addr: u16, data: u8) {
    let mut bus = Bus::new();
    let mut cart = Cartridge::default();
    let ram = Ram::new();
    bus.set_addr(addr);
    bus.set_data(data);
    mikey.poke(&bus);
    let mut n = 0;
    while bus.status() != BusStatus::PokeDone {
        mikey.tick(&mut bus, &mut cart, &ram);
        n += 1;
        assert!(n < 5000);
    }
}

#[test]
fn mikey_interrupt_acknowledge_clears_intset() {
    let mut mikey = Mikey::new();
    mikey_write(&mut mikey, INTSET, 0x05);
    assert_eq!(mikey.get(INTSET), 0x05);
    mikey_write(&mut mikey, INTRST, 0x01);
    assert_eq!(mikey.get(INTSET), 0x04);
    assert_eq!(mikey.get(INTRST), 0x01);
}

#[test]
fn mikey_green_register_keeps_its_low_nibble() {
    let mut regs = MikeyRegisters::new();
    regs.set_data(GREEN0, 0xab);
    assert_eq!(regs.data(GREEN0), 0x0b);
    assert_eq!(regs.palette_g()[0], 0xb0);
}

#[test]
fn timers_poke_then_peek() {
    let mut t = Timers::new();
    t.poke(TIM0BKUP, 0x9e);
    assert_eq!(t.peek(TIM0BKUP), 0x9e);
}

#[test]
fn video_pixels_come_out_high_nibble_first() {
    let mut v = Video::new();
    v.push_pix_buffer(&[0x12, 0x34, 0, 0, 0, 0, 0, 0]);
    assert_eq!(v.pop_pixel(), 1);
    assert_eq!(v.pop_pixel(), 2);
    assert_eq!(v.pop_pixel(), 3);
    assert_eq!(v.pop_pixel(), 4);
}

#[test]
fn redeye_status_converts_both_ways() {
    assert_eq!(u8::from(RedeyeStatus::from(1u8)), 1);
    assert_eq!(u8::from(RedeyeStatus::from(0u8)), 0);
    assert_eq!(u8::from(RedeyeStatus::from(true)), 1);
}

#[test]
fn cpu_pins_keep_address_and_data_apart() {
    let mut p = CPUPins::default();
    p.sa(0x1234);
    p.sd(0x56);
    assert_eq!(p.ga(), 0x1234);
    assert_eq!(p.gd(), 0x56);
    p.sa(0xbeef);
    assert_eq!(p.gd(), 0x56);
}

fn ee_clock_bit(ee: &mut Ee93cxx, di: bool) -> bool {
    let cs: u32 = 0x1_0000;
    let clk: u32 = 0x200;
    let d: u32 = if di { 0x4000_0000 } else { 0 };
    ee.tick(cs | d);
    ee.tick(cs | clk | d);
    ee.audin()
}

fn ee_clock_value(ee: &mut Ee93cxx, v: u32, n: u32) {
    for i in (0..n).rev() {
        ee_clock_bit(ee, (v >> i) & 1 == 1);
    }
}

#[test]
fn eeprom_write_then_read_shifted_word() {
    let mut ee = Ee93cxx::new(Ee93cxxType::C46x16);
    // Write enable: start bit, opcode 00, address bits 11xxx.
    ee_clock_value(&mut ee, 0b1_00_11000, 8);
    // Write 0x1234 at address 3, then one more clock.
    ee_clock_value(&mut ee, 0b1_01_00011, 8);
    ee_clock_value(&mut ee, 0x1234, 16);
    ee_clock_bit(&mut ee, false);
    // Read address 3.
    ee_clock_value(&mut ee, 0b1_10_00011, 8);
    let mut out: u32 = 0;
    for _ in 0..16 {
        out = (out << 1) | if ee_clock_bit(&mut ee, false) { 1 } else { 0 };
    }
    assert_eq!(out, 0x2468);
}

#[test]
fn eeprom_write_protected_by_default() {
    let mut ee = Ee93cxx::new(Ee93cxxType::C46x16);
    ee_clock_value(&mut ee, 0b1_01_00011, 8);
    ee_clock_value(&mut ee, 0x1234, 16);
    ee_clock_bit(&mut ee, false);
    ee_clock_value(&mut ee, 0b1_10_00011, 8);
    let mut out: u32 = 0;
    for _ in 0..16 {
        out = (out << 1) | if ee_clock_bit(&mut ee, false) { 1 } else { 0 };
    }
    assert_eq!(out, 0xFFFF);
}

#[test]
fn uart_byte_comes_back_after_eleven_ticks() {
    let mut regs = MikeyRegisters::new();
    let mut uart = Uart::new();
    uart.set_transmit_holding_buffer(&mut regs, 0xA5);
    for _ in 0..10 {
        uart.tick(&mut regs);
    }
    // Ten ticks in, the last data bit has not arrived yet.
    assert_eq!(uart.get_data(&mut regs), 0);
    uart.tick(&mut regs);
    assert_eq!(uart.get_data(&mut regs), 0xA5);
}

#[test]
fn cartridge_generic_reads_back_written_byte() {
    let mut c = CartridgeGeneric::new(1024, &_256K_PINS);
    c.load(&[0u8; 2048]);
    // Address 1 (A0 on pin 16) with 0xF4 on the data pins: D2, D4, D5, D6
    // and D7 high, which puts 0xD6 in the low byte of the pin word.
    let a0: u32 = 1 << 15;
    c.set_pins(a0 | 0xD6);
    // Drop the pins, then raise CE at the same address.
    c.set_pins(0);
    c.set_pins(a0 | 0x01);
    assert_eq!(c.pins() & 0xFF, 0xD6);
    assert_eq!(c.pins() & a0, a0);
}

#[test]
fn memory_map_sends_each_block_to_its_device() {
    assert_eq!(peek_target(0x1234, 0), BusTarget::Ram);
    assert_eq!(peek_target(0xfc80, 0), BusTarget::Suzy);
    assert_eq!(peek_target(0xfc80, MAPCTL_SUZ_BIT), BusTarget::Ram);
    assert_eq!(peek_target(0xfd20, 0), BusTarget::Mikey);
    assert_eq!(peek_target(0xfe10, 0), BusTarget::Rom);
    assert_eq!(peek_target(0xfff9, 0xff), BusTarget::Ram);
    assert_eq!(peek_target(0xfffe, 0), BusTarget::Vectors);
    assert_eq!(peek_target(0xfffe, MAPCTL_VEC_BIT), BusTarget::Ram);
    assert_eq!(poke_target(0xfe10, 0), BusTarget::Ram);
    assert_eq!(poke_target(0xfc80, 0), BusTarget::Suzy);
}

#[test]
fn joystick_is_turned_for_right_handed_players() {
    // Up becomes down when the console is held right-handed.
    assert_eq!(joystick_for(0x40, LNXRotation::NoRotation, false), 0x80);
    assert_eq!(joystick_for(0x40, LNXRotation::NoRotation, true), 0x40);
    assert_eq!(screen_size(LNXRotation::_90), (102, 160));
    assert_eq!(screen_size(LNXRotation::NoRotation), (160, 102));
}

#[test]
fn cpu_stalls_on_rdy_during_a_read() {
    let mut cpu = M6502::new();
    cpu.set_a(0x12);
    cpu.set_pc(0x3456);
    let mut pins = CPUPins::default();
    pins.set(M6502_RDY | M6502_RW | 0x0042_1234);
    let r = M6502Stepper::new().tick(&mut cpu, pins);
    assert_eq!(r.pins(), pins.pins());
    assert_eq!(cpu.pins().pins(), pins.pins());
    assert_eq!(cpu.a(), 0x12);
    assert_eq!(cpu.pc(), 0x3456);
    assert_eq!(cpu.ir_step(), 0);
}
