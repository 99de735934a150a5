//! The Lynx memory map: which device serves an address of the CPU's bus,
//! and the console-level mapping of the controls and the screen to the
//! cartridge's rotation.
use vstd::prelude::*;
use crate::consts::{
    MAPCTL_MIK_BIT, MAPCTL_ROM_BIT, MAPCTL_SUZ_BIT, MAPCTL_VEC_BIT, MIK_ADDR, MMC_ADDR, NMIV_ADDR, ROM_ADDR,
    SUZ_ADDR,
};
use crate::cartridge::lnx_header::LNXRotation;
use crate::mikey::cpu::with_flag;
use crate::mikey::video::{LYNX_SCREEN_HEIGHT, LYNX_SCREEN_WIDTH};
use crate::suzy::registers::{joystick_swap, Joystick};

verus! {

/// The device that serves an access of the CPU.
#[derive(Clone, Copy, Debug, PartialEq, Eq, Structural)]
pub enum BusTarget {
    Ram,
    Suzy,
    Mikey,
    Rom,
    Vectors,
}

/// Whether the memory map control `mapctl` maps RAM over the block of `bit`.
pub open spec fn mapped_ram(mapctl: u8, bit: u8) -> bool {
    mapctl & bit != 0
}

/// The device a read of `addr` goes to under memory map control `mapctl`:
/// RAM below Suzy; Suzy, Mikey, the ROM and the vectors in their blocks
/// unless MAPCTL maps RAM over them; MAPCTL itself is RAM.
pub open spec fn peek_target_spec(addr: u16, mapctl: u8) -> BusTarget {
    if addr < SUZ_ADDR {
        BusTarget::Ram
    } else if addr < MIK_ADDR {
        if mapped_ram(mapctl, MAPCTL_SUZ_BIT) { BusTarget::Ram } else { BusTarget::Suzy }
    } else if addr < ROM_ADDR {
        if mapped_ram(mapctl, MAPCTL_MIK_BIT) { BusTarget::Ram } else { BusTarget::Mikey }
    } else if addr < MMC_ADDR {
        if mapped_ram(mapctl, MAPCTL_ROM_BIT) { BusTarget::Ram } else { BusTarget::Rom }
    } else if addr < NMIV_ADDR {
        BusTarget::Ram
    } else {
        if mapped_ram(mapctl, MAPCTL_VEC_BIT) { BusTarget::Ram } else { BusTarget::Vectors }
    }
}

/// The device a write to `addr` goes to: as a read, except that writes to
/// the ROM's block always go to the RAM under it.
pub open spec fn poke_target_spec(addr: u16, mapctl: u8) -> BusTarget {
    if ROM_ADDR <= addr < MMC_ADDR {
        BusTarget::Ram
    } else {
        peek_target_spec(addr, mapctl)
    }
}

/// The device a read of `addr` goes to under memory map control `mapctl`.
pub fn peek_target(addr: u16, mapctl: u8) -> (r: BusTarget)
    ensures
        r == peek_target_spec(addr, mapctl),
{
    if addr < SUZ_ADDR {
        BusTarget::Ram
    } else if addr < MIK_ADDR {
        if mapctl & MAPCTL_SUZ_BIT != 0 { BusTarget::Ram } else { BusTarget::Suzy }
    } else if addr < ROM_ADDR {
        if mapctl & MAPCTL_MIK_BIT != 0 { BusTarget::Ram } else { BusTarget::Mikey }
    } else if addr < MMC_ADDR {
        if mapctl & MAPCTL_ROM_BIT != 0 { BusTarget::Ram } else { BusTarget::Rom }
    } else if addr < NMIV_ADDR {
        BusTarget::Ram
    } else {
        if mapctl & MAPCTL_VEC_BIT != 0 { BusTarget::Ram } else { BusTarget::Vectors }
    }
}

/// The device a write to `addr` goes to under memory map control `mapctl`.
pub fn poke_target(addr: u16, mapctl: u8) -> (r: BusTarget)
    ensures
        r == poke_target_spec(addr, mapctl),
{
    if ROM_ADDR <= addr && addr < MMC_ADDR {
        BusTarget::Ram
    } else {
        peek_target(addr, mapctl)
    }
}

/// `j` with the bits `a` and `b` exchanged.
pub open spec fn swapped(j: u8, a: u8, b: u8) -> u8 {
    with_flag(with_flag(j, a, j & b == b), b, j & a == a)
}

/// The joystick bits Suzy sees for the buttons `joy` pressed on a console
/// held as the cartridge's rotation asks: rotated by a quarter turn either
/// way, then, unless the player is left-handed, turned upside down.
pub open spec fn joystick_for_spec(joy: u8, rotation: LNXRotation, left_handed: bool) -> u8 {
    let up: u8 = 0x40;
    let down: u8 = 0x80;
    let left: u8 = 0x10;
    let right: u8 = 0x20;
    let j1 = match rotation {
        LNXRotation::_270 => swapped(swapped(swapped(joy, down, right), up, left), up, down),
        LNXRotation::_90 => swapped(swapped(joy, up, left), down, right),
        LNXRotation::NoRotation => joy,
    };
    if !left_handed {
        swapped(swapped(j1, up, down), left, right)
    } else {
        j1
    }
}

/// The joystick bits Suzy sees for the buttons `joy`, given the
/// cartridge's rotation and the player's handedness.
pub fn joystick_for(joy: u8, rotation: LNXRotation, left_handed: bool) -> (r: u8)
    ensures
        r == joystick_for_spec(joy, rotation, left_handed),
{
    let mut j = match Joystick::from_bits(joy) {
        Some(j) => j,
        None => Joystick::from_bits_retain(joy),
    };
    match rotation {
        LNXRotation::_270 => {
            j = joystick_swap(j, Joystick::down(), Joystick::right());
            j = joystick_swap(j, Joystick::up(), Joystick::left());
            j = joystick_swap(j, Joystick::up(), Joystick::down());
        },
        LNXRotation::_90 => {
            j = joystick_swap(j, Joystick::up(), Joystick::left());
            j = joystick_swap(j, Joystick::down(), Joystick::right());
        },
        LNXRotation::NoRotation => {},
    }
    if !left_handed {
        j = joystick_swap(j, Joystick::up(), Joystick::down());
        j = joystick_swap(j, Joystick::left(), Joystick::right());
    }
    j.bits()
}

/// The screen's width and height as shown: turned a quarter when the
/// cartridge is rotated.
pub fn screen_size(rotation: LNXRotation) -> (r: (u32, u32))
    ensures
        r == (match rotation {
            LNXRotation::_270 | LNXRotation::_90 => (LYNX_SCREEN_HEIGHT, LYNX_SCREEN_WIDTH),
            LNXRotation::NoRotation => (LYNX_SCREEN_WIDTH, LYNX_SCREEN_HEIGHT),
        }),
{
    match rotation {
        LNXRotation::_270 | LNXRotation::_90 => (LYNX_SCREEN_HEIGHT, LYNX_SCREEN_WIDTH),
        LNXRotation::NoRotation => (LYNX_SCREEN_WIDTH, LYNX_SCREEN_HEIGHT),
    }
}

} // verus!
