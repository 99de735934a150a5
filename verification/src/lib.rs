//! A cycle-level model of the Atari Lynx hardware: the 65C02 core, the
//! Mikey and Suzy custom chips, memory, cartridge and EEPROM, with each
//! component's behaviour stated and proved.
#![allow(non_snake_case)]
#![allow(non_upper_case_globals)]
#![allow(unused_imports)]
#![allow(unused_parens)]

pub mod bus;
pub mod cartridge;
pub mod consts;
pub mod mikey;
pub mod memory_map;
pub mod ram;
pub mod shared_memory;
pub mod suzy;
pub mod vectors;

use vstd::prelude::*;

verus! {

/// The core's name and version.
pub fn info() -> (r: (&'static str, &'static str))
    ensures
        r.0@ == "Holani"@,
{
    ("Holani", "0.9.0")
}

/// The file extensions of the cartridge images the core loads.
pub fn valid_extensions() -> (r: &'static [&'static str])
    ensures
        r@.len() == 2,
        r@[0]@ == "lnx"@,
        r@[1]@ == "o"@,
{
    &["lnx", "o"]
}

} // verus!
