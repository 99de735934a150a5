//! The EEPROM a cartridge can carry, selected by its LNX header.
pub mod ee93cxx;

use vstd::prelude::*;
use ee93cxx::{Ee93cxx, Ee93cxxType, EeView, ee_tick, ee_wf, geometry};

verus! {

/// The EEPROM types an LNX header can name.
#[derive(Clone, Copy, Debug, PartialEq, Eq, Structural)]
pub enum EEpromType {
    Ee93c46x8,
    Ee93c56x8,
    Ee93c66x8,
    Ee93c76x8,
    Ee93c86x8,
    Ee93c46x16,
    Ee93c56x16,
    Ee93c66x16,
    Ee93c76x16,
    Ee93c86x16,
}

/// The EEPROM families.
pub enum EepromI {
    EE93CXX(Ee93cxx),
}

/// A cartridge EEPROM.
pub struct Eeprom {
    eeprom: EepromI,
}

/// The 93Cxx model of an EEPROM type.
pub open spec fn model_of(t: EEpromType) -> Ee93cxxType {
    match t {
        EEpromType::Ee93c46x8 => Ee93cxxType::C46x8,
        EEpromType::Ee93c56x8 => Ee93cxxType::C56x8,
        EEpromType::Ee93c66x8 => Ee93cxxType::C66x8,
        EEpromType::Ee93c76x8 => Ee93cxxType::C76x8,
        EEpromType::Ee93c86x8 => Ee93cxxType::C86x8,
        EEpromType::Ee93c46x16 => Ee93cxxType::C46x16,
        EEpromType::Ee93c56x16 => Ee93cxxType::C56x16,
        EEpromType::Ee93c66x16 => Ee93cxxType::C66x16,
        EEpromType::Ee93c76x16 => Ee93cxxType::C76x16,
        EEpromType::Ee93c86x16 => Ee93cxxType::C86x16,
    }
}

impl View for Eeprom {
    type V = EeView;

    closed spec fn view(&self) -> EeView {
        match self.eeprom {
            EepromI::EE93CXX(ee) => ee@,
        }
    }
}

impl Eeprom {
    /// An erased, write-protected EEPROM of type `t`.
    pub fn new(t: &EEpromType) -> (r: Self)
        ensures
            ee_wf(r@),
            r@.typ == model_of(*t),
            r@.data == Seq::new(geometry(model_of(*t)).0 as nat, |i: int| 0xffffu16),
            r@.ewds,
            !r@.last_output,
    {
        Self {
            eeprom: match t {
                EEpromType::Ee93c46x8 => EepromI::EE93CXX(Ee93cxx::new(Ee93cxxType::C46x8)),
                EEpromType::Ee93c56x8 => EepromI::EE93CXX(Ee93cxx::new(Ee93cxxType::C56x8)),
                EEpromType::Ee93c66x8 => EepromI::EE93CXX(Ee93cxx::new(Ee93cxxType::C66x8)),
                EEpromType::Ee93c76x8 => EepromI::EE93CXX(Ee93cxx::new(Ee93cxxType::C76x8)),
                EEpromType::Ee93c86x8 => EepromI::EE93CXX(Ee93cxx::new(Ee93cxxType::C86x8)),
                EEpromType::Ee93c46x16 => EepromI::EE93CXX(Ee93cxx::new(Ee93cxxType::C46x16)),
                EEpromType::Ee93c56x16 => EepromI::EE93CXX(Ee93cxx::new(Ee93cxxType::C56x16)),
                EEpromType::Ee93c66x16 => EepromI::EE93CXX(Ee93cxx::new(Ee93cxxType::C66x16)),
                EEpromType::Ee93c76x16 => EepromI::EE93CXX(Ee93cxx::new(Ee93cxxType::C76x16)),
                EEpromType::Ee93c86x16 => EepromI::EE93CXX(Ee93cxx::new(Ee93cxxType::C86x16)),
            },
        }
    }

    /// Follows the cartridge pins.
    pub fn tick(&mut self, cart_pins: u32)
        requires
            ee_wf(old(self)@),
        ensures
            final(self)@ == ee_tick(old(self)@, cart_pins),
            ee_wf(final(self)@),
    {
        match &mut self.eeprom {
            EepromI::EE93CXX(ee) => ee.tick(cart_pins),
        }
    }

    /// The level the EEPROM drives onto AUDIN.
    pub fn audin(&self) -> (r: bool)
        ensures
            r == self@.last_output,
    {
        match &self.eeprom {
            EepromI::EE93CXX(ee) => ee.audin(),
        }
    }
}

} // verus!
