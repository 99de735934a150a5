//! A plain ROM cartridge: one bank of bytes addressed by a block number
//! and a position within the block, both read from the cartridge pins.
use vstd::prelude::*;
use crate::cartridge::{
    CartridgeI, DATA_PINS, read_pins_u16, read_pins_u8, write_data_pins, pin_bits, data_pins_seq,
    pins_valid, written_pins,
};
use crate::consts::{
    CART_PIN_A0, CART_PIN_A1, CART_PIN_A10, CART_PIN_A12, CART_PIN_A13, CART_PIN_A14, CART_PIN_A15,
    CART_PIN_A16, CART_PIN_A17, CART_PIN_A18, CART_PIN_A19, CART_PIN_A2, CART_PIN_A3, CART_PIN_A4,
    CART_PIN_A5, CART_PIN_A6, CART_PIN_A7, CART_PIN_A8, CART_PIN_A9, CART_PIN_AUDIN, CART_PIN_CE,
    CART_PIN_WE,
};

verus! {

/// The address pins of a 1 MiB cartridge that uses AUDIN as its top bit.
pub const _1024KAUDIN_PINS: [u32; 16] = [
    CART_PIN_A0,
    CART_PIN_A1,
    CART_PIN_A2,
    CART_PIN_A3,
    CART_PIN_A4,
    CART_PIN_A5,
    CART_PIN_A6,
    CART_PIN_A7,
    CART_PIN_A8,
    CART_PIN_A9,
    CART_PIN_A10,
    CART_PIN_AUDIN,
    0,
    0,
    0,
    0,
];

/// The address pins of a 512 KiB cartridge.
pub const _512K_PINS: [u32; 16] = [
    CART_PIN_A0,
    CART_PIN_A1,
    CART_PIN_A2,
    CART_PIN_A3,
    CART_PIN_A4,
    CART_PIN_A5,
    CART_PIN_A6,
    CART_PIN_A7,
    CART_PIN_A8,
    CART_PIN_A9,
    CART_PIN_A10,
    0,
    0,
    0,
    0,
    0,
];

/// The address pins of a 256 KiB cartridge.
pub const _256K_PINS: [u32; 16] = [
    CART_PIN_A0,
    CART_PIN_A1,
    CART_PIN_A2,
    CART_PIN_A3,
    CART_PIN_A4,
    CART_PIN_A5,
    CART_PIN_A6,
    CART_PIN_A7,
    CART_PIN_A8,
    CART_PIN_A9,
    0,
    0,
    0,
    0,
    0,
    0,
];

/// The address pins of a 128 KiB cartridge.
pub const _128K_PINS: [u32; 16] = [
    CART_PIN_A0,
    CART_PIN_A1,
    CART_PIN_A2,
    CART_PIN_A3,
    CART_PIN_A4,
    CART_PIN_A5,
    CART_PIN_A6,
    CART_PIN_A7,
    CART_PIN_A8,
    0,
    0,
    0,
    0,
    0,
    0,
    0,
];

/// The block number pins.
pub const BLOCK_PINS: [u32; 8] = [
    CART_PIN_A12,
    CART_PIN_A13,
    CART_PIN_A14,
    CART_PIN_A15,
    CART_PIN_A16,
    CART_PIN_A17,
    CART_PIN_A18,
    CART_PIN_A19,
];

/// A ROM cartridge.
pub struct CartridgeGeneric {
    pins: u32,
    banks: Vec<Vec<u8>>,
    addr_pins: Vec<u32>,
    block_pins: Vec<u32>,
    bank_size: u32,
}

/// The abstract state of a [`CartridgeGeneric`].
pub struct GenericView {
    pub pins: u32,
    pub banks: Seq<Seq<u8>>,
    pub addr_pins: Seq<u32>,
    pub block_pins: Seq<u32>,
    pub bank_size: u32,
}

impl View for CartridgeGeneric {
    type V = GenericView;

    closed spec fn view(&self) -> GenericView {
        GenericView {
            pins: self.pins,
            banks: self.banks@.map_values(|b: Vec<u8>| b@),
            addr_pins: self.addr_pins@,
            block_pins: self.block_pins@,
            bank_size: self.bank_size,
        }
    }
}

/// The block number on `pins`.
pub open spec fn block_of(c: GenericView, pins: u32) -> u16 {
    pin_bits(pins, c.block_pins, 0, 16)
}

/// The position within the block on `pins`.
pub open spec fn addr_of(c: GenericView, pins: u32) -> u16 {
    pin_bits(pins, c.addr_pins, 0, 16)
}

/// The byte offset addressed by `pins`.
pub open spec fn data_address_of(c: GenericView, pins: u32) -> int {
    block_of(c, pins) * c.bank_size + addr_of(c, pins)
}

/// Whether a cartridge's pin lists are valid and its offsets fit in 32 bits.
pub open spec fn generic_wf(c: GenericView) -> bool {
    &&& pins_valid(c.addr_pins)
    &&& pins_valid(c.block_pins)
    &&& c.block_pins.len() == 8
    &&& c.bank_size <= 4096
}

/// The pins after a read: the data pins take the addressed byte, or 0xFF
/// past the end of the image.
pub open spec fn generic_read(c: GenericView, pins: u32) -> u32 {
    let a = data_address_of(c, pins);
    let data: u8 = if 0 <= a < c.banks[0].len() { c.banks[0][a] } else { 0xff };
    written_pins(pins, data as u16, data_pins_seq(), 0)
}

/// Whether writing `pins` would store a byte: CE does not rise and WE does.
pub open spec fn generic_writes(c: GenericView, pins: u32) -> bool {
    !(c.pins & CART_PIN_CE == 0 && pins & CART_PIN_CE != 0) && (c.pins & CART_PIN_WE == 0 && pins
        & CART_PIN_WE != 0)
}

/// The cartridge after its pins are set: rising CE reads the addressed byte
/// onto the data pins; otherwise rising WE stores the data pins' byte.
pub open spec fn generic_set_pins(c: GenericView, pins: u32) -> GenericView {
    if c.pins & CART_PIN_CE == 0 && pins & CART_PIN_CE != 0 {
        GenericView { pins: generic_read(c, pins), ..c }
    } else if generic_writes(c, pins) {
        let a = data_address_of(c, pins);
        GenericView {
            banks: c.banks.update(0, c.banks[0].update(a, pin_bits(pins, data_pins_seq(), 0, 8) as u8)),
            pins,
            ..c
        }
    } else {
        GenericView { pins, ..c }
    }
}

impl CartridgeGeneric {
    /// An empty cartridge with pages of `bank_size` bytes addressed by
    /// `data_pins`.
    pub fn new(bank_size: u32, data_pins: &[u32]) -> (r: Self)
        ensures
            r@ == (GenericView {
                pins: 0,
                banks: Seq::empty(),
                addr_pins: data_pins@,
                block_pins: BLOCK_PINS@,
                bank_size,
            }),
    {
        let r = Self {
            banks: Vec::new(),
            pins: 0,
            addr_pins: vstd::slice::slice_to_vec(data_pins),
            block_pins: vstd::slice::slice_to_vec(BLOCK_PINS.as_slice()),
            bank_size,
        };
        assert(r@.banks =~= Seq::empty());
        r
    }

    /// The block number on `pins`.
    pub fn block(&self, pins: u32) -> (r: u16)
        requires
            generic_wf(self@),
        ensures
            r == block_of(self@, pins),
    {
        read_pins_u16(pins, self.block_pins.as_slice())
    }

    /// The position within the block on `pins`.
    pub fn addr(&self, pins: u32) -> (r: u16)
        requires
            generic_wf(self@),
        ensures
            r == addr_of(self@, pins),
    {
        read_pins_u16(pins, self.addr_pins.as_slice())
    }

    /// The byte offset addressed by `pins`: block times page size plus
    /// position.
    pub fn data_address(&self, pins: u32) -> (r: usize)
        requires
            generic_wf(self@),
        ensures
            r == data_address_of(self@, pins),
    {
        let block = self.block(pins) as u32;
        let addr = self.addr(pins) as u32;
        proof {
            crate::cartridge::lemma_pin_bits_byte(pins, self@.block_pins, 0, 16);
            assert(block < 256);
            assert(block * self.bank_size <= 255 * 4096) by (nonlinear_arith)
                requires
                    block < 256,
                    self.bank_size <= 4096,
            ;
        }
        (block * self.bank_size + addr) as usize
    }

    fn read(&mut self, pins: u32) -> (r: u32)
        requires
            generic_wf(old(self)@),
            old(self)@.banks.len() >= 1,
        ensures
            r == generic_read(old(self)@, pins),
            final(self)@ == old(self)@,
    {
        let addr = self.data_address(pins);
        let data: u8 = if addr < self.banks[0].len() {
            self.banks[0][addr]
        } else {
            0xff
        };
        write_data_pins(pins, data)
    }

    fn write(&mut self, pins: u32) -> (r: u32)
        requires
            generic_wf(old(self)@),
            old(self)@.banks.len() >= 1,
            data_address_of(old(self)@, pins) < old(self)@.banks[0].len(),
        ensures
            r == pins,
            final(self)@ == (GenericView {
                banks: old(self)@.banks.update(
                    0,
                    old(self)@.banks[0].update(
                        data_address_of(old(self)@, pins),
                        pin_bits(pins, data_pins_seq(), 0, 8) as u8,
                    ),
                ),
                ..old(self)@
            }),
    {
        let addr = self.data_address(pins);
        let data = read_pins_u8(pins, DATA_PINS.as_slice());
        let mut bank = self.banks.remove(0);
        bank[addr] = data;
        self.banks.insert(0, bank);
        proof {
            assert(self@.banks =~= old(self)@.banks.update(
                0,
                old(self)@.banks[0].update(
                    data_address_of(old(self)@, pins),
                    pin_bits(pins, data_pins_seq(), 0, 8) as u8,
                ),
            ));
        }
        pins
    }

    /// Takes the other cartridge's image.
    pub fn copy_from(&mut self, other: &CartridgeGeneric)
        ensures
            final(self)@ == (GenericView { banks: other@.banks, ..old(self)@ }),
    {
        let mut banks: Vec<Vec<u8>> = Vec::new();
        let mut i: usize = 0;
        while i < other.banks.len()
            invariant
                i <= other@.banks.len(),
                banks@.len() == i,
                forall|j: int| 0 <= j < i ==> #[trigger] banks@[j]@ == other@.banks[j],
            decreases other@.banks.len() - i,
        {
            banks.push(vstd::slice::slice_to_vec(other.banks[i].as_slice()));
            i = i + 1;
        }
        self.banks = banks;
        assert(self@.banks =~= other@.banks);
    }
}

impl CartridgeI for CartridgeGeneric {
    open spec fn accepts_pins(&self, pins: u32) -> bool {
        &&& generic_wf(self@)
        &&& self@.banks.len() >= 1
        &&& generic_writes(self@, pins) ==> data_address_of(self@, pins) < self@.banks[0].len()
    }

    fn load(&mut self, file_content: &[u8])
        ensures
            final(self)@ == (GenericView { banks: seq![file_content@], ..old(self)@ }),
    {
        self.banks.clear();
        self.banks.push(vstd::slice::slice_to_vec(file_content));
        assert(self@.banks =~= seq![file_content@]);
    }

    fn set_pins(&mut self, pins: u32)
        ensures
            final(self)@ == generic_set_pins(old(self)@, pins),
    {
        let mut pins = pins;
        if self.pins & CART_PIN_CE == 0 && pins & CART_PIN_CE != 0 {
            pins = self.read(pins);
        } else if self.pins & CART_PIN_WE == 0 && pins & CART_PIN_WE != 0 {
            pins = self.write(pins);
        }
        self.pins = pins;
    }

    fn pins(&self) -> (r: u32)
        ensures
            r == self@.pins,
    {
        self.pins
    }
}

/// What a read gives back of a write: a byte stored at an offset of the
/// image by a rising WE is put back on the data pins by the next rising CE
/// at the same offset.
pub proof fn lemma_write_then_read(c: GenericView, p1: u32, p2: u32)
    requires
        generic_wf(c),
        c.banks.len() >= 1,
        generic_writes(c, p1),
        data_address_of(c, p1) < c.banks[0].len(),
        p1 & CART_PIN_CE == 0,
        p2 & CART_PIN_CE != 0,
        data_address_of(c, p2) == data_address_of(c, p1),
    ensures
        pin_bits(generic_set_pins(generic_set_pins(c, p1), p2).pins, data_pins_seq(), 0, 8) == pin_bits(
            p1,
            data_pins_seq(),
            0,
            8,
        ),
{
    let v = pin_bits(p1, data_pins_seq(), 0, 8);
    crate::cartridge::lemma_pin_bits_byte(p1, data_pins_seq(), 0, 8);
    let c1 = generic_set_pins(c, p1);
    assert(c1.banks[0][data_address_of(c, p1)] == v as u8);
    assert(data_address_of(c1, p2) == data_address_of(c, p1));
    crate::cartridge::lemma_data_pins_roundtrip(p2, v as u8 as u16);
}

} // verus!
