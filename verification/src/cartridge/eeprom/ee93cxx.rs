//! A 93Cxx serial EEPROM on the cartridge pins.
use vstd::prelude::*;
use vstd::arithmetic::power2::{pow2, lemma2_to64, lemma_pow2_unfold, lemma_pow2_strictly_increases};
use vstd::arithmetic::div_mod::lemma_fundamental_div_mod_converse;
use vstd::bits::{lemma_u16_shr_is_div, lemma_u16_low_bits_mask_is_mod, lemma_u32_shr_is_div};
use crate::consts::{CART_PIN_A1, CART_PIN_A7, CART_PIN_AUDIN};

verus! {

/// The EEPROM's serial pins.
#[derive(Clone, Copy, Debug, PartialEq, Eq, Structural)]
pub struct Ee93cxxPins {
    bits: u8,
}

impl View for Ee93cxxPins {
    type V = u8;

    closed spec fn view(&self) -> u8 {
        self.bits
    }
}

impl Ee93cxxPins {
    /// The set of all defined flags.
    pub open spec fn spec_all() -> u8 {
        0xf
    }

    /// Data out.
    pub fn DO() -> (r: Self)
        ensures
            r@ == 0x8,
    {
        Self { bits: 0x8 }
    }

    /// Data in.
    pub fn DI() -> (r: Self)
        ensures
            r@ == 0x4,
    {
        Self { bits: 0x4 }
    }

    /// Serial clock.
    pub fn CLK() -> (r: Self)
        ensures
            r@ == 0x2,
    {
        Self { bits: 0x2 }
    }

    /// Chip select.
    pub fn CS() -> (r: Self)
        ensures
            r@ == 0x1,
    {
        Self { bits: 0x1 }
    }

    /// No flag set.
    pub fn empty() -> (r: Self)
        ensures
            r@ == 0,
    {
        Self { bits: 0 }
    }

    /// The flags as a byte.
    pub fn bits(&self) -> (r: u8)
        ensures
            r == self@,
    {
        self.bits
    }

    /// The flags of `bits`, or nothing where `bits` holds an undefined flag.
    pub fn from_bits(bits: u8) -> (r: Option<Self>)
        ensures
            r is Some <==> bits & !0xfu8 == 0,
            r matches Some(f) ==> f@ == bits,
    {
        
        if bits & !0xfu8 == 0 {
            Some(Self { bits })
        } else {
            None
        }
    }

    /// The flags of `bits`, undefined flags dropped.
    pub fn from_bits_truncate(bits: u8) -> (r: Self)
        ensures
            r@ == bits & 0xfu8,
    {
        Self { bits: bits & 0xfu8 }
    }

    /// The flags of `bits`, undefined flags kept.
    pub fn from_bits_retain(bits: u8) -> (r: Self)
        ensures
            r@ == bits,
    {
        Self { bits }
    }

    /// Whether every flag of `other` is set.
    pub fn contains(&self, other: Self) -> (r: bool)
        ensures
            r == (self@ & other@ == other@),
    {
        self.bits & other.bits == other.bits
    }

    /// Whether no flag is set.
    pub fn is_empty(&self) -> (r: bool)
        ensures
            r == (self@ == 0),
    {
        self.bits == 0
    }

    /// The flags set in either.
    pub fn union(self, other: Self) -> (r: Self)
        ensures
            r@ == self@ | other@,
    {
        Self { bits: self.bits | other.bits }
    }

    /// The flags set in both.
    pub fn intersection(self, other: Self) -> (r: Self)
        ensures
            r@ == self@ & other@,
    {
        Self { bits: self.bits & other.bits }
    }

    /// The flags of `self` not in `other`.
    pub fn difference(self, other: Self) -> (r: Self)
        ensures
            r@ == self@ & !other@,
    {
        Self { bits: self.bits & !other.bits }
    }

    /// Sets (`value`) or clears the flags of `other`.
    pub fn set(&mut self, other: Self, value: bool)
        ensures
            final(self)@ == (if value { old(self)@ | other@ } else { old(self)@ & !other@ }),
    {
        if value {
            self.bits = self.bits | other.bits;
        } else {
            self.bits = self.bits & !other.bits;
        }
    }
}

/// The EEPROM models the cartridge can carry.
#[derive(Clone, Copy, Debug, PartialEq, Eq, Structural)]
pub enum Ee93cxxType {
    C46x8,
    C56x8,
    C66x8,
    C76x8,
    C86x8,
    C46x16,
    C56x16,
    C66x16,
    C76x16,
    C86x16,
}

/// Where the EEPROM is in its serial protocol.
#[derive(Clone, Copy, Debug, PartialEq, Eq, Structural)]
pub enum Ee93cxxState {
    WaitForStartBit,
    WaitForCommand,
    SendingData,
    WaitForWrite,
    WaitForWriteAll,
}

const EE93CXX_CMD_ERASE: u16 = 0b11;

const EE93CXX_CMD_READ: u16 = 0b10;

const EE93CXX_CMD_WRITE: u16 = 0b01;

const EE93CXX_ADR_WRAL: u16 = 0b01;

const EE93CXX_ADR_ERAL: u16 = 0b10;

const EE93CXX_ADR_EWDS: u16 = 0b00;

const EE93CXX_ADR_EWEN: u16 = 0b11;

/// An EEPROM model's geometry and the cartridge pins it listens on.
pub struct Ee93cxxConf {
    size: usize,
    address_bits: u8,
    data_len: u8,
    cart_pins: u32,
    clk_pin_mask: u32,
    cs_pin_mask: u32,
    di_pin_mask: u32,
    do_pin_mask: u32,
}

/// The abstract state of an [`Ee93cxxConf`].
pub struct ConfView {
    pub size: usize,
    pub address_bits: u8,
    pub data_len: u8,
    pub cart_pins: u32,
    pub clk_pin_mask: u32,
    pub cs_pin_mask: u32,
    pub di_pin_mask: u32,
    pub do_pin_mask: u32,
}

impl View for Ee93cxxConf {
    type V = ConfView;

    closed spec fn view(&self) -> ConfView {
        ConfView {
            size: self.size,
            address_bits: self.address_bits,
            data_len: self.data_len,
            cart_pins: self.cart_pins,
            clk_pin_mask: self.clk_pin_mask,
            cs_pin_mask: self.cs_pin_mask,
            di_pin_mask: self.di_pin_mask,
            do_pin_mask: self.do_pin_mask,
        }
    }
}

/// The words, address bits and word width of each model.
pub open spec fn geometry(t: Ee93cxxType) -> (usize, u8, u8) {
    match t {
        Ee93cxxType::C46x8 => (128, 6, 8),
        Ee93cxxType::C56x8 => (256, 8, 8),
        Ee93cxxType::C66x8 => (512, 8, 8),
        Ee93cxxType::C76x8 => (1024, 10, 8),
        Ee93cxxType::C86x8 => (2048, 10, 8),
        Ee93cxxType::C46x16 => (64, 5, 16),
        Ee93cxxType::C56x16 => (128, 7, 16),
        Ee93cxxType::C66x16 => (256, 7, 16),
        Ee93cxxType::C76x16 => (512, 9, 16),
        Ee93cxxType::C86x16 => (1024, 9, 16),
    }
}

/// The clock on cartridge pin A1, chip select on A7, data in and out on
/// AUDIN.
pub open spec fn conf_masks_ok(c: ConfView) -> bool {
    &&& c.clk_pin_mask == 0x200
    &&& c.cs_pin_mask == 0x1_0000
    &&& c.di_pin_mask == 0x4000_0000
    &&& c.do_pin_mask == 0x4000_0000
}

/// 2 to the power `b`, for the address widths of the models.
pub open spec fn pow2_bits(b: u8) -> int {
    if b == 5 {
        32
    } else if b == 6 {
        64
    } else if b == 7 {
        128
    } else if b == 8 {
        256
    } else if b == 9 {
        512
    } else {
        1024
    }
}

impl Ee93cxxConf {
    fn new(size: usize, address_bits: u8, data_len: u8) -> (r: Self)
        ensures
            r@ == (ConfView {
                size,
                address_bits,
                data_len,
                cart_pins: 0,
                clk_pin_mask: 0x200,
                cs_pin_mask: 0x1_0000,
                di_pin_mask: 0x4000_0000,
                do_pin_mask: 0x4000_0000,
            }),
    {
        proof {
            lemma_ee_bits(0, 0, 0, 0, false, false, false);
        }
        Self {
            size,
            address_bits,
            data_len,
            cart_pins: 0,
            clk_pin_mask: 1 << (CART_PIN_A1 - 1),
            cs_pin_mask: 1 << (CART_PIN_A7 - 1),
            di_pin_mask: 1 << (CART_PIN_AUDIN - 1),
            do_pin_mask: 1 << (CART_PIN_AUDIN - 1),
        }
    }

    fn address_mask(&self) -> (r: u16)
        requires
            5 <= self@.address_bits <= 10,
        ensures
            r == pow2_bits(self@.address_bits) - 1,
    {
        let b = self.address_bits as u16;
        proof {
            lemma_ee_bits(0, b, 0, 0, false, false, false);
        }
        (1u16 << b) - 1
    }

    fn command_len(&self) -> (r: u8)
        requires
            self@.address_bits <= 10,
        ensures
            r == self@.address_bits + 2,
    {
        self.address_bits + 2
    }

    fn load_cart_pins(&mut self, cart_pins: u32) -> (r: Ee93cxxPins)
        ensures
            final(self)@ == (ConfView { cart_pins, ..old(self)@ }),
            r@ == ((if cart_pins & old(self)@.clk_pin_mask != 0 { 0x02u8 } else { 0u8 }) | (if cart_pins
                & old(self)@.cs_pin_mask != 0 { 0x01u8 } else { 0u8 }) | (if cart_pins & old(self)@.di_pin_mask
                != 0 { 0x04u8 } else { 0u8 })),
    {
        self.cart_pins = cart_pins;
        let mut pins = Ee93cxxPins::empty();
        pins.set(Ee93cxxPins::CLK(), cart_pins & self.clk_pin_mask != 0);
        pins.set(Ee93cxxPins::CS(), cart_pins & self.cs_pin_mask != 0);
        pins.set(Ee93cxxPins::DI(), cart_pins & self.di_pin_mask != 0);
        let ghost a = cart_pins & old(self)@.clk_pin_mask != 0;
        let ghost b = cart_pins & old(self)@.cs_pin_mask != 0;
        let ghost c = cart_pins & old(self)@.di_pin_mask != 0;
        proof {
            lemma_ee_bits(0, 0, 0, 0, a, b, c);
        }
        pins
    }
}

/// The EEPROM: its words, its protocol state and its shift registers.
pub struct Ee93cxx {
    data: Vec<u16>,
    state: Ee93cxxState,
    prev_clk: bool,
    typ: Ee93cxxType,
    config: Ee93cxxConf,
    shifter: u16,
    shifter_in: u8,
    data_buffer: u32,
    data_buffer_in: u8,
    command: u16,
    ewds: bool,
    last_output: bool,
}

/// The abstract state of an [`Ee93cxx`].
pub struct EeView {
    pub data: Seq<u16>,
    pub state: Ee93cxxState,
    pub prev_clk: bool,
    pub typ: Ee93cxxType,
    pub config: ConfView,
    pub shifter: u16,
    pub shifter_in: u8,
    pub data_buffer: u32,
    pub data_buffer_in: u8,
    pub command: u16,
    pub ewds: bool,
    pub last_output: bool,
}

impl View for Ee93cxx {
    type V = EeView;

    closed spec fn view(&self) -> EeView {
        EeView {
            data: self.data@,
            state: self.state,
            prev_clk: self.prev_clk,
            typ: self.typ,
            config: self.config@,
            shifter: self.shifter,
            shifter_in: self.shifter_in,
            data_buffer: self.data_buffer,
            data_buffer_in: self.data_buffer_in,
            command: self.command,
            ewds: self.ewds,
            last_output: self.last_output,
        }
    }
}

/// Whether an EEPROM's configuration and words match its model.
pub open spec fn ee_geometry_ok(s: EeView) -> bool {
    let (size, bits, len) = geometry(s.typ);
    &&& s.config.size == size
    &&& s.config.address_bits == bits
    &&& s.config.data_len == len
    &&& conf_masks_ok(s.config)
    &&& s.data.len() == size
}

/// Whether an EEPROM's state is consistent with its model and protocol.
pub open spec fn ee_wf(s: EeView) -> bool {
    let (size, bits, len) = geometry(s.typ);
    &&& ee_geometry_ok(s)
    &&& s.state == Ee93cxxState::WaitForStartBit ==> s.shifter_in == 0 && s.shifter == 0
    &&& (s.state == Ee93cxxState::WaitForStartBit || s.state == Ee93cxxState::WaitForCommand) ==> s.data_buffer == 0
    &&& (s.state == Ee93cxxState::WaitForStartBit || s.state == Ee93cxxState::WaitForCommand) ==> s.data_buffer_in
        == 0
    &&& s.state == Ee93cxxState::WaitForCommand ==> s.shifter_in < bits + 2
    &&& s.state == Ee93cxxState::SendingData ==> s.data_buffer_in < 16
    &&& (s.state == Ee93cxxState::WaitForWrite || s.state == Ee93cxxState::WaitForWriteAll) ==> s.data_buffer_in
        <= len
}

/// The word address in the shift register.
pub open spec fn ee_address(s: EeView) -> int {
    (s.shifter & ((pow2_bits(s.config.address_bits) - 1) as u16)) as int
}

/// The protocol restarted: shift registers cleared, waiting for a start bit.
pub open spec fn ee_reset(s: EeView) -> EeView {
    EeView {
        shifter: 0,
        shifter_in: 0,
        data_buffer: 0,
        data_buffer_in: 0,
        state: Ee93cxxState::WaitForStartBit,
        ..s
    }
}

/// The words after a write-type command: changed only when writes are
/// enabled.
pub open spec fn ee_store(s: EeView, d: Seq<u16>) -> EeView {
    ee_reset(EeView { data: if !s.ewds { d } else { s.data }, last_output: true, ..s })
}

/// The EEPROM after a rising clock with data-in `di`: a start bit opens a
/// command; the command bits are shifted in and, once complete, decoded
/// (erase, read, write, and the extended erase-all, write-all, enable and
/// disable); a read shifts its word out, most significant bit first; a
/// write collects its data bits, then stores them.
pub open spec fn ee_clock(s: EeView, di: bool) -> EeView {
    let bit: u16 = if di { 1 } else { 0 };
    let ab = s.config.address_bits;
    match s.state {
        Ee93cxxState::WaitForStartBit => if di {
            EeView { state: Ee93cxxState::WaitForCommand, ..s }
        } else {
            s
        },
        Ee93cxxState::WaitForCommand => {
            let sh = (s.shifter << 1u16) | bit;
            let n = (s.shifter_in + 1) as u8;
            let s1 = EeView { shifter: sh, shifter_in: n, ..s };
            if n == ab + 2 {
                let op = (sh >> (ab as u16)) & 3;
                if op == 0 {
                    let sub = (sh >> ((ab - 2) as u16)) & 3;
                    if sub == 2 {
                        ee_store(s1, Seq::new(s1.data.len(), |i: int| 0xffffu16))
                    } else if sub == 0 {
                        ee_reset(EeView { ewds: true, ..s1 })
                    } else if sub == 3 {
                        ee_reset(EeView { ewds: false, ..s1 })
                    } else {
                        EeView { state: Ee93cxxState::WaitForWriteAll, ..s1 }
                    }
                } else if op == 3 {
                    ee_store(s1, s1.data.update(ee_address(s1), 0xffff))
                } else if op == 2 {
                    EeView {
                        data_buffer: s1.data[ee_address(s1)] as u32,
                        data_buffer_in: (s1.config.data_len - 1) as u8,
                        state: Ee93cxxState::SendingData,
                        ..s1
                    }
                } else {
                    EeView { state: Ee93cxxState::WaitForWrite, ..s1 }
                }
            } else {
                s1
            }
        },
        Ee93cxxState::SendingData => {
            let s1 = EeView { last_output: s.data_buffer & (1u32 << (s.data_buffer_in as u32)) != 0, ..s };
            if s.data_buffer_in == 0 {
                ee_reset(s1)
            } else {
                EeView { data_buffer_in: (s.data_buffer_in - 1) as u8, ..s1 }
            }
        },
        Ee93cxxState::WaitForWrite => if s.data_buffer_in == s.config.data_len {
            ee_store(s, s.data.update(ee_address(s), s.data_buffer as u16))
        } else {
            EeView {
                data_buffer: (s.data_buffer | (bit as u32)) << 1u32,
                data_buffer_in: (s.data_buffer_in + 1) as u8,
                ..s
            }
        },
        Ee93cxxState::WaitForWriteAll => if s.data_buffer_in == s.config.data_len {
            ee_store(s, Seq::new(s.data.len(), |i: int| s.data_buffer as u16))
        } else {
            EeView {
                data_buffer: (s.data_buffer | (bit as u32)) << 1u32,
                data_buffer_in: (s.data_buffer_in + 1) as u8,
                ..s
            }
        },
    }
}

/// The EEPROM after the cartridge pins change: without chip select the
/// protocol restarts; with it, a rising clock clocks the EEPROM.
pub open spec fn ee_tick(s: EeView, cart_pins: u32) -> EeView {
    let clk = cart_pins & 0x200 != 0;
    let cs = cart_pins & 0x1_0000 != 0;
    let di = cart_pins & 0x4000_0000 != 0;
    let s0 = EeView { config: ConfView { cart_pins, ..s.config }, ..s };
    let s1 = if cs {
        if !s.prev_clk && clk {
            ee_clock(s0, di)
        } else {
            s0
        }
    } else {
        ee_reset(s0)
    };
    EeView { prev_clk: clk, ..s1 }
}

/// The configuration of a model.
pub fn config(t: Ee93cxxType) -> (r: Ee93cxxConf)
    ensures
        r@.size == geometry(t).0,
        r@.address_bits == geometry(t).1,
        r@.data_len == geometry(t).2,
        r@.cart_pins == 0,
        conf_masks_ok(r@),
{
    match t {
        Ee93cxxType::C46x8 => Ee93cxxConf::new(128, 6, 8),
        Ee93cxxType::C56x8 => Ee93cxxConf::new(256, 8, 8),
        Ee93cxxType::C66x8 => Ee93cxxConf::new(512, 8, 8),
        Ee93cxxType::C76x8 => Ee93cxxConf::new(1024, 10, 8),
        Ee93cxxType::C86x8 => Ee93cxxConf::new(2048, 10, 8),
        Ee93cxxType::C46x16 => Ee93cxxConf::new(64, 5, 16),
        Ee93cxxType::C56x16 => Ee93cxxConf::new(128, 7, 16),
        Ee93cxxType::C66x16 => Ee93cxxConf::new(256, 7, 16),
        Ee93cxxType::C76x16 => Ee93cxxConf::new(512, 9, 16),
        Ee93cxxType::C86x16 => Ee93cxxConf::new(1024, 9, 16),
    }
}

impl Ee93cxx {
    /// An erased EEPROM (every word all ones), writes disabled, waiting for
    /// a start bit.
    pub fn new(typ: Ee93cxxType) -> (r: Self)
        ensures
            ee_wf(r@),
            r@.data == Seq::new(geometry(typ).0 as nat, |i: int| 0xffffu16),
            r@.typ == typ,
            r@.state == Ee93cxxState::WaitForStartBit,
            r@.ewds,
            !r@.last_output,
            !r@.prev_clk,
    {
        let config = config(typ);
        let size = config.size;
        let r = Self {
            data: vec![0xFFFF; size],
            config,
            shifter: 0,
            shifter_in: 0,
            data_buffer: 0,
            data_buffer_in: 0,
            state: Ee93cxxState::WaitForStartBit,
            prev_clk: false,
            command: 0,
            ewds: true,
            last_output: false,
            typ,
        };
        assert(r@.data =~= Seq::new(geometry(typ).0 as nat, |i: int| 0xffffu16));
        r
    }

    /// Follows the cartridge pins: without chip select the protocol
    /// restarts; with it, a rising clock clocks the EEPROM.
    pub fn tick(&mut self, cart_pins: u32)
        requires
            ee_wf(old(self)@),
        ensures
            final(self)@ == ee_tick(old(self)@, cart_pins),
            ee_wf(final(self)@),
    {
        let mut p = self.config.load_cart_pins(cart_pins);
        proof {
            let cp = cart_pins;
            lemma_ee_bits(cp, 0, 0, 0, false, false, false);
        }

        if p.contains(Ee93cxxPins::CS()) {
            if !self.prev_clk && p.contains(Ee93cxxPins::CLK()) {
                self.clock(&mut p);
            }
        } else {
            self.reset();
        }

        self.prev_clk = p.contains(Ee93cxxPins::CLK());
    }

    fn clock(&mut self, p: &mut Ee93cxxPins)
        requires
            ee_wf(old(self)@),
        ensures
            final(self)@ == ee_clock(old(self)@, old(p)@ & 0x04 == 0x04),
            ee_wf(final(self)@),
            final(p)@ == old(p)@,
    {
        let di = p.contains(Ee93cxxPins::DI());
        match self.state {
            Ee93cxxState::WaitForStartBit => {
                if di {
                    self.state = Ee93cxxState::WaitForCommand;
                }
            },
            Ee93cxxState::WaitForCommand => {
                self.shifter = self.shifter << 1;
                self.shifter = self.shifter | if di {
                    1
                } else {
                    0
                };
                self.shifter_in = self.shifter_in + 1;
                if self.shifter_in == self.config.command_len() {
                    let ab = self.config.address_bits as u16;
                    let op = (self.shifter >> ab) & 0b11;
                    if op == 0 {
                        let sub = (self.shifter >> (ab - 2)) & 0b11;
                        if sub == EE93CXX_ADR_ERAL {
                            self.eral();
                        } else if sub == EE93CXX_ADR_EWDS {
                            self.ewds();
                        } else if sub == EE93CXX_ADR_EWEN {
                            self.ewen();
                        } else {
                            self.state = Ee93cxxState::WaitForWriteAll;
                        }
                    } else if op == EE93CXX_CMD_ERASE {
                        self.erase();
                    } else if op == EE93CXX_CMD_READ {
                        self.read();
                    } else {
                        self.state = Ee93cxxState::WaitForWrite;
                    }
                }
            },
            Ee93cxxState::SendingData => {
                self.last_output = self.data_buffer & (1 << self.data_buffer_in) != 0;
                if self.data_buffer_in == 0 {
                    self.reset();
                } else {
                    self.data_buffer_in = self.data_buffer_in - 1;
                }
            },
            Ee93cxxState::WaitForWrite => {
                if self.data_buffer_in == self.config.data_len {
                    self.write();
                } else {
                    self.data_buffer = self.data_buffer | if di {
                        1
                    } else {
                        0
                    };
                    self.data_buffer = self.data_buffer << 1;
                    self.data_buffer_in = self.data_buffer_in + 1;
                }
            },
            Ee93cxxState::WaitForWriteAll => {
                if self.data_buffer_in == self.config.data_len {
                    self.wral();
                } else {
                    self.data_buffer = self.data_buffer | if di {
                        1
                    } else {
                        0
                    };
                    self.data_buffer = self.data_buffer << 1;
                    self.data_buffer_in = self.data_buffer_in + 1;
                }
            },
        }
    }

    fn address(&self) -> (r: usize)
        requires
            ee_geometry_ok(self@),
        ensures
            r == ee_address(self@),
            r < self@.data.len(),
    {
        let m = self.config.address_mask();
        let sh = self.shifter;
        let a = sh & m;
        proof {
            lemma_ee_bits(0, 0, sh, m, false, false, false);
        }
        a as usize
    }

    fn write(&mut self)
        requires
            ee_geometry_ok(old(self)@),
        ensures
            final(self)@ == ee_store(old(self)@, old(self)@.data.update(ee_address(old(self)@), old(self)@.data_buffer as u16)),
            ee_wf(final(self)@),
    {
        if !self.ewds {
            let addr = self.address();
            self.data.set(addr, self.data_buffer as u16);
        }
        self.last_output = true;
        self.reset();
    }

    fn wral(&mut self)
        requires
            ee_geometry_ok(old(self)@),
        ensures
            final(self)@ == ee_store(old(self)@, Seq::new(old(self)@.data.len(), |i: int| old(self)@.data_buffer as u16)),
            ee_wf(final(self)@),
    {
        if !self.ewds {
            let v = self.data_buffer as u16;
            self.fill_data(v);
        }
        self.last_output = true;
        self.reset();
    }

    fn fill_data(&mut self, v: u16)
        ensures
            final(self)@ == (EeView { data: Seq::new(old(self)@.data.len(), |i: int| v), ..old(self)@ }),
    {
        let n = self.data.len();
        let mut i: usize = 0;
        while i < n
            invariant
                i <= n,
                n == old(self)@.data.len(),
                self@.data.len() == n,
                forall|j: int| 0 <= j < i ==> self@.data[j] == v,
                self@ == (EeView { data: self@.data, ..old(self)@ }),
            decreases n - i,
        {
            self.data.set(i, v);
            i = i + 1;
        }
        assert(self@.data =~= Seq::new(old(self)@.data.len(), |i: int| v));
    }

    fn reset(&mut self)
        ensures
            final(self)@ == ee_reset(old(self)@),
    {
        self.shifter = 0;
        self.shifter_in = 0;
        self.data_buffer = 0;
        self.data_buffer_in = 0;
        self.state = Ee93cxxState::WaitForStartBit;
    }

    fn erase(&mut self)
        requires
            ee_geometry_ok(old(self)@),
        ensures
            final(self)@ == ee_store(old(self)@, old(self)@.data.update(ee_address(old(self)@), 0xffff)),
            ee_wf(final(self)@),
    {
        if !self.ewds {
            let addr = self.address();
            self.data.set(addr, 0xFFFF);
        }
        self.last_output = true;
        self.reset();
    }

    fn eral(&mut self)
        requires
            ee_geometry_ok(old(self)@),
        ensures
            final(self)@ == ee_store(old(self)@, Seq::new(old(self)@.data.len(), |i: int| 0xffffu16)),
            ee_wf(final(self)@),
    {
        if !self.ewds {
            self.fill_data(0xFFFF);
        }
        self.last_output = true;
        self.reset();
    }

    fn ewds(&mut self)
        ensures
            final(self)@ == ee_reset(EeView { ewds: true, ..old(self)@ }),
    {
        self.ewds = true;
        self.reset();
    }

    fn ewen(&mut self)
        ensures
            final(self)@ == ee_reset(EeView { ewds: false, ..old(self)@ }),
    {
        self.ewds = false;
        self.reset();
    }

    fn read(&mut self)
        requires
            ee_geometry_ok(old(self)@),
        ensures
            final(self)@ == (EeView {
                data_buffer: old(self)@.data[ee_address(old(self)@)] as u32,
                data_buffer_in: (old(self)@.config.data_len - 1) as u8,
                state: Ee93cxxState::SendingData,
                ..old(self)@
            }),
            ee_wf(final(self)@),
    {
        let addr = self.address();
        self.data_buffer = self.data[addr] as u32;
        self.data_buffer_in = self.config.data_len - 1;
        self.state = Ee93cxxState::SendingData;
    }

    /// The level the EEPROM drives onto AUDIN.
    pub fn audin(&self) -> (r: bool)
        ensures
            r == self@.last_output,
    {
        self.last_output
    }
}

/// With writes disabled, no pin sequence changes the EEPROM's words.
pub proof fn lemma_write_protect(s: EeView, cart_pins: u32)
    requires
        ee_wf(s),
        s.ewds,
    ensures
        ee_tick(s, cart_pins).data == s.data,
{
}

/// The write-enable and write-disable commands only switch write
/// protection: the words stay as they were.
pub proof fn lemma_enable_keeps_words(s: EeView, di: bool)
    requires
        ee_wf(s),
    ensures
        ee_clock(s, di).ewds != s.ewds ==> ee_clock(s, di).data == s.data,
{
}

/// The value of a run of bits, the first one most significant.
pub open spec fn bits_value(b: Seq<bool>) -> int
    decreases b.len(),
{
    if b.len() == 0 {
        0
    } else {
        2 * bits_value(b.drop_last()) + if b.last() {
            1int
        } else {
            0int
        }
    }
}

/// Bit `i` of `v`.
pub open spec fn word_bit(v: int, i: nat) -> bool {
    (v / pow2(i) as int) % 2 == 1
}

/// The EEPROM after a run of rising clocks with chip select held, data in
/// at the levels of `di` in turn.
pub open spec fn ee_clocks(s: EeView, di: Seq<bool>) -> EeView
    decreases di.len(),
{
    if di.len() == 0 {
        s
    } else {
        ee_clock(ee_clocks(s, di.drop_last()), di.last())
    }
}

/// The data-in levels of a write command: the start bit, opcode 01, the
/// address bits, then the data bits.
pub open spec fn write_command(addr: Seq<bool>, word: Seq<bool>) -> Seq<bool> {
    seq![true, false, true] + addr + word
}

/// The data-in levels of a read command: the start bit, opcode 10, then the
/// address bits.
pub open spec fn read_command(addr: Seq<bool>) -> Seq<bool> {
    seq![true, true, false] + addr
}

/// Clocking two runs in turn is clocking the joined run.
proof fn lemma_clocks_append(s: EeView, a: Seq<bool>, b: Seq<bool>)
    ensures
        ee_clocks(s, a + b) == ee_clocks(ee_clocks(s, a), b),
    decreases b.len(),
{
    if b.len() == 0 {
        assert(a + b =~= a);
    } else {
        assert((a + b).drop_last() =~= a + b.drop_last());
        assert((a + b).last() == b.last());
        lemma_clocks_append(s, a, b.drop_last());
    }
}

/// The value of joined runs of bits, and its range.
proof fn lemma_bits_value(a: Seq<bool>, b: Seq<bool>)
    ensures
        bits_value(a + b) == bits_value(a) * pow2(b.len()) + bits_value(b),
        0 <= bits_value(b) < pow2(b.len()),
    decreases b.len(),
{
    lemma2_to64();
    if b.len() == 0 {
        assert(a + b =~= a);
    } else {
        assert((a + b).drop_last() =~= a + b.drop_last());
        assert((a + b).last() == b.last());
        lemma_bits_value(a, b.drop_last());
        lemma_pow2_unfold(b.len());
        let p = pow2((b.len() - 1) as nat) as int;
        let va = bits_value(a);
        assert(2 * (va * p) == va * (2 * p)) by (nonlinear_arith);
    }
}

/// Shifting the first command bits into an EEPROM that has just seen its
/// start bit.
proof fn lemma_command_shift(s: EeView, b: Seq<bool>)
    requires
        s.state == Ee93cxxState::WaitForCommand,
        s.shifter == 0,
        s.shifter_in == 0,
        s.config.address_bits <= 10,
        b.len() <= s.config.address_bits + 1,
    ensures
        ee_clocks(s, b) == (EeView { shifter: bits_value(b) as u16, shifter_in: b.len() as u8, ..s }),
    decreases b.len(),
{
    if b.len() > 0 {
        let b0 = b.drop_last();
        lemma_command_shift(s, b0);
        lemma_bits_value(seq![], b0);
        lemma_pow2_strictly_increases(b0.len(), 11);
        lemma2_to64();
        let sh = bits_value(b0) as u16;
        let bit: u16 = if b.last() {
            1
        } else {
            0
        };
        lemma_shift_bits(sh, bit, 0, 0, 0, 0, 0, 0);
    }
}

/// A complete command: the opcode bits and the address bits decoded, a
/// write waiting for its data, a read sending its word.
proof fn lemma_command(s: EeView, op: Seq<bool>, addr: Seq<bool>)
    requires
        ee_geometry_ok(s),
        s.state == Ee93cxxState::WaitForCommand,
        s.shifter == 0,
        s.shifter_in == 0,
        op.len() == 2,
        addr.len() == s.config.address_bits,
    ensures
        ({
            let t = ee_clocks(s, op + addr);
            let sh = bits_value(op + addr) as u16;
            &&& bits_value(op) == 1 ==> t == (EeView {
                shifter: sh,
                shifter_in: (addr.len() + 2) as u8,
                state: Ee93cxxState::WaitForWrite,
                ..s
            })
            &&& bits_value(op) == 2 ==> t == (EeView {
                shifter: sh,
                shifter_in: (addr.len() + 2) as u8,
                data_buffer: s.data[bits_value(addr)] as u32,
                data_buffer_in: (s.config.data_len - 1) as u8,
                state: Ee93cxxState::SendingData,
                ..s
            })
            &&& bits_value(op) == 3 ==> t == ee_store(
                EeView { shifter: sh, shifter_in: (addr.len() + 2) as u8, ..s },
                s.data.update(bits_value(addr), 0xffff),
            )
            &&& ee_address(EeView { shifter: sh, ..s }) == bits_value(addr)
            &&& 0 <= bits_value(addr) < s.data.len()
        }),
{
    let ab = s.config.address_bits;
    let c = op + addr;
    let c0 = c.drop_last();
    lemma2_to64();
    lemma_command_shift(s, c0);
    lemma_bits_value(op, addr);
    lemma_bits_value(seq![], c0);
    lemma_bits_value(seq![], op);
    lemma_pow2_strictly_increases(c0.len(), 12);
    lemma_pow2_strictly_increases(ab as nat, 11);
    let v0 = bits_value(c0);
    let bit: u16 = if c.last() {
        1
    } else {
        0
    };
    assert(bits_value(c) == 2 * v0 + bit);
    lemma_shift_bits(v0 as u16, bit, 0, 0, 0, 0, 0, 0);
    let sh = bits_value(c) as u16;
    let p = pow2(ab as nat) as int;
    assert(bits_value(c) == bits_value(op) * p + bits_value(addr));
    assert(bits_value(op) < 4);
    assert(bits_value(c) < 4 * p) by (nonlinear_arith)
        requires
            bits_value(c) == bits_value(op) * p + bits_value(addr),
            0 <= bits_value(op) < 4,
            0 <= bits_value(addr) < p,
    ;
    assert(sh == bits_value(c));
    lemma_fundamental_div_mod_converse(bits_value(c), p, bits_value(op), bits_value(addr));
    lemma_u16_shr_is_div(sh, ab as u16);
    let o = bits_value(op) as u16;
    lemma_shift_bits(0, 0, 0, 0, o, 0, 0, 0);
    lemma_u16_low_bits_mask_is_mod(sh, ab as nat);
    assert(pow2_bits(ab) == p);
    assert(p <= s.data.len());
}

/// Shifting data bits into an EEPROM waiting for a write's data.
proof fn lemma_data_shift(s: EeView, b: Seq<bool>)
    requires
        s.state == Ee93cxxState::WaitForWrite,
        s.data_buffer == 0,
        s.data_buffer_in == 0,
        b.len() <= s.config.data_len,
        s.config.data_len <= 16,
    ensures
        ee_clocks(s, b) == (EeView {
            data_buffer: (2 * bits_value(b)) as u32,
            data_buffer_in: b.len() as u8,
            ..s
        }),
    decreases b.len(),
{
    if b.len() > 0 {
        let b0 = b.drop_last();
        lemma_data_shift(s, b0);
        lemma_bits_value(seq![], b0);
        lemma_pow2_strictly_increases(b0.len(), 16);
        lemma2_to64();
        let x = (2 * bits_value(b0)) as u32;
        let y: u32 = if b.last() {
            1
        } else {
            0
        };
        lemma_shift_bits(0, 0, x, y, 0, 0, 0, 0);
    }
}

/// Clocking a word out of an EEPROM that is sending it: each clock drives
/// the next bit down onto the data out.
proof fn lemma_send(s: EeView, d: Seq<bool>)
    requires
        s.state == Ee93cxxState::SendingData,
        1 <= d.len() <= s.data_buffer_in + 1,
        s.data_buffer_in < 16,
    ensures
        ee_clocks(s, d).last_output == (s.data_buffer & (1u32 << ((s.data_buffer_in + 1 - d.len()) as u32)) != 0),
        ee_clocks(s, d).data == s.data,
        d.len() <= s.data_buffer_in ==> ee_clocks(s, d) == (EeView {
            data_buffer_in: (s.data_buffer_in - d.len()) as u8,
            last_output: ee_clocks(s, d).last_output,
            ..s
        }),
    decreases d.len(),
{
    if d.len() > 1 {
        lemma_send(s, d.drop_last());
    } else {
        assert(d.drop_last() =~= Seq::<bool>::empty());
        assert(ee_clocks(s, d.drop_last()) == s);
    }
}

/// The first clocks of a run, one by one; the value of two bits.
proof fn lemma_first_clocks(s: EeView, b0: bool, b1: bool)
    ensures
        ee_clocks(s, seq![true]) == ee_clock(s, true),
        bits_value(seq![b0, b1]) == 2 * (if b0 {
            1int
        } else {
            0int
        }) + if b1 {
            1int
        } else {
            0int
        },
{
    assert(seq![true].drop_last() =~= Seq::<bool>::empty());
    assert(ee_clocks(s, Seq::<bool>::empty()) == s);
    assert(seq![b0, b1].drop_last() =~= seq![b0]);
    assert(seq![b0].drop_last() =~= Seq::<bool>::empty());
    assert(bits_value(Seq::<bool>::empty()) == 0);
    assert(bits_value(seq![b0]) == if b0 {
        1int
    } else {
        0int
    });
}

/// The data-in levels of an erase command: the start bit, opcode 11, then
/// the address bits.
pub open spec fn erase_command(addr: Seq<bool>) -> Seq<bool> {
    seq![true, true, true] + addr
}

/// With writes enabled, an erase command to an idle EEPROM sets the
/// addressed word to 0xFFFF and leaves every other word as it was; the
/// EEPROM is idle again.
pub proof fn lemma_erase_command(s: EeView, addr: Seq<bool>)
    requires
        ee_wf(s),
        s.state == Ee93cxxState::WaitForStartBit,
        !s.ewds,
        addr.len() == s.config.address_bits,
    ensures
        ({
            let t = ee_clocks(s, erase_command(addr));
            let a = bits_value(addr);
            &&& 0 <= a < s.data.len()
            &&& t.data.len() == s.data.len()
            &&& t.data[a] == 0xffff
            &&& forall|i: int| 0 <= i < s.data.len() && i != a ==> t.data[i] == s.data[i]
            &&& t.state == Ee93cxxState::WaitForStartBit
        }),
{
    let op = seq![true, true];
    let s1 = ee_clock(s, true);
    lemma_first_clocks(s, true, true);
    lemma_command(s1, op, addr);
    lemma_clocks_append(s, seq![true], op + addr);
    assert(seq![true] + (op + addr) =~= erase_command(addr));
}

/// With writes enabled, a write command to an idle EEPROM, followed by one
/// more clock, stores at the addressed word the value of the data bits one
/// place up, within 16 bits (each data bit is shifted in before the buffer
/// moves up), changes no other word and leaves the EEPROM idle.
pub proof fn lemma_write_command(s: EeView, addr: Seq<bool>, word: Seq<bool>, last: bool)
    requires
        ee_wf(s),
        s.state == Ee93cxxState::WaitForStartBit,
        !s.ewds,
        addr.len() == s.config.address_bits,
        word.len() == s.config.data_len,
    ensures
        ({
            let t = ee_clocks(s, write_command(addr, word).push(last));
            &&& t.data == s.data.update(bits_value(addr), ((2 * bits_value(word)) % 0x10000) as u16)
            &&& t.state == Ee93cxxState::WaitForStartBit
            &&& t.config == s.config
            &&& ee_wf(t)
        }),
{
    let op = seq![false, true];
    let s1 = ee_clock(s, true);
    lemma_first_clocks(s, false, true);
    lemma_command(s1, op, addr);
    let s2 = ee_clocks(s1, op + addr);
    lemma_clocks_append(s, seq![true], op + addr);
    assert(seq![true] + (op + addr) =~= seq![true, false, true] + addr);
    lemma_data_shift(s2, word);
    let s3 = ee_clocks(s2, word);
    lemma_clocks_append(s, seq![true, false, true] + addr, word);
    assert(write_command(addr, word).push(last).drop_last() =~= write_command(addr, word));
    lemma_bits_value(seq![], word);
    lemma_pow2_strictly_increases(word.len(), 17);
    lemma2_to64();
    let z = s3.data_buffer;
    lemma_shift_bits(0, 0, 0, 0, 0, z, 0, 0);
    let w = write_command(addr, word);
    assert(ee_clocks(s, w) == s3);
    assert(w.push(last).last() == last);
    let t = ee_clocks(s, w.push(last));
    assert(t == ee_clock(s3, last));
    assert(ee_address(s3) == bits_value(addr));
    assert(t.data == s.data.update(bits_value(addr), ((2 * bits_value(word)) % 0x10000) as u16));
}

/// A read command to an idle EEPROM loads the addressed word; on the
/// clocks after it the EEPROM drives the word's bits onto the data out,
/// most significant first, and no word changes.
pub proof fn lemma_read_command(s: EeView, addr: Seq<bool>, d: Seq<bool>)
    requires
        ee_wf(s),
        s.state == Ee93cxxState::WaitForStartBit,
        addr.len() == s.config.address_bits,
        1 <= d.len() <= s.config.data_len,
    ensures
        ee_clocks(s, read_command(addr) + d).last_output == word_bit(
            s.data[bits_value(addr)] as int,
            (s.config.data_len - d.len()) as nat,
        ),
        ee_clocks(s, read_command(addr) + d).data == s.data,
{
    let op = seq![true, false];
    let s1 = ee_clock(s, true);
    lemma_first_clocks(s, true, false);
    lemma_command(s1, op, addr);
    let s2 = ee_clocks(s1, op + addr);
    lemma_clocks_append(s, seq![true], op + addr);
    assert(seq![true] + (op + addr) =~= read_command(addr));
    lemma_clocks_append(s, read_command(addr), d);
    lemma_send(s2, d);
    let i = (s.config.data_len - d.len()) as u32;
    let v = s2.data_buffer;
    lemma_shift_bits(0, 0, 0, 0, 0, 0, v, i);
    lemma_u32_shr_is_div(v, i);
}

/// What a read gives back of a write: with writes enabled, after a write
/// command to an idle EEPROM and one more clock, a read command at the same
/// address sends the stored value, the data bits one place up within 16
/// bits, most significant bit first.
pub proof fn lemma_read_after_write(
    s: EeView,
    addr: Seq<bool>,
    word: Seq<bool>,
    last: bool,
    d: Seq<bool>,
)
    requires
        ee_wf(s),
        s.state == Ee93cxxState::WaitForStartBit,
        !s.ewds,
        addr.len() == s.config.address_bits,
        word.len() == s.config.data_len,
        1 <= d.len() <= s.config.data_len,
    ensures
        ee_clocks(s, write_command(addr, word).push(last) + read_command(addr) + d).last_output
            == word_bit((2 * bits_value(word)) % 0x10000, (s.config.data_len - d.len()) as nat),
{
    let w = write_command(addr, word).push(last);
    lemma_write_command(s, addr, word, last);
    let t = ee_clocks(s, w);
    lemma_read_command(t, addr, d);
    lemma_clocks_append(s, w, read_command(addr) + d);
    assert(w + read_command(addr) + d =~= w + (read_command(addr) + d));
    lemma_bits_value(seq![], addr);
    lemma2_to64();
    lemma_pow2_strictly_increases(addr.len(), 11);
}

/// Facts of bit arithmetic on the EEPROM's shift registers: shifting a bit
/// in, masking an opcode, truncating the data buffer to a word and testing
/// a bit.
proof fn lemma_shift_bits(sh: u16, b: u16, x: u32, y: u32, o: u16, z: u32, v: u32, i: u32)
    by (bit_vector)
    ensures
        sh < 0x8000 && b <= 1 ==> (sh << 1u16) | b == sh * 2 + b,
        x % 2 == 0 && x < 0x4000_0000 && y <= 1 ==> (x | y) << 1u32 == (x + y) * 2,
        o < 4 ==> o & 3 == o,
        z as u16 == z % 0x10000,
        i < 32 ==> ((v & (1u32 << i) != 0) <==> ((v >> i) % 2 == 1)),
{
}

/// Facts of bit arithmetic on the EEPROM's pins and addresses: the pin
/// masks, the address masks, packing the pins into a byte and masking an
/// address.
proof fn lemma_ee_bits(cp: u32, b: u16, sh: u16, m: u16, x: bool, y: bool, z: bool)
    by (bit_vector)
    ensures
        (1u32 << (CART_PIN_A1 - 1)) == 0x200u32 && (1u32 << (CART_PIN_A7 - 1)) == 0x1_0000u32 && (1u32 << (
        CART_PIN_AUDIN - 1)) == 0x4000_0000u32,
        5 <= b <= 10 ==> (1u16 << b) - 1 == (if b == 5 {
            31u16
        } else if b == 6 {
            63
        } else if b == 7 {
            127
        } else if b == 8 {
            255
        } else if b == 9 {
            511
        } else {
            1023
        }),
        ({
            let p1: u8 = if x { 0u8 | 0x02u8 } else { 0u8 & !0x02u8 };
            let p2: u8 = if y { p1 | 0x01u8 } else { p1 & !0x01u8 };
            let p3: u8 = if z { p2 | 0x04u8 } else { p2 & !0x04u8 };
            p3 == ((if x { 0x02u8 } else { 0u8 }) | (if y { 0x01u8 } else { 0u8 }) | (if z { 0x04u8 } else { 0u8 }))
        }),
        ((if cp & 0x200u32 != 0 { 0x02u8 } else { 0u8 }) | (if cp & 0x1_0000u32 != 0 { 0x01u8 } else { 0u8 }) | (if cp
            & 0x4000_0000u32 != 0 { 0x04u8 } else { 0u8 })) & 0x01u8 == 0x01u8 <==> cp & 0x1_0000u32 != 0,
        ((if cp & 0x200u32 != 0 { 0x02u8 } else { 0u8 }) | (if cp & 0x1_0000u32 != 0 { 0x01u8 } else { 0u8 }) | (if cp
            & 0x4000_0000u32 != 0 { 0x04u8 } else { 0u8 })) & 0x02u8 == 0x02u8 <==> cp & 0x200u32 != 0,
        ((if cp & 0x200u32 != 0 { 0x02u8 } else { 0u8 }) | (if cp & 0x1_0000u32 != 0 { 0x01u8 } else { 0u8 }) | (if cp
            & 0x4000_0000u32 != 0 { 0x04u8 } else { 0u8 })) & 0x04u8 == 0x04u8 <==> cp & 0x4000_0000u32 != 0,
        sh & m <= m,
{
}

} // verus!
