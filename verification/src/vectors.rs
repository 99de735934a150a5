//! The six bytes at the top of memory that hold the NMI, reset and
//! interrupt vectors.
use vstd::prelude::*;
use crate::bus::{Bus, BusStatus, BusView};
use crate::consts::{INTV_ADDR, NMIV_ADDR, RESV_ADDR};

verus! {

const VECTOR_NORMAL_READ_TICKS: i8 = 5;

const VECTOR_NORMAL_WRITE_TICKS: i8 = 5;

/// The vector bytes and the access in progress.
pub struct Vectors {
    data: [u8; 6],
    addr_r: u16,
    data_r: u8,
    ticks_to_done: i8,
    write: bool,
    ticks: u64,
}

/// The abstract state of [`Vectors`].
pub struct VectorsView {
    pub data: Seq<u8>,
    pub addr_r: u16,
    pub data_r: u8,
    pub ticks_to_done: i8,
    pub write: bool,
    pub ticks: u64,
}

impl View for Vectors {
    type V = VectorsView;

    closed spec fn view(&self) -> VectorsView {
        VectorsView {
            data: self.data@,
            addr_r: self.addr_r,
            data_r: self.data_r,
            ticks_to_done: self.ticks_to_done,
            write: self.write,
            ticks: self.ticks,
        }
    }
}

/// Whether `addr` is one of the six vector bytes.
pub open spec fn vector_addr(addr: u16) -> bool {
    NMIV_ADDR <= addr
}

/// The vector byte at `addr`.
pub open spec fn vector_byte(d: Seq<u8>, addr: u16) -> u8 {
    d[addr - NMIV_ADDR]
}

/// The little-endian vector at `addr`.
pub open spec fn vector_word(d: Seq<u8>, addr: u16) -> u16 {
    (vector_byte(d, addr) + 256 * vector_byte(d, (addr + 1) as u16)) as u16
}

/// The vectors after one tick: a pending access counts down and, on
/// reaching zero, completes (a write stores its byte).
pub open spec fn vectors_tick(v: VectorsView) -> VectorsView {
    let ticks = (if v.ticks == u64::MAX { 0 } else { v.ticks + 1 }) as u64;
    if v.ticks_to_done == 0 {
        VectorsView {
            data: if v.write { v.data.update(v.addr_r - NMIV_ADDR, v.data_r) } else { v.data },
            ticks_to_done: -1i8,
            ticks,
            ..v
        }
    } else if v.ticks_to_done == -1 {
        VectorsView { ticks, ..v }
    } else {
        VectorsView { ticks_to_done: (v.ticks_to_done - 1) as i8, ticks, ..v }
    }
}

/// The bus after a tick of the vectors.
pub open spec fn vectors_tick_bus(v: VectorsView, b: BusView) -> BusView {
    if v.ticks_to_done == 0 {
        if v.write {
            BusView { status: BusStatus::PokeDone, ..b }
        } else {
            BusView { data: vector_byte(v.data, v.addr_r), status: BusStatus::PeekDone, ..b }
        }
    } else {
        b
    }
}

impl Vectors {
    /// The power-on vectors: reset points at 0xFF80, the others at 0.
    pub fn new() -> (r: Self)
        ensures
            r@.data == seq![0u8, 0, 0x80, 0xff, 0, 0],
            r@.addr_r == 0,
            r@.data_r == 0,
            r@.ticks_to_done == -1,
            !r@.write,
            r@.ticks == 0,
    {
        let r = Self { data: [0, 0, 0x80, 0xff, 0, 0], addr_r: 0, data_r: 0, ticks_to_done: -1, write: false, ticks: 0 };
        assert(r@.data =~= seq![0u8, 0, 0x80, 0xff, 0, 0]);
        r
    }

    /// Replaces the six vector bytes.
    pub fn from_slice(&mut self, data: &[u8])
        requires
            data@.len() == 6,
        ensures
            final(self)@ == (VectorsView { data: data@, ..old(self)@ }),
    {
        let mut i: usize = 0;
        while i < 6
            invariant
                data@.len() == 6,
                self@.data.len() == 6,
                i <= 6,
                forall|j: int| 0 <= j < i ==> self@.data[j] == data@[j],
                self@ == (VectorsView { data: self@.data, ..old(self)@ }),
            decreases 6 - i,
        {
            self.data[i] = data[i];
            i = i + 1;
        }
        assert(self@.data =~= data@);
    }

    /// The vector byte at `addr`.
    pub fn get(&self, addr: u16) -> (r: u8)
        requires
            vector_addr(addr),
        ensures
            r == vector_byte(self@.data, addr),
    {
        self.data[(addr - NMIV_ADDR) as usize]
    }

    /// Starts a read of the bus address.
    pub fn peek(&mut self, bus: &Bus)
        ensures
            final(self)@ == (VectorsView {
                ticks_to_done: 5,
                addr_r: bus@.addr,
                write: false,
                ..old(self)@
            }),
    {
        self.ticks_to_done = VECTOR_NORMAL_READ_TICKS;
        self.addr_r = bus.addr();
        self.write = false;
    }

    /// Starts a write of the bus data to the bus address.
    pub fn poke(&mut self, bus: &Bus)
        ensures
            final(self)@ == (VectorsView {
                ticks_to_done: 5,
                addr_r: bus@.addr,
                write: true,
                data_r: bus@.data,
                ..old(self)@
            }),
    {
        self.ticks_to_done = VECTOR_NORMAL_WRITE_TICKS;
        self.addr_r = bus.addr();
        self.write = true;
        self.data_r = bus.data();
    }

    /// Advances the access in progress by one tick.
    pub fn tick(&mut self, bus: &mut Bus)
        requires
            old(self)@.ticks_to_done >= -1,
            old(self)@.ticks_to_done == 0 ==> vector_addr(old(self)@.addr_r),
        ensures
            final(self)@ == vectors_tick(old(self)@),
            final(bus)@ == vectors_tick_bus(old(self)@, old(bus)@),
    {
        if self.ticks_to_done == -1 {
        } else if self.ticks_to_done == 0 {
            if self.write {
                self.data[(self.addr_r - NMIV_ADDR) as usize] = self.data_r;
                bus.set_status(BusStatus::PokeDone);
            } else {
                bus.set_data(self.data[(self.addr_r - NMIV_ADDR) as usize]);
                bus.set_status(BusStatus::PeekDone);
            }
            self.ticks_to_done = -1;
        } else {
            self.ticks_to_done = self.ticks_to_done - 1;
        }
        self.ticks = self.ticks.wrapping_add(1);
    }

    /// Whether the access in progress is a write.
    pub fn write(&self) -> (r: bool)
        ensures
            r == self@.write,
    {
        self.write
    }

    /// Whether no access is in progress.
    pub fn ready(&self) -> (r: bool)
        ensures
            r == (self@.ticks_to_done == -1),
    {
        self.ticks_to_done == -1
    }

    /// The vector byte at `addr`.
    pub fn data(&self, addr: u16) -> (r: u8)
        requires
            vector_addr(addr),
        ensures
            r == vector_byte(self@.data, addr),
    {
        self.data[(addr - NMIV_ADDR) as usize]
    }

    /// The little-endian vector at `addr`.
    pub fn u16(&self, addr: u16) -> (r: u16)
        requires
            vector_addr(addr),
            addr < 0xffff,
        ensures
            r == vector_word(self@.data, addr),
    {
        let lo = self.data(addr);
        let hi = self.data(addr + 1);
        assert((lo as u16 | ((hi as u16) << 8u16)) == lo as u16 + 256 * hi as u16) by (bit_vector);
        (lo as u16) | ((hi as u16) << 8)
    }

    /// The interrupt vector.
    pub fn interrupt(&self) -> (r: u16)
        ensures
            r == vector_word(self@.data, INTV_ADDR),
    {
        self.u16(INTV_ADDR)
    }

    /// The non-maskable interrupt vector.
    pub fn nmi(&self) -> (r: u16)
        ensures
            r == vector_word(self@.data, NMIV_ADDR),
    {
        self.u16(NMIV_ADDR)
    }

    /// The reset vector.
    pub fn reset(&self) -> (r: u16)
        ensures
            r == vector_word(self@.data, RESV_ADDR),
    {
        self.u16(RESV_ADDR)
    }
}

/// A write to a vector byte is stored, and reported done on the bus, on the
/// sixth tick; the other vector bytes keep their values.
pub proof fn lemma_vector_poke(v: VectorsView, b: BusView, b2: BusView, other: u16)
    requires
        v.data.len() == 6,
        vector_addr(b.addr),
        vector_addr(other),
        other != b.addr,
    ensures
        ({
            let p = VectorsView { ticks_to_done: 5, addr_r: b.addr, write: true, data_r: b.data, ..v };
            let q = vectors_tick(vectors_tick(vectors_tick(vectors_tick(vectors_tick(p)))));
            &&& vector_byte(vectors_tick(q).data, b.addr) == b.data
            &&& vector_byte(vectors_tick(q).data, other) == vector_byte(v.data, other)
            &&& vectors_tick_bus(q, b2).status == BusStatus::PokeDone
        }),
{
}

impl Default for Vectors {
    fn default() -> (r: Self)
        ensures
            r@.data == seq![0u8, 0, 0x80, 0xff, 0, 0],
            r@.ticks_to_done == -1,
    {
        Vectors::new()
    }
}

} // verus!
