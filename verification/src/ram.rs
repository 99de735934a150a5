//! The 64 KiB of RAM, with the timing of its page-mode and normal accesses.
use vstd::prelude::*;
use crate::bus::{Bus, BusStatus, BusView};
use crate::consts::{MMC_ADDR, RAM_NORMAL_READ_TICKS, RAM_NORMAL_WRITE_TICKS, RAM_PAGE_READ_TICKS, RAM_PEEK_DATA_OPCODE};
use crate::shared_memory::SharedMemory;

verus! {

/// The highest RAM address.
pub const RAM_MAX: u16 = 0xffff;

/// The RAM and the access in progress.
pub struct Ram {
    data: SharedMemory,
    addr_r: u16,
    data_r: u8,
    ticks_to_done: i8,
    write: bool,
    ticks: u64,
}

/// The abstract state of a [`Ram`].
pub struct RamView {
    pub data: Seq<u8>,
    pub addr_r: u16,
    pub data_r: u8,
    pub ticks_to_done: i8,
    pub write: bool,
    pub ticks: u64,
}

impl View for Ram {
    type V = RamView;

    closed spec fn view(&self) -> RamView {
        RamView {
            data: self.data@,
            addr_r: self.addr_r,
            data_r: self.data_r,
            ticks_to_done: self.ticks_to_done,
            write: self.write,
            ticks: self.ticks,
        }
    }
}

/// Whether a RAM state holds the whole address space and a valid countdown.
pub open spec fn ram_wf(r: RamView) -> bool {
    &&& r.data.len() == 0x1_0000
    &&& -1 <= r.ticks_to_done
}

/// Whether a read uses a page-mode cycle: an op-code read (flagged on the
/// bus data) in the page of the previous access.
pub open spec fn page_mode_read(r: RamView, b: BusView) -> bool {
    b.data & RAM_PEEK_DATA_OPCODE != 0 && b.addr & 0xff00 == r.addr_r & 0xff00
}

/// The RAM after a read of the bus address starts: an op-code read in the
/// page of the previous access takes the page-mode time; data reads and
/// reads in another page take the normal time.
pub open spec fn ram_peek(r: RamView, b: BusView) -> RamView {
    RamView {
        ticks_to_done: if page_mode_read(r, b) {
            RAM_PAGE_READ_TICKS
        } else {
            RAM_NORMAL_READ_TICKS
        },
        addr_r: b.addr,
        write: false,
        ..r
    }
}

/// The RAM after a write of the bus data to the bus address starts.
pub open spec fn ram_poke(r: RamView, b: BusView) -> RamView {
    RamView { ticks_to_done: RAM_NORMAL_WRITE_TICKS, addr_r: b.addr, write: true, data: r.data, data_r: b.data, ..r }
}

/// The RAM after one tick: a pending access counts down and, on reaching
/// zero, completes (a write stores its byte) and the RAM becomes idle.
pub open spec fn ram_tick(r: RamView) -> RamView {
    let ticks = (if r.ticks == u64::MAX { 0 } else { r.ticks + 1 }) as u64;
    if r.ticks_to_done == 0 {
        RamView {
            data: if r.write { r.data.update(r.addr_r as int, r.data_r) } else { r.data },
            ticks_to_done: -1i8,
            ticks,
            ..r
        }
    } else if r.ticks_to_done == -1 {
        RamView { ticks, ..r }
    } else {
        RamView { ticks_to_done: (r.ticks_to_done - 1) as i8, ticks, ..r }
    }
}

/// The bus after a tick of the RAM: a completing write reports it is done,
/// a completing read hands over the byte and reports it is done.
pub open spec fn ram_tick_bus(r: RamView, b: BusView) -> BusView {
    if r.ticks_to_done == 0 {
        if r.write {
            BusView { status: BusStatus::PokeDone, ..b }
        } else {
            BusView { data: r.data[r.addr_r as int], status: BusStatus::PeekDone, ..b }
        }
    } else {
        b
    }
}

impl Ram {
    /// A RAM with every byte 0xFF but the memory map control, which is 0,
    /// and no access in progress.
    pub fn new() -> (r: Ram)
        ensures
            ram_wf(r@),
            r@.data == Seq::new(0x1_0000, |i: int| 0xffu8).update(MMC_ADDR as int, 0),
            r@.ticks_to_done == -1,
            r@.addr_r == 0,
            r@.data_r == 0,
            !r@.write,
            r@.ticks == 0,
    {
        let mut r = Ram {
            data: SharedMemory::new((RAM_MAX as usize) + 1, 0xFF),
            ticks_to_done: -1i8,
            addr_r: 0,
            data_r: 0,
            write: false,
            ticks: 0,
        };
        r.data.set(MMC_ADDR as usize, 0);
        r
    }

    /// The byte at `addr`.
    pub fn get(&self, addr: u16) -> (r: u8)
        requires
            ram_wf(self@),
        ensures
            r == self@.data[addr as int],
    {
        self.data.get(addr as usize)
    }

    /// Stores `data` at `addr`.
    pub fn set(&mut self, addr: u16, data: u8)
        requires
            ram_wf(old(self)@),
        ensures
            final(self)@ == (RamView { data: old(self)@.data.update(addr as int, data), ..old(self)@ }),
    {
        self.data.set(addr as usize, data);
    }

    /// Sets every byte to `v`.
    pub fn fill(&mut self, v: u8)
        requires
            ram_wf(old(self)@),
        ensures
            final(self)@ == (RamView { data: Seq::new(0x1_0000, |i: int| v), ..old(self)@ }),
    {
        self.data.fill(v);
    }

    /// Copies `buf` into RAM from `dest` on; it must end below the last
    /// address.
    pub fn copy(&mut self, dest: u16, buf: &[u8])
        requires
            ram_wf(old(self)@),
            dest + buf@.len() <= RAM_MAX,
        ensures
            final(self)@ == (RamView {
                data: old(self)@.data.subrange(0, dest as int) + buf@ + old(self)@.data.subrange(
                    dest + buf@.len(),
                    0x1_0000,
                ),
                ..old(self)@
            }),
    {
        self.data.copy(dest, buf);
    }

    /// Starts a read of the bus address; the bus data flags an op-code read.
    pub fn peek(&mut self, bus: &Bus)
        ensures
            final(self)@ == ram_peek(old(self)@, bus@),
    {
        // "The CPU makes use of the page mode circuitry in its op-code reads.
        // All writes and all data reads are done in normal memory cycles."
        if bus.data() & RAM_PEEK_DATA_OPCODE != 0 && bus.addr() & 0xff00 == self.addr_r & 0xff00 {
            self.ticks_to_done = RAM_PAGE_READ_TICKS;
        } else {
            self.ticks_to_done = RAM_NORMAL_READ_TICKS;
        }
        self.addr_r = bus.addr();
        self.write = false;
    }

    /// Starts a write of the bus data to the bus address.
    pub fn poke(&mut self, bus: &Bus)
        ensures
            final(self)@ == ram_poke(old(self)@, bus@),
    {
        self.ticks_to_done = RAM_NORMAL_WRITE_TICKS;
        self.addr_r = bus.addr();
        self.write = true;
        self.data_r = bus.data();
    }

    /// Advances the access in progress by one tick.
    pub fn tick(&mut self, bus: &mut Bus)
        requires
            ram_wf(old(self)@),
        ensures
            final(self)@ == ram_tick(old(self)@),
            final(bus)@ == ram_tick_bus(old(self)@, old(bus)@),
    {
        if self.ticks_to_done == -1 {
        } else if self.ticks_to_done == 0 {
            if self.write {
                self.data.set(self.addr_r as usize, self.data_r);
                bus.set_status(BusStatus::PokeDone);
            } else {
                bus.set_data(self.data.get(self.addr_r as usize));
                bus.set_status(BusStatus::PeekDone);
            }
            self.ticks_to_done = -1;
        } else {
            self.ticks_to_done = self.ticks_to_done - 1;
        }
        self.ticks = self.ticks.wrapping_add(1);
    }

    /// The memory map control register.
    pub fn mmapctl(&self) -> (r: u8)
        requires
            ram_wf(self@),
        ensures
            r == self@.data[MMC_ADDR as int],
    {
        self.data.get(MMC_ADDR as usize)
    }

    /// Writes the memory map control register.
    pub fn set_mmapctl(&mut self, data: u8)
        requires
            ram_wf(old(self)@),
        ensures
            final(self)@ == (RamView { data: old(self)@.data.update(MMC_ADDR as int, data), ..old(self)@ }),
    {
        self.data.set(MMC_ADDR as usize, data);
    }

    /// Whether the access in progress is a write.
    pub fn write(&self) -> (r: bool)
        ensures
            r == self@.write,
    {
        self.write
    }

    /// The memory itself.
    pub fn data(&self) -> (r: &SharedMemory)
        ensures
            r@ == self@.data,
    {
        &self.data
    }
}

/// A write of the bus data to the bus address is stored, and reported done
/// on the bus, after five ticks.
pub proof fn lemma_poke_then_ticks(r: RamView, b: BusView, b2: BusView)
    requires
        ram_wf(r),
    ensures
        ({
            let p = ram_tick(ram_tick(ram_tick(ram_tick(ram_poke(r, b)))));
            &&& ram_tick(p).data[b.addr as int] == b.data
            &&& ram_tick(p).ticks_to_done == -1
            &&& ram_tick_bus(p, b2).status == BusStatus::PokeDone
        }),
{
}

/// A read of the bus address hands over the byte stored there, and is
/// reported done, after four ticks for an op-code read in the page of the
/// previous access, five otherwise.
pub proof fn lemma_peek_then_ticks(r: RamView, b: BusView, b2: BusView)
    requires
        ram_wf(r),
    ensures
        ({
            let p = ram_peek(r, b);
            let q = if page_mode_read(r, b) {
                ram_tick(ram_tick(ram_tick(p)))
            } else {
                ram_tick(ram_tick(ram_tick(ram_tick(p))))
            };
            &&& ram_tick_bus(q, b2).data == r.data[b.addr as int]
            &&& ram_tick_bus(q, b2).status == BusStatus::PeekDone
            &&& ram_tick(q).data == r.data
        }),
{
}

impl Default for Ram {
    fn default() -> (r: Self)
        ensures
            ram_wf(r@),
            r@.ticks_to_done == -1,
    {
        Ram::new()
    }
}

} // verus!
