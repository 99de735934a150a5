//! A byte buffer that backs the console's RAM.
use vstd::prelude::*;

verus! {

/// A growable buffer of bytes.
pub struct SharedMemory {
    data: Vec<u8>,
}

impl View for SharedMemory {
    type V = Seq<u8>;

    closed spec fn view(&self) -> Seq<u8> {
        self.data@
    }
}

impl SharedMemory {
    /// `len` bytes, each `fill_with`.
    pub fn new(len: usize, fill_with: u8) -> (r: Self)
        ensures
            r@ == Seq::new(len as nat, |i: int| fill_with),
    {
        let data = vec![fill_with; len];
        assert(data@ =~= Seq::new(len as nat, |i: int| fill_with));
        Self { data }
    }

    /// The buffer itself, for changing it in place.
    pub fn get_mut(&mut self) -> (r: &mut Self)
        ensures
            *r == *old(self),
            *final(self) == *final(r),
    {
        self
    }

    /// The number of bytes.
    pub fn len(&self) -> (r: usize)
        ensures
            r == self@.len(),
    {
        self.data.len()
    }

    /// The byte at `i`.
    pub fn get(&self, i: usize) -> (r: u8)
        requires
            i < self@.len(),
        ensures
            r == self@[i as int],
    {
        self.data[i]
    }

    /// Stores `v` at `i`.
    pub fn set(&mut self, i: usize, v: u8)
        requires
            i < old(self)@.len(),
        ensures
            final(self)@ == old(self)@.update(i as int, v),
    {
        self.data[i] = v;
    }

    /// Sets every byte to `v`.
    pub fn fill(&mut self, v: u8)
        ensures
            final(self)@ == Seq::new(old(self)@.len(), |i: int| v),
    {
        let n = self.data.len();
        let mut i: usize = 0;
        while i < n
            invariant
                n == old(self)@.len(),
                self@.len() == n,
                i <= n,
                forall|j: int| 0 <= j < i ==> self@[j] == v,
            decreases n - i,
        {
            self.data[i] = v;
            i = i + 1;
        }
        assert(self@ =~= Seq::new(old(self)@.len(), |i: int| v));
    }

    /// Copies `buf` into the buffer from `dest` on.
    pub fn copy(&mut self, dest: u16, buf: &[u8])
        requires
            dest + buf@.len() <= old(self)@.len(),
        ensures
            final(self)@ == old(self)@.subrange(0, dest as int) + buf@ + old(self)@.subrange(
                dest + buf@.len(),
                old(self)@.len() as int,
            ),
    {
        let d = dest as usize;
        let n = buf.len();
        let total = self.data.len();
        let mut i: usize = 0;
        while i < n
            invariant
                n == buf@.len(),
                total == old(self)@.len(),
                d == dest,
                d + n <= old(self)@.len(),
                self@.len() == old(self)@.len(),
                i <= n,
                forall|j: int| 0 <= j < d ==> self@[j] == old(self)@[j],
                forall|j: int| 0 <= j < i ==> self@[d + j] == buf@[j],
                forall|j: int| d + i <= j < self@.len() ==> self@[j] == old(self)@[j],
            decreases n - i,
        {
            self.data[d + i] = buf[i];
            i = i + 1;
        }
        assert(self@ =~= old(self)@.subrange(0, dest as int) + buf@ + old(self)@.subrange(
            dest + buf@.len(),
            old(self)@.len() as int,
        ));
    }

    /// The bytes, for reading.
    pub fn as_slice(&self) -> (r: &[u8])
        ensures
            r@ == self@,
    {
        self.data.as_slice()
    }
}

impl Default for SharedMemory {
    fn default() -> (r: Self)
        ensures
            r@.len() == 0,
    {
        SharedMemory::new(0, 0xFF)
    }
}

} // verus!
