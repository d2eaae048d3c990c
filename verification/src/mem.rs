//! The system memory the DMA engine reads and writes.
//!
//! Buffers, staging areas, and peripheral data registers all live at plain
//! addresses inside a [`Memory`] value, so a transfer's effect can be stated
//! byte for byte over `Memory@`.

use vstd::prelude::*;

verus! {

/// A flat byte-addressed memory. The view `self@` is the byte sequence.
pub struct Memory {
    bytes: Vec<u8>,
    next_free: usize,
}

impl Memory {
    pub closed spec fn view(&self) -> Seq<u8> {
        self.bytes@
    }

    /// The lowest address not yet handed out by [`Memory::reserve`].
    pub closed spec fn reserved(&self) -> int {
        self.next_free as int
    }

    /// Create a memory of `size` bytes, all zero.
    pub fn new(size: usize) -> (r: Memory)
        ensures
            r@.len() == size,
            forall|i: int| 0 <= i < size ==> r@[i] == 0u8,
            r.reserved() == 0,
    {
        let mut bytes: Vec<u8> = Vec::new();
        let mut i: usize = 0;
        while i < size
            invariant
                i <= size,
                bytes@.len() == i,
                forall|j: int| 0 <= j < i ==> bytes@[j] == 0u8,
            decreases size - i,
        {
            bytes.push(0u8);
            i = i + 1;
        }
        Memory { bytes, next_free: 0 }
    }

    /// Number of addressable bytes.
    pub fn len(&self) -> (n: usize)
        ensures
            n == self@.len(),
    {
        self.bytes.len()
    }

    /// Read the byte at `addr`.
    pub fn read_byte(&self, addr: usize) -> (b: u8)
        requires
            addr < self@.len(),
        ensures
            b == self@[addr as int],
    {
        self.bytes[addr]
    }

    /// Write `b` at `addr`.
    pub fn write_byte(&mut self, addr: usize, b: u8)
        requires
            addr < old(self)@.len(),
        ensures
            final(self)@ == old(self)@.update(addr as int, b),
            final(self).reserved() == old(self).reserved(),
    {
        self.bytes.set(addr, b);
    }

    /// Read `len` bytes starting at `addr`.
    pub fn read_bytes(&self, addr: usize, len: usize) -> (r: Vec<u8>)
        requires
            addr + len <= self@.len(),
        ensures
            r@ == self@.subrange(addr as int, addr + len),
    {
        let n = self.bytes.len();
        let mut r: Vec<u8> = Vec::new();
        let mut i: usize = 0;
        while i < len
            invariant
                i <= len,
                addr + len <= n <= usize::MAX,
                n == self@.len(),
                r@ =~= self@.subrange(addr as int, addr + i),
            decreases len - i,
        {
            r.push(self.bytes[addr + i]);
            i = i + 1;
        }
        assert(r@ =~= self@.subrange(addr as int, addr + len));
        r
    }

    /// Write all of `data` starting at `addr`.
    pub fn write_bytes(&mut self, addr: usize, data: &Vec<u8>)
        requires
            addr + data@.len() <= old(self)@.len(),
        ensures
            final(self)@.len() == old(self)@.len(),
            forall|i: int|
                addr <= i < addr + data@.len() ==> final(self)@[i] == data@[i - addr],
            forall|i: int|
                0 <= i < old(self)@.len() && !(addr <= i < addr + data@.len())
                    ==> final(self)@[i] == old(self)@[i],
            final(self).reserved() == old(self).reserved(),
    {
        let n = self.bytes.len();
        let mut i: usize = 0;
        while i < data.len()
            invariant
                i <= data@.len(),
                addr + data@.len() <= n <= usize::MAX,
                n == self@.len(),
                self@.len() == old(self)@.len(),
                forall|j: int| addr <= j < addr + i ==> self@[j] == data@[j - addr],
                forall|j: int|
                    0 <= j < old(self)@.len() && !(addr <= j < addr + i)
                        ==> self@[j] == old(self)@[j],
                self.reserved() == old(self).reserved(),
            decreases data@.len() - i,
        {
            self.bytes.set(addr + i, data[i]);
            i = i + 1;
        }
    }

    /// The lowest address not yet handed out by [`Memory::reserve`].
    pub fn reserved_mark(&self) -> (r: usize)
        ensures
            r == self.reserved(),
    {
        self.next_free
    }

    /// Hand out an unused region of `len` bytes, advancing the reservation
    /// mark; returns its starting address, or `None` when memory is exhausted.
    pub fn reserve(&mut self, len: usize) -> (r: Option<usize>)
        ensures
            final(self)@ == old(self)@,
            old(self).reserved() + len <= old(self)@.len() ==> r is Some,
            match r {
                Some(addr) => {
                    &&& addr == old(self).reserved()
                    &&& addr + len <= final(self)@.len()
                    &&& final(self).reserved() == addr + len
                },
                None => final(self).reserved() == old(self).reserved(),
            },
    {
        if self.next_free <= self.bytes.len() && len <= self.bytes.len() - self.next_free {
            let addr = self.next_free;
            self.next_free = self.next_free + len;
            Some(addr)
        } else {
            None
        }
    }
}

} // verus!
