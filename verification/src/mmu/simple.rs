//! A plain memory region: a block of bytes mapped from an offset on,
//! optionally read-only.
use vstd::prelude::*;

use super::{MemoryOperations, NonMbcOperations};

verus! {

/// A block of bytes that answers the addresses from `offset` on.
pub struct SimpleRegion {
    memory: Vec<u8>,
    writeable: bool,
    offset: u16,
}

/// The mathematical model of a [`SimpleRegion`].
#[verifier::ext_equal]
pub struct SimpleRegionView {
    pub bytes: Seq<u8>,
    pub writeable: bool,
    pub offset: u16,
}

impl View for SimpleRegion {
    type V = SimpleRegionView;

    closed spec fn view(&self) -> SimpleRegionView {
        SimpleRegionView { bytes: self.memory@, writeable: self.writeable, offset: self.offset }
    }
}

impl SimpleRegion {
    /// A region of `size` zero bytes from `offset` on.
    pub fn new(size: usize, writeable: bool, offset: u16) -> (r: SimpleRegion)
        ensures
            r@.bytes == Seq::new(size as nat, |i: int| 0u8),
            r@.writeable == writeable,
            r@.offset == offset,
    {
        let memory = vec![0u8; size];
        assert(memory@ =~= Seq::new(size as nat, |i: int| 0u8));
        SimpleRegion { memory, writeable, offset }
    }
}

impl MemoryOperations for SimpleRegion {
    /// Readable: the address lies within the block.
    open spec fn readable(&self, address: u16) -> bool {
        self@.offset <= address && address - self@.offset < self@.bytes.len()
    }

    /// Writable: the address is not below the block, passes the bounds
    /// check against the block length (as a 16-bit number), and, for a
    /// writeable region, lies within the block.
    open spec fn writable(&self, address: u16) -> bool {
        &&& self@.offset <= address
        &&& address - self@.offset <= (self@.bytes.len() as u16)
        &&& self@.writeable ==> address - self@.offset < self@.bytes.len()
    }

    open spec fn byte_at(&self, address: u16) -> u8 {
        self@.bytes[address - self@.offset]
    }

    fn read_byte(&self, address: u16) -> (r: u8) {
        let physical_address = address - self.offset;
        self.memory[physical_address as usize]
    }

    /// A write stores the byte in a writeable region and is ignored in a
    /// read-only one.
    fn write_byte(&mut self, address: u16, value: u8)
        ensures
            final(self)@ == (if old(self)@.writeable {
                SimpleRegionView { bytes: old(self)@.bytes.update(address - old(self)@.offset, value), ..old(self)@ }
            } else {
                old(self)@
            }),
    {
        let physical_address = address - self.offset;
        if self.writeable {
            self.memory.set(physical_address as usize, value);
        }
    }
}

impl NonMbcOperations for SimpleRegion {
    /// The slice must have the length of the block.
    open spec fn fill_accepts(&self, len: nat) -> bool {
        len == self@.bytes.len()
    }

    /// Copy the slice into the block.
    fn fill_from_slice(&mut self, data: &[u8])
        ensures
            final(self)@ == (SimpleRegionView { bytes: data@, ..old(self)@ }),
    {
        let mut i: usize = 0;
        while i < data.len()
            invariant
                self.memory@.len() == data@.len(),
                i <= data@.len(),
                self.writeable == old(self).writeable,
                self.offset == old(self).offset,
                forall|j: int| 0 <= j < i ==> #[trigger] self.memory@[j] == data@[j],
            decreases data@.len() - i,
        {
            self.memory.set(i, data[i]);
            i = i + 1;
        }
        assert(self.memory@ =~= data@);
    }
}

} // verus!
