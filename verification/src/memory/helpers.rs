//! Queries on the whole memory.
use vstd::prelude::*;

use super::{Memory, MemoryView};

verus! {

impl Memory {
    /// Whether the boot ROM still overlays the lowest addresses.
    pub fn is_boot_rom_enabled(&self) -> (r: bool)
        ensures
            r == self.boot_rom_enabled,
    {
        self.boot_rom_enabled
    }

    /// A copy of the whole backing store (expensive; meant for tests).
    pub fn return_full_memory(&self) -> (r: [u8; 0x10000])
        ensures
            r@ == self.memory@,
    {
        self.memory
    }

    /// Copy `data` into the backing store from `offset` on (this is how a
    /// file is loaded into memory).
    pub fn load_at(&mut self, data: &[u8], offset: usize)
        requires
            offset + data@.len() <= 0x10000,
        ensures
            final(self)@ == (MemoryView {
                bytes: Seq::new(0x10000, |i: int| if offset <= i < offset + data@.len() {
                    data@[i - offset]
                } else {
                    old(self)@.bytes[i]
                }),
                ..old(self)@
            }),
    {
        let mut i: usize = 0;
        while i < data.len()
            invariant
                offset + data@.len() <= 0x10000,
                i <= data@.len(),
                self.boot_rom@ == old(self).boot_rom@,
                self.boot_rom_enabled == old(self).boot_rom_enabled,
                self.dma_requested == old(self).dma_requested,
                self.direction_buttons == old(self).direction_buttons,
                self.action_buttons == old(self).action_buttons,
                forall|j: int| 0 <= j < 0x10000 ==> #[trigger] self.memory@[j] == if offset <= j < offset + i {
                    data@[j - offset]
                } else {
                    old(self).memory@[j]
                },
            decreases data@.len() - i,
        {
            self.memory[offset + i] = data[i];
            i = i + 1;
        }
        assert(self.memory@ =~= Seq::new(0x10000, |k: int| if offset <= k < offset + data@.len() {
            data@[k - offset]
        } else {
            old(self).memory@[k]
        }));
    }
}

} // verus!
