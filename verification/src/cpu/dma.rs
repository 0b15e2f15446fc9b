//! The OAM DMA circuit: one byte per call from the page named by the DMA
//! register into the object attribute memory.
use vstd::prelude::*;

use super::{CpuView, CPU};
use crate::memory::{law_read_after_write, law_write_keeps_other_addresses};
use crate::mmu::MemoryOperations;

verus! {

/// Address of the DMA register.
pub const DMA_REGISTER_ADDR: u16 = 0xFF46;

/// Address of the object attribute memory.
pub const OAM_BASE: u16 = 0xFE00;

/// Number of bytes in the object attribute memory, and so in one transfer.
pub const OAM_SIZE: u8 = 0xA0;

impl CpuView {
    /// One DMA step: nothing while no transfer runs; otherwise the byte at
    /// (DMA register * 256 + offset) is copied to 0xFE00 + offset, and the
    /// offset advances, the transfer ending after offset 0x9F (or any later one): OAM holds
    /// 0xA0 bytes.
    pub open spec fn op_dma_routine(self) -> CpuView {
        if !self.dma_active {
            self
        } else {
            let offset = self.dma_current_offset;
            let source = (self.read(DMA_REGISTER_ADDR) * 256 + offset) as u16;
            let copied = self.write((OAM_BASE + offset) as u16, self.read(source));
            if offset >= OAM_SIZE - 1 {
                CpuView { dma_active: false, dma_current_offset: 0, ..copied }
            } else {
                CpuView { dma_current_offset: (offset + 1) as u8, ..copied }
            }
        }
    }
}

impl CPU {
    /// Run one step of a pending OAM DMA transfer.
    /// See: https://gbdev.io/pandocs/OAM_DMA_Transfer.html
    pub fn dma_routine(&mut self)
        ensures
            final(self)@ == old(self)@.op_dma_routine(),
    {
        if !self.dma_active {
            return;
        }
        let high = self.mmu.read_byte(DMA_REGISTER_ADDR) as u16;
        proof {
            assert(high * 256 <= 0xFF00);
            assert(high << 8 == high * 256) by (bit_vector)
                requires
                    high < 256;
        }
        let dma_base = high << 8;
        let source_addr = dma_base + self.dma_current_offset as u16;
        let target_addr = OAM_BASE + self.dma_current_offset as u16;
        let value = self.mmu.read_byte(source_addr);
        self.mmu.write_byte(target_addr, value);
        // The transfer ends after the last byte of OAM
        if self.dma_current_offset >= OAM_SIZE - 1 {
            self.dma_active = false;
            self.dma_current_offset = 0;
        } else {
            self.dma_current_offset = self.dma_current_offset + 1;
        }
    }
}

/// The state after `n` DMA steps.
pub open spec fn dma_steps(s: CpuView, n: nat) -> CpuView
    decreases n,
{
    if n == 0 {
        s
    } else {
        dma_steps(s, (n - 1) as nat).op_dma_routine()
    }
}

/// The source address of byte `i` of a transfer from `page`.
pub open spec fn dma_source(page: u8, i: int) -> u16 {
    (page * 256 + i) as u16
}

/// After `k` steps of a transfer started at offset 0, the first `k` bytes
/// of OAM hold the source bytes and every other address is unchanged.
proof fn lemma_dma_progress(s: CpuView, k: nat)
    requires
        s.mem.wf(),
        s.dma_active,
        s.dma_current_offset == 0,
        k <= 160,
    ensures
        ({
            let t = dma_steps(s, k);
            &&& k < 160 ==> t.dma_active && t.dma_current_offset == k
            &&& k == 160 ==> !t.dma_active && t.dma_current_offset == 0
            &&& t.mem.wf()
            &&& t.mem.boot_rom_enabled == s.mem.boot_rom_enabled
            &&& t.mem.boot_rom == s.mem.boot_rom
            &&& forall|a: u16| !(0xFE00 <= a < 0xFE00 + k) ==> #[trigger] t.read(a) == s.read(a)
            &&& forall|i: int| 0 <= i < k ==> #[trigger] t.read((0xFE00 + i) as u16) == s.read(dma_source(s.read(DMA_REGISTER_ADDR), i))
        }),
    decreases k,
{
    if k > 0 {
        let j = (k - 1) as nat;
        lemma_dma_progress(s, j);
        let t = dma_steps(s, j);
        let page = s.read(DMA_REGISTER_ADDR);
        assert(t.read(DMA_REGISTER_ADDR) == page);
        let target = (OAM_BASE + j) as u16;
        let source = dma_source(page, j as int);
        assert(source == (t.read(DMA_REGISTER_ADDR) * 256 + t.dma_current_offset) as u16);
        assert(t.read(source) == s.read(source));
        law_read_after_write(t.mem, target, t.read(source));
        assert forall|a: u16| a != target implies #[trigger] t.mem.write(target, t.read(source)).read(a) == t.read(a) by {
            law_write_keeps_other_addresses(t.mem, target, a, t.read(source));
        }
        let u = dma_steps(s, k);
        assert(u.mem == t.mem.write(target, t.read(source)));
        assert forall|i: int| 0 <= i < k implies #[trigger] u.read((0xFE00 + i) as u16) == s.read(dma_source(page, i)) by {
            if i < j {
                assert((0xFE00 + i) as u16 != target);
            }
        }
    }
}

/// A whole OAM DMA transfer: started at offset 0, 160 steps copy the first
/// 0xA0 bytes of the page named by the DMA register into OAM (0xFE00 to
/// 0xFE9F) and end the transfer; no other address changes.
pub proof fn law_dma_transfer(s: CpuView)
    requires
        s.mem.wf(),
        s.dma_active,
        s.dma_current_offset == 0,
    ensures
        !dma_steps(s, 160).dma_active,
        dma_steps(s, 160).dma_current_offset == 0,
        forall|i: int| 0 <= i < 160 ==> #[trigger] dma_steps(s, 160).read((0xFE00 + i) as u16) == s.read(dma_source(s.read(DMA_REGISTER_ADDR), i)),
        forall|a: u16| !(0xFE00 <= a <= 0xFE9F) ==> #[trigger] dma_steps(s, 160).read(a) == s.read(a),
{
    lemma_dma_progress(s, 160);
}

} // verus!
