//! The I/O registers (0xFF00 to 0xFF7F) with the side effects of the
//! divider, joypad and OAM DMA registers.
use vstd::prelude::*;

use super::{MemoryOperations, NonMbcOperations};

verus! {

/// Address of the divider register DIV.
pub const DIV_REGISTER: u16 = 0xFF04;

/// Address of the joypad register P1.
pub const JOYPAD_REGISTER: u16 = 0xFF00;

/// Address of the OAM DMA register.
pub const OAM_DMA_REGISTER: u16 = 0xFF46;

/// The I/O register block.
pub struct InputOutput {
    memory: Vec<u8>,
    offset: u16,
    pub action_buttons: u8,
    pub direction_buttons: u8,
    pub dma_requested: bool,
}

/// The mathematical model of an [`InputOutput`] block.
#[verifier::ext_equal]
pub struct InputOutputView {
    pub bytes: Seq<u8>,
    pub offset: u16,
    pub action_buttons: u8,
    pub direction_buttons: u8,
    pub dma_requested: bool,
}

impl View for InputOutput {
    type V = InputOutputView;

    closed spec fn view(&self) -> InputOutputView {
        InputOutputView {
            bytes: self.memory@,
            offset: self.offset,
            action_buttons: self.action_buttons,
            direction_buttons: self.direction_buttons,
            dma_requested: self.dma_requested,
        }
    }
}

/// The joypad register after a write of `value`: bits 5..4 select the
/// buttons; with 0x10 the action nibble and with 0x20 the direction nibble
/// shows, with both bits set 0x3F, and otherwise 0x0F.
pub open spec fn joypad_byte(value: u8, action_buttons: u8, direction_buttons: u8) -> u8 {
    let selection = value & 0x30;
    if selection == 0x30 {
        0x3F
    } else if selection == 0x10 {
        selection | action_buttons
    } else if selection == 0x20 {
        selection | direction_buttons
    } else {
        0x0F
    }
}

impl InputOutputView {
    /// Whether `address` lies within the block.
    pub open spec fn covers(self, address: u16) -> bool {
        self.offset <= address && address - self.offset < self.bytes.len()
    }

    /// The block with the byte of `address` replaced.
    pub open spec fn store(self, address: u16, value: u8) -> InputOutputView {
        InputOutputView { bytes: self.bytes.update(address - self.offset, value), ..self }
    }
}

impl InputOutput {
    /// A block of `size` zero bytes from `offset` on, no button pressed and
    /// no DMA request.
    pub fn new(size: usize, offset: u16) -> (r: InputOutput)
        ensures
            r@.bytes == Seq::new(size as nat, |i: int| 0u8),
            r@.offset == offset,
            r@.action_buttons == 0xF,
            r@.direction_buttons == 0xF,
            !r@.dma_requested,
    {
        let memory = vec![0u8; size];
        assert(memory@ =~= Seq::new(size as nat, |i: int| 0u8));
        InputOutput { memory, offset, action_buttons: 0xF, direction_buttons: 0xF, dma_requested: false }
    }

    /// Store a value into DIV, bypassing the reset that a CPU write causes.
    pub fn write_div_register(&mut self, value: u8)
        requires
            old(self)@.covers(DIV_REGISTER),
        ensures
            final(self)@ == old(self)@.store(DIV_REGISTER, value),
    {
        let addr = self.calc_physical_address(DIV_REGISTER);
        self.memory.set(addr, value);
    }

    /// Store the controller inputs into the joypad register.
    pub fn write_controller_byte(&mut self, value: u8)
        requires
            old(self)@.covers(JOYPAD_REGISTER),
        ensures
            final(self)@ == old(self)@.store(JOYPAD_REGISTER, value),
    {
        let addr = self.calc_physical_address(JOYPAD_REGISTER);
        self.memory.set(addr, value);
    }

    /// The index of `address` in the block.
    fn calc_physical_address(&self, address: u16) -> (r: usize)
        requires
            self@.offset <= address,
        ensures
            r == address - self@.offset,
    {
        (address - self.offset) as usize
    }

    /// Whether a write to the DMA register requested an OAM transfer.
    pub fn is_dma_requested(&self) -> (r: bool)
        ensures
            r == self@.dma_requested,
    {
        self.dma_requested
    }

    /// Acknowledge the OAM DMA request.
    pub fn reset_dma_request(&mut self)
        ensures
            final(self)@ == (InputOutputView { dma_requested: false, ..old(self)@ }),
    {
        self.dma_requested = false;
    }
}

impl MemoryOperations for InputOutput {
    open spec fn readable(&self, address: u16) -> bool {
        self@.covers(address)
    }

    open spec fn writable(&self, address: u16) -> bool {
        self@.covers(address)
    }

    open spec fn byte_at(&self, address: u16) -> u8 {
        self@.bytes[address - self@.offset]
    }

    fn read_byte(&self, address: u16) -> (r: u8) {
        let address = self.calc_physical_address(address);
        self.memory[address]
    }

    /// A write: DIV is reset to 0, the joypad register takes the selected
    /// buttons, a write to the DMA register requests a transfer, and any
    /// other register takes the value.
    fn write_byte(&mut self, address: u16, value: u8)
        ensures
            final(self)@ == (if address == DIV_REGISTER {
                old(self)@.store(address, 0)
            } else if address == JOYPAD_REGISTER {
                old(self)@.store(address, joypad_byte(value, old(self)@.action_buttons, old(self)@.direction_buttons))
            } else if address == OAM_DMA_REGISTER {
                InputOutputView { dma_requested: true, ..old(self)@.store(address, value) }
            } else {
                old(self)@.store(address, value)
            }),
    {
        let physical_address = self.calc_physical_address(address);
        match address {
            DIV_REGISTER => self.memory.set(physical_address, 0),
            JOYPAD_REGISTER => {
                let mut buttons: u8 = 0xF;
                let value = value & 0x30;
                if value == 0x30 {
                    // Neither group selected
                    proof {
                        assert(0xFu8 | 0x30u8 == 0x3F) by (bit_vector);
                    }
                    buttons |= value;
                } else if value == 0x10 {
                    // Bit 5: action buttons
                    buttons = value | self.action_buttons;
                } else if value == 0x20 {
                    // Bit 4: direction buttons
                    buttons = value | self.direction_buttons;
                }
                self.memory.set(physical_address, buttons);
            },
            OAM_DMA_REGISTER => {
                self.dma_requested = true;
                self.memory.set(physical_address, value);
            },
            _ => self.memory.set(physical_address, value),
        }
    }
}

impl NonMbcOperations for InputOutput {
    /// The slice must have the length of the block.
    open spec fn fill_accepts(&self, len: nat) -> bool {
        len == self@.bytes.len()
    }

    /// Copy the slice into the block.
    fn fill_from_slice(&mut self, data: &[u8])
        ensures
            final(self)@ == (InputOutputView { bytes: data@, ..old(self)@ }),
    {
        let mut i: usize = 0;
        while i < data.len()
            invariant
                self.memory@.len() == data@.len(),
                i <= data@.len(),
                self.offset == old(self).offset,
                self.action_buttons == old(self).action_buttons,
                self.direction_buttons == old(self).direction_buttons,
                self.dma_requested == old(self).dma_requested,
                forall|j: int| 0 <= j < i ==> #[trigger] self.memory@[j] == data@[j],
            decreases data@.len() - i,
        {
            self.memory.set(i, data[i]);
            i = i + 1;
        }
        assert(self.memory@ =~= data@);
    }
}

} // verus!
