//! The joypad: button states, the selection in the joypad register and the
//! joypad interrupt.
use vstd::prelude::*;

use super::interrupts::{InterruptTypes, INTERRUPT_FLAG_ADDRESS};
use crate::memory::law_write_keeps_other_addresses;
use super::{CpuView, CPU};
use crate::memory::MemoryView;
use crate::mmu::MemoryOperations;

verus! {

/// Address of the joypad register P1.
pub const JOYPAD_REGISTER: u16 = 0xFF00;

/// The buttons that the player holds down.
#[derive(Debug, PartialEq, Eq, Structural, Clone, Copy)]
pub struct PlayerInput {
    pub right: bool,
    pub left: bool,
    pub up: bool,
    pub down: bool,
    pub a: bool,
    pub b: bool,
    pub select: bool,
    pub start: bool,
}

/// The low nibble of the joypad register for four buttons: bit i is 0
/// while button i is held.
pub open spec fn button_nibble(b0: bool, b1: bool, b2: bool, b3: bool) -> u8 {
    ((if b0 { 0int } else { 1 }) + (if b1 { 0int } else { 2 }) + (if b2 { 0int } else { 4 }) + (if b3 { 0int } else { 8 })) as u8
}

/// The nibble of the direction buttons: right, left, up, down.
pub open spec fn direction_nibble(input: PlayerInput) -> u8 {
    button_nibble(input.right, input.left, input.up, input.down)
}

/// The nibble of the action buttons: A, B, select, start.
pub open spec fn action_nibble(input: PlayerInput) -> u8 {
    button_nibble(input.a, input.b, input.select, input.start)
}

/// Four active-low bits packed into a nibble.
proof fn lemma_nibble(x0: u8, x1: u8, x2: u8, x3: u8)
    requires
        x0 <= 1,
        x1 <= 1,
        x2 <= 1,
        x3 <= 1,
    ensures
        x0 | (x1 << 1u8) | (x2 << 2u8) | (x3 << 3u8) == x0 + 2 * x1 + 4 * x2 + 8 * x3,
{
    assert(x0 | (x1 << 1u8) | (x2 << 2u8) | (x3 << 3u8) == x0 + 2 * x1 + 4 * x2 + 8 * x3) by (bit_vector)
        requires
            x0 <= 1,
            x1 <= 1,
            x2 <= 1,
            x3 <= 1,
    ;
}

/// The nibble of four buttons, as the joypad register holds it.
fn buttons_to_nibble(b0: bool, b1: bool, b2: bool, b3: bool) -> (r: u8)
    ensures
        r == button_nibble(b0, b1, b2, b3),
{
    let x0: u8 = if b0 { 0 } else { 1 };
    let x1: u8 = if b1 { 0 } else { 1 };
    let x2: u8 = if b2 { 0 } else { 1 };
    let x3: u8 = if b3 { 0 } else { 1 };
    proof {
        lemma_nibble(x0, x1, x2, x3);
    }
    x0 | (x1 << 1) | (x2 << 2) | (x3 << 3)
}

impl CpuView {
    /// New button states: both nibbles are stored; the selected group (0x10
    /// in bits 5..4: action, 0x20: direction) goes into the joypad register,
    /// and a change of that group is reported and, unless the CPU is stopped
    /// (which it then leaves), requests the joypad interrupt.
    pub open spec fn op_update_key_input(self, input: PlayerInput) -> (CpuView, bool) {
        let action = self.mem.action_buttons;
        let direction = self.mem.direction_buttons;
        let new_action = action_nibble(input);
        let new_direction = direction_nibble(input);
        let stored = self.with_mem(MemoryView { action_buttons: new_action, direction_buttons: new_direction, ..self.mem });
        let selected = stored.read(JOYPAD_REGISTER) & 0x30;
        let (shown, changed) = if selected == 0x10 {
            (stored.with_mem(stored.mem.store(JOYPAD_REGISTER, selected | new_action)), action != new_action)
        } else if selected == 0x20 {
            (stored.with_mem(stored.mem.store(JOYPAD_REGISTER, selected | new_direction)), direction != new_direction)
        } else {
            (stored, false)
        };
        if changed {
            if shown.stop_mode {
                (CpuView { stop_mode: false, ..shown }, true)
            } else {
                (shown.op_set_interrupt_flag(InterruptTypes::Joypad), true)
            }
        } else {
            (shown, false)
        }
    }
}

impl CPU {
    /// Hand the player's buttons to the joypad; true if the selected group changed.
    pub fn update_key_input(&mut self, player_input: &PlayerInput) -> (r: bool)
        ensures
            final(self)@ == old(self)@.op_update_key_input(*player_input).0,
            r == old(self)@.op_update_key_input(*player_input).1,
    {
        // The previous button states
        let action = self.mmu.memory.action_buttons;
        let direction = self.mmu.memory.direction_buttons;
        let new_direction = buttons_to_nibble(player_input.right, player_input.left, player_input.up, player_input.down);
        let new_action = buttons_to_nibble(player_input.a, player_input.b, player_input.select, player_input.start);
        // Save the current button states
        self.mmu.memory.action_buttons = new_action;
        self.mmu.memory.direction_buttons = new_direction;
        let mut result = false;
        let selected = self.mmu.read_byte(JOYPAD_REGISTER) & 0x30;
        if selected == 0x10 {
            // Bit 5: action buttons
            result = action != new_action;
            self.mmu.write_controller_byte(selected | new_action);
        } else if selected == 0x20 {
            // Bit 4: direction buttons
            result = direction != new_direction;
            self.mmu.write_controller_byte(selected | new_direction);
        }
        // A change of the selected buttons requests the joypad interrupt
        if result {
            if self.stop_mode {
                self.stop_mode = false;
            } else {
                self.set_interrupt_flag(InterruptTypes::Joypad);
            }
        }
        result
    }

    /// Select the action buttons by clearing bit 5 of the joypad register.
    pub fn enable_buttons_debug(&mut self)
        ensures
            final(self)@ == old(self)@.with_mem(old(self)@.mem.store(JOYPAD_REGISTER, old(self)@.read(JOYPAD_REGISTER) & 0b1101_1111)),
    {
        let joypad = self.mmu.read_byte(JOYPAD_REGISTER) & 0b1101_1111;
        self.mmu.write_controller_byte(joypad);
    }
}

/// Whether a button shows as pressed in bit `bit` of a joypad nibble
/// (the lines are active low: a pressed button reads as 0).
pub open spec fn shows_pressed(register: u8, bit: u8) -> bool {
    (register >> bit) & 1 == 0
}

/// After the buttons are handed to the joypad, the joypad register shows
/// the selected group, active low, in bits 3..0: with 0x10 selected (bit 5
/// clear) A, B, select and start in bits 0 to 3, with 0x20 selected (bit 4
/// clear) right, left, up and down; the selection bits stay. The result
/// tells whether the shown group changed.
#[verifier::rlimit(40)]
pub proof fn law_joypad_shows_selected_buttons(s: CpuView, input: PlayerInput)
    requires
        s.mem.wf(),
    ensures
        ({
            let selected = s.read(JOYPAD_REGISTER) & 0x30;
            let (t, changed) = s.op_update_key_input(input);
            let shown = t.read(JOYPAD_REGISTER);
            &&& selected == 0x10 ==> shown & 0x30 == 0x10
                && shows_pressed(shown, 0) == input.a && shows_pressed(shown, 1) == input.b
                && shows_pressed(shown, 2) == input.select && shows_pressed(shown, 3) == input.start
            &&& selected == 0x20 ==> shown & 0x30 == 0x20
                && shows_pressed(shown, 0) == input.right && shows_pressed(shown, 1) == input.left
                && shows_pressed(shown, 2) == input.up && shows_pressed(shown, 3) == input.down
            &&& selected != 0x10 && selected != 0x20 ==> !changed
        }),
{
    let stored = s.with_mem(MemoryView { action_buttons: action_nibble(input), direction_buttons: direction_nibble(input), ..s.mem });
    assert(stored.read(JOYPAD_REGISTER) == s.read(JOYPAD_REGISTER));
    let selected = s.read(JOYPAD_REGISTER) & 0x30;
    if selected == 0x10 || selected == 0x20 {
        lemma_nibble_shows(selected, input.a, input.b, input.select, input.start);
        lemma_nibble_shows(selected, input.right, input.left, input.up, input.down);
    }
    let shown_mem = stored.mem.store(JOYPAD_REGISTER, selected | action_nibble(input));
    assert(shown_mem.read(JOYPAD_REGISTER) == selected | action_nibble(input));
    let shown_dir = stored.mem.store(JOYPAD_REGISTER, selected | direction_nibble(input));
    assert(shown_dir.read(JOYPAD_REGISTER) == selected | direction_nibble(input));
    let shown = stored.with_mem(shown_mem);
    let shown_d = stored.with_mem(shown_dir);
    let va = shown.read(INTERRUPT_FLAG_ADDRESS) | (1u8 << InterruptTypes::Joypad.spec_bit());
    let vd = shown_d.read(INTERRUPT_FLAG_ADDRESS) | (1u8 << InterruptTypes::Joypad.spec_bit());
    law_write_keeps_other_addresses(shown.mem, INTERRUPT_FLAG_ADDRESS, JOYPAD_REGISTER, va);
    law_write_keeps_other_addresses(shown_d.mem, INTERRUPT_FLAG_ADDRESS, JOYPAD_REGISTER, vd);
}

/// The bits of a selection and a packed active-low nibble.
proof fn lemma_nibble_shows(selected: u8, b0: bool, b1: bool, b2: bool, b3: bool)
    requires
        selected == 0x10 || selected == 0x20,
    ensures
        ({
            let v = selected | button_nibble(b0, b1, b2, b3);
            &&& v & 0x30 == selected
            &&& shows_pressed(v, 0) == b0 && shows_pressed(v, 1) == b1 && shows_pressed(v, 2) == b2 && shows_pressed(v, 3) == b3
        }),
{
    let x0: u8 = if b0 { 0 } else { 1 };
    let x1: u8 = if b1 { 0 } else { 1 };
    let x2: u8 = if b2 { 0 } else { 1 };
    let x3: u8 = if b3 { 0 } else { 1 };
    let n = button_nibble(b0, b1, b2, b3);
    assert(n == x0 + 2 * x1 + 4 * x2 + 8 * x3);
    let v = selected | n;
    assert(v & 0x30 == selected && (v >> 0u8) & 1 == x0 && (v >> 1u8) & 1 == x1 && (v >> 2u8) & 1 == x2 && (v >> 3u8) & 1 == x3)
        by (bit_vector)
        requires
            selected == 0x10 || selected == 0x20,
            x0 <= 1, x1 <= 1, x2 <= 1, x3 <= 1,
            n == x0 + 2 * x1 + 4 * x2 + 8 * x3,
            v == selected | n;
}

} // verus!
