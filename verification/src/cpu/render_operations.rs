//! What the picture processing unit reads through the CPU's bus: the LCD
//! control and status registers, tile data, tile maps and sprite attributes.
use vstd::prelude::*;

use super::interrupts::LCDY_ADDRESS;
use super::CPU;
use crate::bits::{lemma_bit_test, lemma_low_bit};
use crate::mmu::MemoryOperations;

verus! {

/// Address of the LCD control register LCDC.
pub const LCDC_ADDRESS: u16 = 0xFF40;

/// Address of the background scroll Y register.
pub const SCY_ADDRESS: u16 = 0xFF42;

/// Address of the background scroll X register.
pub const SCX_ADDRESS: u16 = 0xFF43;

/// Address of the window Y position WY.
pub const WY_ADDRESS: u16 = 0xFF4A;

/// Address of the window X position WX (plus 7).
pub const WX_ADDRESS: u16 = 0xFF4B;

/// Address of the object attribute memory.
pub const OAM_ADDRESS: u16 = 0xFE00;

/// Bytes per sprite in the object attribute memory.
pub const SPRITE_SIZE: u16 = 4;

/// A sprite's attributes as stored in the object attribute memory.
#[derive(Debug, PartialEq, Eq, Structural, Clone, Copy)]
pub struct Sprite {
    pub y_pos: i32,
    pub x_pos: i32,
    pub tile_idx: u16,
    pub prio_bg: bool,
    pub y_flip: bool,
    pub x_flip: bool,
    pub high_palette: bool,
}

/// Whether bit `bit` of `value` is set.
pub open spec fn bit_set(value: u8, bit: u8) -> bool {
    (value >> bit) & 1 == 1
}

/// The address of line `tile_line` of tile `tile_index`: tiles of 16 bytes
/// from 0x8000 on; with the high addressing mode, tiles below 0x80 are
/// taken from the block at 0x9000 instead.
pub open spec fn tile_line_address(high_addressing: bool, tile_index: u16, tile_line: u8) -> int {
    0x8000 + tile_line * 2 + 16 * tile_index + if high_addressing && tile_index < 0x80 { 0x1000int } else { 0int }
}

/// The address of entry `map_index` of the tile map at 0x9C00 (high) or
/// 0x9800, wrapping around past 0xFFFF.
pub open spec fn tile_map_address(high_map: bool, map_index: u16) -> u16 {
    (((if high_map { 0x9C00int } else { 0x9800int }) + map_index) % 0x10000) as u16
}

/// The colour number of pixel `i` (counted from the right) of a tile line
/// with low bit plane `lo` and high bit plane `hi`.
pub open spec fn tile_pixel(lo: u8, hi: u8, i: int) -> u8 {
    (((lo >> (i as u8)) & 1) + ((hi >> (i as u8)) & 1) * 2) as u8
}

/// The eight colour numbers of a tile line, leftmost first.
pub open spec fn tile_line_pixels(lo: u8, hi: u8) -> Seq<u8> {
    Seq::new(8, |j: int| tile_pixel(lo, hi, 7 - j))
}

/// The sprite described by the four attribute bytes of an OAM entry.
pub open spec fn sprite_of(y: u8, x: u8, tile: u8, attributes: u8) -> Sprite {
    Sprite {
        y_pos: y as i32,
        x_pos: x as i32,
        tile_idx: tile as u16,
        prio_bg: bit_set(attributes, 7),
        y_flip: bit_set(attributes, 6),
        x_flip: bit_set(attributes, 5),
        high_palette: bit_set(attributes, 4),
    }
}

impl CPU {
    /// LCDC bit 7: the LCD and PPU are on.
    pub fn get_lcdc_ppu_enabled(&self) -> (r: bool)
        ensures
            r == bit_set(self@.read(LCDC_ADDRESS), 7),
    {
        let lcdc = self.mmu.read_byte(LCDC_ADDRESS);
        proof {
            lemma_bit_test(lcdc, 7);
        }
        lcdc & (1 << 7) == (1 << 7)
    }

    /// LCDC bit 6: the window uses the tile map at 0x9C00.
    pub fn get_lcdc_window_tile_map_high(&self) -> (r: bool)
        ensures
            r == bit_set(self@.read(LCDC_ADDRESS), 6),
    {
        let lcdc = self.mmu.read_byte(LCDC_ADDRESS);
        proof {
            lemma_bit_test(lcdc, 6);
        }
        lcdc & (1 << 6) == (1 << 6)
    }

    /// LCDC bit 5: the window is shown.
    pub fn get_lcdc_window_enable(&self) -> (r: bool)
        ensures
            r == bit_set(self@.read(LCDC_ADDRESS), 5),
    {
        let lcdc = self.mmu.read_byte(LCDC_ADDRESS);
        proof {
            lemma_bit_test(lcdc, 5);
        }
        lcdc & (1 << 5) == (1 << 5)
    }

    /// LCDC bit 4: background and window tiles use the 0x8000 addressing.
    pub fn get_lcdc_bg_window_tile_data(&self) -> (r: bool)
        ensures
            r == bit_set(self@.read(LCDC_ADDRESS), 4),
    {
        let lcdc = self.mmu.read_byte(LCDC_ADDRESS);
        proof {
            lemma_bit_test(lcdc, 4);
        }
        lcdc & (1 << 4) == (1 << 4)
    }

    /// LCDC bit 3: the background uses the tile map at 0x9C00.
    pub fn get_lcdc_bg_tile_map(&self) -> (r: bool)
        ensures
            r == bit_set(self@.read(LCDC_ADDRESS), 3),
    {
        let lcdc = self.mmu.read_byte(LCDC_ADDRESS);
        proof {
            lemma_bit_test(lcdc, 3);
        }
        lcdc & (1 << 3) == (1 << 3)
    }

    /// LCDC bit 2: sprites are 8x16 pixels.
    pub fn get_lcdc_obj_size(&self) -> (r: bool)
        ensures
            r == bit_set(self@.read(LCDC_ADDRESS), 2),
    {
        let lcdc = self.mmu.read_byte(LCDC_ADDRESS);
        proof {
            lemma_bit_test(lcdc, 2);
        }
        lcdc & (1 << 2) == (1 << 2)
    }

    /// LCDC bit 1: sprites are shown.
    pub fn get_lcdc_obj_enable(&self) -> (r: bool)
        ensures
            r == bit_set(self@.read(LCDC_ADDRESS), 1),
    {
        let lcdc = self.mmu.read_byte(LCDC_ADDRESS);
        proof {
            lemma_bit_test(lcdc, 1);
        }
        lcdc & (1 << 1) == (1 << 1)
    }

    /// LCDC bit 0: background and window are shown.
    pub fn get_lcdc_bg_window_enable(&self) -> (r: bool)
        ensures
            r == bit_set(self@.read(LCDC_ADDRESS), 0),
    {
        let lcdc = self.mmu.read_byte(LCDC_ADDRESS);
        proof {
            lemma_bit_test(lcdc, 0);
            assert(1u8 << 0u8 == 1u8) by (bit_vector);
        }
        lcdc & 1 == 1
    }

    /// The LCD Y coordinate LY.
    pub fn get_lcd_y_coordinate(&mut self) -> (r: u8)
        ensures
            final(self)@ == old(self)@,
            r == old(self)@.read(LCDY_ADDRESS),
    {
        self.mmu.read_byte(LCDY_ADDRESS)
    }

    /// The background scroll Y.
    pub fn get_lcd_scy(&mut self) -> (r: u8)
        ensures
            final(self)@ == old(self)@,
            r == old(self)@.read(SCY_ADDRESS),
    {
        self.mmu.read_byte(SCY_ADDRESS)
    }

    /// The background scroll X.
    pub fn get_lcd_scx(&mut self) -> (r: u8)
        ensures
            final(self)@ == old(self)@,
            r == old(self)@.read(SCX_ADDRESS),
    {
        self.mmu.read_byte(SCX_ADDRESS)
    }

    /// The eight colour numbers of line `tile_line` of a tile, leftmost first.
    pub fn get_vram_tile_line(&self, high_addressing: bool, tile_index: u16, tile_line: u8) -> (r: [u8; 8])
        requires
            tile_line < 128,
            0x8000 + tile_line * 2 + 16 * tile_index < 0xFFFF,
        ensures
            r@ == tile_line_pixels(
                self@.read(tile_line_address(high_addressing, tile_index, tile_line) as u16),
                self@.read((tile_line_address(high_addressing, tile_index, tile_line) + 1) as u16),
            ),
    {
        let mut line_data: [u8; 8] = [0; 8];
        let mut line_addr: u16 = 0x8000 + (tile_line * 2) as u16 + 16 * tile_index;
        if high_addressing && tile_index < 0x80 {
            line_addr += 0x1000;
        }
        let lo = self.mmu.read_byte(line_addr);
        let hi = self.mmu.read_byte(line_addr + 1);
        for i in 0..8
            invariant
                line_data@.len() == 8,
                forall|k: int| 0 <= k < i ==> #[trigger] line_data@[7 - k] == tile_pixel(lo, hi, k),
        {
            proof {
                assert(((lo >> (i as u8)) & 1) <= 1 && ((hi >> (i as u8)) & 1) <= 1) by (bit_vector);
            }
            line_data[7 - i] = ((lo >> (i as u8)) & 1) + (((hi >> (i as u8)) & 1) * 2);
        }
        assert(line_data@ =~= tile_line_pixels(lo, hi)) by {
            assert forall|j: int| 0 <= j < 8 implies line_data@[j] == tile_line_pixels(lo, hi)[j] by {
                assert(line_data@[7 - (7 - j)] == tile_pixel(lo, hi, 7 - j));
            }
        }
        line_data
    }

    /// The tile number at `map_index` of the tile map at 0x9C00 (high) or
    /// 0x9800; the address wraps around past 0xFFFF.
    pub fn get_vram_tile_map_entry(&self, high_map: bool, map_index: u16) -> (r: u8)
        ensures
            r == self@.read(tile_map_address(high_map, map_index)),
    {
        let base: u16 = if high_map { 0x9C00 } else { 0x9800 };
        self.mmu.read_byte(base.wrapping_add(map_index))
    }

    /// The window Y position WY.
    pub fn get_window_wy(&mut self) -> (r: u8)
        ensures
            final(self)@ == old(self)@,
            r == old(self)@.read(WY_ADDRESS),
    {
        self.mmu.read_byte(WY_ADDRESS)
    }

    /// The window X position plus 7, WX.
    pub fn get_window_wx(&mut self) -> (r: u8)
        ensures
            final(self)@ == old(self)@,
            r == old(self)@.read(WX_ADDRESS),
    {
        self.mmu.read_byte(WX_ADDRESS)
    }

    /// The attributes of sprite `index`.
    pub fn get_oam_entry(&self, index: u8) -> (r: Sprite)
        requires
            index < 128,
        ensures
            r == sprite_of(
                self@.read((OAM_ADDRESS + index * SPRITE_SIZE) as u16),
                self@.read((OAM_ADDRESS + index * SPRITE_SIZE + 1) as u16),
                self@.read((OAM_ADDRESS + index * SPRITE_SIZE + 2) as u16),
                self@.read((OAM_ADDRESS + index * SPRITE_SIZE + 3) as u16),
            ),
    {
        let entry_base_addr = OAM_ADDRESS + index as u16 * SPRITE_SIZE;
        let attribute_byte = self.mmu.read_byte(entry_base_addr + 3);
        Sprite {
            y_pos: self.mmu.read_byte(entry_base_addr) as i32,
            x_pos: self.mmu.read_byte(entry_base_addr + 1) as i32,
            tile_idx: self.mmu.read_byte(entry_base_addr + 2) as u16,
            prio_bg: (attribute_byte >> 7) & 1 == 1,
            y_flip: (attribute_byte >> 6) & 1 == 1,
            x_flip: (attribute_byte >> 5) & 1 == 1,
            high_palette: (attribute_byte >> 4) & 1 == 1,
        }
    }
}

/// Every pixel of a tile line is a colour number from 0 to 3.
pub proof fn law_tile_pixels_are_colours(lo: u8, hi: u8)
    ensures
        forall|j: int| 0 <= j < 8 ==> #[trigger] tile_line_pixels(lo, hi)[j] < 4,
{
    assert forall|j: int| 0 <= j < 8 implies #[trigger] tile_line_pixels(lo, hi)[j] < 4 by {
        let i = (7 - j) as u8;
        lemma_low_bit(lo >> i);
        lemma_low_bit(hi >> i);
    }
}

} // verus!
