//! The scanline renderer: the background, window and sprite pixels of the
//! current line, and the PPU's mode state machine.
use vstd::prelude::*;

use crate::cpu::interrupts::{InterruptTypes, INTERRUPT_FLAG_ADDRESS, LCDY_ADDRESS, LYC_ADDRESS, PpuMode, STAT_ADDRESS};
use crate::memory::{law_read_after_write, law_write_keeps_other_addresses};
use crate::cpu::render_operations::{
    bit_set, law_tile_pixels_are_colours, sprite_of, tile_line_address, tile_pixel, tile_line_pixels, tile_map_address, Sprite, LCDC_ADDRESS, OAM_ADDRESS,
    SCX_ADDRESS, SCY_ADDRESS, WX_ADDRESS, WY_ADDRESS,
};
use crate::cpu::{CpuView, CPU};

verus! {

/// Background tiles fetched per line (20 on screen plus one for scrolling).
pub const TILES_PER_LINE: u16 = 21;

/// The LCD control register.
pub open spec fn lcdc(s: CpuView) -> u8 {
    s.read(LCDC_ADDRESS)
}

/// Whether background and window tiles use the 0x8800 addressing
/// (LCDC bit 4 clear).
pub open spec fn high_addressing(s: CpuView) -> bool {
    !bit_set(lcdc(s), 4)
}

/// The colour number of pixel `x` (from the left) of line `tile_line` of tile `tile`.
pub open spec fn tile_colour(s: CpuView, high: bool, tile: u16, tile_line: u8, x: int) -> u8 {
    let address = tile_line_address(high, tile, tile_line);
    tile_line_pixels(s.read(address as u16), s.read((address + 1) as u16))[x]
}

/// The background row shown on the current line: LY + SCY, wrapping.
pub open spec fn background_row(s: CpuView) -> u8 {
    ((s.read(LCDY_ADDRESS) + s.read(SCY_ADDRESS)) % 256) as u8
}

/// The colour number of the background at position `p` of the fetched
/// tiles (position 0 is the left edge of the tile under SCX).
pub open spec fn background_pixel(s: CpuView, p: int) -> u8 {
    let row = background_row(s);
    let map_index = ((row / 8) as u16 % 0x100) * 32 + ((p / 8) + s.read(SCX_ADDRESS) as u16 / 8) % 32;
    let tile = s.read(tile_map_address(bit_set(lcdc(s), 3), map_index as u16));
    tile_colour(s, high_addressing(s), tile as u16, row % 8, p % 8)
}

/// The number of background pixels written on a display `width` pixels wide.
pub open spec fn background_count(s: CpuView, width: u16) -> int {
    let available = 8 * TILES_PER_LINE - s.read(SCX_ADDRESS) % 8;
    if width < available { width as int } else { available }
}

/// The background pixels of the line, left to right: (x, colour number),
/// from the fine scroll SCX % 8 on, as far as the display is wide.
pub open spec fn background_writes(s: CpuView, width: u16) -> Seq<(u32, u8)> {
    Seq::new(background_count(s, width) as nat, |d: int| (d as u32, background_pixel(s, d + s.read(SCX_ADDRESS) % 8)))
}

/// The window's left edge: WX - 7.
pub open spec fn window_left(s: CpuView) -> int {
    s.read(WX_ADDRESS) - 7
}

/// The first window position that lands on the display (x >= 0).
pub open spec fn window_first(s: CpuView) -> int {
    if window_left(s) < 0 { -window_left(s) } else { 0 }
}

/// The colour number of window position `k` (0 to 159) on the current line.
pub open spec fn window_pixel(s: CpuView, k: int) -> u8 {
    let line = s.read(LCDY_ADDRESS);
    let window_line = line - s.read(WY_ADDRESS);
    let map_index = ((window_line / 8) * 32 + (((k / 8) - window_left(s)) as u16)) % 0x10000;
    let tile = s.read(tile_map_address(bit_set(lcdc(s), 6), map_index as u16));
    tile_colour(s, high_addressing(s), tile as u16, line % 8, k % 8)
}

/// The window pixels of the line, left to right, when the window is
/// enabled (LCDC bit 5) and has begun (LY >= WY): the 160 positions of 20
/// tiles from WX - 7 on, except those left of the display.
pub open spec fn window_writes(s: CpuView) -> Seq<(u32, u8)> {
    if !bit_set(lcdc(s), 5) || s.read(LCDY_ADDRESS) < s.read(WY_ADDRESS) {
        Seq::empty()
    } else {
        Seq::new(
            (160 - window_first(s)) as nat,
            |j: int| ((j + window_first(s) + window_left(s)) as u32, window_pixel(s, j + window_first(s))),
        )
    }
}

/// The attributes of sprite `i` in the object attribute memory.
pub open spec fn oam_sprite(s: CpuView, i: int) -> Sprite {
    let base = OAM_ADDRESS + i * 4;
    sprite_of(s.read(base as u16), s.read((base + 1) as u16), s.read((base + 2) as u16), s.read((base + 3) as u16))
}

/// Whether a sprite covers `line` (sprites are 8 lines high and placed 16
/// lines down).
pub open spec fn sprite_on_line(sprite: Sprite, line: u8) -> bool {
    line >= sprite.y_pos - 16 && line < sprite.y_pos - 8
}

/// The line of the sprite's tile shown on `line`, flipped with Y flip.
pub open spec fn sprite_tile_line(sprite: Sprite, line: u8) -> u8 {
    let t = ((((line + 16) % 256) - (sprite.y_pos as u8) + 256) % 256 % 8) as u8;
    if sprite.y_flip { (7 - t) as u8 } else { t }
}

/// The colour number of pixel `offset` of a sprite on `line` (flipped with X flip).
pub open spec fn sprite_colour(s: CpuView, sprite: Sprite, line: u8, offset: int) -> u8 {
    tile_colour(s, false, sprite.tile_idx, sprite_tile_line(sprite, line), if sprite.x_flip { 7 - offset } else { offset })
}

/// The pixels of a sprite's first `k` columns that are drawn: those on the
/// display and not transparent (colour 0).
pub open spec fn sprite_pixel_writes(s: CpuView, sprite: Sprite, line: u8, width: u16, height: u16, k: int) -> Seq<(u32, u8)>
    decreases k,
{
    if k <= 0 {
        Seq::empty()
    } else {
        let before = sprite_pixel_writes(s, sprite, line, width, height, k - 1);
        let x = sprite.x_pos - 8 + (k - 1);
        let colour = sprite_colour(s, sprite, line, k - 1);
        if 0 <= x < width && line < height && colour != 0 {
            before.push((x as u32, colour))
        } else {
            before
        }
    }
}

/// The pixels drawn by the first `n` sprites of the object attribute memory.
pub open spec fn sprite_writes(s: CpuView, width: u16, height: u16, n: int) -> Seq<(u32, u8)>
    decreases n,
{
    if n <= 0 {
        Seq::empty()
    } else {
        let line = s.read(LCDY_ADDRESS);
        let sprite = oam_sprite(s, n - 1);
        sprite_writes(s, width, height, n - 1) + if sprite_on_line(sprite, line) {
            sprite_pixel_writes(s, sprite, line, width, height, 8)
        } else {
            Seq::empty()
        }
    }
}

/// Everything drawn on the current line, in drawing order (a later pixel
/// covers an earlier one): the background, the window, then the 40
/// sprites when sprites are enabled (LCDC bit 1).
pub open spec fn line_writes(s: CpuView, width: u16, height: u16) -> Seq<(u32, u8)> {
    background_writes(s, width) + window_writes(s) + if bit_set(lcdc(s), 1) {
        sprite_writes(s, width, height, 40)
    } else {
        Seq::empty()
    }
}

/// Append the background pixels of the current line.
fn push_background(cpu: &mut CPU, out: &mut Vec<(u32, u8)>, width: u16)
    ensures
        final(cpu)@ == old(cpu)@,
        final(out)@ == old(out)@ + background_writes(old(cpu)@, width),
{
    let ghost s = cpu@;
    let scx = cpu.get_lcd_scx();
    let scy = cpu.get_lcd_scy();
    let line: u8 = cpu.get_lcd_y_coordinate();
    let high_adressing = !cpu.get_lcdc_bg_window_tile_data();
    let high_map = cpu.get_lcdc_bg_tile_map();
    let row = line.wrapping_add(scy);
    let ghost shift: int = (scx % 8) as int;
    let mut display_x: u32 = 0;
    let mut bg_line_x_pos: u32 = scx as u32 % 8;
    let mut xtile: u16 = 0;
    while xtile < TILES_PER_LINE
        invariant
            cpu@ == s,
            scx == s.read(SCX_ADDRESS),
            shift == scx % 8,
            row == background_row(s),
            high_adressing == high_addressing(s),
            high_map == bit_set(lcdc(s), 3),
            xtile <= TILES_PER_LINE,
            display_x <= width,
            xtile == 0 ==> display_x == 0,
            xtile > 0 ==> display_x == (if width < 8 * xtile - shift { width as int } else { 8 * xtile - shift }),
            bg_line_x_pos == shift + display_x,
            out@ == old(out)@ + Seq::new(display_x as nat, |d: int| (d as u32, background_pixel(s, d + shift))),
        decreases TILES_PER_LINE - xtile,
    {
        // Fetch the background line data: 32 tiles per map row, 8 pixels per tile
        let map_index: u16 = ((row / 8) as u16 % 0x100) * 32 + (xtile + (scx as u16 / 8)) % 32;
        let bg_tile_idx = cpu.get_vram_tile_map_entry(high_map, map_index);
        let bg_line = cpu.get_vram_tile_line(high_adressing, bg_tile_idx as u16, row % 8);
        let mut x_pixel: usize = (bg_line_x_pos % 8) as usize;
        while x_pixel < 8
            invariant
                cpu@ == s,
                shift == scx % 8,
                xtile < TILES_PER_LINE,
                x_pixel <= 8,
                display_x <= width,
                display_x + shift <= 8 * xtile + x_pixel,
                display_x == width || display_x + shift == 8 * xtile + x_pixel,
                bg_line_x_pos == shift + display_x,
                bg_line@.len() == 8,
                forall|i: int| 0 <= i < 8 ==> #[trigger] bg_line@[i] == background_pixel(s, 8 * xtile + i),
                out@ == old(out)@ + Seq::new(display_x as nat, |d: int| (d as u32, background_pixel(s, d + shift))),
            ensures
                display_x <= width,
                display_x + shift <= 8 * xtile + 8,
                display_x == width || display_x + shift == 8 * xtile + 8,
            decreases 8 - x_pixel,
        {
            if display_x >= width as u32 {
                break;
            }
            out.push((display_x, bg_line[x_pixel]));
            proof {
                assert(Seq::new((display_x + 1) as nat, |d: int| (d as u32, background_pixel(s, d + shift))) =~= Seq::new(
                    display_x as nat,
                    |d: int| (d as u32, background_pixel(s, d + shift)),
                ).push((display_x, bg_line@[x_pixel as int])));
                assert(out@ =~= old(out)@ + Seq::new((display_x + 1) as nat, |d: int| (d as u32, background_pixel(s, d + shift))));
            }
            display_x += 1;
            bg_line_x_pos += 1;
            x_pixel += 1;
        }
        xtile += 1;
    }
}

/// The number of window pixels written before window position `k`.
pub open spec fn window_count_before(s: CpuView, k: int) -> int {
    if k > window_first(s) { k - window_first(s) } else { 0 }
}

/// The window pixels written before window position `k`.
pub open spec fn window_writes_before(s: CpuView, k: int) -> Seq<(u32, u8)> {
    Seq::new(
        window_count_before(s, k) as nat,
        |j: int| ((j + window_first(s) + window_left(s)) as u32, window_pixel(s, j + window_first(s))),
    )
}

/// Append the window pixels of the current line.
#[verifier::rlimit(40)]
fn push_window(cpu: &mut CPU, out: &mut Vec<(u32, u8)>)
    ensures
        final(cpu)@ == old(cpu)@,
        final(out)@ == old(out)@ + window_writes(old(cpu)@),
{
    let ghost s = cpu@;
    if cpu.get_lcdc_window_enable() {
        let line: u8 = cpu.get_lcd_y_coordinate();
        let high_adressing = !cpu.get_lcdc_bg_window_tile_data();
        let high_map = cpu.get_lcdc_window_tile_map_high();
        let wd_offset_y = cpu.get_window_wy();
        let wd_offset_x = cpu.get_window_wx() as i32 - 7;
        if line < wd_offset_y {
            assert(out@ =~= old(out)@ + window_writes(s));
            return;
        }
        // Fetch the window line data for the 20 tiles on screen
        let mut xtile: i32 = 0;
        while xtile < 20
            invariant
                cpu@ == s,
                line == s.read(LCDY_ADDRESS),
                line >= wd_offset_y,
                wd_offset_y == s.read(WY_ADDRESS),
                wd_offset_x == window_left(s),
                high_adressing == high_addressing(s),
                high_map == bit_set(lcdc(s), 6),
                0 <= xtile <= 20,
                out@ == old(out)@ + window_writes_before(s, 8 * xtile),
            decreases 20 - xtile,
        {
            let map_index: u16 = (((line - wd_offset_y) as u16 / 8) * 32).wrapping_add((xtile - wd_offset_x) as u16);
            let wd_tile_idx = cpu.get_vram_tile_map_entry(high_map, map_index);
            let wd_line = cpu.get_vram_tile_line(high_adressing, wd_tile_idx as u16, line % 8);
            // Draw the 8 pixels of the tile line
            let mut x_pixel: usize = 0;
            while x_pixel < 8
                invariant
                    cpu@ == s,
                    wd_offset_x == window_left(s),
                    line >= wd_offset_y,
                    0 <= xtile < 20,
                    x_pixel <= 8,
                    wd_line@.len() == 8,
                    forall|i: int| 0 <= i < 8 ==> #[trigger] wd_line@[i] == window_pixel(s, 8 * xtile + i),
                    out@ == old(out)@ + window_writes_before(s, 8 * xtile + x_pixel),
                decreases 8 - x_pixel,
            {
                let x_coord: i32 = xtile * 8 + x_pixel as i32 + wd_offset_x;
                if x_coord >= 0 && line >= wd_offset_y {
                    out.push((x_coord as u32, wd_line[x_pixel]));
                    proof {
                        let k = 8 * xtile + x_pixel;
                        assert(window_writes_before(s, k + 1) =~= window_writes_before(s, k).push((x_coord as u32, wd_line@[x_pixel as int])));
                        assert(out@ =~= old(out)@ + window_writes_before(s, k + 1));
                    }
                } else {
                    proof {
                        let k = 8 * xtile + x_pixel;
                        assert(window_writes_before(s, k + 1) =~= window_writes_before(s, k));
                    }
                }
                x_pixel += 1;
            }
            xtile += 1;
        }
        assert(window_writes_before(s, 160) =~= window_writes(s));
    } else {
        assert(out@ =~= old(out)@ + window_writes(s));
    }
}

/// Append the sprite pixels of the current line.
fn push_sprites(cpu: &mut CPU, out: &mut Vec<(u32, u8)>, width: u16, height: u16)
    ensures
        final(cpu)@ == old(cpu)@,
        final(out)@ == old(out)@ + if bit_set(lcdc(old(cpu)@), 1) {
            sprite_writes(old(cpu)@, width, height, 40)
        } else {
            Seq::empty()
        },
{
    let ghost s = cpu@;
    if !cpu.get_lcdc_obj_enable() {
        assert(out@ =~= old(out)@ + Seq::empty());
        return;
    }
    let line: u8 = cpu.get_lcd_y_coordinate();
    // At most 40 sprites
    let mut sprite_idx: u8 = 0;
    while sprite_idx < 40
        invariant
            cpu@ == s,
            line == s.read(LCDY_ADDRESS),
            sprite_idx <= 40,
            out@ == old(out)@ + sprite_writes(s, width, height, sprite_idx as int),
        decreases 40 - sprite_idx,
    {
        let sprite = cpu.get_oam_entry(sprite_idx);
        let ghost before = out@;
        // Sprites are offset by 16 pixels on the Y axis and by 8 on the X axis
        if (line as i32) >= sprite.y_pos - 16 && (line as i32) < sprite.y_pos - 8 {
            let mut tile_line = line.wrapping_add(16).wrapping_sub(sprite.y_pos as u8) % 8;
            // Flip the tile line for a vertically flipped sprite
            if sprite.y_flip {
                tile_line = 7 - tile_line;
            }
            let line_data = cpu.get_vram_tile_line(false, sprite.tile_idx, tile_line);
            let mut x_pixel_offset: i32 = 0;
            while x_pixel_offset < 8
                invariant
                    cpu@ == s,
                    line == s.read(LCDY_ADDRESS),
                    sprite == oam_sprite(s, sprite_idx as int),
                    0 <= x_pixel_offset <= 8,
                    line_data@.len() == 8,
                    forall|i: int| 0 <= i < 8 ==> #[trigger] line_data@[i] == tile_colour(s, false, sprite.tile_idx, sprite_tile_line(sprite, line), i),
                    out@ == before + sprite_pixel_writes(s, sprite, line, width, height, x_pixel_offset as int),
                decreases 8 - x_pixel_offset,
            {
                let x_pixel: i32 = (sprite.x_pos - 8) + x_pixel_offset;
                if (x_pixel as usize) < width as usize && x_pixel >= 0 && (line as usize) < height as usize {
                    // Flip the column for a horizontally flipped sprite
                    let pallete_idx = if sprite.x_flip {
                        7 - x_pixel_offset as usize
                    } else {
                        x_pixel_offset as usize
                    };
                    // Colour 0 is transparent
                    if line_data[pallete_idx] != 0 {
                        out.push((x_pixel as u32, line_data[pallete_idx]));
                    }
                }
                assert(out@ =~= before + sprite_pixel_writes(s, sprite, line, width, height, x_pixel_offset + 1));
                x_pixel_offset += 1;
            }
        }
        assert(out@ =~= old(out)@ + sprite_writes(s, width, height, sprite_idx + 1));
        sprite_idx += 1;
    }
}

/// The pixels of the current line, in drawing order, as (x, colour number)
/// pairs: the background, then the window, then the sprites. `width` and
/// `height` are those of the display.
pub fn scanline_pixels(cpu: &mut CPU, width: u16, height: u16) -> (r: Vec<(u32, u8)>)
    ensures
        final(cpu)@ == old(cpu)@,
        r@ == line_writes(old(cpu)@, width, height),
{
    let mut out: Vec<(u32, u8)> = Vec::new();
    push_background(cpu, &mut out, width);
    push_window(cpu, &mut out);
    push_sprites(cpu, &mut out, width, height);
    assert(out@ =~= line_writes(old(cpu)@, width, height));
    out
}

/// PPU cycles (dots) per CPU step.
pub const DOTS_PER_CYCLE: u32 = 4;

/// Dots per scanline.
pub const DOTS_PER_LINE: u32 = 456;

/// Dots of the OAM scan (mode 2).
pub const SCAN_DOTS: u32 = 80;

/// The shortest drawing period (mode 3) in dots.
pub const MIN_DRAW_DOTS: u32 = 172;

/// Visible scanlines.
pub const SCANLINES_ACTUAL: u8 = 144;

/// Scanlines of the vertical blank.
pub const SCANLINES_EXTRA: u8 = 10;

/// The scanline timing of the picture processing unit.
pub struct Ppu {
    frame_cycles: u32,
    enabled: bool,
}

/// The mathematical model of the [`Ppu`].
pub struct PpuView {
    pub frame_cycles: u32,
    pub enabled: bool,
}

impl View for Ppu {
    type V = PpuView;

    closed spec fn view(&self) -> PpuView {
        PpuView { frame_cycles: self.frame_cycles, enabled: self.enabled }
    }
}

/// What the display has to do after a PPU step.
pub enum PpuAction {
    /// Nothing to draw.
    Idle,
    /// The LCD was switched off: clear the screen.
    ClearScreen,
    /// Draw the pixels (x, colour number) of this line, in order.
    DrawLine(u8, Vec<(u32, u8)>),
}

/// The mathematical model of a [`PpuAction`].
pub enum PpuActionView {
    Idle,
    ClearScreen,
    DrawLine(u8, Seq<(u32, u8)>),
}

impl View for PpuAction {
    type V = PpuActionView;

    open spec fn view(&self) -> PpuActionView {
        match self {
            PpuAction::Idle => PpuActionView::Idle,
            PpuAction::ClearScreen => PpuActionView::ClearScreen,
            PpuAction::DrawLine(line, pixels) => PpuActionView::DrawLine(*line, pixels@),
        }
    }
}

/// Whether the LCD and PPU are switched on (LCDC bit 7).
pub open spec fn lcd_on(s: CpuView) -> bool {
    bit_set(lcdc(s), 7)
}

/// The PPU after the LCD was found switched on: a new frame starts.
pub open spec fn ppu_woken(p: PpuView, s: CpuView) -> PpuView {
    if lcd_on(s) && !p.enabled {
        PpuView { frame_cycles: 0, enabled: true }
    } else {
        p
    }
}

/// Whether a PPU step runs without failing: the dot counter fits, a mode
/// is not overstayed (OAM scan past dot 80, drawing past dot 252 of a
/// line), and LY can still be incremented at the end of a line.
pub open spec fn ppu_step_defined(p: PpuView, s: CpuView) -> bool {
    let woken = ppu_woken(p, s);
    let dot = woken.frame_cycles * 4;
    let in_line = dot % 456;
    let mode = s.read(STAT_ADDRESS) & 0b11;
    ||| !lcd_on(s) && woken.enabled
    ||| {
        &&& woken.frame_cycles * 4 <= u32::MAX
        &&& mode == 2 ==> in_line == 76 || in_line < 80
        &&& mode == 3 ==> in_line == 248 || in_line < 252
        &&& (mode == 0 || mode == 1) && in_line == 452 ==> s.read(LCDY_ADDRESS) < 255
    }
}

/// One PPU step (one CPU step's worth of 4 dots). Switching the LCD off
/// clears the screen; otherwise the dot counter advances and, by the mode
/// in STAT: the OAM scan ends at dot 76 of the line (drawing follows), the
/// drawing ends at dot 248 (the line is drawn, horizontal blank follows),
/// and at dot 452 the next line begins: OAM scan below line 144, else the
/// vertical blank with its interrupt; the last vertical blank line starts a
/// new frame at line 0.
pub open spec fn ppu_step(p: PpuView, s: CpuView, width: u16, height: u16) -> (PpuView, CpuView, PpuActionView) {
    let woken = ppu_woken(p, s);
    if !lcd_on(s) && woken.enabled {
        (PpuView { enabled: false, ..woken }, s, PpuActionView::ClearScreen)
    } else {
        let dot = woken.frame_cycles * 4;
        let in_line = dot % 456;
        let counted = PpuView { frame_cycles: (woken.frame_cycles + 1) as u32, ..woken };
        let mode = s.read(STAT_ADDRESS) & 0b11;
        let scanline = s.read(LCDY_ADDRESS);
        if mode == 2 {
            if in_line == 76 {
                (counted, s.op_set_ppu_mode(PpuMode::Drawing), PpuActionView::Idle)
            } else {
                (counted, s, PpuActionView::Idle)
            }
        } else if mode == 3 {
            if in_line == 248 {
                (counted, s.op_set_ppu_mode(PpuMode::HorizontalBlank), PpuActionView::DrawLine(scanline, line_writes(s, width, height)))
            } else {
                (counted, s, PpuActionView::Idle)
            }
        } else if in_line == 452 {
            let next = s.op_set_lcd_y_coordinate((scanline + 1) as u8);
            if mode == 0 {
                if scanline + 1 < 144 {
                    (counted, next.op_set_ppu_mode(PpuMode::OamScan), PpuActionView::Idle)
                } else {
                    (counted, next.op_set_vblank_interrupt().op_set_ppu_mode(PpuMode::VerticalBlank), PpuActionView::Idle)
                }
            } else if scanline + 1 == 153 {
                (
                    PpuView { frame_cycles: 0, ..counted },
                    next.op_set_lcd_y_coordinate(0).op_set_ppu_mode(PpuMode::OamScan),
                    PpuActionView::Idle,
                )
            } else {
                (counted, next, PpuActionView::Idle)
            }
        } else {
            (counted, s, PpuActionView::Idle)
        }
    }
}

/// Mode 2: the OAM scan has no effect here.
pub fn oam_scan(_cpu: &CPU) {
}

impl Default for Ppu {
    fn default() -> (r: Ppu)
        ensures
            r@ == (PpuView { frame_cycles: 0, enabled: false }),
    {
        Ppu::new()
    }
}

impl Ppu {
    /// A PPU at the start of a frame, not yet enabled.
    pub fn new() -> (r: Ppu)
        ensures
            r@ == (PpuView { frame_cycles: 0, enabled: false }),
    {
        Ppu { frame_cycles: 0, enabled: false }
    }

    /// One PPU step; what the display has to do is returned.
    pub fn step(&mut self, cpu: &mut CPU, width: u16, height: u16) -> (r: PpuAction)
        requires
            ppu_step_defined(old(self)@, old(cpu)@),
        ensures
            final(self)@ == ppu_step(old(self)@, old(cpu)@, width, height).0,
            final(cpu)@ == ppu_step(old(self)@, old(cpu)@, width, height).1,
            r@ == ppu_step(old(self)@, old(cpu)@, width, height).2,
    {
        if cpu.get_lcdc_ppu_enabled() && !self.enabled {
            self.frame_cycles = 0;
            self.enabled = true;
        }
        // The LCD was switched off: clear the screen
        if !cpu.get_lcdc_ppu_enabled() && self.enabled {
            self.enabled = false;
            return PpuAction::ClearScreen;
        }
        // A dot is a PPU cycle; the PPU runs faster than the CPU, so all the
        // work is done on the mode transitions
        let dot = self.frame_cycles * DOTS_PER_CYCLE;
        self.frame_cycles += 1;
        let mode_bits = cpu.get_ppu_mode();
        let scanline = cpu.get_lcd_y_coordinate();
        proof {
            let stat = cpu@.read(STAT_ADDRESS);
            assert(stat & 0b11 < 4) by (bit_vector);
        }
        match PpuMode::from_bits(mode_bits) {
            Some(PpuMode::OamScan) => {
                if dot % DOTS_PER_LINE == SCAN_DOTS - DOTS_PER_CYCLE {
                    oam_scan(cpu);
                    cpu.set_ppu_mode(PpuMode::Drawing);
                }
                PpuAction::Idle
            },
            Some(PpuMode::Drawing) => {
                if dot % DOTS_PER_LINE == SCAN_DOTS + MIN_DRAW_DOTS - DOTS_PER_CYCLE {
                    let pixels = scanline_pixels(cpu, width, height);
                    cpu.set_ppu_mode(PpuMode::HorizontalBlank);
                    PpuAction::DrawLine(scanline, pixels)
                } else {
                    PpuAction::Idle
                }
            },
            Some(PpuMode::HorizontalBlank) => {
                if dot % DOTS_PER_LINE == DOTS_PER_LINE - DOTS_PER_CYCLE {
                    cpu.set_lcd_y_coordinate(scanline + 1);
                    if scanline + 1 < SCANLINES_ACTUAL {
                        cpu.set_ppu_mode(PpuMode::OamScan);
                    } else {
                        // The frame is done: request the vertical blank interrupt
                        cpu.set_vblank_interrupt();
                        cpu.set_ppu_mode(PpuMode::VerticalBlank);
                    }
                }
                PpuAction::Idle
            },
            Some(PpuMode::VerticalBlank) => {
                if dot % DOTS_PER_LINE == DOTS_PER_LINE - DOTS_PER_CYCLE {
                    cpu.set_lcd_y_coordinate(scanline + 1);
                    if scanline + 1 == SCANLINES_ACTUAL + SCANLINES_EXTRA - 1 {
                        self.frame_cycles = 0;
                        cpu.set_lcd_y_coordinate(0);
                        cpu.set_ppu_mode(PpuMode::OamScan);
                    }
                }
                PpuAction::Idle
            },
            None => PpuAction::Idle,
        }
    }

    /// Whether a step runs without failing (see `ppu_step_defined`).
    pub fn can_step(&self, cpu: &mut CPU) -> (r: bool)
        ensures
            final(cpu)@ == old(cpu)@,
            r == ppu_step_defined(self@, old(cpu)@),
    {
        let lcd_on = cpu.get_lcdc_ppu_enabled();
        let frame_cycles: u32 = if lcd_on && !self.enabled { 0 } else { self.frame_cycles };
        let enabled = if lcd_on && !self.enabled { true } else { self.enabled };
        if !lcd_on && enabled {
            return true;
        }
        if frame_cycles > u32::MAX / 4 {
            return false;
        }
        let in_line = (frame_cycles * DOTS_PER_CYCLE) % DOTS_PER_LINE;
        let mode = cpu.get_ppu_mode();
        let scanline = cpu.get_lcd_y_coordinate();
        if mode == 2 && !(in_line == 76 || in_line < 80) {
            return false;
        }
        if mode == 3 && !(in_line == 248 || in_line < 252) {
            return false;
        }
        if (mode == 0 || mode == 1) && in_line == 452 && scanline == 255 {
            return false;
        }
        true
    }

    /// The current dot of the frame.
    pub fn get_dot(&self) -> (r: u32)
        requires
            self@.frame_cycles * 4 <= u32::MAX,
        ensures
            r == self@.frame_cycles * 4,
    {
        self.frame_cycles * DOTS_PER_CYCLE
    }

    /// The PPU steps since the start of the frame.
    pub fn get_frame_cycles(&self) -> (r: u32)
        ensures
            r == self@.frame_cycles,
    {
        self.frame_cycles
    }
}

/// Every tile colour is a colour number from 0 to 3.
proof fn lemma_tile_colour(s: CpuView, high: bool, tile: u16, tile_line: u8, x: int)
    requires
        0 <= x < 8,
    ensures
        tile_colour(s, high, tile, tile_line, x) < 4,
{
    let address = tile_line_address(high, tile, tile_line);
    law_tile_pixels_are_colours(s.read(address as u16), s.read((address + 1) as u16));
}

/// The sprite pixels are colour numbers from 0 to 3.
proof fn lemma_sprite_colours(s: CpuView, width: u16, height: u16, n: int)
    ensures
        forall|i: int| 0 <= i < sprite_writes(s, width, height, n).len() ==> #[trigger] sprite_writes(s, width, height, n)[i].1 < 4,
    decreases n,
{
    if n > 0 {
        lemma_sprite_colours(s, width, height, n - 1);
        let line = s.read(LCDY_ADDRESS);
        let sprite = oam_sprite(s, n - 1);
        lemma_sprite_pixel_colours(s, sprite, line, width, height, 8);
        let before = sprite_writes(s, width, height, n - 1);
        let added = if sprite_on_line(sprite, line) {
            sprite_pixel_writes(s, sprite, line, width, height, 8)
        } else {
            Seq::empty()
        };
        let after = sprite_writes(s, width, height, n);
        assert(after == before + added);
        assert forall|i: int| 0 <= i < after.len() implies #[trigger] after[i].1 < 4 by {
            if i < before.len() {
                assert(after[i] == before[i]);
            } else {
                assert(after[i] == added[i - before.len()]);
            }
        }
    }
}

/// The pixels of one sprite are colour numbers from 0 to 3.
proof fn lemma_sprite_pixel_colours(s: CpuView, sprite: Sprite, line: u8, width: u16, height: u16, k: int)
    requires
        k <= 8,
    ensures
        forall|i: int| 0 <= i < sprite_pixel_writes(s, sprite, line, width, height, k).len() ==> #[trigger] sprite_pixel_writes(
            s,
            sprite,
            line,
            width,
            height,
            k,
        )[i].1 < 4,
    decreases k,
{
    if k > 0 {
        lemma_sprite_pixel_colours(s, sprite, line, width, height, k - 1);
        let offset = k - 1;
        lemma_tile_colour(s, false, sprite.tile_idx, sprite_tile_line(sprite, line), if sprite.x_flip { 7 - offset } else { offset });
        let before = sprite_pixel_writes(s, sprite, line, width, height, k - 1);
        let after = sprite_pixel_writes(s, sprite, line, width, height, k);
        assert(sprite_colour(s, sprite, line, offset) < 4);
        assert forall|i: int| 0 <= i < after.len() implies #[trigger] after[i].1 < 4 by {
            if i < before.len() {
                assert(after[i] == before[i]);
            }
        }
    }
}

/// Every pixel drawn on a line is a colour number from 0 to 3, an index
/// into the four-colour palette.
pub proof fn law_line_colours(s: CpuView, width: u16, height: u16)
    ensures
        forall|i: int| 0 <= i < line_writes(s, width, height).len() ==> #[trigger] line_writes(s, width, height)[i].1 < 4,
{
    let shift = s.read(SCX_ADDRESS) % 8;
    assert forall|d: int| 0 <= d < background_writes(s, width).len() implies #[trigger] background_writes(s, width)[d].1 < 4 by {
        let p = d + shift;
        let row = background_row(s);
        let map_index = ((row / 8) as u16 % 0x100) * 32 + ((p / 8) + s.read(SCX_ADDRESS) as u16 / 8) % 32;
        let tile = s.read(tile_map_address(bit_set(lcdc(s), 3), map_index as u16));
        lemma_tile_colour(s, high_addressing(s), tile as u16, row % 8, p % 8);
    }
    assert forall|j: int| 0 <= j < window_writes(s).len() implies #[trigger] window_writes(s)[j].1 < 4 by {
        let k = j + window_first(s);
        let line = s.read(LCDY_ADDRESS);
        let window_line = line - s.read(WY_ADDRESS);
        let map_index = ((window_line / 8) * 32 + (((k / 8) - window_left(s)) as u16)) % 0x10000;
        let tile = s.read(tile_map_address(bit_set(lcdc(s), 6), map_index as u16));
        lemma_tile_colour(s, high_addressing(s), tile as u16, line % 8, k % 8);
    }
    lemma_sprite_colours(s, width, height, 40);
    let background = background_writes(s, width);
    let window = window_writes(s);
    let sprites = if bit_set(lcdc(s), 1) { sprite_writes(s, width, height, 40) } else { Seq::empty() };
    let all = line_writes(s, width, height);
    assert(all == background + window + sprites);
    assert forall|i: int| 0 <= i < all.len() implies #[trigger] all[i].1 < 4 by {
        if i < background.len() {
            assert(all[i] == background[i]);
        } else if i < background.len() + window.len() {
            assert(all[i] == window[i - background.len()]);
        } else {
            assert(all[i] == sprites[i - background.len() - window.len()]);
        }
    }
}

/// The unflipped tile row of a sprite at height `y` on screen line `line`.
proof fn lemma_sprite_row(line: u8, y: i32)
    requires
        0 <= y < 256,
    ensures
        ((((line + 16) % 256) - (y as u8) + 256) % 256 % 8) as u8 == (line + 16 - y) % 8,
{
    let x = line + 16 - y;
    let q1: int = if line + 16 >= 256 { 1 } else { 0 };
    let u = line + 16 - 256 * q1;
    assert((line + 16) % 256 == u);
    let w = u - y + 256;
    let q2: int = if w >= 256 { 1 } else { 0 };
    let v = w - 256 * q2;
    assert(w % 256 == v);
    assert(v == x + 8 * (32 * (1 - q1 - q2)));
    vstd::arithmetic::div_mod::lemma_mod_multiples_vanish(32 * (1 - q1 - q2), x, 8);
    assert(0 <= v < 256);
}

/// The colour number of a sprite pixel comes from the sprite's tile in the
/// first tile block: on screen line `line` the tile row is
/// (line + 16 - Y) mod 8, or 7 minus that row for a sprite flipped
/// vertically (so flipping reverses the order of the rows), and the column
/// is `offset`, or 7 minus it for a sprite flipped horizontally; the two
/// bytes of the row (at 0x8000 + 16 * tile + 2 * row) give the low and the
/// high bit of the colour, the leftmost column in bit 7.
pub proof fn law_sprite_pixel_source(s: CpuView, sprite: Sprite, line: u8, offset: int)
    requires
        0 <= offset < 8,
        0 <= sprite.y_pos < 256,
        sprite.tile_idx < 256,
    ensures
        ({
            let row = (line + 16 - sprite.y_pos) % 8;
            let shown = if sprite.y_flip { 7 - row } else { row };
            let column = if sprite.x_flip { 7 - offset } else { offset };
            let address = 0x8000 + 16 * sprite.tile_idx + 2 * shown;
            let lo = s.read(address as u16);
            let hi = s.read((address + 1) as u16);
            let bit = (7 - column) as u8;
            sprite_colour(s, sprite, line, offset) == ((lo >> bit) & 1) + 2 * ((hi >> bit) & 1)
        }),
{
    lemma_sprite_row(line, sprite.y_pos);
    let column = if sprite.x_flip { 7 - offset } else { offset };
    let lo = s.read(tile_line_address(false, sprite.tile_idx, sprite_tile_line(sprite, line)) as u16);
    let hi = s.read((tile_line_address(false, sprite.tile_idx, sprite_tile_line(sprite, line)) + 1) as u16);
    let bit = (7 - column) as u8;
    let a = (lo >> bit) & 1;
    let b = (hi >> bit) & 1;
    assert(a + b * 2 < 256 && a + b * 2 == a + 2 * b) by (bit_vector)
        requires
            a == (lo >> bit) & 1,
            b == (hi >> bit) & 1;
}

/// The colour number of the two bytes of a tile row at `address` for the
/// pixel in bit `bit` (the leftmost pixel is bit 7): the low byte gives
/// bit 0 of the colour, the high byte bit 1.
pub open spec fn row_colour(s: CpuView, address: int, bit: int) -> int {
    ((s.read(address as u16) >> (bit as u8)) & 1) + 2 * ((s.read((address + 1) as u16) >> (bit as u8)) & 1)
}

/// Pixel `d` of the background on the current line is pixel (d + SCX,
/// LY + SCY) of the 256 x 256 background, wrapping: its tile number is
/// read from the map at 0x9C00 (LCDC bit 3 set) or 0x9800, in the row
/// (LY + SCY) / 8 and the column ((d + SCX) / 8) mod 32; the tile's data
/// starts at 0x8000 + 16 * tile, moved up by 0x1000 for tiles below 0x80
/// when LCDC bit 4 is clear; the row within the tile is (LY + SCY) mod 8
/// and the column (d + SCX) mod 8.
pub proof fn law_background_pixel(s: CpuView, width: u16, d: int)
    requires
        0 <= d < background_count(s, width),
    ensures
        ({
            let l = s.read(LCDC_ADDRESS);
            let scx = s.read(SCX_ADDRESS);
            let row = (s.read(LCDY_ADDRESS) + s.read(SCY_ADDRESS)) % 256;
            let x = d + scx;
            let map = (if l & 0x08 != 0 { 0x9C00int } else { 0x9800int }) + 32 * (row / 8) + (x / 8) % 32;
            let tile = s.read(map as u16);
            let data = 0x8000 + 16 * tile + 2 * (row % 8) + if l & 0x10 == 0 && tile < 0x80 { 0x1000int } else { 0 };
            &&& background_writes(s, width)[d].0 == d
            &&& background_writes(s, width)[d].1 == row_colour(s, data, 7 - x % 8)
        }),
{
    let l = s.read(LCDC_ADDRESS);
    let scx = s.read(SCX_ADDRESS);
    let p = d + scx % 8;
    let x = d + scx;
    assert(p / 8 + scx / 8 == x / 8 && p % 8 == x % 8) by {
        vstd::arithmetic::div_mod::lemma_fundamental_div_mod(scx as int, 8);
        vstd::arithmetic::div_mod::lemma_fundamental_div_mod(p, 8);
        let k = p / 8 + scx / 8;
        let b = p % 8;
        assert(x == 8 * k + b);
        vstd::arithmetic::div_mod::lemma_div_multiples_vanish_fancy(k, b, 8);
        vstd::arithmetic::div_mod::lemma_mod_multiples_vanish(k, b, 8);
    }
    assert(bit_set(l, 3) == (l & 0x08 != 0) && bit_set(l, 4) == (l & 0x10 != 0)) by (bit_vector);
    let row = background_row(s);
    let map_index = ((row / 8) as u16 % 0x100) * 32 + ((p / 8) + scx as u16 / 8) % 32;
    assert(map_index < 0x10000);
    let tile = s.read(tile_map_address(bit_set(l, 3), map_index as u16));
    let address = tile_line_address(high_addressing(s), tile as u16, row % 8);
    let column = p % 8;
    assert(tile_line_pixels(s.read(address as u16), s.read((address + 1) as u16))[column]
        == tile_pixel(s.read(address as u16), s.read((address + 1) as u16), 7 - column));
    let lo = s.read(address as u16);
    let hi = s.read((address + 1) as u16);
    let bit = (7 - column) as u8;
    let a = (lo >> bit) & 1;
    let b = (hi >> bit) & 1;
    assert(a + b * 2 < 256 && a + b * 2 == a + 2 * b) by (bit_vector)
        requires
            a == (lo >> bit) & 1,
            b == (hi >> bit) & 1;
}

/// The bit facts behind the STAT and IF updates.
proof fn lemma_stat_bits(x: u8, m: u8)
    requires
        m < 4,
    ensures
        ((x & 0xFC) | m) & 3 == m,
        (x | 4) & 3 == x & 3,
        (x | (1u8 << 0u8)) & 1 == 1,
        (x | (1u8 << 1u8)) & 1 == x & 1,
{
    assert(((x & 0xFC) | m) & 3 == m && (x | 4) & 3 == x & 3 && (x | (1u8 << 0u8)) & 1 == 1
        && (x | (1u8 << 1u8)) & 1 == x & 1) by (bit_vector)
        requires
            m < 4;
}

/// A write to IF leaves STAT and LY.
proof fn lemma_request_keeps(s: CpuView, interrupt: InterruptTypes)
    requires
        s.mem.wf(),
    ensures
        s.op_set_interrupt_flag(interrupt).mem.wf(),
        s.op_set_interrupt_flag(interrupt).read(STAT_ADDRESS) == s.read(STAT_ADDRESS),
        s.op_set_interrupt_flag(interrupt).read(LCDY_ADDRESS) == s.read(LCDY_ADDRESS),
        s.op_set_interrupt_flag(interrupt).read(INTERRUPT_FLAG_ADDRESS)
            == s.read(INTERRUPT_FLAG_ADDRESS) | (1u8 << interrupt.spec_bit()),
{
    let v = s.read(INTERRUPT_FLAG_ADDRESS) | (1u8 << interrupt.spec_bit());
    law_read_after_write(s.mem, INTERRUPT_FLAG_ADDRESS, v);
    law_write_keeps_other_addresses(s.mem, INTERRUPT_FLAG_ADDRESS, STAT_ADDRESS, v);
    law_write_keeps_other_addresses(s.mem, INTERRUPT_FLAG_ADDRESS, LCDY_ADDRESS, v);
}

/// Switching the mode puts it in STAT bits 1..0 and leaves LY.
proof fn lemma_mode_set(s: CpuView, mode: PpuMode)
    requires
        s.mem.wf(),
    ensures
        s.op_set_ppu_mode(mode).mem.wf(),
        s.op_set_ppu_mode(mode).read(STAT_ADDRESS) & 3 == mode.spec_bits(),
        s.op_set_ppu_mode(mode).read(LCDY_ADDRESS) == s.read(LCDY_ADDRESS),
        s.op_set_ppu_mode(mode).read(INTERRUPT_FLAG_ADDRESS) & 1 == s.read(INTERRUPT_FLAG_ADDRESS) & 1,
{
    let stat = s.read(STAT_ADDRESS) & 0b1111_1100;
    let v = stat | mode.spec_bits();
    lemma_stat_bits(s.read(STAT_ADDRESS), mode.spec_bits());
    law_read_after_write(s.mem, STAT_ADDRESS, v);
    law_write_keeps_other_addresses(s.mem, STAT_ADDRESS, LCDY_ADDRESS, v);
    law_write_keeps_other_addresses(s.mem, STAT_ADDRESS, INTERRUPT_FLAG_ADDRESS, v);
    lemma_request_keeps(s.write(STAT_ADDRESS, v), InterruptTypes::LCDC);
    lemma_stat_bits(s.read(INTERRUPT_FLAG_ADDRESS), 0);
}

/// Writing LY puts the value there and leaves the mode bits of STAT.
proof fn lemma_ly_set(s: CpuView, value: u8)
    requires
        s.mem.wf(),
    ensures
        s.op_set_lcd_y_coordinate(value).mem.wf(),
        s.op_set_lcd_y_coordinate(value).read(LCDY_ADDRESS) == value,
        s.op_set_lcd_y_coordinate(value).read(STAT_ADDRESS) & 3 == s.read(STAT_ADDRESS) & 3,
{
    let written = s.write(LCDY_ADDRESS, value);
    law_read_after_write(s.mem, LCDY_ADDRESS, value);
    law_write_keeps_other_addresses(s.mem, LCDY_ADDRESS, STAT_ADDRESS, value);
    law_write_keeps_other_addresses(s.mem, LCDY_ADDRESS, LYC_ADDRESS, value);
    if written.lyc_equals_ly() {
        let requested = written.op_set_interrupt_flag(InterruptTypes::LCDC);
        lemma_request_keeps(written, InterruptTypes::LCDC);
        let v = requested.read(STAT_ADDRESS) | 0b100;
        lemma_stat_bits(requested.read(STAT_ADDRESS), 0);
        law_read_after_write(requested.mem, STAT_ADDRESS, v);
        law_write_keeps_other_addresses(requested.mem, STAT_ADDRESS, LCDY_ADDRESS, v);
    }
}

/// Entering the vertical blank sets LY to 144, requests the VBlank
/// interrupt (IF bit 0) and leaves the mode bits of STAT.
proof fn lemma_vblank_entered(s: CpuView)
    requires
        s.mem.wf(),
    ensures
        s.op_set_vblank_interrupt().mem.wf(),
        s.op_set_vblank_interrupt().read(LCDY_ADDRESS) == 144,
        s.op_set_vblank_interrupt().read(STAT_ADDRESS) == s.read(STAT_ADDRESS),
        s.op_set_vblank_interrupt().read(INTERRUPT_FLAG_ADDRESS) & 1 == 1,
{
    let written = s.write(LCDY_ADDRESS, 144);
    law_read_after_write(s.mem, LCDY_ADDRESS, 144);
    law_write_keeps_other_addresses(s.mem, LCDY_ADDRESS, STAT_ADDRESS, 144);
    lemma_request_keeps(written, InterruptTypes::VBlank);
    lemma_stat_bits(written.read(INTERRUPT_FLAG_ADDRESS), 0);
}

/// The mode state machine of a PPU step while the LCD is on, over the mode
/// bits of STAT and LY, with `dot` the position within the current line
/// (4 dots per step, 456 per line): OAM scan (2) turns into drawing (3) at
/// dot 76; drawing turns into the horizontal blank (0) at dot 248 and only
/// then hands out the line LY to draw; at dot 452 the horizontal blank
/// moves LY on by one and enters the OAM scan below line 144 or else the
/// vertical blank (1) with LY = 144 and the VBlank interrupt requested; at
/// dot 452 of the vertical blank LY moves on (below 255), and after line 152 the frame
/// starts again at line 0 in OAM scan with the dot counter reset. At every
/// other dot nothing of the CPU's state changes.
pub proof fn law_ppu_modes(p: PpuView, s: CpuView, width: u16, height: u16)
    requires
        s.mem.wf(),
        lcd_on(s),
    ensures
        ({
            let woken = ppu_woken(p, s);
            let dot = (woken.frame_cycles * 4) % 456;
            let mode = s.read(STAT_ADDRESS) & 3;
            let ly = s.read(LCDY_ADDRESS);
            let (q, t, action) = ppu_step(p, s, width, height);
            let new_mode = t.read(STAT_ADDRESS) & 3;
            &&& mode == 2 ==> new_mode == (if dot == 76 { 3u8 } else { 2u8 }) && t.read(LCDY_ADDRESS) == ly
            &&& mode == 3 ==> new_mode == (if dot == 248 { 0u8 } else { 3u8 }) && t.read(LCDY_ADDRESS) == ly
            &&& (action is DrawLine <==> mode == 3 && dot == 248)
            &&& action is DrawLine ==> action->DrawLine_0 == ly
            &&& action !is ClearScreen
            &&& mode == 0 && dot == 452 && ly + 1 < 144 ==> new_mode == 2 && t.read(LCDY_ADDRESS) == ly + 1
            &&& mode == 0 && dot == 452 && ly + 1 >= 144 ==> new_mode == 1 && t.read(LCDY_ADDRESS) == 144
                && t.read(INTERRUPT_FLAG_ADDRESS) & 1 == 1
            &&& mode == 1 && dot == 452 && ly + 1 == 153 ==> new_mode == 2 && t.read(LCDY_ADDRESS) == 0 && q.frame_cycles == 0
            &&& mode == 1 && dot == 452 && ly + 1 != 153 && ly < 255 ==> new_mode == 1 && t.read(LCDY_ADDRESS) == ly + 1
            &&& (mode == 0 || mode == 1) && dot != 452 ==> t == s
        }),
{
    let ly = s.read(LCDY_ADDRESS);
    let next = s.op_set_lcd_y_coordinate((ly + 1) as u8);
    lemma_ly_set(s, (ly + 1) as u8);
    lemma_mode_set(s, PpuMode::Drawing);
    lemma_mode_set(s, PpuMode::HorizontalBlank);
    lemma_mode_set(next, PpuMode::OamScan);
    lemma_vblank_entered(next);
    lemma_mode_set(next.op_set_vblank_interrupt(), PpuMode::VerticalBlank);
    let zeroed = next.op_set_lcd_y_coordinate(0);
    lemma_ly_set(next, 0);
    lemma_mode_set(zeroed, PpuMode::OamScan);
}

/// Sprite `i` (0 to 39) is read from the four bytes at 0xFE00 + 4 * i:
/// Y, X, the tile number, then the attributes, whose bit 7 gives the
/// background priority, bit 6 the vertical flip, bit 5 the horizontal flip
/// and bit 4 the palette.
pub proof fn law_oam_sprite_fields(s: CpuView, i: int)
    requires
        0 <= i < 40,
    ensures
        ({
            let base = 0xFE00 + 4 * i;
            let attributes = s.read((base + 3) as u16);
            let sprite = oam_sprite(s, i);
            &&& sprite.y_pos == s.read(base as u16)
            &&& sprite.x_pos == s.read((base + 1) as u16)
            &&& sprite.tile_idx == s.read((base + 2) as u16)
            &&& sprite.prio_bg == (attributes & 0x80 != 0)
            &&& sprite.y_flip == (attributes & 0x40 != 0)
            &&& sprite.x_flip == (attributes & 0x20 != 0)
            &&& sprite.high_palette == (attributes & 0x10 != 0)
        }),
{
    let a = s.read((0xFE00 + 4 * i + 3) as u16);
    assert(bit_set(a, 7) == (a & 0x80 != 0) && bit_set(a, 6) == (a & 0x40 != 0)
        && bit_set(a, 5) == (a & 0x20 != 0) && bit_set(a, 4) == (a & 0x10 != 0)) by (bit_vector);
}

/// Pixel `j` of what a sprite draws comes from column `o` of the sprite.
pub open spec fn drawn_from(s: CpuView, sprite: Sprite, line: u8, width: u16, height: u16, pixel: (u32, u8), o: int) -> bool {
    let x = sprite.x_pos - 8 + o;
    &&& 0 <= x < width && line < height
    &&& pixel == (x as u32, sprite_colour(s, sprite, line, o))
    &&& sprite_colour(s, sprite, line, o) != 0
}

/// The pixel comes from one of the sprite's first `k` columns.
pub open spec fn drawn_from_some(s: CpuView, sprite: Sprite, line: u8, width: u16, height: u16, pixel: (u32, u8), k: int) -> bool {
    exists|o: int| 0 <= o < k && #[trigger] drawn_from(s, sprite, line, width, height, pixel, o)
}

/// What one sprite draws on a line, over its first `k` columns: every
/// pixel drawn lies in a column `o` < `k` of the sprite at x = X - 8 + o,
/// on the display, with the sprite's non-zero colour there
/// (`drawn_from`); and every such column is drawn.
pub proof fn law_sprite_pixels(s: CpuView, sprite: Sprite, line: u8, width: u16, height: u16, k: int)
    requires
        0 <= k <= 8,
    ensures
        forall|j: int| 0 <= j < sprite_pixel_writes(s, sprite, line, width, height, k).len()
            ==> drawn_from_some(s, sprite, line, width, height, #[trigger] sprite_pixel_writes(s, sprite, line, width, height, k)[j], k),
        forall|o: int| 0 <= o < k && 0 <= sprite.x_pos - 8 + o < width && line < height
            && #[trigger] sprite_colour(s, sprite, line, o) != 0 ==> exists|j: int|
            0 <= j < sprite_pixel_writes(s, sprite, line, width, height, k).len()
            && #[trigger] sprite_pixel_writes(s, sprite, line, width, height, k)[j] == ((sprite.x_pos - 8 + o) as u32, sprite_colour(s, sprite, line, o)),
    decreases k,
{
    if k > 0 {
        law_sprite_pixels(s, sprite, line, width, height, k - 1);
        let before = sprite_pixel_writes(s, sprite, line, width, height, k - 1);
        let drawn = sprite_pixel_writes(s, sprite, line, width, height, k);
        let x = sprite.x_pos - 8 + (k - 1);
        let colour = sprite_colour(s, sprite, line, k - 1);
        if 0 <= x < width && line < height && colour != 0 {
            assert(drawn == before.push((x as u32, colour)));
            assert forall|j: int| 0 <= j < drawn.len()
                implies drawn_from_some(s, sprite, line, width, height, #[trigger] drawn[j], k) by {
                if j == before.len() {
                    assert(drawn_from(s, sprite, line, width, height, drawn[j], k - 1));
                } else {
                    assert(before[j] == drawn[j]);
                    assert(drawn_from_some(s, sprite, line, width, height, before[j], k - 1));
                    let o = choose|o: int| 0 <= o < k - 1 && #[trigger] drawn_from(s, sprite, line, width, height, before[j], o);
                    assert(drawn_from(s, sprite, line, width, height, drawn[j], o));
                }
            }
            assert forall|o: int| 0 <= o < k && 0 <= sprite.x_pos - 8 + o < width && line < height
                && #[trigger] sprite_colour(s, sprite, line, o) != 0 implies exists|j: int| 0 <= j < drawn.len()
                && #[trigger] drawn[j] == ((sprite.x_pos - 8 + o) as u32, sprite_colour(s, sprite, line, o)) by {
                if o == k - 1 {
                    assert(drawn[before.len() as int] == (x as u32, colour));
                } else {
                    let j = choose|j: int| 0 <= j < before.len()
                        && #[trigger] before[j] == ((sprite.x_pos - 8 + o) as u32, sprite_colour(s, sprite, line, o));
                    assert(drawn[j] == before[j]);
                }
            }
        } else {
            assert(drawn == before);
            assert forall|j: int| 0 <= j < drawn.len()
                implies drawn_from_some(s, sprite, line, width, height, #[trigger] drawn[j], k) by {
                assert(drawn_from_some(s, sprite, line, width, height, before[j], k - 1));
                let o = choose|o: int| 0 <= o < k - 1 && #[trigger] drawn_from(s, sprite, line, width, height, before[j], o);
                assert(drawn_from(s, sprite, line, width, height, drawn[j], o));
            }
            assert forall|o: int| 0 <= o < k && 0 <= sprite.x_pos - 8 + o < width && line < height
                && #[trigger] sprite_colour(s, sprite, line, o) != 0 implies exists|j: int| 0 <= j < drawn.len()
                && #[trigger] drawn[j] == ((sprite.x_pos - 8 + o) as u32, sprite_colour(s, sprite, line, o)) by {
                assert(o != k - 1);
                let j = choose|j: int| 0 <= j < before.len()
                    && #[trigger] before[j] == ((sprite.x_pos - 8 + o) as u32, sprite_colour(s, sprite, line, o));
                assert(drawn[j] == before[j]);
            }
        }
    } else {
        assert(sprite_pixel_writes(s, sprite, line, width, height, k).len() == 0);
    }
}
} // verus!
