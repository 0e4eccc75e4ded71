//! Whole-frame rendering: draws the background from the name-tables the
//! scroll registers select, then the sprites from object-attribute memory.

use vstd::prelude::*;

pub mod frame;
pub mod pallete_table;
pub mod rect;

use crate::ppu::Ppu;
use frame::Frame;
use pallete_table::system_pallete;
use rect::Rect;

verus! {

pub const TILE_SIZE: usize = 16;
pub const TILE_WIDTH: usize = 8;
pub const TILE_HEIGHT: usize = 8;
pub const ATTRIBUTE_OFFSET: usize = 960;
pub const NAME_TABLE_LEN: usize = 1024;
pub const DISPLAY_WIDTH: usize = 256;
pub const DISPLAY_HEIGHT: usize = 240;

/// Renders the whole frame: background first, sprites over it.
pub fn render(ppu: &Ppu, frame: &mut Frame)
    requires
        ppu.wf(),
        old(frame).wf(),
    ensures
        final(frame).wf(),
{
    draw_backgound(ppu, frame);
    draw_sprites(ppu, frame);
}

/// Draws the background: the name-table selected by the scroll registers is
/// placed at the scroll offset, and the adjoining name-table fills the strip
/// the scroll uncovers, horizontally or vertically.
fn draw_backgound(ppu: &Ppu, frame: &mut Frame)
    requires
        ppu.wf(),
        old(frame).wf(),
    ensures
        final(frame).wf(),
{
    let scroll_x = ppu.internal_regs.get_scroll_x() as usize;
    let scroll_y_raw = ppu.internal_regs.get_scroll_y() as usize;
    let nametable_select = ppu.internal_regs.get_nametable_select();
    proof {
        crate::bits::lemma_u16_facts();
    }
    // a Y scroll past the bottom of the display is clipped
    let scroll_y = if scroll_y_raw > DISPLAY_HEIGHT {
        DISPLAY_HEIGHT
    } else {
        scroll_y_raw
    };

    // which physical 1 KiB of video RAM backs the selected table, and which
    // backs the table the scroll runs into, per the mirroring mode
    let select_is_second: bool = match ppu.mirroring {
        crate::rom::Mirroring::Horizontal => nametable_select >= 2,
        _ => nametable_select & 1 == 1,
    };
    let (main_base, second_base): (usize, usize) = if select_is_second {
        (NAME_TABLE_LEN, 0)
    } else {
        (0, NAME_TABLE_LEN)
    };

    render_name_table(
        ppu,
        frame,
        main_base,
        Rect::new(scroll_x, scroll_y, DISPLAY_WIDTH, DISPLAY_HEIGHT),
        scroll_x,
        scroll_y,
        true,
    );

    if scroll_x > 0 {
        render_name_table(
            ppu,
            frame,
            second_base,
            Rect::new(0, 0, scroll_x, DISPLAY_HEIGHT),
            DISPLAY_WIDTH - scroll_x,
            0,
            false,
        );
    } else if scroll_y > 0 {
        render_name_table(
            ppu,
            frame,
            second_base,
            Rect::new(0, 0, DISPLAY_WIDTH, scroll_y),
            0,
            DISPLAY_HEIGHT - scroll_y,
            false,
        );
    }
}

/// The palette-slot group the attribute area assigns to a tile: each
/// attribute byte covers a 4 x 4 tile block, two bits per 2 x 2 quadrant.
pub open spec fn spec_bg_palette_start(attr_byte: u8, tile_col: int, tile_row: int) -> int {
    let quad_col = (tile_col % 4) / 2;
    let quad_row = (tile_row % 4) / 2;
    let idx = if quad_col == 0 && quad_row == 0 {
        attr_byte & 0x03
    } else if quad_col == 1 && quad_row == 0 {
        (attr_byte >> 2) & 0x03
    } else if quad_col == 0 && quad_row == 1 {
        (attr_byte >> 4) & 0x03
    } else {
        (attr_byte >> 6) & 0x03
    };
    1 + idx * 4
}

/// The four background-palette colours for the tile at the given column and
/// row, looked up through the name-table's attribute area.
fn bg_pallete(ppu: &Ppu, nt_base: usize, tile_col: usize, tile_row: usize) -> (r: (u8, u8, u8, u8))
    requires
        ppu.wf(),
        nt_base == 0 || nt_base == NAME_TABLE_LEN,
        tile_col < 32,
        tile_row < 30,
    ensures
        ({
            let attr = ppu.vram@[nt_base + ATTRIBUTE_OFFSET + (tile_row / 4) * 8 + tile_col / 4];
            let start = spec_bg_palette_start(attr, tile_col as int, tile_row as int);
            &&& r.0 == ppu.palette_table@[0]
            &&& r.1 == ppu.palette_table@[start]
            &&& r.2 == ppu.palette_table@[start + 1]
            &&& r.3 == ppu.palette_table@[start + 2]
        }),
{
    let attr_table_idx = (tile_row / 4) * 8 + tile_col / 4;
    let attr_byte = ppu.vram[nt_base + ATTRIBUTE_OFFSET + attr_table_idx];

    let pallet_idx: u8 = match ((tile_col % 4) / 2, (tile_row % 4) / 2) {
        (0, 0) => attr_byte & 0x03,
        (1, 0) => (attr_byte >> 2) & 0x03,
        (0, 1) => (attr_byte >> 4) & 0x03,
        _ => (attr_byte >> 6) & 0x03,
    };

    proof {
        crate::bits::lemma_u8_masks();
        let a = attr_byte;
        assert(a & 0x03 <= 3 && (a >> 2) & 0x03 <= 3 && (a >> 4) & 0x03 <= 3 && (a >> 6) & 0x03
            <= 3);
    }
    let pallete_start: usize = 1 + (pallet_idx as usize) * 4;

    (
        ppu.palette_table[0],
        ppu.palette_table[pallete_start],
        ppu.palette_table[pallete_start + 1],
        ppu.palette_table[pallete_start + 2],
    )
}

/// The three colours of a sprite palette (entry 0 is transparent).
fn sprite_palette(ppu: &Ppu, pal_idx: u8) -> (r: (u8, u8, u8, u8))
    requires
        ppu.wf(),
        pal_idx < 4,
    ensures
        r.0 == 0,
        r.1 == ppu.palette_table@[0x11 + pal_idx * 4],
        r.2 == ppu.palette_table@[0x12 + pal_idx * 4],
        r.3 == ppu.palette_table@[0x13 + pal_idx * 4],
{
    let start: usize = 0x11 + (pal_idx as usize) * 4;
    (0, ppu.palette_table[start], ppu.palette_table[start + 1], ppu.palette_table[start + 2])
}

/// Draws the 64 sprites back to front, honouring the flip bits; colour
/// index 0 is transparent.
fn draw_sprites(ppu: &Ppu, frame: &mut Frame)
    requires
        ppu.wf(),
        old(frame).wf(),
    ensures
        final(frame).wf(),
{
    let mut sprite: usize = 64;
    while sprite > 0
        invariant
            ppu.wf(),
            frame.wf(),
            sprite <= 64,
        decreases sprite,
    {
        sprite -= 1;
        let i: usize = sprite * 4;

        let tile_idx = ppu.oam_data[i + 1] as usize;
        let tile_x = ppu.oam_data[i + 3] as usize;
        let tile_y = ppu.oam_data[i] as usize;
        let tile_attr = ppu.oam_data[i + 2];

        let flip_ver = tile_attr & 0x80 != 0;
        let flip_hor = tile_attr & 0x40 != 0;

        let palette_idx = tile_attr & 0x03;
        proof {
            crate::bits::lemma_u8_masks();
        }
        let pal = sprite_palette(ppu, palette_idx);

        let bank = ppu.ctrl_reg.sprt_pattern_addr() as usize;
        let rom_idx = bank + tile_idx * TILE_SIZE;

        if rom_idx + TILE_SIZE <= ppu.chr_rom.len() {
            let mut y: usize = 0;
            while y < TILE_HEIGHT
                invariant
                    ppu.wf(),
                    frame.wf(),
                    y <= TILE_HEIGHT,
                    rom_idx + TILE_SIZE <= ppu.chr_rom@.len() <= usize::MAX,
                    tile_x <= 255,
                    tile_y <= 255,
                decreases TILE_HEIGHT - y,
            {
                let mut upper = ppu.chr_rom[rom_idx + y];
                let mut lower = ppu.chr_rom[rom_idx + y + TILE_WIDTH];

                let mut xr: usize = TILE_WIDTH;
                while xr > 0
                    invariant
                        ppu.wf(),
                        frame.wf(),
                        xr <= TILE_WIDTH,
                        y < TILE_HEIGHT,
                        tile_x <= 255,
                        tile_y <= 255,
                    decreases xr,
                {
                    xr -= 1;
                    let x = xr;
                    let val = ((1 & lower) << 1) | (1 & upper);
                    upper >>= 1;
                    lower >>= 1;

                    if val != 0 {
                        let rgb = if val == 1 {
                            system_pallete(pal.1)
                        } else if val == 2 {
                            system_pallete(pal.2)
                        } else {
                            system_pallete(pal.3)
                        };

                        let (pixel_x, pixel_y) = match (flip_hor, flip_ver) {
                            (false, false) => (tile_x + x, tile_y + y),
                            (true, false) => (tile_x + TILE_WIDTH - 1 - x, tile_y + y),
                            (false, true) => (tile_x + x, tile_y + TILE_HEIGHT - 1 - y),
                            (true, true) => (
                                tile_x + TILE_WIDTH - 1 - x,
                                tile_y + TILE_HEIGHT - 1 - y,
                            ),
                        };

                        if pixel_x < DISPLAY_WIDTH && pixel_y < DISPLAY_HEIGHT {
                            frame.set_pixel(pixel_x, pixel_y, rgb);
                        }
                    }
                }
                y += 1;
            }
        }
    }
}

/// Draws one name-table's 960 tiles, clipped to the viewport and shifted to
/// its place on screen.
fn render_name_table(
    ppu: &Ppu,
    frame: &mut Frame,
    nt_base: usize,
    view_port: Rect,
    shift_x: usize,
    shift_y: usize,
    shift_subtracts: bool,
)
    requires
        ppu.wf(),
        old(frame).wf(),
        nt_base == 0 || nt_base == NAME_TABLE_LEN,
        shift_x <= DISPLAY_WIDTH,
        shift_y <= DISPLAY_HEIGHT,
    ensures
        final(frame).wf(),
{
    let bank = ppu.ctrl_reg.bknd_pattern_addr() as usize;

    let mut i: usize = 0;
    while i < ATTRIBUTE_OFFSET
        invariant
            ppu.wf(),
            frame.wf(),
            i <= ATTRIBUTE_OFFSET,
            nt_base == 0 || nt_base == NAME_TABLE_LEN,
            shift_x <= DISPLAY_WIDTH,
            shift_y <= DISPLAY_HEIGHT,
            bank <= 0x1000,
        decreases ATTRIBUTE_OFFSET - i,
    {
        let tile_col = i % 32;
        let tile_row = i / 32;
        let tile_idx = ppu.vram[nt_base + i] as usize;
        let tile_offset = bank + tile_idx * TILE_SIZE;
        let pal = bg_pallete(ppu, nt_base, tile_col, tile_row);

        if tile_offset + TILE_SIZE <= ppu.chr_rom.len() {
            let mut y: usize = 0;
            while y < TILE_HEIGHT
                invariant
                    ppu.wf(),
                    frame.wf(),
                    y <= TILE_HEIGHT,
                    tile_col < 32,
                    tile_row < 30,
                    tile_offset + TILE_SIZE <= ppu.chr_rom@.len() <= usize::MAX,
                    shift_x <= DISPLAY_WIDTH,
                    shift_y <= DISPLAY_HEIGHT,
                decreases TILE_HEIGHT - y,
            {
                let mut upper = ppu.chr_rom[tile_offset + y];
                let mut lower = ppu.chr_rom[tile_offset + y + TILE_WIDTH];

                let mut xr: usize = TILE_WIDTH;
                while xr > 0
                    invariant
                        ppu.wf(),
                        frame.wf(),
                        xr <= TILE_WIDTH,
                        y < TILE_HEIGHT,
                        tile_col < 32,
                        tile_row < 30,
                        shift_x <= DISPLAY_WIDTH,
                        shift_y <= DISPLAY_HEIGHT,
                    decreases xr,
                {
                    xr -= 1;
                    let x = xr;
                    let val = ((1 & lower) << 1) | (1 & upper);
                    upper >>= 1;
                    lower >>= 1;

                    let rgb = if val == 0 {
                        system_pallete(pal.0)
                    } else if val == 1 {
                        system_pallete(pal.1)
                    } else if val == 2 {
                        system_pallete(pal.2)
                    } else {
                        system_pallete(pal.3)
                    };

                    let pixel_x = tile_col * TILE_WIDTH + x;
                    let pixel_y = tile_row * TILE_HEIGHT + y;

                    if pixel_x >= view_port.x1 && pixel_x < view_port.x2 && pixel_y >= view_port.y1
                        && pixel_y < view_port.y2 {
                        if shift_subtracts {
                            if pixel_x >= shift_x && pixel_y >= shift_y {
                                frame.set_pixel(pixel_x - shift_x, pixel_y - shift_y, rgb);
                            }
                        } else {
                            frame.set_pixel(pixel_x + shift_x, pixel_y + shift_y, rgb);
                        }
                    }
                }
                y += 1;
            }
        }
        i += 1;
    }
}

} // verus!
