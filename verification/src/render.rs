//! Scanline composition: background, window and sprite layers for one
//! visible line, exactly as the pixel generator lays them down on the
//! H-blank transition.

use vstd::prelude::*;

verus! {

pub const SCREEN_W: usize = 160;

pub const SCREEN_H: usize = 144;

/// A guarded video-RAM byte (indices are always in range in practice).
pub open spec fn vram_at(vram: Seq<u8>, idx: int) -> u8 {
    if 0 <= idx < vram.len() {
        vram[idx]
    } else {
        0xFF
    }
}

/// A guarded OAM byte.
pub open spec fn oam_at(oam: Seq<u8>, idx: int) -> u8 {
    if 0 <= idx < oam.len() {
        oam[idx]
    } else {
        0xFF
    }
}

/// The VRAM-relative base of the background tile map (bit 3 of LCDC).
pub open spec fn spec_bg_map_base(lcdc: u8) -> int {
    if lcdc & 0x08 != 0 {
        0x1C00
    } else {
        0x1800
    }
}

/// The VRAM-relative base of the window tile map (bit 6 of LCDC).
pub open spec fn spec_win_map_base(lcdc: u8) -> int {
    if lcdc & 0x40 != 0 {
        0x1C00
    } else {
        0x1800
    }
}

/// The VRAM-relative address of a tile row's first byte, under the tile
/// data addressing selected by bit 4 of LCDC: unsigned from 0x8000, or
/// signed around 0x9000.
pub open spec fn spec_tile_row_addr(lcdc: u8, tile: u8, row: int) -> int {
    if lcdc & 0x10 != 0 {
        tile * 16 + row * 2
    } else {
        0x1000 + (if tile < 128 {
            tile as int
        } else {
            tile - 256
        }) * 16 + row * 2
    }
}

/// The two-bit shade an index selects from a palette byte.
pub open spec fn spec_palette_shade(pal: u8, idx: u8) -> u8 {
    (pal >> (idx * 2)) & 0x03
}

/// The 2-bit colour index of the map pixel at source coordinates
/// (x_px, y_px) in 0..256, through the given tile map.
pub open spec fn spec_map_color_index(vram: Seq<u8>, lcdc: u8, map_base: int, x_px: int, y_px: int) -> u8 {
    let tile = vram_at(vram, map_base + (y_px / 8) * 32 + x_px / 8);
    let addr = spec_tile_row_addr(lcdc, tile, y_px % 8);
    let lo = vram_at(vram, addr);
    let hi = vram_at(vram, addr + 1);
    let bit = (7 - x_px % 8) as u8;
    (((hi >> bit) & 1) * 2 + ((lo >> bit) & 1)) as u8
}

/// Whether the window overwrites column `x` of line `ly`.
pub open spec fn spec_window_covers(lcdc: u8, wy: u8, wx: u8, ly: u8, x: int) -> bool {
    &&& lcdc & 0x20 != 0
    &&& lcdc & 0x01 != 0
    &&& ly >= wy
    &&& wx <= 166
    &&& x + 7 >= wx
}

/// The pre-palette colour index of the background/window layer at column
/// `x` of line `ly`; 0 while the layer is disabled.
pub open spec fn spec_bg_color_index(
    vram: Seq<u8>,
    lcdc: u8,
    scx: u8,
    scy: u8,
    wy: u8,
    wx: u8,
    ly: u8,
    x: int,
) -> u8 {
    if lcdc & 0x01 == 0 {
        0
    } else if spec_window_covers(lcdc, wy, wx, ly, x) {
        spec_map_color_index(vram, lcdc, spec_win_map_base(lcdc), x + 7 - wx, ly - wy)
    } else {
        spec_map_color_index(vram, lcdc, spec_bg_map_base(lcdc), (scx + x) % 256, (scy + ly) % 256)
    }
}

/// Sprite height in lines: 8, or 16 under bit 2 of LCDC.
pub open spec fn spec_sprite_height(lcdc: u8) -> int {
    if lcdc & 0x04 != 0 {
        16
    } else {
        8
    }
}

/// Whether OAM entry `k` lies on line `ly`.
pub open spec fn spec_sprite_on_line(oam: Seq<u8>, lcdc: u8, ly: u8, k: int) -> bool {
    let y = oam_at(oam, 4 * k);
    0 <= ly - (y - 16) < spec_sprite_height(lcdc)
}

/// The OAM indices of the sprites drawn on line `ly` among the first `k`
/// entries: address order, capped at the hardware limit of ten per line.
pub open spec fn spec_selected_upto(oam: Seq<u8>, lcdc: u8, ly: u8, k: int) -> Seq<int>
    decreases k,
{
    if k <= 0 {
        Seq::empty()
    } else {
        let pre = spec_selected_upto(oam, lcdc, ly, k - 1);
        if spec_sprite_on_line(oam, lcdc, ly, k - 1) && pre.len() < 10 {
            pre.push(k - 1)
        } else {
            pre
        }
    }
}

/// The sprites drawn on line `ly`.
pub open spec fn spec_selected_sprites(oam: Seq<u8>, lcdc: u8, ly: u8) -> Seq<int> {
    spec_selected_upto(oam, lcdc, ly, 40)
}

/// Whether sprite `k` covers column `x`.
pub open spec fn spec_sprite_covers(oam: Seq<u8>, k: int, x: int) -> bool {
    let sx = oam_at(oam, 4 * k + 1);
    0 <= x - (sx - 8) < 8
}

/// The 2-bit colour index of sprite `k` at column `x` of line `ly`,
/// honouring the X- and Y-flip attribute bits; index 0 is transparent.
pub open spec fn spec_sprite_color_index(
    vram: Seq<u8>,
    oam: Seq<u8>,
    lcdc: u8,
    k: int,
    ly: u8,
    x: int,
) -> u8 {
    let y = oam_at(oam, 4 * k);
    let tile = oam_at(oam, 4 * k + 2);
    let attr = oam_at(oam, 4 * k + 3);
    let height = spec_sprite_height(lcdc);
    let row0 = ly - (y - 16);
    let row = if attr & 0x40 != 0 {
        height - 1 - row0
    } else {
        row0
    };
    let sx = oam_at(oam, 4 * k + 1);
    let col0 = x - (sx - 8);
    let col = if attr & 0x20 != 0 {
        7 - col0
    } else {
        col0
    };
    let tile_eff = if height == 16 {
        tile & 0xFE
    } else {
        tile
    };
    let addr = tile_eff * 16 + row * 2;
    let lo = vram_at(vram, addr);
    let hi = vram_at(vram, addr + 1);
    let bit = (7 - col) as u8;
    (((hi >> bit) & 1) * 2 + ((lo >> bit) & 1)) as u8
}

/// The first selected sprite, from position `j` of the selection onward,
/// that covers column `x` with a non-transparent pixel: its colour index
/// and attribute byte.
pub open spec fn spec_first_sprite_hit(
    vram: Seq<u8>,
    oam: Seq<u8>,
    lcdc: u8,
    sel: Seq<int>,
    j: int,
    ly: u8,
    x: int,
) -> Option<(u8, u8)>
    decreases sel.len() - j,
{
    if j < 0 || j >= sel.len() {
        None
    } else {
        let k = sel[j];
        let idx = spec_sprite_color_index(vram, oam, lcdc, k, ly, x);
        if spec_sprite_covers(oam, k, x) && idx != 0 {
            Some((idx, oam_at(oam, 4 * k + 3)))
        } else {
            spec_first_sprite_hit(vram, oam, lcdc, sel, j + 1, ly, x)
        }
    }
}

/// The final 2-bit shade of column `x` of line `ly`: the background or
/// window shade, overlaid by the winning sprite pixel unless that sprite
/// sits behind a non-zero background/window colour.
pub open spec fn spec_line_pixel(
    vram: Seq<u8>,
    oam: Seq<u8>,
    lcdc: u8,
    scx: u8,
    scy: u8,
    bgp: u8,
    obp0: u8,
    obp1: u8,
    wy: u8,
    wx: u8,
    ly: u8,
    x: int,
) -> u8 {
    let bidx = spec_bg_color_index(vram, lcdc, scx, scy, wy, wx, ly, x);
    let bshade = if lcdc & 0x01 == 0 {
        0u8
    } else {
        spec_palette_shade(bgp, bidx)
    };
    if lcdc & 0x02 == 0 {
        bshade
    } else {
        match spec_first_sprite_hit(
            vram,
            oam,
            lcdc,
            spec_selected_sprites(oam, lcdc, ly),
            0,
            ly,
            x,
        ) {
            Some(hit) => {
                if hit.1 & 0x80 != 0 && bidx != 0 {
                    bshade
                } else {
                    spec_palette_shade(
                        if hit.1 & 0x10 != 0 {
                            obp1
                        } else {
                            obp0
                        },
                        hit.0,
                    )
                }
            },
            None => bshade,
        }
    }
}

fn vram_byte(vram: &Vec<u8>, idx: usize) -> (r: u8)
    ensures
        r == vram_at(vram@, idx as int),
{
    if idx < vram.len() {
        vram[idx]
    } else {
        0xFF
    }
}

fn oam_byte(oam: &Vec<u8>, idx: usize) -> (r: u8)
    ensures
        r == oam_at(oam@, idx as int),
{
    if idx < oam.len() {
        oam[idx]
    } else {
        0xFF
    }
}

/// The shade an index selects from a palette byte.
pub fn palette_shade(pal: u8, idx: u8) -> (r: u8)
    requires
        idx <= 3,
    ensures
        r == spec_palette_shade(pal, idx),
        r <= 3,
{
    proof {
        crate::bits::lemma_low_bits(pal >> (idx * 2));
    }
    (pal >> (idx * 2)) & 0x03
}

fn map_color_index(vram: &Vec<u8>, lcdc: u8, map_base: usize, x_px: usize, y_px: usize) -> (r: u8)
    requires
        x_px < 256,
        y_px < 256,
        map_base == spec_bg_map_base(lcdc) || map_base == spec_win_map_base(lcdc),
    ensures
        r == spec_map_color_index(vram@, lcdc, map_base as int, x_px as int, y_px as int),
        r <= 3,
{
    let tile = vram_byte(vram, map_base + (y_px / 8) * 32 + x_px / 8);
    let addr: usize = if lcdc & 0x10 != 0 {
        tile as usize * 16 + (y_px % 8) * 2
    } else {
        if tile < 128 {
            0x1000 + tile as usize * 16 + (y_px % 8) * 2
        } else {
            0x1000 - (256 - tile as usize) * 16 + (y_px % 8) * 2
        }
    };
    let lo = vram_byte(vram, addr);
    let hi = vram_byte(vram, addr + 1);
    let bit: u8 = (7 - (x_px % 8)) as u8;
    proof {
        crate::bits::lemma_low_bits(hi >> bit);
        crate::bits::lemma_low_bits(lo >> bit);
    }
    ((hi >> bit) & 1) * 2 + ((lo >> bit) & 1)
}

fn window_covers(lcdc: u8, wy: u8, wx: u8, ly: u8, x: usize) -> (r: bool)
    requires
        x < 160,
    ensures
        r == spec_window_covers(lcdc, wy, wx, ly, x as int),
{
    lcdc & 0x20 != 0 && lcdc & 0x01 != 0 && ly >= wy && wx <= 166 && x + 7 >= wx as usize
}

fn bg_color_index(
    vram: &Vec<u8>,
    lcdc: u8,
    scx: u8,
    scy: u8,
    wy: u8,
    wx: u8,
    ly: u8,
    x: usize,
) -> (r: u8)
    requires
        x < 160,
    ensures
        r == spec_bg_color_index(vram@, lcdc, scx, scy, wy, wx, ly, x as int),
        r <= 3,
{
    if lcdc & 0x01 == 0 {
        0
    } else if window_covers(lcdc, wy, wx, ly, x) {
        let base: usize = if lcdc & 0x40 != 0 {
            0x1C00
        } else {
            0x1800
        };
        map_color_index(vram, lcdc, base, x + 7 - wx as usize, (ly - wy) as usize)
    } else {
        let base: usize = if lcdc & 0x08 != 0 {
            0x1C00
        } else {
            0x1800
        };
        map_color_index(vram, lcdc, base, (scx as usize + x) % 256, (scy as usize + ly as usize) % 256)
    }
}

fn sprite_height(lcdc: u8) -> (r: usize)
    ensures
        r == spec_sprite_height(lcdc),
{
    if lcdc & 0x04 != 0 {
        16
    } else {
        8
    }
}

fn sprite_on_line(oam: &Vec<u8>, lcdc: u8, ly: u8, k: usize) -> (r: bool)
    requires
        k < 40,
    ensures
        r == spec_sprite_on_line(oam@, lcdc, ly, k as int),
{
    let y = oam_byte(oam, 4 * k);
    let h = sprite_height(lcdc);
    ly as usize + 16 >= y as usize && (ly as usize) + 16 < y as usize + h
}

fn sprite_covers(oam: &Vec<u8>, k: usize, x: usize) -> (r: bool)
    requires
        k < 40,
        x < 160,
    ensures
        r == spec_sprite_covers(oam@, k as int, x as int),
{
    let sx = oam_byte(oam, 4 * k + 1);
    x + 8 >= sx as usize && x + 8 < sx as usize + 8
}

fn sprite_color_index(vram: &Vec<u8>, oam: &Vec<u8>, lcdc: u8, k: usize, ly: u8, x: usize) -> (r: u8)
    requires
        k < 40,
        spec_sprite_on_line(oam@, lcdc, ly, k as int),
        spec_sprite_covers(oam@, k as int, x as int),
    ensures
        r == spec_sprite_color_index(vram@, oam@, lcdc, k as int, ly, x as int),
        r <= 3,
{
    let y = oam_byte(oam, 4 * k);
    let tile = oam_byte(oam, 4 * k + 2);
    let attr = oam_byte(oam, 4 * k + 3);
    let height = sprite_height(lcdc);
    let row0: usize = ly as usize + 16 - y as usize;
    let row: usize = if attr & 0x40 != 0 {
        height - 1 - row0
    } else {
        row0
    };
    let sx = oam_byte(oam, 4 * k + 1);
    let col0: usize = x + 8 - sx as usize;
    let col: usize = if attr & 0x20 != 0 {
        7 - col0
    } else {
        col0
    };
    let tile_eff: u8 = if height == 16 {
        tile & 0xFE
    } else {
        tile
    };
    proof {
        assert(tile & 0xFE <= 254) by (bit_vector);
    }
    let addr: usize = tile_eff as usize * 16 + row * 2;
    let lo = vram_byte(vram, addr);
    let hi = vram_byte(vram, addr + 1);
    let bit: u8 = (7 - col) as u8;
    proof {
        crate::bits::lemma_low_bits(hi >> bit);
        crate::bits::lemma_low_bits(lo >> bit);
    }
    ((hi >> bit) & 1) * 2 + ((lo >> bit) & 1)
}

/// The sprites drawn on line `ly`: the first ten OAM entries, in address
/// order, that lie on the line.
fn selected_sprites(oam: &Vec<u8>, lcdc: u8, ly: u8) -> (r: Vec<usize>)
    ensures
        r@.len() == spec_selected_sprites(oam@, lcdc, ly).len(),
        forall|j: int|
            0 <= j < r@.len() ==> r@[j] as int == spec_selected_sprites(oam@, lcdc, ly)[j],
        forall|j: int| 0 <= j < r@.len() ==> r@[j] < 40,
        forall|j: int|
            0 <= j < r@.len() ==> spec_sprite_on_line(oam@, lcdc, ly, r@[j] as int),
{
    let mut sel: Vec<usize> = Vec::new();
    let mut k: usize = 0;
    while k < 40
        invariant
            k <= 40,
            sel@.len() == spec_selected_upto(oam@, lcdc, ly, k as int).len(),
            forall|j: int|
                0 <= j < sel@.len() ==> sel@[j] as int == spec_selected_upto(
                    oam@,
                    lcdc,
                    ly,
                    k as int,
                )[j],
            forall|j: int| 0 <= j < sel@.len() ==> sel@[j] < 40,
            forall|j: int|
                0 <= j < sel@.len() ==> spec_sprite_on_line(oam@, lcdc, ly, sel@[j] as int),
        decreases 40 - k,
    {
        if sprite_on_line(oam, lcdc, ly, k) && sel.len() < 10 {
            sel.push(k);
        }
        k = k + 1;
    }
    sel
}

/// The winning sprite pixel at column `x`, if any: the first selected
/// sprite covering the column with a non-transparent colour.
fn first_sprite_hit(
    vram: &Vec<u8>,
    oam: &Vec<u8>,
    lcdc: u8,
    sel: &Vec<usize>,
    ly: u8,
    x: usize,
) -> (r: Option<(u8, u8)>)
    requires
        sel@.len() == spec_selected_sprites(oam@, lcdc, ly).len(),
        forall|j: int|
            0 <= j < sel@.len() ==> sel@[j] as int == spec_selected_sprites(oam@, lcdc, ly)[j],
        forall|j: int| 0 <= j < sel@.len() ==> sel@[j] < 40,
        forall|j: int|
            0 <= j < sel@.len() ==> spec_sprite_on_line(oam@, lcdc, ly, sel@[j] as int),
        x < 160,
    ensures
        (r matches Some(h) ==> h.0 <= 3),
        r == spec_first_sprite_hit(
            vram@,
            oam@,
            lcdc,
            spec_selected_sprites(oam@, lcdc, ly),
            0,
            ly,
            x as int,
        ),
{
    let ghost spec_sel = spec_selected_sprites(oam@, lcdc, ly);
    let mut j: usize = 0;
    while j < sel.len()
        invariant
            j <= sel@.len(),
            sel@.len() == spec_sel.len(),
            spec_sel == spec_selected_sprites(oam@, lcdc, ly),
            forall|i: int| 0 <= i < sel@.len() ==> sel@[i] as int == spec_sel[i],
            forall|i: int| 0 <= i < sel@.len() ==> sel@[i] < 40,
            forall|i: int|
                0 <= i < sel@.len() ==> spec_sprite_on_line(oam@, lcdc, ly, sel@[i] as int),
            x < 160,
            spec_first_sprite_hit(vram@, oam@, lcdc, spec_sel, 0, ly, x as int)
                == spec_first_sprite_hit(vram@, oam@, lcdc, spec_sel, j as int, ly, x as int),
        decreases sel@.len() - j,
    {
        let k = sel[j];
        if sprite_covers(oam, k, x) {
            let idx = sprite_color_index(vram, oam, lcdc, k, ly, x);
            if idx != 0 {
                return Some((idx, oam_byte(oam, 4 * k + 3)));
            }
        }
        j = j + 1;
    }
    None
}

/// Compose one visible line into the frame buffer.
pub fn render_line(
    fb: &mut Vec<u8>,
    vram: &Vec<u8>,
    oam: &Vec<u8>,
    lcdc: u8,
    scx: u8,
    scy: u8,
    bgp: u8,
    obp0: u8,
    obp1: u8,
    wy: u8,
    wx: u8,
    ly: u8,
)
    requires
        old(fb)@.len() == SCREEN_W * SCREEN_H,
        ly < 144,
    ensures
        final(fb)@ == spec_render_line(old(fb)@, vram@, oam@, lcdc, scx, scy, bgp, obp0, obp1, wy, wx, ly),
{
    let sel = selected_sprites(oam, lcdc, ly);
    let ghost fb0 = fb@;
    let base: usize = ly as usize * 160;
    let mut x: usize = 0;
    while x < 160
        invariant
            x <= 160,
            base == ly * 160,
            ly < 144,
            fb@.len() == fb0.len() == SCREEN_W * SCREEN_H,
            sel@.len() == spec_selected_sprites(oam@, lcdc, ly).len(),
            forall|j: int|
                0 <= j < sel@.len() ==> sel@[j] as int == spec_selected_sprites(oam@, lcdc, ly)[j],
            forall|j: int| 0 <= j < sel@.len() ==> sel@[j] < 40,
            forall|j: int|
                0 <= j < sel@.len() ==> spec_sprite_on_line(oam@, lcdc, ly, sel@[j] as int),
            forall|j: int|
                0 <= j < fb0.len() && !(base <= j < base + x) ==> fb@[j] == fb0[j],
            forall|j: int|
                base <= j < base + x ==> fb@[j] == spec_line_pixel(
                    vram@,
                    oam@,
                    lcdc,
                    scx,
                    scy,
                    bgp,
                    obp0,
                    obp1,
                    wy,
                    wx,
                    ly,
                    j - base,
                ),
        decreases 160 - x,
    {
        let bidx = bg_color_index(vram, lcdc, scx, scy, wy, wx, ly, x);
        let bshade: u8 = if lcdc & 0x01 == 0 {
            0
        } else {
            palette_shade(bgp, bidx)
        };
        let pixel: u8 = if lcdc & 0x02 == 0 {
            bshade
        } else {
            match first_sprite_hit(vram, oam, lcdc, &sel, ly, x) {
                Some(hit) => {
                    if hit.1 & 0x80 != 0 && bidx != 0 {
                        bshade
                    } else {
                        palette_shade(
                            if hit.1 & 0x10 != 0 {
                                obp1
                            } else {
                                obp0
                            },
                            hit.0,
                        )
                    }
                },
                None => bshade,
            }
        };
        fb.set(base + x, pixel);
        x = x + 1;
    }
    proof {
        assert(fb@ =~= spec_render_line(fb0, vram@, oam@, lcdc, scx, scy, bgp, obp0, obp1, wy, wx, ly));
    }
}

/// The frame buffer with line `ly` recomposed.
pub open spec fn spec_render_line(
    fb: Seq<u8>,
    vram: Seq<u8>,
    oam: Seq<u8>,
    lcdc: u8,
    scx: u8,
    scy: u8,
    bgp: u8,
    obp0: u8,
    obp1: u8,
    wy: u8,
    wx: u8,
    ly: u8,
) -> Seq<u8> {
    Seq::new(
        fb.len(),
        |j: int|
            if ly * 160 <= j < ly * 160 + 160 {
                spec_line_pixel(vram, oam, lcdc, scx, scy, bgp, obp0, obp1, wy, wx, ly, j - ly * 160)
            } else {
                fb[j]
            },
    )
}

} // verus!
