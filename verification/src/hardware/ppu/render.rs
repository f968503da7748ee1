//! Drawing one scanline into the back buffer: background, window and
//! sprites.
use vstd::prelude::*;
use crate::gameboy::Color;
use crate::gameboy::SCREEN_PIXELS;
use crate::gameboy::SCREEN_WIDTH;
use crate::hardware::ppu::Ppu;
use crate::hardware::ppu::LCDC_BG_ADDR;
use crate::hardware::ppu::LCDC_BG_MAP;
use crate::hardware::ppu::LCDC_BG_ON;
use crate::hardware::ppu::LCDC_OBJ_ON;
use crate::hardware::ppu::LCDC_OBJ_SIZE;
use crate::hardware::ppu::LCDC_WINDOW_MAP;
use crate::hardware::ppu::LCDC_WINDOW_ON;
use crate::hardware::ppu::sprite_list::sprite_list_get;
use crate::hardware::ppu::sprite_list::sprite_list_items;
use crate::hardware::ppu::sprite_list::sprite_list_len;
use crate::hardware::ppu::sprite_list::sprite_list_new;
use crate::hardware::ppu::sprite_list::sprite_list_push;
use crate::hardware::ppu::sprite_list::SpriteEntry;
use crate::hardware::ppu::sprite_list::SpriteList;

verus! {

/// Sprite attribute bits.
pub const SPRITE_PALETTE: u8 = 0x10;
pub const SPRITE_FLIPX: u8 = 0x20;
pub const SPRITE_FLIPY: u8 = 0x40;
pub const SPRITE_PRIORITY: u8 = 0x80;

/// At most this many sprites are shown on one line.
pub const MAX_SPRITES_PER_LINE: usize = 10;
/// Number of sprites in OAM.
pub const OAM_SPRITES: usize = 40;

/// A sprite as read from OAM, with its position moved to screen
/// coordinates.
#[derive(Clone, Copy, Debug, PartialEq, Eq, Structural)]
pub struct Sprite {
    pub x: u8,
    pub y: u8,
    pub tile_num: u8,
    pub flags: u8,
}

/// The four bytes of a sprite in a sprite list.
pub open spec fn spec_entry(s: Sprite) -> SpriteEntry {
    (s.y, s.x, s.tile_num, s.flags)
}

/// A sprite list holds the sprites of `sprites`, in order.
pub open spec fn holds(list: SpriteList, sprites: Seq<Sprite>) -> bool {
    &&& sprite_list_items(list).len() == sprites.len()
    &&& forall|i: int| 0 <= i < sprites.len() ==> sprite_list_items(list)[i] == spec_entry(
        #[trigger] sprites[i],
    )
}

/// The tile data index of a tile number: unsigned from 0x8000, or signed
/// around 0x9000.
pub open spec fn spec_tile_index(control: u8, tile_num: u8) -> usize {
    if control & LCDC_BG_ADDR != 0 {
        tile_num as usize
    } else {
        (128 + ((tile_num as i8) as int + 128)) as usize
    }
}

/// The colour number of pixel `bit` (7 is leftmost) of row `row` of tile
/// `tile`.
pub open spec fn spec_tile_color(vram: Seq<u8>, tile: usize, row: u8, bit: u8) -> u8 {
    let line = (row * 2) as usize;
    let data1 = vram[(((tile * 16) as usize | line) & 0x1fff) as int];
    let data2 = vram[(((tile * 16) as usize | (line + 1) as usize) & 0x1fff) as int];
    (((data2 >> bit) & 1) * 2 + ((data1 >> bit) & 1)) as u8
}

/// The colour number at (`x`, `y`) of the tile map at `map_base`.
pub open spec fn spec_map_color(vram: Seq<u8>, control: u8, map_base: usize, x: u8, y: u8) -> u8 {
    let row = (y / 8) as usize;
    let col = (x / 8) as usize;
    let tile_num = vram[((((row * 32 + col) as usize) | map_base) & 0x1fff) as int];
    spec_tile_color(vram, spec_tile_index(control, tile_num), y % 8, (7 - x % 8) as u8)
}

/// Sprite `k` of OAM.
pub open spec fn spec_oam_sprite(oam: Seq<u8>, k: int) -> Sprite {
    Sprite {
        y: oam[4 * k].wrapping_sub(16),
        x: oam[4 * k + 1].wrapping_sub(8),
        tile_num: oam[4 * k + 2],
        flags: oam[4 * k + 3],
    }
}

/// Whether a sprite of height `size` covers line `line`.
pub open spec fn spec_on_line(s: Sprite, line: u8, size: u8) -> bool {
    line.wrapping_sub(s.y) < size
}

/// The first ten of the first `k` sprites of OAM that cover the line, in
/// OAM order.
pub open spec fn spec_selected(oam: Seq<u8>, line: u8, size: u8, k: nat) -> Seq<Sprite>
    decreases k,
{
    if k == 0 {
        Seq::empty()
    } else {
        let prev = spec_selected(oam, line, size, (k - 1) as nat);
        let s = spec_oam_sprite(oam, k - 1);
        if prev.len() < MAX_SPRITES_PER_LINE && spec_on_line(s, line, size) {
            prev.push(s)
        } else {
            prev
        }
    }
}

/// The tile and the row in it that a sprite shows on the line.
pub open spec fn spec_sprite_tile_row(s: Sprite, line: u8, size: u8) -> (usize, u8) {
    let d = line.wrapping_sub(s.y);
    let l = if s.flags & SPRITE_FLIPY != 0 {
        (size - d - 1) as u8
    } else {
        d
    };
    if l >= 8 {
        ((s.tile_num + 1) as usize, (l - 8) as u8)
    } else {
        (s.tile_num as usize, l)
    }
}

/// The colour number that a sprite has at screen column `t`, if it covers
/// that column.
pub open spec fn spec_sprite_raw(vram: Seq<u8>, s: Sprite, line: u8, size: u8, t: u8) -> Option<u8> {
    let c = t.wrapping_sub(s.x);
    if c >= 8 {
        None
    } else {
        let tr = spec_sprite_tile_row(s, line, size);
        let bit = if s.flags & SPRITE_FLIPX != 0 {
            c
        } else {
            (7 - c) as u8
        };
        Some(spec_tile_color(vram, tr.0, tr.1, bit))
    }
}

impl Ppu {
    pub open spec fn spec_obj_size(&self) -> u8 {
        if self.control & LCDC_OBJ_SIZE != 0 {
            16
        } else {
            8
        }
    }

    pub open spec fn spec_bg_map(&self) -> usize {
        if self.control & LCDC_BG_MAP != 0 {
            0x1c00
        } else {
            0x1800
        }
    }

    pub open spec fn spec_window_map(&self) -> usize {
        if self.control & LCDC_WINDOW_MAP != 0 {
            0x1c00
        } else {
            0x1800
        }
    }

    /// The leftmost screen column of the window.
    pub open spec fn spec_window_left(&self) -> u8 {
        self.window_x.wrapping_sub(7)
    }

    /// Whether the window covers column `i` of the current line.
    pub open spec fn spec_window_covers(&self, i: u8) -> bool {
        self.control & LCDC_WINDOW_ON != 0 && self.window_y <= self.current_line
            && self.spec_window_left() <= i
    }

    /// The colour number of the background or window at column `i`.
    pub open spec fn spec_bg_raw(&self, i: u8) -> u8 {
        let x0 = i.wrapping_add(self.scroll_x);
        if self.spec_window_covers(i) {
            let left = self.spec_window_left();
            let x = if x0 >= left {
                (i - left) as u8
            } else {
                x0
            };
            spec_map_color(
                self.vram@,
                self.control,
                self.spec_window_map(),
                x,
                (self.current_line - self.window_y) as u8,
            )
        } else {
            spec_map_color(
                self.vram@,
                self.control,
                self.spec_bg_map(),
                x0,
                self.current_line.wrapping_add(self.scroll_y),
            )
        }
    }

    /// The sprites shown on the current line.
    pub open spec fn spec_sprites(&self) -> Seq<Sprite> {
        spec_selected(self.oam@, self.current_line, self.spec_obj_size(), OAM_SPRITES as nat)
    }

    /// The sprite pixel shown at column `t` among the first `k` sprites: the
    /// one of the lowest X coordinate, the first in OAM on a tie, among
    /// those with a visible pixel there; `bg_prio` says that the
    /// background has a colour there, which hides sprites behind it.
    pub open spec fn spec_sprite_fold(&self, sprites: Seq<Sprite>, k: nat, t: u8, bg_prio: bool) -> Option<(u8, Color)>
        decreases k,
    {
        if k == 0 {
            None
        } else {
            let prev = self.spec_sprite_fold(sprites, (k - 1) as nat, t, bg_prio);
            let s = sprites[k - 1];
            match spec_sprite_raw(self.vram@, s, self.current_line, self.spec_obj_size(), t) {
                Some(raw) => if raw != 0 && (s.flags & SPRITE_PRIORITY == 0 || !bg_prio) && (
                prev is None || s.x < prev.unwrap().0) {
                    let palette = if s.flags & SPRITE_PALETTE != 0 {
                        self.obj_palette1
                    } else {
                        self.obj_palette0
                    };
                    Some((s.x, palette.spec_get(Color::spec_from_u8(raw))))
                } else {
                    prev
                },
                None => prev,
            }
        }
    }

    /// The shade of column `i` of the current line once it is drawn; with
    /// the background off, the column keeps what the buffer held.
    pub open spec fn spec_line_pixel(&self, i: u8) -> Color {
        let old_px = self.back_buffer@[SCREEN_WIDTH * self.current_line + i];
        let raw = self.spec_bg_raw(i);
        let bg_on = self.control & LCDC_BG_ON != 0;
        let bg_color = if bg_on {
            self.bg_palette.spec_get(Color::spec_from_u8(raw))
        } else {
            old_px
        };
        let bg_prio = bg_on && raw != 0;
        if self.control & LCDC_OBJ_ON != 0 {
            match self.spec_sprite_fold(self.spec_sprites(), self.spec_sprites().len(), i, bg_prio) {
                Some(p) => p.1,
                None => bg_color,
            }
        } else {
            bg_color
        }
    }

    /// The back buffer with the current line drawn.
    pub open spec fn spec_drawn_buffer(&self) -> Seq<Color> {
        let start = SCREEN_WIDTH * self.current_line;
        Seq::new(
            self.back_buffer@.len(),
            |j: int|
                if start <= j < start + SCREEN_WIDTH {
                    self.spec_line_pixel((j - start) as u8)
                } else {
                    self.back_buffer@[j]
                },
        )
    }

    fn tile_color(&self, tile: usize, row: u8, bit: u8) -> (r: u8)
        requires
            self.wf_memory(),
            tile < 512,
            row < 8,
            bit < 8,
        ensures
            r == spec_tile_color(self.vram@, tile, row, bit),
            r < 4,
    {
        let line = (row * 2) as usize;
        let base = tile * 16;
        proof {
            crate::util::lemma_and_le_usize(base | line, 0x1fff);
            crate::util::lemma_and_le_usize(base | ((line + 1) as usize), 0x1fff);
        }
        let data1 = self.vram[(base | line) & 0x1fff];
        let data2 = self.vram[(base | (line + 1)) & 0x1fff];
        let hi = (data2 >> bit) & 1;
        let lo = (data1 >> bit) & 1;
        assert(hi <= 1 && lo <= 1) by (bit_vector)
            requires
                hi == (data2 >> bit) & 1,
                lo == (data1 >> bit) & 1,
        ;
        hi * 2 + lo
    }

    fn map_color(&self, map_base: usize, x: u8, y: u8) -> (r: u8)
        requires
            self.wf_memory(),
            map_base == 0x1800 || map_base == 0x1c00,
        ensures
            r == spec_map_color(self.vram@, self.control, map_base, x, y),
            r < 4,
    {
        let row = (y / 8) as usize;
        let col = (x / 8) as usize;
        let cell: usize = row * 32 + col;
        proof {
            crate::util::lemma_and_le_usize(cell | map_base, 0x1fff);
        }
        let tile_num = self.vram[(cell | map_base) & 0x1fff];
        let tile: usize = if self.control & LCDC_BG_ADDR != 0 {
            tile_num as usize
        } else {
            128 + ((tile_num as i8 as i16) + 128) as usize
        };
        self.tile_color(tile, y % 8, 7 - x % 8)
    }

    fn bg_raw(&self, i: u8) -> (r: u8)
        requires
            self.wf_memory(),
        ensures
            r == self.spec_bg_raw(i),
            r < 4,
    {
        let x0 = i.wrapping_add(self.scroll_x);
        let left = self.window_x.wrapping_sub(7);
        if self.control & LCDC_WINDOW_ON != 0 && self.window_y <= self.current_line && left <= i {
            let map_base: usize = if self.control & LCDC_WINDOW_MAP != 0 {
                0x1c00
            } else {
                0x1800
            };
            let x = if x0 >= left {
                i - left
            } else {
                x0
            };
            self.map_color(map_base, x, self.current_line - self.window_y)
        } else {
            let map_base: usize = if self.control & LCDC_BG_MAP != 0 {
                0x1c00
            } else {
                0x1800
            };
            self.map_color(map_base, x0, self.current_line.wrapping_add(self.scroll_y))
        }
    }

    fn obj_size(&self) -> (r: u8)
        ensures
            r == self.spec_obj_size(),
    {
        if self.control & LCDC_OBJ_SIZE != 0 {
            16
        } else {
            8
        }
    }

    /// The sprites that cover the current line, at most ten, in OAM order.
    fn select_sprites(&self) -> (r: SpriteList)
        requires
            self.wf_memory(),
        ensures
            holds(r, self.spec_sprites()),
            self.spec_sprites().len() <= MAX_SPRITES_PER_LINE,
    {
        let size = self.obj_size();
        let line = self.current_line;
        let mut sprites = sprite_list_new();
        let mut k: usize = 0;
        while k < OAM_SPRITES
            invariant
                self.wf_memory(),
                size == self.spec_obj_size(),
                line == self.current_line,
                k <= OAM_SPRITES,
                holds(sprites, spec_selected(self.oam@, line, size, k as nat)),
                spec_selected(self.oam@, line, size, k as nat).len() <= MAX_SPRITES_PER_LINE,
            decreases OAM_SPRITES - k,
        {
            let ghost before = spec_selected(self.oam@, line, size, k as nat);
            let s = Sprite {
                y: self.oam[4 * k].wrapping_sub(16),
                x: self.oam[4 * k + 1].wrapping_sub(8),
                tile_num: self.oam[4 * k + 2],
                flags: self.oam[4 * k + 3],
            };
            if sprite_list_len(&sprites) < MAX_SPRITES_PER_LINE && line.wrapping_sub(s.y) < size {
                sprite_list_push(&mut sprites, (s.y, s.x, s.tile_num, s.flags));
                proof {
                    let after = before.push(s);
                    assert forall|i: int| 0 <= i < after.len() implies sprite_list_items(sprites)[i]
                        == spec_entry(#[trigger] after[i]) by {
                        if i < before.len() {
                            assert(after[i] == before[i]);
                        }
                    }
                }
            }
            k += 1;
        }
        sprites
    }

    /// The colour number of sprite `s` at column `t`, if it covers it.
    fn sprite_raw(&self, s: Sprite, t: u8) -> (r: Option<u8>)
        requires
            self.wf_memory(),
            spec_on_line(s, self.current_line, self.spec_obj_size()),
        ensures
            r == spec_sprite_raw(self.vram@, s, self.current_line, self.spec_obj_size(), t),
            r matches Some(v) ==> v < 4,
    {
        let c = t.wrapping_sub(s.x);
        if c >= 8 {
            return None;
        }
        let size = self.obj_size();
        let d = self.current_line.wrapping_sub(s.y);
        let l = if s.flags & SPRITE_FLIPY != 0 {
            size - d - 1
        } else {
            d
        };
        let (tile, row): (usize, u8) = if l >= 8 {
            (s.tile_num as usize + 1, l - 8)
        } else {
            (s.tile_num as usize, l)
        };
        let bit = if s.flags & SPRITE_FLIPX != 0 {
            c
        } else {
            7 - c
        };
        Some(self.tile_color(tile, row, bit))
    }

    /// The shade of column `i` once the line is drawn.
    fn line_pixel(&self, i: u8, sprites: &SpriteList) -> (r: Color)
        requires
            self.wf_memory(),
            self.current_line < 144,
            i < SCREEN_WIDTH,
            holds(*sprites, self.spec_sprites()),
        ensures
            r == self.spec_line_pixel(i),
    {
        let old_px = self.back_buffer[SCREEN_WIDTH * self.current_line as usize + i as usize];
        let raw = self.bg_raw(i);
        let bg_on = self.control & LCDC_BG_ON != 0;
        let bg_color = if bg_on {
            self.bg_palette.get(&Color::from_u8(raw))
        } else {
            old_px
        };
        let bg_prio = bg_on && raw != 0;
        if self.control & LCDC_OBJ_ON == 0 {
            return bg_color;
        }
        let mut best: Option<(u8, Color)> = None;
        let mut k: usize = 0;
        let n = sprite_list_len(sprites);
        while k < n
            invariant
                self.wf_memory(),
                holds(*sprites, self.spec_sprites()),
                n == self.spec_sprites().len(),
                k <= n,
                best == self.spec_sprite_fold(self.spec_sprites(), k as nat, i, bg_prio),
            decreases n - k,
        {
            let e = sprite_list_get(sprites, k);
            let s = Sprite { y: e.0, x: e.1, tile_num: e.2, flags: e.3 };
            assert(s == self.spec_sprites()[k as int]);
            proof {
                lemma_selected_on_line(self.oam@, self.current_line, self.spec_obj_size(), OAM_SPRITES as nat, k as int);
            }
            match self.sprite_raw(s, i) {
                Some(raw) => {
                    let beats = match best {
                        Some(b) => s.x < b.0,
                        None => true,
                    };
                    if raw != 0 && (s.flags & SPRITE_PRIORITY == 0 || !bg_prio) && beats {
                        let palette = if s.flags & SPRITE_PALETTE != 0 {
                            &self.obj_palette1
                        } else {
                            &self.obj_palette0
                        };
                        best = Some((s.x, palette.get(&Color::from_u8(raw))));
                    }
                },
                None => {},
            }
            k += 1;
        }
        match best {
            Some(p) => p.1,
            None => bg_color,
        }
    }

    /// Draws the current line into the back buffer.
    pub fn draw_line(&mut self)
        requires
            old(self).wf_memory(),
            old(self).current_line < 144,
        ensures
            final(self).wf_memory(),
            final(self).back_buffer@ == old(self).spec_drawn_buffer(),
            *final(self) == (Ppu { back_buffer: final(self).back_buffer, ..*old(self) }),
    {
        let sprites = self.select_sprites();
        let start = SCREEN_WIDTH * self.current_line as usize;
        let mut line: Vec<Color> = Vec::new();
        let mut i: usize = 0;
        while i < SCREEN_WIDTH
            invariant
                self.wf_memory(),
                self.current_line < 144,
                holds(sprites, self.spec_sprites()),
                i <= SCREEN_WIDTH,
                line@.len() == i,
                forall|j: int| 0 <= j < i ==> line@[j] == self.spec_line_pixel(j as u8),
            decreases SCREEN_WIDTH - i,
        {
            let px = self.line_pixel(i as u8, &sprites);
            line.push(px);
            i += 1;
        }
        let ghost before = *self;
        let mut i: usize = 0;
        while i < SCREEN_WIDTH
            invariant
                before.wf_memory(),
                before.current_line < 144,
                start == SCREEN_WIDTH * before.current_line,
                *self == (Ppu { back_buffer: self.back_buffer, ..before }),
                self.back_buffer@.len() == SCREEN_PIXELS,
                i <= SCREEN_WIDTH,
                line@.len() == SCREEN_WIDTH,
                forall|j: int| 0 <= j < SCREEN_WIDTH ==> line@[j] == before.spec_line_pixel(j as u8),
                forall|j: int|
                    0 <= j < SCREEN_PIXELS ==> self.back_buffer@[j] == if start <= j < start + i {
                        before.spec_line_pixel((j - start) as u8)
                    } else {
                        before.back_buffer@[j]
                    },
            decreases SCREEN_WIDTH - i,
        {
            self.back_buffer.set(start + i, line[i]);
            i += 1;
        }
        assert(self.back_buffer@ =~= before.spec_drawn_buffer());
    }
}

/// Every selected sprite covers the line.
proof fn lemma_selected_on_line(oam: Seq<u8>, line: u8, size: u8, k: nat, j: int)
    requires
        0 <= j < spec_selected(oam, line, size, k).len(),
    ensures
        spec_on_line(spec_selected(oam, line, size, k)[j], line, size),
    decreases k,
{
    if k > 0 {
        let prev = spec_selected(oam, line, size, (k - 1) as nat);
        if j < prev.len() {
            lemma_selected_on_line(oam, line, size, (k - 1) as nat, j);
        }
    }
}

/// The sprite fold depends on the video memory, the line and the palettes,
/// not on the timing of the PPU.
proof fn lemma_sprite_fold_timing(a: Ppu, b: Ppu, sprites: Seq<Sprite>, k: nat, t: u8, bg_prio: bool)
    requires
        b == (Ppu { cycles: b.cycles, mode: b.mode, ..a }),
    ensures
        a.spec_sprite_fold(sprites, k, t, bg_prio) == b.spec_sprite_fold(sprites, k, t, bg_prio),
    decreases k,
{
    if k > 0 {
        lemma_sprite_fold_timing(a, b, sprites, (k - 1) as nat, t, bg_prio);
    }
}

/// Drawing a line depends on the registers and memories of the PPU, not on
/// its timing.
pub proof fn lemma_drawn_buffer_timing(a: Ppu, b: Ppu)
    requires
        b == (Ppu { cycles: b.cycles, mode: b.mode, ..a }),
    ensures
        a.spec_drawn_buffer() == b.spec_drawn_buffer(),
{
    assert forall|i: u8| a.spec_line_pixel(i) == b.spec_line_pixel(i) by {
        let raw = a.spec_bg_raw(i);
        let bg_prio = a.control & LCDC_BG_ON != 0 && raw != 0;
        lemma_sprite_fold_timing(a, b, a.spec_sprites(), a.spec_sprites().len(), i, bg_prio);
    }
    assert(a.spec_drawn_buffer() =~= b.spec_drawn_buffer());
}

/// Whether sprite `s` shows a pixel at column `t`: it covers the column,
/// the pixel is not transparent, and no background colour hides it.
pub open spec fn spec_paints(ppu: Ppu, s: Sprite, t: u8, bg_prio: bool) -> bool {
    match spec_sprite_raw(ppu.vram@, s, ppu.current_line, ppu.spec_obj_size(), t) {
        Some(raw) => raw != 0 && (s.flags & SPRITE_PRIORITY == 0 || !bg_prio),
        None => false,
    }
}

/// Sprite priority: a column shows a sprite pixel exactly when some sprite
/// paints it; the sprite shown has the lowest X coordinate among those that
/// paint the column, and of those with that X, it is the first in OAM.
pub proof fn lemma_sprite_priority(ppu: Ppu, sprites: Seq<Sprite>, k: nat, t: u8, bg_prio: bool)
    requires
        k <= sprites.len(),
    ensures
        ppu.spec_sprite_fold(sprites, k, t, bg_prio) is None <==> forall|j: int|
            0 <= j < k ==> !spec_paints(ppu, #[trigger] sprites[j], t, bg_prio),
        ppu.spec_sprite_fold(sprites, k, t, bg_prio) matches Some(p) ==> (forall|j: int|
            0 <= j < k && spec_paints(ppu, #[trigger] sprites[j], t, bg_prio) ==> p.0
                <= sprites[j].x),
        ppu.spec_sprite_fold(sprites, k, t, bg_prio) matches Some(p) ==> (exists|i: int|
            0 <= i < k && spec_paints(ppu, #[trigger] sprites[i], t, bg_prio) && sprites[i].x == p.0
                && (forall|j: int|
                0 <= j < i && spec_paints(ppu, #[trigger] sprites[j], t, bg_prio) ==> p.0
                    < sprites[j].x)),
    decreases k,
{
    if k > 0 {
        lemma_sprite_priority(ppu, sprites, (k - 1) as nat, t, bg_prio);
        let prev = ppu.spec_sprite_fold(sprites, (k - 1) as nat, t, bg_prio);
        let s = sprites[k - 1];
        let cur = ppu.spec_sprite_fold(sprites, k, t, bg_prio);
        if spec_paints(ppu, s, t, bg_prio) && (prev is None || s.x < prev.unwrap().0) {
            assert(cur.unwrap().0 == s.x);
            assert(spec_paints(ppu, sprites[k - 1], t, bg_prio));
        } else {
            assert(cur == prev);
            if prev is Some {
                let i = choose|i: int|
                    0 <= i < k - 1 && spec_paints(ppu, #[trigger] sprites[i], t, bg_prio)
                        && sprites[i].x == prev.unwrap().0 && (forall|j: int|
                        0 <= j < i && spec_paints(ppu, #[trigger] sprites[j], t, bg_prio)
                            ==> prev.unwrap().0 < sprites[j].x);
                assert(spec_paints(ppu, sprites[i], t, bg_prio));
            }
        }
    }
}

} // verus!
