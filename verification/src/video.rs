use vstd::prelude::*;

use crate::constants::{
    GAME_BOY_FRAME_BUFFER_BYTES, GAME_BOY_RGB_CHANNELS, GAME_BOY_SCREEN_HEIGHT,
    GAME_BOY_SCREEN_WIDTH,
};
use crate::frame_buffer::{GameBoyFrameRing, pixels_published};
use crate::memory::{GameBoyMemory, spec_io, zeroed_bytes, zeros};
use crate::palettes::PaletteState;
use crate::sgb::SgbState;

verus! {

pub const LCDC_BG_ENABLE: u8 = 0x01;
pub const LCDC_OBJ_ENABLE: u8 = 0x02;
pub const LCDC_OBJ_SIZE: u8 = 0x04;
pub const LCDC_BG_TILE_MAP: u8 = 0x08;
pub const LCDC_TILE_DATA: u8 = 0x10;
pub const LCDC_WINDOW_ENABLE: u8 = 0x20;
pub const LCDC_WINDOW_TILE_MAP: u8 = 0x40;
pub const LCDC_DISPLAY_ENABLE: u8 = 0x80;

pub const OBJECT_COUNT: usize = 40;
pub const MAX_OBJECTS_PER_LINE: usize = 10;
pub const OBJECT_WIDTH: usize = 8;
pub const OBJECT_X_OFFSET: usize = 8;
pub const OBJECT_Y_OFFSET: usize = 16;

/// The value of I/O port `index`, or 0 past the ports.
pub fn io(memory: &GameBoyMemory, index: usize) -> (value: u8)
    ensures
        value == spec_io(memory, index as int),
{
    if index < memory.io_ports.len() {
        memory.io_ports[index]
    } else {
        0
    }
}

/// Colour index of pixel `(pixel_x, pixel_y)` of decoded tile `tile_number`, or 0 past the tiles.
pub open spec fn spec_tile_pixel(memory: &GameBoyMemory, tile_number: int, pixel_x: int, pixel_y: int) -> u32 {
    let index = tile_number * 64 + pixel_y * 8 + pixel_x;
    if 0 <= index < memory.tile_set@.len() {
        memory.tile_set@[index]
    } else {
        0
    }
}

/// Colour index of a pixel of a decoded tile; indices past the tile set give 0.
pub fn tile_pixel(memory: &GameBoyMemory, tile_number: usize, pixel_x: usize, pixel_y: usize) -> (colour_index: u32)
    ensures
        colour_index == spec_tile_pixel(memory, tile_number as int, pixel_x as int, pixel_y as int),
{
    let index = (tile_number as u128) * 64 + (pixel_y as u128) * 8 + (pixel_x as u128);
    if index < memory.tile_set.len() as u128 {
        memory.tile_set[index as usize]
    } else {
        0
    }
}

/// Every decoded tile pixel is a colour index from 0 to 3.
pub open spec fn tiles_valid(memory: &GameBoyMemory) -> bool {
    crate::memory::tile_indices_valid(memory.tile_set@)
}

/// The tile number that a tile map entry names, in the addressing mode that LCDC bit 4 selects
/// (unsigned from tile 0, or signed around tile 256).
pub open spec fn spec_tile_number(lcd_control: u8, entry: u8) -> int {
    if lcd_control & LCDC_TILE_DATA != 0 {
        entry as int
    } else {
        (entry ^ 0x80u8) as int + 0x80
    }
}

/// The tile map index of background coordinate `(source_x, source_y)` in the map at `base`.
pub open spec fn spec_tile_map_index(tile_map_base: int, source_x: int, source_y: int) -> int {
    tile_map_base + 32 * ((source_y / 8) % 32) + (source_x / 8) % 32
}

/// Colour index of background coordinate `(source_x, source_y)` of the map at `tile_map_base`.
pub open spec fn spec_gb_bg_colour_index(
    memory: &GameBoyMemory,
    lcd_control: u8,
    tile_map_base: int,
    source_x: int,
    source_y: int,
) -> u32 {
    let map_index = spec_tile_map_index(tile_map_base, source_x, source_y);
    let tile_number = if 0 <= map_index < memory.vram@.len() {
        spec_tile_number(lcd_control, memory.vram@[map_index])
    } else {
        0
    };
    spec_tile_pixel(memory, tile_number, source_x % 8, source_y % 8)
}

/// The VRAM offset (from 0x8000) of the tile data that background map entry `entry` names:
/// with LCDC bit 4 set, tile `entry` from 0x8000; with it clear, the entry read as a signed
/// byte counts tiles from 0x9000.
pub open spec fn bg_tile_data_offset(lcd_control: u8, entry: u8) -> int {
    if lcd_control & 0x10 != 0 {
        16 * (entry as int)
    } else {
        0x1000 + 16 * (if entry < 128 { entry as int } else { entry as int - 256 })
    }
}

/// Law: a background or window pixel comes from the tile whose data the map entry names: the
/// map entry is the one at row `(y / 8) % 32` and column `(x / 8) % 32` of the map, the tile
/// is the one at `bg_tile_data_offset` (16 bytes a tile), and within it the pixel is at
/// `(x % 8, y % 8)`.
pub proof fn lemma_bg_pixel_from_addressed_tile(
    memory: &GameBoyMemory,
    lcd_control: u8,
    tile_map_base: int,
    source_x: int,
    source_y: int,
)
    requires
        0 <= source_x,
        0 <= source_y,
        0 <= tile_map_base,
        tile_map_base + 32 * 32 <= memory.vram@.len(),
    ensures
        ({
            let entry = memory.vram@[tile_map_base + 32 * ((source_y / 8) % 32) + (source_x / 8) % 32];
            spec_gb_bg_colour_index(memory, lcd_control, tile_map_base, source_x, source_y) == spec_tile_pixel(
                memory,
                bg_tile_data_offset(lcd_control, entry) / 16,
                source_x % 8,
                source_y % 8,
            )
        }),
{
    let entry = memory.vram@[tile_map_base + 32 * ((source_y / 8) % 32) + (source_x / 8) % 32];
    crate::bits::lemma_small_masks(entry, 0);
}

/// Colour index that the DMG background or window shows at a map coordinate.
pub fn gb_bg_colour_index(
    memory: &GameBoyMemory,
    lcd_control: u8,
    tile_map_base: usize,
    source_x: usize,
    source_y: usize,
) -> (colour_index: u32)
    requires
        tile_map_base <= 0x1c00,
    ensures
        colour_index == spec_gb_bg_colour_index(
            memory,
            lcd_control,
            tile_map_base as int,
            source_x as int,
            source_y as int,
        ),
{
    let tile_set_index_offset: usize = if lcd_control & LCDC_TILE_DATA != 0 {
        0
    } else {
        0x80
    };
    let tile_set_index_inverter: u8 = if lcd_control & LCDC_TILE_DATA != 0 {
        0
    } else {
        0x80
    };
    let tile_x = (source_x / 8) & 31;
    let tile_y = (source_y / 8) & 31;
    assert((source_x / 8) & 31 == (source_x / 8) % 32 && (source_y / 8) & 31 == (source_y / 8) % 32)
        by (bit_vector);
    let tile_map_index = tile_map_base + 32 * tile_y + tile_x;
    let tile_number = if tile_map_index < memory.vram.len() {
        let entry = memory.vram[tile_map_index];
        proof {
            crate::bits::lemma_small_masks(entry, 0);
        }
        (entry ^ tile_set_index_inverter) as usize + tile_set_index_offset
    } else {
        0
    };
    tile_pixel(memory, tile_number, source_x % 8, source_y % 8)
}

/// A background pixel of the CGB: its colour index, palette and priority over objects.
#[derive(Clone, Copy, Debug)]
pub struct CgbBackgroundPixel {
    pub colour_index: u32,
    pub palette_offset: usize,
    pub bg_priority: bool,
}

/// The CGB background pixel at a map coordinate, using the tile attributes in VRAM bank 1.
pub open spec fn spec_cgb_bg_pixel(
    memory: &GameBoyMemory,
    lcd_control: u8,
    tile_map_base: int,
    source_x: int,
    source_y: int,
) -> CgbBackgroundPixel {
    let map_index = spec_tile_map_index(tile_map_base, source_x, source_y);
    let attributes: u8 = if 0x2000 + map_index < memory.vram@.len() {
        memory.vram@[0x2000 + map_index]
    } else {
        0
    };
    let base_tile = if map_index < memory.vram@.len() {
        spec_tile_number(lcd_control, memory.vram@[map_index])
    } else {
        0
    };
    let tile_number = if attributes & 0x08 != 0 { base_tile + 384 } else { base_tile };
    let pixel_x = if attributes & 0x20 != 0 { 7 - source_x % 8 } else { source_x % 8 };
    let pixel_y = if attributes & 0x40 != 0 { 7 - source_y % 8 } else { source_y % 8 };
    CgbBackgroundPixel {
        colour_index: spec_tile_pixel(memory, tile_number, pixel_x, pixel_y),
        palette_offset: ((attributes & 0x07) as int * 4) as usize,
        bg_priority: attributes & 0x80 != 0,
    }
}

/// The CGB background pixel at a map coordinate: tile bank, flips, palette and priority come
/// from the tile's attribute byte.
pub fn cgb_bg_pixel(
    memory: &GameBoyMemory,
    lcd_control: u8,
    tile_map_base: usize,
    source_x: usize,
    source_y: usize,
) -> (pixel: CgbBackgroundPixel)
    requires
        tile_map_base <= 0x1c00,
    ensures
        pixel == spec_cgb_bg_pixel(memory, lcd_control, tile_map_base as int, source_x as int, source_y as int),
        pixel.palette_offset <= 28,
{
    let tile_set_index_offset: usize = if lcd_control & LCDC_TILE_DATA != 0 {
        0
    } else {
        0x80
    };
    let tile_set_index_inverter: u8 = if lcd_control & LCDC_TILE_DATA != 0 {
        0
    } else {
        0x80
    };
    let tile_x = (source_x / 8) & 31;
    let tile_y = (source_y / 8) & 31;
    assert((source_x / 8) & 31 == (source_x / 8) % 32 && (source_y / 8) & 31 == (source_y / 8) % 32)
        by (bit_vector);
    let tile_map_index = tile_map_base + 32 * tile_y + tile_x;
    let tile_attributes: u8 = if 0x2000 + tile_map_index < memory.vram.len() {
        memory.vram[0x2000 + tile_map_index]
    } else {
        0
    };
    let mut tile_number = if tile_map_index < memory.vram.len() {
        let entry = memory.vram[tile_map_index];
        proof {
            crate::bits::lemma_small_masks(entry, 0);
        }
        (entry ^ tile_set_index_inverter) as usize + tile_set_index_offset
    } else {
        0
    };
    if tile_attributes & 0x08 != 0 {
        tile_number = tile_number + 384;
    }
    let pixel_x = if tile_attributes & 0x20 != 0 {
        7 - (source_x % 8)
    } else {
        source_x % 8
    };
    let pixel_y = if tile_attributes & 0x40 != 0 {
        7 - (source_y % 8)
    } else {
        source_y % 8
    };
    proof {
        crate::bits::lemma_small_masks(tile_attributes, 0);
    }
    CgbBackgroundPixel {
        colour_index: tile_pixel(memory, tile_number, pixel_x, pixel_y),
        palette_offset: (tile_attributes & 0x07) as usize * 4,
        bg_priority: tile_attributes & 0x80 != 0,
    }
}

/// An OAM entry that covers the line being drawn.
#[derive(Clone, Copy, Debug, PartialEq, Eq, Structural)]
pub struct SelectedObject {
    pub index: usize,
    pub screen_x: i32,
    pub oam_x: u8,
    pub oam_y: u8,
    pub tile_no: u8,
    pub flags: u8,
}

impl SelectedObject {
    /// An object whose OAM x coordinate puts it somewhere on screen.
    pub fn is_horizontally_visible(self) -> (visible: bool)
        ensures
            visible == (self.oam_x != 0 && self.oam_x < 168),
    {
        self.oam_x != 0 && self.oam_x < 168
    }
}

/// Height in pixels of objects in the size that LCDC bit 2 selects.
pub open spec fn spec_sprite_height(lcd_control: u8) -> int {
    if lcd_control & LCDC_OBJ_SIZE != 0 { 16 } else { 8 }
}

/// Height in pixels of objects: 16 with LCDC bit 2 set, else 8.
pub fn sprite_height(lcd_control: u8) -> (height: usize)
    ensures
        height == spec_sprite_height(lcd_control),
{
    if lcd_control & LCDC_OBJ_SIZE != 0 {
        16
    } else {
        8
    }
}

/// Whether OAM entry `index` covers line `line`.
pub open spec fn object_covers_line(oam: [u8; 160], lcd_control: u8, line: int, index: int) -> bool {
    let top = oam@[index * 4] as int - 16;
    top <= line < top + spec_sprite_height(lcd_control)
}

/// OAM entry `index` as a selected object.
pub open spec fn spec_object(oam: [u8; 160], index: int) -> SelectedObject {
    SelectedObject {
        index: index as usize,
        screen_x: (oam@[index * 4 + 1] as int - 8) as i32,
        oam_x: oam@[index * 4 + 1],
        oam_y: oam@[index * 4],
        tile_no: oam@[index * 4 + 2],
        flags: oam@[index * 4 + 3],
    }
}

/// The OAM entries among the first `n` that cover the line, in OAM order.
pub open spec fn spec_covering_objects(oam: [u8; 160], lcd_control: u8, line: int, n: int) -> Seq<SelectedObject>
    decreases n,
{
    if n <= 0 {
        Seq::empty()
    } else {
        let before = spec_covering_objects(oam, lcd_control, line, n - 1);
        if object_covers_line(oam, lcd_control, line, n - 1) {
            before.push(spec_object(oam, n - 1))
        } else {
            before
        }
    }
}

/// At most the first `n` elements of `s`.
pub open spec fn first_n<T>(s: Seq<T>, n: int) -> Seq<T> {
    if s.len() <= n { s } else { s.take(n) }
}

/// The objects that the hardware draws on a line: the first ten OAM entries that cover it.
pub open spec fn spec_selected_objects(memory: &GameBoyMemory, lcd_control: u8, line: int) -> Seq<SelectedObject> {
    first_n(spec_covering_objects(memory.oam, lcd_control, line, 40), 10)
}

proof fn lemma_covering_prefix(oam: [u8; 160], lcd_control: u8, line: int, i: int, j: int)
    requires
        0 <= i <= j,
    ensures
        spec_covering_objects(oam, lcd_control, line, i).len() <= spec_covering_objects(oam, lcd_control, line, j).len(),
        spec_covering_objects(oam, lcd_control, line, i) == spec_covering_objects(oam, lcd_control, line, j).take(
            spec_covering_objects(oam, lcd_control, line, i).len() as int,
        ),
    decreases j - i,
{
    if i < j {
        lemma_covering_prefix(oam, lcd_control, line, i, j - 1);
        let a = spec_covering_objects(oam, lcd_control, line, i);
        let b = spec_covering_objects(oam, lcd_control, line, j - 1);
        let c = spec_covering_objects(oam, lcd_control, line, j);
        assert(c.take(b.len() as int) =~= b);
        assert(c.take(a.len() as int) =~= b.take(a.len() as int));
    } else {
        let a = spec_covering_objects(oam, lcd_control, line, i);
        assert(a.take(a.len() as int) =~= a);
    }
}

proof fn lemma_covering_objects_cover(oam: [u8; 160], lcd_control: u8, line: int, n: int)
    requires
        0 <= n <= 40,
    ensures
        forall|k: int|
            0 <= k < spec_covering_objects(oam, lcd_control, line, n).len() ==> {
                let o = #[trigger] spec_covering_objects(oam, lcd_control, line, n)[k];
                &&& o.oam_y as int - 16 <= line
                &&& o.index < 40
                &&& o == spec_object(oam, o.index as int)
            },
        spec_covering_objects(oam, lcd_control, line, n).len() <= n,
    decreases n,
{
    if n > 0 {
        lemma_covering_objects_cover(oam, lcd_control, line, n - 1);
    }
}

/// Picks, in OAM order, the first ten objects whose rows cover `line_no`.
pub fn select_objects_for_line(memory: &GameBoyMemory, lcd_control: u8, line_no: usize) -> (objects: Vec<SelectedObject>)
    requires
        line_no <= i32::MAX,
    ensures
        objects@ == spec_selected_objects(memory, lcd_control, line_no as int),
        objects@.len() <= MAX_OBJECTS_PER_LINE,
        forall|k: int| 0 <= k < objects@.len() ==> (#[trigger] objects@[k]).oam_y as int - 16 <= line_no,
        forall|k: int| 0 <= k < objects@.len() ==> (#[trigger] objects@[k]).screen_x == objects@[k].oam_x - 8,
{
    let height = sprite_height(lcd_control);
    let line = line_no as i32;
    let mut objects: Vec<SelectedObject> = Vec::new();
    let mut index: usize = 0;
    let mut done = false;
    while index < OBJECT_COUNT && !done
        invariant
            index <= 40,
            line == line_no,
            height == spec_sprite_height(lcd_control),
            objects@.len() <= 10,
            !done ==> objects@ == spec_covering_objects(memory.oam, lcd_control, line_no as int, index as int),
            !done ==> objects@.len() < 10,
            done ==> objects@ == spec_covering_objects(memory.oam, lcd_control, line_no as int, index as int),
            done ==> objects@.len() == 10,
        decreases 40 - index,
    {
        let offset = index * 4;
        let oam_y = memory.oam[offset];
        let sprite_top = oam_y as i32 - OBJECT_Y_OFFSET as i32;
        if !(line < sprite_top || line >= sprite_top + height as i32) {
            let oam_x = memory.oam[offset + 1];
            let object = SelectedObject {
                index,
                screen_x: oam_x as i32 - OBJECT_X_OFFSET as i32,
                oam_x,
                oam_y,
                tile_no: memory.oam[offset + 2],
                flags: memory.oam[offset + 3],
            };
            assert(object == spec_object(memory.oam, index as int));
            objects.push(object);
            if objects.len() >= MAX_OBJECTS_PER_LINE {
                done = true;
            }
        }
        index += 1;
    }
    proof {
        lemma_covering_prefix(memory.oam, lcd_control, line_no as int, index as int, 40);
        lemma_covering_objects_cover(memory.oam, lcd_control, line_no as int, 40);
        let all = spec_covering_objects(memory.oam, lcd_control, line_no as int, 40);
        if done {
            assert(first_n(all, 10) =~= objects@);
        } else {
            assert(index == 40);
            assert(first_n(all, 10) =~= objects@);
        }
    }
    objects
}

/// Whether `a` is drawn in front of `b` on the DMG: lower x first, then lower OAM index.
pub open spec fn dmg_before(a: SelectedObject, b: SelectedObject) -> bool {
    a.oam_x < b.oam_x || (a.oam_x == b.oam_x && a.index < b.index)
}

/// The objects of `objects` that lie somewhere on screen horizontally, in their order.
pub open spec fn spec_visible_objects(objects: Seq<SelectedObject>) -> Seq<SelectedObject>
    decreases objects.len(),
{
    if objects.len() == 0 {
        objects
    } else {
        let before = spec_visible_objects(objects.drop_last());
        if objects.last().oam_x != 0 && objects.last().oam_x < 168 {
            before.push(objects.last())
        } else {
            before
        }
    }
}

/// Every visible object is one of the objects, and is visible.
pub proof fn lemma_visible_members(objects: Seq<SelectedObject>)
    ensures
        forall|k: int|
            0 <= k < spec_visible_objects(objects).len() ==> objects.contains(
                #[trigger] spec_visible_objects(objects)[k],
            ) && spec_visible_objects(objects)[k].oam_x != 0 && spec_visible_objects(objects)[k].oam_x < 168,
    decreases objects.len(),
{
    if objects.len() > 0 {
        let init = objects.drop_last();
        lemma_visible_members(init);
        let v = spec_visible_objects(objects);
        assert forall|k: int| 0 <= k < v.len() implies objects.contains(#[trigger] v[k]) by {
            if k < spec_visible_objects(init).len() {
                assert(init.contains(v[k]));
                let m = choose|m: int| 0 <= m < init.len() && init[m] == v[k];
                assert(objects[m] == v[k]);
            } else {
                assert(objects[objects.len() - 1] == v[k]);
            }
        }
    }
}

/// Position at which `object` goes into `sorted`: before the first element it is drawn in
/// front of.
pub open spec fn insert_position(sorted: Seq<SelectedObject>, object: SelectedObject, from: int) -> int
    decreases sorted.len() - from,
{
    if from >= sorted.len() {
        sorted.len() as int
    } else if dmg_before(object, sorted[from]) {
        from
    } else {
        insert_position(sorted, object, from + 1)
    }
}

/// `objects` in DMG drawing priority, sorted by insertion (stable for equal keys).
pub open spec fn spec_dmg_sorted(objects: Seq<SelectedObject>) -> Seq<SelectedObject>
    decreases objects.len(),
{
    if objects.len() == 0 {
        objects
    } else {
        let rest = spec_dmg_sorted(objects.drop_last());
        rest.insert(insert_position(rest, objects.last(), 0), objects.last())
    }
}

/// The visible objects in DMG priority: lower x first, then lower OAM index.
pub open spec fn spec_dmg_priority_objects(objects: Seq<SelectedObject>) -> Seq<SelectedObject> {
    spec_dmg_sorted(spec_visible_objects(objects))
}

proof fn lemma_insert_position_bounds(sorted: Seq<SelectedObject>, object: SelectedObject, from: int)
    requires
        0 <= from <= sorted.len(),
    ensures
        from <= insert_position(sorted, object, from) <= sorted.len(),
        forall|k: int| from <= k < insert_position(sorted, object, from) ==> !dmg_before(object, #[trigger] sorted[k]),
        insert_position(sorted, object, from) < sorted.len() ==> dmg_before(object, sorted[insert_position(sorted, object, from)]),
    decreases sorted.len() - from,
{
    if from < sorted.len() && !dmg_before(object, sorted[from]) {
        lemma_insert_position_bounds(sorted, object, from + 1);
    }
}

/// Sorting keeps exactly the objects it is given: every object of the result comes from the
/// input and the lengths agree.
pub proof fn lemma_dmg_sorted_members(objects: Seq<SelectedObject>)
    ensures
        spec_dmg_sorted(objects).len() == objects.len(),
        forall|k: int| 0 <= k < objects.len() ==> objects.contains(#[trigger] spec_dmg_sorted(objects)[k]),
    decreases objects.len(),
{
    if objects.len() > 0 {
        let init = objects.drop_last();
        lemma_dmg_sorted_members(init);
        let rest = spec_dmg_sorted(init);
        lemma_insert_position_bounds(rest, objects.last(), 0);
        let pos = insert_position(rest, objects.last(), 0);
        let result = rest.insert(pos, objects.last());
        assert forall|k: int| 0 <= k < objects.len() implies objects.contains(#[trigger] result[k]) by {
            if k < pos {
                assert(init.contains(rest[k]));
                let m = choose|m: int| 0 <= m < init.len() && init[m] == rest[k];
                assert(objects[m] == rest[k]);
            } else if k == pos {
                assert(objects[objects.len() - 1] == objects.last());
            } else {
                assert(init.contains(rest[k - 1]));
                let m = choose|m: int| 0 <= m < init.len() && init[m] == rest[k - 1];
                assert(objects[m] == rest[k - 1]);
            }
        }
    }
}

/// Objects in DMG priority are sorted: no object comes after one that it is drawn in front of.
pub proof fn lemma_dmg_sorted_is_ordered(objects: Seq<SelectedObject>)
    ensures
        forall|i: int, j: int|
            0 <= i < j < spec_dmg_sorted(objects).len() ==> !dmg_before(
                #[trigger] spec_dmg_sorted(objects)[j],
                #[trigger] spec_dmg_sorted(objects)[i],
            ),
    decreases objects.len(),
{
    if objects.len() > 0 {
        let init = objects.drop_last();
        lemma_dmg_sorted_is_ordered(init);
        let rest = spec_dmg_sorted(init);
        let o = objects.last();
        lemma_insert_position_bounds(rest, o, 0);
        let pos = insert_position(rest, o, 0);
        let result = rest.insert(pos, o);
        assert forall|i: int, j: int| 0 <= i < j < result.len() implies !dmg_before(
            #[trigger] result[j],
            #[trigger] result[i],
        ) by {
            if j < pos {
                assert(result[i] == rest[i] && result[j] == rest[j]);
            } else if j == pos {
                assert(result[i] == rest[i]);
                assert(!dmg_before(o, rest[i]));
            } else if i == pos {
                assert(result[j] == rest[j - 1]);
                if pos < rest.len() {
                    assert(dmg_before(o, rest[pos]));
                    if j - 1 > pos {
                        assert(!dmg_before(rest[j - 1], rest[pos]));
                    }
                }
            } else if i < pos {
                assert(result[i] == rest[i] && result[j] == rest[j - 1]);
            } else {
                assert(result[i] == rest[i - 1] && result[j] == rest[j - 1]);
            }
        }
    }
}

fn dmg_insert_position(sorted: &Vec<SelectedObject>, object: SelectedObject) -> (position: usize)
    ensures
        position == insert_position(sorted@, object, 0),
{
    let mut position: usize = 0;
    while position < sorted.len()
        invariant
            position <= sorted@.len(),
            insert_position(sorted@, object, position as int) == insert_position(sorted@, object, 0),
        decreases sorted@.len() - position,
    {
        let other = sorted[position];
        if object.oam_x < other.oam_x || (object.oam_x == other.oam_x && object.index < other.index) {
            return position;
        }
        position += 1;
    }
    position
}

/// The visible objects in OAM order.
pub fn cgb_priority_objects(objects: &Vec<SelectedObject>) -> (priority: Vec<SelectedObject>)
    ensures
        priority@ == spec_visible_objects(objects@),
{
    let mut priority: Vec<SelectedObject> = Vec::new();
    let mut k: usize = 0;
    while k < objects.len()
        invariant
            k <= objects@.len(),
            priority@ == spec_visible_objects(objects@.take(k as int)),
        decreases objects@.len() - k,
    {
        let object = objects[k];
        proof {
            assert(objects@.take(k + 1).drop_last() =~= objects@.take(k as int));
        }
        if object.is_horizontally_visible() {
            priority.push(object);
        }
        k += 1;
    }
    assert(objects@.take(objects@.len() as int) =~= objects@);
    priority
}

/// The visible objects in DMG priority: lower x first, then lower OAM index.
pub fn dmg_priority_objects(objects: &Vec<SelectedObject>) -> (priority: Vec<SelectedObject>)
    ensures
        priority@ == spec_dmg_priority_objects(objects@),
{
    let visible = cgb_priority_objects(objects);
    let mut sorted: Vec<SelectedObject> = Vec::new();
    let mut k: usize = 0;
    while k < visible.len()
        invariant
            k <= visible@.len(),
            sorted@ == spec_dmg_sorted(visible@.take(k as int)),
        decreases visible@.len() - k,
    {
        let object = visible[k];
        let position = dmg_insert_position(&sorted, object);
        proof {
            assert(visible@.take(k + 1).drop_last() =~= visible@.take(k as int));
            assert(visible@.take(k + 1).last() == object);
            lemma_insert_position_bounds(sorted@, object, 0);
        }
        sorted.insert(position, object);
        k += 1;
    }
    assert(visible@.take(visible@.len() as int) =~= visible@);
    sorted
}

/// Whether a CGB background pixel hides an object pixel: only with LCDC bit 0 set and a
/// non-zero background colour, when the tile or the object asks for background priority.
pub fn cgb_bg_has_priority(lcd_control: u8, bg_colour_number: u32, bg_priority: bool, object_flags: u8) -> (hidden: bool)
    ensures
        hidden == (bg_colour_number != 0 && lcd_control & LCDC_BG_ENABLE != 0 && (bg_priority
            || object_flags & 0x80 != 0)),
{
    bg_colour_number != 0 && lcd_control & LCDC_BG_ENABLE != 0 && (bg_priority || object_flags & 0x80 != 0)
}

/// A non-transparent object pixel and the flags of its object.
#[derive(Clone, Copy, Debug, PartialEq, Eq, Structural)]
pub struct ObjectPixel {
    pub colour_index: u32,
    pub flags: u8,
}

/// The pixel that `object` shows at `(screen_x, line_no)`, if it shows a non-transparent one.
pub open spec fn spec_object_pixel(
    memory: &GameBoyMemory,
    lcd_control: u8,
    object: SelectedObject,
    line_no: int,
    screen_x: int,
    cgb_mode: bool,
) -> Option<ObjectPixel> {
    let source_x = screen_x - object.screen_x;
    if !(0 <= source_x < 8) {
        None
    } else {
        let line_in_object = line_no + 16 - object.oam_y;
        let tall = lcd_control & LCDC_OBJ_SIZE != 0;
        let base_tile: int = if tall {
            if line_in_object >= 8 { (object.tile_no & 0xfe) as int + 1 } else { (object.tile_no & 0xfe) as int }
        } else {
            object.tile_no as int
        };
        let y_flip = object.flags & 0x40 != 0;
        let tile = if y_flip && tall {
            if base_tile % 2 == 0 { base_tile + 1 } else { base_tile - 1 }
        } else {
            base_tile
        };
        let tile_number = if cgb_mode && object.flags & 0x08 != 0 { tile + 384 } else { tile };
        let pixel_y = if y_flip { 7 - line_in_object % 8 } else { line_in_object % 8 };
        let pixel_x = if object.flags & 0x20 != 0 { 7 - source_x } else { source_x };
        let colour_index = spec_tile_pixel(memory, tile_number, pixel_x, pixel_y);
        if colour_index == 0 {
            None
        } else {
            Some(ObjectPixel { colour_index, flags: object.flags })
        }
    }
}

/// Whether two object pixels show the same colour index, or are both transparent.
pub open spec fn same_object_colour(a: Option<ObjectPixel>, b: Option<ObjectPixel>) -> bool {
    match (a, b) {
        (None, None) => true,
        (Some(p), Some(q)) => p.colour_index == q.colour_index,
        _ => false,
    }
}

/// Law: flipping an object horizontally mirrors its row: with only the X-flip flag changed,
/// the pixel `k` columns from the object's left edge shows what the unflipped object shows
/// `k` columns from its right edge. Every visible object pixel has a colour index other than
/// 0 and carries the object's flags.
pub proof fn lemma_object_x_flip_mirrors(
    memory: &GameBoyMemory,
    lcd_control: u8,
    object: SelectedObject,
    flipped: SelectedObject,
    line_no: int,
    k: int,
    cgb_mode: bool,
)
    requires
        flipped == (SelectedObject { flags: flipped.flags, ..object }),
        object.flags & 0x20 == 0,
        flipped.flags & 0x20 != 0,
        (flipped.flags & 0x40 != 0) == (object.flags & 0x40 != 0),
        (flipped.flags & 0x08 != 0) == (object.flags & 0x08 != 0),
        0 <= k < 8,
    ensures
        same_object_colour(
            spec_object_pixel(memory, lcd_control, flipped, line_no, object.screen_x + k, cgb_mode),
            spec_object_pixel(memory, lcd_control, object, line_no, object.screen_x + 7 - k, cgb_mode),
        ),
        spec_object_pixel(memory, lcd_control, object, line_no, object.screen_x + k, cgb_mode) matches Some(p)
            ==> p.colour_index != 0 && p.flags == object.flags,
{
}

/// The pixel of `object` at `(screen_x, line_no)`: tall objects use the tile pair, flips and
/// the CGB tile bank follow the object's flags; colour index 0 is transparent.
pub fn object_pixel(
    memory: &GameBoyMemory,
    lcd_control: u8,
    object: SelectedObject,
    line_no: usize,
    screen_x: usize,
    cgb_mode: bool,
) -> (pixel: Option<ObjectPixel>)
    requires
        object.oam_y as int - 16 <= line_no,
        line_no + 16 <= usize::MAX,
        screen_x <= i32::MAX,
    ensures
        pixel == spec_object_pixel(memory, lcd_control, object, line_no as int, screen_x as int, cgb_mode),
{
    let source_x: i64 = screen_x as i64 - object.screen_x as i64;
    if !(0 <= source_x && source_x < OBJECT_WIDTH as i64) {
        return None;
    }
    let mut tile_no = object.tile_no as usize;
    let line_in_object = line_no + OBJECT_Y_OFFSET - object.oam_y as usize;
    if lcd_control & LCDC_OBJ_SIZE != 0 {
        tile_no = (object.tile_no & 0xfe) as usize;
        if line_in_object >= 8 {
            tile_no = tile_no + 1;
        }
    }
    let mut pixel_y = line_in_object % 8;
    if object.flags & 0x40 != 0 {
        pixel_y = 7 - pixel_y;
        if lcd_control & LCDC_OBJ_SIZE != 0 {
            if tile_no % 2 == 0 {
                tile_no = tile_no + 1;
            } else {
                tile_no = tile_no - 1;
            }
        }
    }
    if cgb_mode && object.flags & 0x08 != 0 {
        tile_no = tile_no + 384;
    }
    let source_x = source_x as usize;
    let pixel_x = if object.flags & 0x20 != 0 {
        7 - source_x
    } else {
        source_x
    };
    let colour_index = tile_pixel(memory, tile_no, pixel_x, pixel_y);
    if colour_index == 0 {
        return None;
    }
    Some(ObjectPixel { colour_index, flags: object.flags })
}

proof fn lemma_low_byte(value: usize)
    ensures
        value & 0xff == value % 256,
{
    assert(value & 0xff == value % 256) by (bit_vector);
}

/// Byte `channel` (0 red, 1 green, 2 blue) of a 0xAARRGGBB colour.
pub open spec fn colour_channel(colour: u32, channel: int) -> u8 {
    if channel == 0 {
        ((colour >> 16u32) & 0xff) as u8
    } else if channel == 1 {
        ((colour >> 8u32) & 0xff) as u8
    } else {
        (colour & 0xff) as u8
    }
}

/// Offset of the first byte of pixel `(x, line)` in an RGB frame.
pub open spec fn pixel_offset(line: int, x: int) -> int {
    (line * 160 + x) * 3
}

/// The RGB frame shows `colour` at pixel `(x, line)`.
pub open spec fn shows(pixels: Seq<u8>, line: int, x: int, colour: u32) -> bool {
    let o = pixel_offset(line, x);
    &&& pixels[o] == colour_channel(colour, 0)
    &&& pixels[o + 1] == colour_channel(colour, 1)
    &&& pixels[o + 2] == colour_channel(colour, 2)
}

/// Both frames hold the same bytes at pixel `(x, line)`.
pub open spec fn same_pixel(a: Seq<u8>, b: Seq<u8>, line: int, x: int) -> bool {
    let o = pixel_offset(line, x);
    &&& a[o] == b[o]
    &&& a[o + 1] == b[o + 1]
    &&& a[o + 2] == b[o + 2]
}

/// Both frames have the same length and agree outside line `line`.
pub open spec fn same_outside_line(a: Seq<u8>, b: Seq<u8>, line: int) -> bool {
    &&& a.len() == b.len()
    &&& forall|i: int|
        0 <= i < a.len() && !(line * 480 <= i < line * 480 + 480) ==> #[trigger] a[i] == b[i]
}

/// Pixel `(x, line)` of `after` shows `colour` where there is one, and is as in `before` where there is none.
pub open spec fn drawn_or_kept(after: Seq<u8>, before: Seq<u8>, line: int, x: int, colour: Option<u32>) -> bool {
    match colour {
        Some(c) => shows(after, line, x, c),
        None => same_pixel(after, before, line, x),
    }
}

/// Which tile map the background uses (LCDC bit 3).
pub open spec fn bg_map_base(lcd_control: u8) -> int {
    if lcd_control & LCDC_BG_TILE_MAP != 0 { 0x1c00 } else { 0x1800 }
}

/// Which tile map the window uses (LCDC bit 6).
pub open spec fn window_map_base(lcd_control: u8) -> int {
    if lcd_control & LCDC_WINDOW_TILE_MAP != 0 { 0x1c00 } else { 0x1800 }
}

/// The background map coordinate shown at screen pixel `(x, line)` under the scroll registers.
pub open spec fn bg_source(memory: &GameBoyMemory, line: int, x: int) -> (int, int) {
    ((x + spec_io(memory, 0x43)) % 256, (line + spec_io(memory, 0x42)) % 256)
}

/// Whether the window reaches line `line` (WX below 167 and WY not below the line).
pub open spec fn window_active(memory: &GameBoyMemory, line: int) -> bool {
    spec_io(memory, 0x4b) < 167 && spec_io(memory, 0x4a) <= line
}

/// The first screen column that the window covers.
pub open spec fn window_start(memory: &GameBoyMemory) -> int {
    let wx = spec_io(memory, 0x4b) as int;
    if wx < 7 { 0 } else if wx - 7 < 160 { wx - 7 } else { 160 }
}

/// Colour index of the DMG background at screen pixel `(x, line)`.
pub open spec fn gb_bg_index(memory: &GameBoyMemory, lcd_control: u8, line: int, x: int) -> u32 {
    let (sx, sy) = bg_source(memory, line, x);
    spec_gb_bg_colour_index(memory, lcd_control, bg_map_base(lcd_control), sx, sy)
}

/// Colour index of the DMG window at screen pixel `(x, line)`.
pub open spec fn gb_window_index(memory: &GameBoyMemory, lcd_control: u8, line: int, x: int) -> u32 {
    spec_gb_bg_colour_index(
        memory,
        lcd_control,
        window_map_base(lcd_control),
        x - window_start(memory),
        line - spec_io(memory, 0x4a),
    )
}

/// The first non-transparent pixel at `(x, line)` among `objects[from..]`.
pub open spec fn spec_first_object_pixel(
    memory: &GameBoyMemory,
    lcd_control: u8,
    objects: Seq<SelectedObject>,
    from: int,
    line: int,
    x: int,
    cgb_mode: bool,
) -> Option<ObjectPixel>
    decreases objects.len() - from,
{
    if from >= objects.len() {
        None
    } else {
        match spec_object_pixel(memory, lcd_control, objects[from], line, x, cgb_mode) {
            Some(pixel) => Some(pixel),
            None => spec_first_object_pixel(memory, lcd_control, objects, from + 1, line, x, cgb_mode),
        }
    }
}

/// Every object's top row is at or above line `line`.
pub open spec fn objects_reach_line(objects: Seq<SelectedObject>, line: int) -> bool {
    forall|k: int| 0 <= k < objects.len() ==> (#[trigger] objects[k]).oam_y as int - 16 <= line
}

proof fn lemma_priority_objects_reach_line(objects: Seq<SelectedObject>, line: int)
    requires
        objects_reach_line(objects, line),
    ensures
        objects_reach_line(spec_visible_objects(objects), line),
        objects_reach_line(spec_dmg_priority_objects(objects), line),
{
    let visible = spec_visible_objects(objects);
    lemma_visible_members(objects);
    assert forall|k: int| 0 <= k < visible.len() implies (#[trigger] visible[k]).oam_y as int - 16 <= line by {
        assert(objects.contains(visible[k]));
    }
    lemma_dmg_sorted_members(visible);
    let sorted = spec_dmg_sorted(visible);
    assert forall|k: int| 0 <= k < sorted.len() implies (#[trigger] sorted[k]).oam_y as int - 16 <= line by {
        assert(visible.contains(sorted[k]));
    }
}

/// The first non-transparent pixel at `(screen_x, line_no)` among `objects`, in their order.
pub fn first_object_pixel(
    memory: &GameBoyMemory,
    lcd_control: u8,
    objects: &Vec<SelectedObject>,
    line_no: usize,
    screen_x: usize,
    cgb_mode: bool,
) -> (pixel: Option<ObjectPixel>)
    requires
        objects_reach_line(objects@, line_no as int),
        line_no < 144,
        screen_x < 160,
    ensures
        pixel == spec_first_object_pixel(memory, lcd_control, objects@, 0, line_no as int, screen_x as int, cgb_mode),
{
    let mut k: usize = 0;
    while k < objects.len()
        invariant
            k <= objects@.len(),
            objects_reach_line(objects@, line_no as int),
            line_no < 144,
            screen_x < 160,
            spec_first_object_pixel(memory, lcd_control, objects@, k as int, line_no as int, screen_x as int, cgb_mode)
                == spec_first_object_pixel(memory, lcd_control, objects@, 0, line_no as int, screen_x as int, cgb_mode),
        decreases objects@.len() - k,
    {
        let found = object_pixel(memory, lcd_control, objects[k], line_no, screen_x, cgb_mode);
        if found.is_some() {
            return found;
        }
        k += 1;
    }
    None
}

proof fn lemma_first_object_pixel_valid(
    memory: &GameBoyMemory,
    lcd_control: u8,
    objects: Seq<SelectedObject>,
    from: int,
    line: int,
    x: int,
    cgb_mode: bool,
)
    requires
        tiles_valid(memory),
    ensures
        spec_first_object_pixel(memory, lcd_control, objects, from, line, x, cgb_mode) matches Some(p) ==> p.colour_index < 4,
    decreases objects.len() - from,
{
    if from < objects.len() {
        lemma_first_object_pixel_valid(memory, lcd_control, objects, from + 1, line, x, cgb_mode);
    }
}

/// The RGB frame with `colour` written at pixel `(x, line)`.
pub open spec fn spec_written_pixel(pixels: Seq<u8>, line: int, x: int, colour: u32) -> Seq<u8> {
    let o = pixel_offset(line, x);
    if o + 3 <= pixels.len() {
        pixels.update(o, colour_channel(colour, 0)).update(o + 1, colour_channel(colour, 1)).update(
            o + 2,
            colour_channel(colour, 2),
        )
    } else {
        pixels
    }
}

proof fn lemma_written_pixel(pixels: Seq<u8>, line: int, x: int, colour: u32)
    requires
        pixels.len() == GAME_BOY_FRAME_BUFFER_BYTES,
        0 <= line < 144,
        0 <= x < 160,
    ensures
        shows(spec_written_pixel(pixels, line, x, colour), line, x, colour),
        same_outside_line(spec_written_pixel(pixels, line, x, colour), pixels, line),
        forall|x2: int|
            0 <= x2 < 160 && x2 != x ==> #[trigger] same_pixel(spec_written_pixel(pixels, line, x, colour), pixels, line, x2),
{
}

/// Assembles scanlines into an RGB frame.
#[derive(Debug)]
pub struct VideoFrameAssembler {
    pub pixels: Vec<u8>,
    pub frame_in_progress: bool,
}

/// Colour index that the DMG background and window leave at `(x, line)`, before objects.
pub open spec fn gb_line_bg_number(memory: &GameBoyMemory, lcd_control: u8, line: int, x: int) -> u32 {
    if lcd_control & LCDC_BG_ENABLE == 0 {
        0
    } else if lcd_control & LCDC_WINDOW_ENABLE != 0 && window_active(memory, line) && x >= window_start(memory) {
        gb_window_index(memory, lcd_control, line, x)
    } else {
        gb_bg_index(memory, lcd_control, line, x)
    }
}

/// Colour that the DMG background and window leave at `(x, line)`: black with both off.
pub open spec fn gb_line_base(memory: &GameBoyMemory, palettes: &PaletteState, lcd_control: u8, line: int, x: int) -> u32 {
    if lcd_control & LCDC_BG_ENABLE == 0 {
        0u32
    } else {
        palettes.translated_bg@[gb_line_bg_number(memory, lcd_control, line, x) as int]
    }
}

/// Colour of pixel `(x, line)` of a DMG frame with the display on: the object pixel in front
/// where there is one, else the background or window.
pub open spec fn gb_line_colour(memory: &GameBoyMemory, palettes: &PaletteState, lcd_control: u8, line: int, x: int) -> u32 {
    let number = gb_line_bg_number(memory, lcd_control, line, x);
    let base = gb_line_base(memory, palettes, lcd_control, line, x);
    if lcd_control & LCDC_OBJ_ENABLE != 0 {
        match gb_object_colour(
            palettes,
            spec_first_object_pixel(memory, lcd_control, gb_line_objects(memory, lcd_control, line), 0, line, x, false),
            number,
        ) {
            Some(colour) => colour,
            None => base,
        }
    } else {
        base
    }
}

/// Colour of pixel `(x, line)` of a DMG frame under the current LCDC: black with the display off.
pub open spec fn gb_frame_colour(memory: &GameBoyMemory, palettes: &PaletteState, line: int, x: int) -> u32 {
    let lcd_control = spec_io(memory, 0x40);
    if lcd_control & LCDC_DISPLAY_ENABLE == 0 {
        0u32
    } else {
        gb_line_colour(memory, palettes, lcd_control, line, x)
    }
}

/// The bytes that `fill_line` leaves: line `line` holds `rgb` in every pixel, the rest is as before.
pub open spec fn filled_line(after: Seq<u8>, before: Seq<u8>, line: int, rgb: [u8; 3]) -> bool {
    &&& after.len() == before.len()
    &&& forall|i: int|
        0 <= i < before.len() ==> #[trigger] after[i] == if line * 480 <= i < line * 480 + 480
            && line * 480 + 480 <= before.len() {
            rgb@[(i - line * 480) % 3]
        } else {
            before[i]
        }
}

proof fn lemma_black_line(after: Seq<u8>, before: Seq<u8>, line: int, rgb: [u8; 3])
    requires
        before.len() == GAME_BOY_FRAME_BUFFER_BYTES,
        0 <= line < 144,
        filled_line(after, before, line, rgb),
        forall|k: int| 0 <= k < 3 ==> #[trigger] rgb@[k] == 0u8,
    ensures
        same_outside_line(after, before, line),
        forall|x: int| 0 <= x < 160 ==> #[trigger] shows(after, line, x, 0u32),
{
    assert(((0u32 >> 16u32) & 0xff) as u8 == 0u8 && ((0u32 >> 8u32) & 0xff) as u8 == 0u8 && (0u32 & 0xff) as u8 == 0u8) by (bit_vector);
    assert forall|x: int| 0 <= x < 160 implies #[trigger] shows(after, line, x, 0u32) by {
        let o = pixel_offset(line, x);
        assert(o == line * 480 + 3 * x);
        assert(after[o] == rgb@[(o - line * 480) % 3]);
        assert(after[o + 1] == rgb@[(o + 1 - line * 480) % 3]);
        assert(after[o + 2] == rgb@[(o + 2 - line * 480) % 3]);
    }
}

impl VideoFrameAssembler {
    /// The frame buffer holds one RGB frame.
    pub open spec fn wf(&self) -> bool {
        self.pixels@.len() == GAME_BOY_FRAME_BUFFER_BYTES
    }

    /// Whether the frame buffer holds one RGB frame, as `wf` says.
    pub fn frame_sized(&self) -> (ok: bool)
        ensures
            ok == self.wf(),
    {
        self.pixels.len() == GAME_BOY_FRAME_BUFFER_BYTES
    }

    /// A loaded cartridge starts a new frame.
    pub fn reset_for_rom_load(&mut self)
        ensures
            final(self).frame_in_progress,
            final(self).pixels == old(self).pixels,
    {
        self.begin_frame();
    }

    /// Publishes the frame being assembled into the next frame of the ring; it stays in
    /// progress when the sizes do not match, and nothing happens when no frame is in progress.
    pub fn publish_frame(&mut self, frames: &mut GameBoyFrameRing)
        requires
            old(frames).wf(),
        ensures
            final(frames).wf(),
            final(self).pixels == old(self).pixels,
            !old(self).frame_in_progress ==> *final(frames) == *old(frames) && !final(self).frame_in_progress,
            old(self).frame_in_progress ==> pixels_published(
                old(frames),
                final(frames),
                old(self).pixels@,
                !final(self).frame_in_progress,
            ),
    {
        if !self.frame_in_progress {
            return;
        }
        let published = frames.publish_pixels(self.pixels.as_slice());
        if published {
            self.frame_in_progress = false;
        }
    }

    /// Starts assembling a new frame.
    pub fn begin_frame(&mut self)
        ensures
            final(self).frame_in_progress,
            final(self).pixels == old(self).pixels,
    {
        self.frame_in_progress = true;
    }

    /// Writes the RGB bytes of `colour` at pixel `(x, line_no)`, if the pixel is in the frame.
    pub fn write_pixel(&mut self, line_no: usize, x: usize, colour: u32)
        requires
            (line_no * 160 + x) * 3 + 3 <= usize::MAX,
        ensures
            final(self).frame_in_progress == old(self).frame_in_progress,
            final(self).pixels@ == spec_written_pixel(old(self).pixels@, line_no as int, x as int, colour),
    {
        let offset = (line_no * 160 + x) * 3;
        if offset + 3 > self.pixels.len() {
            return ;
        }
        self.pixels[offset] = ((colour >> 16) & 0xff) as u8;
        self.pixels[offset + 1] = ((colour >> 8) & 0xff) as u8;
        self.pixels[offset + 2] = (colour & 0xff) as u8;
    }

    /// Fills line `line_no` with one RGB colour, if the line is in the frame.
    pub fn fill_line(&mut self, line_no: usize, rgb: [u8; 3])
        requires
            line_no * 480 + 480 <= usize::MAX,
        ensures
            final(self).frame_in_progress == old(self).frame_in_progress,
            filled_line(final(self).pixels@, old(self).pixels@, line_no as int, rgb),
    {
        let line_start = line_no * 480;
        let line_end = line_start + 480;
        if line_end > self.pixels.len() {
            return ;
        }
        let mut i = line_start;
        while i < line_end
            invariant
                line_start == line_no * 480,
                line_end == line_start + 480,
                line_end <= self.pixels@.len(),
                line_start <= i <= line_end,
                self.pixels@.len() == old(self).pixels@.len(),
                self.frame_in_progress == old(self).frame_in_progress,
                forall|j: int|
                    0 <= j < self.pixels@.len() ==> #[trigger] self.pixels@[j] == if line_start <= j < i {
                        rgb@[(j - line_start) % 3]
                    } else {
                        old(self).pixels@[j]
                    },
            decreases line_end - i,
        {
            self.pixels[i] = rgb[(i - line_start) % 3];
            i += 1;
        }
    }

    /// Draws the DMG background on a line and records its colour indices.
    pub fn draw_gb_background_line(
        &mut self,
        line_no: usize,
        lcd_control: u8,
        memory: &GameBoyMemory,
        palettes: &PaletteState,
        bg_colour_numbers: &mut [u32; 160],
    )
        requires
            old(self).wf(),
            line_no < 144,
            tiles_valid(memory),
        ensures
            final(self).wf(),
            final(self).frame_in_progress == old(self).frame_in_progress,
            same_outside_line(final(self).pixels@, old(self).pixels@, line_no as int),
            forall|x: int|
                0 <= x < 160 ==> {
                    &&& #[trigger] final(bg_colour_numbers)@[x] == gb_bg_index(memory, lcd_control, line_no as int, x)
                    &&& shows(final(self).pixels@, line_no as int, x, palettes.translated_bg@[gb_bg_index(memory, lcd_control, line_no as int, x) as int])
                },
    {
        let scroll_y = io(memory, 0x42) as usize;
        let scroll_x = io(memory, 0x43) as usize;
        let tile_map_base: usize = if lcd_control & LCDC_BG_TILE_MAP != 0 {
            0x1c00
        } else {
            0x1800
        };
        let source_y = (line_no + scroll_y) & 0xff;
        proof {
            lemma_low_byte((line_no + scroll_y) as usize);
        }
        let mut screen_x: usize = 0;
        while screen_x < 160
            invariant
                screen_x <= 160,
                line_no < 144,
                self.wf(),
                tiles_valid(memory),
                self.frame_in_progress == old(self).frame_in_progress,
                tile_map_base == bg_map_base(lcd_control),
                scroll_x == spec_io(memory, 0x43),
                source_y == (line_no + spec_io(memory, 0x42)) % 256,
                same_outside_line(self.pixels@, old(self).pixels@, line_no as int),
                forall|x: int|
                    0 <= x < screen_x ==> #[trigger] bg_colour_numbers@[x] == gb_bg_index(memory, lcd_control, line_no as int, x),
                forall|x: int|
                    0 <= x < screen_x ==> #[trigger] shows(self.pixels@, line_no as int, x, palettes.translated_bg@[gb_bg_index(memory, lcd_control, line_no as int, x) as int]),
            decreases 160 - screen_x,
        {
            let source_x = (screen_x + scroll_x) & 0xff;
            proof {
                lemma_low_byte((screen_x + scroll_x) as usize);
            }
            let colour_index = gb_bg_colour_index(memory, lcd_control, tile_map_base, source_x, source_y);
            assert(colour_index < 4);
            bg_colour_numbers[screen_x] = colour_index;
            let ghost before = self.pixels@;
            let colour = palettes.translated_bg[colour_index as usize];
            self.write_pixel(line_no, screen_x, colour);
            proof {
                lemma_written_pixel(before, line_no as int, screen_x as int, colour);
                assert forall|x: int| 0 <= x < screen_x + 1 implies #[trigger] shows(self.pixels@, line_no as int, x, palettes.translated_bg@[gb_bg_index(memory, lcd_control, line_no as int, x) as int]) by {
                    if x < screen_x {
                        assert(shows(before, line_no as int, x, palettes.translated_bg@[gb_bg_index(memory, lcd_control, line_no as int, x) as int]));
                        assert(same_pixel(self.pixels@, before, line_no as int, x));
                    }
                }
            }
            screen_x += 1;
        }
    }
}

/// Colour of the DMG object pixel drawn over background colour index `number`, if one is.
pub open spec fn gb_object_colour(palettes: &PaletteState, pixel: Option<ObjectPixel>, number: u32) -> Option<u32> {
    match pixel {
        Some(p) => if p.flags & 0x80 != 0 && number != 0 {
            None
        } else {
            Some(palettes.translated_obj@[(if p.flags & 0x10 != 0 { 4int } else { 0int }) + p.colour_index as int])
        },
        None => None,
    }
}

/// Colour that the DMG objects put at `(x, line)` over background colour indices `numbers`, if any.
pub open spec fn gb_sprite_colour(
    memory: &GameBoyMemory,
    palettes: &PaletteState,
    lcd_control: u8,
    numbers: Seq<u32>,
    line: int,
    x: int,
) -> Option<u32> {
    gb_object_colour(
        palettes,
        spec_first_object_pixel(memory, lcd_control, gb_line_objects(memory, lcd_control, line), 0, line, x, false),
        numbers[x],
    )
}

/// The objects drawn on a DMG line, in DMG priority.
pub open spec fn gb_line_objects(memory: &GameBoyMemory, lcd_control: u8, line: int) -> Seq<SelectedObject> {
    spec_dmg_priority_objects(spec_selected_objects(memory, lcd_control, line))
}

impl VideoFrameAssembler {
    /// Draws the DMG window over a line, from its first column on, and records its colour indices.
    pub fn draw_gb_window_line(
        &mut self,
        line_no: usize,
        lcd_control: u8,
        memory: &GameBoyMemory,
        palettes: &PaletteState,
        bg_colour_numbers: &mut [u32; 160],
    )
        requires
            old(self).wf(),
            line_no < 144,
            tiles_valid(memory),
        ensures
            final(self).wf(),
            final(self).frame_in_progress == old(self).frame_in_progress,
            same_outside_line(final(self).pixels@, old(self).pixels@, line_no as int),
            forall|x: int|
                0 <= x < 160 ==> if window_active(memory, line_no as int) && x >= window_start(memory) {
                    &&& #[trigger] final(bg_colour_numbers)@[x] == gb_window_index(memory, lcd_control, line_no as int, x)
                    &&& shows(final(self).pixels@, line_no as int, x, palettes.translated_bg@[gb_window_index(memory, lcd_control, line_no as int, x) as int])
                } else {
                    &&& final(bg_colour_numbers)@[x] == old(bg_colour_numbers)@[x]
                    &&& same_pixel(final(self).pixels@, old(self).pixels@, line_no as int, x)
                },
    {
        let window_y = io(memory, 0x4a) as usize;
        let window_x = io(memory, 0x4b) as usize;
        if window_x >= 167 || window_y > line_no {
            return ;
        }
        let screen_start_x: usize = if window_x < 7 {
            0
        } else if window_x - 7 < 160 {
            window_x - 7
        } else {
            160
        };
        let tile_map_base: usize = if lcd_control & LCDC_WINDOW_TILE_MAP != 0 {
            0x1c00
        } else {
            0x1800
        };
        let source_y = line_no - window_y;
        let mut screen_x = screen_start_x;
        while screen_x < 160
            invariant
                screen_start_x <= screen_x <= 160,
                screen_start_x == window_start(memory),
                window_active(memory, line_no as int),
                line_no < 144,
                self.wf(),
                tiles_valid(memory),
                self.frame_in_progress == old(self).frame_in_progress,
                tile_map_base == window_map_base(lcd_control),
                source_y == line_no - spec_io(memory, 0x4a),
                same_outside_line(self.pixels@, old(self).pixels@, line_no as int),
                forall|x: int|
                    screen_start_x <= x < screen_x ==> #[trigger] bg_colour_numbers@[x] == gb_window_index(memory, lcd_control, line_no as int, x),
                forall|x: int|
                    screen_start_x <= x < screen_x ==> #[trigger] shows(self.pixels@, line_no as int, x, palettes.translated_bg@[gb_window_index(memory, lcd_control, line_no as int, x) as int]),
                forall|x: int|
                    0 <= x < 160 && !(screen_start_x <= x < screen_x) ==> #[trigger] bg_colour_numbers@[x] == old(bg_colour_numbers)@[x],
                forall|x: int|
                    0 <= x < 160 && !(screen_start_x <= x < screen_x) ==> #[trigger] same_pixel(self.pixels@, old(self).pixels@, line_no as int, x),
            decreases 160 - screen_x,
        {
            let source_x = screen_x - screen_start_x;
            let colour_index = gb_bg_colour_index(memory, lcd_control, tile_map_base, source_x, source_y);
            bg_colour_numbers[screen_x] = colour_index;
            let ghost before = self.pixels@;
            let colour = palettes.translated_bg[colour_index as usize];
            self.write_pixel(line_no, screen_x, colour);
            proof {
                lemma_written_pixel(before, line_no as int, screen_x as int, colour);
                assert forall|x: int| screen_start_x <= x < screen_x + 1 implies #[trigger] shows(self.pixels@, line_no as int, x, palettes.translated_bg@[gb_window_index(memory, lcd_control, line_no as int, x) as int]) by {
                    if x < screen_x {
                        assert(shows(before, line_no as int, x, palettes.translated_bg@[gb_window_index(memory, lcd_control, line_no as int, x) as int]));
                        assert(same_pixel(self.pixels@, before, line_no as int, x));
                    }
                }
                assert forall|x: int| 0 <= x < 160 && !(screen_start_x <= x < screen_x + 1) implies #[trigger] same_pixel(self.pixels@, old(self).pixels@, line_no as int, x) by {
                    assert(same_pixel(before, old(self).pixels@, line_no as int, x));
                    assert(same_pixel(self.pixels@, before, line_no as int, x));
                }
            }
            screen_x += 1;
        }
    }

    /// Draws the DMG objects of a line in DMG priority; an object with bit 7 of its flags set
    /// hides behind background colours other than 0.
    pub fn draw_gb_sprite_line(
        &mut self,
        line_no: usize,
        lcd_control: u8,
        memory: &GameBoyMemory,
        palettes: &PaletteState,
        bg_colour_numbers: &[u32; 160],
    )
        requires
            old(self).wf(),
            line_no < 144,
            tiles_valid(memory),
        ensures
            final(self).wf(),
            final(self).frame_in_progress == old(self).frame_in_progress,
            same_outside_line(final(self).pixels@, old(self).pixels@, line_no as int),
            forall|x: int|
                0 <= x < 160 ==> #[trigger] drawn_or_kept(
                    final(self).pixels@,
                    old(self).pixels@,
                    line_no as int,
                    x,
                    gb_sprite_colour(memory, palettes, lcd_control, bg_colour_numbers@, line_no as int, x),
                ),
    {
        let objects = select_objects_for_line(memory, lcd_control, line_no);
        let priority_objects = dmg_priority_objects(&objects);
        proof {
            lemma_priority_objects_reach_line(objects@, line_no as int);
        }
        let mut screen_x: usize = 0;
        while screen_x < 160
            invariant
                screen_x <= 160,
                line_no < 144,
                self.wf(),
                tiles_valid(memory),
                self.frame_in_progress == old(self).frame_in_progress,
                priority_objects@ == gb_line_objects(memory, lcd_control, line_no as int),
                objects_reach_line(priority_objects@, line_no as int),
                same_outside_line(self.pixels@, old(self).pixels@, line_no as int),
                forall|x: int|
                    0 <= x < screen_x ==> #[trigger] drawn_or_kept(self.pixels@, old(self).pixels@, line_no as int, x, gb_sprite_colour(memory, palettes, lcd_control, bg_colour_numbers@, line_no as int, x)),
                forall|x: int| screen_x <= x < 160 ==> #[trigger] same_pixel(self.pixels@, old(self).pixels@, line_no as int, x),
            decreases 160 - screen_x,
        {
            let found = first_object_pixel(memory, lcd_control, &priority_objects, line_no, screen_x, false);
            proof {
                lemma_first_object_pixel_valid(memory, lcd_control, priority_objects@, 0, line_no as int, screen_x as int, false);
            }
            let ghost before = self.pixels@;
            let ghost target = gb_sprite_colour(memory, palettes, lcd_control, bg_colour_numbers@, line_no as int, screen_x as int);
            match found {
                Some(pixel) => {
                    if !(pixel.flags & 0x80 != 0 && bg_colour_numbers[screen_x] != 0) {
                        let palette_offset: usize = if pixel.flags & 0x10 != 0 {
                            4
                        } else {
                            0
                        };
                        let colour = palettes.translated_obj[palette_offset + pixel.colour_index as usize];
                        self.write_pixel(line_no, screen_x, colour);
                        proof {
                            lemma_written_pixel(before, line_no as int, screen_x as int, colour);
                        }
                    }
                },
                None => {},
            }
            assert(drawn_or_kept(self.pixels@, before, line_no as int, screen_x as int, target));
            proof {
                assert forall|x: int| 0 <= x < screen_x + 1 implies #[trigger] drawn_or_kept(self.pixels@, old(self).pixels@, line_no as int, x, gb_sprite_colour(memory, palettes, lcd_control, bg_colour_numbers@, line_no as int, x)) by {
                    if x < screen_x {
                        assert(same_pixel(self.pixels@, before, line_no as int, x));
                        assert(drawn_or_kept(before, old(self).pixels@, line_no as int, x, gb_sprite_colour(memory, palettes, lcd_control, bg_colour_numbers@, line_no as int, x)));
                    } else {
                        assert(same_pixel(before, old(self).pixels@, line_no as int, x));
                    }
                }
                assert forall|x: int| screen_x + 1 <= x < 160 implies #[trigger] same_pixel(self.pixels@, old(self).pixels@, line_no as int, x) by {
                    assert(same_pixel(before, old(self).pixels@, line_no as int, x));
                    assert(same_pixel(self.pixels@, before, line_no as int, x));
                }
            }
            screen_x += 1;
        }
    }

    /// Renders line `line` of a DMG frame: background, window and objects as LCDC selects them,
    /// black with the display off. Nothing happens once the frame is published or past the
    /// last visible line.
    #[verifier::spinoff_prover]
    pub fn write_gb_line(&mut self, line: u8, memory: &GameBoyMemory, palettes: &PaletteState)
        requires
            old(self).wf(),
            tiles_valid(memory),
        ensures
            final(self).wf(),
            final(self).frame_in_progress == old(self).frame_in_progress,
            !old(self).frame_in_progress || line >= 144 ==> final(self).pixels@ == old(self).pixels@,
            old(self).frame_in_progress && line < 144 ==> same_outside_line(final(self).pixels@, old(self).pixels@, line as int),
            old(self).frame_in_progress && line < 144 ==> forall|x: int|
                0 <= x < 160 ==> #[trigger] shows(final(self).pixels@, line as int, x, gb_frame_colour(memory, palettes, line as int, x)),
    {
        if !self.frame_in_progress {
            return ;
        }
        let line_no = line as usize;
        if line_no >= 144 {
            return ;
        }
        let lcd_control = io(memory, 0x40);
        let black: [u8; 3] = [0u8; 3];
        assert(black@ =~= seq![0u8, 0u8, 0u8]);
        if lcd_control & LCDC_DISPLAY_ENABLE == 0 {
            self.fill_line(line_no, black);
            proof {
                lemma_black_line(self.pixels@, old(self).pixels@, line_no as int, black);
            }
            return ;
        }
        let mut bg_colour_numbers = [0u32; 160];
        assert(bg_colour_numbers@ =~= Seq::new(160, |i: int| 0u32));
        let bg_window_enabled = lcd_control & LCDC_BG_ENABLE != 0;
        if bg_window_enabled {
            self.draw_gb_background_line(line_no, lcd_control, memory, palettes, &mut bg_colour_numbers);
        } else {
            self.fill_line(line_no, black);
            proof {
                lemma_black_line(self.pixels@, old(self).pixels@, line_no as int, black);
            }
        }
        let ghost after_bg = self.pixels@;
        let ghost numbers_bg = bg_colour_numbers@;
        assert forall|x: int| 0 <= x < 160 implies #[trigger] numbers_bg[x] == (if bg_window_enabled {
            gb_bg_index(memory, lcd_control, line_no as int, x)
        } else {
            0u32
        }) && shows(after_bg, line_no as int, x, if bg_window_enabled {
            palettes.translated_bg@[gb_bg_index(memory, lcd_control, line_no as int, x) as int]
        } else {
            0u32
        }) by {
            if bg_window_enabled {
                assert(numbers_bg[x] == gb_bg_index(memory, lcd_control, line_no as int, x));
            } else {
                assert(shows(after_bg, line_no as int, x, 0u32));
            }
        }
        if bg_window_enabled && lcd_control & LCDC_WINDOW_ENABLE != 0 {
            self.draw_gb_window_line(line_no, lcd_control, memory, palettes, &mut bg_colour_numbers);
        }
        let ghost after_window = self.pixels@;
        assert forall|x: int| 0 <= x < 160 implies #[trigger] bg_colour_numbers@[x] == gb_line_bg_number(memory, lcd_control, line_no as int, x)
            && shows(after_window, line_no as int, x, gb_line_base(memory, palettes, lcd_control, line_no as int, x)) by {
            assert(numbers_bg[x] == numbers_bg[x]);
            if bg_window_enabled && lcd_control & LCDC_WINDOW_ENABLE != 0 {
                if window_active(memory, line_no as int) && x >= window_start(memory) {
                    assert(bg_colour_numbers@[x] == gb_window_index(memory, lcd_control, line_no as int, x));
                } else {
                    assert(bg_colour_numbers@[x] == numbers_bg[x]);
                    assert(same_pixel(after_window, after_bg, line_no as int, x));
                }
            } else {
                assert(bg_colour_numbers@ == numbers_bg);
                assert(after_window == after_bg);
            }
        }
        if lcd_control & LCDC_OBJ_ENABLE != 0 {
            self.draw_gb_sprite_line(line_no, lcd_control, memory, palettes, &bg_colour_numbers);
        }
        assert forall|x: int| 0 <= x < 160 implies #[trigger] shows(self.pixels@, line_no as int, x, gb_frame_colour(memory, palettes, line_no as int, x)) by {
            assert(bg_colour_numbers@[x] == gb_line_bg_number(memory, lcd_control, line_no as int, x));
            assert(shows(after_window, line_no as int, x, gb_line_base(memory, palettes, lcd_control, line_no as int, x)));
            if lcd_control & LCDC_OBJ_ENABLE != 0 {
                assert(drawn_or_kept(self.pixels@, after_window, line_no as int, x, gb_sprite_colour(memory, palettes, lcd_control, bg_colour_numbers@, line_no as int, x)));
            }
        }
    }
}

/// The CGB background pixel at screen pixel `(x, line)` under the scroll registers.
pub open spec fn cgb_bg_at(memory: &GameBoyMemory, lcd_control: u8, line: int, x: int) -> CgbBackgroundPixel {
    let (sx, sy) = bg_source(memory, line, x);
    spec_cgb_bg_pixel(memory, lcd_control, bg_map_base(lcd_control), sx, sy)
}

/// The CGB window pixel at screen pixel `(x, line)`.
pub open spec fn cgb_window_at(memory: &GameBoyMemory, lcd_control: u8, line: int, x: int) -> CgbBackgroundPixel {
    spec_cgb_bg_pixel(
        memory,
        lcd_control,
        window_map_base(lcd_control),
        x - window_start(memory),
        line - spec_io(memory, 0x4a),
    )
}

/// The CGB background or window pixel left at `(x, line)` before objects; on the CGB, LCDC
/// bit 0 turns neither off.
pub open spec fn cgb_line_bg_pixel(memory: &GameBoyMemory, lcd_control: u8, line: int, x: int) -> CgbBackgroundPixel {
    if lcd_control & LCDC_WINDOW_ENABLE != 0 && window_active(memory, line) && x >= window_start(memory) {
        cgb_window_at(memory, lcd_control, line, x)
    } else {
        cgb_bg_at(memory, lcd_control, line, x)
    }
}

/// The colour of a CGB background pixel in the background colour palettes.
pub open spec fn cgb_bg_colour(palettes: &PaletteState, pixel: CgbBackgroundPixel) -> u32 {
    palettes.cgb_bg@[pixel.palette_offset + pixel.colour_index]
}

/// Whether a background pixel with colour index `number` and priority bit `bg_priority` hides an
/// object pixel with flags `object_flags`.
pub open spec fn spec_cgb_bg_has_priority(lcd_control: u8, number: u32, bg_priority: bool, object_flags: u8) -> bool {
    number != 0 && lcd_control & LCDC_BG_ENABLE != 0 && (bg_priority || object_flags & 0x80 != 0)
}

/// The objects drawn on a CGB line, in OAM order.
pub open spec fn cgb_line_objects(memory: &GameBoyMemory, lcd_control: u8, line: int) -> Seq<SelectedObject> {
    spec_visible_objects(spec_selected_objects(memory, lcd_control, line))
}

/// Colour that the CGB objects put at `(x, line)` over background colour indices `numbers` and
/// priority bits `priorities`, if any.
pub open spec fn cgb_sprite_colour(
    memory: &GameBoyMemory,
    palettes: &PaletteState,
    lcd_control: u8,
    numbers: Seq<u32>,
    priorities: Seq<bool>,
    line: int,
    x: int,
) -> Option<u32> {
    match spec_first_object_pixel(memory, lcd_control, cgb_line_objects(memory, lcd_control, line), 0, line, x, true) {
        Some(p) => if spec_cgb_bg_has_priority(lcd_control, numbers[x], priorities[x], p.flags) {
            None
        } else {
            Some(palettes.cgb_obj@[(p.flags & 0x07) as int * 4 + p.colour_index as int])
        },
        None => None,
    }
}

/// Colour of pixel `(x, line)` of a CGB frame under the current LCDC: black with the display
/// off, else the object pixel in front where there is one, else the background or window.
pub open spec fn cgb_frame_colour(memory: &GameBoyMemory, palettes: &PaletteState, line: int, x: int) -> u32 {
    let lcd_control = spec_io(memory, 0x40);
    let bg = cgb_line_bg_pixel(memory, lcd_control, line, x);
    if lcd_control & LCDC_DISPLAY_ENABLE == 0 {
        0u32
    } else if lcd_control & LCDC_OBJ_ENABLE != 0 {
        match spec_first_object_pixel(memory, lcd_control, cgb_line_objects(memory, lcd_control, line), 0, line, x, true) {
            Some(p) => if spec_cgb_bg_has_priority(lcd_control, bg.colour_index, bg.bg_priority, p.flags) {
                cgb_bg_colour(palettes, bg)
            } else {
                palettes.cgb_obj@[(p.flags & 0x07) as int * 4 + p.colour_index as int]
            },
            None => cgb_bg_colour(palettes, bg),
        }
    } else {
        cgb_bg_colour(palettes, bg)
    }
}

impl VideoFrameAssembler {
    /// Draws the CGB background on a line and records its colour indices and priority bits.
    pub fn draw_cgb_background_line(
        &mut self,
        line_no: usize,
        lcd_control: u8,
        memory: &GameBoyMemory,
        palettes: &PaletteState,
        bg_colour_numbers: &mut [u32; 160],
        bg_display_priorities: &mut [bool; 160],
    )
        requires
            old(self).wf(),
            line_no < 144,
            tiles_valid(memory),
        ensures
            final(self).wf(),
            final(self).frame_in_progress == old(self).frame_in_progress,
            same_outside_line(final(self).pixels@, old(self).pixels@, line_no as int),
            forall|x: int|
                0 <= x < 160 ==> {
                    &&& #[trigger] final(bg_colour_numbers)@[x] == cgb_bg_at(memory, lcd_control, line_no as int, x).colour_index
                    &&& final(bg_display_priorities)@[x] == cgb_bg_at(memory, lcd_control, line_no as int, x).bg_priority
                    &&& shows(final(self).pixels@, line_no as int, x, cgb_bg_colour(palettes, cgb_bg_at(memory, lcd_control, line_no as int, x)))
                },
    {
        let scroll_y = io(memory, 0x42) as usize;
        let scroll_x = io(memory, 0x43) as usize;
        let tile_map_base: usize = if lcd_control & LCDC_BG_TILE_MAP != 0 {
            0x1c00
        } else {
            0x1800
        };
        let source_y = (line_no + scroll_y) & 0xff;
        proof {
            lemma_low_byte((line_no + scroll_y) as usize);
        }
        let mut screen_x: usize = 0;
        while screen_x < 160
            invariant
                screen_x <= 160,
                line_no < 144,
                self.wf(),
                tiles_valid(memory),
                self.frame_in_progress == old(self).frame_in_progress,
                tile_map_base == bg_map_base(lcd_control),
                scroll_x == spec_io(memory, 0x43),
                source_y == (line_no + spec_io(memory, 0x42)) % 256,
                same_outside_line(self.pixels@, old(self).pixels@, line_no as int),
                forall|x: int|
                    0 <= x < screen_x ==> #[trigger] bg_colour_numbers@[x] == cgb_bg_at(memory, lcd_control, line_no as int, x).colour_index,
                forall|x: int|
                    0 <= x < screen_x ==> #[trigger] bg_display_priorities@[x] == cgb_bg_at(memory, lcd_control, line_no as int, x).bg_priority,
                forall|x: int|
                    0 <= x < screen_x ==> #[trigger] shows(self.pixels@, line_no as int, x, cgb_bg_colour(palettes, cgb_bg_at(memory, lcd_control, line_no as int, x))),
            decreases 160 - screen_x,
        {
            let source_x = (screen_x + scroll_x) & 0xff;
            proof {
                lemma_low_byte((screen_x + scroll_x) as usize);
            }
            let pixel = cgb_bg_pixel(memory, lcd_control, tile_map_base, source_x, source_y);
            assert(pixel.colour_index < 4);
            bg_colour_numbers[screen_x] = pixel.colour_index;
            bg_display_priorities[screen_x] = pixel.bg_priority;
            let ghost before = self.pixels@;
            let colour = palettes.cgb_bg[pixel.palette_offset + pixel.colour_index as usize];
            self.write_pixel(line_no, screen_x, colour);
            proof {
                lemma_written_pixel(before, line_no as int, screen_x as int, colour);
                assert forall|x: int| 0 <= x < screen_x + 1 implies #[trigger] shows(self.pixels@, line_no as int, x, cgb_bg_colour(palettes, cgb_bg_at(memory, lcd_control, line_no as int, x))) by {
                    if x < screen_x {
                        assert(shows(before, line_no as int, x, cgb_bg_colour(palettes, cgb_bg_at(memory, lcd_control, line_no as int, x))));
                        assert(same_pixel(self.pixels@, before, line_no as int, x));
                    }
                }
            }
            screen_x += 1;
        }
    }

    /// Draws the CGB window over a line, from its first column on, and records its colour
    /// indices and priority bits.
    pub fn draw_cgb_window_line(
        &mut self,
        line_no: usize,
        lcd_control: u8,
        memory: &GameBoyMemory,
        palettes: &PaletteState,
        bg_colour_numbers: &mut [u32; 160],
        bg_display_priorities: &mut [bool; 160],
    )
        requires
            old(self).wf(),
            line_no < 144,
            tiles_valid(memory),
        ensures
            final(self).wf(),
            final(self).frame_in_progress == old(self).frame_in_progress,
            same_outside_line(final(self).pixels@, old(self).pixels@, line_no as int),
            forall|x: int|
                0 <= x < 160 ==> if window_active(memory, line_no as int) && x >= window_start(memory) {
                    &&& #[trigger] final(bg_colour_numbers)@[x] == cgb_window_at(memory, lcd_control, line_no as int, x).colour_index
                    &&& final(bg_display_priorities)@[x] == cgb_window_at(memory, lcd_control, line_no as int, x).bg_priority
                    &&& shows(final(self).pixels@, line_no as int, x, cgb_bg_colour(palettes, cgb_window_at(memory, lcd_control, line_no as int, x)))
                } else {
                    &&& final(bg_colour_numbers)@[x] == old(bg_colour_numbers)@[x]
                    &&& final(bg_display_priorities)@[x] == old(bg_display_priorities)@[x]
                    &&& same_pixel(final(self).pixels@, old(self).pixels@, line_no as int, x)
                },
    {
        let window_y = io(memory, 0x4a) as usize;
        let window_x = io(memory, 0x4b) as usize;
        if window_x >= 167 || window_y > line_no {
            return ;
        }
        let screen_start_x: usize = if window_x < 7 {
            0
        } else if window_x - 7 < 160 {
            window_x - 7
        } else {
            160
        };
        let tile_map_base: usize = if lcd_control & LCDC_WINDOW_TILE_MAP != 0 {
            0x1c00
        } else {
            0x1800
        };
        let source_y = line_no - window_y;
        let mut screen_x = screen_start_x;
        while screen_x < 160
            invariant
                screen_start_x <= screen_x <= 160,
                screen_start_x == window_start(memory),
                window_active(memory, line_no as int),
                line_no < 144,
                self.wf(),
                tiles_valid(memory),
                self.frame_in_progress == old(self).frame_in_progress,
                tile_map_base == window_map_base(lcd_control),
                source_y == line_no - spec_io(memory, 0x4a),
                same_outside_line(self.pixels@, old(self).pixels@, line_no as int),
                forall|x: int|
                    screen_start_x <= x < screen_x ==> #[trigger] bg_colour_numbers@[x] == cgb_window_at(memory, lcd_control, line_no as int, x).colour_index,
                forall|x: int|
                    screen_start_x <= x < screen_x ==> #[trigger] bg_display_priorities@[x] == cgb_window_at(memory, lcd_control, line_no as int, x).bg_priority,
                forall|x: int|
                    screen_start_x <= x < screen_x ==> #[trigger] shows(self.pixels@, line_no as int, x, cgb_bg_colour(palettes, cgb_window_at(memory, lcd_control, line_no as int, x))),
                forall|x: int|
                    0 <= x < 160 && !(screen_start_x <= x < screen_x) ==> #[trigger] bg_colour_numbers@[x] == old(bg_colour_numbers)@[x],
                forall|x: int|
                    0 <= x < 160 && !(screen_start_x <= x < screen_x) ==> #[trigger] bg_display_priorities@[x] == old(bg_display_priorities)@[x],
                forall|x: int|
                    0 <= x < 160 && !(screen_start_x <= x < screen_x) ==> #[trigger] same_pixel(self.pixels@, old(self).pixels@, line_no as int, x),
            decreases 160 - screen_x,
        {
            let source_x = screen_x - screen_start_x;
            let pixel = cgb_bg_pixel(memory, lcd_control, tile_map_base, source_x, source_y);
            assert(pixel.colour_index < 4);
            bg_colour_numbers[screen_x] = pixel.colour_index;
            bg_display_priorities[screen_x] = pixel.bg_priority;
            let ghost before = self.pixels@;
            let colour = palettes.cgb_bg[pixel.palette_offset + pixel.colour_index as usize];
            self.write_pixel(line_no, screen_x, colour);
            proof {
                lemma_written_pixel(before, line_no as int, screen_x as int, colour);
                assert forall|x: int| screen_start_x <= x < screen_x + 1 implies #[trigger] shows(self.pixels@, line_no as int, x, cgb_bg_colour(palettes, cgb_window_at(memory, lcd_control, line_no as int, x))) by {
                    if x < screen_x {
                        assert(shows(before, line_no as int, x, cgb_bg_colour(palettes, cgb_window_at(memory, lcd_control, line_no as int, x))));
                        assert(same_pixel(self.pixels@, before, line_no as int, x));
                    }
                }
                assert forall|x: int| 0 <= x < 160 && !(screen_start_x <= x < screen_x + 1) implies #[trigger] same_pixel(self.pixels@, old(self).pixels@, line_no as int, x) by {
                    assert(same_pixel(before, old(self).pixels@, line_no as int, x));
                    assert(same_pixel(self.pixels@, before, line_no as int, x));
                }
            }
            screen_x += 1;
        }
    }

    /// Draws the CGB objects of a line in OAM order; a background pixel with a non-zero colour
    /// hides an object pixel when LCDC bit 0 is set and the tile or the object asks for it.
    pub fn draw_cgb_sprite_line(
        &mut self,
        line_no: usize,
        lcd_control: u8,
        memory: &GameBoyMemory,
        palettes: &PaletteState,
        bg_colour_numbers: &[u32; 160],
        bg_display_priorities: &[bool; 160],
    )
        requires
            old(self).wf(),
            line_no < 144,
            tiles_valid(memory),
        ensures
            final(self).wf(),
            final(self).frame_in_progress == old(self).frame_in_progress,
            same_outside_line(final(self).pixels@, old(self).pixels@, line_no as int),
            forall|x: int|
                0 <= x < 160 ==> #[trigger] drawn_or_kept(
                    final(self).pixels@,
                    old(self).pixels@,
                    line_no as int,
                    x,
                    cgb_sprite_colour(memory, palettes, lcd_control, bg_colour_numbers@, bg_display_priorities@, line_no as int, x),
                ),
    {
        let objects = select_objects_for_line(memory, lcd_control, line_no);
        let priority_objects = cgb_priority_objects(&objects);
        proof {
            lemma_priority_objects_reach_line(objects@, line_no as int);
        }
        let mut screen_x: usize = 0;
        while screen_x < 160
            invariant
                screen_x <= 160,
                line_no < 144,
                self.wf(),
                tiles_valid(memory),
                self.frame_in_progress == old(self).frame_in_progress,
                priority_objects@ == cgb_line_objects(memory, lcd_control, line_no as int),
                objects_reach_line(priority_objects@, line_no as int),
                same_outside_line(self.pixels@, old(self).pixels@, line_no as int),
                forall|x: int|
                    0 <= x < screen_x ==> #[trigger] drawn_or_kept(
                        self.pixels@,
                        old(self).pixels@,
                        line_no as int,
                        x,
                        cgb_sprite_colour(memory, palettes, lcd_control, bg_colour_numbers@, bg_display_priorities@, line_no as int, x),
                    ),
                forall|x: int| screen_x <= x < 160 ==> #[trigger] same_pixel(self.pixels@, old(self).pixels@, line_no as int, x),
            decreases 160 - screen_x,
        {
            let found = first_object_pixel(memory, lcd_control, &priority_objects, line_no, screen_x, true);
            proof {
                lemma_first_object_pixel_valid(memory, lcd_control, priority_objects@, 0, line_no as int, screen_x as int, true);
            }
            let ghost before = self.pixels@;
            let ghost target = cgb_sprite_colour(memory, palettes, lcd_control, bg_colour_numbers@, bg_display_priorities@, line_no as int, screen_x as int);
            match found {
                Some(pixel) => {
                    if !cgb_bg_has_priority(lcd_control, bg_colour_numbers[screen_x], bg_display_priorities[screen_x], pixel.flags) {
                        let flags = pixel.flags;
                        proof {
                            crate::bits::lemma_small_masks(flags, 0);
                        }
                        let palette_offset = (flags & 0x07) as usize * 4;
                        let colour = palettes.cgb_obj[palette_offset + pixel.colour_index as usize];
                        self.write_pixel(line_no, screen_x, colour);
                        proof {
                            lemma_written_pixel(before, line_no as int, screen_x as int, colour);
                        }
                    }
                },
                None => {},
            }
            assert(drawn_or_kept(self.pixels@, before, line_no as int, screen_x as int, target));
            proof {
                assert forall|x: int| 0 <= x < screen_x + 1 implies #[trigger] drawn_or_kept(
                    self.pixels@,
                    old(self).pixels@,
                    line_no as int,
                    x,
                    cgb_sprite_colour(memory, palettes, lcd_control, bg_colour_numbers@, bg_display_priorities@, line_no as int, x),
                ) by {
                    if x < screen_x {
                        assert(same_pixel(self.pixels@, before, line_no as int, x));
                        assert(drawn_or_kept(before, old(self).pixels@, line_no as int, x, cgb_sprite_colour(memory, palettes, lcd_control, bg_colour_numbers@, bg_display_priorities@, line_no as int, x)));
                    } else {
                        assert(same_pixel(before, old(self).pixels@, line_no as int, x));
                    }
                }
                assert forall|x: int| screen_x + 1 <= x < 160 implies #[trigger] same_pixel(self.pixels@, old(self).pixels@, line_no as int, x) by {
                    assert(same_pixel(before, old(self).pixels@, line_no as int, x));
                    assert(same_pixel(self.pixels@, before, line_no as int, x));
                }
            }
            screen_x += 1;
        }
    }

    /// Renders line `line` of a CGB frame: background, window and objects as LCDC selects them,
    /// black with the display off. Nothing happens once the frame is published or past the
    /// last visible line.
    pub fn write_cgb_line(&mut self, line: u8, memory: &GameBoyMemory, palettes: &PaletteState)
        requires
            old(self).wf(),
            tiles_valid(memory),
        ensures
            final(self).wf(),
            final(self).frame_in_progress == old(self).frame_in_progress,
            !old(self).frame_in_progress || line >= 144 ==> final(self).pixels@ == old(self).pixels@,
            old(self).frame_in_progress && line < 144 ==> same_outside_line(final(self).pixels@, old(self).pixels@, line as int),
            old(self).frame_in_progress && line < 144 ==> forall|x: int|
                0 <= x < 160 ==> #[trigger] shows(final(self).pixels@, line as int, x, cgb_frame_colour(memory, palettes, line as int, x)),
    {
        if !self.frame_in_progress {
            return ;
        }
        let line_no = line as usize;
        if line_no >= 144 {
            return ;
        }
        let lcd_control = io(memory, 0x40);
        if lcd_control & LCDC_DISPLAY_ENABLE == 0 {
            let black: [u8; 3] = [0u8; 3];
            assert(black@ =~= seq![0u8, 0u8, 0u8]);
            self.fill_line(line_no, black);
            proof {
                lemma_black_line(self.pixels@, old(self).pixels@, line_no as int, black);
            }
            return ;
        }
        let mut bg_colour_numbers = [0u32; 160];
        let mut bg_display_priorities = [false; 160];
        self.draw_cgb_background_line(line_no, lcd_control, memory, palettes, &mut bg_colour_numbers, &mut bg_display_priorities);
        let ghost after_bg = self.pixels@;
        let ghost numbers_bg = bg_colour_numbers@;
        let ghost priorities_bg = bg_display_priorities@;
        if lcd_control & LCDC_WINDOW_ENABLE != 0 {
            self.draw_cgb_window_line(line_no, lcd_control, memory, palettes, &mut bg_colour_numbers, &mut bg_display_priorities);
        }
        let ghost after_window = self.pixels@;
        assert forall|x: int| 0 <= x < 160 implies {
            &&& #[trigger] bg_colour_numbers@[x] == cgb_line_bg_pixel(memory, lcd_control, line_no as int, x).colour_index
            &&& bg_display_priorities@[x] == cgb_line_bg_pixel(memory, lcd_control, line_no as int, x).bg_priority
            &&& shows(after_window, line_no as int, x, cgb_bg_colour(palettes, cgb_line_bg_pixel(memory, lcd_control, line_no as int, x)))
        } by {
            assert(numbers_bg[x] == cgb_bg_at(memory, lcd_control, line_no as int, x).colour_index);
            assert(priorities_bg[x] == cgb_bg_at(memory, lcd_control, line_no as int, x).bg_priority);
            assert(shows(after_bg, line_no as int, x, cgb_bg_colour(palettes, cgb_bg_at(memory, lcd_control, line_no as int, x))));
            if lcd_control & LCDC_WINDOW_ENABLE != 0 {
                if window_active(memory, line_no as int) && x >= window_start(memory) {
                    assert(bg_colour_numbers@[x] == cgb_window_at(memory, lcd_control, line_no as int, x).colour_index);
                } else {
                    assert(bg_colour_numbers@[x] == numbers_bg[x]);
                    assert(bg_display_priorities@[x] == priorities_bg[x]);
                    assert(same_pixel(after_window, after_bg, line_no as int, x));
                }
            } else {
                assert(after_window == after_bg);
            }
        }
        if lcd_control & LCDC_OBJ_ENABLE != 0 {
            self.draw_cgb_sprite_line(line_no, lcd_control, memory, palettes, &bg_colour_numbers, &bg_display_priorities);
        }
        assert forall|x: int| 0 <= x < 160 implies #[trigger] shows(self.pixels@, line_no as int, x, cgb_frame_colour(memory, palettes, line_no as int, x)) by {
            assert(bg_colour_numbers@[x] == cgb_line_bg_pixel(memory, lcd_control, line_no as int, x).colour_index);
            if lcd_control & LCDC_OBJ_ENABLE != 0 {
                assert(drawn_or_kept(self.pixels@, after_window, line_no as int, x, cgb_sprite_colour(memory, palettes, lcd_control, bg_colour_numbers@, bg_display_priorities@, line_no as int, x)));
            }
        }
    }
}

/// Monochrome value that the Super Game Boy background and window leave at `(x, line)`.
pub open spec fn sgb_line_bg_value(memory: &GameBoyMemory, palettes: &PaletteState, lcd_control: u8, line: int, x: int) -> u32 {
    if lcd_control & LCDC_BG_ENABLE == 0 {
        0u32
    } else {
        palettes.sgb_translation_bg@[gb_line_bg_number(memory, lcd_control, line, x) as int] & 0x03
    }
}

/// Monochrome value that the DMG objects put at `(x, line)` of a Super Game Boy frame over the
/// value `under` already there, if any: a background-priority object only shows over
/// resolved background colour 0.
pub open spec fn sgb_sprite_value(
    memory: &GameBoyMemory,
    palettes: &PaletteState,
    lcd_control: u8,
    under: u32,
    line: int,
    x: int,
) -> Option<u32> {
    match spec_first_object_pixel(memory, lcd_control, gb_line_objects(memory, lcd_control, line), 0, line, x, false) {
        Some(p) => if p.flags & 0x80 != 0 && under != palettes.sgb_translation_bg@[0] {
            None
        } else {
            Some(palettes.sgb_translation_obj@[(if p.flags & 0x10 != 0 { 4int } else { 0int }) + p.colour_index as int] & 0x03)
        },
        None => None,
    }
}

/// Monochrome value of pixel `(x, line)` of a Super Game Boy frame under the current LCDC.
pub open spec fn sgb_frame_value(memory: &GameBoyMemory, palettes: &PaletteState, line: int, x: int) -> u32 {
    let lcd_control = spec_io(memory, 0x40);
    let base = sgb_line_bg_value(memory, palettes, lcd_control, line, x);
    if lcd_control & LCDC_DISPLAY_ENABLE == 0 {
        0u32
    } else if lcd_control & LCDC_OBJ_ENABLE != 0 {
        match sgb_sprite_value(memory, palettes, lcd_control, base, line, x) {
            Some(value) => value,
            None => base,
        }
    } else {
        base
    }
}

/// Index of pixel `(x, line)` in the monochrome frame.
pub open spec fn mono_index(line: int, x: int) -> int {
    line * 160 + x
}

/// Both monochrome frames have the same length and agree outside line `line`.
pub open spec fn same_mono_outside_line(a: Seq<u32>, b: Seq<u32>, line: int) -> bool {
    &&& a.len() == b.len()
    &&& forall|i: int| 0 <= i < a.len() && !(line * 160 <= i < line * 160 + 160) ==> #[trigger] a[i] == b[i]
}

/// Stores the low two bits of `value` as monochrome pixel `(x, line_no)`, if it is in the frame.
pub fn write_sgb_mono_pixel(sgb: &mut SgbState, line_no: usize, x: usize, value: u32)
    requires
        line_no * 160 + x <= usize::MAX,
    ensures
        final(sgb).same_except_mono(old(sgb)),
        final(sgb).mono_data@ == if line_no * 160 + x < old(sgb).mono_data@.len() {
            old(sgb).mono_data@.update(line_no * 160 + x, value & 0x03)
        } else {
            old(sgb).mono_data@
        },
{
    let index = line_no * 160 + x;
    if index < sgb.mono_data.len() {
        sgb.mono_data.set(index, value & 0x03);
    }
}

/// Sets every monochrome pixel of line `line_no` to `value`, if the line is in the frame.
pub fn fill_sgb_mono_line(sgb: &mut SgbState, line_no: usize, value: u32)
    requires
        line_no * 160 + 160 <= usize::MAX,
    ensures
        final(sgb).same_except_mono(old(sgb)),
        final(sgb).mono_data@.len() == old(sgb).mono_data@.len(),
        forall|i: int|
            0 <= i < old(sgb).mono_data@.len() ==> #[trigger] final(sgb).mono_data@[i] == if line_no * 160 <= i
                < line_no * 160 + 160 && line_no * 160 + 160 <= old(sgb).mono_data@.len() {
                value
            } else {
                old(sgb).mono_data@[i]
            },
{
    let start = line_no * 160;
    let end = start + 160;
    if end > sgb.mono_data.len() {
        return ;
    }
    let mut i = start;
    while i < end
        invariant
            start == line_no * 160,
            end == start + 160,
            end <= sgb.mono_data@.len(),
            start <= i <= end,
            sgb.same_except_mono(old(sgb)),
            sgb.mono_data@.len() == old(sgb).mono_data@.len(),
            forall|j: int|
                0 <= j < sgb.mono_data@.len() ==> #[trigger] sgb.mono_data@[j] == if start <= j < i {
                    value
                } else {
                    old(sgb).mono_data@[j]
                },
        decreases end - i,
    {
        sgb.mono_data.set(i, value);
        i += 1;
    }
}

/// Draws the DMG background of a line into the Super Game Boy monochrome frame, through the
/// background shade palette.
pub fn draw_sgb_background_line(
    line_no: usize,
    lcd_control: u8,
    memory: &GameBoyMemory,
    palettes: &PaletteState,
    sgb: &mut SgbState,
)
    requires
        old(sgb).wf(),
        line_no < 144,
        tiles_valid(memory),
    ensures
        final(sgb).wf(),
        final(sgb).same_except_mono(old(sgb)),
        same_mono_outside_line(final(sgb).mono_data@, old(sgb).mono_data@, line_no as int),
        forall|x: int|
            0 <= x < 160 ==> #[trigger] final(sgb).mono_data@[mono_index(line_no as int, x)]
                == palettes.sgb_translation_bg@[gb_bg_index(memory, lcd_control, line_no as int, x) as int] & 0x03,
{
    let scroll_y = io(memory, 0x42) as usize;
    let scroll_x = io(memory, 0x43) as usize;
    let tile_map_base: usize = if lcd_control & LCDC_BG_TILE_MAP != 0 {
        0x1c00
    } else {
        0x1800
    };
    let source_y = (line_no + scroll_y) & 0xff;
    proof {
        lemma_low_byte((line_no + scroll_y) as usize);
    }
    let mut screen_x: usize = 0;
    while screen_x < 160
        invariant
            screen_x <= 160,
            line_no < 144,
            sgb.wf(),
            sgb.same_except_mono(old(sgb)),
            tiles_valid(memory),
            tile_map_base == bg_map_base(lcd_control),
            scroll_x == spec_io(memory, 0x43),
            source_y == (line_no + spec_io(memory, 0x42)) % 256,
            same_mono_outside_line(sgb.mono_data@, old(sgb).mono_data@, line_no as int),
            forall|x: int|
                0 <= x < screen_x ==> #[trigger] sgb.mono_data@[mono_index(line_no as int, x)]
                    == palettes.sgb_translation_bg@[gb_bg_index(memory, lcd_control, line_no as int, x) as int] & 0x03,
        decreases 160 - screen_x,
    {
        let source_x = (screen_x + scroll_x) & 0xff;
        proof {
            lemma_low_byte((screen_x + scroll_x) as usize);
        }
        let colour_index = gb_bg_colour_index(memory, lcd_control, tile_map_base, source_x, source_y);
        assert(colour_index < 4);
        write_sgb_mono_pixel(sgb, line_no, screen_x, palettes.sgb_translation_bg[colour_index as usize]);
        screen_x += 1;
    }
}

/// Draws the DMG window of a line, from its first column on, into the Super Game Boy
/// monochrome frame.
pub fn draw_sgb_window_line(
    line_no: usize,
    lcd_control: u8,
    memory: &GameBoyMemory,
    palettes: &PaletteState,
    sgb: &mut SgbState,
)
    requires
        old(sgb).wf(),
        line_no < 144,
        tiles_valid(memory),
    ensures
        final(sgb).wf(),
        final(sgb).same_except_mono(old(sgb)),
        same_mono_outside_line(final(sgb).mono_data@, old(sgb).mono_data@, line_no as int),
        forall|x: int|
            0 <= x < 160 ==> #[trigger] final(sgb).mono_data@[mono_index(line_no as int, x)] == if window_active(
                memory,
                line_no as int,
            ) && x >= window_start(memory) {
                palettes.sgb_translation_bg@[gb_window_index(memory, lcd_control, line_no as int, x) as int] & 0x03
            } else {
                old(sgb).mono_data@[mono_index(line_no as int, x)]
            },
{
    let window_y = io(memory, 0x4a) as usize;
    let window_x = io(memory, 0x4b) as usize;
    if window_x >= 167 || window_y > line_no {
        return ;
    }
    let screen_start_x: usize = if window_x < 7 {
        0
    } else if window_x - 7 < 160 {
        window_x - 7
    } else {
        160
    };
    let tile_map_base: usize = if lcd_control & LCDC_WINDOW_TILE_MAP != 0 {
        0x1c00
    } else {
        0x1800
    };
    let source_y = line_no - window_y;
    let mut screen_x = screen_start_x;
    while screen_x < 160
        invariant
            screen_start_x <= screen_x <= 160,
            screen_start_x == window_start(memory),
            window_active(memory, line_no as int),
            line_no < 144,
            sgb.wf(),
            sgb.same_except_mono(old(sgb)),
            tiles_valid(memory),
            tile_map_base == window_map_base(lcd_control),
            source_y == line_no - spec_io(memory, 0x4a),
            same_mono_outside_line(sgb.mono_data@, old(sgb).mono_data@, line_no as int),
            forall|x: int|
                0 <= x < 160 ==> #[trigger] sgb.mono_data@[mono_index(line_no as int, x)] == if screen_start_x <= x
                    < screen_x {
                    palettes.sgb_translation_bg@[gb_window_index(memory, lcd_control, line_no as int, x) as int] & 0x03
                } else {
                    old(sgb).mono_data@[mono_index(line_no as int, x)]
                },
        decreases 160 - screen_x,
    {
        let source_x = screen_x - screen_start_x;
        let colour_index = gb_bg_colour_index(memory, lcd_control, tile_map_base, source_x, source_y);
        assert(colour_index < 4);
        write_sgb_mono_pixel(sgb, line_no, screen_x, palettes.sgb_translation_bg[colour_index as usize]);
        screen_x += 1;
    }
}

/// Draws the DMG objects of a line into the Super Game Boy monochrome frame; an object with
/// bit 7 of its flags set only shows where the frame holds resolved background colour 0.
pub fn draw_sgb_sprite_line(
    line_no: usize,
    lcd_control: u8,
    memory: &GameBoyMemory,
    palettes: &PaletteState,
    sgb: &mut SgbState,
)
    requires
        old(sgb).wf(),
        line_no < 144,
        tiles_valid(memory),
    ensures
        final(sgb).wf(),
        final(sgb).same_except_mono(old(sgb)),
        same_mono_outside_line(final(sgb).mono_data@, old(sgb).mono_data@, line_no as int),
        forall|x: int|
            0 <= x < 160 ==> #[trigger] final(sgb).mono_data@[mono_index(line_no as int, x)] == match sgb_sprite_value(
                memory,
                palettes,
                lcd_control,
                old(sgb).mono_data@[mono_index(line_no as int, x)],
                line_no as int,
                x,
            ) {
                Some(value) => value,
                None => old(sgb).mono_data@[mono_index(line_no as int, x)],
            },
{
    let objects = select_objects_for_line(memory, lcd_control, line_no);
    let priority_objects = dmg_priority_objects(&objects);
    proof {
        lemma_priority_objects_reach_line(objects@, line_no as int);
    }
    let mut screen_x: usize = 0;
    while screen_x < 160
        invariant
            screen_x <= 160,
            line_no < 144,
            sgb.wf(),
            sgb.same_except_mono(old(sgb)),
            tiles_valid(memory),
            priority_objects@ == gb_line_objects(memory, lcd_control, line_no as int),
            objects_reach_line(priority_objects@, line_no as int),
            same_mono_outside_line(sgb.mono_data@, old(sgb).mono_data@, line_no as int),
            forall|x: int|
                0 <= x < 160 ==> #[trigger] sgb.mono_data@[mono_index(line_no as int, x)] == if x < screen_x {
                    match sgb_sprite_value(
                        memory,
                        palettes,
                        lcd_control,
                        old(sgb).mono_data@[mono_index(line_no as int, x)],
                        line_no as int,
                        x,
                    ) {
                        Some(value) => value,
                        None => old(sgb).mono_data@[mono_index(line_no as int, x)],
                    }
                } else {
                    old(sgb).mono_data@[mono_index(line_no as int, x)]
                },
        decreases 160 - screen_x,
    {
        let found = first_object_pixel(memory, lcd_control, &priority_objects, line_no, screen_x, false);
        proof {
            lemma_first_object_pixel_valid(memory, lcd_control, priority_objects@, 0, line_no as int, screen_x as int, false);
        }
        match found {
            Some(pixel) => {
                let under = sgb.mono_data[line_no * 160 + screen_x];
                if !(pixel.flags & 0x80 != 0 && under != palettes.sgb_translation_bg[0]) {
                    let palette_offset: usize = if pixel.flags & 0x10 != 0 {
                        4
                    } else {
                        0
                    };
                    write_sgb_mono_pixel(
                        sgb,
                        line_no,
                        screen_x,
                        palettes.sgb_translation_obj[palette_offset + pixel.colour_index as usize],
                    );
                }
            },
            None => {},
        }
        screen_x += 1;
    }
}

impl VideoFrameAssembler {
    /// Renders line `line` of the Super Game Boy monochrome frame: background, window and
    /// objects as LCDC selects them, 0 with the display off. Nothing happens past the last
    /// visible line; the RGB frame is left as it is.
    pub fn write_sgb_line(&mut self, line: u8, memory: &GameBoyMemory, palettes: &PaletteState, sgb: &mut SgbState)
        requires
            old(sgb).wf(),
            tiles_valid(memory),
        ensures
            *final(self) == *old(self),
            final(sgb).wf(),
            final(sgb).same_except_mono(old(sgb)),
            line >= 144 ==> final(sgb).mono_data@ == old(sgb).mono_data@,
            line < 144 ==> same_mono_outside_line(final(sgb).mono_data@, old(sgb).mono_data@, line as int),
            line < 144 ==> forall|x: int|
                0 <= x < 160 ==> #[trigger] final(sgb).mono_data@[mono_index(line as int, x)] == sgb_frame_value(memory, palettes, line as int, x),
    {
        let line_no = line as usize;
        if line_no >= 144 {
            return ;
        }
        let lcd_control = io(memory, 0x40);
        if lcd_control & LCDC_DISPLAY_ENABLE == 0 {
            fill_sgb_mono_line(sgb, line_no, 0);
            assert forall|x: int| 0 <= x < 160 implies #[trigger] sgb.mono_data@[mono_index(line as int, x)] == sgb_frame_value(memory, palettes, line as int, x) by {
                assert(sgb.mono_data@[mono_index(line as int, x)] == 0u32);
            }
            return ;
        }
        let bg_window_enabled = lcd_control & LCDC_BG_ENABLE != 0;
        if bg_window_enabled {
            draw_sgb_background_line(line_no, lcd_control, memory, palettes, sgb);
        } else {
            fill_sgb_mono_line(sgb, line_no, 0);
        }
        let ghost after_bg = sgb.mono_data@;
        assert forall|x: int| 0 <= x < 160 implies #[trigger] after_bg[mono_index(line as int, x)] == if bg_window_enabled {
            palettes.sgb_translation_bg@[gb_bg_index(memory, lcd_control, line_no as int, x) as int] & 0x03
        } else {
            0u32
        } by {
            if !bg_window_enabled {
                assert(after_bg[mono_index(line as int, x)] == 0u32);
            }
        }
        if bg_window_enabled && lcd_control & LCDC_WINDOW_ENABLE != 0 {
            draw_sgb_window_line(line_no, lcd_control, memory, palettes, sgb);
        }
        let ghost after_window = sgb.mono_data@;
        assert forall|x: int| 0 <= x < 160 implies #[trigger] after_window[mono_index(line as int, x)] == sgb_line_bg_value(memory, palettes, lcd_control, line as int, x) by {
            assert(after_bg[mono_index(line as int, x)] == after_bg[mono_index(line as int, x)]);
        }
        if lcd_control & LCDC_OBJ_ENABLE != 0 {
            draw_sgb_sprite_line(line_no, lcd_control, memory, palettes, sgb);
        }
        assert forall|x: int| 0 <= x < 160 implies #[trigger] sgb.mono_data@[mono_index(line as int, x)] == sgb_frame_value(memory, palettes, line as int, x) by {
            assert(after_window[mono_index(line as int, x)] == sgb_line_bg_value(memory, palettes, lcd_control, line as int, x));
        }
    }
}

/// `values[index]`, or 0 past the values.
pub open spec fn value_or_zero(values: Seq<u32>, index: int) -> u32 {
    if 0 <= index < values.len() {
        values[index]
    } else {
        0
    }
}

/// Colour of pixel `(x, line)` of a coloured Super Game Boy frame: its monochrome value looked
/// up in the display palette that the attribute map gives its 8x8 cell.
pub open spec fn sgb_colourised(sgb: &SgbState, line: int, x: int) -> u32 {
    let palette_number = value_or_zero(sgb.character_palettes@, (line / 8) * 20 + x / 8);
    let colour_index = value_or_zero(sgb.mono_data@, line * 160 + x);
    value_or_zero(sgb.palettes@, (palette_number & 0x03) as int * 4 + (colour_index & 0x03) as int)
}

proof fn lemma_shows_outside_line(after: Seq<u8>, before: Seq<u8>, line: int, other: int, x: int, colour: u32)
    requires
        same_outside_line(after, before, line),
        before.len() == GAME_BOY_FRAME_BUFFER_BYTES,
        0 <= other < 144,
        other != line,
        0 <= x < 160,
        shows(before, other, x, colour),
    ensures
        shows(after, other, x, colour),
{
    let o = pixel_offset(other, x);
    assert(after[o] == before[o]);
    assert(after[o + 1] == before[o + 1]);
    assert(after[o + 2] == before[o + 2]);
}

impl VideoFrameAssembler {
    /// Colours the whole RGB frame from the Super Game Boy monochrome frame, cell by cell
    /// through the attribute map and the display palettes.
    pub fn colourise_sgb_frame(&mut self, sgb: &SgbState)
        requires
            old(self).wf(),
        ensures
            final(self).wf(),
            final(self).frame_in_progress == old(self).frame_in_progress,
            forall|line: int, x: int|
                0 <= line < 144 && 0 <= x < 160 ==> #[trigger] shows(final(self).pixels@, line, x, sgb_colourised(sgb, line, x)),
    {
        let mut y: usize = 0;
        while y < 144
            invariant
                y <= 144,
                self.wf(),
                self.frame_in_progress == old(self).frame_in_progress,
                forall|line: int, x: int|
                    0 <= line < y && 0 <= x < 160 ==> #[trigger] shows(self.pixels@, line, x, sgb_colourised(sgb, line, x)),
            decreases 144 - y,
        {
            let mut x: usize = 0;
            while x < 160
                invariant
                    y < 144,
                    x <= 160,
                    self.wf(),
                    self.frame_in_progress == old(self).frame_in_progress,
                    forall|line: int, col: int|
                        0 <= line < y && 0 <= col < 160 ==> #[trigger] shows(self.pixels@, line, col, sgb_colourised(sgb, line, col)),
                    forall|col: int| 0 <= col < x ==> #[trigger] shows(self.pixels@, y as int, col, sgb_colourised(sgb, y as int, col)),
                decreases 160 - x,
            {
                let cell = (y / 8) * 20 + x / 8;
                let palette_number: u32 = if cell < sgb.character_palettes.len() {
                    sgb.character_palettes[cell]
                } else {
                    0
                };
                proof {
                    crate::bits::lemma_small_masks(0, palette_number);
                }
                let palette_offset = (palette_number & 0x03) as usize * 4;
                let pixel = y * 160 + x;
                let colour_index: u32 = if pixel < sgb.mono_data.len() {
                    sgb.mono_data[pixel]
                } else {
                    0
                };
                proof {
                    crate::bits::lemma_small_masks(0, colour_index);
                }
                let entry = palette_offset + (colour_index & 0x03) as usize;
                let colour: u32 = if entry < sgb.palettes.len() {
                    sgb.palettes[entry]
                } else {
                    0
                };
                let ghost before = self.pixels@;
                self.write_pixel(y, x, colour);
                proof {
                    lemma_written_pixel(before, y as int, x as int, colour);
                    assert forall|line: int, col: int| 0 <= line < y && 0 <= col < 160 implies #[trigger] shows(
                        self.pixels@,
                        line,
                        col,
                        sgb_colourised(sgb, line, col),
                    ) by {
                        lemma_shows_outside_line(self.pixels@, before, y as int, line, col, sgb_colourised(sgb, line, col));
                    }
                    assert forall|col: int| 0 <= col < x + 1 implies #[trigger] shows(self.pixels@, y as int, col, sgb_colourised(sgb, y as int, col)) by {
                        if col < x {
                            assert(shows(before, y as int, col, sgb_colourised(sgb, y as int, col)));
                            assert(same_pixel(self.pixels@, before, y as int, col));
                        }
                    }
                }
                x += 1;
            }
            y += 1;
        }
    }

    /// Paints the whole RGB frame black.
    pub fn clear_black(&mut self)
        ensures
            final(self).frame_in_progress == old(self).frame_in_progress,
            final(self).pixels@ == zeros(old(self).pixels@.len(), 0u8),
    {
        let mut i: usize = 0;
        while i < self.pixels.len()
            invariant
                i <= self.pixels@.len(),
                self.pixels@.len() == old(self).pixels@.len(),
                self.frame_in_progress == old(self).frame_in_progress,
                forall|j: int| 0 <= j < i ==> self.pixels@[j] == 0u8,
            decreases self.pixels@.len() - i,
        {
            self.pixels.set(i, 0);
            i += 1;
        }
        assert(self.pixels@ =~= zeros(old(self).pixels@.len(), 0u8));
    }
}

impl VideoFrameAssembler {
    /// The state that `default` gives.
    pub open spec fn is_default(&self) -> bool {
        &&& self.wf()
        &&& self.frame_in_progress
        &&& self.pixels@ == zeros(GAME_BOY_FRAME_BUFFER_BYTES as nat, 0u8)
    }
}

impl Default for VideoFrameAssembler {
    fn default() -> (assembler: Self)
        ensures
            assembler.is_default(),
    {
        VideoFrameAssembler { pixels: zeroed_bytes(GAME_BOY_FRAME_BUFFER_BYTES), frame_in_progress: true }
    }
}

} // verus!
