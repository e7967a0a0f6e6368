use shining_emulator::memory::GameBoyMemory;
use shining_emulator::palettes::PaletteState;
use shining_emulator::sgb::SgbState;
use shining_emulator::video::{
    cgb_bg_has_priority, dmg_priority_objects, object_pixel, select_objects_for_line, sprite_height,
    SelectedObject, VideoFrameAssembler,
    LCDC_BG_ENABLE, LCDC_DISPLAY_ENABLE, LCDC_OBJ_ENABLE, LCDC_OBJ_SIZE, LCDC_TILE_DATA, LCDC_WINDOW_ENABLE,
    LCDC_WINDOW_TILE_MAP,
};

const RED: u32 = 0xffaa_0000;
const GREEN: u32 = 0xff00_aa00;
const BLUE: u32 = 0xff00_00aa;

fn set_object(memory: &mut GameBoyMemory, index: usize, y: u8, x: u8, tile: u8, flags: u8) {
    let offset = index * 4;
    memory.oam[offset] = y;
    memory.oam[offset + 1] = x;
    memory.oam[offset + 2] = tile;
    memory.oam[offset + 3] = flags;
}

fn fill_tile_row(memory: &mut GameBoyMemory, tile: usize, colour_index: u32) {
    let start = tile * 64;
    for pixel in 0..8 {
        memory.tile_set[start + pixel] = colour_index;
    }
}

fn rendered_pixel(assembler: &VideoFrameAssembler, x: usize) -> [u8; 3] {
    let start = x * 3;
    [assembler.pixels[start], assembler.pixels[start + 1], assembler.pixels[start + 2]]
}

#[test]
fn gb_line_renderer_reads_decoded_background_tiles() {
    let mut assembler = VideoFrameAssembler::default();
    let mut memory = GameBoyMemory::default();
    let mut palettes = PaletteState::default();
    memory.io_ports[0x40] = LCDC_DISPLAY_ENABLE | LCDC_BG_ENABLE | LCDC_TILE_DATA;
    memory.io_ports[0x47] = 0xe4;
    memory.vram[0x1800] = 1;
    memory.tile_set[64] = 3;
    palettes.translate_bg(0xe4);

    assembler.write_gb_line(0, &memory, &palettes);

    assert_eq!(&assembler.pixels[0..3], &[0x00, 0x00, 0x00]);
}

#[test]
fn object_selection_keeps_first_ten_y_overlapping_oam_entries() {
    let mut memory = GameBoyMemory::default();
    let lcd_control = LCDC_DISPLAY_ENABLE | LCDC_OBJ_ENABLE;
    for index in 0..11 {
        set_object(&mut memory, index, 16, 8 + index as u8, index as u8, 0);
    }
    memory.oam[1] = 0;

    let objects = select_objects_for_line(&memory, lcd_control, 0);

    assert_eq!(objects.len(), 10);
    assert_eq!(objects[0].index, 0);
    assert_eq!(objects[0].oam_x, 0);
    assert_eq!(objects[9].index, 9);
}

#[test]
fn objects_after_first_ten_are_not_rendered() {
    let mut assembler = VideoFrameAssembler::default();
    let mut memory = GameBoyMemory::default();
    let mut palettes = PaletteState::default();
    memory.io_ports[0x40] = LCDC_DISPLAY_ENABLE | LCDC_OBJ_ENABLE;
    palettes.translated_obj[1] = RED;
    for index in 0..10 {
        set_object(&mut memory, index, 16, 0, 0, 0);
    }
    set_object(&mut memory, 10, 16, 8, 1, 0);
    fill_tile_row(&mut memory, 1, 1);

    assembler.write_gb_line(0, &memory, &palettes);

    assert_ne!(rendered_pixel(&assembler, 0), [0xaa, 0x00, 0x00]);
}

#[test]
fn dmg_objects_prioritize_lower_x_before_oam_order() {
    let mut assembler = VideoFrameAssembler::default();
    let mut memory = GameBoyMemory::default();
    let mut palettes = PaletteState::default();
    memory.io_ports[0x40] = LCDC_DISPLAY_ENABLE | LCDC_OBJ_ENABLE;
    palettes.translated_obj[1] = RED;
    palettes.translated_obj[5] = BLUE;
    set_object(&mut memory, 0, 16, 12, 1, 0);
    set_object(&mut memory, 1, 16, 8, 2, 0x10);
    fill_tile_row(&mut memory, 1, 1);
    fill_tile_row(&mut memory, 2, 1);

    assembler.write_gb_line(0, &memory, &palettes);

    assert_eq!(rendered_pixel(&assembler, 4), [0x00, 0x00, 0xaa]);
}

#[test]
fn cgb_objects_prioritize_oam_order_before_x() {
    let mut assembler = VideoFrameAssembler::default();
    let mut memory = GameBoyMemory::default();
    let mut palettes = PaletteState::default();
    memory.io_ports[0x40] = LCDC_DISPLAY_ENABLE | LCDC_OBJ_ENABLE;
    palettes.cgb_obj[1] = RED;
    palettes.cgb_obj[5] = BLUE;
    set_object(&mut memory, 0, 16, 12, 1, 0);
    set_object(&mut memory, 1, 16, 8, 2, 0x01);
    fill_tile_row(&mut memory, 1, 1);
    fill_tile_row(&mut memory, 2, 1);

    assembler.write_cgb_line(0, &memory, &palettes);

    assert_eq!(rendered_pixel(&assembler, 4), [0xaa, 0x00, 0x00]);
}

#[test]
fn bg_priority_masks_highest_priority_object_without_showing_lower_object() {
    let mut assembler = VideoFrameAssembler::default();
    let mut memory = GameBoyMemory::default();
    let mut palettes = PaletteState::default();
    memory.io_ports[0x40] = LCDC_DISPLAY_ENABLE | LCDC_BG_ENABLE | LCDC_OBJ_ENABLE | LCDC_TILE_DATA;
    memory.vram[0x1800] = 3;
    palettes.translated_bg[1] = GREEN;
    palettes.translated_obj[1] = RED;
    palettes.translated_obj[5] = BLUE;
    fill_tile_row(&mut memory, 3, 1);
    set_object(&mut memory, 0, 16, 8, 1, 0x80);
    set_object(&mut memory, 1, 16, 8, 2, 0x10);
    fill_tile_row(&mut memory, 1, 1);
    fill_tile_row(&mut memory, 2, 1);

    assembler.write_gb_line(0, &memory, &palettes);

    assert_eq!(rendered_pixel(&assembler, 0), [0x00, 0xaa, 0x00]);
}

#[test]
fn cgb_lcdc_bit_zero_does_not_disable_background_pixels() {
    let mut assembler = VideoFrameAssembler::default();
    let mut memory = GameBoyMemory::default();
    let mut palettes = PaletteState::default();
    memory.io_ports[0x40] = LCDC_DISPLAY_ENABLE | LCDC_TILE_DATA;
    memory.vram[0x1800] = 1;
    fill_tile_row(&mut memory, 1, 1);
    palettes.cgb_bg[1] = RED;

    assembler.write_cgb_line(0, &memory, &palettes);

    assert_eq!(rendered_pixel(&assembler, 0), [0xaa, 0x00, 0x00]);
}

#[test]
fn cgb_lcdc_bit_zero_disables_bg_priority_not_bg_pixels() {
    let mut assembler = VideoFrameAssembler::default();
    let mut memory = GameBoyMemory::default();
    let mut palettes = PaletteState::default();
    memory.io_ports[0x40] = LCDC_DISPLAY_ENABLE | LCDC_OBJ_ENABLE | LCDC_TILE_DATA;
    memory.vram[0x1800] = 1;
    memory.vram[0x2000 + 0x1800] = 0x80;
    fill_tile_row(&mut memory, 1, 1);
    fill_tile_row(&mut memory, 2, 1);
    palettes.cgb_bg[1] = GREEN;
    palettes.cgb_obj[1] = RED;
    set_object(&mut memory, 0, 16, 8, 2, 0);

    assembler.write_cgb_line(0, &memory, &palettes);

    assert_eq!(rendered_pixel(&assembler, 0), [0xaa, 0x00, 0x00]);
}

#[test]
fn cgb_lcdc_bit_zero_does_not_disable_window_pixels() {
    let mut assembler = VideoFrameAssembler::default();
    let mut memory = GameBoyMemory::default();
    let mut palettes = PaletteState::default();
    memory.io_ports[0x40] = LCDC_DISPLAY_ENABLE | LCDC_WINDOW_ENABLE | LCDC_WINDOW_TILE_MAP | LCDC_TILE_DATA;
    memory.io_ports[0x4a] = 0;
    memory.io_ports[0x4b] = 7;
    memory.vram[0x1800] = 1;
    memory.vram[0x1c00] = 2;
    fill_tile_row(&mut memory, 1, 1);
    fill_tile_row(&mut memory, 2, 2);
    palettes.cgb_bg[1] = BLUE;
    palettes.cgb_bg[2] = RED;

    assembler.write_cgb_line(0, &memory, &palettes);

    assert_eq!(rendered_pixel(&assembler, 0), [0xaa, 0x00, 0x00]);
}

#[test]
fn dmg_lcdc_bit_zero_disables_window_pixels() {
    let mut assembler = VideoFrameAssembler::default();
    let mut memory = GameBoyMemory::default();
    let mut palettes = PaletteState::default();
    memory.io_ports[0x40] = LCDC_DISPLAY_ENABLE | LCDC_WINDOW_ENABLE | LCDC_WINDOW_TILE_MAP | LCDC_TILE_DATA;
    memory.io_ports[0x4a] = 0;
    memory.io_ports[0x4b] = 7;
    memory.vram[0x1c00] = 1;
    fill_tile_row(&mut memory, 1, 1);
    palettes.translated_bg[1] = RED;

    assembler.write_gb_line(0, &memory, &palettes);

    assert_ne!(rendered_pixel(&assembler, 0), [0xaa, 0x00, 0x00]);
}

#[test]
fn cgb_line_renderer_uses_tile_attributes_and_palettes() {
    let mut assembler = VideoFrameAssembler::default();
    let mut memory = GameBoyMemory::default();
    let mut palettes = PaletteState::default();
    memory.io_ports[0x40] = LCDC_DISPLAY_ENABLE | LCDC_BG_ENABLE | LCDC_TILE_DATA;
    memory.vram[0x1800] = 1;
    memory.vram[0x2000 + 0x1800] = 0x02;
    memory.tile_set[64] = 1;
    palettes.cgb_bg[9] = 0xff11_2233;

    assembler.write_cgb_line(0, &memory, &palettes);

    assert_eq!(&assembler.pixels[0..3], &[0x11, 0x22, 0x33]);
}

#[test]
fn sgb_colourise_maps_mono_tiles_through_character_palettes() {
    let mut assembler = VideoFrameAssembler::default();
    let mut sgb = SgbState::default();
    sgb.mono_data[0] = 2;
    sgb.character_palettes[0] = 1;
    sgb.palettes[6] = 0xff44_5566;

    assembler.colourise_sgb_frame(&sgb);

    assert_eq!(&assembler.pixels[0..3], &[0x44, 0x55, 0x66]);
}

#[test]
fn sgb_colourise_has_visible_default_palette_before_commands() {
    let mut assembler = VideoFrameAssembler::default();
    let sgb = SgbState::default();

    assembler.colourise_sgb_frame(&sgb);

    assert_ne!(&assembler.pixels[0..3], &[0x00, 0x00, 0x00]);
}

#[test]
fn display_off_renders_a_black_line() {
    let mut assembler = VideoFrameAssembler::default();
    let memory = GameBoyMemory::default();
    let palettes = PaletteState::default();
    for byte in assembler.pixels.iter_mut() {
        *byte = 0x55;
    }

    assembler.write_gb_line(3, &memory, &palettes);

    assert!(assembler.pixels[3 * 480..4 * 480].iter().all(|byte| *byte == 0));
    assert_eq!(assembler.pixels[2 * 480], 0x55);
    assert_eq!(assembler.pixels[4 * 480], 0x55);
}

#[test]
fn lines_past_the_screen_and_published_frames_are_left_alone() {
    let mut assembler = VideoFrameAssembler::default();
    let mut memory = GameBoyMemory::default();
    memory.io_ports[0x40] = LCDC_DISPLAY_ENABLE | LCDC_BG_ENABLE;
    let mut palettes = PaletteState::default();
    palettes.translated_bg[0] = RED;

    assembler.write_gb_line(144, &memory, &palettes);
    assert!(assembler.pixels.iter().all(|byte| *byte == 0));

    assembler.frame_in_progress = false;
    assembler.write_gb_line(0, &memory, &palettes);
    assert!(assembler.pixels.iter().all(|byte| *byte == 0));

    assembler.begin_frame();
    assembler.write_gb_line(0, &memory, &palettes);
    assert_eq!(rendered_pixel(&assembler, 0), [0xaa, 0x00, 0x00]);
}

#[test]
fn scroll_registers_shift_the_background() {
    let mut assembler = VideoFrameAssembler::default();
    let mut memory = GameBoyMemory::default();
    let mut palettes = PaletteState::default();
    memory.io_ports[0x40] = LCDC_DISPLAY_ENABLE | LCDC_BG_ENABLE | LCDC_TILE_DATA;
    memory.io_ports[0x43] = 8;
    memory.vram[0x1801] = 1;
    fill_tile_row(&mut memory, 1, 2);
    palettes.translated_bg[2] = GREEN;

    assembler.write_gb_line(0, &memory, &palettes);

    assert_eq!(rendered_pixel(&assembler, 0), [0x00, 0xaa, 0x00]);
    assert_eq!(rendered_pixel(&assembler, 8), [0x00, 0x00, 0x00]);
}

#[test]
fn sgb_line_renderer_writes_translated_mono_values() {
    let assembler_before = VideoFrameAssembler::default();
    let mut assembler = VideoFrameAssembler::default();
    let mut memory = GameBoyMemory::default();
    let mut palettes = PaletteState::default();
    let mut sgb = SgbState::default();
    memory.io_ports[0x40] = LCDC_DISPLAY_ENABLE | LCDC_BG_ENABLE | LCDC_TILE_DATA;
    memory.vram[0x1800] = 1;
    fill_tile_row(&mut memory, 1, 3);
    palettes.translate_bg(0xe4);

    assembler.write_sgb_line(0, &memory, &palettes, &mut sgb);

    assert_eq!(sgb.mono_data[0], 3);
    assert_eq!(sgb.mono_data[8], 0);
    assert_eq!(assembler.pixels, assembler_before.pixels);
}

#[test]
fn clear_black_zeroes_every_pixel() {
    let mut assembler = VideoFrameAssembler::default();
    assembler.pixels[10] = 9;

    assembler.clear_black();

    assert!(assembler.pixels.iter().all(|byte| *byte == 0));
}

#[test]
fn tall_objects_use_sixteen_lines() {
    assert_eq!(sprite_height(LCDC_OBJ_SIZE), 16);
    assert_eq!(sprite_height(0), 8);
}

#[test]
fn dmg_priority_drops_offscreen_objects_and_sorts_by_x_then_index() {
    let mut memory = GameBoyMemory::default();
    set_object(&mut memory, 0, 16, 20, 0, 0);
    set_object(&mut memory, 1, 16, 0, 0, 0);
    set_object(&mut memory, 2, 16, 10, 0, 0);
    set_object(&mut memory, 3, 16, 20, 0, 0);
    set_object(&mut memory, 4, 16, 168, 0, 0);

    let objects = select_objects_for_line(&memory, LCDC_DISPLAY_ENABLE | LCDC_OBJ_ENABLE, 0);
    let priority = dmg_priority_objects(&objects);

    let order: Vec<usize> = priority.iter().map(|object| object.index).collect();
    assert_eq!(order, vec![2, 0, 3]);
}

#[test]
fn cgb_background_priority_needs_lcdc_bit_zero_and_a_coloured_pixel() {
    assert!(cgb_bg_has_priority(LCDC_BG_ENABLE, 1, true, 0));
    assert!(cgb_bg_has_priority(LCDC_BG_ENABLE, 2, false, 0x80));
    assert!(!cgb_bg_has_priority(LCDC_BG_ENABLE, 0, true, 0x80));
    assert!(!cgb_bg_has_priority(0, 1, true, 0x80));
    assert!(!cgb_bg_has_priority(LCDC_BG_ENABLE, 1, false, 0));
}

#[test]
fn x_flipped_object_mirrors_its_row() {
    let mut memory = GameBoyMemory::default();
    memory.tile_set[0..8].copy_from_slice(&[1, 2, 0, 0, 0, 0, 0, 3]);
    let object = SelectedObject { index: 0, screen_x: 10, oam_x: 18, oam_y: 16, tile_no: 0, flags: 0 };
    let flipped = SelectedObject { flags: 0x20, ..object };

    for k in 0..8usize {
        let plain = object_pixel(&memory, 0, object, 0, 10 + 7 - k, false).map(|p| p.colour_index);
        let mirrored = object_pixel(&memory, 0, flipped, 0, 10 + k, false).map(|p| p.colour_index);
        assert_eq!(mirrored, plain);
    }
    assert_eq!(object_pixel(&memory, 0, flipped, 0, 10, false).map(|p| p.colour_index), Some(3));
    assert_eq!(object_pixel(&memory, 0, object, 0, 12, false), None);
}
