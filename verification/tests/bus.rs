use shining_emulator::audio::{envelope_dac_enabled, io, GameBoyAudioChannel};
use shining_emulator::bus::{audio_status_register_value, remap_555_8888, valid_hdma_source};
use shining_emulator::palettes::{shade_of, shade_to_colour, PaletteState};

#[test]
fn cgb_colours_scale_each_channel() {
    assert_eq!(remap_555_8888(0x00, 0x00), 0xff00_0000);
    assert_eq!(remap_555_8888(0x1f, 0x00), 0xffff_0000);
    assert_eq!(remap_555_8888(0xe0, 0x03), 0xff00_ff00);
    assert_eq!(remap_555_8888(0x00, 0x7c), 0xff00_00ff);
    assert_eq!(remap_555_8888(0xff, 0x7f), 0xffff_ffff);
    assert_eq!(remap_555_8888(0x10, 0x00), 0xff83_0000);
}

#[test]
fn hdma_sources_exclude_vram_and_the_top_of_memory() {
    assert!(valid_hdma_source(0x0000));
    assert!(!valid_hdma_source(0x8000));
    assert!(!valid_hdma_source(0x9fff));
    assert!(valid_hdma_source(0xa000));
    assert!(valid_hdma_source(0xdfff));
    assert!(!valid_hdma_source(0xe000));
}

#[test]
fn sound_status_reads_enable_bit_unused_bits_and_channels() {
    let mut ports = vec![0u8; 0x80];
    ports[0x26] = 0x80;
    assert_eq!(audio_status_register_value(0x05, &ports), 0xf5);
    ports[0x26] = 0x7f;
    assert_eq!(audio_status_register_value(0x05, &ports), 0x75);
    assert_eq!(audio_status_register_value(0x0f, &[]), 0x7f);
}

#[test]
fn audio_channels_and_registers() {
    assert_eq!(GameBoyAudioChannel::Pulse1.index(), 0);
    assert_eq!(GameBoyAudioChannel::Wave.index(), 2);
    assert_eq!(GameBoyAudioChannel::Pulse2.status_bit(), 0x02);
    assert_eq!(GameBoyAudioChannel::Noise.status_bit(), 0x08);
    assert!(envelope_dac_enabled(0x08));
    assert!(envelope_dac_enabled(0xf0));
    assert!(!envelope_dac_enabled(0x07));
    assert_eq!(io(&[1, 2, 3], 1), 2);
    assert_eq!(io(&[1, 2, 3], 5), 0);
}

#[test]
fn dmg_palettes_translate_to_greyscale() {
    assert_eq!(shade_of(0xe4, 0), 0);
    assert_eq!(shade_of(0xe4, 1), 1);
    assert_eq!(shade_of(0xe4, 3), 3);
    assert_eq!(shade_of(0x1b, 0), 3);
    assert_eq!(shade_to_colour(1), 0xffaa_aaaa);

    let mut palettes = PaletteState::default();
    palettes.translate_bg(0xe4);
    assert_eq!(palettes.translated_bg, [0xffff_ffff, 0xffaa_aaaa, 0xff55_5555, 0xff00_0000]);
    assert_eq!(palettes.sgb_translation_bg, [0, 1, 2, 3]);

    palettes.translate_obj2(0x1b);
    assert_eq!(palettes.sgb_translation_obj, [0, 0, 0, 0, 3, 2, 1, 0]);
    assert_eq!(palettes.translated_obj[4], 0xff00_0000);
    palettes.translate_obj1(0xff);
    assert_eq!(palettes.sgb_translation_obj, [3, 3, 3, 3, 3, 2, 1, 0]);
}
