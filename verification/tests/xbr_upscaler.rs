use shining_emulator::xbr_upscaler::{
    alpha_blend_128, alpha_blend_192, alpha_blend_224, alpha_blend_32, alpha_blend_64, equal, pixel_diff,
    rgb_to_yuv, sample, upscale,
};

#[test]
fn solid_colour_upscales_to_the_same_colour() {
    for scale in 2..=4 {
        let input = vec![0x0012_3456; 4];
        let mut output = vec![0; input.len() * scale * scale];

        assert!(upscale(&input, 2, 2, scale, &mut output));

        assert!(output.iter().all(|pixel| *pixel == 0x0012_3456));
    }
}

#[test]
fn invalid_scale_is_rejected() {
    let input = vec![0; 4];
    let mut output = vec![0; 4];

    assert!(!upscale(&input, 2, 2, 1, &mut output));
}

#[test]
fn rgb_to_yuv_matches_the_legacy_table_formula_for_known_colours() {
    assert_eq!(rgb_to_yuv(0x0000_0000), 0x0000_8080);
    assert_eq!(rgb_to_yuv(0x00ff_ffff), 0x00ff_8080);
    assert_eq!(rgb_to_yuv(0x00ff_0000), 0x004c_55ff);
}

#[test]
fn buffers_of_the_wrong_length_are_rejected_untouched() {
    let input = vec![7; 3];
    let mut output = vec![1; 16];
    assert!(!upscale(&input, 2, 2, 2, &mut output));
    assert!(output.iter().all(|pixel| *pixel == 1));

    let input = vec![7; 4];
    let mut output = vec![1; 15];
    assert!(!upscale(&input, 2, 2, 2, &mut output));
    assert!(output.iter().all(|pixel| *pixel == 1));

    let mut output = vec![1; 4 * 25];
    assert!(!upscale(&input, 2, 2, 5, &mut output));
}

#[test]
fn empty_images_upscale_to_empty_images() {
    let input: Vec<u32> = Vec::new();
    let mut output: Vec<u32> = Vec::new();
    assert!(upscale(&input, 0, 3, 2, &mut output));
}

#[test]
fn lone_pixel_keeps_its_colour_in_the_block_centre() {
    let mut input = vec![0x0000_0000; 25];
    input[12] = 0x00ff_ffff;
    let mut output = vec![0; 25 * 9];

    assert!(upscale(&input, 5, 5, 3, &mut output));

    let row = 2 * 3 + 1;
    let col = 2 * 3 + 1;
    assert_eq!(output[row * 15 + col], 0x00ff_ffff);
    assert_eq!(output[0], 0);
}

#[test]
fn samples_clamp_to_the_image_edges() {
    let input: Vec<u32> = (0..6).collect();
    assert_eq!(sample(&input, 3, 2, 0, 0, -2, -2), 0);
    assert_eq!(sample(&input, 3, 2, 2, 1, 2, 2), 5);
    assert_eq!(sample(&input, 3, 2, 1, 0, 1, 1), 5);
    assert_eq!(sample(&input, 3, 2, 1, 1, -1, -1), 0);
}

#[test]
fn colour_distance_counts_alpha_and_yuv_differences() {
    assert_eq!(pixel_diff(0x0012_3456, 0x0012_3456), 0);
    assert_eq!(pixel_diff(0x0000_0000, 0x00ff_ffff), 255);
    assert_eq!(pixel_diff(0xff00_0000, 0x0000_0000), 255);
    assert!(equal(0x0000_0000, 0x0010_1010));
    assert!(!equal(0x0000_0000, 0x00ff_ffff));
}

#[test]
fn blends_move_each_byte_toward_the_target() {
    assert_eq!(alpha_blend_128(0x0000_0000, 0x00ff_ffff), 0x007f_7f7f);
    assert_eq!(alpha_blend_64(0x0000_0000, 0x0080_8080), 0x0020_2020);
    assert_eq!(alpha_blend_32(0x0000_0000, 0x0080_8080), 0x0010_1010);
    assert_eq!(alpha_blend_192(0x0000_0000, 0x0080_8080), 0x0060_6060);
    assert_eq!(alpha_blend_224(0x0000_0000, 0x0080_8080), 0x0070_7070);
    assert_eq!(alpha_blend_128(0x1234_5678, 0x1234_5678), 0x1234_5678);
}
