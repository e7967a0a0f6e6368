use shining_emulator::constants::GAME_BOY_FRAME_BUFFER_BYTES;
use shining_emulator::frame_buffer::{GameBoyFrameRing, GAME_BOY_FRAME_RING_LEN};
use shining_emulator::video::VideoFrameAssembler;

#[test]
fn published_frames_fill_the_ring_in_order() {
    let mut ring = GameBoyFrameRing::default();
    let mut first = vec![0u8; GAME_BOY_FRAME_BUFFER_BYTES];
    first[0] = 0x11;
    let mut second = vec![0u8; GAME_BOY_FRAME_BUFFER_BYTES];
    second[0] = 0x22;

    assert!(ring.publish_pixels(&first));
    assert!(ring.publish_pixels(&second));

    assert_eq!(ring.latest_written_index, Some(1));
    assert_eq!(ring.next_write_index, 2);
    assert_eq!(ring.frames[0].pixels[0], 0x11);
    assert_eq!(ring.frames[1].pixels[0], 0x22);
    assert_eq!(ring.latest_sequence.0, 2);
}

#[test]
fn publishing_wraps_to_the_ring_start() {
    let mut ring = GameBoyFrameRing::default();
    let pixels = vec![0u8; GAME_BOY_FRAME_BUFFER_BYTES];
    for _ in 0..GAME_BOY_FRAME_RING_LEN {
        assert!(ring.publish_pixels(&pixels));
    }

    assert_eq!(ring.latest_written_index, Some(GAME_BOY_FRAME_RING_LEN - 1));
    assert_eq!(ring.next_write_index, 0);
}

#[test]
fn mismatched_pixels_are_not_published() {
    let mut ring = GameBoyFrameRing::default();
    assert!(!ring.publish_pixels(&[1, 2, 3]));
    assert!(ring.latest_written_frame().is_none());
    assert_eq!(ring.next_write_index, 0);
    assert_eq!(ring.frames[0].sequence().0, 1);
}

#[test]
fn clearing_to_black_forgets_the_latest_frame() {
    let mut ring = GameBoyFrameRing::default();
    let pixels = vec![0xffu8; GAME_BOY_FRAME_BUFFER_BYTES];
    assert!(ring.publish_pixels(&pixels));

    ring.clear_to_black();

    assert!(ring.latest_written_frame().is_none());
    assert_eq!(ring.next_write_index, 0);
    assert_eq!(ring.latest_sequence.0, 0);
    assert!(ring.frames.iter().all(|frame| frame.pixels().iter().all(|pixel| *pixel == 0)));
}

#[test]
fn publishing_marks_frame_complete() {
    let mut assembler = VideoFrameAssembler::default();
    let mut frames = GameBoyFrameRing::default();

    assembler.publish_frame(&mut frames);

    assert!(frames.latest_written_frame().is_some());
    assert!(!assembler.frame_in_progress);
}
