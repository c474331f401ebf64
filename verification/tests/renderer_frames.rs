use tilefps::frame::{FrameCore, FIRST_FRAME_NANOS};
use tilefps::tiles::TILE_COUNT;

fn shown_text(core: &FrameCore) -> String {
    let mut text = Vec::new();
    let mut i: usize = 0;
    while core.tiles.glyph_at(i) != 0 {
        text.push(core.tiles.glyph_at(i) as u8);
        i += 1;
    }
    String::from_utf8(text).unwrap()
}

#[test]
fn two_sample_scenario_shows_sixty_six_point_six_seven() {
    // history = [0.01 s, 0.02 s] -> average 0.015 s -> rate 66.67.
    let mut core = FrameCore::new();
    core.prepare_frame(10_000_000);
    let upload = core.prepare_frame(20_000_000);
    assert_eq!(core.tiles.glyph_at(0), 54); // '6'
    assert_eq!(core.tiles.glyph_at(1), 54); // '6'
    assert_eq!(core.tiles.glyph_at(2), 46); // '.'
    assert_eq!(core.tiles.glyph_at(3), 54); // '6'
    assert_eq!(core.tiles.glyph_at(4), 55); // '7'
    assert_eq!(core.tiles.glyph_at(5), 0);
    let shown: f64 = shown_text(&core).parse().unwrap();
    assert!((shown - 1.0 / 0.015).abs() <= 0.005);
    // The whole grid goes up every frame, at the fixed 16-byte stride.
    assert_eq!(upload.len(), 16 * TILE_COUNT);
    assert_eq!(&upload[0..4], &[54, 0, 0, 0]);
}

#[test]
fn seed_frame_shows_one_fps() {
    let mut core = FrameCore::new();
    core.prepare_frame(FIRST_FRAME_NANOS);
    assert_eq!(shown_text(&core), "1.00");
}

#[test]
fn shorter_text_leaves_no_stale_glyphs() {
    let mut core = FrameCore::new();
    // First frame: 0.0001 s -> "10000.00" (8 glyphs).
    core.prepare_frame(100_000);
    assert_eq!(shown_text(&core), "10000.00");
    // Keep recording 1 s frames until the long text is gone; the frame
    // algorithm clears the grid fully before encoding.
    core.prepare_frame(1_000_000_000);
    let text = shown_text(&core);
    assert!(text.len() < 8);
    for i in text.len()..TILE_COUNT {
        assert_eq!(core.tiles.glyph_at(i), 0);
    }
}

#[test]
fn upload_always_covers_the_whole_grid() {
    let mut core = FrameCore::new();
    for i in 1..=120u64 {
        let upload = core.prepare_frame(i * 1_000);
        assert_eq!(upload.len(), 16384);
    }
    assert_eq!(core.history.len(), 100);
}
