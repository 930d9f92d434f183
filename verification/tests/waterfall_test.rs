use rustiq::messages::Decibels;
use rustiq::ui::waterfall::{
    decibels_to_color, DEFAULT_MAX_LINES, FULL_GRAY, MIDDLE_GRAY, RANGE_EPSILON_MILLIDB,
};
use rustiq::ui::{Waterfall, WaterfallTexture};

/// A frame that sets the range to 0 dB .. 255 dB and carries `counter` as a
/// level that is drawn as the gray value `counter`.
fn counted_frame(counter: u8) -> Vec<Decibels> {
    vec![Decibels(0), Decibels(255_000), Decibels(counter as i32 * 1_000)]
}

#[test]
fn color_is_share_of_range_rounded_down() {
    let lo = Decibels(0);
    let hi = Decibels(10_000);
    assert_eq!(decibels_to_color(Decibels(0), lo, hi), 0);
    assert_eq!(decibels_to_color(Decibels(2_500), lo, hi), 63);
    assert_eq!(decibels_to_color(Decibels(5_000), lo, hi), 127);
    assert_eq!(decibels_to_color(Decibels(9_999), lo, hi), 254);
    assert_eq!(decibels_to_color(Decibels(10_000), lo, hi), 255);
    assert_eq!(decibels_to_color(Decibels(-80_000), Decibels(-100_000), Decibels(-60_000)), 127);
    assert_eq!(decibels_to_color(Decibels(-70_000), Decibels(-100_000), Decibels(-60_000)), 191);
}

#[test]
fn color_outside_range_is_held_at_the_ends() {
    let lo = Decibels(-50_000);
    let hi = Decibels(50_000);
    assert_eq!(decibels_to_color(Decibels(-50_001), lo, hi), 0);
    assert_eq!(decibels_to_color(Decibels(i32::MIN), lo, hi), 0);
    assert_eq!(decibels_to_color(Decibels(50_001), lo, hi), FULL_GRAY);
    assert_eq!(decibels_to_color(Decibels(i32::MAX), lo, hi), 255);
}

#[test]
fn color_of_narrow_range_is_middle_gray() {
    assert_eq!(RANGE_EPSILON_MILLIDB, 10);
    assert_eq!(MIDDLE_GRAY, 127);
    let lo = Decibels(-3_000);
    assert_eq!(decibels_to_color(Decibels(-3_000), lo, Decibels(-3_000)), 127);
    assert_eq!(decibels_to_color(Decibels(-2_995), lo, Decibels(-2_991)), 127);
    assert_eq!(decibels_to_color(Decibels(99), lo, Decibels(-2_991)), 127);
    // A range of just the epsilon is a range.
    assert_eq!(decibels_to_color(Decibels(-2_995), lo, Decibels(-2_990)), 127);
    assert_eq!(decibels_to_color(Decibels(-2_990), lo, Decibels(-2_990)), 255);
    assert_eq!(decibels_to_color(Decibels(-3_000), lo, Decibels(-2_990)), 0);
    // Ends the wrong way round are no range either.
    assert_eq!(decibels_to_color(Decibels(0), Decibels(10), Decibels(-10)), 127);
}

#[test]
fn color_of_widest_range_does_not_overflow() {
    let lo = Decibels(i32::MIN);
    let hi = Decibels(i32::MAX);
    assert_eq!(decibels_to_color(lo, lo, hi), 0);
    assert_eq!(decibels_to_color(hi, lo, hi), 255);
    assert_eq!(decibels_to_color(Decibels(0), lo, hi), 127);
    assert_eq!(decibels_to_color(Decibels(-1), lo, hi), 127);
}

#[test]
fn texture_starts_blank_and_clean() {
    let texture = WaterfallTexture::new();
    assert!(texture.pixels().is_empty());
    assert!(texture.image().is_empty());
    assert_eq!(texture.size(), [0, 0]);
    assert!(!texture.needs_upload());
}

#[test]
fn texture_flag_is_raised_and_cleared() {
    let mut texture = WaterfallTexture::new();
    texture.mark_updated();
    assert!(texture.needs_upload());
    texture.mark_updated();
    assert!(texture.needs_upload());
    texture.mark_uploaded();
    assert!(!texture.needs_upload());
    texture.mark_uploaded();
    assert!(!texture.needs_upload());
    assert_eq!(texture.size(), [0, 0]);
}

#[test]
fn waterfall_starts_blank() {
    let waterfall = Waterfall::new();
    assert_eq!(waterfall.max_lines(), DEFAULT_MAX_LINES);
    assert_eq!(waterfall.max_lines(), 1024);
    assert_eq!(waterfall.min_db(), None);
    assert_eq!(waterfall.max_db(), None);
    assert_eq!(waterfall.texture().size(), [0, 0]);
    assert!(!waterfall.texture().needs_upload());
    assert_eq!(Waterfall::with_max_lines(7).max_lines(), 7);
}

#[test]
fn first_frame_sets_range_and_row() {
    let mut waterfall = Waterfall::new();
    waterfall.insert_spectrum_line(&[Decibels(-40_000), Decibels(-20_000), Decibels(0), Decibels(-30_000)]);
    assert_eq!(waterfall.min_db(), Some(Decibels(-40_000)));
    assert_eq!(waterfall.max_db(), Some(Decibels(0)));
    assert_eq!(waterfall.texture().pixels(), &vec![0, 127, 255, 63]);
    assert_eq!(waterfall.texture().size(), [4, 1]);
    assert!(waterfall.texture().needs_upload());
}

#[test]
fn constant_frame_is_drawn_middle_gray() {
    let mut waterfall = Waterfall::new();
    waterfall.insert_spectrum_line(&[Decibels(-1_000_000); 3]);
    assert_eq!(waterfall.texture().pixels(), &vec![127, 127, 127]);
    assert_eq!(waterfall.min_db(), Some(Decibels(-1_000_000)));
    assert_eq!(waterfall.max_db(), Some(Decibels(-1_000_000)));
}

#[test]
fn empty_frame_changes_nothing() {
    let mut waterfall = Waterfall::with_max_lines(4);
    waterfall.insert_spectrum_line(&[]);
    assert_eq!(waterfall.texture().size(), [0, 0]);
    assert!(!waterfall.texture().needs_upload());
    assert_eq!(waterfall.min_db(), None);

    waterfall.insert_spectrum_line(&[Decibels(1), Decibels(2_001)]);
    waterfall.mark_uploaded();
    waterfall.insert_spectrum_line(&[]);
    assert_eq!(waterfall.texture().pixels(), &vec![0, 255]);
    assert_eq!(waterfall.texture().size(), [2, 1]);
    assert!(!waterfall.texture().needs_upload());
    assert_eq!(waterfall.min_db(), Some(Decibels(1)));
    assert_eq!(waterfall.max_db(), Some(Decibels(2_001)));
}

#[test]
fn range_only_widens() {
    let mut waterfall = Waterfall::new();
    waterfall.insert_spectrum_line(&[Decibels(-10_000), Decibels(10_000)]);
    waterfall.insert_spectrum_line(&[Decibels(-5_000), Decibels(5_000)]);
    assert_eq!(waterfall.min_db(), Some(Decibels(-10_000)));
    assert_eq!(waterfall.max_db(), Some(Decibels(10_000)));
    waterfall.insert_spectrum_line(&[Decibels(-5_000), Decibels(20_000)]);
    assert_eq!(waterfall.min_db(), Some(Decibels(-10_000)));
    assert_eq!(waterfall.max_db(), Some(Decibels(20_000)));
    waterfall.insert_spectrum_line(&[Decibels(-30_000), Decibels(-30_000)]);
    assert_eq!(waterfall.min_db(), Some(Decibels(-30_000)));
    assert_eq!(waterfall.max_db(), Some(Decibels(20_000)));
}

#[test]
fn newest_row_is_first_and_drawn_rows_keep_their_pixels() {
    let mut waterfall = Waterfall::new();
    waterfall.insert_spectrum_line(&[Decibels(0), Decibels(10_000)]);
    assert_eq!(waterfall.texture().pixels(), &vec![0, 255]);
    // The range widens to 0 .. 20 dB: the new row is drawn in it, the old
    // row stays as it was drawn.
    waterfall.insert_spectrum_line(&[Decibels(10_000), Decibels(20_000)]);
    assert_eq!(waterfall.texture().pixels(), &vec![127, 255, 0, 255]);
    assert_eq!(waterfall.texture().size(), [2, 2]);
}

#[test]
fn identical_frames_give_identical_rows() {
    let frame = [Decibels(-72_500), Decibels(-3_000), Decibels(-41_250), Decibels(-90_000)];
    let mut waterfall = Waterfall::new();
    // Some history first, so the range is not that of the frame alone.
    waterfall.insert_spectrum_line(&[Decibels(-100_000), Decibels(0), Decibels(0), Decibels(0)]);
    let n = 6;
    for _ in 0..n {
        waterfall.insert_spectrum_line(&frame);
    }
    let pixels = waterfall.texture().pixels();
    assert_eq!(waterfall.texture().size(), [4, n + 1]);
    let first: Vec<u8> = pixels[0..4].to_vec();
    assert_eq!(first, vec![70, 247, 149, 25]);
    for row in 0..n {
        assert_eq!(&pixels[row * 4..row * 4 + 4], &first[..]);
    }
}

#[test]
fn raster_never_exceeds_max_lines_and_evicts_oldest_first() {
    let max_lines = 5;
    let mut waterfall = Waterfall::with_max_lines(max_lines);
    for counter in 0..12u8 {
        waterfall.insert_spectrum_line(&counted_frame(counter));
        let [width, height] = waterfall.texture().size();
        assert_eq!(width, 3);
        assert_eq!(height, (counter as usize + 1).min(max_lines));
        assert!(height <= max_lines);
        assert_eq!(waterfall.texture().pixels().len(), width * height);
        // Row r holds the counter of the frame that came r frames ago.
        for row in 0..height {
            assert_eq!(
                &waterfall.texture().pixels()[row * 3..row * 3 + 3],
                &[0, 255, counter - row as u8]
            );
        }
    }
    assert_eq!(
        waterfall.texture().pixels(),
        &vec![0, 255, 11, 0, 255, 10, 0, 255, 9, 0, 255, 8, 0, 255, 7]
    );
}

#[test]
fn raster_of_one_line_holds_the_newest_frame_only() {
    let mut waterfall = Waterfall::with_max_lines(1);
    waterfall.insert_spectrum_line(&counted_frame(3));
    waterfall.insert_spectrum_line(&counted_frame(4));
    assert_eq!(waterfall.texture().pixels(), &vec![0, 255, 4]);
    assert_eq!(waterfall.texture().size(), [3, 1]);
}

#[test]
fn raster_of_no_lines_holds_nothing_but_tracks_the_range() {
    let mut waterfall = Waterfall::with_max_lines(0);
    waterfall.insert_spectrum_line(&counted_frame(3));
    assert!(waterfall.texture().pixels().is_empty());
    assert_eq!(waterfall.texture().size(), [3, 0]);
    assert!(waterfall.texture().needs_upload());
    assert_eq!(waterfall.min_db(), Some(Decibels(0)));
    assert_eq!(waterfall.max_db(), Some(Decibels(255_000)));
}

#[test]
fn frame_of_another_width_redeclares_the_size() {
    let mut waterfall = Waterfall::with_max_lines(2);
    waterfall.insert_spectrum_line(&[Decibels(0), Decibels(10_000), Decibels(10_000)]);
    waterfall.insert_spectrum_line(&[Decibels(0), Decibels(10_000), Decibels(0)]);
    assert_eq!(waterfall.texture().size(), [3, 2]);
    // Two bins now: four cells are kept, two rows are declared.
    waterfall.insert_spectrum_line(&[Decibels(10_000), Decibels(0)]);
    assert_eq!(waterfall.texture().pixels(), &vec![255, 0, 0, 255]);
    assert_eq!(waterfall.texture().size(), [2, 2]);
    // Five bins: the row and what fits of the old cells; one whole row.
    let mut wide = Waterfall::with_max_lines(3);
    wide.insert_spectrum_line(&[Decibels(0), Decibels(10_000)]);
    wide.insert_spectrum_line(&[Decibels(0); 5]);
    assert_eq!(wide.texture().pixels(), &vec![0, 0, 0, 0, 0, 0, 255]);
    assert_eq!(wide.texture().size(), [5, 1]);
    assert_eq!(wide.texture().image(), &[0, 0, 0, 0, 0]);
}

#[test]
fn upload_flag_follows_frames_and_acknowledgement() {
    let mut waterfall = Waterfall::new();
    assert!(!waterfall.texture().needs_upload());
    waterfall.insert_spectrum_line(&counted_frame(1));
    assert!(waterfall.texture().needs_upload());
    waterfall.mark_uploaded();
    assert!(!waterfall.texture().needs_upload());
    assert_eq!(waterfall.texture().pixels(), &vec![0, 255, 1]);
    assert_eq!(waterfall.min_db(), Some(Decibels(0)));
    waterfall.insert_spectrum_line(&counted_frame(2));
    assert!(waterfall.texture().needs_upload());
}

#[test]
fn default_raster_fills_to_its_limit() {
    let mut waterfall = Waterfall::new();
    for i in 0..1030 {
        waterfall.insert_spectrum_line(&counted_frame((i % 256) as u8));
    }
    assert_eq!(waterfall.texture().size(), [3, 1024]);
    assert_eq!(waterfall.texture().pixels().len(), 3 * 1024);
    assert_eq!(waterfall.texture().image().len(), 3 * 1024);
    assert_eq!(waterfall.texture().pixels()[2], (1029 % 256) as u8);
    assert_eq!(waterfall.texture().pixels()[3 * 1023 + 2], ((1029 - 1023) % 256) as u8);
}
