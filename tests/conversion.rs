use ascii_render::{
    fits_in_memory, image_to_ascii, nonempty_target, plan_dimensions, process_image, quantize,
    render, Dimensions, LumaImage, Ramp, TerminalSize,
};

fn grid(width: u32, height: u32, pixels: Vec<u8>) -> LumaImage {
    LumaImage::from_pixels(width, height, pixels).expect("buffer matches size")
}

fn lines(text: &str) -> Vec<&str> {
    text.split_terminator('\n').collect()
}

#[test]
fn plan_doubles_width_at_full_scale() {
    let d = plan_dimensions(2, 2, 100, TerminalSize::fallback());
    assert_eq!(d, Dimensions { width: 4, height: 2 });
}

#[test]
fn plan_rounds_halves_up() {
    // 3 * 0.5 * 2 = 3, 3 * 0.5 = 1.5 -> 2
    let d = plan_dimensions(3, 3, 50, TerminalSize::fallback());
    assert_eq!(d, Dimensions { width: 3, height: 2 });
    // 5 * 0.1 = 0.5 -> 1, 5 * 0.1 * 2 = 1
    let d = plan_dimensions(5, 5, 10, TerminalSize::fallback());
    assert_eq!(d, Dimensions { width: 1, height: 1 });
    // 7 * 0.33 * 2 = 4.62 -> 5, 7 * 0.33 = 2.31 -> 2
    let d = plan_dimensions(7, 7, 33, TerminalSize::fallback());
    assert_eq!(d, Dimensions { width: 5, height: 2 });
}

#[test]
fn plan_may_reach_zero_and_target_is_raised_to_one() {
    let d = plan_dimensions(1, 1, 1, TerminalSize::fallback());
    assert_eq!(d, Dimensions { width: 0, height: 0 });
    assert_eq!(nonempty_target(d), Dimensions { width: 1, height: 1 });
    let kept = nonempty_target(Dimensions { width: 6, height: 3 });
    assert_eq!(kept, Dimensions { width: 6, height: 3 });
}

#[test]
fn plan_saturates_at_largest_u32() {
    let d = plan_dimensions(u32::MAX, u32::MAX, u32::MAX, TerminalSize::fallback());
    assert_eq!(d, Dimensions { width: u32::MAX, height: u32::MAX });
}

#[test]
fn plan_ignores_terminal_and_repeats() {
    let a = plan_dimensions(640, 480, 25, TerminalSize::fallback());
    let b = plan_dimensions(640, 480, 25, TerminalSize { width: 300, height: 10 });
    let c = plan_dimensions(640, 480, 25, TerminalSize::fallback());
    assert_eq!(a, Dimensions { width: 320, height: 120 });
    assert_eq!(a, b);
    assert_eq!(a, c);
}

#[test]
fn fallback_terminal_is_80_by_24() {
    assert_eq!(TerminalSize::fallback(), TerminalSize { width: 80, height: 24 });
}

#[test]
fn quantize_ends_of_every_ramp_length() {
    for n in 2usize..=256 {
        assert_eq!(quantize(0, n), 0);
        assert_eq!(quantize(255, n), n - 1);
        for v in 0u8..=255 {
            assert!(quantize(v, n) < n);
        }
    }
}

#[test]
fn quantize_exact_bands() {
    // ten glyphs: bands of 28
    assert_eq!(quantize(27, 10), 0);
    assert_eq!(quantize(28, 10), 1);
    assert_eq!(quantize(85, 10), 3);
    assert_eq!(quantize(170, 10), 6);
    assert_eq!(quantize(255, 10), 9);
    // seventy glyphs: bands of 3, clamped at the end
    assert_eq!(quantize(3, 70), 1);
    assert_eq!(quantize(210, 70), 69);
    assert_eq!(quantize(255, 70), 69);
    // two glyphs: one band of 255
    assert_eq!(quantize(254, 2), 0);
    assert_eq!(quantize(255, 2), 1);
}

#[test]
fn ramp_of_one_glyph_is_rejected() {
    assert!(Ramp::new(vec!['#']).is_none());
    assert!(Ramp::new(vec![]).is_none());
    assert!(Ramp::new(vec!['x'; 257]).is_none());
    let two = Ramp::new(vec!['#', ' ']).expect("two glyphs suffice");
    assert_eq!(two.len(), 2);
    assert_eq!(two.glyph_for(0), '#');
    assert_eq!(two.glyph_for(255), ' ');
    assert_eq!(Ramp::new(vec!['x'; 256]).expect("256 glyphs suffice").len(), 256);
}

#[test]
fn presets_have_their_lengths_and_ends() {
    let coarse = Ramp::preset("set1");
    assert_eq!(coarse.len(), 10);
    assert_eq!(coarse.glyph_for(0), '@');
    assert_eq!(coarse.glyph_for(255), ' ');
    let block = Ramp::preset("set2");
    assert_eq!(block.len(), 7);
    assert_eq!(block.glyph_for(0), '\u{2588}');
    assert_eq!(block.glyph_for(128), '\u{2591}');
    assert_eq!(block.glyph_for(255), ' ');
    let fine = Ramp::preset("default");
    assert_eq!(fine.len(), 70);
    assert_eq!(fine.glyph_for(0), '$');
    assert_eq!(fine.glyph_for(3), '@');
    assert_eq!(fine.glyph_for(255), ' ');
}

#[test]
fn unknown_selector_renders_as_default() {
    let img = grid(4, 2, vec![0, 40, 80, 120, 160, 200, 240, 255]);
    let expected = image_to_ascii(&img, "default", false);
    assert_eq!(image_to_ascii(&img, "no-such-set", false), expected);
    assert_eq!(image_to_ascii(&img, "SET1", false), expected);
    assert_eq!(image_to_ascii(&img, "", false), expected);
    assert_ne!(image_to_ascii(&img, "set1", false), expected);
}

#[test]
fn inverting_twice_restores_the_ramp() {
    let img = grid(3, 3, vec![0, 30, 60, 90, 120, 150, 180, 210, 255]);
    for name in ["set1", "set2", "default"] {
        let ramp = Ramp::preset(name);
        let back = ramp.inverted().inverted();
        assert_eq!(render(&img, &back), render(&img, &ramp));
        assert_ne!(render(&img, &ramp.inverted()), render(&img, &ramp));
    }
}

#[test]
fn render_exact_coarse_row() {
    let img = grid(4, 1, vec![0, 85, 170, 255]);
    assert_eq!(image_to_ascii(&img, "set1", false), "@*- \n");
    assert_eq!(image_to_ascii(&img, "set1", true), " -*@\n");
}

#[test]
fn render_grid_shape() {
    let img = grid(5, 3, (0u8..15).map(|v| v * 17).collect());
    let text = image_to_ascii(&img, "set2", false);
    assert!(text.ends_with('\n'));
    let rows = lines(&text);
    assert_eq!(rows.len(), 3);
    for row in &rows {
        assert_eq!(row.chars().count(), 5);
    }
    let glyphs: usize = rows.iter().map(|r| r.chars().count()).sum();
    assert_eq!(glyphs, 15);
}

#[test]
fn render_empty_grid_is_empty() {
    let img = grid(0, 0, vec![]);
    assert_eq!(image_to_ascii(&img, "set1", false), "");
}

#[test]
fn mismatched_buffer_is_refused() {
    assert!(LumaImage::from_pixels(2, 2, vec![0, 1, 2]).is_none());
    assert!(LumaImage::from_pixels(2, 2, vec![0, 1, 2, 3]).is_some());
}

#[test]
fn two_by_two_scenario_resizes_to_four_by_two() {
    let source = grid(2, 2, vec![0, 85, 170, 255]);
    assert!(fits_in_memory(2, 2, 100));
    let text = process_image(&source, 100, "set1", false, TerminalSize::fallback());
    let rows = lines(&text);
    assert_eq!(rows.len(), 2);
    let coarse: Vec<char> = "@%#*+=-:. ".chars().collect();
    for row in &rows {
        assert_eq!(row.chars().count(), 4);
        assert!(row.chars().all(|c| coarse.contains(&c)));
    }

    // the same resampling, done directly, quantized by the band law
    let raw = image::GrayImage::from_raw(2, 2, vec![0, 85, 170, 255]).unwrap();
    let resized = image::imageops::resize(&raw, 4, 2, image::imageops::FilterType::Triangle);
    let mut expected = String::new();
    for y in 0..2 {
        for x in 0..4 {
            let v = resized.get_pixel(x, y)[0] as usize;
            expected.push(coarse[(v / 28).min(9)]);
        }
        expected.push('\n');
    }
    assert_eq!(text, expected);
}

#[test]
fn tiny_scale_still_renders_one_glyph() {
    let source = grid(1, 1, vec![255]);
    let text = process_image(&source, 1, "set1", false, TerminalSize::fallback());
    assert_eq!(text, " \n");
}

#[test]
fn oversized_conversion_does_not_fit() {
    assert!(fits_in_memory(640, 480, 100));
    assert!(!fits_in_memory(u32::MAX, u32::MAX, 100));
}
