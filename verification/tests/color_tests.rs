use hyperterm_video::ansi::{floyd_steinberg_dither, AnsiRenderer, RgbColor};
use hyperterm_video::config::ColorMode;

fn cube_by_float(c: RgbColor) -> u8 {
    let r = (c.0 as f32 / 255.0 * 5.0) as u8;
    let g = (c.1 as f32 / 255.0 * 5.0) as u8;
    let b = (c.2 as f32 / 255.0 * 5.0) as u8;
    16 + 36 * r + 6 * g + b
}

#[test]
fn grayscale_uses_luma_weights() {
    assert_eq!(RgbColor(255, 255, 255).to_grayscale(), 255);
    assert_eq!(RgbColor(255, 0, 0).to_grayscale(), 76);
    assert_eq!(RgbColor(0, 255, 0).to_grayscale(), 149);
    assert_eq!(RgbColor(0, 0, 255).to_grayscale(), 29);
    assert_eq!(RgbColor(0, 0, 0).to_grayscale(), 0);
}

#[test]
fn ansi16_splits_at_128() {
    assert_eq!(RgbColor(127, 127, 127).to_ansi16(), 0);
    assert_eq!(RgbColor(128, 128, 128).to_ansi16(), 7);
    assert_eq!(RgbColor(255, 0, 0).to_ansi16(), 0);
    assert_eq!(RgbColor(200, 255, 100).to_ansi16(), 7);
}

#[test]
fn ansi256_cube_matches_float_quantization() {
    for r in (0..=255u32).step_by(3) {
        for g in (0..=255u32).step_by(17) {
            for b in [0u32, 50, 51, 101, 102, 152, 153, 203, 204, 254, 255] {
                let c = RgbColor(r as u8, g as u8, b as u8);
                if c.0 == c.1 && c.1 == c.2 {
                    continue;
                }
                assert_eq!(c.to_ansi256(), cube_by_float(c), "{:?}", c);
            }
        }
    }
}

#[test]
fn ansi256_cube_edges() {
    assert_eq!(RgbColor(255, 0, 0).to_ansi256(), 196);
    assert_eq!(RgbColor(0, 255, 0).to_ansi256(), 46);
    assert_eq!(RgbColor(0, 0, 255).to_ansi256(), 21);
    assert_eq!(RgbColor(50, 51, 0).to_ansi256(), 22);
}

#[test]
fn ansi256_dark_grays() {
    assert_eq!(RgbColor(0, 0, 0).to_ansi256(), 16);
    assert_eq!(RgbColor(47, 47, 47).to_ansi256(), 16);
    assert_eq!(RgbColor(48, 48, 48).to_ansi256(), 232);
    assert_eq!(RgbColor(58, 58, 58).to_ansi256(), 233);
    assert_eq!(RgbColor(114, 114, 114).to_ansi256(), 238);
}

#[test]
fn foreground_sequences() {
    let c = RgbColor(1, 22, 255);
    assert_eq!(AnsiRenderer::new(ColorMode::Truecolor, 80, 30).set_color(c), "\x1b[38;2;1;22;255m");
    assert_eq!(AnsiRenderer::new(ColorMode::ANSI256, 80, 30).set_color(RgbColor(255, 0, 0)), "\x1b[38;5;196m");
    assert_eq!(AnsiRenderer::new(ColorMode::ANSI256, 80, 30).set_color(RgbColor(0, 0, 0)), "\x1b[38;5;16m");
    assert_eq!(AnsiRenderer::new(ColorMode::ANSI16, 80, 30).set_color(RgbColor(255, 255, 255)), "\x1b[37m");
    assert_eq!(AnsiRenderer::new(ColorMode::ANSI16, 80, 30).set_color(RgbColor(0, 0, 0)), "\x1b[30m");
    assert_eq!(AnsiRenderer::new(ColorMode::Monochrome, 80, 30).set_color(c), "");
}

#[test]
fn background_sequences() {
    let c = RgbColor(9, 0, 100);
    assert_eq!(AnsiRenderer::new(ColorMode::Truecolor, 1, 1).set_bg_color(c), "\x1b[48;2;9;0;100m");
    assert_eq!(AnsiRenderer::new(ColorMode::ANSI256, 1, 1).set_bg_color(RgbColor(0, 255, 0)), "\x1b[48;5;46m");
    assert_eq!(AnsiRenderer::new(ColorMode::ANSI16, 1, 1).set_bg_color(RgbColor(255, 255, 255)), "\x1b[47m");
    assert_eq!(AnsiRenderer::new(ColorMode::ANSI16, 1, 1).set_bg_color(RgbColor(10, 10, 10)), "\x1b[40m");
    assert_eq!(AnsiRenderer::new(ColorMode::Monochrome, 1, 1).set_bg_color(c), "");
}

#[test]
fn reset_sequence() {
    assert_eq!(AnsiRenderer::reset(), "\x1b[0m");
}

fn dither_by_hand(image: &mut [u8], width: u32, height: u32, max_value: u8) {
    let width = width as usize;
    let height = height as usize;
    for y in 0..height {
        for x in 0..width {
            let idx = y * width + x;
            let old_value = image[idx];
            let new_value = if old_value < max_value / 2 { 0 } else { max_value };
            let error = old_value as i16 - new_value as i16;
            image[idx] = new_value;
            if x + 1 < width {
                let i = y * width + x + 1;
                image[i] = (image[i] as i16 + (error * 7) / 16).clamp(0, 255) as u8;
            }
            if y + 1 < height {
                if x > 0 {
                    let i = (y + 1) * width + x - 1;
                    image[i] = (image[i] as i16 + (error * 3) / 16).clamp(0, 255) as u8;
                }
                let i = (y + 1) * width + x;
                image[i] = (image[i] as i16 + (error * 5) / 16).clamp(0, 255) as u8;
                if x + 1 < width {
                    let i = (y + 1) * width + x + 1;
                    image[i] = (image[i] as i16 + error / 16).clamp(0, 255) as u8;
                }
            }
        }
    }
}

fn test_image(len: usize, seed: u32) -> Vec<u8> {
    let mut v = Vec::with_capacity(len);
    let mut s = seed;
    for _ in 0..len {
        s = s.wrapping_mul(1103515245).wrapping_add(12345);
        v.push((s >> 16) as u8);
    }
    v
}

#[test]
fn dither_matches_error_diffusion() {
    for (w, h, m, seed) in [(5u32, 4u32, 255u8, 1u32), (1, 6, 255, 2), (7, 1, 128, 3), (8, 8, 1, 4), (9, 5, 200, 5)] {
        let mut a = test_image((w * h) as usize + 3, seed);
        let mut b = a.clone();
        floyd_steinberg_dither(&mut a, w, h, m);
        dither_by_hand(&mut b, w, h, m);
        assert_eq!(a, b, "{}x{} max {}", w, h, m);
    }
}

#[test]
fn dither_leaves_two_levels_and_the_tail() {
    let (w, h) = (6u32, 5u32);
    let orig = test_image(34, 77);
    let mut img = orig.clone();
    floyd_steinberg_dither(&mut img, w, h, 255);
    for i in 0..30 {
        assert!(img[i] == 0 || img[i] == 255);
    }
    assert_eq!(&img[30..], &orig[30..]);
}

#[test]
fn dither_negative_error_rounds_toward_zero() {
    // 200 quantizes to 255 (error -55): the right neighbour gets -55 * 7 / 16 = -24.
    let mut img = vec![200u8, 100];
    floyd_steinberg_dither(&mut img, 2, 1, 255);
    assert_eq!(img, vec![255, 0]);
    let mut img2 = vec![200u8, 160];
    floyd_steinberg_dither(&mut img2, 2, 1, 255);
    // 160 - 24 = 136 >= 127 -> 255
    assert_eq!(img2, vec![255, 255]);
    let mut img3 = vec![200u8, 150];
    floyd_steinberg_dither(&mut img3, 2, 1, 255);
    // 150 - 24 = 126 < 127 -> 0
    assert_eq!(img3, vec![255, 0]);
}

#[test]
fn dither_empty_image() {
    let mut img: Vec<u8> = vec![];
    floyd_steinberg_dither(&mut img, 0, 0, 255);
    assert!(img.is_empty());
}

#[test]
fn dithering_twice_changes_nothing() {
    for max in [0u8, 1, 2, 200, 255] {
        let mut img: Vec<u8> = (0..35u32).map(|i| ((i * 37 + 11) % 256) as u8).collect();
        floyd_steinberg_dither(&mut img, 6, 5, max);
        let once = img.clone();
        floyd_steinberg_dither(&mut img, 6, 5, max);
        assert_eq!(img, once, "max {}", max);
    }
}
