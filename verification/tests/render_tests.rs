use hyperterm_video::braille::{AsciiRenderer, BlockRenderer, BrailleRenderer};
use hyperterm_video::config::{ColorMode, RenderMode};
use hyperterm_video::decoder::{Frame, FrameFormat};
use hyperterm_video::renderer::Renderer;
use hyperterm_video::scaler::{ScaledFrame, Scaler};

fn braille_by_hand(data: &[u8], w: usize, h: usize) -> String {
    let mut out = String::new();
    for y in (0..h).step_by(4) {
        for x in (0..w).step_by(2) {
            let idx = [
                y * w + x,
                y * w + x + 1,
                (y + 1) * w + x,
                (y + 1) * w + x + 1,
                (y + 2) * w + x,
                (y + 2) * w + x + 1,
                (y + 3) * w + x,
                (y + 3) * w + x + 1,
            ];
            let mut p: u32 = 0;
            for (i, &k) in idx.iter().enumerate() {
                if k < data.len() && data[k] > 128 {
                    p |= 1 << i;
                }
            }
            out.push(char::from_u32(0x2800 + p).unwrap());
        }
        out.push('\n');
    }
    out
}

#[test]
fn braille_full_and_empty_cells() {
    let r = BrailleRenderer::new(2, 4);
    assert_eq!(r.render(&[255; 8]), "\u{28ff}\n");
    assert_eq!(r.render(&[0; 8]), "\u{2800}\n");
    assert_eq!(r.render(&[129, 0, 0, 0, 0, 0, 0, 0]), "\u{2801}\n");
    assert_eq!(r.render(&[128, 0, 0, 0, 0, 0, 0, 200]), "\u{2880}\n");
}

#[test]
fn braille_matches_dot_layout() {
    for (w, h) in [(4usize, 8usize), (5, 6), (3, 9), (1, 1), (6, 4)] {
        let data: Vec<u8> = (0..w * h).map(|i| ((i * 73 + 11) % 256) as u8).collect();
        let r = BrailleRenderer::new(w as u32, h as u32);
        assert_eq!(r.render(&data), braille_by_hand(&data, w, h), "{}x{}", w, h);
    }
}

#[test]
fn braille_short_frame_counts_missing_pixels_dark() {
    let r = BrailleRenderer::new(2, 8);
    assert_eq!(r.render(&[255, 255]), "\u{2803}\n\u{2800}\n");
}

#[test]
fn braille_zero_width_gives_empty_lines() {
    let r = BrailleRenderer::new(0, 9);
    assert_eq!(r.render(&[]), "\n\n\n");
}

#[test]
fn block_render_levels() {
    let r = BlockRenderer::new(3, 2);
    assert_eq!(r.render(&[0, 128, 255, 30]), " \u{2584}\u{2588}\n\u{2581}\n");
    assert_eq!(r.render(&[]), "");
    let all: Vec<u8> = (0..=255).collect();
    let out = BlockRenderer::new(256, 1).render(&all);
    let chars: Vec<char> = out.chars().collect();
    assert_eq!(chars.len(), 257);
    assert_eq!(chars[28], ' ');
    assert_eq!(chars[29], '\u{2581}');
    assert_eq!(chars[255], '\u{2588}');
    assert_eq!(chars[256], '\n');
}

#[test]
fn ascii_render_ramp() {
    let r = AsciiRenderer::new(2, 2);
    assert_eq!(r.render(&[0, 255, 100]), " @\n-\n");
    let all: Vec<u8> = (0..=255).collect();
    let out = AsciiRenderer::new(256, 1).render(&all);
    let ramp: Vec<char> = "  .:-=+*#%@".chars().collect();
    for (b, c) in out.chars().take(256).enumerate() {
        assert_eq!(c, ramp[(b * 11 / 256).min(10)]);
    }
}

#[test]
fn line_count_law() {
    let data = vec![7u8; 10];
    let out = AsciiRenderer::new(4, 3).render(&data);
    assert_eq!(out.chars().count(), 10 + 3);
    assert_eq!(out.matches('\n').count(), 3);
}

#[test]
fn renderer_dispatches_on_mode() {
    let frame = ScaledFrame { data: vec![255; 8], width: 2, height: 4, timestamp_bits: 0 };
    assert_eq!(Renderer::new(RenderMode::Braille, ColorMode::Truecolor, 2, 4).render_frame(&frame), "\u{28ff}\n");
    assert_eq!(
        Renderer::new(RenderMode::Block, ColorMode::Truecolor, 2, 4).render_frame(&frame),
        "\u{2588}\u{2588}\n\u{2588}\u{2588}\n\u{2588}\u{2588}\n\u{2588}\u{2588}\n"
    );
    assert_eq!(Renderer::new(RenderMode::ASCII, ColorMode::Monochrome, 4, 2).render_frame(&frame), "@@@@\n@@@@\n");
}

#[test]
fn nearest_scaling_picks_source_pixels() {
    let s = Scaler::new(2, 1);
    let data: Vec<u8> = (1..=8).collect();
    assert_eq!(s.simple_scale_nearest(&data, 4, 2, 2, 1), vec![1, 3]);
    assert_eq!(s.simple_scale_nearest(&data, 4, 2, 4, 2), data);
    assert_eq!(s.simple_scale_nearest(&data, 4, 2, 8, 4), vec![
        1, 1, 2, 2, 3, 3, 4, 4, 1, 1, 2, 2, 3, 3, 4, 4, 5, 5, 6, 6, 7, 7, 8, 8, 5, 5, 6, 6, 7, 7, 8, 8,
    ]);
    assert_eq!(s.simple_scale_nearest(&[], 0, 0, 3, 2), vec![0; 6]);
    assert_eq!(s.simple_scale_nearest(&data, 4, 2, 0, 5), Vec::<u8>::new());
}

#[test]
fn scale_frame_keeps_timestamp() {
    let frame = Frame {
        data: vec![10, 20, 30, 40],
        width: 2,
        height: 2,
        timestamp_bits: 2.5f64.to_bits(),
        format: FrameFormat::YUV420,
    };
    let scaled = Scaler::new(1, 1).scale_frame(&frame);
    assert_eq!(scaled.data, vec![10]);
    assert_eq!((scaled.width, scaled.height), (1, 1));
    assert_eq!(f64::from_bits(scaled.timestamp_bits), 2.5);
}
