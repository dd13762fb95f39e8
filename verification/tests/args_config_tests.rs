use hyperterm_video::args::{build_config, color_of_name, quality_of_name, render_of_name, Args, ArgsError};
use hyperterm_video::config::{ColorMode, Config, ConfigError, QualityPreset, RenderMode, UNIT_VOLUME_BITS};

fn argv(words: &[&str]) -> Vec<String> {
    words.iter().map(|w| w.to_string()).collect()
}

#[test]
fn too_few_arguments_ask_for_usage() {
    assert_eq!(Args::parse(&argv(&["player"])).unwrap_err(), ArgsError::Usage);
}

#[test]
fn options_are_read() {
    let a = Args::parse(&argv(&[
        "player", "clip.mp4", "--quality", "ULTRA", "--bogus", "--color", "ansi16", "--no-dither", "--render",
    ]))
    .unwrap();
    assert_eq!(a.video_path, "clip.mp4");
    assert_eq!(a.quality.as_deref(), Some("ULTRA"));
    assert_eq!(a.color.as_deref(), Some("ansi16"));
    assert_eq!(a.render, None);
    assert!(a.no_dither);
    assert!(!a.no_hwdec);
}

#[test]
fn later_values_win_and_values_are_not_flags() {
    let a = Args::parse(&argv(&["p", "v", "--render", "--no-hwdec", "--render", "block"])).unwrap();
    assert_eq!(a.render.as_deref(), Some("block"));
    assert!(!a.no_hwdec);
}

#[test]
fn config_from_options() {
    let a = Args::parse(&argv(&["p", "v", "--quality", "Ultra", "--render", "ASCII", "--color", "mono", "--no-hwdec"]))
        .unwrap();
    let c = build_config(&a).unwrap();
    assert_eq!(c.quality_preset, QualityPreset::Ultra);
    assert_eq!(c.render_mode, RenderMode::ASCII);
    assert_eq!(c.color_mode, ColorMode::Monochrome);
    assert!(!c.hardware_decode);
    assert!(c.dithering);
    assert_eq!(c.volume_bits, 1.0f32.to_bits());
}

#[test]
fn config_errors_name_the_value() {
    let a = Args::parse(&argv(&["p", "v", "--quality", "huge", "--render", "nope"])).unwrap();
    assert_eq!(build_config(&a).unwrap_err(), ConfigError::InvalidQuality("huge".to_string()));
    let b = Args::parse(&argv(&["p", "v", "--render", "nope", "--color", "x"])).unwrap();
    assert_eq!(build_config(&b).unwrap_err(), ConfigError::InvalidRender("nope".to_string()));
    let c = Args::parse(&argv(&["p", "v", "--color", "x"])).unwrap();
    assert_eq!(build_config(&c).unwrap_err(), ConfigError::InvalidColor("x".to_string()));
}

#[test]
fn defaults() {
    let c = Config::default();
    assert_eq!(c.quality_preset, QualityPreset::Balanced);
    assert_eq!(c.render_mode, RenderMode::Braille);
    assert_eq!(c.color_mode, ColorMode::Truecolor);
    assert!(c.hardware_decode);
    assert!(c.dithering);
    assert_eq!(c.fps_limit, None);
    assert!(!c.show_fps);
    assert_eq!(f32::from_bits(c.volume_bits), 1.0);
    assert_eq!(UNIT_VOLUME_BITS, 1.0f32.to_bits());
    let loaded = Config::load_from_file(&"settings.json".to_string()).unwrap();
    assert_eq!(loaded.quality_preset, QualityPreset::Balanced);
    assert!(c.save_to_file(&"settings.json".to_string()).is_ok());
}

#[test]
fn preset_dimensions_and_cycles() {
    assert_eq!(QualityPreset::Performance.dimensions(), (80, 30));
    assert_eq!(QualityPreset::Balanced.dimensions(), (120, 45));
    assert_eq!(QualityPreset::Quality.dimensions(), (160, 60));
    assert_eq!(QualityPreset::Ultra.dimensions(), (200, 75));
    for q in [QualityPreset::Performance, QualityPreset::Balanced, QualityPreset::Quality, QualityPreset::Ultra] {
        assert_ne!(q.next(), q);
        assert_eq!(q.next().next().next().next(), q);
    }
    for r in [RenderMode::ASCII, RenderMode::Block, RenderMode::Braille] {
        assert_eq!(r.next().next().next(), r);
    }
    assert_eq!(RenderMode::Braille.next(), RenderMode::ASCII);
    for c in [ColorMode::Monochrome, ColorMode::ANSI16, ColorMode::ANSI256, ColorMode::Truecolor] {
        assert_eq!(c.next().next().next().next(), c);
    }
    assert_eq!(ColorMode::Truecolor.next(), ColorMode::Monochrome);
}

fn chars(s: &str) -> Vec<char> {
    s.chars().collect()
}

#[test]
fn lower_case_names_select_choices() {
    assert_eq!(quality_of_name(&chars("balanced")), Some(QualityPreset::Balanced));
    assert_eq!(quality_of_name(&chars("Balanced")), None);
    assert_eq!(render_of_name(&chars("braille")), Some(RenderMode::Braille));
    assert_eq!(render_of_name(&chars("")), None);
    assert_eq!(color_of_name(&chars("truecolor")), Some(ColorMode::Truecolor));
    assert_eq!(color_of_name(&chars("mono ")), None);
}
