//! Player settings: quality presets, render and color modes, and the
//! settings record that groups them.
use vstd::prelude::*;

verus! {

/// Output resolution presets, from cheapest to finest.
#[derive(Debug, Clone, Copy, PartialEq, Eq, Structural)]
pub enum QualityPreset {
    Performance,
    Balanced,
    Quality,
    Ultra,
}

/// Character set used to draw a frame.
#[derive(Debug, Clone, Copy, PartialEq, Eq, Structural)]
pub enum RenderMode {
    ASCII,
    Block,
    Braille,
}

/// Palette used for escape-sequence colors.
#[derive(Debug, Clone, Copy, PartialEq, Eq, Structural)]
pub enum ColorMode {
    Monochrome,
    ANSI16,
    ANSI256,
    Truecolor,
}

impl QualityPreset {
    /// The (columns, rows) of the rendered output for this preset.
    pub open spec fn spec_dimensions(self) -> (u32, u32) {
        match self {
            QualityPreset::Performance => (80, 30),
            QualityPreset::Balanced => (120, 45),
            QualityPreset::Quality => (160, 60),
            QualityPreset::Ultra => (200, 75),
        }
    }

    /// The preset that follows this one in the settings cycle.
    pub open spec fn spec_next(self) -> QualityPreset {
        match self {
            QualityPreset::Performance => QualityPreset::Balanced,
            QualityPreset::Balanced => QualityPreset::Quality,
            QualityPreset::Quality => QualityPreset::Ultra,
            QualityPreset::Ultra => QualityPreset::Performance,
        }
    }

    pub fn dimensions(&self) -> (r: (u32, u32))
        ensures
            r == self.spec_dimensions(),
    {
        match self {
            QualityPreset::Performance => (80, 30),
            QualityPreset::Balanced => (120, 45),
            QualityPreset::Quality => (160, 60),
            QualityPreset::Ultra => (200, 75),
        }
    }

    pub fn next(&self) -> (r: Self)
        ensures
            r == self.spec_next(),
    {
        match self {
            QualityPreset::Performance => QualityPreset::Balanced,
            QualityPreset::Balanced => QualityPreset::Quality,
            QualityPreset::Quality => QualityPreset::Ultra,
            QualityPreset::Ultra => QualityPreset::Performance,
        }
    }

    /// The variant's name as the settings screens print it.
    pub open spec fn spec_label(self) -> Seq<char> {
        match self {
            QualityPreset::Performance => seq!['P', 'e', 'r', 'f', 'o', 'r', 'm', 'a', 'n', 'c', 'e'],
            QualityPreset::Balanced => seq!['B', 'a', 'l', 'a', 'n', 'c', 'e', 'd'],
            QualityPreset::Quality => seq!['Q', 'u', 'a', 'l', 'i', 't', 'y'],
            QualityPreset::Ultra => seq!['U', 'l', 't', 'r', 'a'],
        }
    }

    pub fn label(&self) -> (r: Vec<char>)
        ensures
            r@ == self.spec_label(),
    {
        match self {
            QualityPreset::Performance => vec!['P', 'e', 'r', 'f', 'o', 'r', 'm', 'a', 'n', 'c', 'e'],
            QualityPreset::Balanced => vec!['B', 'a', 'l', 'a', 'n', 'c', 'e', 'd'],
            QualityPreset::Quality => vec!['Q', 'u', 'a', 'l', 'i', 't', 'y'],
            QualityPreset::Ultra => vec!['U', 'l', 't', 'r', 'a'],
        }
    }
}

impl RenderMode {
    /// The render mode that follows this one in the settings cycle.
    pub open spec fn spec_next(self) -> RenderMode {
        match self {
            RenderMode::ASCII => RenderMode::Block,
            RenderMode::Block => RenderMode::Braille,
            RenderMode::Braille => RenderMode::ASCII,
        }
    }

    pub fn next(&self) -> (r: Self)
        ensures
            r == self.spec_next(),
    {
        match self {
            RenderMode::ASCII => RenderMode::Block,
            RenderMode::Block => RenderMode::Braille,
            RenderMode::Braille => RenderMode::ASCII,
        }
    }

    /// The variant's name as the settings screens print it.
    pub open spec fn spec_label(self) -> Seq<char> {
        match self {
            RenderMode::ASCII => seq!['A', 'S', 'C', 'I', 'I'],
            RenderMode::Block => seq!['B', 'l', 'o', 'c', 'k'],
            RenderMode::Braille => seq!['B', 'r', 'a', 'i', 'l', 'l', 'e'],
        }
    }

    pub fn label(&self) -> (r: Vec<char>)
        ensures
            r@ == self.spec_label(),
    {
        match self {
            RenderMode::ASCII => vec!['A', 'S', 'C', 'I', 'I'],
            RenderMode::Block => vec!['B', 'l', 'o', 'c', 'k'],
            RenderMode::Braille => vec!['B', 'r', 'a', 'i', 'l', 'l', 'e'],
        }
    }
}

impl ColorMode {
    /// The color mode that follows this one in the settings cycle.
    pub open spec fn spec_next(self) -> ColorMode {
        match self {
            ColorMode::Monochrome => ColorMode::ANSI16,
            ColorMode::ANSI16 => ColorMode::ANSI256,
            ColorMode::ANSI256 => ColorMode::Truecolor,
            ColorMode::Truecolor => ColorMode::Monochrome,
        }
    }

    pub fn next(&self) -> (r: Self)
        ensures
            r == self.spec_next(),
    {
        match self {
            ColorMode::Monochrome => ColorMode::ANSI16,
            ColorMode::ANSI16 => ColorMode::ANSI256,
            ColorMode::ANSI256 => ColorMode::Truecolor,
            ColorMode::Truecolor => ColorMode::Monochrome,
        }
    }

    /// The variant's name as the settings screens print it.
    pub open spec fn spec_label(self) -> Seq<char> {
        match self {
            ColorMode::Monochrome => seq!['M', 'o', 'n', 'o', 'c', 'h', 'r', 'o', 'm', 'e'],
            ColorMode::ANSI16 => seq!['A', 'N', 'S', 'I', '1', '6'],
            ColorMode::ANSI256 => seq!['A', 'N', 'S', 'I', '2', '5', '6'],
            ColorMode::Truecolor => seq!['T', 'r', 'u', 'e', 'c', 'o', 'l', 'o', 'r'],
        }
    }

    pub fn label(&self) -> (r: Vec<char>)
        ensures
            r@ == self.spec_label(),
    {
        match self {
            ColorMode::Monochrome => vec!['M', 'o', 'n', 'o', 'c', 'h', 'r', 'o', 'm', 'e'],
            ColorMode::ANSI16 => vec!['A', 'N', 'S', 'I', '1', '6'],
            ColorMode::ANSI256 => vec!['A', 'N', 'S', 'I', '2', '5', '6'],
            ColorMode::Truecolor => vec!['T', 'r', 'u', 'e', 'c', 'o', 'l', 'o', 'r'],
        }
    }
}

/// Cycling through the quality presets comes back to the start after four steps.
pub proof fn quality_cycle_returns(q: QualityPreset)
    ensures
        q.spec_next().spec_next().spec_next().spec_next() == q,
        q.spec_next() != q,
{
}

/// Cycling through the render modes comes back to the start after three steps.
pub proof fn render_cycle_returns(m: RenderMode)
    ensures
        m.spec_next().spec_next().spec_next() == m,
        m.spec_next() != m,
{
}

/// Cycling through the color modes comes back to the start after four steps.
pub proof fn color_cycle_returns(c: ColorMode)
    ensures
        c.spec_next().spec_next().spec_next().spec_next() == c,
        c.spec_next() != c,
{
}

/// The `f32` value 1.0 as its IEEE-754 bit pattern.
pub const UNIT_VOLUME_BITS: u32 = 0x3f80_0000u32;

/// All player settings.
///
/// The playback volume is an `f32`; it is kept here as its IEEE-754 bit
/// pattern (`f32::to_bits`), which nothing in the library interprets.
#[derive(Debug, Clone, Copy)]
pub struct Config {
    pub quality_preset: QualityPreset,
    pub render_mode: RenderMode,
    pub color_mode: ColorMode,
    pub hardware_decode: bool,
    pub dithering: bool,
    pub fps_limit: Option<u32>,
    pub show_fps: bool,
    pub volume_bits: u32,
}

impl Config {
    /// The settings a fresh player starts with.
    pub open spec fn spec_default() -> Config {
        Config {
            quality_preset: QualityPreset::Balanced,
            render_mode: RenderMode::Braille,
            color_mode: ColorMode::Truecolor,
            hardware_decode: true,
            dithering: true,
            fps_limit: None,
            show_fps: false,
            volume_bits: UNIT_VOLUME_BITS,
        }
    }

    /// Reads saved settings; no settings are stored yet, so this yields the defaults.
    pub fn load_from_file(_path: &String) -> (r: Result<Config, ConfigError>)
        ensures
            r == Ok::<Config, ConfigError>(Config::spec_default()),
    {
        Ok(Config::default())
    }

    /// Stores the settings; nothing is written yet, and this always succeeds.
    pub fn save_to_file(&self, _path: &String) -> (r: Result<(), ConfigError>)
        ensures
            r is Ok,
    {
        Ok(())
    }
}

impl Default for Config {
    fn default() -> (c: Config)
        ensures
            c == Config::spec_default(),
    {
        Config {
            quality_preset: QualityPreset::Balanced,
            render_mode: RenderMode::Braille,
            color_mode: ColorMode::Truecolor,
            hardware_decode: true,
            dithering: true,
            fps_limit: None,
            show_fps: false,
            volume_bits: UNIT_VOLUME_BITS,
        }
    }
}

/// A command-line setting that names no known preset or mode.
#[derive(Debug, Clone, PartialEq, Eq)]
pub enum ConfigError {
    InvalidQuality(String),
    InvalidRender(String),
    InvalidColor(String),
}

} // verus!
