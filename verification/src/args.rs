//! Command-line arguments: the video to play and the options that override
//! the default settings.
use vstd::prelude::*;
use crate::config::{ColorMode, Config, ConfigError, QualityPreset, RenderMode};
use crate::text::{lowercase_chars, lowercase_of};

verus! {

/// The parsed command line.
#[derive(Debug)]
pub struct Args {
    pub video_path: String,
    pub quality: Option<String>,
    pub render: Option<String>,
    pub color: Option<String>,
    pub no_hwdec: bool,
    pub no_dither: bool,
}

/// Why the command line was refused.
#[derive(Debug, Clone, Copy, PartialEq, Eq, Structural)]
pub enum ArgsError {
    /// Fewer than two arguments: there is no video path; the usage text is due.
    Usage,
}

/// The options read so far: quality, render, color, no-hwdec, no-dither.
pub type OptionState = (Option<Seq<char>>, Option<Seq<char>>, Option<Seq<char>>, bool, bool);

/// The options after reading `args` from index `i` on: `--quality`,
/// `--render` and `--color` take the next argument as their value (and are
/// ignored as the last argument); `--no-hwdec` and `--no-dither` set their
/// flag; anything else is skipped. A later value replaces an earlier one.
pub open spec fn scan_options(args: Seq<Seq<char>>, i: int, acc: OptionState) -> OptionState
    decreases args.len() - i,
{
    if i < 0 || i >= args.len() {
        acc
    } else {
        let a = args[i];
        if a == "--quality"@ {
            if i + 1 < args.len() {
                scan_options(args, i + 2, (Some(args[i + 1]), acc.1, acc.2, acc.3, acc.4))
            } else {
                scan_options(args, i + 1, acc)
            }
        } else if a == "--render"@ {
            if i + 1 < args.len() {
                scan_options(args, i + 2, (acc.0, Some(args[i + 1]), acc.2, acc.3, acc.4))
            } else {
                scan_options(args, i + 1, acc)
            }
        } else if a == "--color"@ {
            if i + 1 < args.len() {
                scan_options(args, i + 2, (acc.0, acc.1, Some(args[i + 1]), acc.3, acc.4))
            } else {
                scan_options(args, i + 1, acc)
            }
        } else if a == "--no-hwdec"@ {
            scan_options(args, i + 1, (acc.0, acc.1, acc.2, true, acc.4))
        } else if a == "--no-dither"@ {
            scan_options(args, i + 1, (acc.0, acc.1, acc.2, acc.3, true))
        } else {
            scan_options(args, i + 1, acc)
        }
    }
}

/// The views of a list of strings.
pub open spec fn views(v: Seq<String>) -> Seq<Seq<char>> {
    Seq::new(v.len(), |i: int| v[i]@)
}

/// The view of an optional string.
pub open spec fn opt_chars(o: Option<String>) -> Option<Seq<char>> {
    match o {
        Some(s) => Some(s@),
        None => None,
    }
}

/// The options that `a` holds.
pub open spec fn options_of(a: Args) -> OptionState {
    (opt_chars(a.quality), opt_chars(a.render), opt_chars(a.color), a.no_hwdec, a.no_dither)
}

fn is_word(s: &String, word: &str) -> (r: bool)
    ensures
        r == (s@ == word@),
{
    *s == String::from_str(word)
}

fn clone_string(s: &String) -> (r: String)
    ensures
        r@ == s@,
{
    s.clone()
}

impl Args {
    /// Reads the command line `args` (program name first, then the video
    /// path, then options; see `scan_options`). The program name must be
    /// there: the usage text that a missing video path calls for names it.
    pub fn parse(args: &Vec<String>) -> (r: Result<Args, ArgsError>)
        requires
            args@.len() >= 1,
        ensures
            args@.len() < 2 ==> r == Err::<Args, ArgsError>(ArgsError::Usage),
            args@.len() >= 2 ==> match r {
                Ok(a) => {
                    &&& a.video_path@ == args@[1]@
                    &&& options_of(a) == scan_options(views(args@), 2, (None, None, None, false, false))
                },
                Err(_) => false,
            },
    {
        if args.len() < 2 {
            return Err(ArgsError::Usage);
        }
        let ghost all = views(args@);
        let video_path = clone_string(&args[1]);
        let mut quality: Option<String> = None;
        let mut render: Option<String> = None;
        let mut color: Option<String> = None;
        let mut no_hwdec = false;
        let mut no_dither = false;
        let mut i: usize = 2;
        while i < args.len()
            invariant
                2 <= i <= args@.len() + 1,
                all == views(args@),
                scan_options(all, 2, (None, None, None, false, false)) == scan_options(
                    all,
                    i as int,
                    (opt_chars(quality), opt_chars(render), opt_chars(color), no_hwdec, no_dither),
                ),
            decreases args@.len() + 1 - i,
        {
            let a = &args[i];
            assert(all[i as int] == a@);
            if is_word(a, "--quality") {
                if i + 1 < args.len() {
                    assert(all[i + 1] == args@[i + 1]@);
                    quality = Some(clone_string(&args[i + 1]));
                    i = i + 2;
                } else {
                    i = i + 1;
                }
            } else if is_word(a, "--render") {
                if i + 1 < args.len() {
                    assert(all[i + 1] == args@[i + 1]@);
                    render = Some(clone_string(&args[i + 1]));
                    i = i + 2;
                } else {
                    i = i + 1;
                }
            } else if is_word(a, "--color") {
                if i + 1 < args.len() {
                    assert(all[i + 1] == args@[i + 1]@);
                    color = Some(clone_string(&args[i + 1]));
                    i = i + 2;
                } else {
                    i = i + 1;
                }
            } else if is_word(a, "--no-hwdec") {
                no_hwdec = true;
                i = i + 1;
            } else if is_word(a, "--no-dither") {
                no_dither = true;
                i = i + 1;
            } else {
                i = i + 1;
            }
        }
        Ok(Args { video_path, quality, render, color, no_hwdec, no_dither })
    }
}

/// The quality preset a (lower-cased) name selects.
pub open spec fn quality_named(n: Seq<char>) -> Option<QualityPreset> {
    if n == "performance"@ {
        Some(QualityPreset::Performance)
    } else if n == "balanced"@ {
        Some(QualityPreset::Balanced)
    } else if n == "quality"@ {
        Some(QualityPreset::Quality)
    } else if n == "ultra"@ {
        Some(QualityPreset::Ultra)
    } else {
        None
    }
}

/// The render mode a (lower-cased) name selects.
pub open spec fn render_named(n: Seq<char>) -> Option<RenderMode> {
    if n == "ascii"@ {
        Some(RenderMode::ASCII)
    } else if n == "block"@ {
        Some(RenderMode::Block)
    } else if n == "braille"@ {
        Some(RenderMode::Braille)
    } else {
        None
    }
}

/// The color mode a (lower-cased) name selects.
pub open spec fn color_named(n: Seq<char>) -> Option<ColorMode> {
    if n == "mono"@ {
        Some(ColorMode::Monochrome)
    } else if n == "ansi16"@ {
        Some(ColorMode::ANSI16)
    } else if n == "ansi256"@ {
        Some(ColorMode::ANSI256)
    } else if n == "truecolor"@ {
        Some(ColorMode::Truecolor)
    } else {
        None
    }
}

/// Whether an optional option value names a known choice (absent counts as fine).
pub open spec fn names_ok<T>(o: Option<Seq<char>>, named: spec_fn(Seq<char>) -> Option<T>) -> bool {
    match o {
        Some(v) => named(lowercase_of(v)) is Some,
        None => true,
    }
}

/// The settings that parsed arguments select, starting from the defaults,
/// when every given option value names a known choice (case-insensitively).
pub open spec fn config_for(a: Args) -> Config {
    let d = Config::spec_default();
    let q = match a.quality {
        Some(v) => quality_named(lowercase_of(v@)).unwrap(),
        None => d.quality_preset,
    };
    let r = match a.render {
        Some(v) => render_named(lowercase_of(v@)).unwrap(),
        None => d.render_mode,
    };
    let c = match a.color {
        Some(v) => color_named(lowercase_of(v@)).unwrap(),
        None => d.color_mode,
    };
    Config {
        quality_preset: q,
        render_mode: r,
        color_mode: c,
        hardware_decode: !a.no_hwdec,
        dithering: !a.no_dither,
        ..d
    }
}

fn chars_are(cs: &Vec<char>, word: &str) -> (r: bool)
    ensures
        r == (cs@ == word@),
{
    let s = crate::text::string_of(cs);
    s == String::from_str(word)
}

fn quality_from(v: &String) -> (r: Option<QualityPreset>)
    ensures
        r == quality_named(lowercase_of(v@)),
{
    let n = lowercase_chars(v.as_str());
    quality_of_name(&n)
}

/// The quality preset a lower-cased name selects (see `quality_named`).
pub fn quality_of_name(n: &Vec<char>) -> (r: Option<QualityPreset>)
    ensures
        r == quality_named(n@),
{
    if chars_are(n, "performance") {
        Some(QualityPreset::Performance)
    } else if chars_are(n, "balanced") {
        Some(QualityPreset::Balanced)
    } else if chars_are(n, "quality") {
        Some(QualityPreset::Quality)
    } else if chars_are(n, "ultra") {
        Some(QualityPreset::Ultra)
    } else {
        None
    }
}

fn render_from(v: &String) -> (r: Option<RenderMode>)
    ensures
        r == render_named(lowercase_of(v@)),
{
    let n = lowercase_chars(v.as_str());
    render_of_name(&n)
}

/// The render mode a lower-cased name selects (see `render_named`).
pub fn render_of_name(n: &Vec<char>) -> (r: Option<RenderMode>)
    ensures
        r == render_named(n@),
{
    if chars_are(n, "ascii") {
        Some(RenderMode::ASCII)
    } else if chars_are(n, "block") {
        Some(RenderMode::Block)
    } else if chars_are(n, "braille") {
        Some(RenderMode::Braille)
    } else {
        None
    }
}

fn color_from(v: &String) -> (r: Option<ColorMode>)
    ensures
        r == color_named(lowercase_of(v@)),
{
    let n = lowercase_chars(v.as_str());
    color_of_name(&n)
}

/// The color mode a lower-cased name selects (see `color_named`).
pub fn color_of_name(n: &Vec<char>) -> (r: Option<ColorMode>)
    ensures
        r == color_named(n@),
{
    if chars_are(n, "mono") {
        Some(ColorMode::Monochrome)
    } else if chars_are(n, "ansi16") {
        Some(ColorMode::ANSI16)
    } else if chars_are(n, "ansi256") {
        Some(ColorMode::ANSI256)
    } else if chars_are(n, "truecolor") {
        Some(ColorMode::Truecolor)
    } else {
        None
    }
}

/// The settings the command line asks for: the defaults with the named
/// quality, render and color (matched case-insensitively) and with hardware
/// decoding and dithering off when asked; the first unknown name, checked in
/// that order, is the error.
pub fn build_config(args: &Args) -> (r: Result<Config, ConfigError>)
    ensures
        !names_ok(opt_chars(args.quality), |n: Seq<char>| quality_named(n)) ==> match r {
            Err(ConfigError::InvalidQuality(v)) => opt_chars(args.quality) == Some(v@),
            _ => false,
        },
        names_ok(opt_chars(args.quality), |n: Seq<char>| quality_named(n)) && !names_ok(
            opt_chars(args.render),
            |n: Seq<char>| render_named(n),
        ) ==> match r {
            Err(ConfigError::InvalidRender(v)) => opt_chars(args.render) == Some(v@),
            _ => false,
        },
        names_ok(opt_chars(args.quality), |n: Seq<char>| quality_named(n)) && names_ok(
            opt_chars(args.render),
            |n: Seq<char>| render_named(n),
        ) && !names_ok(opt_chars(args.color), |n: Seq<char>| color_named(n)) ==> match r {
            Err(ConfigError::InvalidColor(v)) => opt_chars(args.color) == Some(v@),
            _ => false,
        },
        names_ok(opt_chars(args.quality), |n: Seq<char>| quality_named(n)) && names_ok(
            opt_chars(args.render),
            |n: Seq<char>| render_named(n),
        ) && names_ok(opt_chars(args.color), |n: Seq<char>| color_named(n)) ==> r == Ok::<
            Config,
            ConfigError,
        >(config_for(*args)),
{
    let mut config = Config::default();
    match &args.quality {
        Some(q) => match quality_from(q) {
            Some(p) => {
                config.quality_preset = p;
            },
            None => {
                return Err(ConfigError::InvalidQuality(clone_string(q)));
            },
        },
        None => {},
    }
    match &args.render {
        Some(v) => match render_from(v) {
            Some(m) => {
                config.render_mode = m;
            },
            None => {
                return Err(ConfigError::InvalidRender(clone_string(v)));
            },
        },
        None => {},
    }
    match &args.color {
        Some(v) => match color_from(v) {
            Some(m) => {
                config.color_mode = m;
            },
            None => {
                return Err(ConfigError::InvalidColor(clone_string(v)));
            },
        },
        None => {},
    }
    if args.no_hwdec {
        config.hardware_decode = false;
    }
    if args.no_dither {
        config.dithering = false;
    }
    Ok(config)
}

} // verus!

verus! {

/// `c` with an ASCII capital letter turned into its small letter.
pub open spec fn ascii_lower(c: char) -> char {
    if 'A' <= c && c <= 'Z' {
        ((c as u32) + 32) as char
    } else {
        c
    }
}

/// `n` spells the start of `label` in small letters: each character of `n`
/// is the lower-cased character of `label` at the same place.
pub open spec fn spells_start_of(n: Seq<char>, label: Seq<char>) -> bool {
    &&& n.len() <= label.len()
    &&& forall|i: int| 0 <= i < n.len() ==> n[i] == ascii_lower(#[trigger] label[i])
}

/// `n` spells all of `label` in small letters.
pub open spec fn spells(n: Seq<char>, label: Seq<char>) -> bool {
    n.len() == label.len() && spells_start_of(n, label)
}

proof fn lemma_spelled(n: Seq<char>, w: Seq<char>, label: Seq<char>)
    requires
        spells(w, label),
    ensures
        spells(n, label) <==> n == w,
{
    if spells(n, label) {
        assert forall|i: int| 0 <= i < n.len() implies n[i] == w[i] by {
            assert(n[i] == ascii_lower(label[i]));
            assert(w[i] == ascii_lower(label[i]));
        }
        assert(n =~= w);
    }
}

/// A quality name selects exactly the preset whose label it spells in small
/// letters ("balanced" selects `Balanced`, and so on).
#[verifier::spinoff_prover]
pub proof fn quality_names_spell_labels(n: Seq<char>, q: QualityPreset)
    ensures
        quality_named(n) == Some(q) <==> spells(n, q.spec_label()),
{
    reveal_strlit("performance");
    reveal_strlit("balanced");
    reveal_strlit("quality");
    reveal_strlit("ultra");
    match q {
        QualityPreset::Performance => lemma_spelled(n, "performance"@, q.spec_label()),
        QualityPreset::Balanced => lemma_spelled(n, "balanced"@, q.spec_label()),
        QualityPreset::Quality => lemma_spelled(n, "quality"@, q.spec_label()),
        QualityPreset::Ultra => lemma_spelled(n, "ultra"@, q.spec_label()),
    }
}

/// A render name selects exactly the mode whose label it spells in small
/// letters ("ascii" selects `ASCII`, and so on).
#[verifier::spinoff_prover]
pub proof fn render_names_spell_labels(n: Seq<char>, m: RenderMode)
    ensures
        render_named(n) == Some(m) <==> spells(n, m.spec_label()),
{
    reveal_strlit("ascii");
    reveal_strlit("block");
    reveal_strlit("braille");
    match m {
        RenderMode::ASCII => lemma_spelled(n, "ascii"@, m.spec_label()),
        RenderMode::Block => lemma_spelled(n, "block"@, m.spec_label()),
        RenderMode::Braille => lemma_spelled(n, "braille"@, m.spec_label()),
    }
}

/// A color name selects a mode whose label it spells in small letters, in
/// full except for "mono", the short form of `Monochrome`; every mode has a
/// name.
#[verifier::spinoff_prover]
pub proof fn color_names_spell_labels(n: Seq<char>, m: ColorMode)
    ensures
        color_named(n) == Some(m) ==> spells_start_of(n, m.spec_label()),
        color_named(n) == Some(m) && m != ColorMode::Monochrome ==> spells(n, m.spec_label()),
        exists|k: Seq<char>| color_named(k) == Some(m),
{
    reveal_strlit("mono");
    reveal_strlit("ansi16");
    reveal_strlit("ansi256");
    reveal_strlit("truecolor");
    match m {
        ColorMode::Monochrome => assert(color_named("mono"@) == Some(m)),
        ColorMode::ANSI16 => {
            assert("ansi16"@ != "mono"@) by {
                assert("ansi16"@.len() != "mono"@.len());
            }
            assert(color_named("ansi16"@) == Some(m));
        },
        ColorMode::ANSI256 => {
            assert("ansi256"@ != "mono"@) by {
                assert("ansi256"@.len() != "mono"@.len());
            }
            assert("ansi256"@ != "ansi16"@) by {
                assert("ansi256"@.len() != "ansi16"@.len());
            }
            assert(color_named("ansi256"@) == Some(m));
        },
        ColorMode::Truecolor => {
            assert("truecolor"@ != "mono"@) by {
                assert("truecolor"@.len() != "mono"@.len());
            }
            assert("truecolor"@ != "ansi16"@) by {
                assert("truecolor"@.len() != "ansi16"@.len());
            }
            assert("truecolor"@ != "ansi256"@) by {
                assert("truecolor"@.len() != "ansi256"@.len());
            }
            assert(color_named("truecolor"@) == Some(m));
        },
    }
}

} // verus!
