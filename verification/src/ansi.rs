//! Colors for terminals: grayscale and palette quantization, the escape
//! sequences that select a color, and error-diffusion dithering.
use vstd::prelude::*;
use crate::config::ColorMode;
use crate::text::{decimal, push_char, push_decimal};

verus! {

/// A 24-bit color: red, green, blue.
#[derive(Clone, Copy, Debug, PartialEq, Eq, Structural)]
pub struct RgbColor(pub u8, pub u8, pub u8);

/// Luma of a color with the ITU-R BT.601 weights, in per-mille, rounded down.
pub open spec fn gray_level(r: u8, g: u8, b: u8) -> int {
    (r * 299 + g * 587 + b * 114) / 1000
}

/// The xterm 256-color palette entry for a color.
///
/// Pure grays use the dark entry 16 below 48 and the gray ramp 232.. above;
/// other colors use the 6x6x6 cube, each channel quantized to `x * 5 / 255`
/// rounded down.
pub open spec fn ansi256_index(c: RgbColor) -> int {
    if c.0 == c.1 && c.1 == c.2 {
        if c.0 < 48 {
            16
        } else if c.0 < 115 {
            232 + (c.0 - 48) / 10
        } else {
            256 + (c.0 - 115) / 10
        }
    } else {
        16 + 36 * (c.0 * 5 / 255) + 6 * (c.1 * 5 / 255) + c.2 * 5 / 255
    }
}

/// Whether a color has a palette entry below 256 (light pure grays overflow the ramp).
pub open spec fn has_ansi256(c: RgbColor) -> bool {
    !(c.0 == c.1 && c.1 == c.2 && c.0 >= 115)
}

impl RgbColor {
    pub fn to_grayscale(&self) -> (y: u8)
        ensures
            y == gray_level(self.0, self.1, self.2),
    {
        ((self.0 as u32 * 299 + self.1 as u32 * 587 + self.2 as u32 * 114) / 1000) as u8
    }

    /// 0 (black) for dark colors, 7 (white) for light ones.
    pub fn to_ansi16(&self) -> (c: u8)
        ensures
            c == (if gray_level(self.0, self.1, self.2) < 128 { 0u8 } else { 7u8 }),
    {
        let gray = self.to_grayscale();
        if gray < 128 {
            0
        } else {
            7
        }
    }

    pub fn to_ansi256(&self) -> (c: u8)
        requires
            has_ansi256(*self),
        ensures
            c == ansi256_index(*self),
    {
        if self.0 == self.1 && self.1 == self.2 {
            let gray = self.0;
            if gray < 48 {
                16
            } else {
                let index = (gray - 48) / 10;
                232 + index
            }
        } else {
            let r = self.0 / 51;
            let g = self.1 / 51;
            let b = self.2 / 51;
            16 + 36 * r + 6 * g + b
        }
    }
}

/// The control sequence introducer `ESC [`.
pub open spec fn csi() -> Seq<char> {
    seq!['\x1b', '[']
}

/// `ESC [ 38 ; 2 ; r ; g ; b m` (or 48 for the background).
pub open spec fn truecolor_sequence(layer: nat, c: RgbColor) -> Seq<char> {
    csi() + decimal(layer) + seq![';', '2', ';'] + decimal(c.0 as nat) + seq![';'] + decimal(c.1 as nat)
        + seq![';'] + decimal(c.2 as nat) + seq!['m']
}

/// `ESC [ 38 ; 5 ; n m` (or 48 for the background).
pub open spec fn palette_sequence(layer: nat, n: nat) -> Seq<char> {
    csi() + decimal(layer) + seq![';', '5', ';'] + decimal(n) + seq!['m']
}

/// `ESC [ n m`.
pub open spec fn sgr_sequence(n: nat) -> Seq<char> {
    csi() + decimal(n) + seq!['m']
}

/// The sequence that selects `c` in `mode`; `base` is 30 for the foreground and
/// 40 for the background.
pub open spec fn color_sequence(mode: ColorMode, c: RgbColor, base: nat) -> Seq<char> {
    match mode {
        ColorMode::Monochrome => Seq::empty(),
        ColorMode::ANSI16 => sgr_sequence(
            if gray_level(c.0, c.1, c.2) < 128 { base } else { base + 7 },
        ),
        ColorMode::ANSI256 => palette_sequence(base + 8, ansi256_index(c) as nat),
        ColorMode::Truecolor => truecolor_sequence(base + 8, c),
    }
}

/// Writes escape sequences for one color mode.
pub struct AnsiRenderer {
    color_mode: ColorMode,
    width: u32,
    height: u32,
}

impl AnsiRenderer {
    pub closed spec fn spec_color_mode(&self) -> ColorMode {
        self.color_mode
    }

    pub closed spec fn spec_width(&self) -> u32 {
        self.width
    }

    pub closed spec fn spec_height(&self) -> u32 {
        self.height
    }

    pub fn new(color_mode: ColorMode, width: u32, height: u32) -> (r: Self)
        ensures
            r.spec_color_mode() == color_mode,
            r.spec_width() == width,
            r.spec_height() == height,
    {
        AnsiRenderer { color_mode, width, height }
    }

    fn sequence(&self, color: RgbColor, base: u64) -> (s: String)
        requires
            base == 30 || base == 40,
            self.color_mode == ColorMode::ANSI256 ==> has_ansi256(color),
        ensures
            s@ == color_sequence(self.color_mode, color, base as nat),
    {
        let mut s = String::new();
        match self.color_mode {
            ColorMode::Monochrome => {},
            ColorMode::ANSI16 => {
                let ansi_code = color.to_ansi16();
                push_char(&mut s, '\x1b');
                push_char(&mut s, '[');
                push_decimal(&mut s, if ansi_code == 0 { base } else { base + 7 });
                push_char(&mut s, 'm');
            },
            ColorMode::ANSI256 => {
                let ansi_code = color.to_ansi256();
                push_char(&mut s, '\x1b');
                push_char(&mut s, '[');
                push_decimal(&mut s, base + 8);
                push_char(&mut s, ';');
                push_char(&mut s, '5');
                push_char(&mut s, ';');
                push_decimal(&mut s, ansi_code as u64);
                push_char(&mut s, 'm');
            },
            ColorMode::Truecolor => {
                push_char(&mut s, '\x1b');
                push_char(&mut s, '[');
                push_decimal(&mut s, base + 8);
                push_char(&mut s, ';');
                push_char(&mut s, '2');
                push_char(&mut s, ';');
                push_decimal(&mut s, color.0 as u64);
                push_char(&mut s, ';');
                push_decimal(&mut s, color.1 as u64);
                push_char(&mut s, ';');
                push_decimal(&mut s, color.2 as u64);
                push_char(&mut s, 'm');
            },
        }
        s
    }

    /// The sequence that sets the foreground color (empty in monochrome).
    pub fn set_color(&self, color: RgbColor) -> (s: String)
        requires
            self.spec_color_mode() == ColorMode::ANSI256 ==> has_ansi256(color),
        ensures
            s@ == color_sequence(self.spec_color_mode(), color, 30),
    {
        self.sequence(color, 30)
    }

    /// The sequence that sets the background color (empty in monochrome).
    pub fn set_bg_color(&self, color: RgbColor) -> (s: String)
        requires
            self.spec_color_mode() == ColorMode::ANSI256 ==> has_ansi256(color),
        ensures
            s@ == color_sequence(self.spec_color_mode(), color, 40),
    {
        self.sequence(color, 40)
    }

    /// The sequence that restores the default attributes.
    pub fn reset() -> (s: &'static str)
        ensures
            s@ == sgr_sequence(0),
    {
        proof {
            reveal_strlit("\x1b[0m");
        }
        "\x1b[0m"
    }
}

} // verus!

verus! {

/// Integer division by 16 rounded toward zero (the rounding of `i16 / 16`).
pub open spec fn div16_toward_zero(e: int) -> int {
    if e >= 0 {
        e / 16
    } else {
        -((-e) / 16)
    }
}

/// `v` clamped to the range of a byte.
pub open spec fn clamp_byte(v: int) -> u8 {
    if v < 0 {
        0
    } else if v > 255 {
        255
    } else {
        v as u8
    }
}

/// The level a pixel is rounded to: 0 below half of `max_value`, else `max_value`.
pub open spec fn quantize(old: u8, max_value: u8) -> u8 {
    if old < max_value / 2 {
        0
    } else {
        max_value
    }
}

/// Adds `delta` to the pixel at `i`, clamped to a byte.
pub open spec fn diffuse(img: Seq<u8>, i: int, delta: int) -> Seq<u8> {
    img.update(i, clamp_byte(img[i] + delta))
}

/// Floyd–Steinberg step at column `x`, row `y`: the pixel is quantized and its
/// error spread 7/16 right, 3/16 down-left, 5/16 down and 1/16 down-right.
pub open spec fn dither_step(img: Seq<u8>, w: int, h: int, max_value: u8, x: int, y: int) -> Seq<u8> {
    let k = y * w + x;
    let newv = quantize(img[k], max_value);
    let err = img[k] - newv;
    let s1 = img.update(k, newv);
    let s2 = if x + 1 < w { diffuse(s1, k + 1, div16_toward_zero(err * 7)) } else { s1 };
    let s3 = if y + 1 < h && x > 0 { diffuse(s2, k + w - 1, div16_toward_zero(err * 3)) } else { s2 };
    let s4 = if y + 1 < h { diffuse(s3, k + w, div16_toward_zero(err * 5)) } else { s3 };
    if y + 1 < h && x + 1 < w { diffuse(s4, k + w + 1, div16_toward_zero(err)) } else { s4 }
}

/// The image after the first `x` pixels of row `y` have been dithered.
pub open spec fn dither_row(img: Seq<u8>, w: int, h: int, max_value: u8, y: int, x: nat) -> Seq<u8>
    decreases x,
{
    if x == 0 {
        img
    } else {
        dither_step(dither_row(img, w, h, max_value, y, (x - 1) as nat), w, h, max_value, x - 1, y)
    }
}

/// The image after the first `y` rows have been dithered, left to right.
pub open spec fn dither_rows(img: Seq<u8>, w: int, h: int, max_value: u8, y: nat) -> Seq<u8>
    decreases y,
{
    if y == 0 {
        img
    } else {
        dither_row(dither_rows(img, w, h, max_value, (y - 1) as nat), w, h, max_value, y - 1, w as nat)
    }
}

/// The fully dithered image.
pub open spec fn dithered(img: Seq<u8>, w: int, h: int, max_value: u8) -> Seq<u8> {
    dither_rows(img, w, h, max_value, h as nat)
}

fn toward_zero16(e: i32) -> (r: i32)
    requires
        -100000 <= e <= 100000,
    ensures
        r == div16_toward_zero(e as int),
{
    if e >= 0 {
        e / 16
    } else {
        -((-e) / 16)
    }
}

fn diffuse_at(image: &mut [u8], i: usize, delta: i32)
    requires
        i < old(image)@.len(),
        -100000 <= delta <= 100000,
    ensures
        final(image)@ == diffuse(old(image)@, i as int, delta as int),
{
    let v = image[i] as i32 + delta;
    let c: u8 = if v < 0 {
        0
    } else if v > 255 {
        255
    } else {
        v as u8
    };
    image[i] = c;
}

proof fn lemma_row_bounds(w: int, h: int, x: int, y: int)
    requires
        0 <= x < w,
        0 <= y < h,
    ensures
        0 <= y * w + x < w * h,
        y + 1 < h ==> (y + 1) * w + w <= w * h,
        y * w + w <= w * h,
        y * w + x + w == (y + 1) * w + x,
{
    vstd::arithmetic::mul::lemma_mul_is_distributive_add_other_way(w, y, 1);
    vstd::arithmetic::mul::lemma_mul_inequality(y + 1, h, w);
    vstd::arithmetic::mul::lemma_mul_is_commutative(w, h);
    vstd::arithmetic::mul::lemma_mul_is_distributive_add_other_way(w, y + 1, 1);
    if y + 1 < h {
        vstd::arithmetic::mul::lemma_mul_inequality(y + 2, h, w);
        vstd::arithmetic::mul::lemma_mul_is_distributive_add_other_way(w, y + 1, 1);
    }
}

/// Floyd–Steinberg error diffusion over a `width` x `height` grayscale image
/// stored row by row, quantizing every pixel to 0 or `max_value`.
pub fn floyd_steinberg_dither(image: &mut [u8], width: u32, height: u32, max_value: u8)
    requires
        width as int * height as int <= old(image)@.len(),
    ensures
        final(image)@ == dithered(old(image)@, width as int, height as int, max_value),
{
    let ghost img0 = image@;
    let ghost w = width as int;
    let ghost h = height as int;
    let width = width as usize;
    let height = height as usize;
    let len = image.len();
    let mut y: usize = 0;
    while y < height
        invariant
            y <= height,
            w == width,
            h == height,
            w * h <= image@.len(),
            image@.len() == len,
            image@ == dither_rows(img0, w, h, max_value, y as nat),
        decreases height - y,
    {
        let ghost row_start = image@;
        let mut x: usize = 0;
        while x < width
            invariant
                x <= width,
                y < height,
                w == width,
                h == height,
                w * h <= image@.len(),
                image@.len() == len,
                row_start == dither_rows(img0, w, h, max_value, y as nat),
                image@ == dither_row(row_start, w, h, max_value, y as int, x as nat),
            decreases width - x,
        {
            proof {
                lemma_row_bounds(w, h, x as int, y as int);
            }
            let ghost before = image@;
            let idx = y * width + x;
            let old_value = image[idx];
            let new_value: u8 = if old_value < max_value / 2 { 0 } else { max_value };
            let error: i32 = old_value as i32 - new_value as i32;
            image[idx] = new_value;
            if x + 1 < width {
                diffuse_at(image, idx + 1, toward_zero16(error * 7));
            }
            if y + 1 < height {
                if x > 0 {
                    diffuse_at(image, idx + width - 1, toward_zero16(error * 3));
                }
                diffuse_at(image, idx + width, toward_zero16(error * 5));
                if x + 1 < width {
                    diffuse_at(image, idx + width + 1, toward_zero16(error));
                }
            }
            assert(image@ == dither_step(before, w, h, max_value, x as int, y as int));
            x = x + 1;
        }
        y = y + 1;
    }
}

} // verus!

verus! {

/// Every pixel before `n` is 0 or `m` and already at its quantized level, and
/// every pixel from `end` on is as in `orig`.
pub open spec fn two_level_prefix(s: Seq<u8>, orig: Seq<u8>, n: int, end: int, m: u8) -> bool {
    &&& s.len() == orig.len()
    &&& forall|i: int| 0 <= i < n ==> (#[trigger] s[i] == 0 || s[i] == m) && quantize(s[i], m) == s[i]
    &&& forall|i: int| end <= i < s.len() ==> #[trigger] s[i] == orig[i]
}

proof fn lemma_step_frame(s: Seq<u8>, w: int, h: int, m: u8, x: int, y: int)
    requires
        0 <= x < w,
        0 <= y < h,
        w * h <= s.len(),
    ensures
        ({
            let r = dither_step(s, w, h, m, x, y);
            &&& r.len() == s.len()
            &&& forall|i: int| 0 <= i < y * w + x ==> #[trigger] r[i] == s[i]
            &&& forall|i: int| w * h <= i < s.len() ==> #[trigger] r[i] == s[i]
            &&& (r[y * w + x] == 0 || r[y * w + x] == m)
            &&& quantize(r[y * w + x], m) == r[y * w + x]
        }),
{
    lemma_row_bounds(w, h, x, y);
}

proof fn lemma_row_two_level(s: Seq<u8>, orig: Seq<u8>, w: int, h: int, m: u8, y: int, x: nat)
    requires
        0 <= y < h,
        x <= w,
        w * h <= s.len(),
        two_level_prefix(s, orig, y * w, w * h, m),
    ensures
        two_level_prefix(dither_row(s, w, h, m, y, x), orig, y * w + x, w * h, m),
    decreases x,
{
    if x > 0 {
        let prev = dither_row(s, w, h, m, y, (x - 1) as nat);
        lemma_row_two_level(s, orig, w, h, m, y, (x - 1) as nat);
        lemma_step_frame(prev, w, h, m, x - 1, y);
        let r = dither_step(prev, w, h, m, x - 1, y);
        assert forall|i: int| 0 <= i < y * w + x implies (#[trigger] r[i] == 0 || r[i] == m) && quantize(
            r[i],
            m,
        ) == r[i] by {
            if i < y * w + x - 1 {
                assert(r[i] == prev[i]);
            }
        }
        assert forall|i: int| w * h <= i < r.len() implies #[trigger] r[i] == orig[i] by {
            assert(r[i] == prev[i]);
        }
    }
}

proof fn lemma_rows_two_level(img: Seq<u8>, w: int, h: int, m: u8, y: nat)
    requires
        y <= h,
        0 <= w,
        w * h <= img.len(),
    ensures
        two_level_prefix(dither_rows(img, w, h, m, y), img, y * w, w * h, m),
    decreases y,
{
    if y == 0 {
    } else {
        lemma_rows_two_level(img, w, h, m, (y - 1) as nat);
        let prev = dither_rows(img, w, h, m, (y - 1) as nat);
        lemma_row_two_level(prev, img, w, h, m, y - 1, w as nat);
        vstd::arithmetic::mul::lemma_mul_is_distributive_add_other_way(w, y - 1, 1);
    }
}

/// Dithering leaves two levels: every pixel of the `width` x `height` region
/// ends up 0 or `max_value`, and the bytes after the region are untouched.
pub proof fn dither_yields_two_levels(img: Seq<u8>, width: u32, height: u32, max_value: u8)
    requires
        width as int * height as int <= img.len(),
    ensures
        ({
            let r = dithered(img, width as int, height as int, max_value);
            &&& r.len() == img.len()
            &&& forall|i: int|
                0 <= i < width as int * height as int ==> (#[trigger] r[i] == 0 || r[i] == max_value)
            &&& forall|i: int| width as int * height as int <= i < img.len() ==> #[trigger] r[i] == img[i]
        }),
{
    lemma_rows_two_level(img, width as int, height as int, max_value, height as nat);
    vstd::arithmetic::mul::lemma_mul_is_commutative(width as int, height as int);
}

/// Whether every pixel of the first `n` is already at its quantized level.
pub open spec fn levels_fixed(s: Seq<u8>, n: int, m: u8) -> bool {
    forall|i: int| 0 <= i < n ==> quantize(#[trigger] s[i], m) == s[i]
}

proof fn lemma_step_fixed(s: Seq<u8>, w: int, h: int, m: u8, x: int, y: int)
    requires
        0 <= x < w,
        0 <= y < h,
        w * h <= s.len(),
        levels_fixed(s, w * h, m),
    ensures
        dither_step(s, w, h, m, x, y) == s,
{
    lemma_row_bounds(w, h, x, y);
    let k = y * w + x;
    assert(quantize(s[k], m) == s[k]);
    assert(s.update(k, s[k]) == s);
    assert forall|i: int| 0 <= i < s.len() implies #[trigger] diffuse(s, i, 0) == s by {
        assert(clamp_byte(s[i] + 0) == s[i]);
        assert(s.update(i, s[i]) == s);
    }
    assert(div16_toward_zero(0) == 0);
}

proof fn lemma_row_fixed(s: Seq<u8>, w: int, h: int, m: u8, y: int, x: nat)
    requires
        0 <= y < h,
        x <= w,
        w * h <= s.len(),
        levels_fixed(s, w * h, m),
    ensures
        dither_row(s, w, h, m, y, x) == s,
    decreases x,
{
    if x > 0 {
        lemma_row_fixed(s, w, h, m, y, (x - 1) as nat);
        lemma_step_fixed(s, w, h, m, x - 1, y);
    }
}

proof fn lemma_rows_fixed(s: Seq<u8>, w: int, h: int, m: u8, y: nat)
    requires
        y <= h,
        0 <= w,
        w * h <= s.len(),
        levels_fixed(s, w * h, m),
    ensures
        dither_rows(s, w, h, m, y) == s,
    decreases y,
{
    if y > 0 {
        lemma_rows_fixed(s, w, h, m, (y - 1) as nat);
        lemma_row_fixed(s, w, h, m, y - 1, w as nat);
    }
}

/// Dithering twice gives what dithering once gives: every pixel of the region
/// is already at a level, so it keeps its value and spreads no error.
pub proof fn dither_is_idempotent(img: Seq<u8>, width: u32, height: u32, max_value: u8)
    requires
        width as int * height as int <= img.len(),
    ensures
        dithered(dithered(img, width as int, height as int, max_value), width as int, height as int, max_value)
            == dithered(img, width as int, height as int, max_value),
{
    let w = width as int;
    let h = height as int;
    lemma_rows_two_level(img, w, h, max_value, height as nat);
    vstd::arithmetic::mul::lemma_mul_is_commutative(w, h);
    let d = dithered(img, w, h, max_value);
    assert(levels_fixed(d, w * h, max_value)) by {
        assert forall|i: int| 0 <= i < w * h implies quantize(#[trigger] d[i], max_value) == d[i] by {
            assert(d[i] == 0 || d[i] == max_value);
        }
    }
    lemma_rows_fixed(d, w, h, max_value, height as nat);
}

} // verus!
