//! Character-cell renderers for grayscale frames: braille dots, block
//! elements and an ASCII brightness ramp.
use vstd::prelude::*;
use crate::text::{char_from_u32, push_char};

verus! {

/// Whether byte `k` of the frame exists and is brighter than 128.
pub open spec fn lit(d: Seq<u8>, k: int) -> bool {
    0 <= k < d.len() && d[k] > 128
}

/// `v` when `b` holds, else 0.
pub open spec fn bit_value(b: bool, v: int) -> int {
    if b {
        v
    } else {
        0
    }
}

/// The dot pattern of the braille cell whose top-left pixel is (`x`, `y`):
/// bit `2 * r + c` is set when the pixel at index `(y + r) * w + x + c` is lit.
pub open spec fn cell_pattern(d: Seq<u8>, w: int, x: int, y: int) -> int {
    bit_value(lit(d, y * w + x), 1) + bit_value(lit(d, y * w + x + 1), 2) + bit_value(
        lit(d, (y + 1) * w + x),
        4,
    ) + bit_value(lit(d, (y + 1) * w + x + 1), 8) + bit_value(lit(d, (y + 2) * w + x), 16)
        + bit_value(lit(d, (y + 2) * w + x + 1), 32) + bit_value(lit(d, (y + 3) * w + x), 64)
        + bit_value(lit(d, (y + 3) * w + x + 1), 128)
}

/// The braille character U+2800 + `pattern`.
pub open spec fn braille_char(pattern: int) -> char {
    (0x2800 + pattern) as u32 as char
}

/// The first `n` cells of the band of rows starting at row `y`.
pub open spec fn braille_cells(d: Seq<u8>, w: int, y: int, n: nat) -> Seq<char>
    decreases n,
{
    if n == 0 {
        Seq::empty()
    } else {
        braille_cells(d, w, y, (n - 1) as nat).push(
            braille_char(cell_pattern(d, w, 2 * (n - 1), y)),
        )
    }
}

/// The first `n` lines of braille output, each `(w + 1) / 2` cells and a newline.
pub open spec fn braille_lines(d: Seq<u8>, w: int, n: nat) -> Seq<char>
    decreases n,
{
    if n == 0 {
        Seq::empty()
    } else {
        braille_lines(d, w, (n - 1) as nat) + braille_cells(d, w, 4 * (n - 1), ((w + 1) / 2) as nat)
            + seq!['\n']
    }
}

/// The braille rendering of a `w` x `h` frame: one line per four pixel rows,
/// one character per two pixel columns.
pub open spec fn braille_text(d: Seq<u8>, w: int, h: int) -> Seq<char> {
    braille_lines(d, w, ((h + 3) / 4) as nat)
}

/// Renders frames with braille characters, 2 x 4 pixels per character.
pub struct BrailleRenderer {
    width: u32,
    height: u32,
}

fn lit_at(d: &[u8], k: usize) -> (r: bool)
    ensures
        r == lit(d@, k as int),
{
    k < d.len() && d[k] > 128
}

proof fn lemma_cell_bounds(w: int, h: int, x: int, y: int)
    requires
        0 <= x < w,
        0 <= y < h,
        w * h * 4 <= u32::MAX,
    ensures
        (y + 3) * w + x + 1 <= u32::MAX,
        (y + 2) * w + x + 1 <= u32::MAX,
        (y + 1) * w + x + 1 <= u32::MAX,
        y * w + x + 1 <= u32::MAX,
        y + 3 <= u32::MAX,
        0 <= y * w,
{
    assert(y + 3 <= (y + 3) * w) by (nonlinear_arith)
        requires
            0 <= y,
            1 <= w,
    ;
    assert(y * w <= (y + 1) * w <= (y + 2) * w <= (y + 3) * w) by (nonlinear_arith)
        requires
            0 <= y,
            0 <= w,
    ;
    assert((y + 3) * w + x + 1 <= (h + 3) * w) by (nonlinear_arith)
        requires
            0 <= x < w,
            0 <= y < h,
    ;
    assert((h + 3) * w <= w * h * 4) by (nonlinear_arith)
        requires
            0 <= y < h,
            0 <= w,
    ;
    assert(0 <= y * w) by (nonlinear_arith)
        requires
            0 <= y,
            0 <= w,
    ;
}

impl BrailleRenderer {
    pub closed spec fn spec_width(&self) -> u32 {
        self.width
    }

    pub closed spec fn spec_height(&self) -> u32 {
        self.height
    }

    pub fn new(width: u32, height: u32) -> (r: Self)
        ensures
            r.spec_width() == width,
            r.spec_height() == height,
    {
        BrailleRenderer { width, height }
    }

    fn cell(&self, frame_data: &[u8], x: usize, y: usize) -> (c: char)
        requires
            x < self.width,
            y < self.height,
            self.width * self.height * 4 <= u32::MAX,
        ensures
            c == braille_char(cell_pattern(frame_data@, self.width as int, x as int, y as int)),
    {
        proof {
            lemma_cell_bounds(self.width as int, self.height as int, x as int, y as int);
        }
        let w = self.width as usize;
        let mut pattern: u32 = 0;
        if lit_at(frame_data, y * w + x) {
            pattern = pattern + 1;
        }
        if lit_at(frame_data, y * w + x + 1) {
            pattern = pattern + 2;
        }
        if lit_at(frame_data, (y + 1) * w + x) {
            pattern = pattern + 4;
        }
        if lit_at(frame_data, (y + 1) * w + x + 1) {
            pattern = pattern + 8;
        }
        if lit_at(frame_data, (y + 2) * w + x) {
            pattern = pattern + 16;
        }
        if lit_at(frame_data, (y + 2) * w + x + 1) {
            pattern = pattern + 32;
        }
        if lit_at(frame_data, (y + 3) * w + x) {
            pattern = pattern + 64;
        }
        if lit_at(frame_data, (y + 3) * w + x + 1) {
            pattern = pattern + 128;
        }
        match char_from_u32(0x2800 + pattern) {
            Some(c) => c,
            None => ' ',
        }
    }

    /// One character per 2 x 4 block of pixels brighter than 128, a line per
    /// band of four rows; pixels past the end of `frame_data` count as dark.
    pub fn render(&self, frame_data: &[u8]) -> (s: String)
        requires
            self.spec_width() * self.spec_height() * 4 <= u32::MAX,
        ensures
            s@ == braille_text(frame_data@, self.spec_width() as int, self.spec_height() as int),
    {
        let mut output = String::new();
        let frame_width = self.width as usize;
        let frame_height = self.height as usize;
        let ghost d = frame_data@;
        let ghost w = frame_width as int;
        let mut y: u64 = 0;
        let ghost mut rows: nat = 0;
        while y < self.height as u64
            invariant
                y <= frame_height + 3,
                frame_width == self.width,
                frame_height == self.height,
                w == frame_width,
                d == frame_data@,
                self.width * self.height * 4 <= u32::MAX,
                y == 4 * rows,
                rows == 0 || y < frame_height + 4,
                output@ == braille_lines(d, w, rows),
            decreases frame_height + 4 - y,
        {
            let mut x: u64 = 0;
            let ghost mut cols: nat = 0;
            let ghost line_start = output@;
            while x < self.width as u64
                invariant
                    x <= frame_width + 1,
                    frame_width == self.width,
                    frame_height == self.height,
                    w == frame_width,
                    d == frame_data@,
                    self.width * self.height * 4 <= u32::MAX,
                    y < frame_height,
                    x == 2 * cols,
                    cols == 0 || x < frame_width + 2,
                    output@ == line_start + braille_cells(d, w, y as int, cols),
                decreases frame_width + 2 - x,
            {
                let c = self.cell(frame_data, x as usize, y as usize);
                push_char(&mut output, c);
                proof {
                    cols = cols + 1;
                }
                x = x + 2;
            }
            assert(cols == (w + 1) / 2);
            push_char(&mut output, '\n');
            proof {
                rows = rows + 1;
            }
            y = y + 4;
        }
        assert(rows == (frame_height + 3) / 4);
        output
    }
}

/// The block element for a brightness: a space, then U+2581..U+2588 in
/// nine equal steps of `b * 9 / 256`.
pub open spec fn block_glyph(b: u8) -> char {
    let i = b * 9 / 256;
    if i == 0 {
        ' '
    } else {
        (0x2580 + i) as u32 as char
    }
}

/// The ASCII ramp character for a brightness, in eleven steps of `b * 11 / 256`.
pub open spec fn ascii_glyph(b: u8) -> char {
    let ramp = seq![' ', ' ', '.', ':', '-', '=', '+', '*', '#', '%', '@'];
    ramp[b * 11 / 256]
}

/// `d` cut into lines of `w` bytes (the last may be shorter), each byte drawn
/// with `glyph` and each line ended by a newline.
pub open spec fn chunked_text(d: Seq<u8>, w: nat, glyph: spec_fn(u8) -> char) -> Seq<char>
    decreases d.len(),
{
    if d.len() == 0 || w == 0 {
        Seq::empty()
    } else {
        let n = if w < d.len() { w } else { d.len() };
        d.take(n as int).map_values(glyph) + seq!['\n'] + chunked_text(d.skip(n as int), w, glyph)
    }
}

fn block_char(b: u8) -> (c: char)
    ensures
        c == block_glyph(b),
{
    let i = (b as u32 * 9) / 256;
    if i == 0 {
        ' '
    } else {
        match char_from_u32(0x2580 + i) {
            Some(c) => c,
            None => ' ',
        }
    }
}

fn ascii_char(b: u8) -> (c: char)
    ensures
        c == ascii_glyph(b),
{
    let i = (b as u32 * 11) / 256;
    if i == 0 {
        ' '
    } else if i == 1 {
        ' '
    } else if i == 2 {
        '.'
    } else if i == 3 {
        ':'
    } else if i == 4 {
        '-'
    } else if i == 5 {
        '='
    } else if i == 6 {
        '+'
    } else if i == 7 {
        '*'
    } else if i == 8 {
        '#'
    } else if i == 9 {
        '%'
    } else {
        '@'
    }
}

/// Draws `frame_data` in lines of `width` bytes with `block_char` (when
/// `blocks`) or `ascii_char`.
fn render_chunked(frame_data: &[u8], width: usize, blocks: bool) -> (s: String)
    requires
        width > 0,
    ensures
        s@ == chunked_text(
            frame_data@,
            width as nat,
            if blocks { |b: u8| block_glyph(b) } else { |b: u8| ascii_glyph(b) },
        ),
{
    let ghost glyph = if blocks { |b: u8| block_glyph(b) } else { |b: u8| ascii_glyph(b) };
    let ghost d = frame_data@;
    let mut output = String::new();
    let len = frame_data.len();
    let mut i: usize = 0;
    assert(d.skip(0) == d);
    while i < len
        invariant
            i <= len,
            len == d.len(),
            d == frame_data@,
            width > 0,
            glyph == (if blocks { |b: u8| block_glyph(b) } else { |b: u8| ascii_glyph(b) }),
            chunked_text(d, width as nat, glyph) == output@ + chunked_text(d.skip(i as int), width as nat, glyph),
        decreases len - i,
    {
        let end = if len - i < width { len } else { i + width };
        let ghost rest = d.skip(i as int);
        let ghost line_start = output@;
        let mut j = i;
        while j < end
            invariant
                i <= j <= end,
                end <= len,
                len == d.len(),
                d == frame_data@,
                glyph == (if blocks { |b: u8| block_glyph(b) } else { |b: u8| ascii_glyph(b) }),
                output@ == line_start + d.subrange(i as int, j as int).map_values(glyph),
            decreases end - j,
        {
            let c = if blocks { block_char(frame_data[j]) } else { ascii_char(frame_data[j]) };
            push_char(&mut output, c);
            assert(d.subrange(i as int, j + 1).map_values(glyph) == d.subrange(i as int, j as int).map_values(glyph).push(glyph(d[j as int])));
            j = j + 1;
        }
        push_char(&mut output, '\n');
        assert(rest.take((end - i) as int) == d.subrange(i as int, end as int));
        assert(rest.skip((end - i) as int) == d.skip(end as int));
        i = end;
    }
    output
}

/// Renders frames with the vertical block elements, one character per pixel.
pub struct BlockRenderer {
    width: u32,
    height: u32,
}

impl BlockRenderer {
    pub closed spec fn spec_width(&self) -> u32 {
        self.width
    }

    pub closed spec fn spec_height(&self) -> u32 {
        self.height
    }

    pub fn new(width: u32, height: u32) -> (r: Self)
        ensures
            r.spec_width() == width,
            r.spec_height() == height,
    {
        BlockRenderer { width, height }
    }

    /// One block character per byte, a line per `width` bytes.
    pub fn render(&self, frame_data: &[u8]) -> (s: String)
        requires
            self.spec_width() > 0,
            self.spec_width() * self.spec_height() * 4 <= u32::MAX,
        ensures
            s@ == chunked_text(frame_data@, self.spec_width() as nat, |b: u8| block_glyph(b)),
    {
        render_chunked(frame_data, self.width as usize, true)
    }
}

/// Renders frames with an ASCII brightness ramp, one character per pixel.
pub struct AsciiRenderer {
    width: u32,
    height: u32,
}

impl AsciiRenderer {
    pub closed spec fn spec_width(&self) -> u32 {
        self.width
    }

    pub closed spec fn spec_height(&self) -> u32 {
        self.height
    }

    pub fn new(width: u32, height: u32) -> (r: Self)
        ensures
            r.spec_width() == width,
            r.spec_height() == height,
    {
        AsciiRenderer { width, height }
    }

    /// One ramp character per byte, a line per `width` bytes.
    pub fn render(&self, frame_data: &[u8]) -> (s: String)
        requires
            self.spec_width() > 0,
            self.spec_width() * self.spec_height() * 2 <= u32::MAX,
        ensures
            s@ == chunked_text(frame_data@, self.spec_width() as nat, |b: u8| ascii_glyph(b)),
    {
        render_chunked(frame_data, self.width as usize, false)
    }
}

} // verus!

verus! {

proof fn lemma_braille_cells_len(d: Seq<u8>, w: int, y: int, n: nat)
    ensures
        braille_cells(d, w, y, n).len() == n,
    decreases n,
{
    if n > 0 {
        lemma_braille_cells_len(d, w, y, (n - 1) as nat);
    }
}

/// The braille text of a `w` x `h` frame has one line per band of four rows,
/// each of `(w + 1) / 2` characters and a newline.
pub proof fn braille_text_shape(d: Seq<u8>, w: int, h: int, n: nat)
    requires
        w >= 0,
    ensures
        braille_lines(d, w, n).len() == n * ((w + 1) / 2 + 1),
        forall|i: int| 0 <= i < n ==> #[trigger] braille_lines(d, w, n)[i * ((w + 1) / 2 + 1) + (w + 1) / 2] == '\n',
    decreases n,
{
    let line = (w + 1) / 2 + 1;
    if n > 0 {
        let m = (n - 1) as nat;
        braille_text_shape(d, w, h, m);
        lemma_braille_cells_len(d, w, 4 * (m as int), ((w + 1) / 2) as nat);
        let prev = braille_lines(d, w, m);
        let all = braille_lines(d, w, n);
        assert(n * line == m * line + line) by (nonlinear_arith)
            requires
                n == m + 1,
        ;
        assert forall|i: int| 0 <= i < n implies #[trigger] all[i * line + (w + 1) / 2] == '\n' by {
            if i < m {
                assert(i * line + (w + 1) / 2 < m * line) by (nonlinear_arith)
                    requires
                        0 <= i < m,
                        line == (w + 1) / 2 + 1,
                        w >= 0,
                ;
                assert(all[i * line + (w + 1) / 2] == prev[i * line + (w + 1) / 2]);
            } else {
                assert(i == m);
            }
        }
    }
}

/// The text of `d` in lines of `w` bytes: one character per byte plus a
/// newline per line, `(len + w - 1) / w` lines in all.
pub proof fn chunked_text_len(d: Seq<u8>, w: nat, glyph: spec_fn(u8) -> char)
    requires
        w > 0,
    ensures
        chunked_text(d, w, glyph).len() == d.len() + (d.len() + w - 1) / (w as int),
    decreases d.len(),
{
    if d.len() > 0 {
        let n = if w < d.len() { w } else { d.len() };
        chunked_text_len(d.skip(n as int), w, glyph);
        let rest = (d.len() - n) as int;
        assert((rest + w - 1) / (w as int) + 1 == (d.len() + w - 1) / (w as int)) by {
            if w < d.len() {
                let q = (rest + w - 1) / (w as int);
                let r = (rest + w - 1) % (w as int);
                vstd::arithmetic::div_mod::lemma_fundamental_div_mod(rest + w - 1, w as int);
                vstd::arithmetic::div_mod::lemma_mod_bound(rest + w - 1, w as int);
                assert(d.len() + w - 1 == (q + 1) * w + r) by (nonlinear_arith)
                    requires
                        rest + w - 1 == w * q + r,
                        rest == d.len() - w,
                ;
                vstd::arithmetic::div_mod::lemma_fundamental_div_mod_converse(d.len() + w - 1, w as int, q + 1, r);
            } else {
                vstd::arithmetic::div_mod::lemma_basic_div(w - 1, w as int);
                assert((w - 1) / (w as int) == 0);
                assert((d.len() + w - 1) / (w as int) == 1) by {
                    vstd::arithmetic::div_mod::lemma_fundamental_div_mod_converse(
                        d.len() + w - 1,
                        w as int,
                        1,
                        d.len() - 1,
                    );
                }
            }
        }
    } else {
        assert((w - 1) / (w as int) == 0) by {
            vstd::arithmetic::div_mod::lemma_basic_div(w - 1, w as int);
        }
    }
}

} // verus!
