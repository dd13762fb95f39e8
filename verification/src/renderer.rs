//! Chooses the character renderer for a frame.
use vstd::prelude::*;
use crate::braille::{
    ascii_glyph, block_glyph, braille_text, chunked_text, AsciiRenderer, BlockRenderer,
    BrailleRenderer,
};
use crate::config::{ColorMode, RenderMode};
use crate::scaler::ScaledFrame;

verus! {

/// The text a frame of `w` x `h` pixels becomes in `mode`.
pub open spec fn rendered_text(mode: RenderMode, d: Seq<u8>, w: u32, h: u32) -> Seq<char> {
    match mode {
        RenderMode::Braille => braille_text(d, w as int, h as int),
        RenderMode::Block => chunked_text(d, w as nat, |b: u8| block_glyph(b)),
        RenderMode::ASCII => chunked_text(d, w as nat, |b: u8| ascii_glyph(b)),
    }
}

/// Whether `mode` can draw frames of `w` x `h` pixels: the output buffer size
/// must fit in a `u32`, and the line-based modes need a nonzero width.
pub open spec fn renderable(mode: RenderMode, w: u32, h: u32) -> bool {
    match mode {
        RenderMode::Braille => w * h * 4 <= u32::MAX,
        RenderMode::Block => w > 0 && w * h * 4 <= u32::MAX,
        RenderMode::ASCII => w > 0 && w * h * 2 <= u32::MAX,
    }
}

/// Turns scaled frames into terminal text.
pub struct Renderer {
    render_mode: RenderMode,
    color_mode: ColorMode,
    width: u32,
    height: u32,
}

impl Renderer {
    pub closed spec fn spec_render_mode(&self) -> RenderMode {
        self.render_mode
    }

    pub closed spec fn spec_color_mode(&self) -> ColorMode {
        self.color_mode
    }

    pub closed spec fn spec_width(&self) -> u32 {
        self.width
    }

    pub closed spec fn spec_height(&self) -> u32 {
        self.height
    }

    pub fn new(render_mode: RenderMode, color_mode: ColorMode, width: u32, height: u32) -> (r: Self)
        ensures
            r.spec_render_mode() == render_mode,
            r.spec_color_mode() == color_mode,
            r.spec_width() == width,
            r.spec_height() == height,
    {
        Renderer { render_mode, color_mode, width, height }
    }

    /// Whether `render_frame` can draw at this renderer's size and mode.
    pub fn can_render(&self) -> (r: bool)
        ensures
            r == renderable(self.spec_render_mode(), self.spec_width(), self.spec_height()),
    {
        let w = self.width as u128;
        let h = self.height as u128;
        proof {
            assert(w * h <= u32::MAX * u32::MAX) by (nonlinear_arith)
                requires
                    w <= u32::MAX,
                    h <= u32::MAX,
            ;
        }
        let cells = w * h;
        match self.render_mode {
            RenderMode::Braille => cells * 4 <= 0xffff_ffff,
            RenderMode::Block => self.width > 0 && cells * 4 <= 0xffff_ffff,
            RenderMode::ASCII => self.width > 0 && cells * 2 <= 0xffff_ffff,
        }
    }

    /// The text for one frame, drawn at the renderer's size in its mode.
    pub fn render_frame(&self, frame: &ScaledFrame) -> (s: String)
        requires
            renderable(self.spec_render_mode(), self.spec_width(), self.spec_height()),
        ensures
            s@ == rendered_text(self.spec_render_mode(), frame.data@, self.spec_width(), self.spec_height()),
    {
        match self.render_mode {
            RenderMode::Braille => {
                let renderer = BrailleRenderer::new(self.width, self.height);
                renderer.render(frame.data.as_slice())
            },
            RenderMode::Block => {
                let renderer = BlockRenderer::new(self.width, self.height);
                renderer.render(frame.data.as_slice())
            },
            RenderMode::ASCII => {
                let renderer = AsciiRenderer::new(self.width, self.height);
                renderer.render(frame.data.as_slice())
            },
        }
    }
}

} // verus!
