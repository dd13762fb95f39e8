//! A terminal video player's rendering core: color quantization, dithering,
//! character-cell renderers, frame scaling, playlists, a file browser and the
//! menus that drive them.
use vstd::prelude::*;

pub mod ansi;
pub mod args;
pub mod braille;
pub mod config;
pub mod decoder;
pub mod file_browser;
pub mod file_browser_ui;
pub mod fps;
pub mod input;
pub mod playlist;
pub mod renderer;
pub mod scaler;
pub mod text;
pub mod ui;

verus! {

} // verus!
