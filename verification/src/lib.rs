//! A terminal 2D drawing and text-layout engine.
//!
//! Drawing commands address a pixel grid twice as tall as the terminal's
//! cell grid: each cell shows two vertically stacked pixels through
//! half-block glyphs and a pair of color slots. A double-buffered renderer
//! diffs consecutive frames and plans the minimal stream of terminal
//! commands; a style and layout engine places bordered, padded, aligned
//! text boxes on the canvas.

pub mod align;
pub mod buffer;
pub mod canvas;
pub mod cell;
pub mod circle;
pub mod color;
pub mod geom;
pub mod layout;
pub mod raster;
pub mod renderer;
pub mod style;
pub mod text;
