//! Placeholder images: a request names a size, and optionally two colours and a
//! caption; the answer is a PNG of that size, filled with the background, the
//! caption centred on it in the foreground.
//!
//! The library reads the request, fills the canvas, places the caption from the
//! boxes of its glyphs, encodes the PNG and chooses the answer to send. Laying
//! out and rasterising glyphs is floating-point work: the caller brings it as two
//! function values, and the contracts say what the library hands to them and
//! what it makes of their answers.

pub mod canvas;
pub mod color;
pub mod decimal;
pub mod error;
pub mod handler;
pub mod image_generator;
pub mod layout;
pub mod plan;
pub mod response;
pub mod size;

pub use crate::canvas::{canvas_fits, Canvas};
pub use crate::color::{parse_color, Color};
pub use crate::error::RequestError;
pub use crate::handler::{generate_image, generate_image_with_size, generate_image_without_text};
pub use crate::image_generator::{create_image, draw_centered_text};
pub use crate::layout::{caption_origin, centered_text_origin, text_bounds, GlyphScale, PixelBox};
pub use crate::plan::{plan_image, size_caption, ImagePlan};
pub use crate::response::{respond, ContentType, Response};
pub use crate::size::parse_size;
