//! Pixel color types and the conversions, inversions and blends between them.
//!
//! Every pixel type stores its channels in a fixed-size array of a primitive
//! integer type (see [`Primitive`]).  The library proves, for every operation,
//! exactly which channel values it produces.

mod blend;
mod bgr;
mod bgra;
mod color_type;
mod from_color;
mod invert;
pub mod laws;
mod luma;
mod luma_a;
mod pixel;
mod primitive;
mod rgb;
mod rgba;

pub use blend::Blend;
pub use bgr::Bgr;
pub use bgra::Bgra;
pub use color_type::{bits_per_pixel, num_components, ColorType};
pub use from_color::FromColor;
pub use invert::Invert;
pub use luma::Luma;
pub use luma_a::LumaA;
pub use pixel::Pixel;
pub use primitive::Primitive;
pub use rgb::Rgb;
pub use rgba::Rgba;
