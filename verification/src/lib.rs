//! Integer core of a color field renderer.
//!
//! A field of moving light sources is blended into one color per pixel.
//! The blending itself works on real-valued hues; this crate holds the
//! exact, integer side of the renderer:
//!
//! * [`color`]: the six-sector layout that places a hue's channels in an
//!   [`RGBA`] value,
//! * [`frame`]: the row-major RGBA pixel buffer and the full-frame draw loop,
//! * [`uniform`]: the flat array that carries the sources to a shader,
//! * [`config`]: the checks that reject an unusable configuration.

pub mod color;
pub mod config;
pub mod frame;
pub mod uniform;

pub use color::{Sector, RGBA};
pub use config::ConfigError;
pub use frame::PixelBuffer;
