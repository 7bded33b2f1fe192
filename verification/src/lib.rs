//! Escape-time fractal rendering kernel.
//!
//! The library owns a pixel buffer, a fixed 2048-entry cyclic color palette,
//! and the bookkeeping of an escape-time renderer: it maps per-pixel escape
//! outcomes to packed RGBA colors and writes them row-major into the buffer.
//! The floating-point orbit iteration itself is numeric work that the host
//! layer performs; it hands this kernel one `PixelOutcome` per pixel.

pub mod palette;
pub mod renderer;
pub mod trig;

pub use renderer::FractalRenderer;
pub use renderer::FractalType;
pub use renderer::PixelOutcome;
