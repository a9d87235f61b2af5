//! Sampling of trigonometric function families and their projection onto a
//! character grid, in fixed-point arithmetic.
//!
//! - `fixed`: micro-unit fixed-point numbers and the sine/cosine kernel.
//! - `functions`: the variants and the sampler (101 grid points per series).
//! - `plot`: projection of samples onto grid cells.
//! - `app`: the catalogue of active functions, the global amplitude and
//!   frequency, the variant menu, and the key-press state machine.
pub mod fixed;
pub mod functions;
pub mod plot;
pub mod app;
