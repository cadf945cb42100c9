//! Escape-time fractal explorer core: the glyph encoding of a membership
//! grid, the parameter block and readback of the compute pipeline, and the
//! per-point escape decision.

pub mod escape;
pub mod glyph;
pub mod grid;
pub mod pipeline;
pub mod text;
