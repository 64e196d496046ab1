//! Exact layout of the placeholder image that the renderer starts from.
//!
//! The image is a two-colour gradient: red grows with the column, green with
//! the row, blue stays at zero. Every colour component is kept as an exact
//! fraction of two integers, so that the order of the cells, their number and
//! the value of each one are stated and proved without rounding. Turning a
//! fraction into a machine number is left to the caller.
pub mod color;
pub mod framebuffer;
