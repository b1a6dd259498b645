//! A small verified library around a turtle-style path tracer: a cursor that
//! walks a 2D integer grid under `stroke` (move N steps) and `turn_right`
//! (rotate the heading a quarter turn clockwise) commands, recording every
//! visited cell into a buffer. Two buffer backends are offered: a bounded one
//! with a fixed capacity and a growable one that never rejects an append.
//! A few small standalone exercises (rectangles, string helpers, summaries)
//! live in their own modules.

pub mod buffer;
pub mod heading;
pub mod rectangle;
pub mod summary;
pub mod text;
pub mod tracer;
