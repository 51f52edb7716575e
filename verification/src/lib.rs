//! A framed hexadecimal dump of a byte range of a file: the range that start,
//! count and end select, the diagnostics for selectors that select none, and the
//! rows of the dump as coloured pieces of text.

pub mod args;
pub mod dump;
pub mod paint;
pub mod range;
pub mod render;
pub mod report;
pub mod text;
