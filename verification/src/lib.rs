//! Text utilities for a scanner's diagnostics: character classes, a
//! terminated character sequence, column lookup and print-safe rendering.

pub mod classify;
pub mod column;
pub mod copy;
pub mod render;
pub mod repeat;
pub mod sequence;
pub mod strings;
