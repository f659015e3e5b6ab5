//! Renderers that turn the normalized model into output text.

pub mod d2;
