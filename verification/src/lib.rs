//! Converts structured text documents (front matter plus a Markdown body)
//! into rendered HTML fragments, augmenting embedded images with
//! aspect-ratio metadata so page layout does not shift while images load.

pub mod assemble;
pub mod front_matter;
pub mod images;
pub mod metadata;
pub mod naming;
pub mod reading;
pub mod render;
pub mod rewrite;
pub mod text;
