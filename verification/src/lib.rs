//! URL slugs that keep Unicode.
//!
//! A slug is made from a text in three steps: the text is brought into
//! Unicode Normalization Form C, every character is classified by its
//! major general category and rewritten, and hyphens left at the end are
//! removed. Letters are lowercased; marks, numbers and symbols are kept;
//! every run of punctuation, separators and other characters becomes a
//! single hyphen. Nothing is transliterated and nothing is percent-encoded.

pub mod category;
pub mod laws;
pub mod piece;
pub mod shape;
pub mod slug;
pub mod unicode;

pub use category::{MajorCategory, Treatment};
pub use piece::{assemble, trim_trailing_hyphens, Piece};
pub use slug::{classify, slugify, slugify_with_options, SlugOptions};
