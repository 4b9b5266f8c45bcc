//! Sliding windows ("n-grams") over a sequence of tokens.
//!
//! A token source hands out tokens one at a time. The windowing stage
//! ([`Ngrams`]) turns it into every run of `n` consecutive tokens, and the
//! padding stage ([`Padded`]) can surround the tokens with a sentinel so that
//! the first and the last token occur in as many windows as the others.

pub mod laws;
pub mod ngrams;
pub mod pad;
pub mod padded;
pub mod source;
pub mod windows;

pub use ngrams::{Ngram, Ngrams, NgramsError};
pub use pad::Pad;
pub use padded::Padded;
pub use source::TokenSource;
