//! A byte-for-symbol encoding of binary data as text.
//!
//! Each byte of the input is written as one symbol of a 256-symbol alphabet,
//! and each symbol of an encoded text is read back as the byte it stands for.
//! Three codecs are offered. They share the emoji alphabet and differ in how
//! they find the byte of a symbol.

pub mod alphabet;
pub mod codec;
pub mod emoji;
pub mod error;
pub mod laws;
pub mod strategies;
pub mod symbol_index;
pub mod text;

pub use crate::alphabet::Alphabet;
pub use crate::codec::Base;
pub use crate::error::DecodeError;
pub use crate::strategies::{Emoji, EmojiE, EmojiM};
