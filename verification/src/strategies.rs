//! The three codecs of the emoji alphabet. They encode and decode alike and
//! differ in how a symbol is looked up: in a hash table, by reading the
//! alphabet from its start, or by a match over the symbols.

use vstd::prelude::*;
use crate::alphabet::{inverse, lemma_reverse_lookup, scan, Alphabet};
use crate::codec::Base;
use crate::emoji::{lemma_emoji_is_alphabet, match_symbol, EMOJI};
use crate::symbol_index::SymbolIndex;

verus! {

/// Looks symbols up in a hash table that is filled once, when the codec is
/// made.
#[derive(Debug)]
pub struct Emoji {
    lookup: SymbolIndex,
}

/// Looks symbols up by reading the alphabet from its start. Holds no state.
#[derive(Debug)]
pub struct EmojiE;

/// Looks symbols up by a match over the symbols of the alphabet. Holds no
/// state.
#[derive(Debug)]
pub struct EmojiM;

impl View for Emoji {
    type V = Map<char, u8>;

    /// What the table of the codec holds.
    closed spec fn view(&self) -> Map<char, u8> {
        self.lookup@
    }
}

impl Emoji {
    /// The table of a codec holds the symbols of the alphabet, each with
    /// its byte, and nothing else.
    #[verifier::type_invariant]
    spec fn well_formed(self) -> bool {
        self.lookup@ == inverse(EMOJI@)
    }
}

impl Default for Emoji {
    /// Fills the table from the alphabet. The alphabet holds no symbol
    /// twice, so the construction does not fail.
    fn default() -> (codec: Emoji)
        ensures
            codec@ == inverse(Emoji::ALPHABET@),
    {
        proof {
            lemma_emoji_is_alphabet();
        }
        match SymbolIndex::build(&EMOJI) {
            Some(lookup) => Emoji { lookup },
            None => vstd::pervasive::unreached(),
        }
    }
}

impl Base for Emoji {
    const ALPHABET: Alphabet = EMOJI;

    fn get_index(&self, c: char) -> (found: Option<u8>) {
        proof {
            use_type_invariant(self);
            lemma_reverse_lookup(EMOJI@, c);
        }
        self.lookup.get(c)
    }
}

impl Default for EmojiE {
    fn default() -> (codec: EmojiE)
        ensures
            codec == EmojiE,
    {
        EmojiE
    }
}

impl Base for EmojiE {
    const ALPHABET: Alphabet = EMOJI;

    fn get_index(&self, c: char) -> (found: Option<u8>) {
        scan(&Self::ALPHABET, c)
    }
}

impl Default for EmojiM {
    fn default() -> (codec: EmojiM)
        ensures
            codec == EmojiM,
    {
        EmojiM
    }
}

impl Base for EmojiM {
    const ALPHABET: Alphabet = EMOJI;

    fn get_index(&self, c: char) -> (found: Option<u8>) {
        match_symbol(c)
    }
}

/// The three codecs share one alphabet, the emoji table.
pub proof fn lemma_alphabets_are_emoji()
    ensures
        Emoji::ALPHABET == EMOJI,
        EmojiE::ALPHABET == EMOJI,
        EmojiM::ALPHABET == EMOJI,
{
}

} // verus!
