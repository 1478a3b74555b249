//! What holds of encoding and decoding, for every input.

use vstd::prelude::*;
use crate::alphabet::{is_alphabet, lemma_lookup_of_entry, reverse_lookup};
use crate::codec::{all_recognized, decode_spec, encode_spec, is_first_unrecognized, lemma_decode_err, lemma_decode_ok, Base};
use crate::emoji::{lemma_emoji_is_alphabet, EMOJI};
use crate::error::UnrecognizedSymbol;
use crate::strategies::{lemma_alphabets_are_emoji, Emoji, EmojiE, EmojiM};

verus! {

/// In an alphabet, looking up the symbol of a byte gives that byte.
pub proof fn law_lookup_inverts_symbol(table: Seq<char>, byte: u8)
    requires
        is_alphabet(table),
    ensures
        reverse_lookup(table, table[byte as int]) == Some(byte),
{
    lemma_lookup_of_entry(table, byte);
}

/// Decoding the encoding of any bytes gives those bytes back, whatever the
/// alphabet.
pub proof fn law_round_trip(table: Seq<char>, bytes: Seq<u8>)
    requires
        is_alphabet(table),
    ensures
        decode_spec(table, encode_spec(table, bytes)) matches Ok(decoded) && decoded == bytes,
{
    let text = encode_spec(table, bytes);
    assert forall|i: int| 0 <= i < text.len() implies reverse_lookup(table, #[trigger] text[i])
        == Some(bytes[i]) by {
        lemma_lookup_of_entry(table, bytes[i]);
    }
    lemma_decode_ok(table, text, bytes);
}

/// Each of the three codecs looks the symbol of a byte up as that byte.
pub proof fn law_codecs_invert_symbol(byte: u8)
    ensures
        reverse_lookup(Emoji::ALPHABET@, Emoji::ALPHABET@[byte as int]) == Some(byte),
        reverse_lookup(EmojiE::ALPHABET@, EmojiE::ALPHABET@[byte as int]) == Some(byte),
        reverse_lookup(EmojiM::ALPHABET@, EmojiM::ALPHABET@[byte as int]) == Some(byte),
{
    lemma_alphabets_are_emoji();
    lemma_emoji_is_alphabet();
    law_lookup_inverts_symbol(EMOJI@, byte);
}

/// Each of the three codecs decodes the encoding of any bytes to those
/// bytes.
pub proof fn law_codecs_round_trip(bytes: Seq<u8>)
    ensures
        decode_spec(Emoji::ALPHABET@, encode_spec(Emoji::ALPHABET@, bytes)) matches Ok(decoded)
            && decoded == bytes,
        decode_spec(EmojiE::ALPHABET@, encode_spec(EmojiE::ALPHABET@, bytes)) matches Ok(decoded)
            && decoded == bytes,
        decode_spec(EmojiM::ALPHABET@, encode_spec(EmojiM::ALPHABET@, bytes)) matches Ok(decoded)
            && decoded == bytes,
{
    lemma_alphabets_are_emoji();
    lemma_emoji_is_alphabet();
    law_round_trip(EMOJI@, bytes);
}

/// The three codecs of the emoji alphabet encode alike and decode alike:
/// the same text for the same bytes, and for the same text the same bytes
/// or the same refused symbol at the same position.
pub proof fn law_strategies_agree(bytes: Seq<u8>, text: Seq<char>)
    ensures
        encode_spec(Emoji::ALPHABET@, bytes) == encode_spec(EmojiE::ALPHABET@, bytes),
        encode_spec(EmojiE::ALPHABET@, bytes) == encode_spec(EmojiM::ALPHABET@, bytes),
        decode_spec(Emoji::ALPHABET@, text) == decode_spec(EmojiE::ALPHABET@, text),
        decode_spec(EmojiE::ALPHABET@, text) == decode_spec(EmojiM::ALPHABET@, text),
{
    lemma_alphabets_are_emoji();
}

/// An encoded text has one symbol for each byte, and decoded bytes are one
/// for each symbol.
pub proof fn law_length_is_kept(table: Seq<char>, bytes: Seq<u8>, text: Seq<char>)
    ensures
        encode_spec(table, bytes).len() == bytes.len(),
        decode_spec(table, text) matches Ok(decoded) ==> decoded.len() == text.len(),
{
}

/// A text in which one symbol alone is not in the alphabet is refused at
/// the position of that symbol, whatever the length of the text.
pub proof fn law_failure_at_foreign_symbol(table: Seq<char>, text: Seq<char>, position: int)
    requires
        0 <= position < text.len(),
        reverse_lookup(table, text[position]) is None,
        forall|i: int|
            0 <= i < text.len() && i != position ==> reverse_lookup(table, #[trigger] text[i]) is Some,
    ensures
        decode_spec(table, text) matches Err(refused) && refused == (UnrecognizedSymbol {
            symbol: text[position],
            position: position as nat,
        }),
{
    assert(is_first_unrecognized(table, text, position));
    lemma_decode_err(table, text, position);
}

/// A text is refused at the first of its symbols that is not in the
/// alphabet, and only a text with such a symbol is refused.
pub proof fn law_failure_is_first(table: Seq<char>, text: Seq<char>)
    ensures
        match decode_spec(table, text) {
            Ok(decoded) => forall|i: int|
                0 <= i < text.len() ==> reverse_lookup(table, #[trigger] text[i]) == Some(decoded[i]),
            Err(refused) => is_first_unrecognized(table, text, refused.position as int)
                && refused.symbol == text[refused.position as int],
        },
{
    if !all_recognized(table, text) {
        lemma_has_first_unrecognized(table, text, text.len() as int);
    }
}

/// Among the first `count` symbols of a text, if one is not in the
/// alphabet then one is the first such.
proof fn lemma_has_first_unrecognized(table: Seq<char>, text: Seq<char>, count: int)
    requires
        0 <= count <= text.len(),
        exists|i: int| 0 <= i < count && reverse_lookup(table, text[i]) is None,
    ensures
        exists|position: int| is_first_unrecognized(table, text, position),
    decreases count,
{
    let last = count - 1;
    if exists|i: int| 0 <= i < last && reverse_lookup(table, text[i]) is None {
        lemma_has_first_unrecognized(table, text, last);
    } else {
        assert(reverse_lookup(table, text[last]) is None);
        assert(is_first_unrecognized(table, text, last));
    }
}

/// The empty text decodes to no bytes, and no bytes encode to the empty
/// text.
pub proof fn law_empty(table: Seq<char>)
    ensures
        encode_spec(table, Seq::<u8>::empty()) == Seq::<char>::empty(),
        decode_spec(table, Seq::<char>::empty()) matches Ok(decoded) && decoded == Seq::<u8>::empty(),
{
    assert(encode_spec(table, Seq::<u8>::empty()) =~= Seq::<char>::empty());
    lemma_decode_ok(table, Seq::<char>::empty(), Seq::<u8>::empty());
}

} // verus!
