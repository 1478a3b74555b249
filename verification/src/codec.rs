//! Encoding and decoding, for any alphabet and any way of looking symbols up.

use vstd::prelude::*;
use vstd::string::StrSliceExecFns;
use crate::alphabet::{reverse_lookup, Alphabet};
use crate::error::{DecodeError, UnrecognizedSymbol};
use crate::text::{lemma_utf8_len_prefix, lemma_utf8_len_push, utf8_len};

verus! {

broadcast use vstd::string::group_string_axioms;

/// The text that `bytes` are written as: the symbol of each byte, in order.
pub open spec fn encode_spec(table: Seq<char>, bytes: Seq<u8>) -> Seq<char> {
    Seq::new(bytes.len(), |i: int| table[bytes[i] as int])
}

/// Every symbol of `text` is in `table`.
pub open spec fn all_recognized(table: Seq<char>, text: Seq<char>) -> bool {
    forall|i: int| 0 <= i < text.len() ==> reverse_lookup(table, #[trigger] text[i]) is Some
}

/// `position` is where the first symbol of `text` stands that is not in
/// `table`.
pub open spec fn is_first_unrecognized(table: Seq<char>, text: Seq<char>, position: int) -> bool {
    &&& 0 <= position < text.len()
    &&& reverse_lookup(table, text[position]) is None
    &&& forall|j: int| 0 <= j < position ==> reverse_lookup(table, #[trigger] text[j]) is Some
}

/// What decoding `text` gives: the byte of each symbol, in order, or the
/// first symbol that is not in `table`, with its position.
pub open spec fn decode_spec(table: Seq<char>, text: Seq<char>) -> Result<
    Seq<u8>,
    UnrecognizedSymbol,
> {
    if all_recognized(table, text) {
        Ok(Seq::new(text.len(), |i: int| reverse_lookup(table, text[i])->0))
    } else {
        let position = choose|position: int| is_first_unrecognized(table, text, position);
        Err(UnrecognizedSymbol { symbol: text[position], position: position as nat })
    }
}

/// A text in which every symbol stands for a byte decodes to those bytes.
pub proof fn lemma_decode_ok(table: Seq<char>, text: Seq<char>, bytes: Seq<u8>)
    requires
        bytes.len() == text.len(),
        forall|i: int| 0 <= i < text.len() ==> reverse_lookup(table, #[trigger] text[i]) == Some(bytes[i]),
    ensures
        decode_spec(table, text) matches Ok(decoded) && decoded == bytes,
{
    assert(all_recognized(table, text));
    assert(Seq::new(text.len(), |i: int| reverse_lookup(table, text[i])->0) =~= bytes);
}

/// A text whose first unknown symbol stands at `position` is refused for
/// that symbol, at that position.
pub proof fn lemma_decode_err(table: Seq<char>, text: Seq<char>, position: int)
    requires
        is_first_unrecognized(table, text, position),
    ensures
        decode_spec(table, text) matches Err(refused) && refused == (UnrecognizedSymbol {
            symbol: text[position],
            position: position as nat,
        }),
{
    assert(!all_recognized(table, text));
    let chosen = choose|chosen: int| is_first_unrecognized(table, text, chosen);
    assert(is_first_unrecognized(table, text, chosen));
    if chosen < position {
        assert(reverse_lookup(table, text[chosen]) is Some);
    } else if position < chosen {
        assert(reverse_lookup(table, text[position]) is Some);
    }
}

/// What a decoding result says, with bytes and error taken by their views.
pub open spec fn decode_outcome(decoded: Result<Vec<u8>, DecodeError>) -> Result<
    Seq<u8>,
    UnrecognizedSymbol,
> {
    match decoded {
        Ok(bytes) => Ok(bytes@),
        Err(error) => Err(error@),
    }
}

/// The encoding of the first bytes is the beginning of the encoding of all.
pub proof fn lemma_encode_prefix(table: Seq<char>, bytes: Seq<u8>, count: int)
    requires
        0 <= count <= bytes.len(),
    ensures
        encode_spec(table, bytes.take(count)) == encode_spec(table, bytes).take(count),
        count < bytes.len() ==> encode_spec(table, bytes.take(count + 1)) == encode_spec(
            table,
            bytes.take(count),
        ).push(table[bytes[count] as int]),
{
    assert(encode_spec(table, bytes.take(count)) =~= encode_spec(table, bytes).take(count));
    if count < bytes.len() {
        assert(encode_spec(table, bytes.take(count + 1)) =~= encode_spec(table, bytes.take(count)).push(
            table[bytes[count] as int],
        ));
    }
}

/// A codec: an alphabet, and a way to find the byte that a symbol stands
/// for. Encoding and decoding are the same for every codec; the codecs
/// differ in how `get_index` searches.
pub trait Base: Default {
    /// The symbols of this codec, by byte value.
    const ALPHABET: Alphabet;

    /// The byte that `c` stands for, or `None` when `c` is not in the
    /// alphabet.
    fn get_index(&self, c: char) -> (found: Option<u8>)
        ensures
            found == reverse_lookup(Self::ALPHABET@, c),
    ;

    /// Reads `input` symbol by symbol and returns the byte of each. The
    /// first symbol that is not in the alphabet ends the reading: it is
    /// returned with its position, and no bytes are.
    fn decode(&self, input: &str) -> (decoded: Result<Vec<u8>, DecodeError>)
        ensures
            decode_outcome(decoded) == decode_spec(Self::ALPHABET@, input@),
            decoded matches Ok(bytes) ==> bytes@.len() == input@.len(),
    {
        let count: usize = input.unicode_len();
        let mut output: Vec<u8> = vec![0u8; count];
        let mut position: usize = 0;
        for symbol in symbols: input.chars()
            invariant
                position == symbols.index(),
                symbols.seq() == input@,
                count == input@.len(),
                output.len() == count,
                forall|j: int|
                    0 <= j < position ==> reverse_lookup(Self::ALPHABET@, #[trigger] input@[j])
                        == Some(output@[j]),
        {
            match self.get_index(symbol) {
                Some(byte) => {
                    output.set(position, byte);
                },
                None => {
                    proof {
                        lemma_decode_err(Self::ALPHABET@, input@, position as int);
                    }
                    return Err(DecodeError::new(symbol, position));
                },
            }
            position = position + 1;
        }
        proof {
            lemma_decode_ok(Self::ALPHABET@, input@, output@);
        }
        Ok(output)
    }

    /// The number of bytes that the encoding of `input` takes in UTF-8, or
    /// `None` when that number is too large for a `usize`.
    fn encoded_len(input: &Vec<u8>) -> (total: Option<usize>)
        ensures
            match total {
                Some(size) => size == utf8_len(encode_spec(Self::ALPHABET@, input@)),
                None => utf8_len(encode_spec(Self::ALPHABET@, input@)) > usize::MAX,
            },
    {
        let mut size: usize = 0;
        let mut position: usize = 0;
        while position < input.len()
            invariant
                position <= input.len(),
                size == utf8_len(encode_spec(Self::ALPHABET@, input@.take(position as int))),
            decreases input.len() - position,
        {
            let symbol = Self::ALPHABET[input[position] as usize];
            proof {
                lemma_encode_prefix(Self::ALPHABET@, input@, position as int);
                lemma_utf8_len_push(
                    encode_spec(Self::ALPHABET@, input@.take(position as int)),
                    symbol,
                );
            }
            match size.checked_add(symbol.len_utf8()) {
                Some(sum) => {
                    size = sum;
                },
                None => {
                    proof {
                        lemma_encode_prefix(Self::ALPHABET@, input@, position + 1);
                        lemma_utf8_len_prefix(
                            encode_spec(Self::ALPHABET@, input@),
                            position + 1,
                        );
                    }
                    return None;
                },
            }
            position = position + 1;
        }
        proof {
            assert(input@.take(position as int) =~= input@);
        }
        Some(size)
    }

    /// Writes each byte of `input` as its symbol. The text has one symbol
    /// for each byte, in the order of the bytes.
    fn encode(&self, input: &Vec<u8>) -> (text: String)
        ensures
            text@ == encode_spec(Self::ALPHABET@, input@),
            text@.len() == input@.len(),
    {
        let mut output = match Self::encoded_len(input) {
            Some(size) => if size <= isize::MAX as usize {
                String::with_capacity(size)
            } else {
                String::new()
            },
            None => String::new(),
        };
        let mut position: usize = 0;
        while position < input.len()
            invariant
                position <= input.len(),
                output@ == encode_spec(Self::ALPHABET@, input@.take(position as int)),
            decreases input.len() - position,
        {
            proof {
                lemma_encode_prefix(Self::ALPHABET@, input@, position as int);
            }
            output.push(Self::ALPHABET[input[position] as usize]);
            position = position + 1;
        }
        proof {
            assert(input@.take(position as int) =~= input@);
        }
        output
    }
}

} // verus!
