//! What this library assumes of the standard library's text functions, and
//! what it proves about the length of UTF-8 text.

use vstd::prelude::*;
use vstd::utf8::{encode_scalar, encode_utf8};

verus! {

/// `String::push` appends one symbol to the end of the text and leaves the
/// symbols before it as they were.
pub assume_specification[ String::push ](text: &mut String, symbol: char)
    ensures
        final(text)@ == old(text)@.push(symbol),
;

/// `String::with_capacity` returns an empty text. Room for `capacity` bytes
/// is set aside; a request for more than `isize::MAX` bytes is left out, as
/// no allocation can be that large.
pub assume_specification[ String::with_capacity ](capacity: usize) -> (text: String)
    requires
        capacity <= isize::MAX,
    ensures
        text@ == Seq::<char>::empty(),
;

/// `char::len_utf8` returns the number of bytes that the symbol takes when
/// it is written in UTF-8.
pub assume_specification[ char::len_utf8 ](symbol: char) -> (width: usize)
    ensures
        width == encode_scalar(symbol as u32).len(),
;

/// Number of bytes that `text` takes in UTF-8.
pub open spec fn utf8_len(text: Seq<char>) -> nat {
    encode_utf8(text).len()
}

/// Appending a symbol adds its width to the length of the text.
pub proof fn lemma_utf8_len_push(text: Seq<char>, symbol: char)
    ensures
        utf8_len(text.push(symbol)) == utf8_len(text) + encode_scalar(symbol as u32).len(),
    decreases text.len(),
{
    let longer = text.push(symbol);
    if text.len() == 0 {
        assert(longer.drop_first() =~= Seq::<char>::empty());
        assert(encode_utf8(longer.drop_first()).len() == 0);
        assert(encode_utf8(text).len() == 0);
    } else {
        assert(longer.drop_first() =~= text.drop_first().push(symbol));
        lemma_utf8_len_push(text.drop_first(), symbol);
    }
}

/// The beginning of a text takes no more bytes than the whole.
pub proof fn lemma_utf8_len_prefix(text: Seq<char>, count: int)
    requires
        0 <= count <= text.len(),
    ensures
        utf8_len(text.take(count)) <= utf8_len(text),
    decreases text.len() - count,
{
    if count < text.len() {
        assert(text.take(count + 1) =~= text.take(count).push(text[count]));
        lemma_utf8_len_push(text.take(count), text[count]);
        lemma_utf8_len_prefix(text, count + 1);
    } else {
        assert(text.take(count) =~= text);
    }
}

} // verus!
