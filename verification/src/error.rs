//! The one way in which decoding fails: a symbol that is not in the alphabet.

use vstd::prelude::*;
use vstd::string::StringExecFns;

verus! {

/// What a [`DecodeError`] reports: the symbol that was not recognised and
/// the number of symbols that stand before it in the text.
pub struct UnrecognizedSymbol {
    pub symbol: char,
    pub position: nat,
}

/// Decoding met a symbol that is not part of the alphabet.
#[derive(Debug, Clone)]
pub struct DecodeError {
    codepoint: char,
    index: usize,
}

impl View for DecodeError {
    type V = UnrecognizedSymbol;

    closed spec fn view(&self) -> UnrecognizedSymbol {
        UnrecognizedSymbol { symbol: self.codepoint, position: self.index as nat }
    }
}

/// The character that writes the digit `digit`.
pub open spec fn digit_symbol(digit: nat) -> char
    recommends
        digit < 10,
{
    (('0' as u8) + digit) as char
}

/// The decimal digits of `number`, the most significant first.
pub open spec fn decimal(number: nat) -> Seq<char>
    decreases number,
{
    if number < 10 {
        seq![digit_symbol(number)]
    } else {
        decimal(number / 10).push(digit_symbol(number % 10))
    }
}

/// The text of the message for `error`: the symbol, where it stands, and
/// that it is not part of the alphabet.
pub open spec fn message_text(error: UnrecognizedSymbol) -> Seq<char> {
    seq![error.symbol] + " at index "@ + decimal(error.position)
        + " is not part of the alphabet"@
}

/// The digit character of a number below ten.
fn digit_char(digit: u8) -> (symbol: char)
    requires
        digit < 10,
    ensures
        symbol == digit_symbol(digit as nat),
{
    (48u8 + digit) as char
}

/// Appends the decimal digits of `number` to `text`.
fn push_decimal(text: &mut String, number: usize)
    ensures
        final(text)@ == old(text)@ + decimal(number as nat),
    decreases number,
{
    if number >= 10 {
        push_decimal(text, number / 10);
    }
    text.push(digit_char((number % 10) as u8));
}

impl DecodeError {
    /// The error for `codepoint`, met after `index` symbols.
    pub fn new(codepoint: char, index: usize) -> (error: DecodeError)
        ensures
            error@ == (UnrecognizedSymbol { symbol: codepoint, position: index as nat }),
    {
        DecodeError { codepoint, index }
    }

    /// The symbol that was not recognised.
    pub fn codepoint(&self) -> (symbol: char)
        ensures
            symbol == self@.symbol,
    {
        self.codepoint
    }

    /// The number of symbols that stand before the offending one.
    pub fn index(&self) -> (position: usize)
        ensures
            position == self@.position,
    {
        self.index
    }

    /// The message that describes this error.
    pub fn message(&self) -> (text: String)
        ensures
            text@ == message_text(self@),
    {
        let mut text = String::new();
        text.push(self.codepoint);
        text.append(" at index ");
        push_decimal(&mut text, self.index);
        text.append(" is not part of the alphabet");
        text
    }
}

} // verus!
