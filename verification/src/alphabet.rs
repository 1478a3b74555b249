//! Alphabets: tables of 256 symbols, one per byte value.
//!
//! A table is read forwards by indexing it with a byte, and backwards by
//! asking at which position a symbol stands. The functions in this module
//! describe the backward direction for any table, and say what makes a table
//! an alphabet: that no symbol stands at two positions.

use vstd::prelude::*;

verus! {

/// A table of symbols. The index is the byte value, the entry its symbol.
pub type Alphabet = [char; 256];

/// Number of symbols in an alphabet.
pub const ALPHABET_LEN: usize = 256;

/// The entries of `table` at positions `i` and `j` are different symbols.
pub open spec fn differ(table: Seq<char>, i: int, j: int) -> bool {
    table[i] != table[j]
}

/// No symbol stands at two positions of `table`.
pub open spec fn pairwise_distinct(table: Seq<char>) -> bool {
    forall|i: int, j: int| 0 <= i < j < table.len() ==> #[trigger] differ(table, i, j)
}

/// A table is an alphabet when it has one symbol for each byte value and no
/// symbol stands for two of them.
pub open spec fn is_alphabet(table: Seq<char>) -> bool {
    &&& table.len() == ALPHABET_LEN
    &&& pairwise_distinct(table)
}

/// The byte value that `symbol` stands for in `table`: the first position
/// at which it occurs, or `None` when it occurs nowhere.
pub open spec fn reverse_lookup(table: Seq<char>, symbol: char) -> Option<u8>
    recommends
        table.len() <= ALPHABET_LEN,
{
    match table.index_of_first(symbol) {
        Some(position) => Some(position as u8),
        None => None,
    }
}

/// The table read backwards: each symbol that occurs, with its byte value.
pub open spec fn inverse(table: Seq<char>) -> Map<char, u8>
    recommends
        table.len() <= ALPHABET_LEN,
{
    Map::new(|symbol: char| table.contains(symbol), |symbol: char| reverse_lookup(table, symbol)->0)
}

/// A symbol found at `position`, with no earlier occurrence, is looked up
/// as `position`.
pub proof fn lemma_first_occurrence(table: Seq<char>, symbol: char, position: int)
    requires
        0 <= position < table.len(),
        table[position] == symbol,
        forall|j: int| 0 <= j < position ==> table[j] != symbol,
    ensures
        table.index_of_first(symbol) == Some(position),
{
    assert(table.contains(symbol));
    table.index_of_first_ensures(symbol);
}

/// A symbol that differs from every entry is looked up as `None`.
pub proof fn lemma_no_occurrence(table: Seq<char>, symbol: char)
    requires
        forall|j: int| 0 <= j < table.len() ==> table[j] != symbol,
    ensures
        table.index_of_first(symbol) is None,
        reverse_lookup(table, symbol) is None,
{
    table.index_of_first_ensures(symbol);
}

/// What a lookup result says about the table.
pub proof fn lemma_reverse_lookup(table: Seq<char>, symbol: char)
    requires
        table.len() <= ALPHABET_LEN,
    ensures
        match reverse_lookup(table, symbol) {
            Some(byte) => {
                &&& byte < table.len()
                &&& table[byte as int] == symbol
                &&& forall|j: int| 0 <= j < byte ==> table[j] != symbol
            },
            None => forall|j: int| 0 <= j < table.len() ==> table[j] != symbol,
        },
        reverse_lookup(table, symbol) is Some <==> table.contains(symbol),
{
    table.index_of_first_ensures(symbol);
}

/// In a table without repeated symbols, the symbol at a position is looked
/// up as that position.
pub proof fn lemma_lookup_of_entry(table: Seq<char>, byte: u8)
    requires
        pairwise_distinct(table),
        byte < table.len(),
    ensures
        reverse_lookup(table, table[byte as int]) == Some(byte),
{
    assert forall|j: int| 0 <= j < byte implies table[j] != table[byte as int] by {
        assert(differ(table, j, byte as int));
    }
    lemma_first_occurrence(table, table[byte as int], byte as int);
}

/// Looks `symbol` up in `table` by reading the entries in order.
pub fn scan(table: &Alphabet, symbol: char) -> (found: Option<u8>)
    ensures
        found == reverse_lookup(table@, symbol),
{
    let mut position: usize = 0;
    while position < ALPHABET_LEN
        invariant
            position <= ALPHABET_LEN,
            forall|j: int| 0 <= j < position ==> table@[j] != symbol,
        decreases ALPHABET_LEN - position,
    {
        if table[position] == symbol {
            proof {
                lemma_first_occurrence(table@, symbol, position as int);
            }
            return Some(position as u8);
        }
        position = position + 1;
    }
    proof {
        lemma_no_occurrence(table@, symbol);
    }
    None
}

} // verus!
