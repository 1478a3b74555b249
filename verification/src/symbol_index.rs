//! The hash table that the hashing codec looks symbols up in.
//!
//! The table is a fixed-capacity map of the `heapless` crate. Verus does not
//! look inside it: this module names what the map holds and states, for the
//! three methods that are called, what each does to that content. The table
//! is built from an alphabet by verified code against those statements.

use vstd::prelude::*;
use heapless::FnvIndexMap;
use crate::alphabet::{differ, inverse, lemma_reverse_lookup, pairwise_distinct, reverse_lookup, Alphabet, ALPHABET_LEN};

verus! {

/// `heapless::IndexMap`, the fixed-capacity hash map. Nothing is known of a
/// value of it but what the functions below state.
#[verifier::external_type_specification]
#[verifier::external_body]
#[verifier::reject_recursive_types(K)]
#[verifier::reject_recursive_types(V)]
#[verifier::reject_recursive_types(S)]
pub struct ExIndexMap<K, V, S, const N: usize>(heapless::IndexMap<K, V, S, N>);

/// `hash32::BuildHasherDefault`, which makes the hasher of the map. Only
/// named, as a part of the map's type.
#[verifier::external_type_specification]
#[verifier::external_body]
#[verifier::reject_recursive_types(H)]
pub struct ExBuildHasherDefault<H>(hash32::BuildHasherDefault<H>);

/// `hash32::FnvHasher`, the hasher of the map. Only named, as a part of the
/// map's type.
#[verifier::external_type_specification]
#[verifier::external_body]
pub struct ExFnvHasher(hash32::FnvHasher);

/// The symbols that a table holds, each with the byte stored for it.
pub uninterp spec fn table_entries(table: FnvIndexMap<char, u8, 256>) -> Map<char, u8>;

/// `FnvIndexMap::new` makes a table that holds nothing.
#[verifier::external_body]
fn table_new() -> (table: FnvIndexMap<char, u8, 256>)
    ensures
        table_entries(table).dom().finite(),
        table_entries(table).len() == 0,
{
    FnvIndexMap::new()
}

/// `IndexMap::insert` stores `byte` for `symbol`. A symbol that the table
/// already holds keeps its place and has its byte replaced; the byte that
/// was there is returned. A new symbol is added unless the table is full,
/// that is, unless it holds 256 symbols: then the pair is handed back and
/// the table stays as it was.
#[verifier::external_body]
fn table_insert(table: &mut FnvIndexMap<char, u8, 256>, symbol: char, byte: u8) -> (outcome: Result<
    Option<u8>,
    (char, u8),
>)
    ensures
        table_entries(*final(table)).dom().finite(),
        match outcome {
            Ok(None) => !table_entries(*old(table)).contains_key(symbol) && table_entries(
                *final(table),
            ) == table_entries(*old(table)).insert(symbol, byte),
            Ok(Some(previous)) => table_entries(*old(table)).contains_key(symbol)
                && table_entries(*old(table))[symbol] == previous && table_entries(*final(table))
                == table_entries(*old(table)).insert(symbol, byte),
            Err(refused) => refused == (symbol, byte) && !table_entries(*old(table)).contains_key(
                symbol,
            ) && table_entries(*old(table)).len() == 256 && table_entries(*final(table))
                == table_entries(*old(table)),
        },
{
    table.insert(symbol, byte)
}

/// `IndexMap::get` finds the byte stored for `symbol`, if the table holds
/// the symbol.
#[verifier::external_body]
fn table_get(table: &FnvIndexMap<char, u8, 256>, symbol: char) -> (found: Option<u8>)
    ensures
        found == (if table_entries(*table).contains_key(symbol) {
            Some(table_entries(*table)[symbol])
        } else {
            None
        }),
{
    table.get(&symbol).copied()
}

/// The symbols of an alphabet, each with the byte it stands for, held in a
/// hash table.
#[derive(Debug)]
pub struct SymbolIndex {
    table: FnvIndexMap<char, u8, 256>,
}

impl View for SymbolIndex {
    type V = Map<char, u8>;

    closed spec fn view(&self) -> Map<char, u8> {
        table_entries(self.table)
    }
}

impl SymbolIndex {
    /// Builds the index of `alphabet`, entering its symbols in the order of
    /// their byte values. A symbol that occurs a second time stops the
    /// construction: there is no index of a table that is not an alphabet.
    pub fn build(alphabet: &Alphabet) -> (built: Option<SymbolIndex>)
        ensures
            built is Some <==> pairwise_distinct(alphabet@),
            built matches Some(index) ==> index@ == inverse(alphabet@),
    {
        let mut table = table_new();
        let mut position: usize = 0;
        while position < ALPHABET_LEN
            invariant
                position <= ALPHABET_LEN,
                table_entries(table).dom().finite(),
                table_entries(table).len() == position,
                forall|symbol: char|
                    table_entries(table).contains_key(symbol) ==> exists|j: int|
                        0 <= j < position && alphabet@[j] == symbol,
                forall|j: int|
                    0 <= j < position ==> table_entries(table).contains_key(#[trigger] alphabet@[j])
                        && table_entries(table)[alphabet@[j]] == j,
                forall|i: int, j: int| 0 <= i < j < position ==> #[trigger] differ(alphabet@, i, j),
            decreases ALPHABET_LEN - position,
        {
            let symbol = alphabet[position];
            let ghost before = table_entries(table);
            match table_insert(&mut table, symbol, position as u8) {
                Ok(None) => {
                    proof {
                        assert forall|i: int, j: int| 0 <= i < j < position + 1 implies #[trigger] differ(
                            alphabet@,
                            i,
                            j,
                        ) by {
                            if j == position {
                                assert(before.contains_key(alphabet@[i]));
                            }
                        }
                        assert forall|other: char| table_entries(table).contains_key(other) implies exists|
                            j: int,
                        |
                            0 <= j < position + 1 && alphabet@[j] == other by {
                            if other == symbol {
                                assert(alphabet@[position as int] == other);
                            } else {
                                assert(before.contains_key(other));
                                let j = choose|j: int| 0 <= j < position && alphabet@[j] == other;
                                assert(0 <= j < position + 1 && alphabet@[j] == other);
                            }
                        }
                    }
                },
                _ => {
                    proof {
                        assert(before.contains_key(symbol));
                        let j = choose|j: int| 0 <= j < position && alphabet@[j] == symbol;
                        assert(!differ(alphabet@, j, position as int));
                    }
                    return None;
                },
            }
            position = position + 1;
        }
        proof {
            assert(pairwise_distinct(alphabet@));
            assert forall|symbol: char| alphabet@.contains(symbol) implies table_entries(
                table,
            ).contains_key(symbol) && reverse_lookup(alphabet@, symbol) == Some(
                table_entries(table)[symbol],
            ) by {
                lemma_reverse_lookup(alphabet@, symbol);
                let byte = reverse_lookup(alphabet@, symbol)->0;
                assert(alphabet@[byte as int] == symbol);
            }
            assert(table_entries(table) =~= inverse(alphabet@));
        }
        Some(SymbolIndex { table })
    }

    /// The byte that `symbol` stands for, if the index holds the symbol.
    pub fn get(&self, symbol: char) -> (found: Option<u8>)
        ensures
            found == (if self@.contains_key(symbol) {
                Some(self@[symbol])
            } else {
                None
            }),
    {
        table_get(&self.table, symbol)
    }
}

} // verus!
