use base256utf8_rs::alphabet::scan;
use base256utf8_rs::emoji::EMOJI;
use base256utf8_rs::{Alphabet, Base};

/// A codec whose alphabet starts with the letters A and B and goes on as
/// the emoji alphabet does.
#[derive(Debug, Default)]
struct Letters;

impl Base for Letters {
    const ALPHABET: Alphabet = {
        let mut table = EMOJI;
        table[0] = 'A';
        table[1] = 'B';
        table
    };

    fn get_index(&self, c: char) -> Option<u8> {
        scan(&Self::ALPHABET, c)
    }
}

#[test]
fn letters_encode() {
    let codec = Letters::default();
    assert_eq!(codec.encode(&vec![1, 0, 1]), "BAB");
}

#[test]
fn letters_decode() {
    let codec = Letters::default();
    assert_eq!(codec.decode("BAB").unwrap(), vec![1, 0, 1]);
}

#[test]
fn letters_refuse_foreign_symbol() {
    let codec = Letters::default();
    let error = codec.decode("BXB").unwrap_err();
    assert_eq!(error.codepoint(), 'X');
    assert_eq!(error.index(), 1);
}

#[test]
fn letters_encoded_len_counts_bytes() {
    // A and B take one byte each, the symbol of byte 2 takes three.
    assert_eq!(Letters::encoded_len(&vec![0, 1, 2]), Some(5));
    assert_eq!(Letters::encoded_len(&vec![]), Some(0));
}
