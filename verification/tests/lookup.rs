use base256utf8_rs::alphabet::scan;
use base256utf8_rs::emoji::{match_symbol, EMOJI};
use base256utf8_rs::symbol_index::SymbolIndex;
use base256utf8_rs::{Base, Emoji, EmojiE, EmojiM};

#[test]
fn every_codec_inverts_every_symbol() {
    let hashed = Emoji::default();
    let linear = EmojiE::default();
    let matched = EmojiM::default();
    for byte in 0..=255u8 {
        let symbol = EMOJI[byte as usize];
        assert_eq!(hashed.get_index(symbol), Some(byte));
        assert_eq!(linear.get_index(symbol), Some(byte));
        assert_eq!(matched.get_index(symbol), Some(byte));
    }
}

#[test]
fn every_codec_has_the_emoji_alphabet() {
    assert_eq!(Emoji::ALPHABET, EMOJI);
    assert_eq!(EmojiE::ALPHABET, EMOJI);
    assert_eq!(EmojiM::ALPHABET, EMOJI);
    assert_eq!(EMOJI[0], '🚀');
    assert_eq!(EMOJI[1], '🪐');
    assert_eq!(EMOJI[255], '🥂');
}

#[test]
fn foreign_symbols_are_not_found() {
    let hashed = Emoji::default();
    let linear = EmojiE::default();
    let matched = EmojiM::default();
    for symbol in ['a', 'X', ' ', '\0', '\u{10FFFF}', '🦀'] {
        assert_eq!(hashed.get_index(symbol), None);
        assert_eq!(linear.get_index(symbol), None);
        assert_eq!(matched.get_index(symbol), None);
    }
}

#[test]
fn scan_finds_first_and_last_entry() {
    assert_eq!(scan(&EMOJI, '🚀'), Some(0));
    assert_eq!(scan(&EMOJI, '🥂'), Some(255));
    assert_eq!(scan(&EMOJI, 'z'), None);
}

#[test]
fn scan_returns_first_of_repeated_symbol() {
    let mut table = EMOJI;
    table[9] = table[4];
    assert_eq!(scan(&table, EMOJI[4]), Some(4));
    assert_eq!(scan(&table, EMOJI[9]), None);
}

#[test]
fn match_symbol_agrees_with_scan() {
    for byte in 0..=255u8 {
        assert_eq!(match_symbol(EMOJI[byte as usize]), Some(byte));
    }
    for code in 0..0x3000u32 {
        if let Some(symbol) = char::from_u32(code) {
            assert_eq!(match_symbol(symbol), scan(&EMOJI, symbol));
        }
    }
}

#[test]
fn index_of_alphabet_holds_each_symbol() {
    let index = SymbolIndex::build(&EMOJI).unwrap();
    for byte in 0..=255u8 {
        assert_eq!(index.get(EMOJI[byte as usize]), Some(byte));
    }
    assert_eq!(index.get('q'), None);
}

#[test]
fn index_is_refused_for_repeated_symbol() {
    let mut table = EMOJI;
    table[200] = table[3];
    assert!(SymbolIndex::build(&table).is_none());
    let mut table = EMOJI;
    table[1] = table[0];
    assert!(SymbolIndex::build(&table).is_none());
    let mut table = EMOJI;
    table[255] = table[254];
    assert!(SymbolIndex::build(&table).is_none());
}

#[test]
fn index_of_changed_alphabet_follows_the_change() {
    let mut table = EMOJI;
    table[7] = 'Q';
    let index = SymbolIndex::build(&table).unwrap();
    assert_eq!(index.get('Q'), Some(7));
    assert_eq!(index.get(EMOJI[7]), None);
    assert_eq!(index.get(EMOJI[8]), Some(8));
}
