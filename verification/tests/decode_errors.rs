use base256utf8_rs::emoji::EMOJI;
use base256utf8_rs::{Base, DecodeError, Emoji, EmojiE, EmojiM};

fn text_with_foreign(length: usize, position: usize, foreign: char) -> String {
    let mut text = String::new();
    for i in 0..length {
        if i == position {
            text.push(foreign);
        } else {
            text.push(EMOJI[(i * 7) % 256]);
        }
    }
    text
}

#[test]
fn failure_is_at_the_foreign_symbol() {
    let hashed = Emoji::default();
    let linear = EmojiE::default();
    let matched = EmojiM::default();
    for (length, position) in [(1, 0), (2, 1), (5, 0), (5, 2), (5, 4), (300, 299), (1000, 123)] {
        let text = text_with_foreign(length, position, 'x');
        for error in [
            hashed.decode(&text).unwrap_err(),
            linear.decode(&text).unwrap_err(),
            matched.decode(&text).unwrap_err(),
        ] {
            assert_eq!(error.index(), position);
            assert_eq!(error.codepoint(), 'x');
        }
    }
}

#[test]
fn failure_is_at_the_first_of_two_foreign_symbols() {
    let mut text = text_with_foreign(10, 6, 'p');
    text.push('q');
    let error = EmojiE::default().decode(&text).unwrap_err();
    assert_eq!(error.index(), 6);
    assert_eq!(error.codepoint(), 'p');
}

#[test]
fn position_counts_symbols_not_bytes() {
    // Two symbols of four bytes each stand before the letter.
    let error = EmojiM::default().decode("🚀🪐a").unwrap_err();
    assert_eq!(error.index(), 2);
    assert_eq!(error.codepoint(), 'a');
}

#[test]
fn codecs_agree_on_valid_and_invalid_text() {
    let hashed = Emoji::default();
    let linear = EmojiE::default();
    let matched = EmojiM::default();
    for text in ["", "🚀", "🥂🚀☄", "🚀 🚀", "abc", "☄☄☄☄x", "\u{FE0F}"] {
        let a = hashed.decode(text);
        let b = linear.decode(text);
        let c = matched.decode(text);
        match (a, b, c) {
            (Ok(x), Ok(y), Ok(z)) => {
                assert_eq!(x, y);
                assert_eq!(y, z);
            }
            (Err(x), Err(y), Err(z)) => {
                assert_eq!((x.codepoint(), x.index()), (y.codepoint(), y.index()));
                assert_eq!((y.codepoint(), y.index()), (z.codepoint(), z.index()));
            }
            _ => panic!("the codecs disagree on {:?}", text),
        }
    }
}

#[test]
fn message_names_symbol_and_position() {
    let error = EmojiE::default().decode("🚀X🚀").unwrap_err();
    assert_eq!(error.message(), "X at index 1 is not part of the alphabet");
}

#[test]
fn message_writes_the_position_in_decimal() {
    for index in [0, 7, 9, 10, 11, 99, 100, 101, 1009, 65535, 4294967295, usize::MAX] {
        let error = DecodeError::new('é', index);
        assert_eq!(error.message(), format!("é at index {} is not part of the alphabet", index));
    }
}

#[test]
fn error_keeps_what_it_was_made_with() {
    let error = DecodeError::new('𝄞', 42);
    assert_eq!(error.codepoint(), '𝄞');
    assert_eq!(error.index(), 42);
    let copy = error.clone();
    assert_eq!(copy.codepoint(), '𝄞');
    assert_eq!(copy.index(), 42);
    assert_eq!(format!("{:?}", copy), format!("{:?}", error));
}
