use base256utf8_rs::emoji::EMOJI;
use base256utf8_rs::{Base, Emoji, EmojiE, EmojiM};

#[test]
fn empty_input_gives_empty_output() {
    assert_eq!(Emoji::default().encode(&vec![]), "");
    assert_eq!(EmojiE::default().encode(&vec![]), "");
    assert_eq!(EmojiM::default().encode(&vec![]), "");
    assert_eq!(Emoji::default().decode("").unwrap(), Vec::<u8>::new());
    assert_eq!(EmojiE::default().decode("").unwrap(), Vec::<u8>::new());
    assert_eq!(EmojiM::default().decode("").unwrap(), Vec::<u8>::new());
}

#[test]
fn encode_writes_the_symbol_of_each_byte() {
    assert_eq!(EmojiE::default().encode(&vec![0, 1, 2]), "🚀🪐☄");
    assert_eq!(Emoji::default().encode(&vec![255, 0, 255]), "🥂🚀🥂");
    assert_eq!(EmojiM::default().encode(&vec![2, 2]), "☄☄");
}

#[test]
fn decode_reads_the_byte_of_each_symbol() {
    assert_eq!(Emoji::default().decode("🚀🪐☄").unwrap(), vec![0, 1, 2]);
    assert_eq!(EmojiE::default().decode("🥂🚀🥂").unwrap(), vec![255, 0, 255]);
    assert_eq!(EmojiM::default().decode("☄☄").unwrap(), vec![2, 2]);
}

#[test]
fn one_symbol_for_each_byte() {
    for length in [0usize, 1, 2, 17, 256, 1000] {
        let bytes: Vec<u8> = (0..length).map(|i| (i * 31 % 256) as u8).collect();
        let text = EmojiE::default().encode(&bytes);
        assert_eq!(text.chars().count(), length);
        assert_eq!(Emoji::default().decode(&text).unwrap().len(), length);
    }
}

#[test]
fn round_trip_of_mixed_bytes() {
    let bytes: Vec<u8> = (0..2000usize).map(|i| (i * i % 251) as u8).collect();
    for text in [
        Emoji::default().encode(&bytes),
        EmojiE::default().encode(&bytes),
        EmojiM::default().encode(&bytes),
    ] {
        assert_eq!(Emoji::default().decode(&text).unwrap(), bytes);
        assert_eq!(EmojiE::default().decode(&text).unwrap(), bytes);
        assert_eq!(EmojiM::default().decode(&text).unwrap(), bytes);
    }
}

#[test]
fn encoded_len_is_the_length_in_bytes() {
    // The rocket takes four bytes in UTF-8, the comet three.
    assert_eq!(Emoji::encoded_len(&vec![0]), Some(4));
    assert_eq!(Emoji::encoded_len(&vec![2]), Some(3));
    assert_eq!(EmojiE::encoded_len(&vec![0, 2, 0]), Some(11));
    assert_eq!(EmojiM::encoded_len(&vec![]), Some(0));
    let bytes: Vec<u8> = (0..=255u8).collect();
    let text = EmojiM::default().encode(&bytes);
    assert_eq!(EmojiM::encoded_len(&bytes), Some(text.len()));
    let widths: usize = EMOJI.iter().map(|symbol| symbol.len_utf8()).sum();
    assert_eq!(text.len(), widths);
}
