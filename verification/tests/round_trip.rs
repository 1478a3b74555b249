use base256utf8_rs::{Base, Emoji, EmojiE, EmojiM};

#[test]
fn byte1_rt() {
    let mut org = vec![0u8; 1];
    for i in 0..255 {
        org[0] = i;
        let a = Emoji::default();
        let r = match a.decode(a.encode(&org).as_str()) {
            Ok(x) => x,
            Err(e) => {
                panic!("{}", e.message());
            }
        };
        assert_eq!(org, r)
    }
}

#[test]
fn all_bytes_round_trip_in_every_codec() {
    let bytes: Vec<u8> = (0..=255u8).collect();
    let hashed = Emoji::default();
    let linear = EmojiE::default();
    let matched = EmojiM::default();
    let text = hashed.encode(&bytes);
    assert_eq!(text.chars().count(), 256);
    assert_eq!(linear.encode(&bytes), text);
    assert_eq!(matched.encode(&bytes), text);
    assert_eq!(hashed.decode(&text).unwrap(), bytes);
    assert_eq!(linear.decode(&text).unwrap(), bytes);
    assert_eq!(matched.decode(&text).unwrap(), bytes);
}
