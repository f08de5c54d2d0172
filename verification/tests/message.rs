use filecoin_proofs::api::message::contains_nul;
use filecoin_proofs::api::message::OwnedMessage;

#[test]
fn contains_nul_finds_a_zero_byte_anywhere() {
    assert!(!contains_nul(b""));
    assert!(!contains_nul(b"plain text"));
    assert!(contains_nul(b"\0"));
    assert!(contains_nul(b"\0front"));
    assert!(contains_nul(b"mid\0dle"));
    assert!(contains_nul(b"back\0"));
    assert!(!contains_nul(&[1u8, 255, 128]));
}

#[test]
fn message_holds_the_text_and_one_terminator() {
    let msg = OwnedMessage::new("no piece found").unwrap();
    assert_eq!(msg.as_bytes(), b"no piece found");
    assert_eq!(msg.as_bytes_with_nul(), b"no piece found\0");
    assert_eq!(msg.len_with_nul(), 15);
}

#[test]
fn message_of_the_empty_text_is_the_terminator_alone() {
    let msg = OwnedMessage::new("").unwrap();
    assert_eq!(msg.as_bytes(), b"");
    assert_eq!(msg.as_bytes_with_nul(), &[0u8]);
    assert_eq!(msg.len_with_nul(), 1);
}

#[test]
fn message_holds_the_utf8_encoding_of_its_text() {
    let msg = OwnedMessage::new("é→").unwrap();
    assert_eq!(msg.as_bytes(), &[0xC3u8, 0xA9, 0xE2, 0x86, 0x92]);
    assert_eq!(msg.len_with_nul(), 6);
    assert_eq!(msg.as_bytes_with_nul().last(), Some(&0u8));
}

#[test]
fn message_refuses_a_text_with_a_zero_byte() {
    assert_eq!(OwnedMessage::new("a\0b"), None);
    assert_eq!(OwnedMessage::new("\0"), None);
    assert_eq!(OwnedMessage::new("tail\0"), None);
}

#[test]
fn message_from_bytes_appends_the_terminator() {
    let msg = OwnedMessage::from_bytes(vec![104, 105]).unwrap();
    assert_eq!(msg.as_bytes(), b"hi");
    assert_eq!(msg.into_bytes_with_nul(), vec![104, 105, 0]);
}

#[test]
fn message_from_bytes_refuses_a_zero_byte() {
    assert_eq!(OwnedMessage::from_bytes(vec![104, 0, 105]), None);
    assert_eq!(OwnedMessage::from_bytes(vec![104, 105, 0]), None);
    assert_eq!(OwnedMessage::from_bytes(vec![0]), None);
}

#[test]
fn message_from_no_bytes_is_the_terminator_alone() {
    let msg = OwnedMessage::from_bytes(Vec::new()).unwrap();
    assert_eq!(msg.len_with_nul(), 1);
    assert_eq!(msg.into_bytes_with_nul(), vec![0]);
}

#[test]
fn messages_of_one_text_are_equal_in_content() {
    let a = OwnedMessage::new("same").unwrap();
    let b = OwnedMessage::from_bytes(b"same".to_vec()).unwrap();
    assert_eq!(a, b);
    assert_ne!(a, OwnedMessage::new("other").unwrap());
}

#[test]
fn carrying_keeps_a_text_without_zero_bytes_whole() {
    let msg = OwnedMessage::carrying(b"all of it");
    assert_eq!(msg.as_bytes(), b"all of it");
    assert_eq!(msg.as_bytes_with_nul(), b"all of it\0");
    assert_eq!(msg, OwnedMessage::new("all of it").unwrap());
}

#[test]
fn carrying_stops_at_the_first_zero_byte() {
    assert_eq!(OwnedMessage::carrying(b"mid\0dle").as_bytes(), b"mid");
    assert_eq!(OwnedMessage::carrying(b"two\0zero\0bytes").as_bytes(), b"two");
    assert_eq!(OwnedMessage::carrying(b"tail\0").as_bytes(), b"tail");
    assert_eq!(OwnedMessage::carrying(b"tail\0").len_with_nul(), 5);
}

#[test]
fn carrying_a_text_that_starts_with_a_zero_byte_is_empty() {
    let msg = OwnedMessage::carrying(b"\0front");
    assert_eq!(msg.as_bytes(), b"");
    assert_eq!(msg.as_bytes_with_nul(), &[0u8]);
    assert_eq!(OwnedMessage::carrying(b"\0").len_with_nul(), 1);
    assert_eq!(OwnedMessage::carrying(b"").len_with_nul(), 1);
}
