use message_cipher::envelope::EncryptedMessage;
use message_cipher::error::CipherError;

fn sample(nonce_len: usize, key_len: usize, ciphertext_len: usize) -> EncryptedMessage {
    let nonce: Vec<u8> = (0..nonce_len).map(|i| i as u8).collect();
    let key: Vec<u8> = (0..key_len).map(|i| 0x40 + i as u8).collect();
    let ciphertext: Vec<u8> = (0..ciphertext_len).map(|i| 0x80 + i as u8).collect();
    EncryptedMessage::new(&ciphertext, &nonce, &key)
}

#[test]
fn new_copies_each_field() {
    let message = EncryptedMessage::new(&[7, 8, 9], &[1, 2], &[3, 4, 5, 6]);
    assert_eq!(message.ciphertext, vec![7, 8, 9]);
    assert_eq!(message.nonce, vec![1, 2]);
    assert_eq!(message.ephemeral_public_key, vec![3, 4, 5, 6]);
}

#[test]
fn to_bytes_is_nonce_then_key_then_ciphertext() {
    let message = EncryptedMessage::new(&[7, 8, 9], &[1, 2], &[3, 4, 5, 6]);
    assert_eq!(message.to_bytes(), vec![1, 2, 3, 4, 5, 6, 7, 8, 9]);
}

#[test]
fn to_bytes_of_encrypted_shape_has_all_lengths() {
    let message = sample(12, 33, 16);
    let bytes = message.to_bytes();
    assert_eq!(bytes.len(), 12 + 33 + 16);
    assert_eq!(&bytes[0..12], message.nonce.as_slice());
    assert_eq!(&bytes[12..45], message.ephemeral_public_key.as_slice());
    assert_eq!(&bytes[45..], message.ciphertext.as_slice());
}

#[test]
fn from_bytes_cuts_at_12_and_45() {
    let bytes: Vec<u8> = (0..70).collect();
    let message = EncryptedMessage::from_bytes(&bytes).unwrap();
    assert_eq!(message.nonce, (0..12).collect::<Vec<u8>>());
    assert_eq!(message.ephemeral_public_key, (12..45).collect::<Vec<u8>>());
    assert_eq!(message.ciphertext, (45..70).collect::<Vec<u8>>());
}

#[test]
fn from_bytes_of_the_shortest_buffer_has_a_bare_tag() {
    let bytes: Vec<u8> = (0u8..61).collect();
    let message = EncryptedMessage::from_bytes(&bytes).unwrap();
    assert_eq!(message.nonce, (0u8..12).collect::<Vec<u8>>());
    assert_eq!(message.ephemeral_public_key, (12u8..45).collect::<Vec<u8>>());
    assert_eq!(message.ciphertext, (45u8..61).collect::<Vec<u8>>());
}

#[test]
fn from_bytes_refuses_short_buffers() {
    for len in [0usize, 1, 11, 12, 43] {
        let bytes = vec![0u8; len];
        assert_eq!(EncryptedMessage::from_bytes(&bytes), Err(CipherError::MalformedMessage));
    }
}

#[test]
fn from_bytes_refuses_a_header_without_a_tag() {
    for len in [44usize, 45, 59, 60] {
        let bytes = vec![0u8; len];
        assert_eq!(EncryptedMessage::from_bytes(&bytes), Err(CipherError::MalformedMessage));
    }
}

#[test]
fn from_bytes_accepts_header_and_tag() {
    let bytes = vec![0xabu8; 61];
    let message = EncryptedMessage::from_bytes(&bytes).unwrap();
    assert_eq!(message.nonce.len(), 12);
    assert_eq!(message.ephemeral_public_key.len(), 33);
    assert_eq!(message.ciphertext.len(), 16);
}

#[test]
fn bytes_round_trip() {
    let message = sample(12, 33, 16);
    assert_eq!(EncryptedMessage::from_bytes(&message.to_bytes()), Ok(message.clone()));
    let longer = sample(12, 33, 100);
    assert_eq!(EncryptedMessage::from_bytes(&longer.to_bytes()), Ok(longer.clone()));
}

#[test]
fn bytes_round_trip_of_given_fields() {
    let bytes = EncryptedMessage::new(&[3u8; 16], &[1u8; 12], &[2u8; 33]).to_bytes();
    let read = EncryptedMessage::from_bytes(&bytes).unwrap();
    assert_eq!(read.nonce, vec![1u8; 12]);
    assert_eq!(read.ephemeral_public_key, vec![2u8; 33]);
    assert_eq!(read.ciphertext, vec![3u8; 16]);
}

#[test]
fn bytes_of_other_field_lengths_do_not_round_trip() {
    let narrow = sample(12, 32, 17);
    let read = EncryptedMessage::from_bytes(&narrow.to_bytes()).unwrap();
    assert_ne!(read, narrow);
    assert_eq!(read.to_bytes(), narrow.to_bytes());
    assert_eq!(read.ephemeral_public_key.len(), 33);
    assert_eq!(read.ciphertext.len(), 16);
}

#[test]
fn to_bytes_after_from_bytes_is_the_buffer() {
    let bytes: Vec<u8> = (0..=200).collect();
    let message = EncryptedMessage::from_bytes(&bytes).unwrap();
    assert_eq!(message.to_bytes(), bytes);
}

#[test]
fn to_hex_is_lowercase_two_digits_a_byte() {
    let message = EncryptedMessage::new(&[0xfe, 0x0f], &[0x00, 0xab], &[0x10, 0x9c]);
    assert_eq!(message.to_hex(), "00ab109cfe0f");
}

#[test]
fn to_hex_of_no_bytes_is_empty() {
    let message = EncryptedMessage::new(&[], &[], &[]);
    assert_eq!(message.to_hex(), "");
}

#[test]
fn from_hex_reads_both_cases() {
    let lower = "ab".repeat(61);
    let upper = "AB".repeat(61);
    let mixed = "aB".repeat(61);
    let expected = EncryptedMessage::from_bytes(&[0xab; 61]).unwrap();
    assert_eq!(EncryptedMessage::from_hex(&lower), Ok(expected.clone()));
    assert_eq!(EncryptedMessage::from_hex(&upper), Ok(expected.clone()));
    assert_eq!(EncryptedMessage::from_hex(&mixed), Ok(expected));
}

#[test]
fn from_hex_reads_each_digit() {
    let mut text = String::from("0123456789abcdefABCDEF00");
    text.push_str(&"00".repeat(49));
    let message = EncryptedMessage::from_hex(&text).unwrap();
    assert_eq!(
        message.nonce,
        vec![0x01, 0x23, 0x45, 0x67, 0x89, 0xab, 0xcd, 0xef, 0xab, 0xcd, 0xef, 0x00]
    );
}

#[test]
fn from_hex_refuses_what_is_not_hex() {
    let mut text = "00".repeat(61);
    text.replace_range(10..11, "g");
    assert_eq!(EncryptedMessage::from_hex(&text), Err(CipherError::InvalidEncoding));
    assert_eq!(EncryptedMessage::from_hex("zz"), Err(CipherError::InvalidEncoding));
    assert_eq!(EncryptedMessage::from_hex("0x00"), Err(CipherError::InvalidEncoding));
    let spaced = format!(" {}", "00".repeat(61));
    assert_eq!(EncryptedMessage::from_hex(&spaced), Err(CipherError::InvalidEncoding));
}

#[test]
fn from_hex_refuses_an_odd_number_of_digits() {
    let text = "0".repeat(123);
    assert_eq!(EncryptedMessage::from_hex(&text), Err(CipherError::InvalidEncoding));
}

#[test]
fn from_hex_refuses_text_beyond_ascii() {
    assert_eq!(EncryptedMessage::from_hex("é"), Err(CipherError::InvalidEncoding));
    assert_eq!(EncryptedMessage::from_hex("00é0"), Err(CipherError::InvalidEncoding));
}

#[test]
fn from_hex_refuses_short_buffers() {
    assert_eq!(EncryptedMessage::from_hex(""), Err(CipherError::MalformedMessage));
    assert_eq!(EncryptedMessage::from_hex(&"00".repeat(43)), Err(CipherError::MalformedMessage));
    assert_eq!(EncryptedMessage::from_hex(&"00".repeat(59)), Err(CipherError::MalformedMessage));
    assert_eq!(EncryptedMessage::from_hex(&"00".repeat(60)), Err(CipherError::MalformedMessage));
}

#[test]
fn hex_round_trip() {
    let message = sample(12, 33, 40);
    assert_eq!(EncryptedMessage::from_hex(&message.to_hex()), Ok(message.clone()));
    let shortest = sample(12, 33, 16);
    assert_eq!(EncryptedMessage::from_hex(&shortest.to_hex()), Ok(shortest.clone()));
}

#[test]
fn hex_round_trip_of_given_fields() {
    let text = EncryptedMessage::new(&[0xefu8; 16], &[0xabu8; 12], &[0xcdu8; 33]).to_hex();
    assert_eq!(text, format!("{}{}{}", "ab".repeat(12), "cd".repeat(33), "ef".repeat(16)));
    let read = EncryptedMessage::from_hex(&text).unwrap();
    assert_eq!(read.nonce, vec![0xabu8; 12]);
    assert_eq!(read.ephemeral_public_key, vec![0xcdu8; 33]);
    assert_eq!(read.ciphertext, vec![0xefu8; 16]);
}

#[test]
fn hex_reads_what_bytes_read() {
    let message = sample(12, 33, 20);
    assert_eq!(
        EncryptedMessage::from_hex(&message.to_hex()),
        EncryptedMessage::from_bytes(&message.to_bytes())
    );
    let short = sample(3, 4, 5);
    assert_eq!(
        EncryptedMessage::from_hex(&short.to_hex()),
        EncryptedMessage::from_bytes(&short.to_bytes())
    );
}
