use std::io::Read;

use secret_manifest::base64::base64;
use secret_manifest::error::SecretError;

fn encode(bytes: &[u8]) -> String {
    base64(&Ok(bytes.to_vec())).expect("bytes always encode")
}

fn decode(text: &str) -> Vec<u8> {
    let mut reader = base64_stream::FromBase64Reader::new(text.as_bytes());
    let mut bytes = Vec::new();
    reader.read_to_end(&mut bytes).expect("valid base64");
    bytes
}

#[test]
fn base64_of_nothing_is_empty() {
    assert_eq!(encode(b""), "");
}

#[test]
fn base64_of_one_byte_is_padded_twice() {
    assert_eq!(encode(b"f"), "Zg==");
}

#[test]
fn base64_of_two_bytes_is_padded_once() {
    assert_eq!(encode(b"fo"), "Zm8=");
}

#[test]
fn base64_of_three_bytes_has_no_padding() {
    assert_eq!(encode(b"foo"), "Zm9v");
}

#[test]
fn base64_of_longer_texts() {
    assert_eq!(encode(b"foob"), "Zm9vYg==");
    assert_eq!(encode(b"fooba"), "Zm9vYmE=");
    assert_eq!(encode(b"foobar"), "Zm9vYmFy");
    assert_eq!(encode(b"{\"a\":1}"), "eyJhIjoxfQ==");
}

#[test]
fn base64_uses_the_last_characters_of_the_alphabet() {
    assert_eq!(encode(&[0xff, 0xfe, 0xfd]), "//79");
    assert_eq!(encode(&[251, 255]), "+/8=");
    assert_eq!(encode(&[0, 0, 0]), "AAAA");
}

#[test]
fn base64_differs_from_its_input() {
    let text = encode(b"Zm9v");
    assert_ne!(text, "Zm9v");
    assert_eq!(text, "Wm05dg==");
}

#[test]
fn base64_round_trip_of_an_empty_file() {
    assert_eq!(decode(&encode(&[])), Vec::<u8>::new());
}

#[test]
fn base64_round_trip_of_every_byte_value() {
    let bytes: Vec<u8> = (0..=255u8).collect();
    assert_eq!(decode(&encode(&bytes)), bytes);
}

#[test]
fn base64_round_trip_of_every_short_length() {
    for length in 0..=64usize {
        let bytes: Vec<u8> = (0..length).map(|i| (i * 37 + 11) as u8).collect();
        let text = encode(&bytes);
        assert_eq!(text.len(), 4 * ((length + 2) / 3));
        assert_eq!(decode(&text), bytes);
    }
}

#[test]
fn base64_round_trip_of_a_payload_larger_than_the_reader_buffer() {
    let bytes: Vec<u8> = (0..10_000usize).map(|i| (i % 251) as u8).collect();
    assert_eq!(decode(&encode(&bytes)), bytes);
}

#[test]
fn base64_of_a_failed_read_is_an_io_error() {
    let read: Result<Vec<u8>, String> = Err(String::from("No such file or directory"));
    assert_eq!(
        base64(&read),
        Err(SecretError::IoError(String::from("No such file or directory")))
    );
}
