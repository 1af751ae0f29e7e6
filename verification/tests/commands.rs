use desktop_backend::codec::decode_bytes;
use desktop_backend::codec::encode_bytes;
use desktop_backend::codec::encode_read_outcome;
use desktop_backend::codec::encode_then_decode;
use desktop_backend::greeting::greet;

#[test]
fn greeting_matches_template() {
    assert_eq!(greet("Ada"), "Hello, Ada! You've been greeted from Rust!");
}

#[test]
fn greeting_of_empty_name() {
    assert_eq!(greet(""), "Hello, ! You've been greeted from Rust!");
}

#[test]
fn greeting_contains_name() {
    let name = "Grace Hopper";
    assert!(greet(name).contains(name));
}

#[test]
fn encoding_known_bytes() {
    let bytes: Vec<u8> = b"hello world".to_vec();
    assert_eq!(encode_bytes(&bytes), "aGVsbG8gd29ybGQ=");
}

#[test]
fn encoding_single_byte() {
    assert_eq!(encode_bytes(&vec![0u8]), "AA==");
}

#[test]
fn encoding_round_trips_through_library() {
    let bytes: Vec<u8> = vec![0, 1, 2, 250, 251, 252, 253, 254, 255];
    let encoded = encode_bytes(&bytes);
    assert_eq!(decode_bytes(&encoded), Some(bytes));
}

#[test]
fn encoding_round_trips_through_standard_decoder() {
    let bytes: Vec<u8> = b"arbitrary binary \x00\x01\xfe\xff payload".to_vec();
    let encoded = encode_bytes(&bytes);
    assert_eq!(base64::decode(&encoded), Ok(bytes));
}

#[test]
fn round_trip_helper_returns_input() {
    let bytes: Vec<u8> = vec![42, 0, 17];
    assert_eq!(encode_then_decode(&bytes), Some(bytes));
}

#[test]
fn encoding_is_deterministic() {
    let bytes: Vec<u8> = b"the same input".to_vec();
    assert_eq!(encode_bytes(&bytes), encode_bytes(&bytes));
}

#[test]
fn empty_content_encodes_to_empty_string() {
    assert_eq!(encode_bytes(&Vec::new()), "");
}

#[test]
fn empty_content_round_trips() {
    assert_eq!(decode_bytes(""), Some(Vec::new()));
    assert_eq!(encode_then_decode(&Vec::new()), Some(Vec::new()));
}

#[test]
fn invalid_encoding_decodes_to_none() {
    assert_eq!(decode_bytes("%%%"), None);
}

#[test]
fn successful_read_is_encoded() {
    let read: Result<Vec<u8>, String> = Ok(b"hello world".to_vec());
    assert_eq!(encode_read_outcome(read), Ok("aGVsbG8gd29ybGQ=".to_string()));
}

#[test]
fn failed_read_keeps_its_message() {
    let message = "No such file or directory (os error 2)";
    let read: Result<Vec<u8>, String> = Err(message.to_string());
    let reply = encode_read_outcome(read);
    assert_eq!(reply, Err(message.to_string()));
    assert!(!reply.unwrap_err().is_empty());
}
