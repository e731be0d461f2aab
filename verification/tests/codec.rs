use thaumiel::codec::SessionToken;

fn token(session_id: &[u8], user_id: u64) -> SessionToken {
    SessionToken { session_id: session_id.to_vec(), user_id }
}

#[test]
fn encode_exact_bytes() {
    let t = token(b"s1", 42);
    let bytes = t.encode().unwrap();
    assert_eq!(bytes, vec![0, 0, 0, 0, 0, 0, 0, 42, 0, 2, 0x73, 0x31]);
}

#[test]
fn encode_max_user_id_exact_bytes() {
    let t = token(b"", u64::MAX);
    let bytes = t.encode().unwrap();
    assert_eq!(bytes, vec![0xff, 0xff, 0xff, 0xff, 0xff, 0xff, 0xff, 0xff, 0, 0]);
}

#[test]
fn round_trip_token() {
    let t = token(b"s1", 42);
    let bytes = t.encode().unwrap();
    let back = SessionToken::decode(&bytes).unwrap();
    assert_eq!(back.session_id, b"s1".to_vec());
    assert_eq!(back.user_id, 42);
}

#[test]
fn round_trip_empty_session_id() {
    let t = token(b"", 0);
    let bytes = t.encode().unwrap();
    let back = SessionToken::decode(&bytes).unwrap();
    assert_eq!(back.session_id, Vec::<u8>::new());
    assert_eq!(back.user_id, 0);
}

#[test]
fn round_trip_largest_session_id() {
    let sid = vec![0xabu8; 65535];
    let t = SessionToken { session_id: sid.clone(), user_id: 7 };
    let bytes = t.encode().unwrap();
    let back = SessionToken::decode(&bytes).unwrap();
    assert_eq!(back.session_id, sid);
    assert_eq!(back.user_id, 7);
}

#[test]
fn round_trip_bytes() {
    let bytes = vec![0, 0, 0, 0, 0, 0, 1, 5, 0, 3, b'a', b'b', b'c'];
    let t = SessionToken::decode(&bytes).unwrap();
    assert_eq!(t.session_id, b"abc".to_vec());
    assert_eq!(t.user_id, 261);
    let re = t.encode().unwrap();
    assert_eq!(re, bytes);
}

#[test]
fn encode_rejects_oversize_session_id() {
    let t = SessionToken { session_id: vec![1u8; 65536], user_id: 1 };
    assert!(t.encode().is_err());
}

#[test]
fn decode_rejects_empty() {
    assert!(SessionToken::decode(&Vec::new()).is_err());
}

#[test]
fn decode_rejects_truncated_header() {
    assert!(SessionToken::decode(&vec![0u8; 9]).is_err());
}

#[test]
fn decode_rejects_truncated_body() {
    // Header claims a 3-byte session identifier; only 2 bytes follow.
    let bytes = vec![0, 0, 0, 0, 0, 0, 0, 42, 0, 3, b'a', b'b'];
    assert!(SessionToken::decode(&bytes).is_err());
}

#[test]
fn decode_rejects_trailing_bytes() {
    // Header claims a 1-byte session identifier; 2 bytes follow.
    let bytes = vec![0, 0, 0, 0, 0, 0, 0, 42, 0, 1, b'a', b'b'];
    assert!(SessionToken::decode(&bytes).is_err());
}

#[test]
fn distinct_tokens_encode_distinctly() {
    let a = token(b"s1", 42).encode().unwrap();
    let b = token(b"s2", 42).encode().unwrap();
    let c = token(b"s1", 43).encode().unwrap();
    assert_ne!(a, b);
    assert_ne!(a, c);
    assert_ne!(b, c);
}
