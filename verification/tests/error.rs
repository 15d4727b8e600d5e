use anylist_rs::AnyListError;

#[test]
fn errors_print_with_their_prefix() {
    let cases = vec![
        (AnyListError::AuthenticationFailed("a".to_string()), "Authentication failed: a"),
        (AnyListError::NetworkError("b".to_string()), "Network error: b"),
        (AnyListError::InvalidResponse("c".to_string()), "Invalid response: c"),
        (AnyListError::NotFound("d".to_string()), "Not found: d"),
        (AnyListError::PermissionDenied("e".to_string()), "Permission denied: e"),
        (AnyListError::ProtobufError("f".to_string()), "Protobuf error: f"),
        (AnyListError::Other("".to_string()), "Error: "),
    ];
    for (error, expected) in cases {
        assert_eq!(error.to_string(), expected);
    }
}

#[test]
fn decode_errors_become_protobuf_errors() {
    let message: Result<Vec<u8>, prost::DecodeError> = prost::Message::decode(&[0xffu8][..]);
    let error = AnyListError::from(message.unwrap_err());
    match error {
        AnyListError::ProtobufError(msg) => assert!(!msg.is_empty()),
        other => panic!("unexpected: {:?}", other),
    }
}

#[test]
fn encode_errors_become_protobuf_errors() {
    let mut full: &mut [u8] = &mut [];
    let failure = prost::Message::encode(&vec![1u8, 2, 3], &mut full).unwrap_err();
    match AnyListError::encode_failed(&failure) {
        AnyListError::ProtobufError(msg) => {
            assert!(msg.starts_with("Failed to encode operation: "), "{}", msg);
            assert!(msg.len() > "Failed to encode operation: ".len());
        }
        other => panic!("unexpected: {:?}", other),
    }
}
