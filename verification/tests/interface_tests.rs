use opensearch_sdk_rs::interface::{Deserialize, Request, Serialize};

#[test]
fn test_request_serialize_tags_and_payload() {
    let bytes = Request::RequestResponse("hello".to_string()).serialize();
    assert_eq!(bytes[0], 1);
    assert_eq!(&bytes[1..], b"hello");

    assert_eq!(Request::TransportError("e".to_string()).serialize()[0], 2);
    assert_eq!(Request::Compress("c".to_string()).serialize()[0], 4);
    assert_eq!(Request::Handshake("h".to_string()).serialize()[0], 8);
}

#[test]
fn test_request_round_trip() {
    let request = Request::Handshake("greetings".to_string());
    let bytes = request.serialize();
    let decoded = Request::deserialize(&bytes).unwrap();
    match decoded {
        Request::Handshake(payload) => assert_eq!(payload, "greetings"),
        other => panic!("wrong variant: {:?}", other),
    }
}

#[test]
fn test_request_deserialize_reads_utf8_payload() {
    let decoded = Request::deserialize(&[1, b'h', b'i']).unwrap();
    match decoded {
        Request::RequestResponse(payload) => assert_eq!(payload, "hi"),
        other => panic!("wrong variant: {:?}", other),
    }
}

#[test]
fn test_request_deserialize_rejects_unknown_tag() {
    let err = Request::deserialize(&[3, b'x']).unwrap_err();
    assert_eq!(err.message(), "Protocol error: Invalid request type");
}

#[test]
fn test_request_deserialize_rejects_empty_input() {
    assert!(Request::deserialize(&[]).is_err());
}

#[test]
fn test_request_deserialize_rejects_invalid_utf8() {
    let err = Request::deserialize(&[1, 0xff, 0xfe]).unwrap_err();
    assert_eq!(err.message(), "Serialization error: Invalid UTF-8 payload");
}

#[test]
fn test_bad_payload_reported_before_bad_tag() {
    // the payload is decoded before the tag is examined
    let err = Request::deserialize(&[3, 0xff]).unwrap_err();
    assert_eq!(err.message(), "Serialization error: Invalid UTF-8 payload");
}
