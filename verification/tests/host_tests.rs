use opensearch_sdk_rs::error::{ExtensionError, ExtensionResult};
use opensearch_sdk_rs::host::{classify, handshake_reply, request_response_reply, ConnectionKind};
use opensearch_sdk_rs::text::u64_to_string;
use opensearch_sdk_rs::transport::{transport_status, TransportTcpHeader};

#[test]
fn test_classify_connections() {
    let header = |status: u8| TransportTcpHeader::new(1, status, 2, 0, 0);
    assert_eq!(
        classify(&header(transport_status::STATUS_HANDSHAKE)),
        ConnectionKind::Handshake
    );
    assert_eq!(
        classify(&header(transport_status::STATUS_REQRES)),
        ConnectionKind::RequestResponse
    );
    assert_eq!(classify(&header(transport_status::STATUS_ERROR)), ConnectionKind::Unknown);
    assert_eq!(classify(&header(42)), ConnectionKind::Unknown);
}

#[test]
fn test_handshake_reply_echoes_the_request() {
    let incoming = TransportTcpHeader::new(77, transport_status::STATUS_HANDSHAKE, 3000099, 9, 4);
    let (reply, content) = handshake_reply(&incoming);
    assert_eq!(content, b"Hello from OpenSearch Rust SDK!".to_vec());
    assert_eq!(reply.request_id, 77);
    assert_eq!(reply.status, transport_status::STATUS_REQRES);
    assert_eq!(reply.version, 3000099);
    assert_eq!(reply.variable_header_size, 0);
    assert_eq!(reply.message_length as usize, 13 + content.len());
}

#[test]
fn test_request_response_reply_carries_the_greeting_document() {
    let incoming = TransportTcpHeader::new(5, transport_status::STATUS_REQRES, 1, 0, 0);
    let (reply, content) = request_response_reply(&incoming);
    let expected = br#"{"message": "Hello World from OpenSearch Rust Extension!", "status": "ok", "extension": "hello-world-rs"}"#;
    assert_eq!(content, expected.to_vec());
    assert_eq!(reply.request_id, 5);
    assert!(reply.is_request_response());
    assert_eq!(reply.message_length as usize, 13 + content.len());
}

#[test]
fn test_decimal_rendering() {
    assert_eq!(u64_to_string(0), "0");
    assert_eq!(u64_to_string(65535), "65535");
    assert_eq!(u64_to_string(18446744073709551615), "18446744073709551615");
}

#[test]
fn test_error_messages_carry_their_kind() {
    assert_eq!(
        ExtensionError::transport("lost").message(),
        "Transport error: lost"
    );
    assert_eq!(ExtensionError::timeout("late").message(), "Timeout error: late");
    assert_eq!(ExtensionError::shutdown("stuck").message(), "Shutdown error: stuck");
    assert_eq!(ExtensionError::registration("no").message(), "Registration failed: no");
    assert_eq!(ExtensionError::dependency("gone").message(), "Dependency error: gone");
    assert_eq!(ExtensionError::io("pipe").message(), "IO error: pipe");
    assert_eq!(ExtensionError::protocol("junk").message(), "Protocol error: junk");
    assert_eq!(ExtensionError::serialization("bad").message(), "Serialization error: bad");
    assert_eq!(ExtensionError::unknown("eh").message(), "Unknown error: eh");
    assert_eq!(
        ExtensionError::initialization("early").message(),
        "Initialization failed: early"
    );
    assert_eq!(
        ExtensionError::configuration("missing").message(),
        "Configuration error: missing"
    );
}

#[test]
fn test_extension_result_sides() {
    let ok: ExtensionResult<u32> = ExtensionResult::ok(5);
    assert!(ok.is_ok());
    assert!(!ok.is_err());
    assert_eq!(ok.value, Some(5));

    let err: ExtensionResult<u32> = ExtensionResult::err(ExtensionError::unknown("x"));
    assert!(err.is_err());
    assert!(!err.is_ok());
    assert!(err.value.is_none());
}
