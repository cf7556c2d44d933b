use opensearch_sdk_rs::transport::{TransportTcpHeader, transport_status};
use opensearch_sdk_rs::transport::client::TransportClient;

#[test]
fn test_header_creation() {
    let header = TransportTcpHeader::new(123, 1, 1000, 100, 50);
    assert_eq!(header.request_id, 123);
    assert_eq!(header.status, 1);
    assert_eq!(header.version, 1000);
    assert!(header.is_request_response());
    assert!(!header.is_handshake());
}

#[test]
fn test_header_length_counts_fixed_fields() {
    // 8 (request id) + 1 (status) + 4 (version) = 13 fixed bytes
    let header = TransportTcpHeader::new(7, transport_status::STATUS_HANDSHAKE, 2, 100, 50);
    assert_eq!(header.message_length, 100 + 13 + 50);
}

#[test]
fn test_header_round_trip() {
    let cases: [(u64, u8, u32, u32); 4] = [
        (0, transport_status::STATUS_REQRES, 0, 0),
        (u64::MAX, transport_status::STATUS_HANDSHAKE, u32::MAX, 17),
        (123456789, transport_status::STATUS_ERROR, 3000099, 4),
        (1, transport_status::STATUS_COMPRESS, 1, 1),
    ];
    for (request_id, status, version, vhs) in cases {
        let content = [5u8, 6, 7];
        let header = TransportTcpHeader::new(request_id, status, version, 3, vhs);
        let bytes = header.to_bytes(&content);
        let decoded = TransportTcpHeader::from_bytes(&bytes).unwrap();
        assert_eq!(decoded.message_length, header.message_length);
        assert_eq!(decoded.request_id, request_id);
        assert_eq!(decoded.status, status);
        assert_eq!(decoded.version, version);
        assert_eq!(decoded.variable_header_size, vhs);
    }
}

#[test]
fn test_bad_marker_is_a_framing_error() {
    let header = TransportTcpHeader::new(9, 1, 2, 0, 0);
    let mut bytes = header.to_bytes(&[]);
    bytes[0] = b'X';
    let err = TransportTcpHeader::from_bytes(&bytes).unwrap_err();
    assert_eq!(err.message(), "Protocol error: Invalid header prefix");
}

#[test]
fn test_short_buffers_are_rejected_stage_by_stage() {
    assert_eq!(
        TransportTcpHeader::from_bytes(&[]).unwrap_err().message(),
        "Protocol error: Unable to parse prefix"
    );
    assert_eq!(
        TransportTcpHeader::from_bytes(&[b'E', b'S']).unwrap_err().message(),
        "Protocol error: Unable to parse size"
    );
    assert_eq!(
        TransportTcpHeader::from_bytes(&[b'E', b'S', 0, 0, 0, 9]).unwrap_err().message(),
        "Protocol error: Cannot parse request_id"
    );
    let mut fourteen = vec![b'E', b'S', 0, 0, 0, 9];
    fourteen.extend_from_slice(&[0u8; 8]);
    assert_eq!(
        TransportTcpHeader::from_bytes(&fourteen).unwrap_err().message(),
        "Protocol error: Unable to parse status"
    );
}

#[test]
fn test_encoding_is_big_endian_in_field_order() {
    let header = TransportTcpHeader::new(0x0102030405060708, 8, 0x0A0B0C0D, 0, 0x01020304);
    let bytes = header.to_bytes(&[]);
    assert_eq!(&bytes[0..2], b"ES");
    // message_length = 13 + 0x01020304
    assert_eq!(&bytes[2..6], &(13u32 + 0x01020304).to_be_bytes());
    assert_eq!(&bytes[6..14], &[1, 2, 3, 4, 5, 6, 7, 8]);
    assert_eq!(bytes[14], 8);
    assert_eq!(&bytes[15..19], &[0x0A, 0x0B, 0x0C, 0x0D]);
    assert_eq!(&bytes[19..23], &[1, 2, 3, 4]);
    assert_eq!(bytes.len(), 23);
}

#[test]
fn test_transport_client_creation() {
    let client = TransportClient::new("localhost", 9200).with_timeout(60000);

    assert_eq!(client.host, "localhost");
    assert_eq!(client.port, 9200);
    assert_eq!(client.timeout_millis, 60000);
}

#[test]
fn test_transport_client_address() {
    let client = TransportClient::new("localhost", 9200);
    assert_eq!(client.address(), "localhost:9200");
    assert_eq!(client.timeout_millis, 30000);
}
