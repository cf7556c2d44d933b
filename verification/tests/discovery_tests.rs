use opensearch_sdk_rs::discovery::{interpret_query_response, DiscoveryClient, ExtensionStatus};

use opensearch_sdk_rs::error::ExtensionError;

#[test]
fn test_parse_host_port() {
    let client = DiscoveryClient::new("localhost:9300");

    let (host, port) = client.parse_host_port("localhost:9300").unwrap();
    assert_eq!(host, "localhost");
    assert_eq!(port, 9300);

    let (host, port) = client.parse_host_port("example.com").unwrap();
    assert_eq!(host, "example.com");
    assert_eq!(port, 9300); // Default port

    let (host, port) = client.parse_host_port("192.168.1.1:8080").unwrap();
    assert_eq!(host, "192.168.1.1");
    assert_eq!(port, 8080);

    // Test invalid port
    let result = client.parse_host_port("localhost:invalid");
    assert!(result.is_err());
}

#[test]
fn test_parse_host_port_error_names_the_port_text() {
    let client = DiscoveryClient::new("localhost:9300");
    let err = client.parse_host_port("localhost:70000").unwrap_err();
    assert_eq!(err.message(), "Configuration error: Invalid port in service URL: 70000");
}

#[test]
fn test_discovery_client_keeps_its_url() {
    let client = DiscoveryClient::new("localhost:9300");
    assert_eq!(client.service_url, "localhost:9300");
    assert!(matches!(ExtensionStatus::Active, ExtensionStatus::Active));
    assert!(!matches!(ExtensionStatus::Inactive, ExtensionStatus::Active));
}

#[test]
fn test_interpret_query_response() {
    // an empty response body means the extension is unknown
    let r: Result<Option<u32>, ExtensionError> = interpret_query_response(true, None, None);
    assert_eq!(r.unwrap(), None);

    // a decoded document is the answer
    let r: Result<Option<u32>, ExtensionError> = interpret_query_response(false, Some(7), None);
    assert_eq!(r.unwrap(), Some(7));

    // `found: false` also means unknown
    let r: Result<Option<u32>, ExtensionError> =
        interpret_query_response(false, None, Some(false));
    assert_eq!(r.unwrap(), None);

    // anything else is a serialization error
    let r: Result<Option<u32>, ExtensionError> = interpret_query_response(false, None, None);
    assert_eq!(
        r.unwrap_err().message(),
        "Serialization error: Failed to deserialize query response"
    );
    let r: Result<Option<u32>, ExtensionError> = interpret_query_response(false, None, Some(true));
    assert_eq!(r.unwrap_err().message(), "Serialization error: Unexpected response format");
}
