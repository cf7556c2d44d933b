use opensearch_sdk_rs::registration::{
    parse_registration_endpoint, ExtensionIdentity, ExtensionRegistration, RegistrationProtocol,
};
use opensearch_sdk_rs::traits::Extension;

struct TestExtension;

impl Extension for TestExtension {
    fn name(&self) -> &str {
        "test"
    }

    fn unique_id(&self) -> &str {
        "test-ext"
    }

    fn version(&self) -> &str {
        "1.0.0"
    }

    fn opensearch_version(&self) -> &str {
        "3.0.0"
    }
}

#[test]
fn test_extension_identity_creation() {
    let extension = TestExtension;
    let identity = ExtensionIdentity::from_extension(&extension)
        .with_description("Test extension")
        .with_vendor("Test Inc")
        .with_license("MIT");

    assert_eq!(identity.name, "test");
    assert_eq!(identity.unique_id, "test-ext");
    assert_eq!(identity.version, "1.0.0");
    assert_eq!(identity.description, Some("Test extension".to_string()));
    assert_eq!(identity.vendor, Some("Test Inc".to_string()));
    assert_eq!(identity.license, Some("MIT".to_string()));
}

#[test]
fn test_registration_socket_address() {
    let identity = ExtensionIdentity::from_extension(&TestExtension);
    let registration = ExtensionRegistration::new(identity, "127.0.0.1".to_string(), 1234);

    let addr = registration.address_string();
    assert_eq!(addr, "127.0.0.1:1234");
}

#[test]
fn test_registration_defaults_to_no_capabilities() {
    let identity = ExtensionIdentity::from_extension(&TestExtension);
    let registration = ExtensionRegistration::new(identity, "127.0.0.1".to_string(), 1234);
    assert!(!registration.capabilities.supports_rest_actions);
    assert!(!registration.capabilities.supports_cluster_settings);
}

#[test]
fn test_registration_protocol_holds_the_document() {
    let identity = ExtensionIdentity::from_extension(&TestExtension);
    let registration = ExtensionRegistration::new(identity, "127.0.0.1".to_string(), 1234);
    let protocol = RegistrationProtocol::new(registration);
    assert_eq!(protocol.registration.identity.unique_id, "test-ext");
    assert_eq!(protocol.registration.port, 1234);
}

#[test]
fn test_registration_endpoint_parsing() {
    assert_eq!(parse_registration_endpoint("localhost"), ("localhost".to_string(), 9300));
    assert_eq!(parse_registration_endpoint("localhost:9200"), ("localhost".to_string(), 9200));
    // a port that does not parse falls back to the default
    assert_eq!(parse_registration_endpoint("localhost:abc"), ("localhost".to_string(), 9300));
    assert_eq!(
        parse_registration_endpoint("192.168.1.1:8080"),
        ("192.168.1.1".to_string(), 8080)
    );
}
