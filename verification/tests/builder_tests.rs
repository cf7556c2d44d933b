use opensearch_sdk_rs::builder::ExtensionBuilder;
use opensearch_sdk_rs::context::ExtensionContext;
use opensearch_sdk_rs::dependency::ExtensionDependency;
use opensearch_sdk_rs::lifecycle::ExtensionState;
use opensearch_sdk_rs::traits::Extension;
use opensearch_sdk_rs::transport::client::TransportClient;
use opensearch_sdk_rs::ExtensionRunner;

struct TestExtension {
    name: String,
    unique_id: String,
    version: String,
}

impl Extension for TestExtension {
    fn name(&self) -> &str {
        &self.name
    }

    fn unique_id(&self) -> &str {
        &self.unique_id
    }

    fn version(&self) -> &str {
        &self.version
    }

    fn opensearch_version(&self) -> &str {
        "3.0.0"
    }
}

fn test_extension() -> TestExtension {
    TestExtension {
        name: "test".to_string(),
        unique_id: "test-ext".to_string(),
        version: "1.0.0".to_string(),
    }
}

#[test]
fn test_builder_validation() {
    let extension = test_extension();

    let result = ExtensionBuilder::new("test")
        .unique_id("test-ext")
        .version("1.0.0")
        .build(&extension);

    assert!(result.is_ok());
}

#[test]
fn test_builder_validation_fails() {
    let extension = test_extension();

    let result = ExtensionBuilder::new("wrong-name")
        .unique_id("test-ext")
        .version("1.0.0")
        .build(&extension);

    assert!(result.is_err());
}

#[test]
fn test_builder_requires_unique_id() {
    let extension = test_extension();
    let err = ExtensionBuilder::new("test").build(&extension).unwrap_err();
    assert_eq!(err.message(), "Configuration error: Unique ID is required");
}

#[test]
fn test_builder_mismatch_messages() {
    let extension = test_extension();
    let err = ExtensionBuilder::new("wrong-name")
        .unique_id("test-ext")
        .version("1.0.0")
        .build(&extension)
        .unwrap_err();
    assert_eq!(
        err.message(),
        "Configuration error: Extension name mismatch: builder has 'wrong-name', extension has 'test'"
    );

    let err = ExtensionBuilder::new("test")
        .unique_id("other-id")
        .version("1.0.0")
        .build(&extension)
        .unwrap_err();
    assert_eq!(
        err.message(),
        "Configuration error: Extension ID mismatch: builder has 'other-id', extension has 'test-ext'"
    );

    let err = ExtensionBuilder::new("test")
        .unique_id("test-ext")
        .version("2.0.0")
        .build(&extension)
        .unwrap_err();
    assert_eq!(
        err.message(),
        "Configuration error: Extension version mismatch: builder has '2.0.0', extension has '1.0.0'"
    );
}

#[test]
fn test_builder_configures_the_runner() {
    let extension = test_extension();
    let runner = ExtensionBuilder::new("test")
        .unique_id("test-ext")
        .version("1.0.0")
        .port(4500)
        .transport_endpoint("host.example", 9301)
        .build(&extension)
        .unwrap();
    assert_eq!(runner.port, 4500);
    assert_eq!(runner.lifecycle.state, ExtensionState::Created);
    assert_eq!(runner.context.transport_client.host, "host.example");
    assert_eq!(runner.context.transport_client.port, 9301);
}

#[test]
fn test_default_java_version() {
    let ext = test_extension();
    assert_eq!(ext.java_version(), "11");
}

#[test]
fn test_default_dependencies() {
    let ext = test_extension();
    assert_eq!(ext.dependencies(), vec![] as Vec<ExtensionDependency>);
}

#[test]
fn test_extension_runner_creation() {
    let transport_client = TransportClient::new("localhost", 9200);
    let context = ExtensionContext::builder()
        .transport_client(transport_client)
        .build()
        .unwrap();

    let runner = ExtensionRunner::new(context, 1234);
    assert!(runner.is_ok());
}

#[test]
fn test_context_requires_transport_client() {
    let err = ExtensionContext::builder().build().unwrap_err();
    assert_eq!(err.message(), "Configuration error: Transport client is required");
}
