use opensearch_sdk_rs::dependency::{DependencyResolver, ExtensionDependency, Version};

#[test]
fn test_dependency_creation() {
    let dep = ExtensionDependency::from_str("test-ext", "1.0.0").unwrap();
    assert_eq!(dep.unique_id, "test-ext");
    assert_eq!(dep.version, Version::new(1, 0, 0));
}

#[test]
fn test_dependency_satisfies() {
    let dep = ExtensionDependency::from_str("test-ext", "1.0.0").unwrap();
    assert!(dep.satisfies(&Version::new(1, 0, 0)));
    assert!(dep.satisfies(&Version::new(1, 1, 0)));
    assert!(dep.satisfies(&Version::new(2, 0, 0)));
    assert!(!dep.satisfies(&Version::new(0, 9, 0)));
}

#[test]
fn test_dependency_resolver() {
    let mut resolver = DependencyResolver::new();

    resolver.add_extension("ext-a", Version::new(1, 0, 0), vec![]);
    resolver.add_extension(
        "ext-b",
        Version::new(1, 0, 0),
        vec![ExtensionDependency::from_str("ext-a", "1.0.0").unwrap()],
    );
    resolver.add_extension(
        "ext-c",
        Version::new(1, 0, 0),
        vec![
            ExtensionDependency::from_str("ext-a", "1.0.0").unwrap(),
            ExtensionDependency::from_str("ext-b", "1.0.0").unwrap(),
        ],
    );

    let resolved = resolver.resolve().unwrap();
    assert_eq!(resolved, vec!["ext-a", "ext-b", "ext-c"]);
}

#[test]
fn test_circular_dependency_detection() {
    let mut resolver = DependencyResolver::new();

    resolver.add_extension(
        "ext-a",
        Version::new(1, 0, 0),
        vec![ExtensionDependency::from_str("ext-b", "1.0.0").unwrap()],
    );
    resolver.add_extension(
        "ext-b",
        Version::new(1, 0, 0),
        vec![ExtensionDependency::from_str("ext-a", "1.0.0").unwrap()],
    );

    let result = resolver.resolve();
    assert!(result.is_err());
    assert!(result.unwrap_err().contains("Circular dependency"));
}

#[test]
fn test_missing_dependency_names_both_sides() {
    let mut resolver = DependencyResolver::new();
    resolver.add_extension(
        "ext-a",
        Version::new(1, 0, 0),
        vec![ExtensionDependency::from_str("ext-gone", "1.0.0").unwrap()],
    );
    let err = resolver.resolve().unwrap_err();
    assert_eq!(err, "Missing dependency: ext-a requires ext-gone");
}

#[test]
fn test_version_floor_violation_is_reported() {
    let mut resolver = DependencyResolver::new();
    resolver.add_extension("ext-a", Version::new(0, 9, 0), vec![]);
    resolver.add_extension(
        "ext-b",
        Version::new(1, 0, 0),
        vec![ExtensionDependency::from_str("ext-a", "1.0.0").unwrap()],
    );
    let err = resolver.resolve().unwrap_err();
    assert_eq!(
        err,
        "Dependency version mismatch: ext-b requires ext-a 1.0.0, but found 0.9.0"
    );
}

#[test]
fn test_shared_dependency_is_not_a_false_cycle() {
    // the same node revisited via a different branch is fine
    let mut resolver = DependencyResolver::new();
    resolver.add_extension("base", Version::new(1, 0, 0), vec![]);
    resolver.add_extension(
        "left",
        Version::new(1, 0, 0),
        vec![ExtensionDependency::from_str("base", "1.0.0").unwrap()],
    );
    resolver.add_extension(
        "right",
        Version::new(1, 0, 0),
        vec![
            ExtensionDependency::from_str("base", "1.0.0").unwrap(),
            ExtensionDependency::from_str("left", "1.0.0").unwrap(),
        ],
    );
    let resolved = resolver.resolve().unwrap();
    assert_eq!(resolved, vec!["base", "left", "right"]);
}

#[test]
fn test_invalid_version_text_is_rejected() {
    let err = ExtensionDependency::from_str("test-ext", "not.a.version").unwrap_err();
    assert_eq!(err.message(), "Dependency error: Invalid version: not.a.version");
    assert!(ExtensionDependency::from_str("x", "1.0").is_err());
    assert!(ExtensionDependency::from_str("x", "1.2.3").is_ok());
}

#[test]
fn test_version_text_rendering() {
    assert_eq!(Version::new(10, 2, 33).to_text(), "10.2.33");
    assert_eq!(Version::new(0, 0, 0).to_text(), "0.0.0");
}
