use opensearch_sdk_rs::settings::{SettingValue, Settings};

#[test]
fn test_settings() {
    let mut settings = Settings::new();

    settings.set("test.string", SettingValue::Text("value".to_string())).unwrap();
    settings.set("test.integer", SettingValue::Integer(42)).unwrap();
    settings.set("test.float", SettingValue::Float(3.14159f64.to_bits())).unwrap();
    settings.set("test.boolean", SettingValue::Boolean(true)).unwrap();

    assert_eq!(settings.get_string("test.string").unwrap(), Some("value".to_string()));
    assert_eq!(settings.get_integer("test.integer").unwrap(), Some(42));
    assert_eq!(settings.get_float("test.float").unwrap(), Some(3.14159f64.to_bits()));
    assert_eq!(settings.get_boolean("test.boolean").unwrap(), Some(true));
}

#[test]
fn test_settings_merge() {
    let mut settings1 = Settings::new();
    settings1.set("key1", SettingValue::Text("value1".to_string())).unwrap();
    settings1.set("key2", SettingValue::Text("value2".to_string())).unwrap();

    let mut settings2 = Settings::new();
    settings2.set("key2", SettingValue::Text("updated".to_string())).unwrap();
    settings2.set("key3", SettingValue::Text("value3".to_string())).unwrap();

    settings1.merge(&settings2).unwrap();

    assert_eq!(settings1.get_string("key1").unwrap(), Some("value1".to_string()));
    assert_eq!(settings1.get_string("key2").unwrap(), Some("updated".to_string()));
    assert_eq!(settings1.get_string("key3").unwrap(), Some("value3".to_string()));
}

#[test]
fn test_wrong_type_reads_as_not_present() {
    // setting "k" to a string, then reading it as an integer, is "not
    // present", not an error
    let mut settings = Settings::new();
    settings.set("k", SettingValue::Text("text".to_string())).unwrap();
    assert_eq!(settings.get_integer("k").unwrap(), None);
    assert_eq!(settings.get_boolean("k").unwrap(), None);
    assert_eq!(settings.get_float("k").unwrap(), None);
    assert_eq!(settings.get_string("k").unwrap(), Some("text".to_string()));
}

#[test]
fn test_missing_key_reads_as_not_present() {
    let settings = Settings::new();
    assert_eq!(settings.get_string("absent").unwrap(), None);
    assert_eq!(settings.get_integer("absent").unwrap(), None);
}

#[test]
fn test_set_replaces_existing_binding() {
    let mut settings = Settings::new();
    settings.set("k", SettingValue::Integer(1)).unwrap();
    settings.set("k", SettingValue::Integer(2)).unwrap();
    assert_eq!(settings.get_integer("k").unwrap(), Some(2));
}

#[test]
fn test_nested_values_round_trip() {
    let mut settings = Settings::new();
    let list = SettingValue::List(vec![
        SettingValue::Integer(1),
        SettingValue::Text("two".to_string()),
    ]);
    settings.set("nested", list).unwrap();
    match settings.get("nested").unwrap() {
        Some(SettingValue::List(items)) => {
            assert_eq!(items.len(), 2);
            assert!(matches!(items[0], SettingValue::Integer(1)));
            match &items[1] {
                SettingValue::Text(s) => assert_eq!(s, "two"),
                other => panic!("wrong element: {:?}", other),
            }
        }
        other => panic!("wrong value: {:?}", other),
    }
}
