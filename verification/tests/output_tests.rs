use age_credentials::output::{from_json, from_toml, hex_decode, hex_encode, to_json_pretty, to_toml_pretty};
use age_credentials::AgeCredentialsError;
use std::collections::BTreeMap;

fn test_struct_json(name: &str, value: i32) -> serde_json::Value {
    let mut map = serde_json::Map::new();
    map.insert("name".to_string(), serde_json::Value::from(name));
    map.insert("value".to_string(), serde_json::Value::from(value));
    serde_json::Value::Object(map)
}

fn test_struct_toml(name: &str, value: i32) -> toml::Table {
    let mut table = toml::Table::new();
    table.insert("name".to_string(), toml::Value::from(name));
    table.insert("value".to_string(), toml::Value::from(value));
    table
}

#[test]
fn test_hex_encode_decode_roundtrip() {
    let data = vec![0, 255, 128, 99];
    let hex = hex_encode(&data);
    assert_eq!(hex, "00ff8063");
    let decoded = hex_decode(&hex).unwrap();
    assert_eq!(decoded, data);
}

#[test]
fn test_hex_decode_empty() {
    let err = hex_decode("").unwrap_err();
    match err {
        AgeCredentialsError::InvalidData { .. } => {}
        _ => panic!("Wrong error"),
    }
}

#[test]
fn test_hex_decode_odd_length() {
    let err = hex_decode("abc").unwrap_err();
    match err {
        AgeCredentialsError::InvalidData { details, .. } => {
            assert!(details.contains("odd"));
        }
        _ => panic!("Wrong error"),
    }
}

#[test]
fn test_hex_decode_invalid_char() {
    let err = hex_decode("abz0").unwrap_err();
    match err {
        AgeCredentialsError::InvalidData { details, .. } => {
            assert!(details.contains("Invalid hex character"));
        }
        _ => panic!("Wrong error"),
    }
}

#[test]
fn test_json_roundtrip() {
    let obj = test_struct_json("Alice", 42);
    let json = to_json_pretty(&obj).unwrap();
    let obj2: serde_json::Value = from_json(&json).unwrap();
    assert_eq!(obj, obj2);
}

#[test]
fn test_from_json_invalid() {
    let err = from_json::<BTreeMap<String, serde_json::Value>>("not json").unwrap_err();
    match err {
        AgeCredentialsError::Serialization { .. } => {}
        _ => panic!("Wrong error"),
    }
}

#[test]
fn test_toml_roundtrip() {
    let obj = test_struct_toml("Bob", -7);
    let toml_str = to_toml_pretty(&obj).unwrap();
    let obj2: toml::Table = from_toml(&toml_str).unwrap();
    assert_eq!(obj, obj2);
}

#[test]
fn test_from_toml_invalid() {
    let err = from_toml::<BTreeMap<String, toml::Value>>("not = toml").unwrap_err();
    match err {
        AgeCredentialsError::Serialization { .. } => {}
        _ => panic!("Wrong error"),
    }
}
