use web_service::attribute::{AttributeValue, Item};
use web_service::dynamodb::{
    encode_simple_lower, get_client_settings, get_item_request, get_local_client_settings, get_uuid, put_item_request, ClientSettings,
    PARTITION_KEY_NAME,
};

fn text_of(value: Option<&AttributeValue>) -> Option<String> {
    match value {
        Some(AttributeValue::S(t)) => Some(t.clone()),
        _ => None,
    }
}

#[test]
fn partition_key_is_named_partition() {
    assert_eq!(PARTITION_KEY_NAME, "partition");
}

#[test]
fn get_request_keys_by_partition_only() {
    let request = get_item_request("LocalDynamodbTable", "abc");
    assert_eq!(request.table_name, "LocalDynamodbTable");
    assert_eq!(text_of(request.key.get("partition")), Some("abc".to_string()));
    assert_eq!(request.key.into_entries().len(), 1);
}

#[test]
fn put_request_holds_partition_and_values() {
    let values = Item::from_entries(vec![
        ("type".to_string(), AttributeValue::S("Note".to_string())),
        ("sensitive".to_string(), AttributeValue::Bool(false)),
    ]);
    let request = put_item_request("t", "p1", values);
    assert_eq!(request.table_name, "t");
    assert_eq!(text_of(request.item.get("partition")), Some("p1".to_string()));
    assert_eq!(text_of(request.item.get("type")), Some("Note".to_string()));
    assert!(matches!(request.item.get("sensitive"), Some(AttributeValue::Bool(false))));
    assert_eq!(request.item.into_entries().len(), 3);
}

#[test]
fn put_request_values_override_partition() {
    let values = Item::from_entries(vec![("partition".to_string(), AttributeValue::S("mine".to_string()))]);
    let request = put_item_request("t", "p1", values);
    assert_eq!(text_of(request.item.get("partition")), Some("mine".to_string()));
    assert_eq!(request.item.into_entries().len(), 1);
}

fn is_simple_v4(id: &str) -> bool {
    let chars: Vec<char> = id.chars().collect();
    chars.len() == 32
        && chars.iter().all(|c| c.is_ascii_digit() || ('a'..='f').contains(c))
        && chars[12] == '4'
        && matches!(chars[16], '8' | '9' | 'a' | 'b')
}

#[test]
fn uuid_is_32_lower_hex_digits_of_a_v4() {
    for _ in 0..100 {
        let id = get_uuid();
        assert!(is_simple_v4(&id), "{id}");
    }
}

#[test]
fn uuid_is_fresh() {
    assert_ne!(get_uuid(), get_uuid());
}

#[test]
fn uuid_matches_the_uuid_crate_format() {
    let id = get_uuid();
    let parsed = uuid::Uuid::parse_str(&id).unwrap();
    assert_eq!(parsed.simple().to_string(), id);
    assert_eq!(parsed.get_version_num(), 4);
}

#[test]
fn local_client_settings() {
    match get_local_client_settings("http://localhost:8000".to_string()) {
        ClientSettings::Local { endpoint_url, region, access_key_id, secret_access_key } => {
            assert_eq!(endpoint_url, "http://localhost:8000");
            assert_eq!(region, "us-east-1");
            assert_eq!(access_key_id, "DUMMYIDEXAMPLE");
            assert_eq!(secret_access_key, "DUMMYEXAMPLEKEY");
        }
        ClientSettings::FromEnvironment => panic!("expected local settings"),
    }
}

#[test]
fn client_settings_follow_the_variable() {
    assert!(matches!(get_client_settings(None), ClientSettings::FromEnvironment));
    assert!(matches!(
        get_client_settings(Some("http://db:8000".to_string())),
        ClientSettings::Local { endpoint_url, .. } if endpoint_url == "http://db:8000"
    ));
}

#[test]
fn simple_lower_encoding_writes_each_byte_as_two_digits() {
    let bytes: [u8; 16] = [0x00, 0x01, 0x0f, 0x10, 0xab, 0xcd, 0xef, 0xff, 0x12, 0x34, 0x56, 0x78, 0x9a, 0xbc, 0xde, 0xf0];
    assert_eq!(encode_simple_lower(&bytes), "00010f10abcdefff123456789abcdef0");
    assert_eq!(encode_simple_lower(&bytes), uuid::Uuid::from_bytes(bytes).simple().to_string());
    assert_eq!(encode_simple_lower(&[0u8; 16]), "00000000000000000000000000000000");
}
