use currencyapi::CurrencyapiError;
use currencyapi::decode_response;

#[test]
fn decodes_data_and_meta() {
    let body = "{\"data\": {\"USD\": 1}, \"meta\": {\"last_updated_at\": \"x\"}}";
    let resp = decode_response(body).unwrap();
    let mut data = serde_json::Map::new();
    data.insert(String::from("USD"), serde_json::Value::from(1));
    let mut meta = serde_json::Map::new();
    meta.insert(String::from("last_updated_at"), serde_json::Value::from("x"));
    assert_eq!(resp.data, data);
    assert_eq!(resp.meta, Some(meta));
}

#[test]
fn missing_meta_decodes_to_none() {
    let body = "{\"data\": {}}";
    let resp = decode_response(body).unwrap();
    assert!(resp.data.is_empty());
    assert_eq!(resp.meta, None);
}

#[test]
fn null_meta_decodes_to_none() {
    let body = "{\"data\": {\"EUR\": 2}, \"meta\": null}";
    let resp = decode_response(body).unwrap();
    assert_eq!(resp.meta, None);
    assert_eq!(resp.data.get("EUR"), Some(&serde_json::Value::from(2)));
}

#[test]
fn non_json_body_fails_with_the_body_kept() {
    match decode_response("not json") {
        Err(CurrencyapiError::ResponseParsingError { body }) => assert_eq!(body, "not json"),
        _ => panic!("expected a response parsing error"),
    }
}

#[test]
fn missing_data_fails_with_the_body_kept() {
    let text = "{\"meta\": {}}";
    match decode_response(text) {
        Err(CurrencyapiError::ResponseParsingError { body }) => assert_eq!(body, text),
        _ => panic!("expected a response parsing error"),
    }
}

#[test]
fn non_object_data_fails() {
    let text = "{\"data\": 5}";
    match decode_response(text) {
        Err(CurrencyapiError::ResponseParsingError { .. }) => {}
        _ => panic!("expected a response parsing error"),
    }
}

#[test]
fn cloned_response_keeps_the_payload() {
    let resp = decode_response("{\"data\": {\"USD\": 1}}").unwrap();
    let copy = resp.clone();
    assert_eq!(copy.data, resp.data);
    assert_eq!(copy.meta, resp.meta);
}
