use iprep::errors::ErrorKind;
use iprep::normalize::normalize_blacklist;
use iprep::normalize::normalize_block;
use iprep::normalize::normalize_plaintext;
use iprep::normalize::normalize_single;

#[test]
fn single_ip_data_passes_through() {
    let body = r#"{"data":{"abuseConfidenceScore":100,"ipAddress":"1.2.3.4"}}"#;
    let units = normalize_single(body).unwrap();
    assert_eq!(
        units,
        vec![r#"{"abuseConfidenceScore":100,"ipAddress":"1.2.3.4"}"#.to_string()]
    );
}

#[test]
fn single_ip_unknown_fields_survive() {
    let body = r#"{"data":{"ipAddress":"1.2.3.4","zzNewField":[1,2]}}"#;
    let units = normalize_single(body).unwrap();
    assert_eq!(
        units,
        vec![r#"{"ipAddress":"1.2.3.4","zzNewField":[1,2]}"#.to_string()]
    );
}

#[test]
fn single_ip_is_reserialized_not_echoed() {
    // Whitespace and key order of the incoming text do not survive: the
    // decoded value does.
    let body = "{ \"data\" : { \"b\" : 1, \"a\" : 2 } }";
    let units = normalize_single(body).unwrap();
    assert_eq!(units, vec![r#"{"a":2,"b":1}"#.to_string()]);
}

#[test]
fn single_ip_invalid_json_is_decode_error() {
    assert_eq!(normalize_single("not json"), Err(ErrorKind::Decode));
}

#[test]
fn single_ip_missing_data_is_decode_error() {
    assert_eq!(normalize_single(r#"{"result":{}}"#), Err(ErrorKind::Decode));
}

#[test]
fn block_units_keep_count_and_order() {
    let body = r#"{"data":{"networkAddress":"10.0.0.0","reportedAddress":[
        {"ipAddress":"10.0.0.7","score":9},
        {"ipAddress":"10.0.0.3","score":1}
    ]}}"#;
    let units = normalize_block(body).unwrap();
    assert_eq!(
        units,
        vec![
            r#"{"ipAddress":"10.0.0.7","score":9}"#.to_string(),
            r#"{"ipAddress":"10.0.0.3","score":1}"#.to_string(),
        ]
    );
}

#[test]
fn block_empty_array_yields_no_units() {
    let body = r#"{"data":{"reportedAddress":[]}}"#;
    assert_eq!(normalize_block(body).unwrap(), Vec::<String>::new());
}

#[test]
fn block_missing_reported_address_is_schema_error() {
    let body = r#"{"data":{"networkAddress":"10.0.0.0"}}"#;
    assert_eq!(normalize_block(body), Err(ErrorKind::Schema));
}

#[test]
fn block_non_array_reported_address_is_schema_error() {
    let body = r#"{"data":{"reportedAddress":"10.0.0.7"}}"#;
    assert_eq!(normalize_block(body), Err(ErrorKind::Schema));
}

#[test]
fn block_invalid_json_is_decode_error() {
    assert_eq!(normalize_block("{"), Err(ErrorKind::Decode));
}

#[test]
fn blacklist_array_elements_in_order() {
    let body = r#"{"data":[{"ipAddress":"5.6.7.8"},{"ipAddress":"9.9.9.9"}]}"#;
    let units = normalize_blacklist(body).unwrap();
    assert_eq!(
        units,
        vec![
            r#"{"ipAddress":"5.6.7.8"}"#.to_string(),
            r#"{"ipAddress":"9.9.9.9"}"#.to_string(),
        ]
    );
}

#[test]
fn blacklist_non_array_data_is_schema_error() {
    let body = r#"{"data":{"ipAddress":"5.6.7.8"}}"#;
    assert_eq!(normalize_blacklist(body), Err(ErrorKind::Schema));
}

#[test]
fn plaintext_body_is_one_verbatim_unit() {
    let body = "1.2.3.4\n5.6.7.8";
    assert_eq!(normalize_plaintext(body), vec![body.to_string()]);
}
