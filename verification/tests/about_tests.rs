use ctrl_panel::about::{
    enrollment_after_inspect, enrollment_after_list, parse_inspect_records, parse_user_list, EnrollmentNext,
    detect_device_id, enrollment_of_records, enrollment_or_unknown, extract_homectl_usernames,
    format_optional_bool_status, format_status_loading_markup, has_fido2_hmac_credential,
    normalize_status_value, record_lines, should_retry, FetchStep, HostSysinfoStatus, JsonValue, SystemStatus,
    MAX_ATTEMPTS,
};

fn s(x: &str) -> JsonValue {
    JsonValue::Str(x.to_string())
}

fn obj(entries: Vec<(&str, JsonValue)>) -> JsonValue {
    JsonValue::Object(entries.into_iter().map(|(k, v)| (k.to_string(), v)).collect())
}

#[test]
fn usernames_from_list() {
    let v = JsonValue::Array(vec![
        obj(vec![("name", s("alice")), ("uid", JsonValue::Number("1000".into()))]),
        obj(vec![("uid", JsonValue::Number("1001".into()))]),
        obj(vec![("name", JsonValue::Number("5".into()))]),
        s("bob"),
        obj(vec![("name", s("carol"))]),
    ]);
    assert_eq!(extract_homectl_usernames(&v), vec![String::from("alice"), String::from("carol")]);
    assert!(extract_homectl_usernames(&obj(vec![("name", s("x"))])).is_empty());
}

#[test]
fn fido2_credential_search() {
    let enrolled = obj(vec![(
        "privileged",
        obj(vec![("fido2HmacCredential", JsonValue::Array(vec![s("cred")]))]),
    )]);
    assert!(has_fido2_hmac_credential(&enrolled));
    let empty = obj(vec![("fido2HmacCredential", JsonValue::Array(Vec::new())), ("deep", enrolled.clone_value())]);
    assert!(!has_fido2_hmac_credential(&empty));
    let in_array = JsonValue::Array(vec![JsonValue::Null, obj(vec![("fido2HmacCredential", JsonValue::Array(vec![JsonValue::Bool(true)]))])]);
    assert!(has_fido2_hmac_credential(&in_array));
    assert!(!has_fido2_hmac_credential(&s("fido2HmacCredential")));
    assert!(!has_fido2_hmac_credential(&obj(vec![("fido2HmacCredential", s("x"))])));
}

trait CloneValue {
    fn clone_value(&self) -> JsonValue;
}

impl CloneValue for JsonValue {
    fn clone_value(&self) -> JsonValue {
        match self {
            JsonValue::Null => JsonValue::Null,
            JsonValue::Bool(b) => JsonValue::Bool(*b),
            JsonValue::Number(n) => JsonValue::Number(n.clone()),
            JsonValue::Str(x) => JsonValue::Str(x.clone()),
            JsonValue::Array(a) => JsonValue::Array(a.iter().map(|v| v.clone_value()).collect()),
            JsonValue::Object(o) => JsonValue::Object(o.iter().map(|(k, v)| (k.clone(), v.clone_value())).collect()),
        }
    }
}

#[test]
fn enrollment_texts() {
    let yes = vec![JsonValue::Null, obj(vec![("fido2HmacCredential", JsonValue::Array(vec![s("c")]))])];
    assert_eq!(enrollment_of_records(&yes), "Enrolled");
    assert_eq!(enrollment_of_records(&vec![JsonValue::Null]), "Not enrolled");
    assert_eq!(enrollment_or_unknown(None), "unknown");
    assert_eq!(enrollment_or_unknown(Some("Enrolled".into())), "Enrolled");
}

#[test]
fn inspect_record_lines() {
    assert_eq!(record_lines("{\"a\":1}\n   \n{\"b\":2}\n"), vec![String::from("{\"a\":1}"), String::from("{\"b\":2}")]);
    assert!(record_lines("").is_empty());
}

#[test]
fn device_id_and_status_values() {
    assert_eq!(detect_device_id(Some(String::from("  abc-123\n"))), "abc-123");
    assert_eq!(detect_device_id(Some(String::from(" \n"))), "unknown");
    assert_eq!(detect_device_id(None), "unknown");
    assert_eq!(normalize_status_value(" 24.09 "), "24.09");
    assert_eq!(normalize_status_value(""), "unknown");
}

#[test]
fn status_markup() {
    assert_eq!(format_optional_bool_status(Some(true)), "<span weight=\"700\" foreground=\"#2f9e44\">Enabled</span>");
    assert_eq!(format_optional_bool_status(Some(false)), "<span weight=\"700\" foreground=\"#ff0000\">Disabled</span>");
    assert_eq!(format_optional_bool_status(None), "<span weight=\"600\" foreground=\"#6b7280\">Unknown</span>");
    assert_eq!(format_status_loading_markup(), "<span weight=\"600\">loading...</span>");
}

#[test]
fn retries_only_while_not_connected() {
    assert!(should_retry(1, "transport: Not connected to host"));
    assert!(!should_retry(1, "permission denied"));
    assert!(should_retry(MAX_ATTEMPTS - 1, "Not connected"));
    assert!(!should_retry(MAX_ATTEMPTS, "Not connected"));
    assert_eq!(MAX_ATTEMPTS, 6);
}

#[test]
fn system_status_pages() {
    let s1 = SystemStatus::from_host(
        HostSysinfoStatus { ghaf_version: " 24.09 \n".into(), secure_boot: Some(true), disk_encryption: None },
        "Enrolled".into(),
        "dev".into(),
    );
    assert_eq!(s1.ghaf_version, "24.09");
    assert_eq!(s1.secure_boot, format_optional_bool_status(Some(true)));
    assert_eq!(s1.disk_encryption, format_optional_bool_status(None));
    let s2 = SystemStatus::host_unavailable("Not enrolled".into(), "dev".into());
    assert_eq!(s2.secure_boot, "unknown");
    assert_eq!(s2.yubikey_enrollment, "Not enrolled");
    let s3 = SystemStatus::loading();
    assert_eq!(s3.device_id, "loading...");
    assert_eq!(s3.secure_boot, "<span weight=\"600\">loading...</span>");
    let s4 = SystemStatus::no_application();
    assert_eq!(s4.ghaf_version, "unknown");
    assert_eq!(s4.disk_encryption, format_optional_bool_status(None));
}

#[test]
fn status_fetch_steps() {
    match SystemStatus::after_attempt(2, Err("Not connected".into()), "y".into(), "d".into()) {
        FetchStep::Retry(n) => assert_eq!(n, 3),
        FetchStep::Show(_) => panic!("expected a retry"),
    }
    match SystemStatus::after_attempt(MAX_ATTEMPTS, Err("Not connected".into()), "y".into(), "d".into()) {
        FetchStep::Show(s) => assert_eq!(s.ghaf_version, "unknown"),
        FetchStep::Retry(_) => panic!("expected the unknown status"),
    }
    match SystemStatus::after_attempt(1, Err("refused".into()), "y".into(), "d".into()) {
        FetchStep::Show(s) => assert_eq!(s.secure_boot, "unknown"),
        FetchStep::Retry(_) => panic!("expected the unknown status"),
    }
    let ok = HostSysinfoStatus { ghaf_version: "24.09".into(), secure_boot: Some(false), disk_encryption: Some(true) };
    match SystemStatus::after_attempt(1, Ok(ok), "y".into(), "d".into()) {
        FetchStep::Show(s) => {
            assert_eq!(s.ghaf_version, "24.09");
            assert_eq!(s.disk_encryption, format_optional_bool_status(Some(true)));
        }
        FetchStep::Retry(_) => panic!("expected the status"),
    }
}

#[test]
fn enrollment_steps_from_user_list() {
    assert!(matches!(enrollment_after_list(None), EnrollmentNext::Finish(None)));
    let none = enrollment_after_list(Some(JsonValue::Array(vec![])));
    assert!(matches!(none, EnrollmentNext::Finish(Some(ref t)) if t == "Not enrolled"));
    let list = JsonValue::Array(vec![obj(vec![("name", s("alice"))]), obj(vec![("name", s("bob"))])]);
    match enrollment_after_list(Some(list)) {
        EnrollmentNext::Inspect(args) => assert_eq!(args, vec!["inspect", "-j", "alice", "bob"]),
        EnrollmentNext::Finish(_) => panic!("users were listed"),
    }
}

#[test]
fn enrollment_step_from_records() {
    assert_eq!(enrollment_after_inspect(None), None);
    let with = obj(vec![("fido2HmacCredential", JsonValue::Array(vec![s("c")]))]);
    assert_eq!(enrollment_after_inspect(Some(vec![obj(vec![]), with])), Some(String::from("Enrolled")));
    assert_eq!(enrollment_after_inspect(Some(vec![])), Some(String::from("Not enrolled")));
}

#[test]
fn user_list_is_parsed_from_bytes() {
    let v = parse_user_list(br#"[{"name":"alice","uid":1000},{"uid":2}]"#.to_vec()).unwrap();
    assert_eq!(extract_homectl_usernames(&v), vec![String::from("alice")]);
    assert!(parse_user_list(b"[{\"name\":".to_vec()).is_none());
    assert!(parse_user_list(vec![b'[', 0xff, b']']).is_none());
    match parse_user_list(b" 12.5 ".to_vec()) {
        Some(JsonValue::Number(n)) => assert_eq!(n, "12.5"),
        _ => panic!("a number parses"),
    }
}

#[test]
fn inspect_records_are_parsed_per_line() {
    let out = b"{\"userName\":\"alice\",\"privileged\":{\"fido2HmacCredential\":[\"x\"]}}\n\n  \n{\"userName\":\"bob\"}\n";
    let rs = parse_inspect_records(&out.to_vec()).unwrap();
    assert_eq!(rs.len(), 2);
    assert!(has_fido2_hmac_credential(&rs[0]));
    assert!(!has_fido2_hmac_credential(&rs[1]));
    assert_eq!(enrollment_of_records(&rs), "Enrolled");
    assert!(parse_inspect_records(&b"{}\nnot json\n".to_vec()).is_none());
    assert_eq!(parse_inspect_records(&Vec::new()).map(|r| r.len()), Some(0));
}

#[test]
fn inspect_output_is_decoded_lossily() {
    let mut out = b"{\"userName\":\"".to_vec();
    out.push(0xff);
    out.extend_from_slice(b"\",\"fido2HmacCredential\":[1]}\n");
    let rs = parse_inspect_records(&out).unwrap();
    assert_eq!(rs.len(), 1);
    assert!(has_fido2_hmac_credential(&rs[0]));
    assert!(parse_user_list(out).is_none());
}
