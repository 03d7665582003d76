use treblle_wasm::certs::load_custom_certificates;
use treblle_wasm::error::TreblleError;
use treblle_wasm::host_buffer::{bytes_from_buffer, read_from_buffer};
use treblle_wasm::json::Json;
use treblle_wasm::pattern::KeyPattern;
use treblle_wasm::route_blacklist::RouteBlacklist;
use treblle_wasm::text::{contains_str, strip_nul, u64_to_decimal};
use treblle_wasm::utils::{
    extract_ip_from_headers, is_json, is_json_lowercase, mask_sensitive_data,
    mask_sensitive_headers, mask_value,
};

fn s(x: &str) -> String {
    x.to_string()
}

fn obj(entries: Vec<(&str, Json)>) -> Json {
    Json::Object(entries.into_iter().map(|(k, v)| (k.to_string(), v)).collect())
}

fn field<'a>(j: &'a Json, key: &str) -> &'a Json {
    match j {
        Json::Object(es) => &es.iter().find(|(k, _)| k == key).expect("key present").1,
        _ => panic!("not an object"),
    }
}

fn is_str(j: &Json, v: &str) -> bool {
    matches!(j, Json::Str(x) if x == v)
}

fn header<'a>(h: &'a [(String, String)], name: &str) -> &'a str {
    &h.iter().find(|(k, _)| k == name).expect("header present").1
}

#[test]
fn utils_test_is_json() {
    assert!(is_json("application/json"));
    assert!(is_json("Application/JSON"));
    assert!(!is_json("text/plain"));
}

#[test]
fn payload_test_is_json() {
    assert!(is_json("application/json"));
    assert!(is_json("application/json; charset=utf-8"));
    assert!(!is_json("text/plain"));
}

#[test]
fn is_json_on_lowered_text() {
    assert!(is_json_lowercase("application/json"));
    assert!(!is_json_lowercase("Application/JSON"));
    assert!(!is_json_lowercase(""));
    assert!(!is_json_lowercase("application/jso"));
}

#[test]
fn test_mask_sensitive_data() {
    let data = obj(vec![
        ("username", Json::Str(s("john_doe"))),
        ("password", Json::Str(s("secret123"))),
        ("email", Json::Str(s("john@example.com"))),
    ]);
    let masked = mask_sensitive_data(&data, r"password|email").ok().unwrap();
    assert!(is_str(field(&masked, "username"), "john_doe"));
    assert!(is_str(field(&masked, "password"), "*****"));
    assert!(is_str(field(&masked, "email"), "*****"));
}

#[test]
fn test_mask_sensitive_headers() {
    let headers = vec![(s("User-Agent"), s("TestAgent")), (s("Authorization"), s("Bearer token123"))];

    let masked = mask_sensitive_headers(&headers, r"Authorization").ok().unwrap();

    assert_eq!(header(&masked, "User-Agent"), "TestAgent");
    assert_eq!(header(&masked, "Authorization"), "*****");
}

#[test]
fn utils_test_invalid_regex() {
    let data = obj(vec![("key", Json::Str(s("value")))]);
    let result = mask_sensitive_data(&data, r"[invalid regex");
    assert!(result.is_err());
    assert!(matches!(result, Err(TreblleError::Regex(_))));
}

#[test]
fn masking_reaches_nested_objects_and_arrays() {
    let data = obj(vec![
        ("user", obj(vec![("name", Json::Str(s("a"))), ("Password", Json::Str(s("x")))])),
        ("list", Json::Array(vec![obj(vec![("pwd", Json::Number(s("1")))]), Json::Bool(true)])),
        ("secret", obj(vec![("inner", Json::Str(s("kept out")))])),
    ]);
    let masked = mask_sensitive_data(&data, r"(?i)(password|pwd|secret)").ok().unwrap();
    assert!(is_str(field(field(&masked, "user"), "name"), "a"));
    assert!(is_str(field(field(&masked, "user"), "Password"), "*****"));
    match field(&masked, "list") {
        Json::Array(items) => {
            assert!(is_str(field(&items[0], "pwd"), "*****"));
            assert!(matches!(items[1], Json::Bool(true)));
        },
        _ => panic!("array expected"),
    }
    // the masked value replaces the whole subtree
    assert!(is_str(field(&masked, "secret"), "*****"));
}

#[test]
fn masking_leaves_clean_values_alone() {
    let pattern = KeyPattern::new("password").ok().unwrap();
    let data = obj(vec![
        ("a", Json::Array(vec![Json::Null, Json::Number(s("2.5"))])),
        ("b", obj(vec![("c", Json::Str(s("d")))])),
    ]);
    let masked = mask_value(&data, &pattern);
    assert!(matches!(field(&masked, "a"), Json::Array(v) if v.len() == 2 && matches!(v[0], Json::Null)));
    assert!(is_str(field(field(&masked, "b"), "c"), "d"));
    // scalars pass through
    assert!(matches!(mask_value(&Json::Number(s("7")), &pattern), Json::Number(n) if n == "7"));
}

#[test]
fn header_masking_keeps_order_and_names() {
    let headers = vec![(s("B"), s("1")), (s("password"), s("2")), (s("A"), s("3"))];
    let masked = mask_sensitive_headers(&headers, "password").ok().unwrap();
    assert_eq!(masked, vec![(s("B"), s("1")), (s("password"), s("*****")), (s("A"), s("3"))]);
    assert!(mask_sensitive_headers(&headers, "(").is_err());
}

#[test]
fn test_route_blacklist() {
    let blacklist = RouteBlacklist::new(&[r"^/api/internal/.*$".to_string(), r"^/health$".to_string()]);

    assert!(blacklist.is_blacklisted("/api/internal/users"));
    assert!(blacklist.is_blacklisted("/health"));
    assert!(!blacklist.is_blacklisted("/api/public/users"));
    assert!(!blacklist.is_blacklisted("/healthcheck"));
}

#[test]
fn blacklist_rejects_a_bad_pattern() {
    let r = RouteBlacklist::try_new(&["^/ok$".to_string(), "[invalid regex".to_string()]);
    assert!(matches!(r, Err(TreblleError::Regex(_))));
    let empty = RouteBlacklist::try_new(&[]).ok().unwrap();
    assert!(!empty.is_blacklisted("/anything"));
}

#[test]
fn blacklist_matches_anywhere_in_the_uri() {
    let b = RouteBlacklist::new(&["internal".to_string()]);
    assert!(b.is_blacklisted("/api/internal/x"));
    assert!(!b.is_blacklisted("/api/public"));
}

#[test]
fn ip_prefers_forwarded_for() {
    let h = vec![(s("X-Real-IP"), s("9.9.9.9")), (s("X-Forwarded-For"), s(" 10.0.0.1 , 10.0.0.2"))];
    assert_eq!(extract_ip_from_headers(&h), Some(s("10.0.0.1")));
}

#[test]
fn ip_falls_back_to_real_ip() {
    let h = vec![(s("X-Real-IP"), s("9.9.9.9"))];
    assert_eq!(extract_ip_from_headers(&h), Some(s("9.9.9.9")));
}

#[test]
fn ip_absent_without_either_header() {
    let h = vec![(s("x-forwarded-for"), s("1.1.1.1"))];
    assert_eq!(extract_ip_from_headers(&h), None);
    assert_eq!(extract_ip_from_headers(&vec![]), None);
}

#[test]
fn ip_of_empty_forwarded_for_is_empty() {
    let h = vec![(s("X-Forwarded-For"), s(",1.2.3.4"))];
    assert_eq!(extract_ip_from_headers(&h), Some(s("")));
}

#[test]
fn decimal_text() {
    assert_eq!(u64_to_decimal(0), "0");
    assert_eq!(u64_to_decimal(404), "404");
    assert_eq!(u64_to_decimal(u64::MAX), "18446744073709551615");
}

#[test]
fn substring_search() {
    assert!(contains_str("abc", ""));
    assert!(contains_str("xxapplication/jsonyy", "application/json"));
    assert!(!contains_str("ab", "abc"));
}

#[test]
fn nul_characters_are_removed() {
    assert_eq!(strip_nul("a\0b\0"), "ab");
    assert_eq!(strip_nul(""), "");
}

#[test]
fn host_buffer_text() {
    let buffer = b"/users\0\0\0".to_vec();
    assert_eq!(read_from_buffer(buffer.clone(), 6).ok().unwrap(), "/users");
    assert!(matches!(read_from_buffer(buffer.clone(), -1), Err(TreblleError::HostFunction(_))));
    assert!(matches!(read_from_buffer(buffer.clone(), 10), Err(TreblleError::HostFunction(_))));
    assert!(matches!(read_from_buffer(vec![0xff, 0xfe], 2), Err(TreblleError::HostFunction(_))));
    assert_eq!(bytes_from_buffer(buffer, 2).ok().unwrap(), b"/u".to_vec());
    assert_eq!(read_from_buffer("é".as_bytes().to_vec(), 2).ok().unwrap(), "é");
}

#[test]
fn custom_certificates_from_pem() {
    let pem = b"-----BEGIN CERTIFICATE-----\nAQID\n-----END CERTIFICATE-----\n";
    assert_eq!(load_custom_certificates(pem).ok().unwrap(), vec![vec![1u8, 2, 3]]);
    let none = b"no certificates here\n";
    assert!(matches!(load_custom_certificates(none), Err(TreblleError::Certificate(d)) if d == "No certificates found in the custom root CA file"));
    let broken = b"-----BEGIN CERTIFICATE-----\nAQID\n";
    assert!(matches!(load_custom_certificates(broken), Err(TreblleError::Certificate(_))));
}

#[test]
fn seconds_are_written_with_six_decimals() {
    assert_eq!(treblle_wasm::schema::seconds_string(0), "0.000000");
    assert_eq!(treblle_wasm::schema::seconds_string(999_999), "0.999999");
    assert_eq!(treblle_wasm::schema::seconds_string(12_000_005), "12.000005");
}
