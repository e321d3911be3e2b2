use webapi::http::{handle_request, route_request, Route};
use webapi::json::render_json;
use webapi::numeral::{render_i32, render_u64};
use webapi::payload::{check_json_safe, Payload};

const BODY: &[u8] = b"{\"message\":\"Hello from Rust (axum)\",\"value\":42}";

#[test]
fn renders_zero() {
    assert_eq!(render_u64(0), b"0");
}

#[test]
fn renders_single_digit() {
    assert_eq!(render_u64(7), b"7");
}

#[test]
fn renders_forty_two() {
    assert_eq!(render_u64(42), b"42");
}

#[test]
fn renders_round_number() {
    assert_eq!(render_u64(1000), b"1000");
}

#[test]
fn renders_u64_max() {
    assert_eq!(render_u64(u64::MAX), b"18446744073709551615");
}

#[test]
fn renders_signed_zero() {
    assert_eq!(render_i32(0), b"0");
}

#[test]
fn renders_negative() {
    assert_eq!(render_i32(-1), b"-1");
}

#[test]
fn renders_i32_min() {
    assert_eq!(render_i32(i32::MIN), b"-2147483648");
}

#[test]
fn renders_i32_max() {
    assert_eq!(render_i32(i32::MAX), b"2147483647");
}

#[test]
fn hello_payload_is_fixed() {
    let p = Payload::hello();
    assert_eq!(p.message, b"Hello from Rust (axum)");
    assert_eq!(p.value, 42);
}

#[test]
fn payload_accepts_plain_message() {
    let p = Payload::new(b"hi there".to_vec(), 5).unwrap();
    assert_eq!(p.message, b"hi there");
    assert_eq!(p.value, 5);
}

#[test]
fn payload_rejects_quote() {
    assert!(Payload::new(b"a\"b".to_vec(), 0).is_none());
}

#[test]
fn payload_rejects_backslash() {
    assert!(Payload::new(b"a\\b".to_vec(), 0).is_none());
}

#[test]
fn payload_rejects_control_byte() {
    assert!(Payload::new(b"a\nb".to_vec(), 0).is_none());
}

#[test]
fn json_safe_check() {
    assert!(check_json_safe(&b"Hello from Rust (axum)".to_vec()));
    assert!(!check_json_safe(&vec![0u8]));
}

#[test]
fn renders_hello_json() {
    let p = Payload::hello();
    assert_eq!(render_json(&p), BODY);
}

#[test]
fn renders_other_payload_json() {
    let p = Payload::new(b"ok".to_vec(), -3).unwrap();
    assert_eq!(render_json(&p), b"{\"message\":\"ok\",\"value\":-3}");
}

#[test]
fn distinct_payloads_have_distinct_bodies() {
    let p1 = Payload::new(b"a".to_vec(), 1).unwrap();
    let p2 = Payload::new(b"a".to_vec(), 2).unwrap();
    let p3 = Payload::new(b"b".to_vec(), 1).unwrap();
    assert_ne!(render_json(&p1), render_json(&p2));
    assert_ne!(render_json(&p1), render_json(&p3));
}

#[test]
fn routes_get_json() {
    assert_eq!(route_request(b"GET", b"/json"), Route::JsonEndpoint);
}

#[test]
fn routes_post_json() {
    assert_eq!(route_request(b"POST", b"/json"), Route::MethodNotAllowed);
}

#[test]
fn routes_root() {
    assert_eq!(route_request(b"GET", b"/"), Route::NotFound);
}

#[test]
fn routes_longer_path() {
    assert_eq!(route_request(b"GET", b"/json/extra"), Route::NotFound);
}

#[test]
fn routes_lowercase_method() {
    assert_eq!(route_request(b"get", b"/json"), Route::MethodNotAllowed);
}

#[test]
fn serves_get_json() {
    let p = Payload::hello();
    let r = handle_request(&p, b"GET", b"/json");
    assert_eq!(r.status, 200);
    assert_eq!(r.content_type, b"application/json");
    assert_eq!(r.body, BODY);
}

#[test]
fn unknown_path_is_not_found() {
    let p = Payload::hello();
    let r = handle_request(&p, b"GET", b"/nonexistent");
    assert_eq!(r.status, 404);
    assert!(r.body.is_empty());
}

#[test]
fn wrong_method_is_rejected() {
    let p = Payload::hello();
    let r = handle_request(&p, b"POST", b"/json");
    assert_eq!(r.status, 405);
    assert_ne!(r.body, BODY);
}

#[test]
fn repeated_requests_are_byte_identical() {
    let p = Payload::hello();
    let first = handle_request(&p, b"GET", b"/json");
    let second = handle_request(&p, b"GET", b"/json");
    assert_eq!(first.body, second.body);
    assert_eq!(first.status, second.status);
    assert_eq!(first.content_type, second.content_type);
}
