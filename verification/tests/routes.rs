use oqto::routes::{
    build_cors_policy, cors_headers, cors_methods, is_valid_header_value, max_body_size,
    CorsPolicy, PERMISSIONS_POLICY,
};

fn strings(v: &[&str]) -> Vec<String> {
    v.iter().map(|s| s.to_string()).collect()
}

#[test]
fn body_limit_is_given_in_mebibytes() {
    assert_eq!(max_body_size(100), 104_857_600);
    assert_eq!(max_body_size(0), 0);
}

#[test]
fn permissions_policy_header() {
    assert_eq!(PERMISSIONS_POLICY, "geolocation=(), microphone=(self), camera=()");
}

#[test]
fn header_values() {
    assert!(is_valid_header_value("https://app.example.com"));
    assert!(is_valid_header_value("tab\there"));
    assert!(is_valid_header_value("caf\u{e9}"));
    assert!(is_valid_header_value(""));
    assert!(!is_valid_header_value("line\nbreak"));
    assert!(!is_valid_header_value("del\u{7f}"));
}

#[test]
fn no_origins_in_dev_mode_allows_local_origins() {
    assert_eq!(
        build_cors_policy(&vec![], true),
        CorsPolicy::Origins(strings(&[
            "http://localhost:3000",
            "http://localhost:3001",
            "http://127.0.0.1:3000",
            "http://127.0.0.1:3001",
        ]))
    );
}

#[test]
fn no_origins_in_production_denies_all() {
    assert_eq!(build_cors_policy(&vec![], false), CorsPolicy::DenyAll);
}

#[test]
fn invalid_origins_are_dropped() {
    let configured = strings(&["https://a.example", "bad\norigin", "https://b.example"]);
    assert_eq!(
        build_cors_policy(&configured, false),
        CorsPolicy::Origins(strings(&["https://a.example", "https://b.example"]))
    );
    assert_eq!(build_cors_policy(&strings(&["bad\norigin"]), false), CorsPolicy::DenyAll);
}

#[test]
fn dev_mode_adds_local_origins_once() {
    let configured = strings(&["http://localhost:3000", "https://a.example"]);
    assert_eq!(
        build_cors_policy(&configured, true),
        CorsPolicy::Origins(strings(&[
            "http://localhost:3000",
            "https://a.example",
            "http://localhost:3001",
            "http://127.0.0.1:3000",
            "http://127.0.0.1:3001",
        ]))
    );
    assert_eq!(
        build_cors_policy(&strings(&["bad\norigin"]), true),
        CorsPolicy::Origins(strings(&[
            "http://localhost:3000",
            "http://localhost:3001",
            "http://127.0.0.1:3000",
            "http://127.0.0.1:3001",
        ]))
    );
}

#[test]
fn allowed_methods_and_headers() {
    assert_eq!(cors_methods(), strings(&["GET", "POST", "PUT", "DELETE", "PATCH", "OPTIONS"]));
    assert_eq!(
        cors_headers(),
        strings(&["authorization", "content-type", "accept", "origin", "cookie"])
    );
}

#[test]
fn every_allowed_origin_is_a_header_value() {
    let configured = strings(&["https://a.example", "x\u{1}y", "http://localhost:3001"]);
    for dev in [false, true] {
        if let CorsPolicy::Origins(list) = build_cors_policy(&configured, dev) {
            assert!(list.iter().all(|o| is_valid_header_value(o)));
        } else {
            panic!("expected an origin list");
        }
    }
}
