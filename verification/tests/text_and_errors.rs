use overwatch::auth::{authorize, base64_text, basic_authorization_header};
use overwatch::config::{sendcloud_settings, pennylane_settings, Config};
use overwatch::error::AppError;
use overwatch::text::{
    decimal_text, is_blank, parse_cents, parse_i32, parse_i64, parse_u64, signed_decimal_text,
};

#[test]
fn blank_texts_are_only_white_space() {
    assert!(is_blank(""));
    assert!(is_blank("  \t\n"));
    assert!(is_blank("\u{a0}\u{3000}"));
    assert!(!is_blank(" a "));
    assert!(!is_blank("SKU-1"));
}

#[test]
fn decimal_text_matches_display() {
    assert_eq!(decimal_text(0), "0");
    assert_eq!(decimal_text(1234), "1234");
    assert_eq!(decimal_text(u64::MAX), u64::MAX.to_string());
    assert_eq!(signed_decimal_text(-42), "-42");
    assert_eq!(signed_decimal_text(i64::MIN), i64::MIN.to_string());
    assert_eq!(signed_decimal_text(7), "7");
}

#[test]
fn integer_parsing_matches_std() {
    let cases = [
        "", "+", "-", "0", "+5", "-5", "12", "007", "1_0", " 1", "1 ", "18446744073709551615",
        "18446744073709551616", "9223372036854775807", "9223372036854775808",
        "-9223372036854775808", "-9223372036854775809", "2147483647", "2147483648", "-2147483648",
        "-2147483649", "-0", "abc",
    ];
    for c in cases {
        assert_eq!(parse_u64(c), c.parse::<u64>().ok(), "u64 {c}");
        assert_eq!(parse_i64(c), c.parse::<i64>().ok(), "i64 {c}");
        assert_eq!(parse_i32(c), c.parse::<i32>().ok(), "i32 {c}");
    }
}

#[test]
fn amounts_read_as_cents() {
    assert_eq!(parse_cents("50.4"), Some(5040));
    assert_eq!(parse_cents("230.32"), Some(23032));
    assert_eq!(parse_cents("-10.0"), Some(-1000));
    assert_eq!(parse_cents("+3"), Some(300));
    assert_eq!(parse_cents("0.05"), Some(5));
    assert_eq!(parse_cents("1.234"), None);
    assert_eq!(parse_cents(".5"), None);
    assert_eq!(parse_cents("5."), None);
    assert_eq!(parse_cents(""), None);
    assert_eq!(parse_cents("1,5"), None);
    assert_eq!(parse_cents("92233720368547758.07"), Some(i64::MAX));
    assert_eq!(parse_cents("92233720368547758.08"), None);
    assert_eq!(parse_cents("-92233720368547758.08"), Some(i64::MIN));
}

#[test]
fn app_errors_have_their_texts_and_statuses() {
    let e = AppError::NotFound;
    assert_eq!(e.message(), "not found");
    assert_eq!(e.http_status(), 404);
    let e = AppError::Validation("sku et name sont requis".to_string());
    assert_eq!(e.message(), "validation error: sku et name sont requis");
    assert_eq!(e.http_status(), 400);
    assert_eq!(e.body().error, "validation error: sku et name sont requis");
    let e = AppError::Db("connection refused".to_string());
    assert_eq!(e.message(), "database error: connection refused");
    assert_eq!(e.http_status(), 500);
    let e = AppError::External("boom".to_string());
    assert_eq!(e.message(), "external service error: boom");
    assert_eq!(e.http_status(), 502);
}

#[test]
fn config_takes_defaults_and_reads_integration_id() {
    let c = Config::from_values(
        "postgres://db".to_string(),
        None,
        "admin".to_string(),
        "secret".to_string(),
        None,
        None,
        None,
        Some("pk".to_string()),
        Some("sk".to_string()),
        Some("12".to_string()),
    );
    assert_eq!(c.database_url, "postgres://db");
    assert_eq!(c.app_username, "admin");
    assert_eq!(c.listen_addr, "0.0.0.0:8080");
    assert_eq!(c.pennylane_base_url, "https://app.pennylane.com");
    assert_eq!(c.sendcloud_base_url, "https://panel.sendcloud.sc/api/v3");
    assert_eq!(c.sendcloud_integration_id, Some(12));
    let s = sendcloud_settings(&c).ok().unwrap();
    assert_eq!(s.integration_id, 12);
    assert_eq!(s.public_key, "pk");
    match pennylane_settings(&c) {
        Err(AppError::External(m)) => {
            assert_eq!(m, "Pennylane n'est pas configuré (PENNYLANE_API_TOKEN manquant)")
        }
        _ => panic!("expected a missing-token error"),
    }

    let c = Config::from_values(
        "db".to_string(),
        Some("127.0.0.1:9000".to_string()),
        "admin".to_string(),
        "secret".to_string(),
        Some("http://pl".to_string()),
        Some("tok".to_string()),
        None,
        Some("pk".to_string()),
        None,
        Some("x".to_string()),
    );
    assert_eq!(c.listen_addr, "127.0.0.1:9000");
    assert_eq!(c.sendcloud_integration_id, None);
    assert_eq!(pennylane_settings(&c).ok(), Some(("http://pl".to_string(), "tok".to_string())));
    assert!(sendcloud_settings(&c).is_err());
}

#[test]
fn base64_matches_the_standard_alphabet() {
    assert_eq!(base64_text(b""), "");
    assert_eq!(base64_text(b"f"), "Zg==");
    assert_eq!(base64_text(b"fo"), "Zm8=");
    assert_eq!(base64_text(b"foo"), "Zm9v");
    assert_eq!(base64_text(b"foobar"), "Zm9vYmFy");
    assert_eq!(base64_text(&[0xff, 0xfe, 0xfd, 0x00]), "//79AA==");
}

#[test]
fn basic_authorization_guards_all_but_the_health_check() {
    assert_eq!(
        basic_authorization_header("Aladdin", "open sesame"),
        "Basic QWxhZGRpbjpvcGVuIHNlc2FtZQ=="
    );
    assert!(authorize("/health", None, "Aladdin", "open sesame"));
    assert!(!authorize("/products", None, "Aladdin", "open sesame"));
    assert!(authorize("/products", Some("Basic QWxhZGRpbjpvcGVuIHNlc2FtZQ=="), "Aladdin", "open sesame"));
    assert!(!authorize("/products", Some("Basic QWxhZGRpbjpvcGVu"), "Aladdin", "open sesame"));
    assert!(!authorize("/", Some("Bearer x"), "Aladdin", "open sesame"));
    assert!(authorize("/products", Some("basic QWxhZGRpbjpvcGVuIHNlc2FtZQ=="), "Aladdin", "open sesame"));
    assert!(authorize("/products", Some("BASIC QWxhZGRpbjpvcGVuIHNlc2FtZQ=="), "Aladdin", "open sesame"));
    assert!(!authorize("/products", Some("Basic  QWxhZGRpbjpvcGVuIHNlc2FtZQ=="), "Aladdin", "open sesame"));
    assert!(!authorize("/products", Some("Basic"), "Aladdin", "open sesame"));
    assert_eq!(basic_authorization_header("é", "p"), format!("Basic {}", "w6k6cA=="));
}
