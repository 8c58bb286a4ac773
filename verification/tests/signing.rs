use coinbase::client::Client;
use coinbase::decimal::decimal_i64;
use coinbase::decimal::decimal_u64;
use coinbase::error::Error;
use coinbase::message::build;
use coinbase::message::Method;
use coinbase::signer::sign;
use coinbase::signer::to_hex;
use coinbase::target::locate;
use coinbase::target::Target;

#[test]
fn sign_reference_vector() {
    let signed = sign(b"key", "The quick brown fox jumps over the lazy dog").unwrap();
    assert!(signed.starts_with("f7bc83f430538424b13298e6aa6fb143ef4d59a14946175997479dbc2d1a3cd"));
    assert_eq!(signed, "f7bc83f430538424b13298e6aa6fb143ef4d59a14946175997479dbc2d1a3cd8");
}

#[test]
fn sign_is_deterministic_and_sixty_four_lowercase_hex() {
    let first = sign(b"secret", "1609459200GET/v2/user").unwrap();
    let second = sign(b"secret", "1609459200GET/v2/user").unwrap();
    assert_eq!(first, second);
    assert_eq!(first.len(), 64);
    assert!(first.chars().all(|c| c.is_ascii_digit() || ('a'..='f').contains(&c)));
}

#[test]
fn sign_takes_empty_short_and_long_secrets() {
    let long = vec![7u8; 200];
    assert_eq!(sign(b"", "m").unwrap().len(), 64);
    assert_eq!(sign(b"k", "m").unwrap().len(), 64);
    assert_eq!(sign(&long, "m").unwrap().len(), 64);
    assert_ne!(sign(b"k", "m").unwrap(), sign(&long, "m").unwrap());
}

#[test]
fn sign_changes_with_the_message() {
    let first = sign(b"secret", "1609459200GET/v2/user").unwrap();
    let second = sign(b"secret", "1609459201GET/v2/user").unwrap();
    assert_ne!(first, second);
}

#[test]
fn to_hex_renders_each_byte_as_two_characters() {
    assert_eq!(to_hex(&[]), "");
    assert_eq!(to_hex(&[0x00, 0x0f, 0xa5, 0xff]), "000fa5ff");
}

#[test]
fn decimal_text_of_integers() {
    assert_eq!(decimal_i64(0), "0");
    assert_eq!(decimal_i64(1609459200), "1609459200");
    assert_eq!(decimal_i64(-42), "-42");
    assert_eq!(decimal_i64(i64::MIN), "-9223372036854775808");
    assert_eq!(decimal_i64(i64::MAX), "9223372036854775807");
    assert_eq!(decimal_u64(25), "25");
    assert_eq!(decimal_u64(u64::MAX), "18446744073709551615");
}

#[test]
fn canonical_message_without_query() {
    let message = build(1609459200, Method::GET, "/v2/user", None, "");
    assert_eq!(message, "1609459200GET/v2/user");
}

#[test]
fn canonical_message_with_query() {
    let message = build(1609459200, Method::GET, "/v2/exchange-rates", Some("currency=EUR"), "");
    assert_eq!(message, "1609459200GET/v2/exchange-rates?currency=EUR");
}

#[test]
fn canonical_message_puts_the_body_last() {
    let message = build(5, Method::POST, "/v2/accounts", Some("a=b"), "{\"name\":\"x\"}");
    assert_eq!(message, "5POST/v2/accounts?a=b{\"name\":\"x\"}");
    assert_eq!(build(5, Method::PUT, "/p", None, "body"), "5PUT/pbody");
    assert_eq!(build(5, Method::DELETE, "/p", Some(""), ""), "5DELETE/p?");
}

#[test]
fn canonical_message_changes_with_each_part() {
    let base = build(10, Method::GET, "/v2/user", None, "");
    assert_ne!(base, build(11, Method::GET, "/v2/user", None, ""));
    assert_ne!(base, build(10, Method::PUT, "/v2/user", None, ""));
    assert_ne!(base, build(10, Method::GET, "/v2/users", None, ""));
    assert_ne!(base, build(10, Method::GET, "/v2/user", Some(""), ""));
    assert_ne!(base, build(10, Method::GET, "/v2/user", None, "x"));
}

#[test]
fn anonymous_client_sends_no_auth_headers() {
    let client = Client::new();
    assert!(!client.has_auth());
    let auth = client.auth_headers(Method::GET, "/v2/user", None, "").unwrap();
    assert!(auth.is_empty());
    let target = locate("user").unwrap();
    let request = client.request(Method::GET, &target, String::new()).unwrap();
    assert_eq!(request.headers.len(), 5);
    for header in request.headers.iter() {
        assert_ne!(header.name, "CB-ACCESS-KEY");
        assert_ne!(header.name, "CB-ACCESS-SIGN");
        assert_ne!(header.name, "CB-ACCESS-TIMESTAMP");
    }
}

#[test]
fn half_a_credential_is_no_credential() {
    assert!(!Client::private("key", "").has_auth());
    assert!(!Client::private("", "secret").has_auth());
    assert!(Client::private("key", "secret").has_auth());
    let auth = Client::private("key", "").auth_headers(Method::GET, "/v2/user", None, "").unwrap();
    assert!(auth.is_empty());
}

#[test]
fn authenticated_client_sends_the_signed_triple() {
    let client = Client::private("my-key", "my-secret");
    let auth = client.auth_headers_at(1609459200, Method::GET, "/v2/user", None, "").unwrap();
    assert_eq!(auth.len(), 3);
    assert_eq!(auth[0].name, "CB-ACCESS-KEY");
    assert_eq!(auth[0].value, "my-key");
    assert_eq!(auth[1].name, "CB-ACCESS-SIGN");
    assert_eq!(auth[1].value, sign(b"my-secret", "1609459200GET/v2/user").unwrap());
    assert_eq!(auth[2].name, "CB-ACCESS-TIMESTAMP");
    assert_eq!(auth[2].value, "1609459200");
    assert!(auth.iter().all(|header| header.sensitive));
}

#[test]
fn request_carries_protocol_headers_then_auth_headers() {
    let client = Client::private("k", "s");
    let target = locate("accounts?limit=1").unwrap();
    assert_eq!(target.path, "/v2/accounts");
    assert_eq!(target.query, Some(String::from("limit=1")));
    let request = client.request_at(7, Method::POST, &target, String::from("{}")).unwrap();
    assert_eq!(request.method, Method::POST);
    assert_eq!(request.url, "https://api.coinbase.com/v2/accounts?limit=1");
    assert_eq!(request.body, "{}");
    let names: Vec<&str> = request.headers.iter().map(|header| header.name.as_str()).collect();
    assert_eq!(
        names,
        vec![
            "Accept",
            "Accept-Language",
            "Content-Type",
            "User-Agent",
            "CB-VERSION",
            "CB-ACCESS-KEY",
            "CB-ACCESS-SIGN",
            "CB-ACCESS-TIMESTAMP"
        ]
    );
    assert_eq!(request.headers[0].value, "application/json");
    assert_eq!(request.headers[1].value, "en");
    assert_eq!(request.headers[2].value, "application/json");
    assert_eq!(request.headers[3].value, "coinbase/rs/0.1.0");
    assert_eq!(request.headers[4].value, "2019-11-15");
    assert_eq!(request.headers[6].value, sign(b"s", "7POST/v2/accounts?limit=1{}").unwrap());
    assert_eq!(request.headers[7].value, "7");
    assert!(!request.headers[0].sensitive);
    assert!(request.headers[5].sensitive);
}

#[test]
fn key_with_a_control_character_is_refused() {
    let client = Client::private("bad\nkey", "secret");
    let outcome = client.auth_headers_at(1, Method::GET, "/v2/user", None, "");
    assert!(matches!(outcome, Err(Error::InvalidAuth)));
    let target = Target {
        url: String::from("https://api.coinbase.com/v2/user"),
        path: String::from("/v2/user"),
        query: None,
    };
    let request = client.request_at(1, Method::GET, &target, String::new());
    assert!(matches!(request, Err(Error::InvalidAuth)));
    let tabbed = Client::private("tab\tkey", "secret");
    assert!(tabbed.auth_headers_at(1, Method::GET, "/v2/user", None, "").is_ok());
    let delete = Client::private("del\u{7f}key", "secret");
    assert!(delete.auth_headers_at(1, Method::GET, "/v2/user", None, "").is_err());
    let wide = Client::private("k\u{e9}y", "secret");
    assert!(wide.auth_headers_at(1, Method::GET, "/v2/user", None, "").is_ok());
}

#[test]
fn addresses_lie_below_the_root_of_the_service() {
    let plain = locate("user").unwrap();
    assert_eq!(plain.url, "https://api.coinbase.com/v2/user");
    assert_eq!(plain.path, "/v2/user");
    assert_eq!(plain.query, None);
    let asked = locate("exchange-rates?currency=EUR").unwrap();
    assert_eq!(asked.url, "https://api.coinbase.com/v2/exchange-rates?currency=EUR");
    assert_eq!(asked.path, "/v2/exchange-rates");
    assert_eq!(asked.query, Some(String::from("currency=EUR")));
    let spaced = locate("accounts/my account").unwrap();
    assert_eq!(spaced.path, "/v2/accounts/my%20account");
    let empty = locate("").unwrap();
    assert_eq!(empty.path, "/v2/");
}

#[test]
fn dispatch_signs_the_path_and_the_query_of_the_address() {
    let client = Client::private("k", "s");
    let call = client.rates(Some("EUR"));
    let request = client.dispatch_at(1609459200, call).unwrap().unwrap();
    assert_eq!(request.method, Method::GET);
    assert_eq!(request.url, "https://api.coinbase.com/v2/exchange-rates?currency=EUR");
    assert_eq!(request.body, "");
    assert_eq!(
        request.headers[6].value,
        sign(b"s", "1609459200GET/v2/exchange-rates?currency=EUR").unwrap()
    );
    assert_eq!(request.headers[7].value, "1609459200");
}
