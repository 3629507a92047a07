use rust_shop::cookie_jar::{cookies_from_header_values, split_cookie_header, Cookie, CookieJar, PrivateCookieJar};

fn key() -> Vec<u8> {
    (0u8..64).collect()
}

#[test]
fn jar_read_after_add_and_remove() {
    let jar = CookieJar::default()
        .add(Cookie::new("a".to_string(), "1".to_string()))
        .add(Cookie::new("b".to_string(), "2".to_string()))
        .add(Cookie::new("a".to_string(), "3".to_string()));
    assert_eq!(jar.get("a").unwrap().value(), "3");
    assert_eq!(jar.get("b").unwrap().value(), "2");
    assert_eq!(jar.iter().len(), 2);
    let jar = jar.remove(Cookie::new("a".to_string(), String::new()));
    assert!(jar.get("a").is_none());
    assert_eq!(jar.get("b").unwrap().name(), "b");
    assert_eq!(jar.iter().len(), 1);
}

#[test]
fn jar_from_request_cookies() {
    let cookies = vec![
        Cookie::new("x".to_string(), "1".to_string()),
        Cookie::new("y".to_string(), "2".to_string()),
        Cookie::new("x".to_string(), "9".to_string()),
    ];
    let jar = CookieJar::from_cookies(&cookies);
    assert_eq!(jar.get("x").unwrap().value(), "9");
    assert_eq!(jar.get("y").unwrap().value(), "2");
    assert!(jar.get("z").is_none());
}

#[test]
fn cookie_header_splitting_and_decoding() {
    assert_eq!(split_cookie_header("a=1; b=2"), vec!["a=1".to_string(), " b=2".to_string()]);
    let cookies = cookies_from_header_values(&vec!["a=1; b=hello%20world".to_string(), "novalue; c=3".to_string()]);
    let pairs: Vec<(String, String)> = cookies.iter().map(|c| (c.name().clone(), c.value().clone())).collect();
    assert_eq!(
        pairs,
        vec![
            ("a".to_string(), "1".to_string()),
            ("b".to_string(), "hello world".to_string()),
            ("c".to_string(), "3".to_string()),
        ]
    );
}

#[test]
fn private_jar_round_trip() {
    let jar = PrivateCookieJar::from_cookies(key(), &vec![]);
    let jar = jar.add(Cookie::new("token".to_string(), "secret value".to_string()));
    let c = jar.get("token").unwrap();
    assert_eq!(c.value(), "secret value");
    let listed = jar.iter();
    assert_eq!(listed.len(), 1);
    assert_eq!(listed[0].value(), "secret value");
    let jar = jar.remove(Cookie::new("token".to_string(), String::new()));
    assert!(jar.get("token").is_none());
}

#[test]
fn private_jar_drops_cookies_that_do_not_unseal() {
    let jar = PrivateCookieJar::from_cookies(key(), &vec![Cookie::new("token".to_string(), "plain".to_string())]);
    assert!(jar.get("token").is_none());
    assert!(jar.iter().is_empty());
}

#[test]
fn private_jar_stores_sealed_values() {
    let jar = PrivateCookieJar::from_cookies(key(), &vec![]);
    let jar = jar.add(Cookie::new("token".to_string(), "secret value".to_string()));
    let stored = jar.stored_value("token").unwrap();
    assert_ne!(stored, "secret value");
    assert!(stored.len() > "secret value".len());
    assert!(jar.stored_value("other").is_none());
}
