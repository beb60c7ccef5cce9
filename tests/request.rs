use sunk::api::Api;
use sunk::auth::{random_salt, SunkAuth, SALT_SIZE};
use sunk::client::Sunk;
use sunk::error::{Error, UriError};
use sunk::library::{search_query, SearchPage};
use sunk::query::Query;

#[test]
fn query_renders_in_order() {
    let q = Query::with("id", "189").arg("size", "300").arg("format", "mp3");
    assert_eq!(q.build(), "id=189&size=300&format=mp3");
}

#[test]
fn query_new_is_empty() {
    assert_eq!(Query::new().build(), "");
    assert_eq!(Query::new().arg("a", "1").build(), "a=1");
}

#[test]
fn absent_maybe_arg_is_omitted() {
    let with_absent = Query::with("id", "7").maybe_arg("size", None).arg("x", "y");
    let without = Query::with("id", "7").arg("x", "y");
    assert_eq!(with_absent.build(), without.build());
    assert_eq!(with_absent.build(), "id=7&x=y");
}

#[test]
fn present_maybe_arg_is_added() {
    let q = Query::with("id", "7").maybe_arg("size", Some("64"));
    assert_eq!(q.build(), "id=7&size=64");
}

#[test]
fn api_renders_and_orders() {
    assert_eq!(Api::new(1, 14, 0).to_text(), "1.14.0");
    assert_eq!(Api::new(10, 2, 345).to_text(), "10.2.345");
    assert!(Api::new(1, 13, 0).at_least(&Api::new(1, 13, 0)));
    assert!(Api::new(2, 0, 0).at_least(&Api::new(1, 14, 9)));
    assert!(!Api::new(1, 12, 9).at_least(&Api::new(1, 13, 0)));
}

#[test]
fn token_auth_from_1_13() {
    let auth = SunkAuth::new("joe", "sesame");
    let q = auth.auth_query(Api::new(1, 14, 0), "sunk", "c19b2d").build();
    assert_eq!(
        q,
        "u=joe&t=26719a1196d2a940705a59634eb18eab&s=c19b2d&v=1.14.0&c=sunk&f=json"
    );
    let q = auth.auth_query(Api::new(1, 13, 0), "sunk", "c19b2d").build();
    assert!(q.contains("t=") && q.contains("s=") && !q.contains("p="));
    assert!(q.ends_with("&f=xml"));
}

#[test]
fn password_auth_before_1_13() {
    let auth = SunkAuth::new("joe", "sesame");
    let q = auth.auth_query(Api::new(1, 12, 0), "sunk", "c19b2d").build();
    assert_eq!(q, "u=joe&p=sesame&v=1.12.0&c=sunk&f=xml");
    assert!(!q.contains("t=") && !q.contains("s="));
}

#[test]
fn fresh_salt_is_alphanumeric() {
    let s = random_salt();
    assert_eq!(s.len(), SALT_SIZE);
    assert!(s.chars().all(|c| c.is_ascii_alphanumeric()));
}

#[test]
fn as_uri_uses_salted_token() {
    let auth = SunkAuth::new("joe", "sesame");
    let frag = auth.as_uri(Api::new(1, 14, 0), "sunk");
    let parts: Vec<&str> = frag.split('&').collect();
    assert_eq!(parts.len(), 6);
    assert_eq!(parts[0], "u=joe");
    let salt = parts[2].strip_prefix("s=").unwrap();
    assert_eq!(salt.len(), SALT_SIZE);
    let token = format!("{:x}", md5::compute(format!("sesame{}", salt).as_bytes()));
    assert_eq!(parts[1], format!("t={}", token));
    assert_eq!(&parts[3..], &["v=1.14.0", "c=sunk", "f=json"]);
}

#[test]
fn url_with_scheme_and_authority() {
    let s = Sunk::new("https://demo.subsonic.org:8080", "guest3", "guest").unwrap();
    let u = s.url_with_auth("ping", &Query::with("", ""), "u=a&p=b").unwrap();
    assert_eq!(u, "https://demo.subsonic.org:8080/rest/ping?u=a&p=b&=");
}

#[test]
fn url_defaults_to_http() {
    let s = Sunk::new("demo.subsonic.org", "guest3", "guest").unwrap();
    let u = s.url_with_auth("stream", &Query::with("id", "189"), "x=1").unwrap();
    assert_eq!(u, "http://demo.subsonic.org/rest/stream?x=1&id=189");
}

#[test]
fn url_without_address_fails() {
    let s = Sunk::new("/rest", "guest3", "guest").unwrap();
    let r = s.build_url("ping", &Query::new());
    assert!(matches!(r, Err(Error::Uri(UriError::Address))));
}

#[test]
fn build_url_has_auth_and_args() {
    let s = Sunk::new("http://demo.subsonic.org", "guest3", "guest").unwrap();
    let u = s.build_url("getCoverArt", &Query::with("id", "3")).unwrap();
    assert!(u.starts_with("http://demo.subsonic.org/rest/getCoverArt?u=guest3&t="));
    assert!(u.ends_with("&v=1.14.0&c=sunk&f=json&id=3"));
}

#[test]
fn unparsable_url_fails() {
    let r = Sunk::new("http://[::1", "guest3", "guest");
    assert!(matches!(r, Err(Error::Uri(UriError::Invalid))));
}

#[test]
fn search_query_pages() {
    let s = SearchPage::new().with_size(1);
    let q = search_query("dada", s, SearchPage::none(), s.with_offset(40));
    assert_eq!(
        q.build(),
        "query=dada&artistCount=1&artistOffset=0&albumCount=0&albumOffset=0&songCount=1&songOffset=40"
    );
    assert_eq!(SearchPage::new().count, 20);
}
