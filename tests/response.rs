use sunk::error::Error;
use sunk::response::{binary_probe, body_text, parse_response, scan_status_of, Envelope};
use sunk::util::{map_some_vec, map_str, map_vec_string};

fn ok(payload: Option<u32>) -> Envelope<u32> {
    Envelope::Success { version: "1.14.0".to_string(), payload }
}

#[test]
fn ok_envelope_yields_payload() {
    assert_eq!(parse_response(200, "getLicense", ok(Some(5))).unwrap(), Some(5));
    assert_eq!(parse_response(204, "search3", ok(Some(9))).unwrap(), Some(9));
}

#[test]
fn ok_envelope_without_payload_fails() {
    let r = parse_response(200, "getLicense", ok(None));
    assert!(matches!(r, Err(Error::ParseError(_))));
}

#[test]
fn failed_envelope_yields_server_error() {
    let env: Envelope<u32> = Envelope::Failure {
        version: "1.14.0".to_string(),
        code: 40,
        message: "x".to_string(),
    };
    match parse_response(200, "getLicense", env) {
        Err(Error::ServerError { code, message }) => {
            assert_eq!(code, 40);
            assert_eq!(message, "x");
        }
        other => panic!("unexpected {:?}", other),
    }
}

#[test]
fn non_success_status_is_connection_error() {
    assert!(matches!(parse_response(404, "getLicense", ok(Some(1))), Err(Error::ConnectionError(404))));
    let env: Envelope<u32> = Envelope::Failure {
        version: "1.14.0".to_string(),
        code: 40,
        message: "x".to_string(),
    };
    assert!(matches!(parse_response(500, "ping", env), Err(Error::ConnectionError(500))));
    assert!(matches!(parse_response(199, "ping", ok(None)), Err(Error::ConnectionError(199))));
}

#[test]
fn ping_yields_empty_payload() {
    assert_eq!(parse_response(200, "ping", ok(Some(77))).unwrap(), None);
    assert_eq!(parse_response(200, "ping", ok(None)).unwrap(), None);
}

#[test]
fn json_body_is_not_binary() {
    let body = br#"{"subsonic-response":{"status":"failed","error":{"code":70,"message":"x"}}}"#;
    assert!(matches!(binary_probe(body, "u".to_string()), Err(Error::NotBinary)));
    assert!(matches!(binary_probe(b"[1, 2]", "u".to_string()), Err(Error::NotBinary)));
}

#[test]
fn non_json_body_is_binary() {
    let url = "http://h/rest/stream?id=189".to_string();
    assert_eq!(binary_probe(&[0xff, 0xd8, 0xff, 0x00], url.clone()).unwrap(), url);
    assert_eq!(binary_probe(b"", url.clone()).unwrap(), url);
    assert_eq!(binary_probe(b"{\"a\":", url.clone()).unwrap(), url);
}

#[test]
fn body_text_decodes_utf8() {
    assert_eq!(body_text("h\u{e9}llo".as_bytes().to_vec()).unwrap(), "h\u{e9}llo");
    assert!(matches!(body_text(vec![0x68, 0xff]), Err(Error::Utf8Error)));
}

#[test]
fn scan_status_fields() {
    assert_eq!(scan_status_of(Some(false), Some(521)).unwrap(), (false, 521));
    assert!(matches!(scan_status_of(None, Some(1)), Err(Error::ParseError(_))));
    assert!(matches!(scan_status_of(Some(true), None), Err(Error::ParseError(_))));
}

#[test]
fn util_maps() {
    assert_eq!(map_str(Some(42u64)), Some("42".to_string()));
    assert_eq!(map_str::<u64>(None), None);
    assert_eq!(map_vec_string(Some(vec![1u8, 20])), Some(vec!["1".to_string(), "20".to_string()]));
    assert_eq!(map_vec_string::<u8>(None), None);
    assert_eq!(map_some_vec(Some(vec![1, 2, 3]), |n: &i32| n * 2), Some(vec![2, 4, 6]));
}

#[test]
fn envelope_from_parts() {
    let e: Envelope<u32> = Envelope::from_parts("ok", "1.14.0".to_string(), Some(3), None);
    assert!(matches!(e, Envelope::Success { payload: Some(3), .. }));
    let e: Envelope<u32> =
        Envelope::from_parts("failed", "1.14.0".to_string(), None, Some((40, "x".to_string())));
    match e {
        Envelope::Failure { code, message, .. } => {
            assert_eq!(code, 40);
            assert_eq!(message, "x");
        }
        _ => panic!("expected a failure"),
    }
    let e: Envelope<u32> = Envelope::from_parts("failed", String::new(), Some(1), None);
    assert!(matches!(e, Envelope::Failure { code: 0, .. }));
}
