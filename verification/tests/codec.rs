//! Tests of the structural token codec.

use ticket_service::error::Error;
use ticket_service::token::parse_token;

#[test]
fn parse_demo_token() {
    let r = parse_token("user-1.exp.sign").unwrap();
    assert_eq!(r.0, 1);
    assert_eq!(r.1, "exp");
    assert_eq!(r.2, "sign");
}

#[test]
fn parse_multi_digit_user_id() {
    let r = parse_token("user-4207.whenever.sig").unwrap();
    assert_eq!(r.0, 4207);
    assert_eq!(r.1, "whenever");
    assert_eq!(r.2, "sig");
}

#[test]
fn parse_expiry_may_contain_dots() {
    // The expiry runs up to the last dot; the signature holds no dot.
    let r = parse_token("user-7.2024.12.31.sig").unwrap();
    assert_eq!(r.0, 7);
    assert_eq!(r.1, "2024.12.31");
    assert_eq!(r.2, "sig");
}

#[test]
fn parse_opaque_segments_may_hold_any_characters() {
    let r = parse_token("user-3.héllo🎫.wörld").unwrap();
    assert_eq!(r.0, 3);
    assert_eq!(r.1, "héllo🎫");
    assert_eq!(r.2, "wörld");
}

#[test]
fn parse_largest_user_id() {
    let r = parse_token("user-18446744073709551615.e.s").unwrap();
    assert_eq!(r.0, u64::MAX);
}

#[test]
fn parse_user_id_overflow_is_format_error() {
    let r = parse_token("user-18446744073709551616.e.s");
    assert_eq!(r, Err(Error::AuthFailTokenWrongFormat));
}

#[test]
fn parse_rejects_wrong_shapes() {
    let bad = [
        "",
        "user-",
        "user-1",
        "user-1.exp",
        "user-1.exp.",
        "user-1..sign",
        "user-.exp.sign",
        "user1.exp.sign",
        "User-1.exp.sign",
        "user-x.exp.sign",
        "prefix-user-1.exp.sign",
        "no-token-at-all",
    ];
    for t in bad {
        assert_eq!(parse_token(t), Err(Error::AuthFailTokenWrongFormat), "input: {t:?}");
    }
}
