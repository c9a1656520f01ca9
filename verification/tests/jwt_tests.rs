use a2a_cli::{
    ClaimLine, Expiry, JsonDoc, JsonEntry, JsonField, claim_lines, decode_jwt_part, decode_token,
    decode_token_at, exp_claim, expiry_at, show_field, split_char, trim_end_char,
};

const HEADER: &str = "eyJhbGciOiJIUzI1NiIsInR5cCI6IkpXVCJ9";
const PAYLOAD: &str = "eyJzdWIiOiJ1c2VyLTEiLCJleHAiOjIwMDAsImFkbWluIjp0cnVlLCJzY3AiOnsiYSI6MX19";

fn text(k: &str, v: &str) -> JsonEntry {
    JsonEntry { key: k.to_string(), value: JsonField::Text(v.to_string()) }
}

fn other(k: &str, v: &str, i: Option<i64>) -> JsonEntry {
    JsonEntry { key: k.to_string(), value: JsonField::Other { rendered: v.to_string(), integer: i } }
}

#[test]
fn split_keeps_empty_pieces() {
    assert_eq!(split_char("a..b", '.'), vec!["a".to_string(), String::new(), "b".to_string()]);
    assert_eq!(split_char("", '.'), vec![String::new()]);
    assert_eq!(split_char("abc", '.'), vec!["abc".to_string()]);
    assert_eq!(split_char(".", '.'), vec![String::new(), String::new()]);
}

#[test]
fn trailing_padding_is_dropped() {
    assert_eq!(trim_end_char("ab==", '='), "ab");
    assert_eq!(trim_end_char("a=b", '='), "a=b");
    assert_eq!(trim_end_char("===", '='), "");
}

#[test]
fn header_decodes() {
    assert_eq!(
        decode_jwt_part(HEADER),
        Some(JsonDoc::Object(vec![text("alg", "HS256"), text("typ", "JWT")]))
    );
}

#[test]
fn padded_and_non_object_sections() {
    assert_eq!(
        decode_jwt_part("eyJleHAiOiIyMDAwIn0="),
        Some(JsonDoc::Object(vec![text("exp", "2000")]))
    );
    assert_eq!(decode_jwt_part("WzEsMl0="), Some(JsonDoc::NotObject));
    assert_eq!(decode_jwt_part("!!!"), None);
    assert_eq!(decode_jwt_part("bm90IGpzb24"), None);
}

#[test]
fn token_report_with_expiry() {
    let token = format!("{HEADER}.{PAYLOAD}.sig");
    let rep = decode_token_at(&token, 1875).unwrap();
    assert_eq!(rep.header, decode_jwt_part(HEADER));
    assert_eq!(
        rep.payload,
        Some(JsonDoc::Object(vec![
            other("admin", "true", None),
            other("exp", "2000", Some(2000)),
            other("scp", "{\"a\":1}", None),
            text("sub", "user-1"),
        ]))
    );
    assert_eq!(rep.expiry, Some(Expiry::ExpiresIn { minutes: 2, seconds: 5 }));
    assert_eq!(decode_token_at(&token, 2000).unwrap().expiry, Some(Expiry::Expired));
    assert!(decode_token(&token).is_some());
}

#[test]
fn malformed_tokens() {
    assert_eq!(decode_token_at("abc", 0), None);
    assert_eq!(decode_token_at("a.b", 0), None);
    assert_eq!(decode_token_at("a.b.c.d", 0), None);
    let rep = decode_token_at("x.y.z", 0).unwrap();
    assert_eq!(rep.header, None);
    assert_eq!(rep.payload, None);
    assert_eq!(rep.expiry, None);
}

#[test]
fn string_exp_is_not_an_expiry() {
    let token = format!("{HEADER}.eyJleHAiOiIyMDAwIn0=.s");
    assert_eq!(decode_token_at(&token, 0).unwrap().expiry, None);
}

#[test]
fn expiry_arithmetic() {
    assert_eq!(expiry_at(2000, 1875), Expiry::ExpiresIn { minutes: 2, seconds: 5 });
    assert_eq!(expiry_at(2000, 1999), Expiry::ExpiresIn { minutes: 0, seconds: 1 });
    assert_eq!(expiry_at(2000, 2001), Expiry::Expired);
    assert_eq!(expiry_at(i64::MAX, i64::MIN), Expiry::ExpiresIn { minutes: 307445734561825860, seconds: 15 });
    assert_eq!(expiry_at(i64::MIN, i64::MAX), Expiry::Expired);
}

#[test]
fn long_strings_are_truncated() {
    let long = "x".repeat(100);
    let f = JsonField::Text(long.clone());
    assert_eq!(show_field(&f), format!("{}...", "x".repeat(80)));
    assert_eq!(show_field(&JsonField::Text("x".repeat(80))), "x".repeat(80));
    // 41 two-byte characters: 82 bytes, so truncated, but all 41 kept.
    let e = "é".repeat(41);
    assert_eq!(show_field(&JsonField::Text(e.clone())), format!("{e}..."));
    let f40 = "é".repeat(40);
    assert_eq!(show_field(&JsonField::Text(f40.clone())), f40);
    assert_eq!(show_field(&JsonField::Other { rendered: "[1,2]".to_string(), integer: None }), "[1,2]");
}

#[test]
fn claim_lines_per_member() {
    let doc = JsonDoc::Object(vec![text("a", "b"), other("n", "3", Some(3))]);
    assert_eq!(
        claim_lines(&doc),
        vec![
            ClaimLine { key: "a".to_string(), value: "b".to_string() },
            ClaimLine { key: "n".to_string(), value: "3".to_string() },
        ]
    );
    assert_eq!(claim_lines(&JsonDoc::NotObject), vec![]);
    assert_eq!(exp_claim(&doc), None);
    assert_eq!(exp_claim(&JsonDoc::Object(vec![other("exp", "7", Some(7))])), Some(7));
    assert_eq!(exp_claim(&JsonDoc::Object(vec![text("exp", "7")])), None);
}

#[test]
fn sections_join_back_to_token() {
    for token in ["a.b.c", "..", "x", "", "eyJ.eyJ.sig=", "a.b.c.d"] {
        let parts = split_char(token, '.');
        assert_eq!(parts.join("."), token);
        assert!(parts.iter().all(|p| !p.contains('.')));
    }
}
