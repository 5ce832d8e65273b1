use rtc_chat::codec::{decode, encode, BlobError, SignalingPackage};

fn pkg(sdp: &str, cands: &[&str]) -> SignalingPackage {
    SignalingPackage {
        sdp: sdp.to_string(),
        candidates: cands.iter().map(|c| c.to_string()).collect(),
    }
}

fn same(a: &SignalingPackage, b: &SignalingPackage) -> bool {
    a.sdp == b.sdp && a.candidates == b.candidates
}

#[test]
fn encode_exact_empty_candidates() {
    assert_eq!(encode(&pkg("x", &[])), "eyJzZHAiOiJ4IiwiY2FuZGlkYXRlcyI6W119");
}

#[test]
fn encode_exact_quote_and_two_candidates() {
    assert_eq!(
        encode(&pkg("a\"b", &["c1", "c2"])),
        "eyJzZHAiOiJhXCJiIiwiY2FuZGlkYXRlcyI6WyJjMSIsImMyIl19"
    );
}

#[test]
fn encode_exact_control_byte() {
    assert_eq!(
        encode(&pkg("l1\nl2", &[])),
        "eyJzZHAiOiJsMVx1MDAwYWwyIiwiY2FuZGlkYXRlcyI6W119"
    );
}

#[test]
fn encode_exact_non_ascii() {
    assert_eq!(
        encode(&pkg("é", &["ü"])),
        "eyJzZHAiOiLDqSIsImNhbmRpZGF0ZXMiOlsiw7wiXX0="
    );
}

#[test]
fn encode_is_deterministic() {
    let p = pkg("v=0\r\no=- 1 2 IN IP4 127.0.0.1", &["candidate:1 1 udp 2122260223 10.0.0.1 5000 typ host"]);
    assert_eq!(encode(&p), encode(&p));
}

#[test]
fn round_trip_various_packages() {
    let cases = vec![
        pkg("", &[]),
        pkg("x", &[]),
        pkg("v=0\r\no=- 46 2 IN IP4 127.0.0.1\r\n", &["a", "", "b\\c"]),
        pkg("tab\there \"quoted\" back\\slash \u{1} end", &["\u{1f600} smile", "zero\u{0}byte"]),
        pkg("日本語", &["ü", "é", "ß"]),
    ];
    for p in cases {
        let text = encode(&p);
        let q = decode(&text).expect("a written blob reads back");
        assert!(same(&p, &q));
    }
}

#[test]
fn decode_accepts_other_escapes() {
    // `\n` and `\u0009` are read although the writer uses `\u000a` only.
    let q = decode("eyJzZHAiOiJsMVxubDJcdTAwMDkiLCJjYW5kaWRhdGVzIjpbXX0=").unwrap();
    assert_eq!(q.sdp, "l1\nl2\t");
    assert!(q.candidates.is_empty());
}

#[test]
fn decode_rejects_non_base64() {
    assert_eq!(decode("not-base64!!").unwrap_err(), BlobError::Transport);
}

#[test]
fn decode_rejects_missing_sdp() {
    assert_eq!(decode("eyJjYW5kaWRhdGVzIjpbXX0=").unwrap_err(), BlobError::Structure);
}

#[test]
fn decode_rejects_trailing_bytes() {
    assert_eq!(
        decode("eyJzZHAiOiJ4IiwiY2FuZGlkYXRlcyI6W119IA==").unwrap_err(),
        BlobError::Structure
    );
}

#[test]
fn decode_rejects_invalid_utf8() {
    assert_eq!(decode("eyJzZHAiOiL/IiwiY2FuZGlkYXRlcyI6W119").unwrap_err(), BlobError::Text);
}

#[test]
fn decode_rejects_empty_text() {
    assert_eq!(decode("").unwrap_err(), BlobError::Structure);
}

#[test]
fn blob_length_and_alphabet() {
    let text = encode(&pkg("v=0", &["c"]));
    // {"sdp":"v=0","candidates":["c"]} is 32 bytes: 11 started groups of 3, 4 characters each
    assert_eq!(text.len(), 44);
    assert!(text
        .chars()
        .all(|c| c.is_ascii_alphanumeric() || c == '+' || c == '/' || c == '='));
}
