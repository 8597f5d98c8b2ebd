use tdjson_bridge::marshal_request;
use tdjson_bridge::response_text;
use tdjson_bridge::EncodingViolation;
use tdjson_bridge::TDLib;

#[test]
fn marshal_accepts_plain_request() {
    let req = "{\"@type\":\"setLogVerbosityLevel\",\"new_verbosity_level\":1,\"@extra\":1.01234}";
    let payload = marshal_request(req).unwrap();
    let mut expected: Vec<u8> = req.as_bytes().to_vec();
    expected.push(0);
    assert_eq!(payload, expected);
}

#[test]
fn marshal_empty_request() {
    let payload = marshal_request("").unwrap();
    assert_eq!(payload, vec![0u8]);
}

#[test]
fn marshal_multibyte_request() {
    let req = "{\"@type\":\"sendMessage\",\"text\":\"na\u{ef}ve \u{2192} caf\u{e9}\"}";
    let payload = marshal_request(req).unwrap();
    let mut expected: Vec<u8> = req.as_bytes().to_vec();
    expected.push(0);
    assert_eq!(payload, expected);
}

#[test]
fn marshal_rejects_embedded_nul() {
    let err = marshal_request("ab\0cd").unwrap_err();
    assert_eq!(err, EncodingViolation { nul_position: 2 });
}

#[test]
fn marshal_rejects_leading_nul() {
    let err = marshal_request("\0x").unwrap_err();
    assert_eq!(err.nul_position, 0);
}

#[test]
fn marshal_reports_first_nul() {
    let err = marshal_request("a\0b\0").unwrap_err();
    assert_eq!(err.nul_position, 1);
}

#[test]
fn prepare_send_tags_client_id() {
    let client = TDLib::with_client_id(7);
    let action = client.prepare_send("{\"@type\":\"close\"}").unwrap();
    assert_eq!(action.client_id, 7);
    let mut expected: Vec<u8> = "{\"@type\":\"close\"}".as_bytes().to_vec();
    expected.push(0);
    assert_eq!(action.payload, expected);
}

#[test]
fn prepare_send_rejects_embedded_nul() {
    let client = TDLib::with_client_id(1);
    let err = client.prepare_send("x\0y").unwrap_err();
    assert_eq!(err, EncodingViolation { nul_position: 1 });
}

#[test]
fn client_id_round_trip() {
    let a = TDLib::with_client_id(-3);
    let b = TDLib::with_client_id(4);
    assert_eq!(a.client_id(), -3);
    assert_eq!(b.client_id(), 4);
    assert_ne!(a.client_id(), b.client_id());
}

#[test]
fn response_text_copies_valid_utf8() {
    let raw = "{\"@type\":\"ok\",\"@extra\":1.01234}".as_bytes();
    assert_eq!(response_text(raw), "{\"@type\":\"ok\",\"@extra\":1.01234}");
}

#[test]
fn response_text_replaces_invalid_utf8() {
    let raw: Vec<u8> = vec![0x61, 0xFF, 0x62];
    assert_eq!(response_text(&raw), "a\u{FFFD}b");
}

#[test]
fn response_text_empty() {
    let raw: Vec<u8> = Vec::new();
    assert_eq!(response_text(&raw), "");
}
