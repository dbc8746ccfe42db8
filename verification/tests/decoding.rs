use rlite::decode::{decode_reply, decode_reply_checked};
use rlite::raw::{RawReply, TAG_ARRAY, TAG_ERROR, TAG_INTEGER, TAG_NIL, TAG_STATUS, TAG_STRING};
use rlite::reply::{Reply, ReplyError};

fn bytes_record(tag: i32, data: &[u8]) -> RawReply {
    RawReply { rtype: tag, integer: 0, data: data.to_vec(), elements: Vec::new() }
}

fn integer_record(n: u64) -> RawReply {
    RawReply { rtype: TAG_INTEGER, integer: n, data: Vec::new(), elements: Vec::new() }
}

fn nil_record() -> RawReply {
    RawReply { rtype: TAG_NIL, integer: 0, data: Vec::new(), elements: Vec::new() }
}

fn array_record(elements: Vec<RawReply>) -> RawReply {
    RawReply { rtype: TAG_ARRAY, integer: 0, data: Vec::new(), elements }
}

#[test]
fn reply_status() {
    let r = decode_reply(&bytes_record(TAG_STATUS, b"PONG"));
    assert_eq!(r, Ok(Reply::Status("PONG".to_string())));
}

#[test]
fn reply_string() {
    let r = decode_reply(&bytes_record(TAG_STRING, b"value"));
    assert_eq!(r, Ok(Reply::Data(b"value".to_vec())));
}

#[test]
fn reply_nil() {
    let r = decode_reply(&nil_record());
    assert_eq!(r, Ok(Reply::Nil));
    assert_ne!(r, Ok(Reply::Data(Vec::new())));
}

#[test]
fn reply_integer() {
    let r = decode_reply(&integer_record(2));
    assert_eq!(r, Ok(Reply::Integer(2)));
}

#[test]
fn reply_error() {
    let r = decode_reply(&bytes_record(
        TAG_ERROR,
        b"ERR wrong number of arguments for 'ping' command",
    ));
    match r {
        Err(ReplyError::EngineReply(msg)) => {
            assert!(msg.contains("ERR wrong number of arguments"));
        }
        other => panic!("expected an engine error, got {:?}", other),
    }
}

#[test]
fn reply_array() {
    let rec = array_record(vec![
        bytes_record(TAG_STRING, b"1"),
        bytes_record(TAG_STRING, b"2"),
        bytes_record(TAG_STRING, b"3"),
    ]);
    let r = decode_reply(&rec);
    assert_eq!(
        r,
        Ok(Reply::Array(vec![
            Reply::Data(b"1".to_vec()),
            Reply::Data(b"2".to_vec()),
            Reply::Data(b"3".to_vec()),
        ]))
    );
}

#[test]
fn nested_array_keeps_order() {
    let rec = array_record(vec![
        array_record(vec![bytes_record(TAG_STRING, b"a"), nil_record()]),
        integer_record(7),
        bytes_record(TAG_STATUS, b"OK"),
    ]);
    let r = decode_reply(&rec);
    assert_eq!(
        r,
        Ok(Reply::Array(vec![
            Reply::Array(vec![Reply::Data(b"a".to_vec()), Reply::Nil]),
            Reply::Integer(7),
            Reply::Status("OK".to_string()),
        ]))
    );
}

#[test]
fn empty_array_is_not_nil() {
    let r = decode_reply(&array_record(Vec::new()));
    assert_eq!(r, Ok(Reply::Array(Vec::new())));
    assert_ne!(r, Ok(Reply::Nil));
}

#[test]
fn error_child_short_circuits() {
    let rec = array_record(vec![
        bytes_record(TAG_STRING, b"1"),
        bytes_record(TAG_ERROR, b"ERR boom"),
        bytes_record(TAG_STRING, b"2"),
    ]);
    let r = decode_reply(&rec);
    assert_eq!(r, Err(ReplyError::EngineReply("ERR boom".to_string())));
}

#[test]
fn unknown_tag_is_an_error() {
    let r = decode_reply(&bytes_record(42, b""));
    assert_eq!(r, Err(ReplyError::UnknownTag(42)));
}

#[test]
fn integer_reinterpreted_as_signed() {
    let r = decode_reply(&integer_record(u64::MAX));
    assert_eq!(r, Ok(Reply::Integer(-1)));
}

#[test]
fn binary_safe_data() {
    let r = decode_reply(&bytes_record(TAG_STRING, b"a\x00b"));
    assert_eq!(r, Ok(Reply::Data(b"a\x00b".to_vec())));
}

#[test]
fn invalid_status_text_is_fatal() {
    let r = decode_reply_checked(&bytes_record(TAG_STATUS, &[0xff, 0xfe]));
    assert_eq!(r, None);
}

#[test]
fn invalid_error_text_is_fatal() {
    let r = decode_reply_checked(&bytes_record(TAG_ERROR, &[0xc0]));
    assert_eq!(r, None);
}

#[test]
fn valid_text_decodes_checked() {
    let r = decode_reply_checked(&bytes_record(TAG_STATUS, b"OK"));
    assert_eq!(r, Some(Ok(Reply::Status("OK".to_string()))));
}

#[test]
fn clone_preserves_the_tree() {
    let rec = array_record(vec![bytes_record(TAG_STRING, b"1"), nil_record()]);
    let r = decode_reply(&rec).unwrap();
    assert_eq!(r.clone(), r);
}
