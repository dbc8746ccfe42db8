use rlite::command::{encode_lengths, submit_outcome};
use rlite::raw::{RawReply, TAG_NIL, TAG_STATUS, TAG_STRING};
use rlite::reply::{Reply, ReplyError};
use rlite::session::interpret_fetch;

fn bytes_record(tag: i32, data: &[u8]) -> RawReply {
    RawReply { rtype: tag, integer: 0, data: data.to_vec(), elements: Vec::new() }
}

#[test]
fn round_trip_in_submission_order() {
    // `set key value` then `get key`: the acknowledgement comes back
    // first, the stored bytes second.
    let set: Vec<Vec<u8>> = vec![b"set".to_vec(), b"key".to_vec(), b"value".to_vec()];
    let get: Vec<Vec<u8>> = vec![b"get".to_vec(), b"key".to_vec()];
    assert_eq!(encode_lengths(&set), vec![3, 3, 5]);
    assert_eq!(encode_lengths(&get), vec![3, 3]);

    let first = interpret_fetch(0, Some(bytes_record(TAG_STATUS, b"OK")));
    let second = interpret_fetch(0, Some(bytes_record(TAG_STRING, b"value")));
    assert_eq!(first, Ok(Reply::Status("OK".to_string())));
    assert_eq!(second, Ok(Reply::Data(b"value".to_vec())));
}

#[test]
fn fetch_without_pending_reply_is_nil() {
    let r = interpret_fetch(0, None);
    assert_eq!(r, Ok(Reply::Nil));
}

#[test]
fn fetch_of_nil_record_is_nil() {
    let rec = RawReply { rtype: TAG_NIL, integer: 0, data: Vec::new(), elements: Vec::new() };
    assert_eq!(interpret_fetch(0, Some(rec)), Ok(Reply::Nil));
}

#[test]
fn fetch_failure_is_reported() {
    let r = interpret_fetch(3, Some(bytes_record(TAG_STATUS, b"OK")));
    assert_eq!(r, Err(ReplyError::FetchFailed));
}

#[test]
fn submit_status_zero_is_accepted() {
    assert_eq!(submit_outcome(0), Ok(()));
    assert_eq!(submit_outcome(1), Err(()));
    assert_eq!(submit_outcome(-1), Err(()));
}

#[test]
fn lengths_of_empty_arguments() {
    let cmd: Vec<Vec<u8>> = vec![b"ping".to_vec(), Vec::new()];
    assert_eq!(encode_lengths(&cmd), vec![4, 0]);
}
