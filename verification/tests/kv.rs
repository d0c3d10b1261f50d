use rust_live::kv::client::reply_text;
use rust_live::kv::pb::request::Command;
use rust_live::kv::pb::{Request, RequestGet, RequestPut, Response};
use rust_live::kv::server::{
    dispatch, get_response, put_response, reject_response, StoreError, StoreOp, NOT_FOUND,
    NO_COMMAND, STORE_FAILURE,
};

#[test]
fn new_get_builds_get_command() {
    let r = Request::new_get("key1".to_string());
    assert_eq!(
        r.command,
        Some(Command::Get(RequestGet { key: "key1".to_string() }))
    );
}

#[test]
fn new_put_builds_put_command() {
    let r = Request::new_put("key1".to_string(), b"value1".to_vec());
    assert_eq!(
        r.command,
        Some(Command::Put(RequestPut {
            key: "key1".to_string(),
            value: b"value1".to_vec()
        }))
    );
}

#[test]
fn success_has_code_zero() {
    let r = Response::success("k".to_string(), vec![1, 2, 3]);
    assert_eq!(r.code, 0);
    assert_eq!(r.key, "k");
    assert_eq!(r.value, vec![1, 2, 3]);
}

#[test]
fn error_has_no_value() {
    let r = Response::error(404, "k".to_string());
    assert_eq!(r.code, 404);
    assert_eq!(r.key, "k");
    assert!(r.value.is_empty());
}

#[test]
fn built_requests_dispatch_to_their_operation() {
    assert_eq!(
        dispatch(Request::new_get("a".to_string())),
        StoreOp::Get("a".to_string())
    );
    assert_eq!(
        dispatch(Request::new_put("a".to_string(), vec![9])),
        StoreOp::Insert("a".to_string(), vec![9])
    );
    assert_eq!(dispatch(Request { command: None }), StoreOp::Reject);
}

#[test]
fn get_found_answers_the_value() {
    let r = get_response("key1".to_string(), Ok(Some(b"value1".to_vec())));
    assert_eq!(r, Response::success("key1".to_string(), b"value1".to_vec()));
}

#[test]
fn get_missing_answers_not_found() {
    let r = get_response("key1".to_string(), Ok(None));
    assert_eq!(r.code, NOT_FOUND);
    assert_eq!(r.code, 404);
    assert_eq!(r.key, "key1");
    assert!(r.value.is_empty());
}

#[test]
fn get_failure_answers_store_failure() {
    let r = get_response("key1".to_string(), Err(StoreError));
    assert_eq!(r.code, STORE_FAILURE);
    assert_eq!(r.code, 500);
    assert_eq!(r.key, "key1");
    assert!(r.value.is_empty());
}

#[test]
fn put_stored_answers_success_text() {
    let r = put_response("key1".to_string(), Ok(()));
    assert_eq!(r.code, 0);
    assert_eq!(r.key, "key1");
    assert_eq!(r.value, "success".as_bytes().to_vec());
}

#[test]
fn put_failure_answers_store_failure() {
    let r = put_response("key1".to_string(), Err(StoreError));
    assert_eq!(r, Response::error(500, "key1".to_string()));
}

#[test]
fn no_command_answers_405_with_empty_key() {
    let r = reject_response();
    assert_eq!(r.code, NO_COMMAND);
    assert_eq!(r.code, 405);
    assert_eq!(r.key, "");
    assert!(r.value.is_empty());
}

#[test]
fn reply_text_decodes_utf8_values() {
    let ok = Response::success("key1".to_string(), "value1".as_bytes().to_vec());
    assert_eq!(reply_text(ok), Some("value1".to_string()));
    let accented = Response::success("k".to_string(), "é".as_bytes().to_vec());
    assert_eq!(reply_text(accented), Some("é".to_string()));
    let empty = Response::error(404, "k".to_string());
    assert_eq!(reply_text(empty), Some(String::new()));
    let bad = Response::success("k".to_string(), vec![0xff, 0xfe]);
    assert_eq!(reply_text(bad), None);
}
