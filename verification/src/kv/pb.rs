//! Messages exchanged between the key-value client and server.
pub mod request;

use vstd::prelude::*;

verus! {

/// Asks for the value stored under `key`.
#[derive(Clone, Debug, PartialEq, Eq)]
pub struct RequestGet {
    pub key: String,
}

/// Asks to store `value` under `key`.
#[derive(Clone, Debug, PartialEq, Eq)]
pub struct RequestPut {
    pub key: String,
    pub value: Vec<u8>,
}

/// A client request; `command` is absent when the frame named no command.
#[derive(Clone, Debug, PartialEq, Eq)]
pub struct Request {
    pub command: Option<request::Command>,
}

/// The server's answer: `code` 0 on success, an HTTP-like error code
/// otherwise; `key` echoes the key of the request.
#[derive(Clone, Debug, PartialEq, Eq)]
pub struct Response {
    pub code: u32,
    pub key: String,
    pub value: Vec<u8>,
}

impl Request {
    /// The request that reads `key`.
    pub open spec fn spec_new_get(key: String) -> Request {
        Request { command: Some(request::Command::Get(RequestGet { key })) }
    }

    /// The request that stores `value` under `key`.
    pub open spec fn spec_new_put(key: String, value: Vec<u8>) -> Request {
        Request { command: Some(request::Command::Put(RequestPut { key, value })) }
    }

    /// A request that reads `key`.
    pub fn new_get(key: String) -> (r: Self)
        ensures
            r == Self::spec_new_get(key),
    {
        Self { command: Some(request::Command::Get(RequestGet { key })) }
    }

    /// A request that stores `value` under `key`.
    pub fn new_put(key: String, value: Vec<u8>) -> (r: Self)
        ensures
            r == Self::spec_new_put(key, value),
    {
        Self { command: Some(request::Command::Put(RequestPut { key, value })) }
    }
}

impl Response {
    /// A successful answer carrying `value` for `key`.
    pub fn success(key: String, value: Vec<u8>) -> (r: Self)
        ensures
            r.code == 0,
            r.key == key,
            r.value == value,
    {
        Self { code: 0, key, value }
    }

    /// A failed answer with `code` for `key`; it carries no value.
    pub fn error(code: u32, key: String) -> (r: Self)
        ensures
            r.code == code,
            r.key == key,
            r.value@ == Seq::<u8>::empty(),
    {
        Self { code, key, value: Vec::new() }
    }
}

} // verus!
