//! The decisions of the key-value server.
//!
//! The server reads a request, performs one operation on its persistent
//! store and answers.  The store lives on disk, so the operation itself is
//! performed by the caller; this module decides which operation a request
//! asks for ([`dispatch`]) and which response an operation's outcome gives
//! ([`get_response`], [`put_response`], [`reject_response`]).
use vstd::prelude::*;

use super::pb::request::Command;
use super::pb::{Request, RequestGet, RequestPut, Response};

verus! {

/// Code of a read whose key is absent from the store.
pub const NOT_FOUND: u32 = 404;

/// Code of a store operation that failed.
pub const STORE_FAILURE: u32 = 500;

/// Code of a request that names no command.
pub const NO_COMMAND: u32 = 405;

/// The operation on the store that a request asks for.
#[derive(Clone, Debug, PartialEq, Eq)]
pub enum StoreOp {
    /// Read the value under the key.
    Get(String),
    /// Store the value under the key.
    Insert(String, Vec<u8>),
    /// Nothing to do: the request named no command.
    Reject,
}

/// A store operation that did not complete.
#[derive(Clone, Copy, Debug, PartialEq, Eq)]
pub struct StoreError;

/// The operation that `msg` asks for.
pub open spec fn spec_dispatch(msg: Request) -> StoreOp {
    match msg.command {
        Some(Command::Get(RequestGet { key })) => StoreOp::Get(key),
        Some(Command::Put(RequestPut { key, value })) => StoreOp::Insert(key, value),
        None => StoreOp::Reject,
    }
}

/// The bytes a successful write answers with: the text `success`.
pub open spec fn write_ack() -> Seq<u8> {
    seq![115u8, 117u8, 99u8, 99u8, 101u8, 115u8, 115u8]
}

/// A request built by [`Request::new_get`] asks to read its key, and one
/// built by [`Request::new_put`] asks to store its value under its key.
pub proof fn law_built_requests_dispatch(key: String, value: Vec<u8>)
    ensures
        spec_dispatch(Request::spec_new_get(key)) == StoreOp::Get(key),
        spec_dispatch(Request::spec_new_put(key, value)) == StoreOp::Insert(key, value),
{
}

/// Decides which store operation `msg` asks for.
pub fn dispatch(msg: Request) -> (op: StoreOp)
    ensures
        op == spec_dispatch(msg),
{
    match msg.command {
        Some(Command::Get(RequestGet { key })) => StoreOp::Get(key),
        Some(Command::Put(RequestPut { key, value })) => StoreOp::Insert(key, value),
        None => StoreOp::Reject,
    }
}

/// The answer to a read of `key` whose outcome is `read`: the value when
/// it was found, 404 when the key is absent, 500 when the read failed.
pub fn get_response(key: String, read: Result<Option<Vec<u8>>, StoreError>) -> (r: Response)
    ensures
        r.key == key,
        match read {
            Ok(Some(v)) => r.code == 0 && r.value == v,
            Ok(None) => r.code == NOT_FOUND && r.value@ == Seq::<u8>::empty(),
            Err(_) => r.code == STORE_FAILURE && r.value@ == Seq::<u8>::empty(),
        },
{
    match read {
        Ok(Some(v)) => Response::success(key, v),
        Ok(None) => Response::error(NOT_FOUND, key),
        Err(_) => Response::error(STORE_FAILURE, key),
    }
}

/// The answer to a write under `key` whose outcome is `write`: the text
/// `success` when it was stored, 500 when the write failed.
pub fn put_response(key: String, write: Result<(), StoreError>) -> (r: Response)
    ensures
        r.key == key,
        match write {
            Ok(()) => r.code == 0 && r.value@ == write_ack(),
            Err(_) => r.code == STORE_FAILURE && r.value@ == Seq::<u8>::empty(),
        },
{
    match write {
        Ok(()) => {
            let ack: Vec<u8> = vec![115u8, 117u8, 99u8, 99u8, 101u8, 115u8, 115u8];
            assert(ack@ == write_ack());
            Response::success(key, ack)
        },
        Err(_) => Response::error(STORE_FAILURE, key),
    }
}

/// The answer to a request that names no command: 405 with an empty key.
pub fn reject_response() -> (r: Response)
    ensures
        r.code == NO_COMMAND,
        r.key@ == Seq::<char>::empty(),
        r.value@ == Seq::<u8>::empty(),
{
    Response::error(NO_COMMAND, String::new())
}

} // verus!
