//! The command carried by a key-value request.
use vstd::prelude::*;

use super::{RequestGet, RequestPut};

verus! {

/// What a request asks the store to do.
#[derive(Clone, Debug, PartialEq, Eq)]
pub enum Command {
    Get(RequestGet),
    Put(RequestPut),
}

} // verus!
