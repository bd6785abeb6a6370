//! A status code outside an operation's table.

use vstd::prelude::*;

verus! {

/// A response status the operation's table does not name.
#[derive(Debug, Clone, Copy, PartialEq, Eq, Structural)]
pub struct UnexpectedStatusError {
    pub status_code: u16,
}

} // verus!
