//! Deleting one's own account.

use vstd::prelude::*;

verus! {

/// The confirmation of an account deletion: the nickname typed again and the
/// ticked acknowledgement.
#[derive(Debug, Clone, PartialEq)]
pub struct Request {
    pub nickname_confirm: String,
    pub confirm_delete: bool,
}

/// The account was deleted.
#[derive(Debug, Clone, PartialEq, Eq)]
pub struct Response {}

} // verus!
