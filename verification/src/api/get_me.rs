//! The signed-in account.

use vstd::prelude::*;
use crate::user::User;

verus! {

/// Asks for the signed-in account.
#[derive(Debug, Clone, PartialEq, Eq)]
pub struct Request {}

/// The signed-in account.
#[derive(Debug, Clone, PartialEq, Eq)]
pub struct Response {
    pub user: User,
}

} // verus!
