//! The access log.

use vstd::prelude::*;

verus! {

/// The request.
#[derive(Debug, Clone, PartialEq, Eq)]
pub struct Request {}

/// The answer.
#[derive(Debug, Clone, PartialEq, Eq)]
pub struct Response {}

} // verus!
