//! All rivers.

use vstd::prelude::*;
use crate::river::River;

verus! {

/// Asks for every river.
#[derive(Debug, Clone, PartialEq, Eq)]
pub struct Request {}

/// Every river.
#[derive(Debug, Clone, PartialEq)]
pub struct Response {
    pub rivers: Vec<River>,
}

} // verus!
