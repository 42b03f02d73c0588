//! The router's stored record of a pair; it holds nothing yet.
use vstd::prelude::*;

verus! {

/// What the router keeps for each pair of tokens.
#[derive(Debug, Clone, PartialEq, Eq)]
pub struct State {}

} // verus!
