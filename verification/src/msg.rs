//! Messages without parameters, shared by the contracts.
use vstd::prelude::*;

verus! {

/// Turns a contract on (admin only).
#[derive(Debug, Clone, Copy, PartialEq, Eq)]
pub struct EnableMsg {}

/// Turns a contract off (admin only).
#[derive(Debug, Clone, Copy, PartialEq, Eq)]
pub struct DisableMsg {}

/// Asks for a contract's configuration.
#[derive(Debug, Clone, Copy, PartialEq, Eq)]
pub struct QueryConfigMsg {}

} // verus!
