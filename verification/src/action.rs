//! What a handler asks the chain to do once it succeeds.
use vstd::prelude::*;

verus! {

/// Who receives a transfer.
#[derive(Debug, PartialEq, Eq)]
pub enum Recipient {
    /// An account address.
    Address(String),
    /// The account of a registered user, by its user id.
    User(u64),
}

/// A message that a successful handler emits.
#[derive(Debug, PartialEq, Eq)]
pub enum Action {
    /// Send `amount` of the fee denomination to `to`.
    Transfer { to: Recipient, amount: u128 },
    /// Send `amount` to the distribution contract, which shares it among the members
    /// of `membership_issuer_user_id` by raising their reward index by
    /// `index_increment` (a decimal with 18 fractional digits, in atomic units).
    Distribute { membership_issuer_user_id: u64, index_increment: u128, amount: u128 },
}

} // verus!
