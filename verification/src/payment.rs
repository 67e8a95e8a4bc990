//! Checks on the coins sent along with a message, made by `cw_utils`.
use vstd::prelude::*;
use crate::error::PaymentFailure;

verus! {

/// A coin sent with a message.
#[derive(Debug, PartialEq, Eq)]
pub struct Coin {
    pub denom: String,
    pub amount: u128,
}

/// What `must_pay` answers for the coins `funds` and the accepted denomination `denom`.
pub open spec fn must_pay_outcome(funds: Seq<Coin>, denom: Seq<char>) -> Result<u128, PaymentFailure> {
    if funds.len() == 0 {
        Err(PaymentFailure::NoFunds)
    } else if funds.len() > 1 {
        Err(PaymentFailure::MultipleDenoms)
    } else if funds[0].amount == 0 {
        Err(PaymentFailure::NoFunds)
    } else if funds[0].denom@ != denom {
        Err(PaymentFailure::MissingDenom(arbitrary()))
    } else {
        Ok(funds[0].amount)
    }
}

/// Whether a `must_pay` result agrees with [`must_pay_outcome`]; the text of a
/// `MissingDenom` failure is the accepted denomination.
pub open spec fn must_pay_matches(r: Result<u128, PaymentFailure>, funds: Seq<Coin>, denom: Seq<char>) -> bool {
    match must_pay_outcome(funds, denom) {
        Err(PaymentFailure::MissingDenom(_)) => r matches Err(PaymentFailure::MissingDenom(d)) && d@ == denom,
        other => r == other,
    }
}

/// `cw_utils::must_pay`: exactly one coin, of `denom` and of non-zero amount, must
/// have been sent; its amount is returned. No coin, or a zero amount, is `NoFunds`;
/// two or more coins are `MultipleDenoms`; one coin of another denomination is
/// `MissingDenom(denom)`.
#[verifier::external_body]
fn cw_must_pay(sender: &String, funds: &Vec<Coin>, denom: &String) -> (r: Result<u128, PaymentFailure>)
    ensures
        must_pay_matches(r, funds@, denom@),
{
    let funds: Vec<cosmwasm_std::Coin> = funds.iter().map(|c| cosmwasm_std::coin(c.amount, c.denom.as_str())).collect();
    let info = cosmwasm_std::MessageInfo { sender: cosmwasm_std::Addr::unchecked(sender.as_str()), funds };
    match cw_utils::must_pay(&info, denom.as_str()) {
        Ok(amount) => Ok(amount.u128()),
        Err(cw_utils::PaymentError::MissingDenom(d)) => Err(PaymentFailure::MissingDenom(d)),
        Err(cw_utils::PaymentError::ExtraDenom(d)) => Err(PaymentFailure::ExtraDenom(d)),
        Err(cw_utils::PaymentError::MultipleDenoms {}) => Err(PaymentFailure::MultipleDenoms),
        Err(cw_utils::PaymentError::NoFunds {}) => Err(PaymentFailure::NoFunds),
        Err(cw_utils::PaymentError::NonPayable {}) => Err(PaymentFailure::NonPayable),
    }
}

/// `cw_utils::nonpayable`: succeeds exactly when no coin was sent, else `NonPayable`.
#[verifier::external_body]
fn cw_nonpayable(sender: &String, funds: &Vec<Coin>) -> (r: Result<(), PaymentFailure>)
    ensures
        r == (if funds@.len() == 0 {
            Ok::<(), PaymentFailure>(())
        } else {
            Err::<(), PaymentFailure>(PaymentFailure::NonPayable)
        }),
{
    let funds: Vec<cosmwasm_std::Coin> = funds.iter().map(|c| cosmwasm_std::coin(c.amount, c.denom.as_str())).collect();
    let info = cosmwasm_std::MessageInfo { sender: cosmwasm_std::Addr::unchecked(sender.as_str()), funds };
    match cw_utils::nonpayable(&info) {
        Ok(()) => Ok(()),
        Err(_) => Err(PaymentFailure::NonPayable),
    }
}

/// The amount paid in `denom` with a message that must be paid for.
pub fn must_pay(sender: &String, funds: &Vec<Coin>, denom: &String) -> (r: Result<u128, PaymentFailure>)
    ensures
        must_pay_matches(r, funds@, denom@),
{
    cw_must_pay(sender, funds, denom)
}

/// Fails when coins were sent with a message that accepts none.
pub fn nonpayable(sender: &String, funds: &Vec<Coin>) -> (r: Result<(), PaymentFailure>)
    ensures
        r is Ok <==> funds@.len() == 0,
        r is Err ==> r == Err::<(), PaymentFailure>(PaymentFailure::NonPayable),
{
    cw_nonpayable(sender, funds)
}

} // verus!
