//! Verified core of an on-chain membership protocol: a bonding-curve
//! membership market, fee splitting for paid threads (ask / reply), thread
//! bookkeeping and member fee distribution.
use vstd::prelude::*;

pub mod action;
pub mod board;
pub mod config;
pub mod distribution;
pub mod error;
pub mod fees;
pub mod grouped_user_config;
pub mod math;
pub mod member;
pub mod member_admin;
pub mod member_query;
pub mod msg;
pub mod ordered_map;
pub mod payment;
pub mod qa;
pub mod thread_contract;
pub mod thread_query;
pub mod thread_user;

verus! {

} // verus!
