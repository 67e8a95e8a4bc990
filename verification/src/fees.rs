//! What posting in a thread and trading memberships cost, and how each fee is
//! split between the protocol, membership issuers and their members.
use vstd::prelude::*;
use crate::config::{
    effective_fee_config, effective_fee_share, or_else, shares_sum_to_100, Config, FeeConfig, FeeShareConfig, UserConfig,
};
use crate::math::{calculate_price, multiply_percentage, price_computable, price_fits, price_spec};
use crate::member;

verus! {

/// `x * p / 100`, rounded down.
pub open spec fn pct(x: nat, p: nat) -> nat {
    x * p / 100
}

// ===================== lookups =====================

fn effective_fee_config_exec(uc: &UserConfig, c: &Config) -> (f: FeeConfig)
    ensures
        f == effective_fee_config(*uc, *c),
{
    let d = c.default_fee_config;
    FeeConfig {
        ask_fee_percentage_of_membership: match uc.ask_fee_percentage_of_membership {
            Some(p) => p,
            None => d.ask_fee_percentage_of_membership,
        },
        ask_fee_to_thread_creator_percentage_of_membership: match uc.ask_fee_to_thread_creator_percentage_of_membership {
            Some(p) => p,
            None => d.ask_fee_to_thread_creator_percentage_of_membership,
        },
        reply_fee_percentage_of_membership: match uc.reply_fee_percentage_of_membership {
            Some(p) => p,
            None => d.reply_fee_percentage_of_membership,
        },
        reply_fee_to_thread_creator_percentage_of_membership: match uc.reply_fee_to_thread_creator_percentage_of_membership {
            Some(p) => p,
            None => d.reply_fee_to_thread_creator_percentage_of_membership,
        },
    }
}

/// Percentage of one membership price charged for asking the user.
pub fn lookup_ask_fee_percentage_of_key(uc: &UserConfig, c: &Config) -> (p: u64)
    ensures
        p == effective_fee_config(*uc, *c).ask_fee_percentage_of_membership,
{
    effective_fee_config_exec(uc, c).ask_fee_percentage_of_membership
}

/// Percentage of one membership price paid to the user when others ask in its thread.
pub fn lookup_ask_fee_to_thread_creator_percentage_of_key(uc: &UserConfig, c: &Config) -> (p: u64)
    ensures
        p == effective_fee_config(*uc, *c).ask_fee_to_thread_creator_percentage_of_membership,
{
    effective_fee_config_exec(uc, c).ask_fee_to_thread_creator_percentage_of_membership
}

/// Percentage of one membership price charged for replying to the user.
pub fn lookup_reply_fee_percentage_of_key(uc: &UserConfig, c: &Config) -> (p: u64)
    ensures
        p == effective_fee_config(*uc, *c).reply_fee_percentage_of_membership,
{
    effective_fee_config_exec(uc, c).reply_fee_percentage_of_membership
}

/// Percentage of one membership price paid to the user when others reply in its thread.
pub fn lookup_reply_fee_to_thread_creator_percentage_of_key(uc: &UserConfig, c: &Config) -> (p: u64)
    ensures
        p == effective_fee_config(*uc, *c).reply_fee_to_thread_creator_percentage_of_membership,
{
    effective_fee_config_exec(uc, c).reply_fee_to_thread_creator_percentage_of_membership
}

/// How thread fees paid to the user are shared.
pub fn lookup_thread_fee_share_config(uc: &UserConfig, c: &Config) -> (s: FeeShareConfig)
    ensures
        s == effective_fee_share(*uc, *c),
{
    FeeShareConfig {
        share_to_issuer_percentage: match uc.share_to_issuer_percentage {
            Some(p) => p,
            None => c.default_fee_share_config.share_to_issuer_percentage,
        },
        share_to_all_members_percentage: match uc.share_to_all_members_percentage {
            Some(p) => p,
            None => c.default_fee_share_config.share_to_all_members_percentage,
        },
    }
}

/// The trading fee percentage of a membership issuer: its own, else the default.
pub open spec fn effective_trading_fee_percentage(u: member::User, c: member::Config) -> u64 {
    or_else(u.config.trading_fee_percentage_of_membership, c.default_fee_config.trading_fee_percentage_of_membership)
}

/// How the trading fee of a membership is shared: each share the issuer's own,
/// else the default.
pub open spec fn effective_trading_fee_share(u: member::User, c: member::Config) -> FeeShareConfig {
    FeeShareConfig {
        share_to_issuer_percentage: or_else(
            u.config.share_to_issuer_percentage,
            c.default_fee_share_config.share_to_issuer_percentage,
        ),
        share_to_all_members_percentage: or_else(
            u.config.share_to_all_members_percentage,
            c.default_fee_share_config.share_to_all_members_percentage,
        ),
    }
}

/// Trading fee percentage of a membership issuer.
pub fn lookup_trading_fee_percentage_of_key(u: &member::User, c: &member::Config) -> (p: u64)
    ensures
        p == effective_trading_fee_percentage(*u, *c),
{
    match u.config.trading_fee_percentage_of_membership {
        Some(p) => p,
        None => c.default_fee_config.trading_fee_percentage_of_membership,
    }
}

/// How the trading fee of a membership issuer is shared.
pub fn lookup_key_trading_fee_share_config(u: &member::User, c: &member::Config) -> (s: FeeShareConfig)
    ensures
        s == effective_trading_fee_share(*u, *c),
{
    FeeShareConfig {
        share_to_issuer_percentage: match u.config.share_to_issuer_percentage {
            Some(p) => p,
            None => c.default_fee_share_config.share_to_issuer_percentage,
        },
        share_to_all_members_percentage: match u.config.share_to_all_members_percentage {
            Some(p) => p,
            None => c.default_fee_share_config.share_to_all_members_percentage,
        },
    }
}

// ===================== thread fees =====================

/// A fee of `fee_pct` percent of one membership price, and a fee of `creator_pct`
/// percent for the thread creator, each shared between issuer and members; the
/// protocol takes `protocol_pct` percent of the first. When the one who pays is the
/// thread creator itself, nothing goes to the thread creator.
/// Fields: protocol fee, target issuer fee, target members fee, creator issuer fee,
/// creator members fee.
pub open spec fn thread_fees(
    price1: nat,
    fee_pct: nat,
    creator_pct: nat,
    protocol_pct: nat,
    share: FeeShareConfig,
    payer_is_creator: bool,
) -> (nat, nat, nat, nat, nat) {
    let fee = pct(price1, fee_pct);
    let creator_fee = pct(price1, creator_pct);
    (
        pct(fee, protocol_pct),
        pct(fee, share.share_to_issuer_percentage as nat),
        pct(fee, share.share_to_all_members_percentage as nat),
        if payer_is_creator { 0 } else { pct(creator_fee, share.share_to_issuer_percentage as nat) },
        if payer_is_creator { 0 } else { pct(creator_fee, share.share_to_all_members_percentage as nat) },
    )
}

/// Sum of the five parts of a thread fee.
pub open spec fn thread_fees_total(f: (nat, nat, nat, nat, nat)) -> nat {
    f.0 + f.1 + f.2 + f.3 + f.4
}

/// Whether computing [`thread_fees`] and its total stays within `u128`.
pub open spec fn thread_fees_computable(
    price1: nat,
    fee_pct: nat,
    creator_pct: nat,
    protocol_pct: nat,
    share: FeeShareConfig,
    payer_is_creator: bool,
) -> bool {
    let fee = pct(price1, fee_pct);
    let creator_fee = pct(price1, creator_pct);
    &&& price1 * fee_pct <= u128::MAX
    &&& fee * share.share_to_issuer_percentage <= u128::MAX
    &&& fee * share.share_to_all_members_percentage <= u128::MAX
    &&& fee * protocol_pct <= u128::MAX
    &&& price1 * creator_pct <= u128::MAX
    &&& !payer_is_creator ==> creator_fee * share.share_to_issuer_percentage <= u128::MAX
    &&& !payer_is_creator ==> creator_fee * share.share_to_all_members_percentage <= u128::MAX
    &&& thread_fees_total(thread_fees(price1, fee_pct, creator_pct, protocol_pct, share, payer_is_creator))
        <= u128::MAX
}

/// Cost of starting a thread.
#[derive(Debug, Clone, Copy, PartialEq, Eq)]
pub struct CostToStartNewThreadResponse {
    pub protocol_fee: u128,
}

/// What asking in a thread costs, per recipient.
#[derive(Debug, Clone, Copy, PartialEq, Eq)]
pub struct CostToAskInThreadResponse {
    pub protocol_fee: u128,
    pub ask_to_membership_issuer_fee: u128,
    pub ask_to_membership_all_members_fee: u128,
    pub thread_creator_membership_issuer_fee: u128,
    pub thread_creator_membership_all_members_fee: u128,
    pub total_needed_from_user: u128,
}

/// What replying in a thread costs, per recipient.
#[derive(Debug, Clone, Copy, PartialEq, Eq)]
pub struct CostToReplyInThreadResponse {
    pub protocol_fee: u128,
    pub reply_to_membership_issuer_fee: u128,
    pub reply_to_membership_all_members_fee: u128,
    pub thread_creator_membership_issuer_fee: u128,
    pub thread_creator_membership_all_members_fee: u128,
    pub total_needed_from_user: u128,
}

/// Who asks whom in whose thread, and how long the question is.
#[derive(Debug, Clone, Copy, PartialEq, Eq)]
pub struct QueryCostToAskInThreadMsg {
    pub asker_user_id: u64,
    pub ask_to_user_id: u64,
    pub thread_creator_user_id: u64,
    pub content_len: u64,
}

/// Who replies to whom in whose thread, and how long the reply is.
#[derive(Debug, Clone, Copy, PartialEq, Eq)]
pub struct QueryCostToReplyInThreadMsg {
    pub replier_user_id: u64,
    pub reply_to_user_id: u64,
    pub thread_creator_user_id: u64,
    pub content_len: u64,
}

fn split_thread_fee(
    price1: u128,
    fee_pct: u64,
    creator_pct: u64,
    protocol_pct: u64,
    share: FeeShareConfig,
    payer_is_creator: bool,
) -> (r: (u128, u128, u128, u128, u128, u128))
    requires
        thread_fees_computable(price1 as nat, fee_pct as nat, creator_pct as nat, protocol_pct as nat, share, payer_is_creator),
    ensures
        ({
            let f = thread_fees(price1 as nat, fee_pct as nat, creator_pct as nat, protocol_pct as nat, share, payer_is_creator);
            &&& r.0 == f.0
            &&& r.1 == f.1
            &&& r.2 == f.2
            &&& r.3 == f.3
            &&& r.4 == f.4
            &&& r.5 == thread_fees_total(f)
        }),
{
    let fee = multiply_percentage(price1, fee_pct);
    let issuer_fee = multiply_percentage(fee, share.share_to_issuer_percentage);
    let members_fee = multiply_percentage(fee, share.share_to_all_members_percentage);
    let protocol_fee = multiply_percentage(fee, protocol_pct);
    let creator_fee = multiply_percentage(price1, creator_pct);
    let (creator_issuer_fee, creator_members_fee) = if payer_is_creator {
        (0u128, 0u128)
    } else {
        (
            multiply_percentage(creator_fee, share.share_to_issuer_percentage),
            multiply_percentage(creator_fee, share.share_to_all_members_percentage),
        )
    };
    let total = protocol_fee + issuer_fee + members_fee + creator_issuer_fee + creator_members_fee;
    (protocol_fee, issuer_fee, members_fee, creator_issuer_fee, creator_members_fee, total)
}

/// Cost of starting a thread: the fixed protocol fee.
pub fn query_cost_to_start_new_thread(config: &Config) -> (r: CostToStartNewThreadResponse)
    ensures
        r.protocol_fee == config.protocol_fee_config.start_new_thread_fixed_cost,
{
    CostToStartNewThreadResponse { protocol_fee: config.protocol_fee_config.start_new_thread_fixed_cost }
}

/// The ask fee split that [`query_cost_to_ask_in_thread`] computes.
pub open spec fn ask_fees(
    data: QueryCostToAskInThreadMsg,
    config: Config,
    thread_creator_config: UserConfig,
    ask_to_membership_supply: u128,
) -> (nat, nat, nat, nat, nat) {
    let fc = effective_fee_config(thread_creator_config, config);
    thread_fees(
        price_spec(ask_to_membership_supply as nat, 1),
        fc.ask_fee_percentage_of_membership as nat,
        fc.ask_fee_to_thread_creator_percentage_of_membership as nat,
        config.protocol_fee_config.ask_in_thread_fee_percentage as nat,
        effective_fee_share(thread_creator_config, config),
        data.thread_creator_user_id == data.asker_user_id,
    )
}

/// Whether [`query_cost_to_ask_in_thread`] runs without arithmetic overflow.
pub open spec fn ask_cost_computable(
    data: QueryCostToAskInThreadMsg,
    config: Config,
    thread_creator_config: UserConfig,
    ask_to_membership_supply: u128,
) -> bool {
    let fc = effective_fee_config(thread_creator_config, config);
    &&& price_computable(ask_to_membership_supply as nat, 1)
    &&& thread_fees_computable(
        price_spec(ask_to_membership_supply as nat, 1),
        fc.ask_fee_percentage_of_membership as nat,
        fc.ask_fee_to_thread_creator_percentage_of_membership as nat,
        config.protocol_fee_config.ask_in_thread_fee_percentage as nat,
        effective_fee_share(thread_creator_config, config),
        data.thread_creator_user_id == data.asker_user_id,
    )
}

/// What asking costs: a share of the price of one membership of the user asked
/// (with `ask_to_membership_supply` issued), split between the protocol, that user
/// and its members, plus, unless the asker created the thread, a share for the
/// thread creator and its members. The percentages are those of the thread creator.
pub fn query_cost_to_ask_in_thread(
    data: &QueryCostToAskInThreadMsg,
    config: &Config,
    thread_creator_config: &UserConfig,
    ask_to_membership_supply: u128,
) -> (r: CostToAskInThreadResponse)
    requires
        ask_cost_computable(*data, *config, *thread_creator_config, ask_to_membership_supply),
    ensures
        ({
            let f = ask_fees(*data, *config, *thread_creator_config, ask_to_membership_supply);
            &&& r.protocol_fee == f.0
            &&& r.ask_to_membership_issuer_fee == f.1
            &&& r.ask_to_membership_all_members_fee == f.2
            &&& r.thread_creator_membership_issuer_fee == f.3
            &&& r.thread_creator_membership_all_members_fee == f.4
            &&& r.total_needed_from_user == thread_fees_total(f)
        }),
{
    let price1 = calculate_price(ask_to_membership_supply, 1);
    let share = lookup_thread_fee_share_config(thread_creator_config, config);
    let ask_pct = lookup_ask_fee_percentage_of_key(thread_creator_config, config);
    let creator_pct = lookup_ask_fee_to_thread_creator_percentage_of_key(thread_creator_config, config);
    let f = split_thread_fee(
        price1,
        ask_pct,
        creator_pct,
        config.protocol_fee_config.ask_in_thread_fee_percentage,
        share,
        data.thread_creator_user_id == data.asker_user_id,
    );
    CostToAskInThreadResponse {
        protocol_fee: f.0,
        ask_to_membership_issuer_fee: f.1,
        ask_to_membership_all_members_fee: f.2,
        thread_creator_membership_issuer_fee: f.3,
        thread_creator_membership_all_members_fee: f.4,
        total_needed_from_user: f.5,
    }
}

/// The reply fee split that [`query_cost_to_reply_in_thread`] computes.
pub open spec fn reply_fees(
    data: QueryCostToReplyInThreadMsg,
    config: Config,
    thread_creator_config: UserConfig,
    reply_to_membership_supply: u128,
) -> (nat, nat, nat, nat, nat) {
    let fc = effective_fee_config(thread_creator_config, config);
    thread_fees(
        price_spec(reply_to_membership_supply as nat, 1),
        fc.reply_fee_percentage_of_membership as nat,
        fc.reply_fee_to_thread_creator_percentage_of_membership as nat,
        config.protocol_fee_config.reply_in_thread_fee_percentage as nat,
        effective_fee_share(thread_creator_config, config),
        data.thread_creator_user_id == data.replier_user_id,
    )
}

/// Whether [`query_cost_to_reply_in_thread`] runs without arithmetic overflow.
pub open spec fn reply_cost_computable(
    data: QueryCostToReplyInThreadMsg,
    config: Config,
    thread_creator_config: UserConfig,
    reply_to_membership_supply: u128,
) -> bool {
    let fc = effective_fee_config(thread_creator_config, config);
    &&& price_computable(reply_to_membership_supply as nat, 1)
    &&& thread_fees_computable(
        price_spec(reply_to_membership_supply as nat, 1),
        fc.reply_fee_percentage_of_membership as nat,
        fc.reply_fee_to_thread_creator_percentage_of_membership as nat,
        config.protocol_fee_config.reply_in_thread_fee_percentage as nat,
        effective_fee_share(thread_creator_config, config),
        data.thread_creator_user_id == data.replier_user_id,
    )
}

/// What replying costs; as asking, with the reply percentages of the thread creator.
pub fn query_cost_to_reply_in_thread(
    data: &QueryCostToReplyInThreadMsg,
    config: &Config,
    thread_creator_config: &UserConfig,
    reply_to_membership_supply: u128,
) -> (r: CostToReplyInThreadResponse)
    requires
        reply_cost_computable(*data, *config, *thread_creator_config, reply_to_membership_supply),
    ensures
        ({
            let f = reply_fees(*data, *config, *thread_creator_config, reply_to_membership_supply);
            &&& r.protocol_fee == f.0
            &&& r.reply_to_membership_issuer_fee == f.1
            &&& r.reply_to_membership_all_members_fee == f.2
            &&& r.thread_creator_membership_issuer_fee == f.3
            &&& r.thread_creator_membership_all_members_fee == f.4
            &&& r.total_needed_from_user == thread_fees_total(f)
        }),
{
    let price1 = calculate_price(reply_to_membership_supply, 1);
    let share = lookup_thread_fee_share_config(thread_creator_config, config);
    let reply_pct = lookup_reply_fee_percentage_of_key(thread_creator_config, config);
    let creator_pct = lookup_reply_fee_to_thread_creator_percentage_of_key(thread_creator_config, config);
    let f = split_thread_fee(
        price1,
        reply_pct,
        creator_pct,
        config.protocol_fee_config.reply_in_thread_fee_percentage,
        share,
        data.thread_creator_user_id == data.replier_user_id,
    );
    CostToReplyInThreadResponse {
        protocol_fee: f.0,
        reply_to_membership_issuer_fee: f.1,
        reply_to_membership_all_members_fee: f.2,
        thread_creator_membership_issuer_fee: f.3,
        thread_creator_membership_all_members_fee: f.4,
        total_needed_from_user: f.5,
    }
}

// ===================== membership trading fees =====================

/// Price and fees of trading `amount` memberships at `supply`: the price on the
/// curve, and the trading fee (a percentage of the price) split into issuer,
/// members and protocol parts.
/// Fields: price, issuer fee, members fee, protocol fee.
pub open spec fn trading_costs(
    supply: nat,
    amount: nat,
    fee_pct: nat,
    share: FeeShareConfig,
    protocol_pct: nat,
) -> (nat, nat, nat, nat) {
    let price = price_spec(supply, amount);
    let fee = pct(price, fee_pct);
    (
        price,
        pct(fee, share.share_to_issuer_percentage as nat),
        pct(fee, share.share_to_all_members_percentage as nat),
        pct(fee, protocol_pct),
    )
}

/// Whether [`trading_costs`] can be computed within `u128`.
pub open spec fn trading_costs_computable(
    supply: nat,
    amount: nat,
    fee_pct: nat,
    share: FeeShareConfig,
    protocol_pct: nat,
) -> bool {
    let price = price_spec(supply, amount);
    let fee = pct(price, fee_pct);
    &&& price_computable(supply, amount)
    &&& price * fee_pct <= u128::MAX
    &&& fee * share.share_to_issuer_percentage <= u128::MAX
    &&& fee * share.share_to_all_members_percentage <= u128::MAX
    &&& fee * protocol_pct <= u128::MAX
}

/// Cost of buying memberships.
#[derive(Debug, Clone, Copy, PartialEq, Eq)]
pub struct CostToBuyKeyResponse {
    pub price: u128,
    pub protocol_fee: u128,
    pub key_issuer_fee: u128,
    pub key_holder_fee: u128,
    pub total_needed_from_user: u128,
}

/// Cost of selling memberships: the seller receives `price` and pays the fees.
#[derive(Debug, Clone, Copy, PartialEq, Eq)]
pub struct CostToSellKeyResponse {
    pub price: u128,
    pub protocol_fee: u128,
    pub key_issuer_fee: u128,
    pub key_holder_fee: u128,
    pub total_needed_from_user: u128,
}

/// The issued supply of a user's membership, zero if none is issued.
pub open spec fn supply_of(u: member::User) -> u128 {
    match u.membership_issued_by_me {
        Some(m) => m.membership_supply,
        None => 0,
    }
}

/// The trading costs of `amount` memberships of `issuer` at `supply`.
pub open spec fn issuer_trading_costs(issuer: member::User, config: member::Config, supply: nat, amount: nat) -> (
    nat,
    nat,
    nat,
    nat,
) {
    trading_costs(
        supply,
        amount,
        effective_trading_fee_percentage(issuer, config) as nat,
        effective_trading_fee_share(issuer, config),
        config.protocol_fee_config.membership_trading_fee_percentage as nat,
    )
}

/// Whether the trading costs of `amount` memberships of `issuer` at `supply` can be computed.
pub open spec fn issuer_trading_costs_computable(
    issuer: member::User,
    config: member::Config,
    supply: nat,
    amount: nat,
) -> bool {
    trading_costs_computable(
        supply,
        amount,
        effective_trading_fee_percentage(issuer, config) as nat,
        effective_trading_fee_share(issuer, config),
        config.protocol_fee_config.membership_trading_fee_percentage as nat,
    )
}

fn shared(issuer: &member::User, config: &member::Config, supply: u128, amount: u128) -> (r: (
    u128,
    u128,
    u128,
    u128,
))
    requires
        issuer_trading_costs_computable(*issuer, *config, supply as nat, amount as nat),
    ensures
        ({
            let c = issuer_trading_costs(*issuer, *config, supply as nat, amount as nat);
            r.0 == c.0 && r.1 == c.1 && r.2 == c.2 && r.3 == c.3
        }),
{
    let price = calculate_price(supply, amount);
    let fee = multiply_percentage(price, lookup_trading_fee_percentage_of_key(issuer, config));
    let share = lookup_key_trading_fee_share_config(issuer, config);
    let key_issuer_fee = multiply_percentage(fee, share.share_to_issuer_percentage);
    let key_holder_fee = multiply_percentage(fee, share.share_to_all_members_percentage);
    let protocol_fee = multiply_percentage(fee, config.protocol_fee_config.membership_trading_fee_percentage);
    (price, key_issuer_fee, key_holder_fee, protocol_fee)
}

/// The buy cost that [`query_cost_to_buy_key`] returns.
pub open spec fn buy_cost(issuer: member::User, config: member::Config, amount: nat) -> CostToBuyKeyResponse {
    let c = issuer_trading_costs(issuer, config, supply_of(issuer) as nat, amount);
    CostToBuyKeyResponse {
        price: c.0 as u128,
        protocol_fee: c.3 as u128,
        key_issuer_fee: c.1 as u128,
        key_holder_fee: c.2 as u128,
        total_needed_from_user: (c.0 + c.3 + c.1 + c.2) as u128,
    }
}

/// Whether [`query_cost_to_buy_key`] runs without failing.
pub open spec fn buy_cost_computable(issuer: member::User, config: member::Config, amount: nat) -> bool {
    let c = issuer_trading_costs(issuer, config, supply_of(issuer) as nat, amount);
    &&& issuer.membership_issued_by_me is Some
    &&& issuer_trading_costs_computable(issuer, config, supply_of(issuer) as nat, amount)
    &&& c.0 + c.3 + c.1 + c.2 <= u128::MAX
}

/// Whether the trading costs of `amount` memberships of `issuer` at `supply` can be
/// computed without an overflow; see [`issuer_trading_costs_computable`]. When they
/// can, also the costs themselves.
fn trading_costs_fit(issuer: &member::User, config: &member::Config, supply: u128, amount: u128) -> (r: Option<
    (u128, u128, u128, u128),
>)
    ensures
        r is Some <==> issuer_trading_costs_computable(*issuer, *config, supply as nat, amount as nat),
        r matches Some(c) ==> {
            let t = issuer_trading_costs(*issuer, *config, supply as nat, amount as nat);
            c.0 == t.0 && c.1 == t.1 && c.2 == t.2 && c.3 == t.3
        },
{
    if !price_fits(supply, amount) {
        return None;
    }
    let price = calculate_price(supply, amount);
    let fee_pct = lookup_trading_fee_percentage_of_key(issuer, config);
    let share = lookup_key_trading_fee_share_config(issuer, config);
    let protocol_pct = config.protocol_fee_config.membership_trading_fee_percentage;
    let fee = match price.checked_mul(fee_pct as u128) {
        Some(x) => x / 100,
        None => return None,
    };
    let issuer_fee = match fee.checked_mul(share.share_to_issuer_percentage as u128) {
        Some(x) => x / 100,
        None => return None,
    };
    let members_fee = match fee.checked_mul(share.share_to_all_members_percentage as u128) {
        Some(x) => x / 100,
        None => return None,
    };
    let protocol_fee = match fee.checked_mul(protocol_pct as u128) {
        Some(x) => x / 100,
        None => return None,
    };
    Some((price, issuer_fee, members_fee, protocol_fee))
}

/// Whether [`query_cost_to_buy_key`] can run on these arguments; see
/// [`buy_cost_computable`].
pub fn buy_cost_fits(issuer: &member::User, config: &member::Config, amount: u128) -> (b: bool)
    ensures
        b == buy_cost_computable(*issuer, *config, amount as nat),
{
    let supply = match issuer.membership_issued_by_me {
        Some(m) => m.membership_supply,
        None => return false,
    };
    match trading_costs_fit(issuer, config, supply, amount) {
        Some(c) => match c.0.checked_add(c.3) {
            Some(x) => match x.checked_add(c.1) {
                Some(y) => y.checked_add(c.2).is_some(),
                None => false,
            },
            None => false,
        },
        None => false,
    }
}

/// Whether [`query_cost_to_sell_key`] can run on these arguments; see
/// [`sell_cost_computable`].
pub fn sell_cost_fits(issuer: &member::User, config: &member::Config, amount: u128) -> (b: bool)
    ensures
        b == sell_cost_computable(*issuer, *config, amount as nat),
{
    let supply = match issuer.membership_issued_by_me {
        Some(m) => m.membership_supply,
        None => return false,
    };
    if amount > supply {
        return false;
    }
    match trading_costs_fit(issuer, config, supply - amount, amount) {
        Some(c) => match c.3.checked_add(c.1) {
            Some(x) => x.checked_add(c.2).is_some(),
            None => false,
        },
        None => false,
    }
}

/// Cost of buying `amount` memberships of `issuer`: the price on the curve at the
/// current supply, plus the protocol, issuer and members fees.
pub fn query_cost_to_buy_key(issuer: &member::User, config: &member::Config, amount: u128) -> (r: CostToBuyKeyResponse)
    requires
        buy_cost_computable(*issuer, *config, amount as nat),
    ensures
        r == buy_cost(*issuer, *config, amount as nat),
{
    let old_supply = match issuer.membership_issued_by_me {
        Some(m) => m.membership_supply,
        None => 0,
    };
    let (price, key_issuer_fee, key_holder_fee, protocol_fee) = shared(issuer, config, old_supply, amount);
    let total_needed_from_user = price + protocol_fee + key_issuer_fee + key_holder_fee;
    CostToBuyKeyResponse { price, protocol_fee, key_issuer_fee, key_holder_fee, total_needed_from_user }
}

/// The sell cost that [`query_cost_to_sell_key`] returns.
pub open spec fn sell_cost(issuer: member::User, config: member::Config, amount: nat) -> CostToSellKeyResponse {
    let c = issuer_trading_costs(issuer, config, (supply_of(issuer) - amount) as nat, amount);
    CostToSellKeyResponse {
        price: c.0 as u128,
        protocol_fee: c.3 as u128,
        key_issuer_fee: c.1 as u128,
        key_holder_fee: c.2 as u128,
        total_needed_from_user: (c.3 + c.1 + c.2) as u128,
    }
}

/// Whether [`query_cost_to_sell_key`] runs without failing.
pub open spec fn sell_cost_computable(issuer: member::User, config: member::Config, amount: nat) -> bool {
    let c = issuer_trading_costs(issuer, config, (supply_of(issuer) - amount) as nat, amount);
    &&& issuer.membership_issued_by_me is Some
    &&& amount <= supply_of(issuer)
    &&& issuer_trading_costs_computable(issuer, config, (supply_of(issuer) - amount) as nat, amount)
    &&& c.3 + c.1 + c.2 <= u128::MAX
}

/// Cost of selling `amount` memberships of `issuer`: the price is that of buying the
/// same amount back from the supply after the sale, so selling what was just bought
/// returns what was paid for it; the seller pays the fees.
pub fn query_cost_to_sell_key(issuer: &member::User, config: &member::Config, amount: u128) -> (r: CostToSellKeyResponse)
    requires
        sell_cost_computable(*issuer, *config, amount as nat),
    ensures
        r == sell_cost(*issuer, *config, amount as nat),
{
    let old_supply = match issuer.membership_issued_by_me {
        Some(m) => m.membership_supply,
        None => 0,
    };
    let (price, key_issuer_fee, key_holder_fee, protocol_fee) = shared(issuer, config, old_supply - amount, amount);
    let total_needed_from_user = protocol_fee + key_issuer_fee + key_holder_fee;
    CostToSellKeyResponse { price, protocol_fee, key_issuer_fee, key_holder_fee, total_needed_from_user }
}

/// Selling `amount` memberships when `supply + amount` are issued pays out exactly
/// the price of buying `amount` memberships when `supply` are issued, and charges
/// the same fees.
pub proof fn law_sell_price_equals_buy_price(
    before_buy: member::User,
    after_buy: member::User,
    config: member::Config,
    amount: nat,
)
    requires
        before_buy.config == after_buy.config,
        before_buy.membership_issued_by_me is Some,
        after_buy.membership_issued_by_me is Some,
        supply_of(after_buy) == supply_of(before_buy) + amount,
    ensures
        sell_cost(after_buy, config, amount).price == buy_cost(before_buy, config, amount).price,
        sell_cost(after_buy, config, amount).protocol_fee == buy_cost(before_buy, config, amount).protocol_fee,
        sell_cost(after_buy, config, amount).key_issuer_fee == buy_cost(before_buy, config, amount).key_issuer_fee,
        sell_cost(after_buy, config, amount).key_holder_fee == buy_cost(before_buy, config, amount).key_holder_fee,
{
}

/// Buying costs exactly the price plus the three fees; selling charges exactly the
/// three fees, and the seller is paid the price.
pub proof fn law_trade_totals(issuer: member::User, config: member::Config, amount: nat)
    requires
        buy_cost_computable(issuer, config, amount),
        sell_cost_computable(issuer, config, amount),
    ensures
        buy_cost(issuer, config, amount).total_needed_from_user == buy_cost(issuer, config, amount).price
            + buy_cost(issuer, config, amount).protocol_fee + buy_cost(issuer, config, amount).key_issuer_fee
            + buy_cost(issuer, config, amount).key_holder_fee,
        sell_cost(issuer, config, amount).total_needed_from_user == sell_cost(issuer, config, amount).protocol_fee
            + sell_cost(issuer, config, amount).key_issuer_fee + sell_cost(issuer, config, amount).key_holder_fee,
{
}


/// When the shares add up to 100 percent, the issuer's and the members' parts of a
/// fee together never exceed the fee, and fall short of it by at most one unit
/// (each part is rounded down).
pub proof fn law_fee_split_within_fee(fee: nat, share: FeeShareConfig)
    requires
        shares_sum_to_100(share),
    ensures
        pct(fee, share.share_to_issuer_percentage as nat) + pct(fee, share.share_to_all_members_percentage as nat) <= fee,
        fee <= pct(fee, share.share_to_issuer_percentage as nat) + pct(fee, share.share_to_all_members_percentage as nat) + 1,
{
    let a = share.share_to_issuer_percentage as nat;
    let b = share.share_to_all_members_percentage as nat;
    assert(fee * a / 100 + fee * b / 100 <= fee && fee <= fee * a / 100 + fee * b / 100 + 1) by (nonlinear_arith)
        requires
            a + b == 100,
    ;
}

/// Asking costs, out of one membership price `p` of the user asked and the thread
/// creator's settings (its own, else the defaults): an ask fee `a = p * ask% / 100`,
/// of which the protocol takes `a * protocol_ask% / 100`, the user asked
/// `a * issuer_share% / 100` and its members `a * members_share% / 100`; and,
/// unless the asker created the thread, a creator fee `c = p * creator% / 100`, of
/// which the creator takes `c * issuer_share% / 100` and its members
/// `c * members_share% / 100`. When the shares add up to 100 percent, neither fee is
/// handed out beyond itself.
pub proof fn law_ask_fee_parts(
    data: QueryCostToAskInThreadMsg,
    config: Config,
    creator_config: UserConfig,
    ask_to_membership_supply: u128,
)
    ensures
        ({
            let f = ask_fees(data, config, creator_config, ask_to_membership_supply);
            let p = price_spec(ask_to_membership_supply as nat, 1);
            let a = p * or_else(creator_config.ask_fee_percentage_of_membership, config.default_fee_config.ask_fee_percentage_of_membership) / 100;
            let c = p * or_else(
                creator_config.ask_fee_to_thread_creator_percentage_of_membership,
                config.default_fee_config.ask_fee_to_thread_creator_percentage_of_membership,
            ) / 100;
            let issuer = or_else(creator_config.share_to_issuer_percentage, config.default_fee_share_config.share_to_issuer_percentage);
            let members = or_else(
                creator_config.share_to_all_members_percentage,
                config.default_fee_share_config.share_to_all_members_percentage,
            );
            &&& f.0 == a * config.protocol_fee_config.ask_in_thread_fee_percentage / 100
            &&& f.1 == a * issuer / 100
            &&& f.2 == a * members / 100
            &&& data.asker_user_id == data.thread_creator_user_id ==> f.3 == 0 && f.4 == 0
            &&& data.asker_user_id != data.thread_creator_user_id ==> f.3 == c * issuer / 100 && f.4 == c * members / 100
            &&& issuer + members == 100 ==> f.1 + f.2 <= a && f.3 + f.4 <= c
        }),
{
    let p = price_spec(ask_to_membership_supply as nat, 1);
    let share = effective_fee_share(creator_config, config);
    let fc = effective_fee_config(creator_config, config);
    if shares_sum_to_100(share) {
        law_fee_split_within_fee(pct(p, fc.ask_fee_percentage_of_membership as nat), share);
        law_fee_split_within_fee(pct(p, fc.ask_fee_to_thread_creator_percentage_of_membership as nat), share);
    }
}

/// Replying costs as asking does, out of one membership price `p` of the user
/// replied to, at the thread creator's reply percentages; the protocol takes its
/// reply percentage of the reply fee, and the creator's share is waived when the
/// replier created the thread.
pub proof fn law_reply_fee_parts(
    data: QueryCostToReplyInThreadMsg,
    config: Config,
    creator_config: UserConfig,
    reply_to_membership_supply: u128,
)
    ensures
        ({
            let f = reply_fees(data, config, creator_config, reply_to_membership_supply);
            let p = price_spec(reply_to_membership_supply as nat, 1);
            let a = p * or_else(creator_config.reply_fee_percentage_of_membership, config.default_fee_config.reply_fee_percentage_of_membership) / 100;
            let c = p * or_else(
                creator_config.reply_fee_to_thread_creator_percentage_of_membership,
                config.default_fee_config.reply_fee_to_thread_creator_percentage_of_membership,
            ) / 100;
            let issuer = or_else(creator_config.share_to_issuer_percentage, config.default_fee_share_config.share_to_issuer_percentage);
            let members = or_else(
                creator_config.share_to_all_members_percentage,
                config.default_fee_share_config.share_to_all_members_percentage,
            );
            &&& f.0 == a * config.protocol_fee_config.reply_in_thread_fee_percentage / 100
            &&& f.1 == a * issuer / 100
            &&& f.2 == a * members / 100
            &&& data.replier_user_id == data.thread_creator_user_id ==> f.3 == 0 && f.4 == 0
            &&& data.replier_user_id != data.thread_creator_user_id ==> f.3 == c * issuer / 100 && f.4 == c * members / 100
            &&& issuer + members == 100 ==> f.1 + f.2 <= a && f.3 + f.4 <= c
        }),
{
    let p = price_spec(reply_to_membership_supply as nat, 1);
    let share = effective_fee_share(creator_config, config);
    let fc = effective_fee_config(creator_config, config);
    if shares_sum_to_100(share) {
        law_fee_split_within_fee(pct(p, fc.reply_fee_percentage_of_membership as nat), share);
        law_fee_split_within_fee(pct(p, fc.reply_fee_to_thread_creator_percentage_of_membership as nat), share);
    }
}

/// Trading costs, for a purchase at the current supply `s` and a sale at `s - amount`
/// alike: the price of the memberships on the curve from that supply, a trading fee
/// `t = price * trading% / 100` at the issuer's percentage (its own, else the
/// default), of which the issuer gets `t * issuer_share% / 100`, the holders
/// `t * members_share% / 100` and the protocol `t * protocol% / 100`. The buyer pays
/// the price and the fees; the seller pays the fees.
pub proof fn law_trading_fee_parts(issuer: member::User, config: member::Config, amount: nat)
    requires
        buy_cost_computable(issuer, config, amount),
    ensures
        ({
            let b = buy_cost(issuer, config, amount);
            let price = price_spec(supply_of(issuer) as nat, amount);
            let t = price * or_else(
                issuer.config.trading_fee_percentage_of_membership,
                config.default_fee_config.trading_fee_percentage_of_membership,
            ) / 100;
            &&& b.price == price
            &&& b.key_issuer_fee == t * or_else(
                issuer.config.share_to_issuer_percentage,
                config.default_fee_share_config.share_to_issuer_percentage,
            ) / 100
            &&& b.key_holder_fee == t * or_else(
                issuer.config.share_to_all_members_percentage,
                config.default_fee_share_config.share_to_all_members_percentage,
            ) / 100
            &&& b.protocol_fee == t * config.protocol_fee_config.membership_trading_fee_percentage / 100
            &&& b.total_needed_from_user == b.price + b.key_issuer_fee + b.key_holder_fee + b.protocol_fee
        }),
{
}

/// A sale's costs are those of the same trading fee split, taken at the supply after
/// the sale; the seller receives the price and pays the three fees.
pub proof fn law_selling_fee_parts(issuer: member::User, config: member::Config, amount: nat)
    requires
        sell_cost_computable(issuer, config, amount),
    ensures
        ({
            let c = sell_cost(issuer, config, amount);
            let price = price_spec((supply_of(issuer) - amount) as nat, amount);
            let t = price * or_else(
                issuer.config.trading_fee_percentage_of_membership,
                config.default_fee_config.trading_fee_percentage_of_membership,
            ) / 100;
            &&& c.price == price
            &&& c.key_issuer_fee == t * or_else(
                issuer.config.share_to_issuer_percentage,
                config.default_fee_share_config.share_to_issuer_percentage,
            ) / 100
            &&& c.key_holder_fee == t * or_else(
                issuer.config.share_to_all_members_percentage,
                config.default_fee_share_config.share_to_all_members_percentage,
            ) / 100
            &&& c.protocol_fee == t * config.protocol_fee_config.membership_trading_fee_percentage / 100
            &&& c.total_needed_from_user == c.key_issuer_fee + c.key_holder_fee + c.protocol_fee
        }),
{
}

} // verus!
