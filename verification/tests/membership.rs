use member_protocol::action::{Action, Recipient};
use member_protocol::config::FeeShareConfig;
use member_protocol::error::{ContractError, StoredItem};
use member_protocol::fees::{query_cost_to_buy_key, query_cost_to_sell_key, CostToBuyKeyResponse, CostToSellKeyResponse};
use member_protocol::member::{
    get_cosmos_msgs_to_distribute_fee_to_all_membership_holders, BuyMembershipMsg, Member, MemberRegistry, Membership,
    MembershipIssuedByMe, SellMembershipMsg, User, UserConfig,
};
use member_protocol::member_admin::{
    query_member_contract_config, query_membership_contract_config, InstantiateMsg, UpdateMembershipTradingFeeShareConfigMsg,
    UpdateTradingFeePercentageOfMembershipMsg,
};
use member_protocol::member_query::{
    QueryKeyHoldersMsg, QueryUserHoldingsMsg, QueryUsersPaginatedByAddrMsg, QueryUsersPaginatedByIDMsg,
};
use member_protocol::ordered_map::{pair_key_exec, OrderedMap};

const USER_1: &str = "user_1";
const USER_2: &str = "user_2";
const FEE_COLLECTOR: &str = "fee_collector";

fn s(x: &str) -> String {
    x.to_string()
}

/// A member contract with the given default fees.
fn registry(trading_fee: u64, protocol_pct: u64, issuer_share: u64, members_share: u64) -> MemberRegistry {
    MemberRegistry::instantiate(
        &s("admin"),
        InstantiateMsg {
            admin_addr: None,
            registration_admin_addr: Some(s("registration_admin")),
            protocol_fee_collector_addr: Some(s(FEE_COLLECTOR)),
            fee_denom: Some(s("uluna")),
            default_trading_fee_percentage_of_membership: Some(trading_fee),
            protocol_fee_membership_trading_fee_percentage: Some(protocol_pct),
            default_membership_trading_fee_membership_issuer_fee_percentage: Some(issuer_share),
            default_membership_trading_fee_membership_holder_fee_percentage: Some(members_share),
        },
    )
    .unwrap()
}

/// Registers a user; one that issues a membership holds its first one.
fn add_user(reg: &mut MemberRegistry, id: u64, addr: &str, issues: bool) {
    let issued = if issues {
        reg.memberships.insert(pair_key_exec(id, id), 1);
        reg.members.insert(pair_key_exec(id, id), 1);
        Some(MembershipIssuedByMe { membership_supply: 1, member_count: 1 })
    } else {
        None
    };
    reg.users.insert(
        id as u128,
        User {
            id,
            addr: s(addr),
            social_media_handle: if issues { Some(s("handle")) } else { None },
            config: UserConfig {
                trading_fee_percentage_of_membership: None,
                share_to_issuer_percentage: None,
                share_to_all_members_percentage: None,
            },
            user_member_count: if issues { 1 } else { 0 },
            membership_issued_by_me: issued,
        },
    );
    reg.next_user_id = id + 1;
}

/// A flat fee split: 5% of the price to the issuer, 5% to the
/// protocol, nothing to the holders.
fn registry_with_flat_fees() -> MemberRegistry {
    let mut reg = registry(5, 10, 80, 20);
    add_user(&mut reg, 1, USER_1, true);
    add_user(&mut reg, 2, USER_2, false);
    reg.update_trading_fee_percentage_of_membership(
        &s(USER_1),
        UpdateTradingFeePercentageOfMembershipMsg { membership_issuer_addr: s(USER_1), trading_fee_percentage_of_membership: 10 },
    )
    .unwrap();
    reg.update_membership_trading_fee_share_config(
        &s(USER_1),
        UpdateMembershipTradingFeeShareConfigMsg {
            membership_issuer_addr: s(USER_1),
            membership_trading_fee_share_config: FeeShareConfig { share_to_issuer_percentage: 50, share_to_all_members_percentage: 0 },
        },
    )
    .unwrap();
    reg.config.protocol_fee_config.membership_trading_fee_percentage = 50;
    reg
}

fn supply(reg: &MemberRegistry, id: u64) -> u128 {
    reg.query_key_supply(id).supply
}

fn buy_cost(reg: &MemberRegistry, issuer: u64, amount: u128) -> CostToBuyKeyResponse {
    query_cost_to_buy_key(reg.user_by_id(issuer).unwrap(), &reg.config, amount)
}

fn sell_cost(reg: &MemberRegistry, issuer: u64, amount: u128) -> CostToSellKeyResponse {
    query_cost_to_sell_key(reg.user_by_id(issuer).unwrap(), &reg.config, amount)
}

fn holders(reg: &MemberRegistry, issuer: u64) -> Vec<Member> {
    reg.query_key_holders(QueryKeyHoldersMsg { membership_issuer_user_id: issuer, start_after_user_id: None, limit: None })
        .key_holders
}

fn holdings(reg: &MemberRegistry, user: u64) -> Vec<Membership> {
    reg.query_memberships(QueryUserHoldingsMsg { user_id: user, start_after_membership_issuer_user_id: None, limit: None })
        .user_holdings
}

/// What `addr` (or user `id`) receives from a list of actions.
fn received(actions: &[Action], addr: &str, id: u64) -> u128 {
    actions
        .iter()
        .map(|a| match a {
            Action::Transfer { to: Recipient::Address(x), amount } if x == addr => *amount,
            Action::Transfer { to: Recipient::User(u), amount } if *u == id => *amount,
            _ => 0,
        })
        .sum()
}

fn sent(actions: &[Action]) -> u128 {
    actions
        .iter()
        .map(|a| match a {
            Action::Transfer { amount, .. } => *amount,
            Action::Distribute { amount, .. } => *amount,
        })
        .sum()
}

#[test]
fn cw_thread_contract_multi_test_buy_key() {
    let mut reg = registry_with_flat_fees();
    let buy_30 = buy_cost(&reg, 1, 30);
    assert_eq!(
        buy_30,
        CostToBuyKeyResponse {
            price: 590_937,
            protocol_fee: 29_546,
            key_issuer_fee: 29_546,
            key_holder_fee: 0,
            total_needed_from_user: 650_029,
        }
    );
    assert_eq!(
        reg.buy_membership(&s(USER_1), BuyMembershipMsg { membership_issuer_user_id: 1, amount: 30 }, 1),
        Err(ContractError::InsufficientFundsToPayDuringBuy { needed: 650_029, available: 1 })
    );
    let actions = reg
        .buy_membership(&s(USER_1), BuyMembershipMsg { membership_issuer_user_id: 1, amount: 30 }, buy_30.total_needed_from_user)
        .unwrap();
    assert_eq!(received(&actions, USER_1, 1), buy_30.key_issuer_fee);
    assert_eq!(received(&actions, FEE_COLLECTOR, 0), buy_30.protocol_fee);
    assert_eq!(buy_30.total_needed_from_user - sent(&actions), buy_30.price);
    assert_eq!(supply(&reg, 1), 31);
    assert_eq!(holdings(&reg, 1), vec![Membership { issuer_user_id: 1, amount: 31 }]);
    assert_eq!(holders(&reg, 1), vec![Member { member_user_id: 1, amount: 31 }]);

    let buy_20 = buy_cost(&reg, 1, 20);
    assert_eq!(
        buy_20,
        CostToBuyKeyResponse {
            price: 2_091_875,
            protocol_fee: 104_593,
            key_issuer_fee: 104_593,
            key_holder_fee: 0,
            total_needed_from_user: 2_301_061,
        }
    );
    let actions = reg
        .buy_membership(&s(USER_2), BuyMembershipMsg { membership_issuer_user_id: 1, amount: 20 }, buy_20.total_needed_from_user)
        .unwrap();
    assert_eq!(received(&actions, USER_2, 2), 0);
    assert_eq!(received(&actions, USER_1, 1), buy_20.key_issuer_fee);
    assert_eq!(supply(&reg, 1), 51);
    assert_eq!(holdings(&reg, 1), vec![Membership { issuer_user_id: 1, amount: 31 }]);
    assert_eq!(holdings(&reg, 2), vec![Membership { issuer_user_id: 1, amount: 20 }]);
    assert_eq!(
        holders(&reg, 1),
        vec![Member { member_user_id: 1, amount: 31 }, Member { member_user_id: 2, amount: 20 }]
    );
}

#[test]
fn cw_thread_contract_multi_test_single_user_buy_and_sell_keys() {
    let mut reg = registry_with_flat_fees();
    assert_eq!(
        reg.sell_membership(&s(USER_1), SellMembershipMsg { membership_issuer_user_id: 1, amount: 1 }, 1),
        Err(ContractError::CannotSellLastMembership { sell: 1, total_supply: 1 })
    );
    let buy_30 = buy_cost(&reg, 1, 30);
    let buy_actions = reg
        .buy_membership(&s(USER_1), BuyMembershipMsg { membership_issuer_user_id: 1, amount: 30 }, buy_30.total_needed_from_user)
        .unwrap();
    let sell_10 = sell_cost(&reg, 1, 10);
    assert_eq!(
        reg.sell_membership(&s(USER_1), SellMembershipMsg { membership_issuer_user_id: 1, amount: 10 }, 1),
        Err(ContractError::InsufficientFundsToPayDuringSell { needed: sell_10.total_needed_from_user, available: 1 })
    );
    let sell_30 = sell_cost(&reg, 1, 30);
    assert_eq!(sell_30.price, buy_30.price);
    let sell_actions = reg
        .sell_membership(
            &s(USER_1),
            SellMembershipMsg { membership_issuer_user_id: 1, amount: 30 },
            buy_30.protocol_fee + buy_30.key_issuer_fee,
        )
        .unwrap();
    // What the contract keeps: payments in, minus transfers out.
    let paid_in = buy_30.total_needed_from_user + buy_30.protocol_fee + buy_30.key_issuer_fee;
    assert_eq!(paid_in - sent(&buy_actions) - sent(&sell_actions), 0);
    assert_eq!(
        received(&buy_actions, USER_1, 1) + received(&sell_actions, USER_1, 1),
        sell_30.total_needed_from_user - sell_30.protocol_fee + buy_30.total_needed_from_user - buy_30.protocol_fee
    );
    assert_eq!(
        received(&buy_actions, FEE_COLLECTOR, 0) + received(&sell_actions, FEE_COLLECTOR, 0),
        sell_30.protocol_fee + buy_30.protocol_fee
    );
    assert_eq!(supply(&reg, 1), 1);
    assert_eq!(holdings(&reg, 1), vec![Membership { issuer_user_id: 1, amount: 1 }]);
    assert_eq!(holders(&reg, 1), vec![Member { member_user_id: 1, amount: 1 }]);
}

#[test]
fn integration_tests_cw_thread_contract_multi_test_2_users_buy_and_sell_keys() {
    let mut reg = registry_with_flat_fees();
    let b1 = buy_cost(&reg, 1, 30);
    let a1 = reg.buy_membership(&s(USER_1), BuyMembershipMsg { membership_issuer_user_id: 1, amount: 30 }, b1.total_needed_from_user).unwrap();
    let b2 = buy_cost(&reg, 1, 25);
    let a2 = reg.buy_membership(&s(USER_2), BuyMembershipMsg { membership_issuer_user_id: 1, amount: 25 }, b2.total_needed_from_user).unwrap();
    let s2 = sell_cost(&reg, 1, 15);
    let a3 = reg.sell_membership(&s(USER_2), SellMembershipMsg { membership_issuer_user_id: 1, amount: 15 }, s2.total_needed_from_user).unwrap();
    let s1 = sell_cost(&reg, 1, 10);
    let a4 = reg.sell_membership(&s(USER_1), SellMembershipMsg { membership_issuer_user_id: 1, amount: 10 }, s1.total_needed_from_user).unwrap();
    assert_eq!(supply(&reg, 1), 1 + 30 + 25 - 15 - 10);
    assert_eq!(holdings(&reg, 1), vec![Membership { issuer_user_id: 1, amount: 1 + 30 - 10 }]);
    assert_eq!(holdings(&reg, 2), vec![Membership { issuer_user_id: 1, amount: 25 - 15 }]);
    assert_eq!(
        holders(&reg, 1),
        vec![Member { member_user_id: 1, amount: 1 + 30 - 10 }, Member { member_user_id: 2, amount: 25 - 15 }]
    );
    let all: Vec<Action> = a1.into_iter().chain(a2).chain(a3).chain(a4).collect();
    assert_eq!(received(&all, FEE_COLLECTOR, 0), b1.protocol_fee + b2.protocol_fee + s2.protocol_fee + s1.protocol_fee);
    let paid_in = b1.total_needed_from_user + b2.total_needed_from_user + s2.total_needed_from_user + s1.total_needed_from_user;
    assert_eq!(paid_in - sent(&all), b1.price + b2.price - s2.price - s1.price);
    assert_eq!(
        received(&all, USER_1, 1),
        b1.key_issuer_fee + b2.key_issuer_fee + s2.key_issuer_fee + s1.key_issuer_fee + s1.price
    );
    assert_eq!(received(&all, USER_2, 2), s2.price);
}

#[test]
fn test_buy_and_sell_membership() {
    let mut reg = registry(5, 10, 50, 50);
    add_user(&mut reg, 1, USER_1, true);
    add_user(&mut reg, 2, USER_2, false);
    let buy = buy_cost(&reg, 1, 30);
    let buy_actions = reg.buy_membership(&s(USER_1), BuyMembershipMsg { membership_issuer_user_id: 1, amount: 30 }, buy.total_needed_from_user).unwrap();
    let sell = sell_cost(&reg, 1, 30);
    let sell_actions = reg.sell_membership(&s(USER_1), SellMembershipMsg { membership_issuer_user_id: 1, amount: 30 }, sell.total_needed_from_user).unwrap();
    let paid_in = buy.total_needed_from_user + sell.total_needed_from_user;
    assert_eq!(paid_in - sent(&buy_actions) - sent(&sell_actions), 0);
    assert_eq!(
        received(&buy_actions, USER_1, 1) + received(&sell_actions, USER_1, 1),
        sell.key_holder_fee + sell.key_issuer_fee + buy.key_issuer_fee + buy.key_holder_fee + buy.price
    );
    assert_eq!(
        received(&buy_actions, FEE_COLLECTOR, 0) + received(&sell_actions, FEE_COLLECTOR, 0),
        sell.protocol_fee + buy.protocol_fee
    );
    assert_eq!(supply(&reg, 1), 1);
    assert_eq!(holdings(&reg, 1), vec![Membership { issuer_user_id: 1, amount: 1 }]);
    assert_eq!(holders(&reg, 1), vec![Member { member_user_id: 1, amount: 1 }]);
}

#[test]
fn test_buy_membership_insufficient_funds() {
    let mut reg = registry(5, 10, 50, 50);
    add_user(&mut reg, 1, USER_1, true);
    assert_eq!(supply(&reg, 1), 1);
    assert_eq!(
        reg.buy_membership(&s(USER_1), BuyMembershipMsg { membership_issuer_user_id: 1, amount: 30 }, 1),
        Err(ContractError::InsufficientFundsToPayDuringBuy { needed: 623_437, available: 1 })
    );
    assert_eq!(supply(&reg, 1), 1);
}

#[test]
fn test_2_users_buy_and_sell_key_cw_thread_contract_multi_test_2_users_buy_and_sell_keys() {
    let mut reg = registry(5, 10, 50, 50);
    add_user(&mut reg, 1, USER_1, true);
    add_user(&mut reg, 2, USER_2, false);
    let b1 = buy_cost(&reg, 1, 30);
    let a1 = reg.buy_membership(&s(USER_1), BuyMembershipMsg { membership_issuer_user_id: 1, amount: 30 }, b1.total_needed_from_user).unwrap();
    let b2 = buy_cost(&reg, 1, 25);
    let a2 = reg.buy_membership(&s(USER_2), BuyMembershipMsg { membership_issuer_user_id: 1, amount: 25 }, b2.total_needed_from_user).unwrap();
    let s2 = sell_cost(&reg, 1, 15);
    let a3 = reg.sell_membership(&s(USER_2), SellMembershipMsg { membership_issuer_user_id: 1, amount: 15 }, s2.total_needed_from_user).unwrap();
    let s1 = sell_cost(&reg, 1, 10);
    let a4 = reg.sell_membership(&s(USER_1), SellMembershipMsg { membership_issuer_user_id: 1, amount: 10 }, s1.total_needed_from_user).unwrap();
    assert_eq!(supply(&reg, 1), 1 + 30 + 25 - 15 - 10);
    assert_eq!(holdings(&reg, 1), vec![Membership { issuer_user_id: 1, amount: 1 + 30 - 10 }]);
    assert_eq!(holdings(&reg, 2), vec![Membership { issuer_user_id: 1, amount: 25 - 15 }]);
    assert_eq!(holders(&reg, 1), vec![Member { member_user_id: 1, amount: 1 + 20 }, Member { member_user_id: 2, amount: 10 }]);
    let all: Vec<Action> = a1.into_iter().chain(a2).chain(a3).chain(a4).collect();
    assert_eq!(received(&all, FEE_COLLECTOR, 0), b1.protocol_fee + b2.protocol_fee + s2.protocol_fee + s1.protocol_fee);
    let paid_in = b1.total_needed_from_user + b2.total_needed_from_user + s2.total_needed_from_user + s1.total_needed_from_user;
    assert_eq!(paid_in - sent(&all), b1.price + b2.price - s2.price - s1.price + 2);
    assert_eq!(
        received(&all, USER_1, 1),
        b1.key_issuer_fee + b2.key_issuer_fee + s2.key_issuer_fee + s1.key_issuer_fee + s1.price + b1.key_holder_fee
            + b2.key_holder_fee + s2.key_holder_fee * 31 / 41 + s1.key_holder_fee * 21 / 31
    );
    assert_eq!(received(&all, USER_2, 2), s2.price + s2.key_holder_fee * 10 / 41 + s1.key_holder_fee * 10 / 31);
}

#[test]
fn buy_failures_come_in_order() {
    let mut reg = registry(5, 10, 50, 50);
    add_user(&mut reg, 1, USER_1, true);
    add_user(&mut reg, 2, USER_2, false);
    assert_eq!(
        reg.buy_membership(&s(USER_1), BuyMembershipMsg { membership_issuer_user_id: 2, amount: 1 }, 1_000_000),
        Err(ContractError::NotFound(StoredItem::MembershipSupply))
    );
    assert_eq!(
        reg.buy_membership(&s(USER_1), BuyMembershipMsg { membership_issuer_user_id: 9, amount: 1 }, 1_000_000),
        Err(ContractError::NotFound(StoredItem::MembershipSupply))
    );
    assert_eq!(
        reg.buy_membership(&s(USER_1), BuyMembershipMsg { membership_issuer_user_id: 1, amount: 1 }, 1),
        Err(ContractError::InsufficientFundsToPayDuringBuy { needed: buy_cost(&reg, 1, 1).total_needed_from_user, available: 1 })
    );
    assert_eq!(supply(&reg, 1), 1);
}

#[test]
fn any_address_can_buy_and_sell() {
    let mut reg = registry(5, 10, 50, 50);
    add_user(&mut reg, 1, USER_1, true);
    let b = buy_cost(&reg, 1, 2);
    reg.buy_membership(&s("stranger"), BuyMembershipMsg { membership_issuer_user_id: 1, amount: 2 }, b.total_needed_from_user).unwrap();
    assert_eq!(supply(&reg, 1), 3);
    // The address now holds its memberships under a user record of its own.
    let stranger = reg.user_by_addr(&s("stranger")).unwrap().id;
    assert_eq!(stranger, 2);
    assert_eq!(holdings(&reg, stranger), vec![Membership { issuer_user_id: 1, amount: 2 }]);
    assert_eq!(holders(&reg, 1), vec![Member { member_user_id: 1, amount: 1 }, Member { member_user_id: 2, amount: 2 }]);
    let c = sell_cost(&reg, 1, 2);
    let actions = reg
        .sell_membership(&s("stranger"), SellMembershipMsg { membership_issuer_user_id: 1, amount: 2 }, c.total_needed_from_user)
        .unwrap();
    assert_eq!(received(&actions, "stranger", stranger), c.price);
    assert_eq!(supply(&reg, 1), 1);
    // Selling nothing also succeeds for an address that is no user yet.
    assert!(reg.sell_membership(&s("newcomer"), SellMembershipMsg { membership_issuer_user_id: 1, amount: 0 }, 1_000_000).is_ok());
    assert_eq!(supply(&reg, 1), 1);
}

#[test]
fn sell_failures_come_in_order() {
    let mut reg = registry(5, 10, 50, 50);
    add_user(&mut reg, 1, USER_1, true);
    add_user(&mut reg, 2, USER_2, false);
    let b = buy_cost(&reg, 1, 5);
    reg.buy_membership(&s(USER_1), BuyMembershipMsg { membership_issuer_user_id: 1, amount: 5 }, b.total_needed_from_user).unwrap();
    assert_eq!(
        reg.sell_membership(&s(USER_2), SellMembershipMsg { membership_issuer_user_id: 1, amount: 2 }, 1_000_000),
        Err(ContractError::InsufficientMembershipsToSell { sell: 2, available: 0 })
    );
    assert_eq!(
        reg.sell_membership(&s("stranger"), SellMembershipMsg { membership_issuer_user_id: 1, amount: 2 }, 1_000_000),
        Err(ContractError::InsufficientMembershipsToSell { sell: 2, available: 0 })
    );
    assert_eq!(
        reg.sell_membership(&s(USER_1), SellMembershipMsg { membership_issuer_user_id: 2, amount: 2 }, 1_000_000),
        Err(ContractError::NotFound(StoredItem::MembershipSupply))
    );
    assert_eq!(
        reg.sell_membership(&s(USER_1), SellMembershipMsg { membership_issuer_user_id: 1, amount: 6 }, 1_000_000),
        Err(ContractError::CannotSellLastMembership { sell: 6, total_supply: 6 })
    );
}

#[test]
fn buy_then_sell_restores_supply_and_holdings() {
    let mut reg = registry(5, 10, 80, 20);
    add_user(&mut reg, 1, USER_1, true);
    add_user(&mut reg, 2, USER_2, false);
    let b = buy_cost(&reg, 1, 7);
    reg.buy_membership(&s(USER_2), BuyMembershipMsg { membership_issuer_user_id: 1, amount: 7 }, b.total_needed_from_user).unwrap();
    let sc = sell_cost(&reg, 1, 7);
    assert_eq!(sc.price, b.price);
    assert_eq!(sc.protocol_fee, b.protocol_fee);
    reg.sell_membership(&s(USER_2), SellMembershipMsg { membership_issuer_user_id: 1, amount: 7 }, sc.total_needed_from_user).unwrap();
    assert_eq!(supply(&reg, 1), 1);
    assert_eq!(reg.holding_of(2, 1), 0);
    assert_eq!(reg.holding_of(1, 1), 1);
}

#[test]
fn buy_shares_the_holders_fee_by_holding() {
    let mut reg = registry(5, 10, 50, 50);
    add_user(&mut reg, 1, USER_1, true);
    add_user(&mut reg, 2, USER_2, false);
    let b = buy_cost(&reg, 1, 3);
    reg.buy_membership(&s(USER_2), BuyMembershipMsg { membership_issuer_user_id: 1, amount: 3 }, b.total_needed_from_user).unwrap();
    // Holders are user 1 (1) and user 2 (3), of a supply of 4.
    let msgs = get_cosmos_msgs_to_distribute_fee_to_all_membership_holders(&reg.members, 1000, 1, 4);
    assert_eq!(
        msgs,
        vec![
            Action::Transfer { to: Recipient::User(1), amount: 250 },
            Action::Transfer { to: Recipient::User(2), amount: 750 },
        ]
    );
}

#[test]
fn trading_costs_follow_the_default_split() {
    let mut reg = registry(5, 10, 80, 20);
    add_user(&mut reg, 1, USER_1, true);
    let c = buy_cost(&reg, 1, 30);
    // 5% of 590_937 is 29_546: 80% to the issuer, 20% to the holders, 10% to the protocol.
    assert_eq!(
        c,
        CostToBuyKeyResponse {
            price: 590_937,
            protocol_fee: 2_954,
            key_issuer_fee: 23_636,
            key_holder_fee: 5_909,
            total_needed_from_user: 590_937 + 2_954 + 23_636 + 5_909,
        }
    );
}

#[test]
fn member_instantiate_uses_defaults() {
    let reg = MemberRegistry::instantiate(
        &s("creator"),
        InstantiateMsg {
            admin_addr: None,
            registration_admin_addr: None,
            protocol_fee_collector_addr: None,
            fee_denom: None,
            default_trading_fee_percentage_of_membership: None,
            protocol_fee_membership_trading_fee_percentage: None,
            default_membership_trading_fee_membership_issuer_fee_percentage: None,
            default_membership_trading_fee_membership_holder_fee_percentage: None,
        },
    )
    .unwrap();
    let c = reg.query_config().config;
    assert_eq!(c.admin_addr, "creator");
    assert_eq!(c.registration_admin_addr, "creator");
    assert_eq!(c.protocol_fee_collector_addr, "creator");
    assert_eq!(c.default_fee_config.fee_denom, "uluna");
    assert_eq!(c.default_fee_config.trading_fee_percentage_of_membership, 5);
    assert_eq!(c.protocol_fee_config.membership_trading_fee_percentage, 10);
    assert_eq!(c.default_fee_share_config, FeeShareConfig { share_to_issuer_percentage: 80, share_to_all_members_percentage: 20 });
    assert!(!c.enabled);
    assert!(!c.enable_open_registration);
    assert_eq!(c.distribution_contract_addr, None);
    assert_eq!(reg.next_user_id, 1);
    assert_eq!(query_member_contract_config(&reg), c);
    assert_eq!(query_membership_contract_config(&reg), c);
}

#[test]
fn member_instantiate_rejects_shares_not_summing_to_100() {
    let r = MemberRegistry::instantiate(
        &s("creator"),
        InstantiateMsg {
            admin_addr: None,
            registration_admin_addr: None,
            protocol_fee_collector_addr: None,
            fee_denom: None,
            default_trading_fee_percentage_of_membership: None,
            protocol_fee_membership_trading_fee_percentage: None,
            default_membership_trading_fee_membership_issuer_fee_percentage: None,
            default_membership_trading_fee_membership_holder_fee_percentage: Some(70),
        },
    );
    assert!(matches!(r, Err(ContractError::MembershipTradingFeeSharePercentageMustSumTo100)));
}

#[test]
fn only_the_issuer_sets_its_trading_fees() {
    let mut reg = registry(5, 10, 80, 20);
    add_user(&mut reg, 1, USER_1, true);
    add_user(&mut reg, 2, USER_2, false);
    assert_eq!(
        reg.update_trading_fee_percentage_of_membership(
            &s(USER_2),
            UpdateTradingFeePercentageOfMembershipMsg { membership_issuer_addr: s(USER_1), trading_fee_percentage_of_membership: 9 },
        ),
        Err(ContractError::OnlyMembershipIssuerCanUpdateItsTradingFeePercentageOfMembership)
    );
    assert_eq!(
        reg.update_membership_trading_fee_share_config(
            &s(USER_2),
            UpdateMembershipTradingFeeShareConfigMsg {
                membership_issuer_addr: s(USER_1),
                membership_trading_fee_share_config: FeeShareConfig { share_to_issuer_percentage: 1, share_to_all_members_percentage: 99 },
            },
        ),
        Err(ContractError::OnlyMembershipIssuerCanUpdateItsTradingFeeConfig)
    );
    assert_eq!(
        reg.update_trading_fee_percentage_of_membership(
            &s(USER_1),
            UpdateTradingFeePercentageOfMembershipMsg { membership_issuer_addr: s("nobody"), trading_fee_percentage_of_membership: 9 },
        ),
        Err(ContractError::NotFound(StoredItem::User))
    );
    reg.update_trading_fee_percentage_of_membership(
        &s(USER_1),
        UpdateTradingFeePercentageOfMembershipMsg { membership_issuer_addr: s(USER_1), trading_fee_percentage_of_membership: 9 },
    )
    .unwrap();
    let u = reg.query_user_by_id(1).user;
    assert_eq!(u.config.trading_fee_percentage_of_membership, Some(9));
    assert_eq!(u.config.share_to_issuer_percentage, None);
}

#[test]
fn user_queries() {
    let mut reg = registry(5, 10, 80, 20);
    add_user(&mut reg, 1, USER_1, true);
    add_user(&mut reg, 2, USER_2, false);
    add_user(&mut reg, 3, "user_3", false);
    assert_eq!(reg.query_user_by_addr(&s(USER_2)).unwrap().user.id, 2);
    assert_eq!(reg.query_user(&s(USER_1)).unwrap().user.id, 1);
    assert_eq!(reg.query_user_by_addr(&s("nobody")), Err(ContractError::NotFound(StoredItem::User)));
    assert_eq!(reg.query_user_by_id(3).user.addr, "user_3");
    let page = reg.query_users_paginated_by_id(QueryUsersPaginatedByIDMsg { start_after_user_id: None, limit: Some(2), include_start_after: None });
    assert_eq!(page.users.iter().map(|u| u.id).collect::<Vec<u64>>(), vec![1, 2]);
    assert_eq!(page.count, 2);
    assert_eq!(page.total_count, 3);
    let page = reg.query_users_paginated_by_id(QueryUsersPaginatedByIDMsg { start_after_user_id: Some(2), limit: None, include_start_after: None });
    assert_eq!(page.users.iter().map(|u| u.id).collect::<Vec<u64>>(), vec![3]);
    let page = reg.query_users_paginated_by_id(QueryUsersPaginatedByIDMsg { start_after_user_id: Some(2), limit: None, include_start_after: Some(true) });
    assert_eq!(page.users.iter().map(|u| u.id).collect::<Vec<u64>>(), vec![2, 3]);
    assert_eq!(reg.query_is_user_a_member_and_membership_amount(1, 1), (true, 1));
    assert_eq!(reg.query_is_user_a_member_and_membership_amount(1, 2), (false, 0));
    assert_eq!(reg.query_membership_supply(1), 1);
}

#[test]
fn holder_pages_and_counts() {
    let mut reg = registry(5, 10, 50, 50);
    add_user(&mut reg, 1, USER_1, true);
    add_user(&mut reg, 2, USER_2, true);
    add_user(&mut reg, 3, "user_3", false);
    for buyer in [2u64, 3] {
        let addr = if buyer == 2 { USER_2 } else { "user_3" };
        let b = buy_cost(&reg, 1, 2);
        reg.buy_membership(&s(addr), BuyMembershipMsg { membership_issuer_user_id: 1, amount: 2 }, b.total_needed_from_user).unwrap();
    }
    let page = reg.query_key_holders(QueryKeyHoldersMsg { membership_issuer_user_id: 1, start_after_user_id: Some(1), limit: Some(1) });
    assert_eq!(page.key_holders, vec![Member { member_user_id: 2, amount: 2 }]);
    assert_eq!(page.count, 1);
    assert_eq!(page.total_count, 3);
    // A page ends with the issuer's own holders; the next issuer's are not listed.
    let page = reg.query_key_holders(QueryKeyHoldersMsg { membership_issuer_user_id: 1, start_after_user_id: Some(2), limit: None });
    assert_eq!(page.key_holders, vec![Member { member_user_id: 3, amount: 2 }]);
    let page = reg.query_key_holders(QueryKeyHoldersMsg { membership_issuer_user_id: 1, start_after_user_id: Some(3), limit: None });
    assert_eq!(page.key_holders, vec![]);
    assert_eq!(page.total_count, 3);
    let h = reg.query_memberships(QueryUserHoldingsMsg { user_id: 2, start_after_membership_issuer_user_id: None, limit: None });
    assert_eq!(h.user_holdings, vec![Membership { issuer_user_id: 1, amount: 2 }, Membership { issuer_user_id: 2, amount: 1 }]);
    assert_eq!(h.total_count, 2);
    let empty = OrderedMap::<u128>::new();
    assert_eq!(get_cosmos_msgs_to_distribute_fee_to_all_membership_holders(&empty, 10, 1, 1), vec![]);
}

#[test]
fn users_paged_by_address() {
    let mut reg = registry(5, 10, 80, 20);
    add_user(&mut reg, 1, "bob", false);
    add_user(&mut reg, 2, "carol", false);
    add_user(&mut reg, 3, "alice", true);
    let addrs = |r: &MemberRegistry, start: Option<&str>, limit: Option<u32>, incl: Option<bool>| -> Vec<String> {
        r.query_users_paginated_by_addr(&QueryUsersPaginatedByAddrMsg {
            start_after_user_addr: start.map(|x| x.to_string()),
            limit,
            include_start_after: incl,
        })
        .users
        .into_iter()
        .map(|u| u.addr)
        .collect()
    };
    assert_eq!(addrs(&reg, None, Some(2), None), vec![s("alice"), s("bob")]);
    assert_eq!(addrs(&reg, None, None, None), vec![s("alice"), s("bob"), s("carol")]);
    assert_eq!(addrs(&reg, Some("alice"), None, None), vec![s("bob"), s("carol")]);
    assert_eq!(addrs(&reg, Some("bob"), None, Some(true)), vec![s("bob"), s("carol")]);
    assert_eq!(addrs(&reg, Some("b"), None, None), vec![s("bob"), s("carol")]);
    assert_eq!(addrs(&reg, None, Some(0), None), Vec::<String>::new());
    let page = reg.query_users_paginated_by_addr(&QueryUsersPaginatedByAddrMsg {
        start_after_user_addr: None,
        limit: Some(1),
        include_start_after: None,
    });
    assert_eq!(page.count, 1);
    assert_eq!(page.total_count, 3);
}

#[test]
fn supply_stays_what_the_holders_hold() {
    let mut reg = registry(5, 10, 80, 20);
    add_user(&mut reg, 1, USER_1, true);
    add_user(&mut reg, 2, USER_2, false);
    add_user(&mut reg, 3, "user_3", true);
    let held = |reg: &MemberRegistry, issuer: u64| -> u128 { holders(reg, issuer).iter().map(|m| m.amount).sum() };
    reg.buy_membership(&s(USER_2), BuyMembershipMsg { membership_issuer_user_id: 1, amount: 3 }, 1_000_000_000).unwrap();
    reg.buy_membership(&s("user_3"), BuyMembershipMsg { membership_issuer_user_id: 1, amount: 2 }, 1_000_000_000).unwrap();
    reg.buy_membership(&s(USER_1), BuyMembershipMsg { membership_issuer_user_id: 3, amount: 4 }, 1_000_000_000).unwrap();
    reg.sell_membership(&s(USER_2), SellMembershipMsg { membership_issuer_user_id: 1, amount: 2 }, 1_000_000_000).unwrap();
    assert_eq!(supply(&reg, 1), 4);
    assert_eq!(held(&reg, 1), 4);
    assert_eq!(supply(&reg, 3), 5);
    assert_eq!(held(&reg, 3), 5);
}

#[test]
fn trades_that_would_overflow_are_detected() {
    let mut reg = registry(5, 10, 50, 50);
    add_user(&mut reg, 1, USER_1, true);
    let small = BuyMembershipMsg { membership_issuer_user_id: 1, amount: 2 };
    assert!(reg.buy_fits(&s("stranger"), small, 1_000_000));
    let huge = BuyMembershipMsg { membership_issuer_user_id: 1, amount: u128::MAX };
    assert!(!reg.buy_fits(&s("stranger"), huge, u128::MAX));
    let sale = SellMembershipMsg { membership_issuer_user_id: 1, amount: 0 };
    assert!(reg.sell_fits(&s(USER_1), sale, 1_000_000));
}
