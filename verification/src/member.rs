//! Users of the member contract, their fee settings and the memberships they
//! issue and hold.
use vstd::prelude::*;
use crate::action::{Action, Recipient};
use crate::config::FeeShareConfig;
use crate::error::{ContractError, StoredItem};
use crate::fees::{
    buy_cost, buy_cost_computable, buy_cost_fits, law_sell_price_equals_buy_price, query_cost_to_buy_key, query_cost_to_sell_key,
    sell_cost, sell_cost_computable, sell_cost_fits, supply_of,
};
use crate::ordered_map::{
    entries_map, in_window, lemma_drop_last, lemma_window_in_map, lemma_entries_map_at, lemma_pair_key, lemma_prefix_window, lemma_sorted_unique, pair_key, pair_key_exec, pair_low, pair_parts, strictly_sorted, window_entries, window_pred,
    OrderedMap,
};

verus! {

/// What the protocol charges on membership trades.
#[derive(Debug, Clone, Copy, PartialEq, Eq)]
pub struct ProtocolFeeConfig {
    /// Percentage of the trading fee that goes to the protocol.
    pub membership_trading_fee_percentage: u64,
}

/// Default trading fee.
#[derive(Debug, PartialEq, Eq)]
pub struct FeeConfig {
    /// Denomination of all fees.
    pub fee_denom: String,
    /// Trading fee, as a percentage of the price of the traded memberships.
    pub trading_fee_percentage_of_membership: u64,
}

/// Configuration of the member contract.
#[derive(Debug, PartialEq, Eq)]
pub struct Config {
    pub admin_addr: String,
    pub distribution_contract_addr: Option<String>,
    pub enabled: bool,
    pub enable_open_registration: bool,
    pub registration_admin_addr: String,
    pub protocol_fee_collector_addr: String,
    pub protocol_fee_config: ProtocolFeeConfig,
    pub default_fee_config: FeeConfig,
    pub default_fee_share_config: FeeShareConfig,
}

/// A user's own trading fee settings; unset ones fall back to the defaults.
#[derive(Debug, Clone, Copy, PartialEq, Eq)]
pub struct UserConfig {
    pub trading_fee_percentage_of_membership: Option<u64>,
    pub share_to_issuer_percentage: Option<u64>,
    pub share_to_all_members_percentage: Option<u64>,
}

/// The membership a user issues.
#[derive(Debug, Clone, Copy, PartialEq, Eq)]
pub struct MembershipIssuedByMe {
    /// Number of memberships issued.
    pub membership_supply: u128,
    /// Number of distinct holders.
    pub member_count: u128,
}

/// A user of the member contract.
#[derive(Debug, PartialEq, Eq)]
pub struct User {
    /// Unique, increasing identifier.
    pub id: u64,
    pub addr: String,
    pub social_media_handle: Option<String>,
    pub config: UserConfig,
    /// Of how many memberships this user is a member.
    pub user_member_count: u128,
    /// The membership this user issues, once enabled.
    pub membership_issued_by_me: Option<MembershipIssuedByMe>,
}

impl User {
    /// A copy of the user.
    pub fn duplicate(&self) -> (u: User)
        ensures
            u == *self,
    {
        User {
            id: self.id,
            addr: self.addr.clone(),
            social_media_handle: match &self.social_media_handle {
                Some(h) => Some(h.clone()),
                None => None,
            },
            config: self.config,
            user_member_count: self.user_member_count,
            membership_issued_by_me: self.membership_issued_by_me,
        }
    }
}

/// The users of the member contract and the memberships they hold.
pub struct MemberRegistry {
    pub config: Config,
    /// Id that the next registered user receives.
    pub next_user_id: u64,
    /// Users by id.
    pub users: OrderedMap<User>,
    /// Amount held, by `(issuer id, holder id)`.
    pub members: OrderedMap<u128>,
    /// Amount held, by `(holder id, issuer id)`: the same amounts as `members`.
    pub memberships: OrderedMap<u128>,
}

/// A membership holder of an issuer and the amount it holds.
#[derive(Debug, Clone, Copy, PartialEq, Eq)]
pub struct Member {
    pub member_user_id: u64,
    pub amount: u128,
}

/// A membership held by a user.
#[derive(Debug, Clone, Copy, PartialEq, Eq)]
pub struct Membership {
    pub issuer_user_id: u64,
    pub amount: u128,
}

/// Buying memberships of an issuer.
#[derive(Debug, Clone, Copy, PartialEq, Eq)]
pub struct BuyMembershipMsg {
    pub membership_issuer_user_id: u64,
    pub amount: u128,
}

/// Selling memberships of an issuer.
#[derive(Debug, Clone, Copy, PartialEq, Eq)]
pub struct SellMembershipMsg {
    pub membership_issuer_user_id: u64,
    pub amount: u128,
}

/// `fee * amount / supply`, rounded down.
pub open spec fn share_of(fee: u128, amount: u128, supply: u128) -> u128 {
    (fee as int * amount as int / supply as int) as u128
}

/// The transfers that share `fee` among the holders of `issuer` in `members`, each
/// in proportion to its amount out of `supply`, in increasing holder id order.
pub open spec fn holder_payouts(members: Seq<(u128, u128)>, fee: u128, issuer: u64, supply: u128) -> Seq<Action> {
    window_entries(members, pair_key(issuer, 0), false, pair_key(issuer, u64::MAX)).map_values(
        |e: (u128, u128)|
            Action::Transfer { to: Recipient::User(pair_low(e.0)), amount: share_of(fee, e.1, supply) },
    )
}

/// Whether [`holder_payouts`] can be computed: a positive supply when `issuer` has
/// holders, and no product `fee * amount` beyond `u128` for any of them.
pub open spec fn holder_payouts_computable(members: Map<u128, u128>, fee: u128, issuer: u64, supply: u128) -> bool {
    &&& (exists|h: u64| #[trigger] members.contains_key(pair_key(issuer, h))) ==> supply > 0
    &&& forall|h: u64| #[trigger] members.contains_key(pair_key(issuer, h)) ==> fee * members[pair_key(issuer, h)] <= u128::MAX
}

proof fn lemma_window_bound(s: Seq<(u128, u128)>, fee: u128, issuer: u64)
    requires
        strictly_sorted(s),
        forall|h: u64| #[trigger] entries_map(s).contains_key(pair_key(issuer, h)) ==> fee * entries_map(s)[pair_key(issuer, h)] <= u128::MAX,
    ensures
        forall|i: int|
            0 <= i < window_entries(s, pair_key(issuer, 0), false, pair_key(issuer, u64::MAX)).len() ==> fee
                * (#[trigger] window_entries(s, pair_key(issuer, 0), false, pair_key(issuer, u64::MAX))[i]).1 <= u128::MAX,
{
    let p = window_pred::<u128>(pair_key(issuer, 0), false, pair_key(issuer, u64::MAX));
    let w = s.filter(p);
    assert forall|i: int| 0 <= i < w.len() implies fee * (#[trigger] w[i]).1 <= u128::MAX by {
        s.lemma_filter_pred(p, i);
        assert(w.contains(w[i]));
        s.lemma_filter_contains_rev(p, w[i]);
        let j = choose|j: int| 0 <= j < s.len() && s[j] == w[i];
        lemma_entries_map_at(s, j);
        lemma_prefix_window(w[i].0, issuer);
        let low = pair_low(w[i].0);
        assert(entries_map(s).contains_key(pair_key(issuer, low)));
    }
}

/// The holdings of the members, with `replaced` (a holder and its new holding of
/// `issuer`) stored in them when given.
pub open spec fn with_replaced(members: Map<u128, u128>, issuer: u64, replaced: Option<(u64, u128)>) -> Map<u128, u128> {
    match replaced {
        Some((h, v)) => members.insert(pair_key(issuer, h), v),
        None => members,
    }
}

/// Whether sharing `fee` among the holders of `issuer` can be computed, over the
/// holdings with `replaced` stored in them when given; see
/// [`holder_payouts_computable`].
pub fn holder_payouts_fit(members: &OrderedMap<u128>, fee: u128, issuer: u64, supply: u128, replaced: Option<(u64, u128)>) -> (b: bool)
    ensures
        b == holder_payouts_computable(with_replaced(members.as_map(), issuer, replaced), fee, issuer, supply),
{
    let ghost m = with_replaced(members.as_map(), issuer, replaced);
    let lo = pair_key_exec(issuer, 0);
    let hi = pair_key_exec(issuer, u64::MAX);
    let _n = members.len();
    let holders = members.window(lo, false, hi, usize::MAX);
    let ghost w = window_entries(members@, lo, false, hi);
    let ghost pred = window_pred::<u128>(lo, false, hi);
    let skip: u128 = match replaced {
        Some((h, v)) => {
            if fee.checked_mul(v).is_none() || supply == 0 {
                proof {
                    lemma_pair_key(issuer, h, 0, 0);
                    assert(m.contains_key(pair_key(issuer, h)));
                }
                return false;
            }
            pair_key_exec(issuer, h)
        },
        None => 0,
    };
    proof {
        members@.lemma_filter_len(pred);
        assert(holders@ == w);
        lemma_window_in_map(members@, lo, false, hi);
    }
    if holders.len() > 0 && supply == 0 {
        proof {
            let k = w[0].0;
            lemma_prefix_window(k, issuer);
            assert(m.contains_key(pair_key(issuer, pair_low(k))));
        }
        return false;
    }
    let mut i: usize = 0;
    while i < holders.len()
        invariant
            i <= holders@.len(),
            holders@ == w,
            w == window_entries(members@, pair_key(issuer, 0), false, pair_key(issuer, u64::MAX)),
            forall|j: int| 0 <= j < i && !(replaced is Some && w[j].0 == skip) ==> fee * (#[trigger] w[j]).1 <= u128::MAX,
            strictly_sorted(members@),
            w.len() > 0 ==> supply > 0,
            replaced matches Some((h, v)) ==> skip == pair_key(issuer, h),
            m == with_replaced(members.as_map(), issuer, replaced),
        decreases holders@.len() - i,
    {
        let is_skipped = match replaced {
            Some(_) => holders[i].0 == skip,
            None => false,
        };
        if !is_skipped && fee.checked_mul(holders[i].1).is_none() {
            proof {
                lemma_window_in_map(members@, pair_key(issuer, 0), false, pair_key(issuer, u64::MAX));
                let k = w[i as int].0;
                lemma_prefix_window(k, issuer);
                assert(m.contains_key(pair_key(issuer, pair_low(k))));
            }
            return false;
        }
        i += 1;
    }
    proof {
        assert forall|h: u64| #[trigger] m.contains_key(pair_key(issuer, h)) implies fee * m[pair_key(issuer, h)] <= u128::MAX
            && supply > 0 by {
            let k = pair_key(issuer, h);
            lemma_pair_key(issuer, h, 0, 0);
            if !(replaced is Some && k == skip) {
                lemma_prefix_window(k, issuer);
                let j = choose|j: int| 0 <= j < members@.len() && members@[j].0 == k;
                lemma_entries_map_at(members@, j);
                members@.lemma_filter_contains(pred, j);
                assert(w.contains(members@[j]));
                let wi = choose|wi: int| 0 <= wi < w.len() && w[wi] == members@[j];
                assert(fee * w[wi].1 <= u128::MAX);
            }
        }
    }
    true
}

/// The transfers that share a fee among all holders of an issuer's membership, in
/// proportion to the amounts they hold.
pub fn get_cosmos_msgs_to_distribute_fee_to_all_membership_holders(
    members: &OrderedMap<u128>,
    total_fee_to_distribute_to_all_membership_holders: u128,
    membership_issuer_user_id: u64,
    supply: u128,
) -> (msgs: Vec<Action>)
    requires
        holder_payouts_computable(members.as_map(), total_fee_to_distribute_to_all_membership_holders, membership_issuer_user_id, supply),
    ensures
        msgs@ == holder_payouts(members@, total_fee_to_distribute_to_all_membership_holders, membership_issuer_user_id, supply),
{
    let fee = total_fee_to_distribute_to_all_membership_holders;
    let lo = pair_key_exec(membership_issuer_user_id, 0);
    let hi = pair_key_exec(membership_issuer_user_id, u64::MAX);
    let n = members.len();
    let holders = members.window(lo, false, hi, usize::MAX);
    let ghost w = window_entries(members@, lo, false, hi);
    proof {
        lemma_window_bound(members@, fee, membership_issuer_user_id);
        members@.lemma_filter_len(window_pred::<u128>(lo, false, hi));
        assert(holders@ == w);
        if w.len() > 0 {
            lemma_window_in_map(members@, lo, false, hi);
            let k = w[0].0;
            lemma_prefix_window(k, membership_issuer_user_id);
            assert(members.as_map().contains_key(pair_key(membership_issuer_user_id, pair_low(k))));
        }
    }
    let mut msgs: Vec<Action> = Vec::new();
    let mut i: usize = 0;
    while i < holders.len()
        invariant
            i <= holders@.len(),
            holders@ == w,
            w == window_entries(members@, pair_key(membership_issuer_user_id, 0), false, pair_key(membership_issuer_user_id, u64::MAX)),
            w.len() > 0 ==> supply > 0,
            forall|j: int| 0 <= j < w.len() ==> fee * (#[trigger] w[j]).1 <= u128::MAX,
            msgs@ == w.take(i as int).map_values(
                |e: (u128, u128)|
                    Action::Transfer { to: Recipient::User(pair_low(e.0)), amount: share_of(fee, e.1, supply) },
            ),
        decreases holders@.len() - i,
    {
        let (key, amount) = holders[i];
        assert(fee * w[i as int].1 <= u128::MAX);
        let (_, holder) = pair_parts(key);
        msgs.push(Action::Transfer { to: Recipient::User(holder), amount: fee * amount / supply });
        proof {
            let f = |e: (u128, u128)|
                Action::Transfer { to: Recipient::User(pair_low(e.0)), amount: share_of(fee, e.1, supply) };
            assert(w.take(i + 1).map_values(f) =~= w.take(i as int).map_values(f).push(f(w[i as int])));
        }
        i = i + 1;
    }
    proof {
        assert(w.take(w.len() as int) =~= w);
    }
    msgs
}

/// What a list of messages sends in all.
pub open spec fn total_sent(actions: Seq<Action>) -> nat
    decreases actions.len(),
{
    if actions.len() == 0 {
        0
    } else {
        total_sent(actions.drop_last()) + match actions.last() {
            Action::Transfer { amount, .. } => amount as nat,
            Action::Distribute { amount, .. } => amount as nat,
        }
    }
}

/// The sum of the amounts of a list of entries.
pub open spec fn entries_total(w: Seq<(u128, u128)>) -> nat
    decreases w.len(),
{
    if w.len() == 0 {
        0
    } else {
        entries_total(w.drop_last()) + (w.last().1 as nat)
    }
}

/// The total of a window of entries is that of the window without the last entry,
/// plus the last entry when it lies in the window.
proof fn lemma_window_total_step(s: Seq<(u128, u128)>, lo: u128, hi: u128)
    requires
        s.len() > 0,
    ensures
        entries_total(window_entries(s, lo, false, hi)) == entries_total(window_entries(s.drop_last(), lo, false, hi)) + (
        if in_window(s.last().0, lo, false, hi) {
            s.last().1 as nat
        } else {
            0
        }),
{
    reveal(Seq::filter);
    let p = window_pred::<u128>(lo, false, hi);
    let sub = s.drop_last().filter(p);
    assert(s.filter(p) == if p(s.last()) {
        sub.push(s.last())
    } else {
        sub
    });
    if in_window(s.last().0, lo, false, hi) {
        let w = sub.push(s.last());
        assert(w.drop_last() =~= sub);
        assert(entries_total(w) == entries_total(w.drop_last()) + w.last().1);
    }
}

/// Storing `v` under `k` changes the total of a window of strictly sorted entries by
/// `v` less what was stored under `k`, when `k` lies in the window, and not at all
/// otherwise.
proof fn lemma_window_total_insert(s: Seq<(u128, u128)>, s2: Seq<(u128, u128)>, k: u128, v: u128, lo: u128, hi: u128)
    requires
        strictly_sorted(s),
        strictly_sorted(s2),
        entries_map(s2) == entries_map(s).insert(k, v),
    ensures
        entries_total(window_entries(s2, lo, false, hi)) + (if in_window(k, lo, false, hi) && entries_map(s).contains_key(k) {
            entries_map(s)[k] as nat
        } else {
            0
        }) == entries_total(window_entries(s, lo, false, hi)) + (if in_window(k, lo, false, hi) {
            v as nat
        } else {
            0
        }),
    decreases s2.len(),
{
    if s2.len() == 0 {
        assert(entries_map(s2).contains_key(k));
    }
    lemma_drop_last(s2);
    let last = s2.last().0;
    lemma_window_total_step(s2, lo, hi);
    if last == k {
        if entries_map(s).contains_key(k) {
            if s.len() == 0 {
                assert(entries_map(s).contains_key(k));
            }
            lemma_drop_last(s);
            assert(entries_map(s2).contains_key(s.last().0));
            assert(s.last().0 == k);
            assert(entries_map(s.drop_last()) =~= entries_map(s2.drop_last()));
            lemma_sorted_unique(s.drop_last(), s2.drop_last());
            lemma_window_total_step(s, lo, hi);
        } else {
            assert(entries_map(s) =~= entries_map(s2.drop_last()));
            lemma_sorted_unique(s, s2.drop_last());
        }
    } else {
        assert(entries_map(s).contains_key(last));
        if s.len() == 0 {
            assert(!entries_map(s).contains_key(last));
        }
        lemma_drop_last(s);
        assert(entries_map(s2).contains_key(s.last().0));
        assert(s.last().0 == last);
        assert(entries_map(s2.drop_last()) =~= entries_map(s.drop_last()).insert(k, v));
        lemma_window_total_insert(s.drop_last(), s2.drop_last(), k, v, lo, hi);
        lemma_window_total_step(s, lo, hi);
    }
}

proof fn lemma_shares_total(w: Seq<(u128, u128)>, fee: u128, supply: u128)
    requires
        supply > 0,
        entries_total(w) <= supply,
    ensures
        total_sent(
            w.map_values(|e: (u128, u128)| Action::Transfer { to: Recipient::User(pair_low(e.0)), amount: share_of(fee, e.1, supply) }),
        ) <= fee * entries_total(w) / (supply as int),
    decreases w.len(),
{
    let f = |e: (u128, u128)| Action::Transfer { to: Recipient::User(pair_low(e.0)), amount: share_of(fee, e.1, supply) };
    if w.len() == 0 {
        assert(w.map_values(f).len() == 0);
    } else {
        let init = w.drop_last();
        let a = w.last().1;
        let t = entries_total(init);
        lemma_shares_total(init, fee, supply);
        assert(w.map_values(f).drop_last() =~= init.map_values(f));
        assert(w.map_values(f).last() == f(w.last()));
        assert(fee as int * a as int / supply as int <= fee as int) by (nonlinear_arith)
            requires
                a <= supply,
                supply > 0,
                fee >= 0,
        ;
        assert(fee * t / (supply as int) + fee * a / (supply as int) <= fee * (t + a) / (supply as int)) by (nonlinear_arith)
            requires
                supply > 0,
                t >= 0,
                a >= 0,
                fee >= 0,
        ;
    }
}

/// Sharing a fee among the holders of a membership never pays out more than the
/// fee, as long as the holders hold no more than the supply the shares are taken of.
pub proof fn law_holder_payouts_within_fee(members: Seq<(u128, u128)>, fee: u128, issuer: u64, supply: u128)
    requires
        supply > 0,
        held_total(members, issuer) <= supply,
    ensures
        total_sent(holder_payouts(members, fee, issuer, supply)) <= fee,
{
    let w = window_entries(members, pair_key(issuer, 0), false, pair_key(issuer, u64::MAX));
    lemma_shares_total(w, fee, supply);
    assert(fee * entries_total(w) / (supply as int) <= fee) by (nonlinear_arith)
        requires
            entries_total(w) <= supply,
            supply > 0,
            fee >= 0,
    ;
}

/// Where every supply is what its holders hold, sharing a fee among the holders of
/// an issuer, as a trade does, never pays out more than the fee.
pub proof fn law_trade_payouts_within_fee(reg: MemberRegistry, fee: u128, issuer: u64)
    requires
        reg.supply_is_held(),
        reg.id_registered(issuer),
        reg.user_at_id(issuer).membership_issued_by_me is Some,
        supply_of(reg.user_at_id(issuer)) > 0,
    ensures
        total_sent(holder_payouts(reg.members@, fee, issuer, supply_of(reg.user_at_id(issuer)))) <= fee,
{
    law_holder_payouts_within_fee(reg.members@, fee, issuer, supply_of(reg.user_at_id(issuer)));
}

/// Buying memberships and then selling as many again, by the same user, puts the
/// market back where it was: every user, the issuer's supply among them, and every
/// holding are as before, and the sale pays out exactly the price the purchase cost.
pub proof fn law_buy_then_sell_restores(
    r0: MemberRegistry,
    r1: MemberRegistry,
    r2: MemberRegistry,
    sender: String,
    issuer_id: u64,
    amount: u128,
)
    requires
        r0.wf(),
        r0.addr_registered(sender@),
        r0.id_registered(issuer_id),
        r0.user_at_id(issuer_id).membership_issued_by_me is Some,
        supply_of(r0.user_at_id(issuer_id)) + amount <= u128::MAX,
        r0.holding(r0.user_at_addr(sender@).id, issuer_id) + amount <= u128::MAX,
        r0.buy_result(r1, sender, BuyMembershipMsg { membership_issuer_user_id: issuer_id, amount }),
        r1.sell_result(r2, sender, SellMembershipMsg { membership_issuer_user_id: issuer_id, amount }),
    ensures
        r2.users.as_map() == r0.users.as_map(),
        supply_of(r2.user_at_id(issuer_id)) == supply_of(r0.user_at_id(issuer_id)),
        forall|holder: u64, issuer: u64| #[trigger] r2.holding(holder, issuer) == r0.holding(holder, issuer),
        sell_cost(r1.user_at_id(issuer_id), r1.config, amount as nat).price == buy_cost(
            r0.user_at_id(issuer_id),
            r0.config,
            amount as nat,
        ).price,
{
    let k = issuer_id as u128;
    let u = r0.user_at_id(issuer_id);
    let s = supply_of(u);
    let u1 = MemberRegistry::with_supply(u, (s + amount) as u128);
    assert(r1.users.as_map()[k] == u1);
    assert(MemberRegistry::with_supply(u1, s) == u);
    // The buyer is the seller: addresses are unchanged by the purchase.
    let k0 = choose|k: u128| #[trigger] r0.users.as_map().contains_key(k) && r0.users.as_map()[k].addr@ == sender@;
    assert(r1.users.as_map().contains_key(k0) && r1.users.as_map()[k0].addr@ == sender@);
    assert(r1.addr_registered(sender@));
    assert(r2.users.as_map() =~= r0.users.as_map());
    let k1 = choose|k: u128| #[trigger] r1.users.as_map().contains_key(k) && r1.users.as_map()[k].addr@ == sender@;
    assert(r0.users.as_map().contains_key(k1) && r0.users.as_map()[k1].addr@ == r1.users.as_map()[k1].addr@);
    assert(k0 == k1);
    let b = r0.user_at_addr(sender@).id;
    assert(r1.user_at_addr(sender@).id == b);
    let pk = pair_key(b, issuer_id);
    let h0 = r0.holding(b, issuer_id);
    assert(r1.holding(b, issuer_id) == h0 + amount);
    assert forall|holder: u64, issuer: u64| #[trigger] r2.holding(holder, issuer) == r0.holding(holder, issuer) by {
        if pair_key(holder, issuer) != pk {
        }
    }
    law_sell_price_equals_buy_price(u, r1.user_at_id(issuer_id), r0.config, amount as nat);
}

/// What the holders of memberships of `issuer` hold in total, over entries keyed by
/// issuer and holder.
pub open spec fn held_total(members: Seq<(u128, u128)>, issuer: u64) -> nat {
    entries_total(window_entries(members, pair_key(issuer, 0), false, pair_key(issuer, u64::MAX)))
}

impl MemberRegistry {
    /// Users are stored under their own id, below the next user id, and no two share
    /// an address; the two membership indexes hold the same amounts.
    pub open spec fn wf(&self) -> bool {
        &&& forall|k: u128| #[trigger] self.users.as_map().contains_key(k) ==> self.users.as_map()[k].id as u128 == k
            && k < self.next_user_id
        &&& forall|k1: u128, k2: u128|
            #![trigger self.users.as_map()[k1], self.users.as_map()[k2]]
            self.users.as_map().contains_key(k1) && self.users.as_map().contains_key(k2)
                && self.users.as_map()[k1].addr@ == self.users.as_map()[k2].addr@ ==> k1 == k2
        &&& forall|a: u64, b: u64|
            #![trigger self.members.as_map().contains_key(pair_key(a, b))]
            #![trigger self.memberships.as_map().contains_key(pair_key(b, a))]
            self.members.as_map().contains_key(pair_key(a, b)) == self.memberships.as_map().contains_key(
                pair_key(b, a),
            )
        &&& forall|a: u64, b: u64|
            #![trigger self.members.as_map()[pair_key(a, b)]]
            #![trigger self.memberships.as_map()[pair_key(b, a)]]
            self.members.as_map().contains_key(pair_key(a, b)) ==> self.members.as_map()[pair_key(a, b)]
                == self.memberships.as_map()[pair_key(b, a)]
    }

    /// Whether each issuer's membership supply is what its holders hold in total.
    pub open spec fn supply_is_held(&self) -> bool {
        forall|i: u64| #[trigger]
            self.id_registered(i) && self.user_at_id(i).membership_issued_by_me is Some ==> supply_of(self.user_at_id(i))
                == held_total(self.members@, i)
    }

    /// Whether some user has address `addr`.
    pub open spec fn addr_registered(&self, addr: Seq<char>) -> bool {
        exists|k: u128| #[trigger] self.users.as_map().contains_key(k) && self.users.as_map()[k].addr@ == addr
    }

    /// The user with address `addr`.
    pub open spec fn user_at_addr(&self, addr: Seq<char>) -> User {
        self.users.as_map()[choose|k: u128| #[trigger] self.users.as_map().contains_key(k) && self.users.as_map()[k].addr@ == addr]
    }

    /// Whether a user has id `id`.
    pub open spec fn id_registered(&self, id: u64) -> bool {
        self.users.as_map().contains_key(id as u128)
    }

    /// The user with id `id`.
    pub open spec fn user_at_id(&self, id: u64) -> User {
        self.users.as_map()[id as u128]
    }

    /// How many memberships of `issuer` the user `holder` holds.
    pub open spec fn holding(&self, holder: u64, issuer: u64) -> u128 {
        if self.memberships.as_map().contains_key(pair_key(holder, issuer)) {
            self.memberships.as_map()[pair_key(holder, issuer)]
        } else {
            0
        }
    }

    /// The user with address `addr`, if any.
    pub fn user_by_addr(&self, addr: &String) -> (r: Option<&User>)
        requires
            self.wf(),
        ensures
            r is Some <==> self.addr_registered(addr@),
            r matches Some(u) ==> *u == self.user_at_addr(addr@) && u.addr@ == addr@,
    {
        let n = self.users.len();
        let mut i: usize = 0;
        while i < n
            invariant
                self.wf(),
                n == self.users@.len(),
                strictly_sorted(self.users@),
                i <= n,
                forall|j: int| 0 <= j < i ==> self.users@[j].1.addr@ != addr@,
            decreases n - i,
        {
            let e = self.users.entry_at(i);
            if e.1.addr == *addr {
                proof {
                    lemma_entries_map_at(self.users@, i as int);
                    let k = e.0;
                    assert(self.users.as_map().contains_key(k) && self.users.as_map()[k].addr@ == addr@);
                    let c = choose|k: u128| #[trigger] self.users.as_map().contains_key(k) && self.users.as_map()[k].addr@ == addr@;
                    assert(self.users.as_map()[c] == self.users.as_map()[k]);
                }
                return Some(&e.1);
            }
            i = i + 1;
        }
        proof {
            if self.addr_registered(addr@) {
                let k = choose|k: u128| #[trigger] self.users.as_map().contains_key(k) && self.users.as_map()[k].addr@ == addr@;
                let j = choose|j: int| 0 <= j < self.users@.len() && self.users@[j].0 == k;
                lemma_entries_map_at(self.users@, j);
            }
        }
        None
    }

    /// The user with id `id`, if any.
    pub fn user_by_id(&self, id: u64) -> (r: Option<&User>)
        ensures
            r is Some <==> self.id_registered(id),
            r matches Some(u) ==> *u == self.user_at_id(id),
    {
        self.users.get(id as u128)
    }

    /// How many memberships of `issuer` the user `holder` holds.
    pub fn holding_of(&self, holder: u64, issuer: u64) -> (amount: u128)
        ensures
            amount == self.holding(holder, issuer),
    {
        match self.memberships.get(pair_key_exec(holder, issuer)) {
            Some(a) => *a,
            None => 0,
        }
    }

    /// Whether `user_id` holds memberships of `membership_issuer_user_id`, and how many.
    pub fn query_is_user_a_member_and_membership_amount(&self, membership_issuer_user_id: u64, user_id: u64) -> (r: (bool, u128))
        ensures
            r == (self.holding(user_id, membership_issuer_user_id) > 0, self.holding(user_id, membership_issuer_user_id)),
    {
        let amount = self.holding_of(user_id, membership_issuer_user_id);
        (amount > 0, amount)
    }

    /// Number of memberships issued by `membership_issuer_user_id`.
    pub fn query_membership_supply(&self, membership_issuer_user_id: u64) -> (supply: u128)
        requires
            self.id_registered(membership_issuer_user_id),
            self.user_at_id(membership_issuer_user_id).membership_issued_by_me is Some,
        ensures
            supply == supply_of(self.user_at_id(membership_issuer_user_id)),
    {
        let u = self.users.get(membership_issuer_user_id as u128).unwrap();
        u.membership_issued_by_me.unwrap().membership_supply
    }

    /// The issuer `u` with `supply` memberships issued.
    pub open spec fn with_supply(u: User, supply: u128) -> User {
        User {
            membership_issued_by_me: Some(
                MembershipIssuedByMe {
                    membership_supply: supply,
                    member_count: u.membership_issued_by_me.unwrap().member_count,
                },
            ),
            ..u
        }
    }

    /// The user record given to an address that trades without being a user: the
    /// next user id, no handle, default settings, no membership issued.
    pub open spec fn new_trader(id: u64, addr: String) -> User {
        User {
            id,
            addr,
            social_media_handle: None,
            config: UserConfig {
                trading_fee_percentage_of_membership: None,
                share_to_issuer_percentage: None,
                share_to_all_members_percentage: None,
            },
            user_member_count: 0,
            membership_issued_by_me: None,
        }
    }

    /// The id under which the trader at `sender` holds memberships: its own, or the
    /// next user id for an address that is no user yet.
    pub open spec fn trader_id(&self, sender: Seq<char>) -> u64 {
        if self.addr_registered(sender) {
            self.user_at_addr(sender).id
        } else {
            self.next_user_id
        }
    }

    /// The users once the trader at `sender` is one: unchanged for a user, else with
    /// a new user record for the address.
    pub open spec fn users_with_trader(&self, sender: String) -> Map<u128, User> {
        if self.addr_registered(sender@) {
            self.users.as_map()
        } else {
            self.users.as_map().insert(self.next_user_id as u128, Self::new_trader(self.next_user_id, sender))
        }
    }

    /// The next user id once the trader at `sender` is a user.
    pub open spec fn next_id_with_trader(&self, sender: Seq<char>) -> u64 {
        if self.addr_registered(sender) {
            self.next_user_id
        } else {
            (self.next_user_id + 1) as u64
        }
    }

    /// Gives the address `addr`, which is no user, a user record, so that it can hold
    /// memberships.
    fn add_trader(&mut self, addr: &String) -> (id: u64)
        requires
            old(self).wf(),
            !old(self).addr_registered(addr@),
            old(self).next_user_id < u64::MAX,
        ensures
            id == old(self).next_user_id,
            final(self).wf(),
            old(self).supply_is_held() ==> final(self).supply_is_held(),
            final(self).users.as_map() == old(self).users_with_trader(*addr),
            final(self).next_user_id == old(self).next_user_id + 1,
            final(self).config == old(self).config,
            final(self).members == old(self).members,
            final(self).memberships == old(self).memberships,
    {
        let id = self.next_user_id;
        let ghost old_reg = *self;
        self.users.insert(
            id as u128,
            User {
                id,
                addr: addr.clone(),
                social_media_handle: None,
                config: UserConfig {
                    trading_fee_percentage_of_membership: None,
                    share_to_issuer_percentage: None,
                    share_to_all_members_percentage: None,
                },
                user_member_count: 0,
                membership_issued_by_me: None,
            },
        );
        self.next_user_id = id + 1;
        proof {
            assert(!old_reg.users.as_map().contains_key(id as u128));
            assert forall|k1: u128, k2: u128|
                self.users.as_map().contains_key(k1) && self.users.as_map().contains_key(k2)
                    && self.users.as_map()[k1].addr@ == self.users.as_map()[k2].addr@ implies k1 == k2 by {
                if k1 != id as u128 {
                    assert(old_reg.users.as_map().contains_key(k1));
                }
                if k2 != id as u128 {
                    assert(old_reg.users.as_map().contains_key(k2));
                }
            }
            if old_reg.supply_is_held() {
                assert forall|i: u64| #[trigger]
                    self.id_registered(i) && self.user_at_id(i).membership_issued_by_me is Some implies supply_of(
                    self.user_at_id(i),
                ) == held_total(self.members@, i) by {
                    assert(old_reg.id_registered(i));
                }
            }
        }
        id
    }

    /// The state after a purchase: the issuer's supply and the buyer's holding grow
    /// by the amount bought; an address that is no user becomes one; nothing else
    /// changes.
    pub open spec fn buy_result(&self, next: MemberRegistry, sender: String, data: BuyMembershipMsg) -> bool {
        let issuer_id = data.membership_issuer_user_id;
        let issuer = self.user_at_id(issuer_id);
        let buyer = self.trader_id(sender@);
        let held = (self.holding(buyer, issuer_id) + data.amount) as u128;
        &&& next.config == self.config
        &&& next.next_user_id == self.next_id_with_trader(sender@)
        &&& next.users.as_map() == self.users_with_trader(sender).insert(
            issuer_id as u128,
            Self::with_supply(issuer, (supply_of(issuer) + data.amount) as u128),
        )
        &&& next.memberships.as_map() == self.memberships.as_map().insert(pair_key(buyer, issuer_id), held)
        &&& next.members.as_map() == self.members.as_map().insert(pair_key(issuer_id, buyer), held)
    }

    /// The state after a sale: the issuer's supply and the seller's holding shrink by
    /// the amount sold; an address that is no user (and so sells nothing) becomes one;
    /// nothing else changes.
    pub open spec fn sell_result(&self, next: MemberRegistry, sender: String, data: SellMembershipMsg) -> bool {
        let issuer_id = data.membership_issuer_user_id;
        let issuer = self.user_at_id(issuer_id);
        let seller = self.trader_id(sender@);
        let held = (self.holding(seller, issuer_id) - data.amount) as u128;
        &&& next.config == self.config
        &&& next.next_user_id == self.next_id_with_trader(sender@)
        &&& next.users.as_map() == self.users_with_trader(sender).insert(
            issuer_id as u128,
            Self::with_supply(issuer, (supply_of(issuer) - data.amount) as u128),
        )
        &&& next.memberships.as_map() == self.memberships.as_map().insert(pair_key(seller, issuer_id), held)
        &&& next.members.as_map() == self.members.as_map().insert(pair_key(issuer_id, seller), held)
    }

    /// Why buying fails, checked in this order: the issuer has issued no membership,
    /// the payment does not cover the cost. Any address may buy.
    pub open spec fn buy_failure(&self, sender: Seq<char>, data: BuyMembershipMsg, paid: u128) -> Option<ContractError> {
        let issuer = data.membership_issuer_user_id;
        if !self.id_registered(issuer) || self.user_at_id(issuer).membership_issued_by_me is None {
            Some(ContractError::NotFound(StoredItem::MembershipSupply))
        } else if buy_cost(self.user_at_id(issuer), self.config, data.amount as nat).total_needed_from_user > paid {
            Some(
                ContractError::InsufficientFundsToPayDuringBuy {
                    needed: buy_cost(self.user_at_id(issuer), self.config, data.amount as nat).total_needed_from_user,
                    available: paid,
                },
            )
        } else {
            None
        }
    }

    /// Whether a purchase, where it gets to each step, stays within the integer ranges.
    pub open spec fn buy_computable(&self, sender: Seq<char>, data: BuyMembershipMsg, paid: u128) -> bool {
        let issuer_id = data.membership_issuer_user_id;
        let issuer = self.user_at_id(issuer_id);
        let cost = buy_cost(issuer, self.config, data.amount as nat);
        let buyer = self.trader_id(sender);
        &&& (self.id_registered(issuer_id) && issuer.membership_issued_by_me is Some) ==> buy_cost_computable(
            issuer,
            self.config,
            data.amount as nat,
        )
        &&& self.buy_failure(sender, data, paid) is None ==> {
            &&& supply_of(issuer) + data.amount <= u128::MAX
            &&& self.holding(buyer, issuer_id) + data.amount <= u128::MAX
            &&& holder_payouts_computable(self.members.as_map(), cost.key_holder_fee, issuer_id, supply_of(issuer))
            &&& !self.addr_registered(sender) ==> self.next_user_id < u64::MAX
        }
    }

    proof fn lemma_wf_after_trade(
        old_reg: &MemberRegistry,
        new_reg: &MemberRegistry,
        issuer_id: u64,
        holder_id: u64,
        amount: u128,
        updated: User,
    )
        requires
            old_reg.wf(),
            old_reg.id_registered(issuer_id),
            updated.id == issuer_id,
            updated.addr@ == old_reg.user_at_id(issuer_id).addr@,
            new_reg.users.as_map() == old_reg.users.as_map().insert(issuer_id as u128, updated),
            new_reg.memberships.as_map() == old_reg.memberships.as_map().insert(pair_key(holder_id, issuer_id), amount),
            new_reg.members.as_map() == old_reg.members.as_map().insert(pair_key(issuer_id, holder_id), amount),
            new_reg.next_user_id == old_reg.next_user_id,
        ensures
            new_reg.wf(),
    {
        assert forall|a: u64, b: u64|
            new_reg.members.as_map().contains_key(pair_key(a, b)) == new_reg.memberships.as_map().contains_key(
                pair_key(b, a),
            ) && (new_reg.members.as_map().contains_key(pair_key(a, b)) ==> new_reg.members.as_map()[pair_key(a, b)]
                == new_reg.memberships.as_map()[pair_key(b, a)]) by {
            lemma_pair_key(a, b, issuer_id, holder_id);
            lemma_pair_key(b, a, holder_id, issuer_id);
        }
        assert forall|k1: u128, k2: u128|
            new_reg.users.as_map().contains_key(k1) && new_reg.users.as_map().contains_key(k2)
                && new_reg.users.as_map()[k1].addr@ == new_reg.users.as_map()[k2].addr@ implies k1 == k2 by {
            assert(old_reg.users.as_map().contains_key(k1) && old_reg.users.as_map().contains_key(k2));
            assert(old_reg.users.as_map()[k1].addr@ == new_reg.users.as_map()[k1].addr@);
            assert(old_reg.users.as_map()[k2].addr@ == new_reg.users.as_map()[k2].addr@);
        }
    }

    /// A trade that moves an issuer's supply and one holding of it by the same amount
    /// keeps every supply equal to what its holders hold in total.
    proof fn lemma_trade_keeps_supply_held(
        old_reg: &MemberRegistry,
        new_reg: &MemberRegistry,
        issuer_id: u64,
        holder_id: u64,
        held: u128,
        supply: u128,
    )
        requires
            old_reg.wf(),
            old_reg.supply_is_held(),
            strictly_sorted(old_reg.members@),
            strictly_sorted(new_reg.members@),
            old_reg.id_registered(issuer_id),
            old_reg.user_at_id(issuer_id).membership_issued_by_me is Some,
            supply + old_reg.holding(holder_id, issuer_id) == supply_of(old_reg.user_at_id(issuer_id)) + held,
            new_reg.users.as_map() == old_reg.users.as_map().insert(
                issuer_id as u128,
                Self::with_supply(old_reg.user_at_id(issuer_id), supply),
            ),
            new_reg.members.as_map() == old_reg.members.as_map().insert(pair_key(issuer_id, holder_id), held),
        ensures
            new_reg.supply_is_held(),
    {
        let k = pair_key(issuer_id, holder_id);
        lemma_pair_key(issuer_id, holder_id, 0, 0);
        assert(old_reg.members.as_map().contains_key(pair_key(issuer_id, holder_id))
            == old_reg.memberships.as_map().contains_key(pair_key(holder_id, issuer_id)));
        if old_reg.members.as_map().contains_key(pair_key(issuer_id, holder_id)) {
            assert(old_reg.members.as_map()[pair_key(issuer_id, holder_id)] == old_reg.memberships.as_map()[pair_key(
                holder_id,
                issuer_id,
            )]);
        }
        assert forall|i: u64| #[trigger]
            new_reg.id_registered(i) && new_reg.user_at_id(i).membership_issued_by_me is Some implies supply_of(
            new_reg.user_at_id(i),
        ) == held_total(new_reg.members@, i) by {
            lemma_prefix_window(k, i);
            lemma_window_total_insert(old_reg.members@, new_reg.members@, k, held, pair_key(i, 0), pair_key(i, u64::MAX));
            assert(old_reg.id_registered(i));
        }
    }

    /// Whether a purchase can be carried out without an overflow; see
    /// [`Self::buy_computable`].
    pub fn buy_fits(&self, sender: &String, data: BuyMembershipMsg, paid: u128) -> (b: bool)
        requires
            self.wf(),
        ensures
            b == self.buy_computable(sender@, data, paid),
    {
        let issuer_id = data.membership_issuer_user_id;
        let issuer = match self.users.get(issuer_id as u128) {
            Some(u) => u,
            None => return true,
        };
        let supply = match issuer.membership_issued_by_me {
            Some(m) => m.membership_supply,
            None => return true,
        };
        if !buy_cost_fits(issuer, &self.config, data.amount) {
            return false;
        }
        let cost = query_cost_to_buy_key(issuer, &self.config, data.amount);
        if cost.total_needed_from_user > paid {
            return true;
        }
        if supply.checked_add(data.amount).is_none() {
            return false;
        }
        let buyer = match self.user_by_addr(sender) {
            Some(u) => u.id,
            None => {
                if self.next_user_id == u64::MAX {
                    return false;
                }
                self.next_user_id
            },
        };
        if self.holding_of(buyer, issuer_id).checked_add(data.amount).is_none() {
            return false;
        }
        holder_payouts_fit(&self.members, cost.key_holder_fee, issuer_id, supply, None)
    }

    /// Whether a sale can be carried out without an overflow; see
    /// [`Self::sell_computable`].
    pub fn sell_fits(&self, sender: &String, data: SellMembershipMsg, paid: u128) -> (b: bool)
        requires
            self.wf(),
        ensures
            b == self.sell_computable(sender@, data, paid),
    {
        let issuer_id = data.membership_issuer_user_id;
        let issuer = match self.users.get(issuer_id as u128) {
            Some(u) => u,
            None => return true,
        };
        let supply = match issuer.membership_issued_by_me {
            Some(m) => m.membership_supply,
            None => return true,
        };
        if supply <= data.amount {
            return true;
        }
        let (registered, seller) = match self.user_by_addr(sender) {
            Some(u) => (true, u.id),
            None => (false, self.next_user_id),
        };
        let held = self.holding_of(seller, issuer_id);
        if registered && held < data.amount || !registered && data.amount > 0 {
            return true;
        }
        if !sell_cost_fits(issuer, &self.config, data.amount) {
            return false;
        }
        let cost = query_cost_to_sell_key(issuer, &self.config, data.amount);
        if cost.total_needed_from_user > paid {
            return true;
        }
        if !registered && self.next_user_id == u64::MAX {
            return false;
        }
        holder_payouts_fit(&self.members, cost.key_holder_fee, issuer_id, supply - data.amount, Some((seller, held - data.amount)))
    }

    /// Buys `data.amount` memberships of an issuer for the address `sender`, who paid
    /// `user_paid_amount`; an address that is no user is given a user record to hold
    /// them. The holders' fee is shared among the current holders; the
    /// issuer and the protocol fee collector are paid their fees; the supply and the
    /// buyer's holding grow by the amount. On failure nothing changes.
    pub fn buy_membership(&mut self, sender: &String, data: BuyMembershipMsg, user_paid_amount: u128) -> (r: Result<Vec<Action>, ContractError>)
        requires
            old(self).wf(),
            old(self).buy_computable(sender@, data, user_paid_amount),
        ensures
            final(self).wf(),
            old(self).supply_is_held() ==> final(self).supply_is_held(),
            match r {
                Err(e) => old(self).buy_failure(sender@, data, user_paid_amount) == Some(e) && *final(self) == *old(self),
                Ok(msgs) => {
                    let issuer_id = data.membership_issuer_user_id;
                    let issuer = old(self).user_at_id(issuer_id);
                    let cost = buy_cost(issuer, old(self).config, data.amount as nat);
                    &&& old(self).buy_failure(sender@, data, user_paid_amount) is None
                    &&& old(self).buy_result(*final(self), *sender, data)
                    &&& msgs@ == holder_payouts(old(self).members@, cost.key_holder_fee, issuer_id, supply_of(issuer)) + seq![
                        Action::Transfer { to: Recipient::Address(issuer.addr), amount: cost.key_issuer_fee },
                        Action::Transfer { to: Recipient::Address(old(self).config.protocol_fee_collector_addr), amount: cost.protocol_fee },
                    ]
                },
            },
    {
        let issuer_id = data.membership_issuer_user_id;
        let issuer = match self.users.get(issuer_id as u128) {
            Some(u) => u.duplicate(),
            None => return Err(ContractError::NotFound(StoredItem::MembershipSupply)),
        };
        let issued = match issuer.membership_issued_by_me {
            Some(m) => m,
            None => return Err(ContractError::NotFound(StoredItem::MembershipSupply)),
        };
        let cost = query_cost_to_buy_key(&issuer, &self.config, data.amount);
        if cost.total_needed_from_user > user_paid_amount {
            return Err(
                ContractError::InsufficientFundsToPayDuringBuy { needed: cost.total_needed_from_user, available: user_paid_amount },
            );
        }
        let buyer_id = match self.user_by_addr(sender) {
            Some(u) => u.id,
            None => self.add_trader(sender),
        };
        let previous = self.holding_of(buyer_id, issuer_id);
        let supply = issued.membership_supply;
        let mut msgs = get_cosmos_msgs_to_distribute_fee_to_all_membership_holders(
            &self.members,
            cost.key_holder_fee,
            issuer_id,
            supply,
        );
        let ghost payouts = msgs@;
        msgs.push(Action::Transfer { to: Recipient::Address(issuer.addr.clone()), amount: cost.key_issuer_fee });
        msgs.push(
            Action::Transfer {
                to: Recipient::Address(self.config.protocol_fee_collector_addr.clone()),
                amount: cost.protocol_fee,
            },
        );
        proof {
            use_type_invariant(&self.members);
        }
        let ghost old_reg = *self;
        let mut updated = issuer.duplicate();
        updated.membership_issued_by_me = Some(
            MembershipIssuedByMe { membership_supply: supply + data.amount, member_count: issued.member_count },
        );
        let ghost updated_user = updated;
        self.users.insert(issuer_id as u128, updated);
        self.memberships.insert(pair_key_exec(buyer_id, issuer_id), previous + data.amount);
        self.members.insert(pair_key_exec(issuer_id, buyer_id), previous + data.amount);
        proof {
            Self::lemma_wf_after_trade(&old_reg, self, issuer_id, buyer_id, (previous + data.amount) as u128, updated_user);
            use_type_invariant(&self.members);
            if old_reg.supply_is_held() {
                Self::lemma_trade_keeps_supply_held(
                    &old_reg,
                    self,
                    issuer_id,
                    buyer_id,
                    (previous + data.amount) as u128,
                    (supply + data.amount) as u128,
                );
            }
            assert(msgs@ =~= payouts + seq![
                Action::Transfer { to: Recipient::Address(issuer.addr), amount: cost.key_issuer_fee },
                Action::Transfer { to: Recipient::Address(old_reg.config.protocol_fee_collector_addr), amount: cost.protocol_fee },
            ]);
        }
        Ok(msgs)
    }

    /// Why selling fails, checked in this order: the issuer has issued no membership,
    /// the sale would leave no membership issued, the seller holds fewer than it sells
    /// (an address that is no user holds none), the payment does not cover the fees.
    pub open spec fn sell_failure(&self, sender: Seq<char>, data: SellMembershipMsg, paid: u128) -> Option<ContractError> {
        let issuer_id = data.membership_issuer_user_id;
        let issuer = self.user_at_id(issuer_id);
        let seller = self.user_at_addr(sender).id;
        if !self.id_registered(issuer_id) || issuer.membership_issued_by_me is None {
            Some(ContractError::NotFound(StoredItem::MembershipSupply))
        } else if supply_of(issuer) <= data.amount {
            Some(ContractError::CannotSellLastMembership { sell: data.amount, total_supply: supply_of(issuer) })
        } else if !self.addr_registered(sender) && data.amount > 0 {
            Some(ContractError::InsufficientMembershipsToSell { sell: data.amount, available: 0 })
        } else if self.addr_registered(sender) && self.holding(seller, issuer_id) < data.amount {
            Some(ContractError::InsufficientMembershipsToSell { sell: data.amount, available: self.holding(seller, issuer_id) })
        } else if sell_cost(issuer, self.config, data.amount as nat).total_needed_from_user > paid {
            Some(
                ContractError::InsufficientFundsToPayDuringSell {
                    needed: sell_cost(issuer, self.config, data.amount as nat).total_needed_from_user,
                    available: paid,
                },
            )
        } else {
            None
        }
    }

    /// Whether a sale, where it gets to each step, stays within the integer ranges.
    pub open spec fn sell_computable(&self, sender: Seq<char>, data: SellMembershipMsg, paid: u128) -> bool {
        let issuer_id = data.membership_issuer_user_id;
        let issuer = self.user_at_id(issuer_id);
        let seller = self.trader_id(sender);
        let cost = sell_cost(issuer, self.config, data.amount as nat);
        &&& (self.id_registered(issuer_id) && issuer.membership_issued_by_me is Some && supply_of(issuer) > data.amount
            && (self.addr_registered(sender) ==> self.holding(seller, issuer_id) >= data.amount) && (!self.addr_registered(
            sender,
        ) ==> data.amount == 0)) ==> sell_cost_computable(
            issuer,
            self.config,
            data.amount as nat,
        )
        &&& self.sell_failure(sender, data, paid) is None ==> holder_payouts_computable(
            self.members.as_map().insert(pair_key(issuer_id, seller), (self.holding(seller, issuer_id) - data.amount) as u128),
            cost.key_holder_fee,
            issuer_id,
            (supply_of(issuer) - data.amount) as u128,
        )
        &&& self.sell_failure(sender, data, paid) is None && !self.addr_registered(sender) ==> self.next_user_id < u64::MAX
    }

    /// Sells `data.amount` memberships of an issuer for the address `sender`, who paid
    /// `user_paid_amount` towards the fees. The supply and the seller's holding shrink
    /// by the amount; the holders' fee is shared among the holders as they are after
    /// the sale; the issuer and the protocol are paid their fees and the seller is paid
    /// the price. On failure nothing changes.
    pub fn sell_membership(&mut self, sender: &String, data: SellMembershipMsg, user_paid_amount: u128) -> (r: Result<Vec<Action>, ContractError>)
        requires
            old(self).wf(),
            old(self).sell_computable(sender@, data, user_paid_amount),
        ensures
            final(self).wf(),
            old(self).supply_is_held() ==> final(self).supply_is_held(),
            match r {
                Err(e) => old(self).sell_failure(sender@, data, user_paid_amount) == Some(e) && *final(self) == *old(self),
                Ok(msgs) => {
                    let issuer_id = data.membership_issuer_user_id;
                    let issuer = old(self).user_at_id(issuer_id);
                    let cost = sell_cost(issuer, old(self).config, data.amount as nat);
                    let seller_addr = if old(self).addr_registered(sender@) {
                        old(self).user_at_addr(sender@).addr
                    } else {
                        *sender
                    };
                    &&& old(self).sell_failure(sender@, data, user_paid_amount) is None
                    &&& old(self).sell_result(*final(self), *sender, data)
                    &&& msgs@ == holder_payouts(final(self).members@, cost.key_holder_fee, issuer_id, (supply_of(issuer) - data.amount) as u128) + seq![
                        Action::Transfer { to: Recipient::Address(issuer.addr), amount: cost.key_issuer_fee },
                        Action::Transfer { to: Recipient::Address(old(self).config.protocol_fee_collector_addr), amount: cost.protocol_fee },
                        Action::Transfer { to: Recipient::Address(seller_addr), amount: cost.price },
                    ]
                },
            },
    {
        let issuer_id = data.membership_issuer_user_id;
        let issuer = match self.users.get(issuer_id as u128) {
            Some(u) => u.duplicate(),
            None => return Err(ContractError::NotFound(StoredItem::MembershipSupply)),
        };
        let issued = match issuer.membership_issued_by_me {
            Some(m) => m,
            None => return Err(ContractError::NotFound(StoredItem::MembershipSupply)),
        };
        let total_supply = issued.membership_supply;
        if total_supply <= data.amount {
            return Err(ContractError::CannotSellLastMembership { sell: data.amount, total_supply });
        }
        let (known_id, seller_addr) = match self.user_by_addr(sender) {
            Some(u) => (Some(u.id), u.addr.clone()),
            None => (None, sender.clone()),
        };
        let available = match known_id {
            Some(id) => self.holding_of(id, issuer_id),
            None => 0,
        };
        if available < data.amount {
            return Err(ContractError::InsufficientMembershipsToSell { sell: data.amount, available });
        }
        let cost = query_cost_to_sell_key(&issuer, &self.config, data.amount);
        if cost.total_needed_from_user > user_paid_amount {
            return Err(
                ContractError::InsufficientFundsToPayDuringSell { needed: cost.total_needed_from_user, available: user_paid_amount },
            );
        }
        let seller_id = match known_id {
            Some(id) => id,
            None => self.add_trader(sender),
        };
        let previous = self.holding_of(seller_id, issuer_id);
        proof {
            use_type_invariant(&self.members);
        }
        let ghost old_reg = *self;
        let mut updated = issuer.duplicate();
        updated.membership_issued_by_me = Some(
            MembershipIssuedByMe { membership_supply: total_supply - data.amount, member_count: issued.member_count },
        );
        let ghost updated_user = updated;
        self.users.insert(issuer_id as u128, updated);
        self.memberships.insert(pair_key_exec(seller_id, issuer_id), previous - data.amount);
        self.members.insert(pair_key_exec(issuer_id, seller_id), previous - data.amount);
        proof {
            Self::lemma_wf_after_trade(&old_reg, self, issuer_id, seller_id, (previous - data.amount) as u128, updated_user);
            use_type_invariant(&self.members);
            if old_reg.supply_is_held() {
                Self::lemma_trade_keeps_supply_held(
                    &old_reg,
                    self,
                    issuer_id,
                    seller_id,
                    (previous - data.amount) as u128,
                    (total_supply - data.amount) as u128,
                );
            }
        }
        let mut msgs = get_cosmos_msgs_to_distribute_fee_to_all_membership_holders(
            &self.members,
            cost.key_holder_fee,
            issuer_id,
            total_supply - data.amount,
        );
        let ghost payouts = msgs@;
        msgs.push(Action::Transfer { to: Recipient::Address(issuer.addr.clone()), amount: cost.key_issuer_fee });
        msgs.push(
            Action::Transfer {
                to: Recipient::Address(self.config.protocol_fee_collector_addr.clone()),
                amount: cost.protocol_fee,
            },
        );
        msgs.push(Action::Transfer { to: Recipient::Address(seller_addr), amount: cost.price });
        proof {
            assert(msgs@ =~= payouts + seq![
                Action::Transfer { to: Recipient::Address(issuer.addr), amount: cost.key_issuer_fee },
                Action::Transfer { to: Recipient::Address(old_reg.config.protocol_fee_collector_addr), amount: cost.protocol_fee },
                Action::Transfer {
                    to: Recipient::Address(
                        if old(self).addr_registered(sender@) {
                            old(self).user_at_addr(sender@).addr
                        } else {
                            *sender
                        },
                    ),
                    amount: cost.price,
                },
            ]);
        }
        Ok(msgs)
    }
}

} // verus!
