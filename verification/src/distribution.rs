//! Member fee distribution: each membership has a global reward index that grows as
//! fees are distributed to its members; each member's rewards accrue as its holding
//! times the growth of the index since the member's own index was last brought up
//! to date.
use vstd::prelude::*;
use crate::action::{Action, Recipient};
use crate::error::{ContractError, StoredItem};
use crate::math::{checked_multiply_ratio, mul_div, DECIMAL_FRACTIONAL};
use crate::member::MemberRegistry;
use crate::ordered_map::{pair_key, pair_key_exec, OrderedMap};

verus! {

/// Configuration of the distribution contract.
#[derive(Debug, PartialEq, Eq)]
pub struct Config {
    pub admin_addr: String,
    /// The member contract, the only caller allowed to bring rewards up to date.
    pub membership_contract_addr: String,
    pub enabled: bool,
}

/// A member's rewards from one membership.
#[derive(Debug, Clone, Copy, PartialEq, Eq)]
pub struct Distribution {
    pub membership_issuer_user_id: u64,
    pub user_id: u64,
    /// The global index (a decimal with 18 fractional digits, in atomic units) at
    /// which the pending rewards were last brought up to date.
    pub user_index: u128,
    /// Rewards not yet claimed.
    pub pending_rewards: u128,
}

/// Bring a member's rewards up to date, given how many memberships it held since
/// the last update.
#[derive(Debug, Clone, Copy, PartialEq, Eq)]
pub struct UpdateUserPendingRewardMsg {
    pub membership_issuer_user_id: u64,
    pub user_id: u64,
    pub user_previous_amount: u128,
}

/// Pay out a member's rewards.
#[derive(Debug, Clone, Copy, PartialEq, Eq)]
pub struct ClaimRewardsMsg {
    pub membership_issuer_user_id: u64,
    pub user_id: u64,
}

/// Ask for a member's rewards.
#[derive(Debug, Clone, Copy, PartialEq, Eq)]
pub struct QueryUserRewardMsg {
    pub membership_issuer_user_id: u64,
    pub user_id: u64,
}

/// A member's rewards.
#[derive(Debug, Clone, Copy, PartialEq, Eq)]
pub struct UserRewardResponse {
    pub amount: u128,
}

/// State of the distribution contract.
pub struct DistributionState {
    pub config: Config,
    /// Rewards by `(issuer id, user id)`.
    pub distributions: OrderedMap<Distribution>,
    /// Global index by issuer id.
    pub global_indices: OrderedMap<u128>,
}

/// The rewards of a member holding `amount` whose rewards were `pending` at index
/// `index`, once brought up to the index `global`.
pub open spec fn accrued(amount: u128, global: u128, index: u128, pending: u128) -> int {
    mul_div(amount as int, global - index, DECIMAL_FRACTIONAL as int) + pending
}

/// Whether the rewards can be brought up to date: the global index has not fallen
/// behind the member's and the result fits in `u128`.
pub open spec fn accrual_computable(amount: u128, global: u128, index: u128, pending: u128) -> bool {
    global >= index && accrued(amount, global, index, pending) <= u128::MAX
}

/// Whether bringing rewards up to date can be done without a panic; see
/// [`accrual_computable`].
pub fn accrual_fits(amount: u128, global: u128, index: u128, pending: u128) -> (b: bool)
    ensures
        b == accrual_computable(amount, global, index, pending),
{
    if global < index {
        return false;
    }
    let diff = global - index;
    match checked_multiply_ratio(amount, diff, DECIMAL_FRACTIONAL) {
        Some(share) => {
            assert(mul_div(amount as int, diff as int, DECIMAL_FRACTIONAL as int) >= 0) by (nonlinear_arith)
                requires
                    amount >= 0,
                    diff >= 0,
            ;
            share.checked_add(pending).is_some()
        },
        None => false,
    }
}

fn accrue(amount: u128, global: u128, index: u128, pending: u128) -> (r: u128)
    requires
        accrual_computable(amount, global, index, pending),
    ensures
        r == accrued(amount, global, index, pending),
{
    let diff = global - index;
    assert(mul_div(amount as int, diff as int, DECIMAL_FRACTIONAL as int) >= 0) by (nonlinear_arith)
        requires
            amount >= 0,
            diff >= 0,
    ;
    let share = checked_multiply_ratio(amount, diff, DECIMAL_FRACTIONAL).unwrap();
    share + pending
}

impl DistributionState {
    /// Why bringing rewards up to date fails, checked in this order: the caller is
    /// not the member contract, the member has no distribution set up, the
    /// membership has no global index.
    pub open spec fn update_failure(&self, sender: Seq<char>, data: UpdateUserPendingRewardMsg) -> Option<ContractError> {
        if sender != self.config.membership_contract_addr@ {
            Some(ContractError::OnlyMembershipContractCanUpdateUserPendingReward)
        } else if !self.distributions.as_map().contains_key(pair_key(data.membership_issuer_user_id, data.user_id)) {
            Some(ContractError::NotFound(StoredItem::Distribution))
        } else if !self.global_indices.as_map().contains_key(data.membership_issuer_user_id as u128) {
            Some(ContractError::NotFound(StoredItem::GlobalIndex))
        } else {
            None
        }
    }

    /// The member's distribution and the membership's global index.
    pub open spec fn current(&self, issuer: u64, user: u64) -> (Distribution, u128) {
        (self.distributions.as_map()[pair_key(issuer, user)], self.global_indices.as_map()[issuer as u128])
    }

    /// Brings a member's rewards up to date: they grow by its previous holding times
    /// the growth of the global index since its own index, which becomes the global
    /// one. Only the member contract may call it; on failure nothing changes.
    pub fn update_user_pending_reward(&mut self, sender: &String, data: UpdateUserPendingRewardMsg) -> (r: Result<(), ContractError>)
        requires
            old(self).update_failure(sender@, data) is None ==> {
                let (d, g) = old(self).current(data.membership_issuer_user_id, data.user_id);
                accrual_computable(data.user_previous_amount, g, d.user_index, d.pending_rewards)
            },
        ensures
            match r {
                Err(e) => old(self).update_failure(sender@, data) == Some(e) && *final(self) == *old(self),
                Ok(()) => {
                    let k = pair_key(data.membership_issuer_user_id, data.user_id);
                    let (d, g) = old(self).current(data.membership_issuer_user_id, data.user_id);
                    &&& old(self).update_failure(sender@, data) is None
                    &&& final(self).distributions.as_map() == old(self).distributions.as_map().insert(
                        k,
                        Distribution {
                            user_index: g,
                            pending_rewards: accrued(data.user_previous_amount, g, d.user_index, d.pending_rewards) as u128,
                            ..d
                        },
                    )
                    &&& final(self).global_indices == old(self).global_indices
                    &&& final(self).config == old(self).config
                },
            },
    {
        if *sender != self.config.membership_contract_addr {
            return Err(ContractError::OnlyMembershipContractCanUpdateUserPendingReward);
        }
        let k = pair_key_exec(data.membership_issuer_user_id, data.user_id);
        let d = match self.distributions.get(k) {
            Some(d) => *d,
            None => return Err(ContractError::NotFound(StoredItem::Distribution)),
        };
        let global = match self.global_indices.get(data.membership_issuer_user_id as u128) {
            Some(g) => *g,
            None => return Err(ContractError::NotFound(StoredItem::GlobalIndex)),
        };
        let reward = accrue(data.user_previous_amount, global, d.user_index, d.pending_rewards);
        self.distributions.insert(k, Distribution { user_index: global, pending_rewards: reward, ..d });
        Ok(())
    }

    /// Why reading a member's rewards fails, checked in this order.
    pub open spec fn reward_failure(&self, data: QueryUserRewardMsg) -> Option<ContractError> {
        if !self.distributions.as_map().contains_key(pair_key(data.membership_issuer_user_id, data.user_id)) {
            Some(ContractError::NotFound(StoredItem::Distribution))
        } else if !self.global_indices.as_map().contains_key(data.membership_issuer_user_id as u128) {
            Some(ContractError::NotFound(StoredItem::GlobalIndex))
        } else {
            None
        }
    }

    /// The member's rewards as they stand: the pending ones plus its current holding
    /// times the growth of the global index since its own index.
    pub open spec fn reward_of(&self, members: &MemberRegistry, data: QueryUserRewardMsg) -> int {
        let (d, g) = self.current(data.membership_issuer_user_id, data.user_id);
        accrued(members.holding(data.user_id, data.membership_issuer_user_id), g, d.user_index, d.pending_rewards)
    }

    /// Whether the rewards of the member can be computed.
    pub open spec fn reward_computable(&self, members: &MemberRegistry, data: QueryUserRewardMsg) -> bool {
        let (d, g) = self.current(data.membership_issuer_user_id, data.user_id);
        self.reward_failure(data) is None ==> accrual_computable(
            members.holding(data.user_id, data.membership_issuer_user_id),
            g,
            d.user_index,
            d.pending_rewards,
        )
    }

    /// A member's rewards, counting its current holding since its index was last
    /// brought up to date.
    pub fn query_user_reward(&self, members: &MemberRegistry, data: QueryUserRewardMsg) -> (r: Result<UserRewardResponse, ContractError>)
        requires
            self.reward_computable(members, data),
        ensures
            match r {
                Err(e) => self.reward_failure(data) == Some(e),
                Ok(resp) => self.reward_failure(data) is None && resp.amount == self.reward_of(members, data),
            },
    {
        let d = match self.distributions.get(pair_key_exec(data.membership_issuer_user_id, data.user_id)) {
            Some(d) => *d,
            None => return Err(ContractError::NotFound(StoredItem::Distribution)),
        };
        let global = match self.global_indices.get(data.membership_issuer_user_id as u128) {
            Some(g) => *g,
            None => return Err(ContractError::NotFound(StoredItem::GlobalIndex)),
        };
        let amount = members.holding_of(data.user_id, data.membership_issuer_user_id);
        Ok(UserRewardResponse { amount: accrue(amount, global, d.user_index, d.pending_rewards) })
    }

    /// Why claiming fails, checked in this order: the membership has no global index,
    /// the member has no distribution set up.
    pub open spec fn claim_failure(&self, data: ClaimRewardsMsg) -> Option<ContractError> {
        if !self.global_indices.as_map().contains_key(data.membership_issuer_user_id as u128) {
            Some(ContractError::NotFound(StoredItem::GlobalIndex))
        } else if !self.distributions.as_map().contains_key(pair_key(data.membership_issuer_user_id, data.user_id)) {
            Some(ContractError::NotFound(StoredItem::Distribution))
        } else {
            None
        }
    }

    /// Pays a member its rewards: sends them to its address, brings its index up to
    /// the global one and sets its pending rewards to zero. Anyone may call it; the
    /// member must be a registered user. On failure nothing changes.
    pub fn claim_reward(&mut self, members: &MemberRegistry, data: ClaimRewardsMsg) -> (r: Result<Action, ContractError>)
        requires
            members.id_registered(data.user_id),
            old(self).reward_computable(members, QueryUserRewardMsg { membership_issuer_user_id: data.membership_issuer_user_id, user_id: data.user_id }),
        ensures
            match r {
                Err(e) => old(self).claim_failure(data) == Some(e) && *final(self) == *old(self),
                Ok(action) => {
                    let q = QueryUserRewardMsg { membership_issuer_user_id: data.membership_issuer_user_id, user_id: data.user_id };
                    let k = pair_key(data.membership_issuer_user_id, data.user_id);
                    let (d, g) = old(self).current(data.membership_issuer_user_id, data.user_id);
                    &&& old(self).claim_failure(data) is None
                    &&& action == Action::Transfer {
                        to: Recipient::Address(members.user_at_id(data.user_id).addr),
                        amount: old(self).reward_of(members, q) as u128,
                    }
                    &&& final(self).distributions.as_map() == old(self).distributions.as_map().insert(
                        k,
                        Distribution { user_index: g, pending_rewards: 0, ..d },
                    )
                    &&& final(self).global_indices == old(self).global_indices
                    &&& final(self).config == old(self).config
                },
            },
    {
        let user_addr = match members.users.get(data.user_id as u128) {
            Some(u) => u.addr.clone(),
            None => return Err(ContractError::UserNotExist),
        };
        let global = match self.global_indices.get(data.membership_issuer_user_id as u128) {
            Some(g) => *g,
            None => return Err(ContractError::NotFound(StoredItem::GlobalIndex)),
        };
        let q = QueryUserRewardMsg { membership_issuer_user_id: data.membership_issuer_user_id, user_id: data.user_id };
        let reward = match self.query_user_reward(members, q) {
            Ok(resp) => resp.amount,
            Err(e) => return Err(e),
        };
        let k = pair_key_exec(data.membership_issuer_user_id, data.user_id);
        let d = match self.distributions.get(k) {
            Some(d) => *d,
            None => return Err(ContractError::CannotClaimRewardBeforeSetupDistribution),
        };
        self.distributions.insert(k, Distribution { user_index: global, pending_rewards: 0, ..d });
        Ok(Action::Transfer { to: Recipient::Address(user_addr), amount: reward })
    }
}

/// Bringing rewards up to date twice in a row, with no distribution in between,
/// adds nothing the second time: once a member's index equals the global index its
/// rewards stay as they are, whatever holding is reported.
pub proof fn law_second_update_adds_nothing(amount: u128, global: u128, pending: u128)
    ensures
        accrued(amount, global, global, pending) == pending,
        accrual_computable(amount, global, global, pending),
{
    assert(mul_div(amount as int, 0, DECIMAL_FRACTIONAL as int) == 0) by (nonlinear_arith);
}

/// Rewards only grow as the global index grows: a member never loses pending
/// rewards by being brought up to date.
pub proof fn law_rewards_never_shrink(amount: u128, global: u128, index: u128, pending: u128)
    requires
        global >= index,
    ensures
        accrued(amount, global, index, pending) >= pending,
{
    assert(mul_div(amount as int, global - index, DECIMAL_FRACTIONAL as int) >= 0) by (nonlinear_arith)
        requires
            amount >= 0,
            global - index >= 0,
    ;
}

} // verus!
