//! Users' thread fee settings held as two groups, the fee percentages and the fee
//! share, each either set as a whole or left to the contract's defaults.
use vstd::prelude::*;
use crate::config::{shares_addable, shares_sum_to_100, FeeConfig, FeeShareConfig};
use crate::error::ContractError;
use crate::member::MemberRegistry;
use crate::ordered_map::OrderedMap;
use crate::thread_user::UpdateUserConfigMsg;

verus! {

/// A user's thread fee settings: its own fee percentages and fee share, where set.
#[derive(Debug, Clone, Copy, PartialEq, Eq)]
pub struct GroupedUserConfig {
    pub fee_config: Option<FeeConfig>,
    pub fee_share_config: Option<FeeShareConfig>,
}

/// Whether the update gives any fee percentage.
pub open spec fn sets_fees(data: UpdateUserConfigMsg) -> bool {
    data.ask_fee_percentage_of_membership is Some || data.ask_fee_to_thread_creator_percentage_of_membership is Some
        || data.reply_fee_percentage_of_membership is Some || data.reply_fee_to_thread_creator_percentage_of_membership is Some
}

/// The given value, or the current one.
pub open spec fn given_or(given: Option<u64>, current: u64) -> u64 {
    match given {
        Some(v) => v,
        None => current,
    }
}

/// The settings after an update: when any fee percentage is given, the fee group
/// becomes the given percentages over the current ones; when the members' share is
/// given, the share group becomes the two given shares. Groups not touched stay.
pub open spec fn updated_grouped(current: GroupedUserConfig, data: UpdateUserConfigMsg) -> GroupedUserConfig {
    let f = current.fee_config.unwrap();
    GroupedUserConfig {
        fee_config: if sets_fees(data) {
            Some(
                FeeConfig {
                    ask_fee_percentage_of_membership: given_or(data.ask_fee_percentage_of_membership, f.ask_fee_percentage_of_membership),
                    ask_fee_to_thread_creator_percentage_of_membership: given_or(
                        data.ask_fee_to_thread_creator_percentage_of_membership,
                        f.ask_fee_to_thread_creator_percentage_of_membership,
                    ),
                    reply_fee_percentage_of_membership: given_or(
                        data.reply_fee_percentage_of_membership,
                        f.reply_fee_percentage_of_membership,
                    ),
                    reply_fee_to_thread_creator_percentage_of_membership: given_or(
                        data.reply_fee_to_thread_creator_percentage_of_membership,
                        f.reply_fee_to_thread_creator_percentage_of_membership,
                    ),
                },
            )
        } else {
            current.fee_config
        },
        fee_share_config: if data.share_to_all_members_percentage is Some {
            Some(
                FeeShareConfig {
                    share_to_issuer_percentage: data.share_to_issuer_percentage.unwrap(),
                    share_to_all_members_percentage: data.share_to_all_members_percentage.unwrap(),
                },
            )
        } else {
            current.fee_share_config
        },
    }
}

/// Why an update fails, checked in this order: the sender is not the user, the user
/// has no settings, the resulting share does not add up to 100 percent.
pub open spec fn grouped_update_failure(
    configs: Map<u128, GroupedUserConfig>,
    members: &MemberRegistry,
    sender: Seq<char>,
    data: UpdateUserConfigMsg,
) -> Option<ContractError> {
    let k = data.user_id as u128;
    if sender != members.user_at_id(data.user_id).addr@ {
        Some(ContractError::OnlyUserCanUpdateItsOwnConfig)
    } else if !configs.contains_key(k) {
        Some(ContractError::UserNotExist)
    } else if updated_grouped(configs[k], data).fee_share_config matches Some(s) && !shares_sum_to_100(s) {
        Some(ContractError::ThreadFeeSharePercentageMustSumTo100)
    } else {
        None
    }
}

/// Whether an update can be carried out without a panic: a fee percentage left out
/// is taken from current percentages, a members' share comes with the issuer's, and
/// the shares can be added.
pub open spec fn grouped_update_computable(configs: Map<u128, GroupedUserConfig>, data: UpdateUserConfigMsg) -> bool {
    let k = data.user_id as u128;
    let current = configs[k];
    configs.contains_key(k) ==> {
        &&& sets_fees(data) && !(data.ask_fee_percentage_of_membership is Some
            && data.ask_fee_to_thread_creator_percentage_of_membership is Some && data.reply_fee_percentage_of_membership is Some
            && data.reply_fee_to_thread_creator_percentage_of_membership is Some) ==> current.fee_config is Some
        &&& data.share_to_all_members_percentage is Some ==> data.share_to_issuer_percentage is Some
        &&& updated_grouped(current, data).fee_share_config matches Some(s) ==> shares_addable(s)
    }
}

fn given_or_exec(given: Option<u64>, current: u64) -> (v: u64)
    ensures
        v == given_or(given, current),
{
    match given {
        Some(v) => v,
        None => current,
    }
}

/// The user `data.user_id` changes its thread fee settings, group by group. Only the
/// user itself may; afterwards its own fee share, if it has one, must add up to 100
/// percent. On failure nothing changes.
pub fn update_user_config(
    configs: &mut OrderedMap<GroupedUserConfig>,
    members: &MemberRegistry,
    sender: &String,
    data: UpdateUserConfigMsg,
) -> (r: Result<(), ContractError>)
    requires
        members.wf(),
        members.id_registered(data.user_id),
        grouped_update_computable(old(configs).as_map(), data),
    ensures
        match r {
            Err(e) => grouped_update_failure(old(configs).as_map(), members, sender@, data) == Some(e) && final(configs).as_map()
                == old(configs).as_map(),
            Ok(()) => {
                &&& grouped_update_failure(old(configs).as_map(), members, sender@, data) is None
                &&& final(configs).as_map() == old(configs).as_map().insert(
                    data.user_id as u128,
                    updated_grouped(old(configs).as_map()[data.user_id as u128], data),
                )
            },
        },
{
    let user = members.user_by_id(data.user_id).unwrap();
    if *sender != user.addr {
        return Err(ContractError::OnlyUserCanUpdateItsOwnConfig);
    }
    let current = match configs.get(data.user_id as u128) {
        Some(c) => *c,
        None => return Err(ContractError::UserNotExist),
    };
    let sets = data.ask_fee_percentage_of_membership.is_some() || data.ask_fee_to_thread_creator_percentage_of_membership.is_some()
        || data.reply_fee_percentage_of_membership.is_some() || data.reply_fee_to_thread_creator_percentage_of_membership.is_some();
    let fee_config = if sets {
        // Without current percentages every one is given, so none of these is used.
        let f = match current.fee_config {
            Some(f) => f,
            None => FeeConfig {
                ask_fee_percentage_of_membership: 0,
                ask_fee_to_thread_creator_percentage_of_membership: 0,
                reply_fee_percentage_of_membership: 0,
                reply_fee_to_thread_creator_percentage_of_membership: 0,
            },
        };
        Some(
            FeeConfig {
                ask_fee_percentage_of_membership: given_or_exec(data.ask_fee_percentage_of_membership, f.ask_fee_percentage_of_membership),
                ask_fee_to_thread_creator_percentage_of_membership: given_or_exec(
                    data.ask_fee_to_thread_creator_percentage_of_membership,
                    f.ask_fee_to_thread_creator_percentage_of_membership,
                ),
                reply_fee_percentage_of_membership: given_or_exec(
                    data.reply_fee_percentage_of_membership,
                    f.reply_fee_percentage_of_membership,
                ),
                reply_fee_to_thread_creator_percentage_of_membership: given_or_exec(
                    data.reply_fee_to_thread_creator_percentage_of_membership,
                    f.reply_fee_to_thread_creator_percentage_of_membership,
                ),
            },
        )
    } else {
        current.fee_config
    };
    let fee_share_config = match data.share_to_all_members_percentage {
        Some(members_share) => Some(
            FeeShareConfig { share_to_issuer_percentage: data.share_to_issuer_percentage.unwrap(), share_to_all_members_percentage: members_share },
        ),
        None => current.fee_share_config,
    };
    let updated = GroupedUserConfig { fee_config, fee_share_config };
    if let Some(s) = fee_share_config {
        if s.share_to_issuer_percentage + s.share_to_all_members_percentage != 100 {
            return Err(ContractError::ThreadFeeSharePercentageMustSumTo100);
        }
    }
    assert(updated == updated_grouped(current, data));
    configs.insert(data.user_id as u128, updated);
    Ok(())
}

} // verus!
