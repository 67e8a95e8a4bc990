//! Creating the thread contract and changing users' fee settings.
use vstd::prelude::*;
use crate::board::ThreadState;
use crate::config::{
    assert_user_fee_share_sum_to_100, effective_fee_share, has_own_share, or_else, shares_addable, shares_sum_to_100, Config,
    FeeConfig, FeeShareConfig, ProtocolFeeConfig, ThreadConfig, UserConfig,
};
use crate::error::{ContractError, StoredItem};
use crate::member::MemberRegistry;
use crate::ordered_map::OrderedMap;

verus! {

/// Parameters of a new thread contract; unset ones take their defaults. Addresses
/// are already validated.
#[derive(Debug, PartialEq, Eq)]
pub struct InstantiateMsg {
    pub membership_contract_addr: String,
    pub admin_addr: Option<String>,
    pub protocol_fee_collector_addr: Option<String>,
    pub max_thread_title_length: Option<u64>,
    pub max_thread_description_length: Option<u64>,
    pub max_thread_label_length: Option<u64>,
    pub max_number_of_thread_labels: Option<u64>,
    pub max_thread_msg_length: Option<u64>,
    pub protocol_fee_start_new_thread_fixed_cost: Option<u128>,
    pub protocol_fee_ask_in_thread_fee_percentage: Option<u64>,
    pub protocol_fee_reply_in_thread_fee_percentage: Option<u64>,
    pub default_ask_fee_percentage_of_membership: Option<u64>,
    pub default_ask_fee_to_thread_creator_percentage_of_membership: Option<u64>,
    pub default_reply_fee_percentage_of_membership: Option<u64>,
    pub default_reply_fee_to_thread_creator_percentage_of_membership: Option<u64>,
    pub default_share_to_issuer_percentage: Option<u64>,
    pub default_share_to_all_members_percentage: Option<u64>,
}

/// The configuration a new contract starts with: posting disabled, the sender as
/// admin and fee collector unless given, and the documented defaults (title 100,
/// description 500, message 500 characters, 5 labels; a fixed thread fee of 10_000;
/// no protocol percentages; ask 5%, to the thread creator 1%, reply 1%, to the
/// thread creator on replies 1%; shares 50 / 50). The label length limit is taken
/// from the message length parameter, defaulting to 10.
pub open spec fn initial_config(sender: String, msg: InstantiateMsg) -> Config {
    Config {
        member_contract_addr: msg.membership_contract_addr,
        admin_addr: or_else(msg.admin_addr, sender),
        enabled: false,
        protocol_fee_collector_addr: or_else(msg.protocol_fee_collector_addr, sender),
        thread_config: ThreadConfig {
            max_thread_title_length: or_else(msg.max_thread_title_length, 100),
            max_thread_description_length: or_else(msg.max_thread_description_length, 500),
            max_thread_label_length: or_else(msg.max_thread_label_length, 10),
            max_number_of_thread_labels: or_else(msg.max_number_of_thread_labels, 5),
            max_thread_msg_length: or_else(msg.max_thread_msg_length, 500),
        },
        protocol_fee_config: ProtocolFeeConfig {
            start_new_thread_fixed_cost: or_else(msg.protocol_fee_start_new_thread_fixed_cost, 10_000),
            ask_in_thread_fee_percentage: or_else(msg.protocol_fee_ask_in_thread_fee_percentage, 0),
            reply_in_thread_fee_percentage: or_else(msg.protocol_fee_reply_in_thread_fee_percentage, 0),
        },
        default_fee_config: FeeConfig {
            ask_fee_percentage_of_membership: or_else(msg.default_ask_fee_percentage_of_membership, 5),
            ask_fee_to_thread_creator_percentage_of_membership: or_else(
                msg.default_ask_fee_to_thread_creator_percentage_of_membership,
                1,
            ),
            reply_fee_percentage_of_membership: or_else(msg.default_reply_fee_percentage_of_membership, 1),
            reply_fee_to_thread_creator_percentage_of_membership: or_else(
                msg.default_reply_fee_to_thread_creator_percentage_of_membership,
                1,
            ),
        },
        default_fee_share_config: FeeShareConfig {
            share_to_issuer_percentage: or_else(msg.default_share_to_issuer_percentage, 50),
            share_to_all_members_percentage: or_else(msg.default_share_to_all_members_percentage, 50),
        },
    }
}

fn u64_or(o: Option<u64>, d: u64) -> (r: u64)
    ensures
        r == or_else(o, d),
{
    match o {
        Some(v) => v,
        None => d,
    }
}

fn string_or(o: Option<String>, d: &String) -> (r: String)
    ensures
        r == or_else(o, *d),
{
    match o {
        Some(v) => v,
        None => d.clone(),
    }
}

/// Whether a user config entry changes under an update: each given field replaces
/// the stored one.
pub open spec fn merged_user_config(old: UserConfig, data: UpdateUserConfigMsg) -> UserConfig {
    UserConfig {
        ask_fee_percentage_of_membership: if data.ask_fee_percentage_of_membership is Some {
            data.ask_fee_percentage_of_membership
        } else {
            old.ask_fee_percentage_of_membership
        },
        ask_fee_to_thread_creator_percentage_of_membership: if data.ask_fee_to_thread_creator_percentage_of_membership is Some {
            data.ask_fee_to_thread_creator_percentage_of_membership
        } else {
            old.ask_fee_to_thread_creator_percentage_of_membership
        },
        reply_fee_percentage_of_membership: if data.reply_fee_percentage_of_membership is Some {
            data.reply_fee_percentage_of_membership
        } else {
            old.reply_fee_percentage_of_membership
        },
        reply_fee_to_thread_creator_percentage_of_membership: if data.reply_fee_to_thread_creator_percentage_of_membership is Some {
            data.reply_fee_to_thread_creator_percentage_of_membership
        } else {
            old.reply_fee_to_thread_creator_percentage_of_membership
        },
        share_to_issuer_percentage: if data.share_to_issuer_percentage is Some {
            data.share_to_issuer_percentage
        } else {
            old.share_to_issuer_percentage
        },
        share_to_all_members_percentage: if data.share_to_all_members_percentage is Some {
            data.share_to_all_members_percentage
        } else {
            old.share_to_all_members_percentage
        },
    }
}

fn keep_or_set(d: Option<u64>, old: Option<u64>) -> (r: Option<u64>)
    ensures
        r == (if d is Some { d } else { old }),
{
    match d {
        Some(v) => Some(v),
        None => old,
    }
}

/// Changes to a user's own fee settings.
#[derive(Debug, Clone, Copy, PartialEq, Eq)]
pub struct UpdateUserConfigMsg {
    pub user_id: u64,
    pub ask_fee_percentage_of_membership: Option<u64>,
    pub ask_fee_to_thread_creator_percentage_of_membership: Option<u64>,
    pub reply_fee_percentage_of_membership: Option<u64>,
    pub reply_fee_to_thread_creator_percentage_of_membership: Option<u64>,
    pub share_to_issuer_percentage: Option<u64>,
    pub share_to_all_members_percentage: Option<u64>,
}

/// A new value of one thread fee setting of a membership issuer.
#[derive(Debug, PartialEq, Eq)]
pub struct UpdateFeeSettingMsg {
    /// Address of the membership issuer whose setting changes.
    pub membership_issuer_addr: String,
    pub percentage: u64,
}

/// A new thread fee share of a membership issuer.
#[derive(Debug, PartialEq, Eq)]
pub struct UpdateThreadFeeShareConfigMsg {
    pub membership_issuer_addr: String,
    pub thread_fee_share_config: FeeShareConfig,
}

/// Which thread fee setting an update sets.
#[derive(Debug, Clone, Copy, PartialEq, Eq)]
pub enum FeeSetting {
    AskFee,
    AskFeeToThreadCreator,
    ReplyFee,
}

/// A user config with one fee setting set to `p`.
pub open spec fn with_setting(uc: UserConfig, which: FeeSetting, p: u64) -> UserConfig {
    match which {
        FeeSetting::AskFee => UserConfig { ask_fee_percentage_of_membership: Some(p), ..uc },
        FeeSetting::AskFeeToThreadCreator => UserConfig { ask_fee_to_thread_creator_percentage_of_membership: Some(p), ..uc },
        FeeSetting::ReplyFee => UserConfig { reply_fee_percentage_of_membership: Some(p), ..uc },
    }
}

/// The error a non-issuer gets when changing a setting.
pub open spec fn setting_unauthorized(which: FeeSetting) -> ContractError {
    match which {
        FeeSetting::AskFee => ContractError::OnlyMembershipIssuerCanUpdateItsAskFeePercentageOfMembership,
        FeeSetting::AskFeeToThreadCreator => ContractError::OnlyMembershipIssuerCanUpdateItsAskFeeToCreatorPercentageOfMembership,
        FeeSetting::ReplyFee => ContractError::OnlyMembershipIssuerCanUpdateItsReplyFeePercentageOfMembership,
    }
}

impl ThreadState {
    /// Creates the thread contract; fails when the default shares do not add up to
    /// 100 percent.
    pub fn instantiate(sender: &String, msg: InstantiateMsg) -> (r: Result<ThreadState, ContractError>)
        requires
            shares_addable(initial_config(*sender, msg).default_fee_share_config),
        ensures
            match r {
                Ok(s) => {
                    &&& shares_sum_to_100(initial_config(*sender, msg).default_fee_share_config)
                    &&& s.config == initial_config(*sender, msg)
                    &&& s.next_thread_id == 1
                    &&& s.next_thread_msg_id@.len() == 0
                    &&& s.user_configs@.len() == 0
                    &&& s.threads@.len() == 0
                    &&& s.user_thread_stats@.len() == 0
                    &&& s.users_created_threads@.len() == 0
                    &&& s.users_participated_threads@.len() == 0
                    &&& s.threads_msgs_count@.len() == 0
                    &&& s.threads_msgs@.len() == 0
                    &&& s.users_unanswered_questions@.len() == 0
                    &&& s.ids_consistent()
                    &&& s.stats_count_threads()
                },
                Err(e) => e == ContractError::ThreadFeeSharePercentageMustSumTo100 && !shares_sum_to_100(
                    initial_config(*sender, msg).default_fee_share_config,
                ),
            },
    {
        let config = Config {
            member_contract_addr: msg.membership_contract_addr,
            admin_addr: string_or(msg.admin_addr, sender),
            enabled: false,
            protocol_fee_collector_addr: string_or(msg.protocol_fee_collector_addr, sender),
            thread_config: ThreadConfig {
                max_thread_title_length: u64_or(msg.max_thread_title_length, 100),
                max_thread_description_length: u64_or(msg.max_thread_description_length, 500),
                max_thread_label_length: u64_or(msg.max_thread_label_length, 10),
                max_number_of_thread_labels: u64_or(msg.max_number_of_thread_labels, 5),
                max_thread_msg_length: u64_or(msg.max_thread_msg_length, 500),
            },
            protocol_fee_config: ProtocolFeeConfig {
                start_new_thread_fixed_cost: match msg.protocol_fee_start_new_thread_fixed_cost {
                    Some(v) => v,
                    None => 10_000,
                },
                ask_in_thread_fee_percentage: u64_or(msg.protocol_fee_ask_in_thread_fee_percentage, 0),
                reply_in_thread_fee_percentage: u64_or(msg.protocol_fee_reply_in_thread_fee_percentage, 0),
            },
            default_fee_config: FeeConfig {
                ask_fee_percentage_of_membership: u64_or(msg.default_ask_fee_percentage_of_membership, 5),
                ask_fee_to_thread_creator_percentage_of_membership: u64_or(
                    msg.default_ask_fee_to_thread_creator_percentage_of_membership,
                    1,
                ),
                reply_fee_percentage_of_membership: u64_or(msg.default_reply_fee_percentage_of_membership, 1),
                reply_fee_to_thread_creator_percentage_of_membership: u64_or(
                    msg.default_reply_fee_to_thread_creator_percentage_of_membership,
                    1,
                ),
            },
            default_fee_share_config: FeeShareConfig {
                share_to_issuer_percentage: u64_or(msg.default_share_to_issuer_percentage, 50),
                share_to_all_members_percentage: u64_or(msg.default_share_to_all_members_percentage, 50),
            },
        };
        let share = config.default_fee_share_config;
        if share.share_to_issuer_percentage + share.share_to_all_members_percentage != 100 {
            return Err(ContractError::ThreadFeeSharePercentageMustSumTo100);
        }
        Ok(
            ThreadState {
                config,
                next_thread_id: 1,
                next_thread_msg_id: OrderedMap::new(),
                user_configs: OrderedMap::new(),
                threads: OrderedMap::new(),
                user_thread_stats: OrderedMap::new(),
                users_created_threads: OrderedMap::new(),
                users_participated_threads: OrderedMap::new(),
                threads_msgs_count: OrderedMap::new(),
                threads_msgs: OrderedMap::new(),
                users_unanswered_questions: OrderedMap::new(),
            },
        )
    }

    /// Why a user config update fails, checked in this order.
    pub open spec fn update_user_config_failure(&self, members: &MemberRegistry, sender: Seq<char>, data: UpdateUserConfigMsg) -> Option<
        ContractError,
    > {
        let configs = self.user_configs.as_map();
        let k = data.user_id as u128;
        if sender != members.user_at_id(data.user_id).addr@ {
            Some(ContractError::OnlyUserCanUpdateItsOwnConfig)
        } else if !configs.contains_key(k) {
            Some(ContractError::UserNotExist)
        } else if has_own_share(merged_user_config(configs[k], data)) && !shares_sum_to_100(
            effective_fee_share(merged_user_config(configs[k], data), self.config),
        ) {
            Some(ContractError::ThreadFeeSharePercentageMustSumTo100)
        } else {
            None
        }
    }

    /// A user changes its own fee settings; given fields replace the stored ones. The
    /// shares that then apply, if the user has its own, must add up to 100 percent.
    /// On failure nothing changes.
    pub fn update_user_config(&mut self, members: &MemberRegistry, sender: &String, data: UpdateUserConfigMsg) -> (r: Result<(), ContractError>)
        requires
            members.id_registered(data.user_id),
            ({
                let configs = old(self).user_configs.as_map();
                let merged = merged_user_config(configs[data.user_id as u128], data);
                configs.contains_key(data.user_id as u128) && has_own_share(merged) ==> shares_addable(
                    effective_fee_share(merged, old(self).config),
                )
            }),
        ensures
            match r {
                Err(e) => old(self).update_user_config_failure(members, sender@, data) == Some(e) && *final(self) == *old(self),
                Ok(()) => {
                    &&& old(self).update_user_config_failure(members, sender@, data) is None
                    &&& final(self).user_configs.as_map() == old(self).user_configs.as_map().insert(
                        data.user_id as u128,
                        merged_user_config(old(self).user_configs.as_map()[data.user_id as u128], data),
                    )
                    &&& old(self).only_user_configs_changed(*final(self))
                },
            },
    {
        let user = members.user_by_id(data.user_id).unwrap();
        if *sender != user.addr {
            return Err(ContractError::OnlyUserCanUpdateItsOwnConfig);
        }
        let current = match self.user_configs.get(data.user_id as u128) {
            Some(c) => *c,
            None => return Err(ContractError::UserNotExist),
        };
        let updated = UserConfig {
            ask_fee_percentage_of_membership: keep_or_set(data.ask_fee_percentage_of_membership, current.ask_fee_percentage_of_membership),
            ask_fee_to_thread_creator_percentage_of_membership: keep_or_set(
                data.ask_fee_to_thread_creator_percentage_of_membership,
                current.ask_fee_to_thread_creator_percentage_of_membership,
            ),
            reply_fee_percentage_of_membership: keep_or_set(
                data.reply_fee_percentage_of_membership,
                current.reply_fee_percentage_of_membership,
            ),
            reply_fee_to_thread_creator_percentage_of_membership: keep_or_set(
                data.reply_fee_to_thread_creator_percentage_of_membership,
                current.reply_fee_to_thread_creator_percentage_of_membership,
            ),
            share_to_issuer_percentage: keep_or_set(data.share_to_issuer_percentage, current.share_to_issuer_percentage),
            share_to_all_members_percentage: keep_or_set(
                data.share_to_all_members_percentage,
                current.share_to_all_members_percentage,
            ),
        };
        assert_user_fee_share_sum_to_100(&updated, &self.config)?;
        self.user_configs.insert(data.user_id as u128, updated);
        Ok(())
    }

    /// Why setting one fee setting of a membership issuer fails, checked in this order.
    pub open spec fn setting_failure(&self, members: &MemberRegistry, sender: Seq<char>, issuer_addr: Seq<char>, which: FeeSetting) -> Option<
        ContractError,
    > {
        if !members.addr_registered(issuer_addr) {
            Some(ContractError::NotFound(StoredItem::User))
        } else if sender != issuer_addr {
            Some(setting_unauthorized(which))
        } else if !self.user_configs.as_map().contains_key(members.user_at_addr(issuer_addr).id as u128) {
            Some(ContractError::UserNotExist)
        } else {
            None
        }
    }

    fn update_fee_setting(&mut self, members: &MemberRegistry, sender: &String, data: UpdateFeeSettingMsg, which: FeeSetting) -> (r: Result<(), ContractError>)
        requires
            members.wf(),
        ensures
            match r {
                Err(e) => old(self).setting_failure(members, sender@, data.membership_issuer_addr@, which) == Some(e) && *final(self)
                    == *old(self),
                Ok(()) => {
                    let k = members.user_at_addr(data.membership_issuer_addr@).id as u128;
                    &&& old(self).setting_failure(members, sender@, data.membership_issuer_addr@, which) is None
                    &&& final(self).user_configs.as_map() == old(self).user_configs.as_map().insert(
                        k,
                        with_setting(old(self).user_configs.as_map()[k], which, data.percentage),
                    )
                    &&& old(self).only_user_configs_changed(*final(self))
                },
            },
    {
        let issuer_id = match members.user_by_addr(&data.membership_issuer_addr) {
            Some(u) => u.id,
            None => return Err(ContractError::NotFound(StoredItem::User)),
        };
        if *sender != data.membership_issuer_addr {
            return match which {
                FeeSetting::AskFee => Err(ContractError::OnlyMembershipIssuerCanUpdateItsAskFeePercentageOfMembership),
                FeeSetting::AskFeeToThreadCreator => Err(
                    ContractError::OnlyMembershipIssuerCanUpdateItsAskFeeToCreatorPercentageOfMembership,
                ),
                FeeSetting::ReplyFee => Err(ContractError::OnlyMembershipIssuerCanUpdateItsReplyFeePercentageOfMembership),
            };
        }
        let current = match self.user_configs.get(issuer_id as u128) {
            Some(c) => *c,
            None => return Err(ContractError::UserNotExist),
        };
        let p = data.percentage;
        let updated = match which {
            FeeSetting::AskFee => UserConfig { ask_fee_percentage_of_membership: Some(p), ..current },
            FeeSetting::AskFeeToThreadCreator => UserConfig { ask_fee_to_thread_creator_percentage_of_membership: Some(p), ..current },
            FeeSetting::ReplyFee => UserConfig { reply_fee_percentage_of_membership: Some(p), ..current },
        };
        self.user_configs.insert(issuer_id as u128, updated);
        Ok(())
    }

    /// A membership issuer sets the percentage of its membership price that asking it
    /// costs.
    pub fn update_ask_fee_percentage_of_membership(&mut self, members: &MemberRegistry, sender: &String, data: UpdateFeeSettingMsg) -> (r:
        Result<(), ContractError>)
        requires
            members.wf(),
        ensures
            match r {
                Err(e) => old(self).setting_failure(members, sender@, data.membership_issuer_addr@, FeeSetting::AskFee) == Some(e)
                    && *final(self) == *old(self),
                Ok(()) => {
                    let k = members.user_at_addr(data.membership_issuer_addr@).id as u128;
                    &&& old(self).setting_failure(members, sender@, data.membership_issuer_addr@, FeeSetting::AskFee) is None
                    &&& old(self).only_user_configs_changed(*final(self))
                    &&& final(self).user_configs.as_map() == old(self).user_configs.as_map().insert(
                        k,
                        UserConfig { ask_fee_percentage_of_membership: Some(data.percentage), ..old(self).user_configs.as_map()[k] },
                    )
                },
            },
    {
        self.update_fee_setting(members, sender, data, FeeSetting::AskFee)
    }

    /// A membership issuer sets the percentage of its membership price paid to it when
    /// others ask in its threads.
    pub fn update_ask_fee_to_thread_creator_percentage_of_membership(
        &mut self,
        members: &MemberRegistry,
        sender: &String,
        data: UpdateFeeSettingMsg,
    ) -> (r: Result<(), ContractError>)
        requires
            members.wf(),
        ensures
            match r {
                Err(e) => old(self).setting_failure(members, sender@, data.membership_issuer_addr@, FeeSetting::AskFeeToThreadCreator)
                    == Some(e) && *final(self) == *old(self),
                Ok(()) => {
                    let k = members.user_at_addr(data.membership_issuer_addr@).id as u128;
                    &&& old(self).setting_failure(members, sender@, data.membership_issuer_addr@, FeeSetting::AskFeeToThreadCreator) is None
                    &&& old(self).only_user_configs_changed(*final(self))
                    &&& final(self).user_configs.as_map() == old(self).user_configs.as_map().insert(
                        k,
                        UserConfig {
                            ask_fee_to_thread_creator_percentage_of_membership: Some(data.percentage),
                            ..old(self).user_configs.as_map()[k]
                        },
                    )
                },
            },
    {
        self.update_fee_setting(members, sender, data, FeeSetting::AskFeeToThreadCreator)
    }

    /// A membership issuer sets the percentage of its membership price that replying
    /// to it costs.
    pub fn update_reply_fee_percentage_of_membership(&mut self, members: &MemberRegistry, sender: &String, data: UpdateFeeSettingMsg) -> (r:
        Result<(), ContractError>)
        requires
            members.wf(),
        ensures
            match r {
                Err(e) => old(self).setting_failure(members, sender@, data.membership_issuer_addr@, FeeSetting::ReplyFee) == Some(e)
                    && *final(self) == *old(self),
                Ok(()) => {
                    let k = members.user_at_addr(data.membership_issuer_addr@).id as u128;
                    &&& old(self).setting_failure(members, sender@, data.membership_issuer_addr@, FeeSetting::ReplyFee) is None
                    &&& old(self).only_user_configs_changed(*final(self))
                    &&& final(self).user_configs.as_map() == old(self).user_configs.as_map().insert(
                        k,
                        UserConfig { reply_fee_percentage_of_membership: Some(data.percentage), ..old(self).user_configs.as_map()[k] },
                    )
                },
            },
    {
        self.update_fee_setting(members, sender, data, FeeSetting::ReplyFee)
    }

    /// A membership issuer sets how its thread fees are shared.
    pub fn update_thread_fee_share_config(&mut self, members: &MemberRegistry, sender: &String, data: UpdateThreadFeeShareConfigMsg) -> (r:
        Result<(), ContractError>)
        requires
            members.wf(),
        ensures
            match r {
                Err(e) => {
                    &&& !members.addr_registered(data.membership_issuer_addr@) ==> e == ContractError::NotFound(StoredItem::User)
                    &&& members.addr_registered(data.membership_issuer_addr@) && sender@ != data.membership_issuer_addr@ ==> e
                        == ContractError::OnlyMembershipIssuerCanUpdateItsThreadFeeConfig
                    &&& members.addr_registered(data.membership_issuer_addr@) && sender@ == data.membership_issuer_addr@ ==> e
                        == ContractError::UserNotExist && !old(self).user_configs.as_map().contains_key(
                        members.user_at_addr(data.membership_issuer_addr@).id as u128,
                    )
                    &&& *final(self) == *old(self)
                },
                Ok(()) => {
                    let k = members.user_at_addr(data.membership_issuer_addr@).id as u128;
                    &&& members.addr_registered(data.membership_issuer_addr@)
                    &&& sender@ == data.membership_issuer_addr@
                    &&& old(self).user_configs.as_map().contains_key(k)
                    &&& old(self).only_user_configs_changed(*final(self))
                    &&& final(self).user_configs.as_map() == old(self).user_configs.as_map().insert(
                        k,
                        UserConfig {
                            share_to_issuer_percentage: Some(data.thread_fee_share_config.share_to_issuer_percentage),
                            share_to_all_members_percentage: Some(data.thread_fee_share_config.share_to_all_members_percentage),
                            ..old(self).user_configs.as_map()[k]
                        },
                    )
                },
            },
    {
        let issuer_id = match members.user_by_addr(&data.membership_issuer_addr) {
            Some(u) => u.id,
            None => return Err(ContractError::NotFound(StoredItem::User)),
        };
        if *sender != data.membership_issuer_addr {
            return Err(ContractError::OnlyMembershipIssuerCanUpdateItsThreadFeeConfig);
        }
        let current = match self.user_configs.get(issuer_id as u128) {
            Some(c) => *c,
            None => return Err(ContractError::UserNotExist),
        };
        let s = data.thread_fee_share_config;
        self.user_configs.insert(
            issuer_id as u128,
            UserConfig {
                share_to_issuer_percentage: Some(s.share_to_issuer_percentage),
                share_to_all_members_percentage: Some(s.share_to_all_members_percentage),
                ..current
            },
        );
        Ok(())
    }
}

} // verus!
