//! Configuration of the thread contract: limits, protocol fees, default fee
//! percentages and how fees are shared, with the admin operations on it.
use vstd::prelude::*;
use crate::error::ContractError;

verus! {

/// Length limits of threads and their messages, in characters.
#[derive(Debug, Clone, Copy, PartialEq, Eq)]
pub struct ThreadConfig {
    pub max_thread_title_length: u64,
    pub max_thread_description_length: u64,
    pub max_thread_label_length: u64,
    pub max_number_of_thread_labels: u64,
    pub max_thread_msg_length: u64,
}

/// What the protocol charges.
#[derive(Debug, Clone, Copy, PartialEq, Eq)]
pub struct ProtocolFeeConfig {
    /// Fixed fee, in the fee denomination, for starting a thread.
    pub start_new_thread_fixed_cost: u128,
    /// Percentage of the ask fee that goes to the protocol.
    pub ask_in_thread_fee_percentage: u64,
    /// Percentage of the reply fee that goes to the protocol.
    pub reply_in_thread_fee_percentage: u64,
}

/// Fees, as percentages of the price of one membership.
#[derive(Debug, Clone, Copy, PartialEq, Eq)]
pub struct FeeConfig {
    pub ask_fee_percentage_of_membership: u64,
    pub ask_fee_to_thread_creator_percentage_of_membership: u64,
    pub reply_fee_percentage_of_membership: u64,
    pub reply_fee_to_thread_creator_percentage_of_membership: u64,
}

/// How a fee is shared between a membership issuer and all its members.
#[derive(Debug, Clone, Copy, PartialEq, Eq)]
pub struct FeeShareConfig {
    pub share_to_issuer_percentage: u64,
    pub share_to_all_members_percentage: u64,
}

/// Configuration of the thread contract.
#[derive(Debug, PartialEq, Eq)]
pub struct Config {
    /// Address of the member contract, which holds all users.
    pub member_contract_addr: String,
    /// Contract admin.
    pub admin_addr: String,
    /// Whether posting is enabled.
    pub enabled: bool,
    /// Collector of protocol fees.
    pub protocol_fee_collector_addr: String,
    pub thread_config: ThreadConfig,
    pub protocol_fee_config: ProtocolFeeConfig,
    pub default_fee_config: FeeConfig,
    pub default_fee_share_config: FeeShareConfig,
}

impl Config {
    /// A copy of the configuration.
    pub fn duplicate(&self) -> (c: Config)
        ensures
            c == *self,
    {
        Config {
            member_contract_addr: self.member_contract_addr.clone(),
            admin_addr: self.admin_addr.clone(),
            enabled: self.enabled,
            protocol_fee_collector_addr: self.protocol_fee_collector_addr.clone(),
            thread_config: self.thread_config,
            protocol_fee_config: self.protocol_fee_config,
            default_fee_config: self.default_fee_config,
            default_fee_share_config: self.default_fee_share_config,
        }
    }
}

/// A user's own thread fee settings; each unset one falls back to its default.
#[derive(Debug, Clone, Copy, PartialEq, Eq)]
pub struct UserConfig {
    pub ask_fee_percentage_of_membership: Option<u64>,
    pub ask_fee_to_thread_creator_percentage_of_membership: Option<u64>,
    pub reply_fee_percentage_of_membership: Option<u64>,
    pub reply_fee_to_thread_creator_percentage_of_membership: Option<u64>,
    pub share_to_issuer_percentage: Option<u64>,
    pub share_to_all_members_percentage: Option<u64>,
}

/// The fee percentages that apply to a user: each its own, else the default.
pub open spec fn effective_fee_config(uc: UserConfig, c: Config) -> FeeConfig {
    FeeConfig {
        ask_fee_percentage_of_membership: or_else(
            uc.ask_fee_percentage_of_membership,
            c.default_fee_config.ask_fee_percentage_of_membership,
        ),
        ask_fee_to_thread_creator_percentage_of_membership: or_else(
            uc.ask_fee_to_thread_creator_percentage_of_membership,
            c.default_fee_config.ask_fee_to_thread_creator_percentage_of_membership,
        ),
        reply_fee_percentage_of_membership: or_else(
            uc.reply_fee_percentage_of_membership,
            c.default_fee_config.reply_fee_percentage_of_membership,
        ),
        reply_fee_to_thread_creator_percentage_of_membership: or_else(
            uc.reply_fee_to_thread_creator_percentage_of_membership,
            c.default_fee_config.reply_fee_to_thread_creator_percentage_of_membership,
        ),
    }
}

/// The fee share that applies to a user: each share its own, else the default.
pub open spec fn effective_fee_share(uc: UserConfig, c: Config) -> FeeShareConfig {
    FeeShareConfig {
        share_to_issuer_percentage: or_else(
            uc.share_to_issuer_percentage,
            c.default_fee_share_config.share_to_issuer_percentage,
        ),
        share_to_all_members_percentage: or_else(
            uc.share_to_all_members_percentage,
            c.default_fee_share_config.share_to_all_members_percentage,
        ),
    }
}

/// Whether the user has set a share of its own.
pub open spec fn has_own_share(uc: UserConfig) -> bool {
    uc.share_to_issuer_percentage is Some || uc.share_to_all_members_percentage is Some
}

/// Changes to the configuration; unset fields keep their value. Addresses are
/// already validated.
#[derive(Debug, PartialEq, Eq)]
pub struct UpdateConfigMsg {
    pub admin_addr: Option<String>,
    pub protocol_fee_collector_addr: Option<String>,
    pub member_contract_addr: Option<String>,
    pub max_thread_title_length: Option<u64>,
    pub max_thread_description_length: Option<u64>,
    pub max_thread_label_length: Option<u64>,
    pub max_number_of_thread_labels: Option<u64>,
    pub max_thread_msg_length: Option<u64>,
    pub protocol_fee_start_new_thread_fixed_cost: Option<u128>,
    pub protocol_fee_ask_in_thread_fee_percentage: Option<u64>,
    pub protocol_fee_reply_in_thread_fee_percentage: Option<u64>,
    pub default_ask_fee_percentage_of_membership: Option<u64>,
    pub default_ask_fee_to_thread_creator_percentage_of_membership: Option<u64>,
    pub default_reply_fee_percentage_of_membership: Option<u64>,
    pub default_reply_fee_to_thread_creator_percentage_of_membership: Option<u64>,
    pub default_share_to_issuer_percentage: Option<u64>,
    pub default_share_to_all_members_percentage: Option<u64>,
}

/// `o` if set, else `d`.
pub open spec fn or_else<A>(o: Option<A>, d: A) -> A {
    match o {
        Some(v) => v,
        None => d,
    }
}

/// A fee share that gives out exactly everything.
pub open spec fn shares_sum_to_100(s: FeeShareConfig) -> bool {
    s.share_to_issuer_percentage + s.share_to_all_members_percentage == 100
}

/// Whether adding the two shares of `s` stays within `u64`.
pub open spec fn shares_addable(s: FeeShareConfig) -> bool {
    s.share_to_issuer_percentage + s.share_to_all_members_percentage <= u64::MAX
}

/// Checks that the default fee share gives out exactly 100 percent.
pub fn assert_config_fee_share_sum_to_100(config: &Config) -> (r: Result<(), ContractError>)
    requires
        shares_addable(config.default_fee_share_config),
    ensures
        r is Ok <==> shares_sum_to_100(config.default_fee_share_config),
        r is Err ==> r == Err::<(), ContractError>(ContractError::ThreadFeeSharePercentageMustSumTo100),
{
    let share = config.default_fee_share_config;
    if share.share_to_issuer_percentage + share.share_to_all_members_percentage != 100 {
        return Err(ContractError::ThreadFeeSharePercentageMustSumTo100);
    }
    Ok(())
}

/// Checks that, where a user has set a share of its own, the shares that apply to it
/// give out exactly 100 percent.
pub fn assert_user_fee_share_sum_to_100(user_config: &UserConfig, config: &Config) -> (r: Result<(), ContractError>)
    requires
        has_own_share(*user_config) ==> shares_addable(effective_fee_share(*user_config, *config)),
    ensures
        r is Ok <==> (has_own_share(*user_config) ==> shares_sum_to_100(effective_fee_share(*user_config, *config))),
        r is Err ==> r == Err::<(), ContractError>(ContractError::ThreadFeeSharePercentageMustSumTo100),
{
    if user_config.share_to_issuer_percentage.is_some() || user_config.share_to_all_members_percentage.is_some() {
        let issuer = match user_config.share_to_issuer_percentage {
            Some(p) => p,
            None => config.default_fee_share_config.share_to_issuer_percentage,
        };
        let members = match user_config.share_to_all_members_percentage {
            Some(p) => p,
            None => config.default_fee_share_config.share_to_all_members_percentage,
        };
        if issuer + members != 100 {
            return Err(ContractError::ThreadFeeSharePercentageMustSumTo100);
        }
    }
    Ok(())
}

/// Turns posting on; only the admin may.
pub fn enable(config: &mut Config, sender: &String) -> (r: Result<(), ContractError>)
    ensures
        r is Ok <==> sender@ == old(config).admin_addr@,
        r is Err ==> r == Err::<(), ContractError>(ContractError::OnlyAdminCanEnable) && *final(config) == *old(config),
        r is Ok ==> *final(config) == (Config { enabled: true, ..*old(config) }),
{
    if *sender != config.admin_addr {
        return Err(ContractError::OnlyAdminCanEnable);
    }
    config.enabled = true;
    Ok(())
}

/// Turns posting off; only the admin may.
pub fn disable(config: &mut Config, sender: &String) -> (r: Result<(), ContractError>)
    ensures
        r is Ok <==> sender@ == old(config).admin_addr@,
        r is Err ==> r == Err::<(), ContractError>(ContractError::OnlyAdminCanDisable) && *final(config) == *old(config),
        r is Ok ==> *final(config) == (Config { enabled: false, ..*old(config) }),
{
    if *sender != config.admin_addr {
        return Err(ContractError::OnlyAdminCanDisable);
    }
    config.enabled = false;
    Ok(())
}

/// The configuration that an update leads to.
pub open spec fn updated_config(c: Config, d: UpdateConfigMsg) -> Config {
    Config {
        admin_addr: or_else(d.admin_addr, c.admin_addr),
        protocol_fee_collector_addr: or_else(d.protocol_fee_collector_addr, c.protocol_fee_collector_addr),
        member_contract_addr: or_else(d.member_contract_addr, c.member_contract_addr),
        enabled: c.enabled,
        thread_config: ThreadConfig {
            max_thread_title_length: or_else(d.max_thread_title_length, c.thread_config.max_thread_title_length),
            max_thread_description_length: or_else(
                d.max_thread_description_length,
                c.thread_config.max_thread_description_length,
            ),
            max_thread_label_length: or_else(d.max_thread_label_length, c.thread_config.max_thread_label_length),
            max_number_of_thread_labels: or_else(
                d.max_number_of_thread_labels,
                c.thread_config.max_number_of_thread_labels,
            ),
            max_thread_msg_length: or_else(d.max_thread_msg_length, c.thread_config.max_thread_msg_length),
        },
        protocol_fee_config: ProtocolFeeConfig {
            start_new_thread_fixed_cost: or_else(
                d.protocol_fee_start_new_thread_fixed_cost,
                c.protocol_fee_config.start_new_thread_fixed_cost,
            ),
            ask_in_thread_fee_percentage: or_else(
                d.protocol_fee_ask_in_thread_fee_percentage,
                c.protocol_fee_config.ask_in_thread_fee_percentage,
            ),
            reply_in_thread_fee_percentage: or_else(
                d.protocol_fee_reply_in_thread_fee_percentage,
                c.protocol_fee_config.reply_in_thread_fee_percentage,
            ),
        },
        default_fee_config: FeeConfig {
            ask_fee_percentage_of_membership: or_else(
                d.default_ask_fee_percentage_of_membership,
                c.default_fee_config.ask_fee_percentage_of_membership,
            ),
            ask_fee_to_thread_creator_percentage_of_membership: or_else(
                d.default_ask_fee_to_thread_creator_percentage_of_membership,
                c.default_fee_config.ask_fee_to_thread_creator_percentage_of_membership,
            ),
            reply_fee_percentage_of_membership: or_else(
                d.default_reply_fee_percentage_of_membership,
                c.default_fee_config.reply_fee_percentage_of_membership,
            ),
            reply_fee_to_thread_creator_percentage_of_membership: or_else(
                d.default_reply_fee_to_thread_creator_percentage_of_membership,
                c.default_fee_config.reply_fee_to_thread_creator_percentage_of_membership,
            ),
        },
        default_fee_share_config: FeeShareConfig {
            share_to_issuer_percentage: or_else(
                d.default_share_to_issuer_percentage,
                c.default_fee_share_config.share_to_issuer_percentage,
            ),
            share_to_all_members_percentage: or_else(
                d.default_share_to_all_members_percentage,
                c.default_fee_share_config.share_to_all_members_percentage,
            ),
        },
    }
}

fn pick_u64(o: Option<u64>, d: u64) -> (r: u64)
    ensures
        r == or_else(o, d),
{
    match o {
        Some(v) => v,
        None => d,
    }
}

fn pick_string(o: Option<String>, d: String) -> (r: String)
    ensures
        r == or_else(o, d),
{
    match o {
        Some(v) => v,
        None => d,
    }
}

/// Applies an update to the configuration; only the admin may, and the updated
/// default fee share must give out exactly 100 percent, else nothing changes.
pub fn update_config(config: &mut Config, sender: &String, data: UpdateConfigMsg) -> (r: Result<(), ContractError>)
    requires
        sender@ == old(config).admin_addr@ ==> shares_addable(updated_config(*old(config), data).default_fee_share_config),
    ensures
        sender@ != old(config).admin_addr@ ==> r == Err::<(), ContractError>(ContractError::OnlyAdminCanUpdateConfig),
        sender@ == old(config).admin_addr@ ==> (r is Ok <==> shares_sum_to_100(
            updated_config(*old(config), data).default_fee_share_config,
        )),
        sender@ == old(config).admin_addr@ && r is Err ==> r == Err::<(), ContractError>(
            ContractError::ThreadFeeSharePercentageMustSumTo100,
        ),
        r is Ok ==> *final(config) == updated_config(*old(config), data),
        r is Err ==> *final(config) == *old(config),
{
    if *sender != config.admin_addr {
        return Err(ContractError::OnlyAdminCanUpdateConfig);
    }
    let old_config = config.duplicate();
    let c = &old_config;
    let new_config = Config {
        admin_addr: pick_string(data.admin_addr, c.admin_addr.clone()),
        protocol_fee_collector_addr: pick_string(data.protocol_fee_collector_addr, c.protocol_fee_collector_addr.clone()),
        member_contract_addr: pick_string(data.member_contract_addr, c.member_contract_addr.clone()),
        enabled: c.enabled,
        thread_config: ThreadConfig {
            max_thread_title_length: pick_u64(data.max_thread_title_length, c.thread_config.max_thread_title_length),
            max_thread_description_length: pick_u64(
                data.max_thread_description_length,
                c.thread_config.max_thread_description_length,
            ),
            max_thread_label_length: pick_u64(data.max_thread_label_length, c.thread_config.max_thread_label_length),
            max_number_of_thread_labels: pick_u64(
                data.max_number_of_thread_labels,
                c.thread_config.max_number_of_thread_labels,
            ),
            max_thread_msg_length: pick_u64(data.max_thread_msg_length, c.thread_config.max_thread_msg_length),
        },
        protocol_fee_config: ProtocolFeeConfig {
            start_new_thread_fixed_cost: match data.protocol_fee_start_new_thread_fixed_cost {
                Some(v) => v,
                None => c.protocol_fee_config.start_new_thread_fixed_cost,
            },
            ask_in_thread_fee_percentage: pick_u64(
                data.protocol_fee_ask_in_thread_fee_percentage,
                c.protocol_fee_config.ask_in_thread_fee_percentage,
            ),
            reply_in_thread_fee_percentage: pick_u64(
                data.protocol_fee_reply_in_thread_fee_percentage,
                c.protocol_fee_config.reply_in_thread_fee_percentage,
            ),
        },
        default_fee_config: FeeConfig {
            ask_fee_percentage_of_membership: pick_u64(
                data.default_ask_fee_percentage_of_membership,
                c.default_fee_config.ask_fee_percentage_of_membership,
            ),
            ask_fee_to_thread_creator_percentage_of_membership: pick_u64(
                data.default_ask_fee_to_thread_creator_percentage_of_membership,
                c.default_fee_config.ask_fee_to_thread_creator_percentage_of_membership,
            ),
            reply_fee_percentage_of_membership: pick_u64(
                data.default_reply_fee_percentage_of_membership,
                c.default_fee_config.reply_fee_percentage_of_membership,
            ),
            reply_fee_to_thread_creator_percentage_of_membership: pick_u64(
                data.default_reply_fee_to_thread_creator_percentage_of_membership,
                c.default_fee_config.reply_fee_to_thread_creator_percentage_of_membership,
            ),
        },
        default_fee_share_config: FeeShareConfig {
            share_to_issuer_percentage: pick_u64(
                data.default_share_to_issuer_percentage,
                c.default_fee_share_config.share_to_issuer_percentage,
            ),
            share_to_all_members_percentage: pick_u64(
                data.default_share_to_all_members_percentage,
                c.default_fee_share_config.share_to_all_members_percentage,
            ),
        },
    };
    assert_config_fee_share_sum_to_100(&new_config)?;
    *config = new_config;
    Ok(())
}

} // verus!
