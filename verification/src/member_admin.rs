//! Creating the member contract, reading its configuration and a membership
//! issuer's own trading fee settings.
use vstd::prelude::*;
use crate::config::{or_else, shares_addable, shares_sum_to_100, FeeShareConfig};
use crate::error::{ContractError, StoredItem};
use crate::fees::supply_of;
use crate::member::{held_total, Config, FeeConfig, MemberRegistry, ProtocolFeeConfig, User, UserConfig};
use crate::ordered_map::OrderedMap;

verus! {

/// Parameters of a new member contract; unset ones take their defaults. Addresses
/// are already validated.
#[derive(Debug, PartialEq, Eq)]
pub struct InstantiateMsg {
    pub admin_addr: Option<String>,
    pub registration_admin_addr: Option<String>,
    pub protocol_fee_collector_addr: Option<String>,
    pub fee_denom: Option<String>,
    pub default_trading_fee_percentage_of_membership: Option<u64>,
    pub protocol_fee_membership_trading_fee_percentage: Option<u64>,
    pub default_membership_trading_fee_membership_issuer_fee_percentage: Option<u64>,
    pub default_membership_trading_fee_membership_holder_fee_percentage: Option<u64>,
}

/// The configuration of the member contract.
#[derive(Debug, PartialEq, Eq)]
pub struct ConfigResponse {
    pub config: Config,
}

/// A membership issuer's new trading fee percentage.
#[derive(Debug, PartialEq, Eq)]
pub struct UpdateTradingFeePercentageOfMembershipMsg {
    pub membership_issuer_addr: String,
    pub trading_fee_percentage_of_membership: u64,
}

/// A membership issuer's new split of its trading fee.
#[derive(Debug, PartialEq, Eq)]
pub struct UpdateMembershipTradingFeeShareConfigMsg {
    pub membership_issuer_addr: String,
    pub membership_trading_fee_share_config: FeeShareConfig,
}

/// The configuration a new member contract starts with: disabled, registration
/// closed, no distribution contract, the sender as admin, registration admin and
/// fee collector unless given, fees in `default_denom` unless given, a trading fee
/// of 5%, 10% of it to the protocol, and 80% of the rest to the issuer and 20% to
/// its members.
pub open spec fn initial_member_config(sender: String, msg: InstantiateMsg, default_denom: String) -> Config {
    Config {
        enabled: false,
        enable_open_registration: false,
        admin_addr: or_else(msg.admin_addr, sender),
        registration_admin_addr: or_else(msg.registration_admin_addr, sender),
        distribution_contract_addr: None,
        protocol_fee_collector_addr: or_else(msg.protocol_fee_collector_addr, sender),
        default_fee_config: FeeConfig {
            fee_denom: or_else(msg.fee_denom, default_denom),
            trading_fee_percentage_of_membership: or_else(msg.default_trading_fee_percentage_of_membership, 5),
        },
        protocol_fee_config: ProtocolFeeConfig {
            membership_trading_fee_percentage: or_else(msg.protocol_fee_membership_trading_fee_percentage, 10),
        },
        default_fee_share_config: FeeShareConfig {
            share_to_issuer_percentage: or_else(msg.default_membership_trading_fee_membership_issuer_fee_percentage, 80),
            share_to_all_members_percentage: or_else(msg.default_membership_trading_fee_membership_holder_fee_percentage, 20),
        },
    }
}

fn string_or(o: Option<String>, d: &String) -> (r: String)
    ensures
        r == or_else(o, *d),
{
    match o {
        Some(v) => v,
        None => d.clone(),
    }
}

fn u64_or(o: Option<u64>, d: u64) -> (r: u64)
    ensures
        r == or_else(o, d),
{
    match o {
        Some(v) => v,
        None => d,
    }
}

impl Config {
    /// A copy of the configuration.
    pub fn duplicate(&self) -> (c: Config)
        ensures
            c == *self,
    {
        Config {
            admin_addr: self.admin_addr.clone(),
            distribution_contract_addr: match &self.distribution_contract_addr {
                Some(a) => Some(a.clone()),
                None => None,
            },
            enabled: self.enabled,
            enable_open_registration: self.enable_open_registration,
            registration_admin_addr: self.registration_admin_addr.clone(),
            protocol_fee_collector_addr: self.protocol_fee_collector_addr.clone(),
            protocol_fee_config: self.protocol_fee_config,
            default_fee_config: FeeConfig {
                fee_denom: self.default_fee_config.fee_denom.clone(),
                trading_fee_percentage_of_membership: self.default_fee_config.trading_fee_percentage_of_membership,
            },
            default_fee_share_config: self.default_fee_share_config,
        }
    }
}

/// Why an issuer's own trading fee setting cannot be changed, checked in this order:
/// no user has the issuer's address, or the sender is not that user.
pub open spec fn trading_setting_failure(members: MemberRegistry, sender: Seq<char>, issuer_addr: Seq<char>, unauthorized: ContractError) -> Option<
    ContractError,
> {
    if !members.addr_registered(issuer_addr) {
        Some(ContractError::NotFound(StoredItem::User))
    } else if sender != issuer_addr {
        Some(unauthorized)
    } else {
        None
    }
}

/// The user `u` with the trading fee settings `config`.
pub open spec fn with_user_config(u: User, config: UserConfig) -> User {
    User { config, ..u }
}

impl MemberRegistry {
    /// Creates the member contract with no users; the first id handed out is 1 and
    /// fees are in `uluna` unless another denomination is given. Fails when the
    /// default shares do not add up to 100 percent.
    pub fn instantiate(sender: &String, msg: InstantiateMsg) -> (r: Result<MemberRegistry, ContractError>)
        requires
            shares_addable(initial_member_config(*sender, msg, *sender).default_fee_share_config),
        ensures
            match r {
                Ok(reg) => {
                    &&& shares_sum_to_100(initial_member_config(*sender, msg, *sender).default_fee_share_config)
                    &&& reg.wf()
                    &&& reg.config == initial_member_config(*sender, msg, reg.config.default_fee_config.fee_denom)
                    &&& msg.fee_denom is None ==> reg.config.default_fee_config.fee_denom@ == "uluna"@
                    &&& reg.next_user_id == 1
                    &&& reg.users@.len() == 0
                    &&& reg.members@.len() == 0
                    &&& reg.memberships@.len() == 0
                    &&& reg.supply_is_held()
                },
                Err(e) => e == ContractError::MembershipTradingFeeSharePercentageMustSumTo100 && !shares_sum_to_100(
                    initial_member_config(*sender, msg, *sender).default_fee_share_config,
                ),
            },
    {
        let config = Config {
            enabled: false,
            enable_open_registration: false,
            admin_addr: string_or(msg.admin_addr, sender),
            registration_admin_addr: string_or(msg.registration_admin_addr, sender),
            distribution_contract_addr: None,
            protocol_fee_collector_addr: string_or(msg.protocol_fee_collector_addr, sender),
            default_fee_config: FeeConfig {
                fee_denom: match msg.fee_denom {
                    Some(d) => d,
                    None => {
                        let d = String::from_str("uluna");
                        d
                    },
                },
                trading_fee_percentage_of_membership: u64_or(msg.default_trading_fee_percentage_of_membership, 5),
            },
            protocol_fee_config: ProtocolFeeConfig {
                membership_trading_fee_percentage: u64_or(msg.protocol_fee_membership_trading_fee_percentage, 10),
            },
            default_fee_share_config: FeeShareConfig {
                share_to_issuer_percentage: u64_or(msg.default_membership_trading_fee_membership_issuer_fee_percentage, 80),
                share_to_all_members_percentage: u64_or(msg.default_membership_trading_fee_membership_holder_fee_percentage, 20),
            },
        };
        let share = config.default_fee_share_config;
        if share.share_to_issuer_percentage + share.share_to_all_members_percentage != 100 {
            return Err(ContractError::MembershipTradingFeeSharePercentageMustSumTo100);
        }
        let reg = MemberRegistry {
            config,
            next_user_id: 1,
            users: OrderedMap::new(),
            members: OrderedMap::new(),
            memberships: OrderedMap::new(),
        };
        Ok(reg)
    }

    /// The configuration of the member contract.
    pub fn query_config(&self) -> (resp: ConfigResponse)
        ensures
            resp.config == self.config,
    {
        ConfigResponse { config: self.config.duplicate() }
    }

    proof fn lemma_wf_after_user_update(old_reg: &MemberRegistry, new_reg: &MemberRegistry, id: u64, updated: User)
        requires
            old_reg.wf(),
            old_reg.id_registered(id),
            updated.id == id,
            updated.addr@ == old_reg.user_at_id(id).addr@,
            new_reg.users.as_map() == old_reg.users.as_map().insert(id as u128, updated),
            new_reg.members.as_map() == old_reg.members.as_map(),
            new_reg.memberships.as_map() == old_reg.memberships.as_map(),
            new_reg.next_user_id == old_reg.next_user_id,
        ensures
            new_reg.wf(),
    {
        assert forall|k: u128| #[trigger] new_reg.users.as_map().contains_key(k) implies new_reg.users.as_map()[k].id as u128
            == k && k < new_reg.next_user_id by {
            assert(old_reg.users.as_map().contains_key(k));
        }
        assert forall|k1: u128, k2: u128|
            new_reg.users.as_map().contains_key(k1) && new_reg.users.as_map().contains_key(k2)
                && new_reg.users.as_map()[k1].addr@ == new_reg.users.as_map()[k2].addr@ implies k1 == k2 by {
            assert(old_reg.users.as_map()[k1].addr@ == new_reg.users.as_map()[k1].addr@);
            assert(old_reg.users.as_map()[k2].addr@ == new_reg.users.as_map()[k2].addr@);
        }
    }

    fn update_own_trading_config(
        &mut self,
        sender: &String,
        issuer_addr: &String,
        unauthorized: ContractError,
        trading_fee: Option<u64>,
        share: Option<FeeShareConfig>,
    ) -> (r: Result<(), ContractError>)
        requires
            old(self).wf(),
        ensures
            final(self).wf(),
            old(self).supply_is_held() ==> final(self).supply_is_held(),
            match r {
                Err(e) => trading_setting_failure(*old(self), sender@, issuer_addr@, unauthorized) == Some(e) && *final(self) == *old(self),
                Ok(()) => {
                    let u = old(self).user_at_addr(issuer_addr@);
                    let c = UserConfig {
                        trading_fee_percentage_of_membership: if trading_fee is Some {
                            trading_fee
                        } else {
                            u.config.trading_fee_percentage_of_membership
                        },
                        share_to_issuer_percentage: match share {
                            Some(s) => Some(s.share_to_issuer_percentage),
                            None => u.config.share_to_issuer_percentage,
                        },
                        share_to_all_members_percentage: match share {
                            Some(s) => Some(s.share_to_all_members_percentage),
                            None => u.config.share_to_all_members_percentage,
                        },
                    };
                    &&& trading_setting_failure(*old(self), sender@, issuer_addr@, unauthorized) is None
                    &&& final(self).users.as_map() == old(self).users.as_map().insert(u.id as u128, with_user_config(u, c))
                    &&& final(self).members == old(self).members
                    &&& final(self).memberships == old(self).memberships
                    &&& final(self).config == old(self).config
                    &&& final(self).next_user_id == old(self).next_user_id
                },
            },
    {
        let current = match self.user_by_addr(issuer_addr) {
            Some(u) => u.duplicate(),
            None => return Err(ContractError::NotFound(StoredItem::User)),
        };
        if *sender != *issuer_addr {
            return Err(unauthorized);
        }
        proof {
            let k = choose|k: u128| #[trigger] self.users.as_map().contains_key(k) && self.users.as_map()[k].addr@ == issuer_addr@;
            assert(self.users.as_map()[k].id as u128 == k);
        }
        let config = UserConfig {
            trading_fee_percentage_of_membership: match trading_fee {
                Some(p) => Some(p),
                None => current.config.trading_fee_percentage_of_membership,
            },
            share_to_issuer_percentage: match share {
                Some(s) => Some(s.share_to_issuer_percentage),
                None => current.config.share_to_issuer_percentage,
            },
            share_to_all_members_percentage: match share {
                Some(s) => Some(s.share_to_all_members_percentage),
                None => current.config.share_to_all_members_percentage,
            },
        };
        let id = current.id;
        let mut updated = current;
        updated.config = config;
        let ghost old_reg = *self;
        let ghost updated_user = updated;
        self.users.insert(id as u128, updated);
        proof {
            Self::lemma_wf_after_user_update(&old_reg, self, id, updated_user);
            if old_reg.supply_is_held() {
                assert forall|i: u64| #[trigger]
                    self.id_registered(i) && self.user_at_id(i).membership_issued_by_me is Some implies supply_of(
                    self.user_at_id(i),
                ) == held_total(self.members@, i) by {
                    assert(old_reg.id_registered(i));
                }
            }
        }
        Ok(())
    }

    /// A membership issuer sets its own trading fee percentage; only the issuer may.
    pub fn update_trading_fee_percentage_of_membership(&mut self, sender: &String, data: UpdateTradingFeePercentageOfMembershipMsg) -> (r:
        Result<(), ContractError>)
        requires
            old(self).wf(),
        ensures
            final(self).wf(),
            old(self).supply_is_held() ==> final(self).supply_is_held(),
            match r {
                Err(e) => trading_setting_failure(
                    *old(self),
                    sender@,
                    data.membership_issuer_addr@,
                    ContractError::OnlyMembershipIssuerCanUpdateItsTradingFeePercentageOfMembership,
                ) == Some(e) && *final(self) == *old(self),
                Ok(()) => {
                    let u = old(self).user_at_addr(data.membership_issuer_addr@);
                    &&& trading_setting_failure(
                        *old(self),
                        sender@,
                        data.membership_issuer_addr@,
                        ContractError::OnlyMembershipIssuerCanUpdateItsTradingFeePercentageOfMembership,
                    ) is None
                    &&& final(self).users.as_map() == old(self).users.as_map().insert(
                        u.id as u128,
                        with_user_config(
                            u,
                            UserConfig { trading_fee_percentage_of_membership: Some(data.trading_fee_percentage_of_membership), ..u.config },
                        ),
                    )
                    &&& final(self).members == old(self).members
                    &&& final(self).memberships == old(self).memberships
                    &&& final(self).config == old(self).config
                    &&& final(self).next_user_id == old(self).next_user_id
                },
            },
    {
        self.update_own_trading_config(
            sender,
            &data.membership_issuer_addr,
            ContractError::OnlyMembershipIssuerCanUpdateItsTradingFeePercentageOfMembership,
            Some(data.trading_fee_percentage_of_membership),
            None,
        )
    }

    /// A membership issuer sets how its trading fee is shared; only the issuer may.
    pub fn update_membership_trading_fee_share_config(&mut self, sender: &String, data: UpdateMembershipTradingFeeShareConfigMsg) -> (r:
        Result<(), ContractError>)
        requires
            old(self).wf(),
        ensures
            final(self).wf(),
            old(self).supply_is_held() ==> final(self).supply_is_held(),
            match r {
                Err(e) => trading_setting_failure(
                    *old(self),
                    sender@,
                    data.membership_issuer_addr@,
                    ContractError::OnlyMembershipIssuerCanUpdateItsTradingFeeConfig,
                ) == Some(e) && *final(self) == *old(self),
                Ok(()) => {
                    let u = old(self).user_at_addr(data.membership_issuer_addr@);
                    let s = data.membership_trading_fee_share_config;
                    &&& trading_setting_failure(
                        *old(self),
                        sender@,
                        data.membership_issuer_addr@,
                        ContractError::OnlyMembershipIssuerCanUpdateItsTradingFeeConfig,
                    ) is None
                    &&& final(self).users.as_map() == old(self).users.as_map().insert(
                        u.id as u128,
                        with_user_config(
                            u,
                            UserConfig {
                                share_to_issuer_percentage: Some(s.share_to_issuer_percentage),
                                share_to_all_members_percentage: Some(s.share_to_all_members_percentage),
                                ..u.config
                            },
                        ),
                    )
                    &&& final(self).members == old(self).members
                    &&& final(self).memberships == old(self).memberships
                    &&& final(self).config == old(self).config
                    &&& final(self).next_user_id == old(self).next_user_id
                },
            },
    {
        self.update_own_trading_config(
            sender,
            &data.membership_issuer_addr,
            ContractError::OnlyMembershipIssuerCanUpdateItsTradingFeeConfig,
            None,
            Some(data.membership_trading_fee_share_config),
        )
    }
}

/// The member contract's configuration, as the thread contract reads it.
pub fn query_member_contract_config(members: &MemberRegistry) -> (c: Config)
    ensures
        c == members.config,
{
    members.config.duplicate()
}

/// The configuration of the membership contract (the member contract under its
/// other name), as a contract built on it reads it.
pub fn query_membership_contract_config(members: &MemberRegistry) -> (c: Config)
    ensures
        c == members.config,
{
    query_member_contract_config(members)
}

} // verus!
