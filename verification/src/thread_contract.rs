//! The thread contract's message dispatch: each message is checked for the payment
//! it must (or must not) carry, then handed to its handler.
use vstd::prelude::*;
use crate::action::Action;
use crate::board::{
    law_answer_keeps_ids, law_ask_keeps_ids, law_reply_keeps_ids, law_start_new_thread_keeps_ids, stats_bumpable, AnswerInThreadMsg, AskInThreadMsg, ReplyInThreadMsg, StartNewThreadMsg, Thread, ThreadMsg, ThreadState,
};
use crate::fees::{
    ask_cost_computable, ask_fees, query_cost_to_ask_in_thread, query_cost_to_reply_in_thread, query_cost_to_start_new_thread,
    reply_cost_computable, reply_fees, supply_of, thread_fees_total, CostToAskInThreadResponse, CostToReplyInThreadResponse,
    CostToStartNewThreadResponse, QueryCostToAskInThreadMsg, QueryCostToReplyInThreadMsg,
};
use crate::ordered_map::{first_n, pair_low, window_entries};
use crate::thread_query::{
    page_ids, page_size, page_window, IDsOfAllThreadMsgsInThreadResponse, IDsOfAllThreadsUserCreatedResponse,
    IDsOfAllThreadsUserParticipatedResponse, QueryIDsOfAllThreadMsgsInThreadMsg, QueryIDsOfAllThreadsUserCreatedMsg,
    QueryIDsOfAllThreadsUserParticipatedMsg,
};
use crate::config::{
    disable, effective_fee_share, enable, has_own_share, shares_addable, update_config, updated_config, Config, UpdateConfigMsg,
    UserConfig,
};
use crate::error::{ContractError, PaymentFailure};
use crate::member::MemberRegistry;
use crate::msg::{DisableMsg, EnableMsg, QueryConfigMsg};
use crate::ordered_map::pair_key;
use crate::payment::{must_pay, must_pay_matches, must_pay_outcome, nonpayable, Coin};
use crate::thread_user::{
    merged_user_config, setting_unauthorized, with_setting, FeeSetting, UpdateFeeSettingMsg, UpdateThreadFeeShareConfigMsg,
    UpdateUserConfigMsg,
};

verus! {

/// The messages the thread contract executes.
#[derive(Debug, PartialEq, Eq)]
pub enum ExecuteMsg {
    Enable(EnableMsg),
    Disable(DisableMsg),
    UpdateConfig(UpdateConfigMsg),
    UpdateUserConfig(UpdateUserConfigMsg),
    UpdateAskFeePercentageOfMembership(UpdateFeeSettingMsg),
    UpdateAskFeeToThreadCreatorPercentageOfMembership(UpdateFeeSettingMsg),
    UpdateReplyFeePercentageOfMembership(UpdateFeeSettingMsg),
    UpdateThreadFeeShareConfig(UpdateThreadFeeShareConfigMsg),
    StartNewThread(StartNewThreadMsg),
    AskInThread(AskInThreadMsg),
    AnswerInThread(AnswerInThreadMsg),
    ReplyInThread(ReplyInThreadMsg),
}

/// The outcome of a message that accepts no coin but was sent some.
pub open spec fn refused_payment(this: ThreadState, next: ThreadState, r: Result<Vec<Action>, ContractError>) -> bool {
    r == Err::<Vec<Action>, ContractError>(ContractError::Payment(PaymentFailure::NonPayable)) && next == this
}

/// The outcome of a message that must be paid for but whose payment was refused.
pub open spec fn failed_payment(
    this: ThreadState,
    next: ThreadState,
    funds: Seq<Coin>,
    denom: Seq<char>,
    r: Result<Vec<Action>, ContractError>,
) -> bool {
    &&& r matches Err(ContractError::Payment(f)) && must_pay_matches(Err(f), funds, denom)
    &&& next == this
}

/// The outcome of an admin operation on the configuration: refused with `refusal`
/// unless the sender is the admin, else the configuration becomes `updated`; no
/// message is emitted and nothing else changes.
pub open spec fn admin_outcome(
    this: ThreadState,
    next: ThreadState,
    sender: Seq<char>,
    refusal: ContractError,
    updated: Config,
    r: Result<Vec<Action>, ContractError>,
) -> bool {
    match r {
        Err(e) => sender != this.config.admin_addr@ && e == refusal && next == this,
        Ok(msgs) => sender == this.config.admin_addr@ && msgs@.len() == 0 && next == (ThreadState { config: updated, ..this }),
    }
}

impl ThreadState {
    /// The outcome of changing one fee setting of a membership issuer.
    pub open spec fn setting_outcome(
        &self,
        next: ThreadState,
        members: &MemberRegistry,
        sender: Seq<char>,
        data: UpdateFeeSettingMsg,
        which: FeeSetting,
        r: Result<Vec<Action>, ContractError>,
    ) -> bool {
        let k = members.user_at_addr(data.membership_issuer_addr@).id as u128;
        match r {
            Err(e) => self.setting_failure(members, sender, data.membership_issuer_addr@, which) == Some(e) && next == *self,
            Ok(msgs) => {
                &&& self.setting_failure(members, sender, data.membership_issuer_addr@, which) is None
                &&& msgs@.len() == 0
                &&& next.user_configs.as_map() == self.user_configs.as_map().insert(
                    k,
                    with_setting(self.user_configs.as_map()[k], which, data.percentage),
                )
                &&& self.only_user_configs_changed(next)
            },
        }
    }

    /// The outcome of a user changing its own fee settings.
    pub open spec fn user_config_outcome(
        &self,
        next: ThreadState,
        members: &MemberRegistry,
        sender: Seq<char>,
        data: UpdateUserConfigMsg,
        r: Result<Vec<Action>, ContractError>,
    ) -> bool {
        match r {
            Err(e) => self.update_user_config_failure(members, sender, data) == Some(e) && next == *self,
            Ok(msgs) => {
                &&& self.update_user_config_failure(members, sender, data) is None
                &&& msgs@.len() == 0
                &&& next.user_configs.as_map() == self.user_configs.as_map().insert(
                    data.user_id as u128,
                    merged_user_config(self.user_configs.as_map()[data.user_id as u128], data),
                )
                &&& self.only_user_configs_changed(next)
            },
        }
    }

    /// The outcome of a membership issuer changing how its thread fees are shared.
    pub open spec fn share_outcome(
        &self,
        next: ThreadState,
        members: &MemberRegistry,
        sender: Seq<char>,
        data: UpdateThreadFeeShareConfigMsg,
        r: Result<Vec<Action>, ContractError>,
    ) -> bool {
        let issuer = data.membership_issuer_addr@;
        let k = members.user_at_addr(issuer).id as u128;
        match r {
            Err(e) => {
                &&& !members.addr_registered(issuer) ==> e == ContractError::NotFound(crate::error::StoredItem::User)
                &&& members.addr_registered(issuer) && sender != issuer ==> e
                    == ContractError::OnlyMembershipIssuerCanUpdateItsThreadFeeConfig
                &&& members.addr_registered(issuer) && sender == issuer ==> e == ContractError::UserNotExist
                    && !self.user_configs.as_map().contains_key(k)
                &&& next == *self
            },
            Ok(msgs) => {
                &&& members.addr_registered(issuer)
                &&& sender == issuer
                &&& self.user_configs.as_map().contains_key(k)
                &&& msgs@.len() == 0
                &&& self.only_user_configs_changed(next)
                &&& next.user_configs.as_map() == self.user_configs.as_map().insert(
                    k,
                    UserConfig {
                        share_to_issuer_percentage: Some(data.thread_fee_share_config.share_to_issuer_percentage),
                        share_to_all_members_percentage: Some(data.thread_fee_share_config.share_to_all_members_percentage),
                        ..self.user_configs.as_map()[k]
                    },
                )
            },
        }
    }

    /// What a message, sent with `funds` by `sender`, leads to. Messages that post
    /// (start, ask, reply) must be paid for in the member contract's fee
    /// denomination; all others must come with no coin.
    pub open spec fn execute_outcome(
        &self,
        next: ThreadState,
        members: &MemberRegistry,
        sender: Seq<char>,
        funds: Seq<Coin>,
        msg: ExecuteMsg,
        r: Result<Vec<Action>, ContractError>,
    ) -> bool {
        let denom = members.config.default_fee_config.fee_denom@;
        let unpaid = funds.len() == 0;
        match msg {
            ExecuteMsg::Enable(_) => if unpaid {
                admin_outcome(*self, next, sender, ContractError::OnlyAdminCanEnable, Config { enabled: true, ..self.config }, r)
            } else {
                refused_payment(*self, next, r)
            },
            ExecuteMsg::Disable(_) => if unpaid {
                admin_outcome(*self, next, sender, ContractError::OnlyAdminCanDisable, Config { enabled: false, ..self.config }, r)
            } else {
                refused_payment(*self, next, r)
            },
            ExecuteMsg::UpdateConfig(d) => if !unpaid {
                refused_payment(*self, next, r)
            } else if sender == self.config.admin_addr@ && !crate::config::shares_sum_to_100(
                updated_config(self.config, d).default_fee_share_config,
            ) {
                r == Err::<Vec<Action>, ContractError>(ContractError::ThreadFeeSharePercentageMustSumTo100) && next == *self
            } else {
                admin_outcome(*self, next, sender, ContractError::OnlyAdminCanUpdateConfig, updated_config(self.config, d), r)
            },
            ExecuteMsg::UpdateUserConfig(d) => if unpaid {
                self.user_config_outcome(next, members, sender, d, r)
            } else {
                refused_payment(*self, next, r)
            },
            ExecuteMsg::UpdateAskFeePercentageOfMembership(d) => if unpaid {
                self.setting_outcome(next, members, sender, d, FeeSetting::AskFee, r)
            } else {
                refused_payment(*self, next, r)
            },
            ExecuteMsg::UpdateAskFeeToThreadCreatorPercentageOfMembership(d) => if unpaid {
                self.setting_outcome(next, members, sender, d, FeeSetting::AskFeeToThreadCreator, r)
            } else {
                refused_payment(*self, next, r)
            },
            ExecuteMsg::UpdateReplyFeePercentageOfMembership(d) => if unpaid {
                self.setting_outcome(next, members, sender, d, FeeSetting::ReplyFee, r)
            } else {
                refused_payment(*self, next, r)
            },
            ExecuteMsg::UpdateThreadFeeShareConfig(d) => if unpaid {
                self.share_outcome(next, members, sender, d, r)
            } else {
                refused_payment(*self, next, r)
            },
            ExecuteMsg::StartNewThread(d) => match must_pay_outcome(funds, denom) {
                Ok(paid) => self.start_new_thread_outcome(next, members, sender, d, paid, r),
                Err(_) => failed_payment(*self, next, funds, denom, r),
            },
            ExecuteMsg::AskInThread(d) => match must_pay_outcome(funds, denom) {
                Ok(paid) => self.ask_outcome(next, members, sender, d, paid, r),
                Err(_) => failed_payment(*self, next, funds, denom, r),
            },
            ExecuteMsg::AnswerInThread(d) => if unpaid {
                self.answer_outcome(next, members, sender, d, r)
            } else {
                refused_payment(*self, next, r)
            },
            ExecuteMsg::ReplyInThread(d) => match must_pay_outcome(funds, denom) {
                Ok(paid) => self.reply_outcome(next, members, sender, d, paid, r),
                Err(_) => failed_payment(*self, next, funds, denom, r),
            },
        }
    }

    /// Whether a message can be executed without a panic: what each handler
    /// requires, once the payment check has passed.
    pub open spec fn execute_computable(&self, members: &MemberRegistry, sender: Seq<char>, funds: Seq<Coin>, msg: ExecuteMsg) -> bool {
        let denom = members.config.default_fee_config.fee_denom@;
        let unpaid = funds.len() == 0;
        match msg {
            ExecuteMsg::UpdateConfig(d) => unpaid && sender == self.config.admin_addr@ ==> shares_addable(
                updated_config(self.config, d).default_fee_share_config,
            ),
            ExecuteMsg::UpdateUserConfig(d) => unpaid ==> {
                let configs = self.user_configs.as_map();
                let merged = merged_user_config(configs[d.user_id as u128], d);
                &&& members.id_registered(d.user_id)
                &&& configs.contains_key(d.user_id as u128) && has_own_share(merged) ==> shares_addable(
                    effective_fee_share(merged, self.config),
                )
            },
            ExecuteMsg::StartNewThread(d) => must_pay_outcome(funds, denom) matches Ok(paid) ==> {
                &&& members.addr_registered(sender)
                &&& d.title@.len() <= u64::MAX
                &&& d.description@.len() <= u64::MAX
                &&& self.start_new_thread_failure(members.user_at_addr(sender), d, paid) is None ==> {
                    &&& self.next_thread_id < u64::MAX
                    &&& stats_bumpable(self.user_thread_stats.as_map(), members.user_at_addr(sender).id)
                }
            },
            ExecuteMsg::AskInThread(d) => must_pay_outcome(funds, denom) matches Ok(paid) ==> self.ask_computable(
                members,
                sender,
                d,
                paid,
            ),
            ExecuteMsg::AnswerInThread(d) => unpaid ==> self.answer_computable(members, sender, d),
            ExecuteMsg::ReplyInThread(d) => must_pay_outcome(funds, denom) matches Ok(paid) ==> self.reply_computable(
                members,
                sender,
                d,
                paid,
            ),
            _ => true,
        }
    }

    /// Executes a message sent by `sender` with the coins `funds`: checks the
    /// payment, then runs the message's handler. On failure nothing changes.
    pub fn execute(&mut self, members: &MemberRegistry, sender: &String, funds: &Vec<Coin>, msg: ExecuteMsg) -> (r: Result<
        Vec<Action>,
        ContractError,
    >)
        requires
            members.wf(),
            old(self).execute_computable(members, sender@, funds@, msg),
        ensures
            old(self).execute_outcome(*final(self), members, sender@, funds@, msg, r),
            old(self).stats_count_threads() ==> final(self).stats_count_threads(),
    {
        let denom = &members.config.default_fee_config.fee_denom;
        match msg {
            ExecuteMsg::Enable(_) => {
                if let Err(f) = nonpayable(sender, funds) {
                    return Err(ContractError::Payment(f));
                }
                match enable(&mut self.config, sender) {
                    Ok(()) => Ok(Vec::new()),
                    Err(e) => Err(e),
                }
            },
            ExecuteMsg::Disable(_) => {
                if let Err(f) = nonpayable(sender, funds) {
                    return Err(ContractError::Payment(f));
                }
                match disable(&mut self.config, sender) {
                    Ok(()) => Ok(Vec::new()),
                    Err(e) => Err(e),
                }
            },
            ExecuteMsg::UpdateConfig(d) => {
                if let Err(f) = nonpayable(sender, funds) {
                    return Err(ContractError::Payment(f));
                }
                match update_config(&mut self.config, sender, d) {
                    Ok(()) => Ok(Vec::new()),
                    Err(e) => Err(e),
                }
            },
            ExecuteMsg::UpdateUserConfig(d) => {
                if let Err(f) = nonpayable(sender, funds) {
                    return Err(ContractError::Payment(f));
                }
                match self.update_user_config(members, sender, d) {
                    Ok(()) => Ok(Vec::new()),
                    Err(e) => Err(e),
                }
            },
            ExecuteMsg::UpdateAskFeePercentageOfMembership(d) => {
                if let Err(f) = nonpayable(sender, funds) {
                    return Err(ContractError::Payment(f));
                }
                match self.update_ask_fee_percentage_of_membership(members, sender, d) {
                    Ok(()) => Ok(Vec::new()),
                    Err(e) => Err(e),
                }
            },
            ExecuteMsg::UpdateAskFeeToThreadCreatorPercentageOfMembership(d) => {
                if let Err(f) = nonpayable(sender, funds) {
                    return Err(ContractError::Payment(f));
                }
                match self.update_ask_fee_to_thread_creator_percentage_of_membership(members, sender, d) {
                    Ok(()) => Ok(Vec::new()),
                    Err(e) => Err(e),
                }
            },
            ExecuteMsg::UpdateReplyFeePercentageOfMembership(d) => {
                if let Err(f) = nonpayable(sender, funds) {
                    return Err(ContractError::Payment(f));
                }
                match self.update_reply_fee_percentage_of_membership(members, sender, d) {
                    Ok(()) => Ok(Vec::new()),
                    Err(e) => Err(e),
                }
            },
            ExecuteMsg::UpdateThreadFeeShareConfig(d) => {
                if let Err(f) = nonpayable(sender, funds) {
                    return Err(ContractError::Payment(f));
                }
                match self.update_thread_fee_share_config(members, sender, d) {
                    Ok(()) => Ok(Vec::new()),
                    Err(e) => Err(e),
                }
            },
            ExecuteMsg::StartNewThread(d) => {
                let paid = match must_pay(sender, funds, denom) {
                    Ok(p) => p,
                    Err(f) => return Err(ContractError::Payment(f)),
                };
                self.start_new_thread(members, sender, d, paid)
            },
            ExecuteMsg::AskInThread(d) => {
                let paid = match must_pay(sender, funds, denom) {
                    Ok(p) => p,
                    Err(f) => return Err(ContractError::Payment(f)),
                };
                self.ask_in_thread(members, sender, d, paid)
            },
            ExecuteMsg::AnswerInThread(d) => {
                if let Err(f) = nonpayable(sender, funds) {
                    return Err(ContractError::Payment(f));
                }
                self.answer_in_thread(members, sender, d)
            },
            ExecuteMsg::ReplyInThread(d) => {
                let paid = match must_pay(sender, funds, denom) {
                    Ok(p) => p,
                    Err(f) => return Err(ContractError::Payment(f)),
                };
                self.reply_in_thread(members, sender, d, paid)
            },
        }
    }
}


/// The settings of one user.
#[derive(Debug, Clone, Copy, PartialEq, Eq)]
pub struct QueryUserConfigMsg {
    pub user_id: u64,
}

/// The cost of starting a thread with a description of the given length.
#[derive(Debug, Clone, Copy, PartialEq, Eq)]
pub struct QueryCostToStartNewThreadMsg {
    pub description_len: u64,
}

/// Threads by id.
#[derive(Debug, PartialEq, Eq)]
pub struct QueryThreadsByIDsMsg {
    pub thread_ids: Vec<u64>,
}

/// Messages by `(thread id, message id)`.
#[derive(Debug, PartialEq, Eq)]
pub struct QueryThreadMsgsByIDsMsg {
    pub thread_and_thread_msg_ids: Vec<(u64, u64)>,
}

/// The configuration of the thread contract.
#[derive(Debug, PartialEq, Eq)]
pub struct ConfigResponse {
    pub config: Config,
}

/// The settings of one user.
#[derive(Debug, Clone, Copy, PartialEq, Eq)]
pub struct UserConfigResponse {
    pub user_config: UserConfig,
}

/// Threads.
#[derive(Debug, PartialEq, Eq)]
pub struct ThreadsResponse {
    pub threads: Vec<Thread>,
}

/// Messages of threads.
#[derive(Debug, PartialEq, Eq)]
pub struct ThreadMsgsResponse {
    pub thread_msgs: Vec<ThreadMsg>,
}

/// The queries the thread contract answers.
#[derive(Debug, PartialEq, Eq)]
pub enum QueryMsg {
    QueryConfig(QueryConfigMsg),
    QueryUserConfig(QueryUserConfigMsg),
    QueryCostToStartNewThread(QueryCostToStartNewThreadMsg),
    QueryCostToAskInThread(QueryCostToAskInThreadMsg),
    QueryCostToReplyInThread(QueryCostToReplyInThreadMsg),
    QueryIDsOfAllThreadsUserParticipated(QueryIDsOfAllThreadsUserParticipatedMsg),
    QueryIDsOfAllThreadsUserCreated(QueryIDsOfAllThreadsUserCreatedMsg),
    QueryIDsOfAllThreadMsgsInThread(QueryIDsOfAllThreadMsgsInThreadMsg),
    QueryThreadsByIDs(QueryThreadsByIDsMsg),
    QueryThreadMsgsByIDs(QueryThreadMsgsByIDsMsg),
}

/// The answer to a query.
#[derive(Debug, PartialEq, Eq)]
pub enum QueryResponse {
    Config(ConfigResponse),
    UserConfig(UserConfigResponse),
    CostToStartNewThread(CostToStartNewThreadResponse),
    CostToAskInThread(CostToAskInThreadResponse),
    CostToReplyInThread(CostToReplyInThreadResponse),
    IDsOfAllThreadsUserParticipated(IDsOfAllThreadsUserParticipatedResponse),
    IDsOfAllThreadsUserCreated(IDsOfAllThreadsUserCreatedResponse),
    IDsOfAllThreadMsgsInThread(IDsOfAllThreadMsgsInThreadResponse),
    Threads(ThreadsResponse),
    ThreadMsgs(ThreadMsgsResponse),
}

impl ThreadState {
    /// What a query answers.
    pub open spec fn query_outcome(&self, members: &MemberRegistry, msg: QueryMsg, r: Result<QueryResponse, ContractError>) -> bool {
        let stats = self.user_thread_stats.as_map();
        match msg {
            QueryMsg::QueryConfig(_) => r matches Ok(QueryResponse::Config(c)) && c.config == self.config,
            QueryMsg::QueryUserConfig(d) => match r {
                Ok(QueryResponse::UserConfig(c)) => self.user_configs.as_map().contains_key(d.user_id as u128)
                    && c.user_config == self.user_configs.as_map()[d.user_id as u128],
                Err(e) => e == ContractError::NotFound(crate::error::StoredItem::UserConfig) && !self.user_configs.as_map().contains_key(
                    d.user_id as u128,
                ),
                _ => false,
            },
            QueryMsg::QueryCostToStartNewThread(_) => r matches Ok(QueryResponse::CostToStartNewThread(c))
                && c.protocol_fee == self.config.protocol_fee_config.start_new_thread_fixed_cost,
            QueryMsg::QueryCostToAskInThread(d) => r matches Ok(QueryResponse::CostToAskInThread(c)) && {
                let f = ask_fees(
                    d,
                    self.config,
                    self.user_configs.as_map()[d.thread_creator_user_id as u128],
                    supply_of(members.user_at_id(d.ask_to_user_id)),
                );
                &&& c.protocol_fee == f.0
                &&& c.ask_to_membership_issuer_fee == f.1
                &&& c.ask_to_membership_all_members_fee == f.2
                &&& c.thread_creator_membership_issuer_fee == f.3
                &&& c.thread_creator_membership_all_members_fee == f.4
                &&& c.total_needed_from_user == thread_fees_total(f)
            },
            QueryMsg::QueryCostToReplyInThread(d) => r matches Ok(QueryResponse::CostToReplyInThread(c)) && {
                let f = reply_fees(
                    d,
                    self.config,
                    self.user_configs.as_map()[d.thread_creator_user_id as u128],
                    supply_of(members.user_at_id(d.reply_to_user_id)),
                );
                &&& c.protocol_fee == f.0
                &&& c.reply_to_membership_issuer_fee == f.1
                &&& c.reply_to_membership_all_members_fee == f.2
                &&& c.thread_creator_membership_issuer_fee == f.3
                &&& c.thread_creator_membership_all_members_fee == f.4
                &&& c.total_needed_from_user == thread_fees_total(f)
            },
            QueryMsg::QueryIDsOfAllThreadsUserParticipated(d) => match r {
                Ok(QueryResponse::IDsOfAllThreadsUserParticipated(p)) => {
                    &&& stats.contains_key(d.user_id as u128)
                    &&& p.thread_ids@ == page_ids(
                        self.users_participated_threads@,
                        page_window(d.user_id, d.start_after_thread_id, d.include_start_after),
                        page_size(d.limit),
                    )
                    &&& p.count == p.thread_ids@.len()
                    &&& p.total_count == stats[d.user_id as u128].1 as usize
                },
                Err(e) => e == ContractError::NotFound(crate::error::StoredItem::UserThreadStats) && !stats.contains_key(d.user_id as u128),
                _ => false,
            },
            QueryMsg::QueryIDsOfAllThreadsUserCreated(d) => match r {
                Ok(QueryResponse::IDsOfAllThreadsUserCreated(p)) => {
                    &&& stats.contains_key(d.user_id as u128)
                    &&& p.thread_ids@ == page_ids(
                        self.users_created_threads@,
                        page_window(d.user_id, d.start_after_thread_id, d.include_start_after),
                        page_size(d.limit),
                    )
                    &&& p.count == p.thread_ids@.len()
                    &&& p.total_count == stats[d.user_id as u128].0 as usize
                },
                Err(e) => e == ContractError::NotFound(crate::error::StoredItem::UserThreadStats) && !stats.contains_key(d.user_id as u128),
                _ => false,
            },
            QueryMsg::QueryIDsOfAllThreadMsgsInThread(d) => r matches Ok(QueryResponse::IDsOfAllThreadMsgsInThread(p)) && {
                let w = page_window(d.thread_id, d.start_after_thread_msg_id, d.include_start_after);
                &&& p.thread_msg_ids@ == first_n(window_entries(self.threads_msgs@, w.0, w.1, w.2), page_size(d.limit)).map_values(
                    |e: (u128, ThreadMsg)| pair_low(e.0),
                )
                &&& p.count == p.thread_msg_ids@.len()
                &&& p.total_count == window_entries(
                    self.threads_msgs@,
                    pair_key(d.thread_id, 0),
                    false,
                    pair_key(d.thread_id, u64::MAX),
                ).len()
            },
            QueryMsg::QueryThreadsByIDs(d) => r matches Ok(QueryResponse::Threads(t)) && {
                &&& t.threads@.len() == d.thread_ids@.len()
                &&& forall|i: int|
                    0 <= i < d.thread_ids@.len() ==> (#[trigger] t.threads@[i]).same_as(self.threads.as_map()[d.thread_ids@[i] as u128])
            },
            QueryMsg::QueryThreadMsgsByIDs(d) => r matches Ok(QueryResponse::ThreadMsgs(m)) && {
                let ids = d.thread_and_thread_msg_ids@;
                &&& m.thread_msgs@.len() == ids.len()
                &&& forall|i: int|
                    0 <= i < ids.len() ==> #[trigger] m.thread_msgs@[i] == self.threads_msgs.as_map()[pair_key(ids[i].0, ids[i].1)]
            },
        }
    }

    /// Whether a query can be answered without a panic: the users and threads it
    /// looks up exist and the costs stay within `u128`.
    pub open spec fn query_computable(&self, members: &MemberRegistry, msg: QueryMsg) -> bool {
        match msg {
            QueryMsg::QueryCostToAskInThread(d) => {
                let issuer = members.user_at_id(d.ask_to_user_id);
                &&& self.user_configs.as_map().contains_key(d.thread_creator_user_id as u128)
                &&& members.id_registered(d.ask_to_user_id)
                &&& issuer.membership_issued_by_me is Some
                &&& ask_cost_computable(d, self.config, self.user_configs.as_map()[d.thread_creator_user_id as u128], supply_of(issuer))
            },
            QueryMsg::QueryCostToReplyInThread(d) => {
                let target = members.user_at_id(d.reply_to_user_id);
                &&& self.user_configs.as_map().contains_key(d.thread_creator_user_id as u128)
                &&& members.id_registered(d.reply_to_user_id)
                &&& target.membership_issued_by_me is Some
                &&& reply_cost_computable(d, self.config, self.user_configs.as_map()[d.thread_creator_user_id as u128], supply_of(target))
            },
            QueryMsg::QueryThreadsByIDs(d) => forall|i: int|
                0 <= i < d.thread_ids@.len() ==> self.threads.as_map().contains_key(#[trigger] d.thread_ids@[i] as u128),
            QueryMsg::QueryThreadMsgsByIDs(d) => forall|i: int|
                0 <= i < d.thread_and_thread_msg_ids@.len() ==> self.threads_msgs.as_map().contains_key(
                    pair_key(#[trigger] d.thread_and_thread_msg_ids@[i].0, d.thread_and_thread_msg_ids@[i].1),
                ),
            _ => true,
        }
    }

    /// Answers a query.
    pub fn query(&self, members: &MemberRegistry, msg: QueryMsg) -> (r: Result<QueryResponse, ContractError>)
        requires
            self.query_computable(members, msg),
        ensures
            self.query_outcome(members, msg, r),
    {
        match msg {
            QueryMsg::QueryConfig(_) => Ok(QueryResponse::Config(ConfigResponse { config: self.query_config() })),
            QueryMsg::QueryUserConfig(d) => match self.query_user_config(d.user_id) {
                Ok(c) => Ok(QueryResponse::UserConfig(UserConfigResponse { user_config: c })),
                Err(e) => Err(e),
            },
            QueryMsg::QueryCostToStartNewThread(_) => Ok(QueryResponse::CostToStartNewThread(query_cost_to_start_new_thread(&self.config))),
            QueryMsg::QueryCostToAskInThread(d) => {
                let creator_config = *self.user_configs.get(d.thread_creator_user_id as u128).unwrap();
                let supply = members.query_membership_supply(d.ask_to_user_id);
                Ok(QueryResponse::CostToAskInThread(query_cost_to_ask_in_thread(&d, &self.config, &creator_config, supply)))
            },
            QueryMsg::QueryCostToReplyInThread(d) => {
                let creator_config = *self.user_configs.get(d.thread_creator_user_id as u128).unwrap();
                let supply = members.query_membership_supply(d.reply_to_user_id);
                Ok(QueryResponse::CostToReplyInThread(query_cost_to_reply_in_thread(&d, &self.config, &creator_config, supply)))
            },
            QueryMsg::QueryIDsOfAllThreadsUserParticipated(d) => match self.query_ids_of_all_threads_user_participated(d) {
                Ok(p) => Ok(QueryResponse::IDsOfAllThreadsUserParticipated(p)),
                Err(e) => Err(e),
            },
            QueryMsg::QueryIDsOfAllThreadsUserCreated(d) => match self.query_ids_of_all_threads_user_created(d) {
                Ok(p) => Ok(QueryResponse::IDsOfAllThreadsUserCreated(p)),
                Err(e) => Err(e),
            },
            QueryMsg::QueryIDsOfAllThreadMsgsInThread(d) => Ok(
                QueryResponse::IDsOfAllThreadMsgsInThread(self.query_ids_of_all_thread_msgs_in_thread(d)),
            ),
            QueryMsg::QueryThreadsByIDs(d) => Ok(QueryResponse::Threads(ThreadsResponse { threads: self.query_threads_by_ids(&d.thread_ids) })),
            QueryMsg::QueryThreadMsgsByIDs(d) => Ok(
                QueryResponse::ThreadMsgs(ThreadMsgsResponse { thread_msgs: self.query_thread_msgs_by_ids(&d.thread_and_thread_msg_ids) }),
            ),
        }
    }
}

/// Whatever message the thread contract executes, the ids of stored threads and
/// messages stay consistent with the counters that hand them out, so no id is ever
/// handed out twice.
pub proof fn law_execute_keeps_ids(
    s: ThreadState,
    next: ThreadState,
    members: MemberRegistry,
    sender: Seq<char>,
    funds: Seq<Coin>,
    msg: ExecuteMsg,
    r: Result<Vec<Action>, ContractError>,
)
    requires
        s.ids_consistent(),
        s.execute_computable(&members, sender, funds, msg),
        s.execute_outcome(next, &members, sender, funds, msg, r),
    ensures
        next.ids_consistent(),
{
    let denom = members.config.default_fee_config.fee_denom@;
    match msg {
        ExecuteMsg::StartNewThread(d) => {
            if let Ok(paid) = must_pay_outcome(funds, denom) {
                law_start_new_thread_keeps_ids(s, next, members, sender, d, paid, r);
            }
        },
        ExecuteMsg::AskInThread(d) => {
            if let Ok(paid) = must_pay_outcome(funds, denom) {
                law_ask_keeps_ids(s, next, members, sender, d, paid, r);
            }
        },
        ExecuteMsg::ReplyInThread(d) => {
            if let Ok(paid) = must_pay_outcome(funds, denom) {
                law_reply_keeps_ids(s, next, members, sender, d, paid, r);
            }
        },
        ExecuteMsg::AnswerInThread(d) => {
            if funds.len() == 0 {
                law_answer_keeps_ids(s, next, members, sender, d, r);
            }
        },
        _ => {},
    }
}

} // verus!
