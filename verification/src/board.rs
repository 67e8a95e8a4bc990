//! Threads: who starts them, questions asked in them, answers and replies, with
//! the fees each step charges and the bookkeeping of who took part where.
use vstd::prelude::*;
use vstd::string::StrSliceExecFns;
use crate::action::{Action, Recipient};
use crate::config::{Config, UserConfig};
use crate::error::{ContractError, StoredItem};
use crate::fees::{
    ask_cost_computable, ask_fees, query_cost_to_ask_in_thread, query_cost_to_reply_in_thread,
    query_cost_to_start_new_thread, reply_cost_computable, reply_fees, supply_of, QueryCostToAskInThreadMsg,
    QueryCostToReplyInThreadMsg,
};
use crate::math::{decimal_from_ratio, mul_div, DECIMAL_FRACTIONAL};
use crate::member::{total_sent, MemberRegistry};
use crate::ordered_map::{
    entries_map, lemma_pair_key, lemma_prefix_window, lemma_window_len_insert, pair_high, pair_key, pair_key_exec, pair_low,
    strictly_sorted, window_entries, OrderedMap,
};

verus! {

/// A thread.
#[derive(Debug, PartialEq, Eq)]
pub struct Thread {
    /// Unique, increasing identifier, from 1.
    pub id: u64,
    pub title: String,
    pub description: String,
    pub labels: Vec<String>,
    /// User id of the creator.
    pub creator_user_id: u64,
    pub updatable: bool,
    pub deletable: bool,
}

/// A question asked in a thread.
#[derive(Debug, PartialEq, Eq)]
pub struct ThreadQuestionMsg {
    /// Identifier, unique within the thread.
    pub id: u64,
    pub thread_id: u64,
    pub creator_user_id: u64,
    pub content: String,
    /// User id of the user asked.
    pub asked_to_user_id: u64,
}

/// An answer to a question in a thread.
#[derive(Debug, PartialEq, Eq)]
pub struct ThreadAnswerMsg {
    pub id: u64,
    pub thread_id: u64,
    pub creator_user_id: u64,
    pub content: String,
    pub answered_to_question_msg_id: u64,
}

/// A reply in a thread, to the thread itself or to one of its messages.
#[derive(Debug, PartialEq, Eq)]
pub struct ThreadReplyMsg {
    pub id: u64,
    pub thread_id: u64,
    pub creator_user_id: u64,
    pub content: String,
    pub reply_to_thread_msg_id: Option<u64>,
}

/// A message in a thread.
#[derive(Debug, PartialEq, Eq)]
pub enum ThreadMsg {
    ThreadQuestionMsg(ThreadQuestionMsg),
    ThreadAnswerMsg(ThreadAnswerMsg),
    ThreadReplyMsg(ThreadReplyMsg),
}

/// The state of the thread contract.
pub struct ThreadState {
    pub config: Config,
    /// Id of the next thread.
    pub next_thread_id: u64,
    /// Id of the next message, by thread id.
    pub next_thread_msg_id: OrderedMap<u64>,
    /// Fee settings, by user id.
    pub user_configs: OrderedMap<UserConfig>,
    /// Threads, by id.
    pub threads: OrderedMap<Thread>,
    /// (threads created, threads taken part in), by user id.
    pub user_thread_stats: OrderedMap<(u128, u128)>,
    /// The set of `(user id, thread id)` of threads a user created.
    pub users_created_threads: OrderedMap<bool>,
    /// The set of `(user id, thread id)` of threads a user took part in.
    pub users_participated_threads: OrderedMap<bool>,
    /// Number of messages, by thread id.
    pub threads_msgs_count: OrderedMap<u128>,
    /// Messages, by `(thread id, message id)`.
    pub threads_msgs: OrderedMap<ThreadMsg>,
    /// Unanswered questions: the user asked, by `(thread id, message id)`.
    pub users_unanswered_questions: OrderedMap<u64>,
}

/// A new thread.
#[derive(Debug, PartialEq, Eq)]
pub struct StartNewThreadMsg {
    pub title: String,
    pub description: String,
    pub labels: Vec<String>,
}

/// A question, in a new thread or an existing one.
#[derive(Debug, PartialEq, Eq)]
pub struct AskInThreadMsg {
    /// Whether to start a new thread with the question.
    pub start_new_thread: Option<bool>,
    /// Title of the new thread.
    pub thread_title: Option<String>,
    /// Description of the new thread.
    pub thread_description: Option<String>,
    /// Labels of the new thread.
    pub thread_labels: Option<Vec<String>>,
    /// The existing thread to ask in.
    pub thread_id: Option<u64>,
    /// The user asked.
    pub ask_to_user_id: u64,
    pub content: String,
}

/// An answer to a question.
#[derive(Debug, PartialEq, Eq)]
pub struct AnswerInThreadMsg {
    pub thread_id: u64,
    pub question_id: u64,
    pub content: String,
}

/// A reply, to a thread or to one of its messages.
#[derive(Debug, PartialEq, Eq)]
pub struct ReplyInThreadMsg {
    pub thread_id: u64,
    pub reply_to_thread_msg_id: Option<u64>,
    pub content: String,
}

/// The user id of the author of a message.
pub open spec fn msg_creator(m: ThreadMsg) -> u64 {
    match m {
        ThreadMsg::ThreadQuestionMsg(q) => q.creator_user_id,
        ThreadMsg::ThreadAnswerMsg(a) => a.creator_user_id,
        ThreadMsg::ThreadReplyMsg(r) => r.creator_user_id,
    }
}

fn msg_creator_exec(m: &ThreadMsg) -> (id: u64)
    ensures
        id == msg_creator(*m),
{
    match m {
        ThreadMsg::ThreadQuestionMsg(q) => q.creator_user_id,
        ThreadMsg::ThreadAnswerMsg(a) => a.creator_user_id,
        ThreadMsg::ThreadReplyMsg(r) => r.creator_user_id,
    }
}

/// Whether `t` is the thread that question `data` of `asker` starts under id `id`.
pub open spec fn is_new_thread(t: Thread, id: u64, data: AskInThreadMsg, asker: u64) -> bool {
    &&& t.id == id
    &&& t.title == data.thread_title.unwrap()
    &&& t.description == data.thread_description.unwrap()
    &&& t.labels@ == match data.thread_labels {
        Some(l) => l@,
        None => Seq::<String>::empty(),
    }
    &&& t.creator_user_id == asker
    &&& !t.updatable
    &&& !t.deletable
}

/// Whether the question starts a new thread.
pub open spec fn starts_thread(data: AskInThreadMsg) -> bool {
    data.start_new_thread == Some(true)
}

/// Length of an optional text, zero when absent.
pub open spec fn opt_len(t: Option<String>) -> nat {
    match t {
        Some(s) => s@.len(),
        None => 0,
    }
}

/// The fee of one share of `fee` to the members of an issuer with `supply`
/// memberships, as the increment of their reward index.
pub open spec fn index_increment(fee: u128, supply: u128) -> u128 {
    mul_div(fee as int, DECIMAL_FRACTIONAL as int, supply as int) as u128
}

/// Whether [`index_increment`] can be computed.
pub open spec fn index_increment_computable(fee: u128, supply: u128) -> bool {
    supply != 0 && mul_div(fee as int, DECIMAL_FRACTIONAL as int, supply as int) <= u128::MAX
}

/// Adds one to both counters of `stats`, or starts them at one.
pub open spec fn bumped_stats(stats: Map<u128, (u128, u128)>, user: u64) -> (u128, u128) {
    if stats.contains_key(user as u128) {
        ((stats[user as u128].0 + 1) as u128, (stats[user as u128].1 + 1) as u128)
    } else {
        (1, 1)
    }
}

/// A user's (threads created, threads taken part in), or (0, 0) when it has none.
pub open spec fn stats_of(stats: Map<u128, (u128, u128)>, user: u64) -> (u128, u128) {
    if stats.contains_key(user as u128) {
        stats[user as u128]
    } else {
        (0, 0)
    }
}

/// The statistics with `created` threads created and `joined` threads taken part in
/// added to those of `user`; adding nothing leaves them as they are.
pub open spec fn add_stats(stats: Map<u128, (u128, u128)>, user: u64, created: nat, joined: nat) -> Map<u128, (u128, u128)> {
    if created == 0 && joined == 0 {
        stats
    } else {
        stats.insert(
            user as u128,
            ((stats_of(stats, user).0 + created) as u128, (stats_of(stats, user).1 + joined) as u128),
        )
    }
}

/// One when `user` does not take part in `tid` yet, zero when it does.
pub open spec fn joins(participated: Map<u128, bool>, user: u64, tid: u64) -> nat {
    if participated.contains_key(pair_key(user, tid)) {
        0
    } else {
        1
    }
}

/// Whether [`add_stats`] stays within `u128`.
pub open spec fn stats_addable(stats: Map<u128, (u128, u128)>, user: u64, created: nat, joined: nat) -> bool {
    stats_of(stats, user).0 + created <= u128::MAX && stats_of(stats, user).1 + joined <= u128::MAX
}

/// Whether [`bumped_stats`] stays within `u128`.
pub open spec fn stats_bumpable(stats: Map<u128, (u128, u128)>, user: u64) -> bool {
    stats.contains_key(user as u128) ==> stats[user as u128].0 < u128::MAX && stats[user as u128].1 < u128::MAX
}

/// The number of threads of `user` among entries keyed by (user, thread).
pub open spec fn threads_of(entries: Seq<(u128, bool)>, user: u64) -> nat {
    window_entries(entries, pair_key(user, 0), false, pair_key(user, u64::MAX)).len()
}

/// Adding the entry (user, thread), not yet present, counts one more thread for that
/// user and no more for anyone else.
proof fn lemma_threads_of_insert(s: Seq<(u128, bool)>, s2: Seq<(u128, bool)>, user: u64, tid: u64, v: bool)
    requires
        strictly_sorted(s),
        strictly_sorted(s2),
        !entries_map(s).contains_key(pair_key(user, tid)),
        entries_map(s2) == entries_map(s).insert(pair_key(user, tid), v),
    ensures
        forall|u: u64| #[trigger] threads_of(s2, u) == threads_of(s, u) + if u == user { 1int } else { 0int },
{
    let k = pair_key(user, tid);
    lemma_pair_key(user, tid, 0, 0);
    assert forall|u: u64| #[trigger] threads_of(s2, u) == threads_of(s, u) + if u == user { 1int } else { 0int } by {
        lemma_prefix_window(k, u);
        lemma_window_len_insert(s, s2, k, v, pair_key(u, 0), pair_key(u, u64::MAX));
    }
}

/// The count of threads per user after adding the entry (user, thread) when
/// `inserted`, and after nothing otherwise.
proof fn lemma_threads_of_step(s: Seq<(u128, bool)>, s2: Seq<(u128, bool)>, user: u64, tid: u64, v: bool, inserted: bool)
    requires
        strictly_sorted(s),
        strictly_sorted(s2),
        inserted ==> !entries_map(s).contains_key(pair_key(user, tid)) && entries_map(s2) == entries_map(s).insert(
            pair_key(user, tid),
            v,
        ),
        !inserted ==> s2 == s,
    ensures
        forall|u: u64| #[trigger] threads_of(s2, u) == threads_of(s, u) + if u == user && inserted { 1int } else { 0int },
{
    if inserted {
        lemma_threads_of_insert(s, s2, user, tid, v);
    }
}

/// Adding to a user's statistics what was added to its created and joined threads
/// keeps the statistics counting them.
proof fn lemma_add_stats_counts(
    stats: Map<u128, (u128, u128)>,
    c0: Seq<(u128, bool)>,
    p0: Seq<(u128, bool)>,
    c1: Seq<(u128, bool)>,
    p1: Seq<(u128, bool)>,
    user: u64,
    created: nat,
    joined: nat,
)
    requires
        counts_match(stats, c0, p0),
        stats_addable(stats, user, created, joined),
        forall|u: u64| #[trigger] threads_of(c1, u) == threads_of(c0, u) + if u == user { created as int } else { 0int },
        forall|u: u64| #[trigger] threads_of(p1, u) == threads_of(p0, u) + if u == user { joined as int } else { 0int },
    ensures
        counts_match(add_stats(stats, user, created, joined), c1, p1),
{
    let s2 = add_stats(stats, user, created, joined);
    assert forall|u: u64| #![trigger stats_of(s2, u)] stats_of(s2, u).0 == threads_of(c1, u) && stats_of(s2, u).1 == threads_of(p1, u) by {
        assert(stats_of(stats, u).0 == threads_of(c0, u) && stats_of(stats, u).1 == threads_of(p0, u));
        assert(threads_of(c1, u) == threads_of(c0, u) + if u == user { created as int } else { 0int });
        assert(threads_of(p1, u) == threads_of(p0, u) + if u == user { joined as int } else { 0int });
    }
}

/// Whether the statistics count, for every user, the threads it created and the
/// threads it takes part in.
pub open spec fn counts_match(stats: Map<u128, (u128, u128)>, created: Seq<(u128, bool)>, participated: Seq<(u128, bool)>) -> bool {
    forall|u: u64|
        #![trigger stats_of(stats, u)]
        stats_of(stats, u).0 == threads_of(created, u) && stats_of(stats, u).1 == threads_of(participated, u)
}

impl ThreadState {
    /// Whether every user's statistics count the threads it created and the threads it
    /// takes part in.
    pub open spec fn stats_count_threads(&self) -> bool {
        counts_match(self.user_thread_stats.as_map(), self.users_created_threads@, self.users_participated_threads@)
    }
}

impl ThreadState {
    /// Whether `next` differs from this state at most in the users' fee settings.
    pub open spec fn only_user_configs_changed(&self, next: ThreadState) -> bool {
        next == ThreadState { user_configs: next.user_configs, ..*self }
    }

    /// Why starting a thread fails, checked in this order.
    pub open spec fn start_new_thread_failure(
        &self,
        creator: crate::member::User,
        data: StartNewThreadMsg,
        paid: u128,
    ) -> Option<ContractError> {
        let tc = self.config.thread_config;
        let fee = self.config.protocol_fee_config.start_new_thread_fixed_cost;
        let id = self.next_thread_id;
        if creator.membership_issued_by_me is None {
            Some(ContractError::UserMustHaveIssuedMembershipToStartNewThread)
        } else if data.title@.len() > tc.max_thread_title_length {
            Some(ContractError::ThreadTitleTooLong { max: tc.max_thread_title_length, actual: data.title@.len() as u64 })
        } else if data.description@.len() > tc.max_thread_description_length {
            Some(
                ContractError::ThreadDescriptionTooLong {
                    max: tc.max_thread_description_length,
                    actual: data.description@.len() as u64,
                },
            )
        } else if fee > paid {
            Some(ContractError::InsufficientFundsToPayDuringAsk { needed: fee, available: paid })
        } else if self.threads.as_map().contains_key(id as u128) {
            Some(ContractError::ThreadAlreadyExist)
        } else if self.users_created_threads.as_map().contains_key(pair_key(creator.id, id)) {
            Some(ContractError::ThreadAlreadyExist)
        } else if self.users_participated_threads.as_map().contains_key(pair_key(creator.id, id)) {
            Some(ContractError::ThreadAlreadyExist)
        } else {
            None
        }
    }

    /// The outcome of starting a thread: on failure the reason and no change; on success the
    /// new thread, its bookkeeping and the protocol fee payment.
    pub open spec fn start_new_thread_outcome(
        &self,
        next: ThreadState,
        members: &MemberRegistry,
        sender: Seq<char>,
        data: StartNewThreadMsg,
        paid: u128,
        r: Result<Vec<Action>, ContractError>,
    ) -> bool {
        let creator = members.user_at_addr(sender);
        let id = self.next_thread_id;
        match r {
            Err(e) => self.start_new_thread_failure(creator, data, paid) == Some(e)
                && next == *self,
            Ok(msgs) => {
                &&& self.start_new_thread_failure(creator, data, paid) is None
                &&& next.threads.as_map() == self.threads.as_map().insert(
                    id as u128,
                    Thread {
                        id,
                        title: data.title,
                        description: data.description,
                        labels: data.labels,
                        creator_user_id: creator.id,
                        updatable: false,
                        deletable: false,
                    },
                )
                &&& next.users_created_threads.as_map()
                    == self.users_created_threads.as_map().insert(pair_key(creator.id, id), true)
                &&& next.users_participated_threads.as_map()
                    == self.users_participated_threads.as_map().insert(pair_key(creator.id, id), true)
                &&& next.user_thread_stats.as_map() == self.user_thread_stats.as_map().insert(
                    creator.id as u128,
                    bumped_stats(self.user_thread_stats.as_map(), creator.id),
                )
                &&& next.next_thread_id == id + 1
                &&& next.config == self.config
                &&& next.next_thread_msg_id == self.next_thread_msg_id
                &&& next.user_configs == self.user_configs
                &&& next.threads_msgs_count == self.threads_msgs_count
                &&& next.threads_msgs == self.threads_msgs
                &&& next.users_unanswered_questions == self.users_unanswered_questions
                &&& msgs@ == seq![
                    Action::Transfer {
                        to: Recipient::Address(self.config.protocol_fee_collector_addr),
                        amount: self.config.protocol_fee_config.start_new_thread_fixed_cost,
                    },
                ]
            },
        }
    }

    /// Starts a thread for the user at `sender`, who must have issued a membership and
    /// paid the fixed protocol fee, which goes to the fee collector. The thread gets
    /// the next thread id; its creator is recorded as having created it and taken part
    /// in it. On failure nothing changes.
    pub fn start_new_thread(
        &mut self,
        members: &MemberRegistry,
        sender: &String,
        data: StartNewThreadMsg,
        user_paid_amount: u128,
    ) -> (r: Result<Vec<Action>, ContractError>)
        requires
            members.wf(),
            members.addr_registered(sender@),
            data.title@.len() <= u64::MAX,
            data.description@.len() <= u64::MAX,
            old(self).start_new_thread_failure(members.user_at_addr(sender@), data, user_paid_amount) is None ==> {
                &&& old(self).next_thread_id < u64::MAX
                &&& stats_bumpable(old(self).user_thread_stats.as_map(), members.user_at_addr(sender@).id)
            },
        ensures
            old(self).start_new_thread_outcome(*final(self), members, sender@, data, user_paid_amount, r),
            old(self).stats_count_threads() ==> final(self).stats_count_threads(),
    {
        let creator = members.user_by_addr(sender).unwrap();
        let creator_id = creator.id;
        if creator.membership_issued_by_me.is_none() {
            return Err(ContractError::UserMustHaveIssuedMembershipToStartNewThread);
        }
        let tc = self.config.thread_config;
        let title_len = data.title.as_str().unicode_len() as u64;
        if title_len > tc.max_thread_title_length {
            return Err(ContractError::ThreadTitleTooLong { max: tc.max_thread_title_length, actual: title_len });
        }
        let description_len = data.description.as_str().unicode_len() as u64;
        if description_len > tc.max_thread_description_length {
            return Err(ContractError::ThreadDescriptionTooLong { max: tc.max_thread_description_length, actual: description_len });
        }
        let cost = query_cost_to_start_new_thread(&self.config);
        if cost.protocol_fee > user_paid_amount {
            return Err(ContractError::InsufficientFundsToPayDuringAsk { needed: cost.protocol_fee, available: user_paid_amount });
        }
        let thread_id = self.next_thread_id;
        let key = pair_key_exec(creator_id, thread_id);
        if self.threads.contains(thread_id as u128) || self.users_created_threads.contains(key)
            || self.users_participated_threads.contains(key) {
            return Err(ContractError::ThreadAlreadyExist);
        }
        let stats = match self.user_thread_stats.get(creator_id as u128) {
            Some(s) => (s.0 + 1, s.1 + 1),
            None => (1, 1),
        };
        self.threads.insert(
            thread_id as u128,
            Thread {
                id: thread_id,
                title: data.title,
                description: data.description,
                labels: data.labels,
                creator_user_id: creator_id,
                updatable: false,
                deletable: false,
            },
        );
        proof {
            use_type_invariant(&self.users_created_threads);
            use_type_invariant(&self.users_participated_threads);
        }
        let ghost c0 = self.users_created_threads@;
        let ghost p0 = self.users_participated_threads@;
        let ghost stats0 = self.user_thread_stats.as_map();
        self.users_created_threads.insert(key, true);
        self.users_participated_threads.insert(key, true);
        self.user_thread_stats.insert(creator_id as u128, stats);
        proof {
            use_type_invariant(&self.users_created_threads);
            use_type_invariant(&self.users_participated_threads);
            lemma_threads_of_insert(c0, self.users_created_threads@, creator_id, thread_id, true);
            lemma_threads_of_insert(p0, self.users_participated_threads@, creator_id, thread_id, true);
            assert(self.user_thread_stats.as_map() == add_stats(stats0, creator_id, 1, 1));
            if counts_match(stats0, c0, p0) {
                lemma_add_stats_counts(stats0, c0, p0, self.users_created_threads@, self.users_participated_threads@, creator_id, 1, 1);
            }
        }
        let ghost counted = self.stats_count_threads();
        self.next_thread_id = thread_id + 1;
        assert(counted ==> self.stats_count_threads());
        let msgs = vec![
            Action::Transfer {
                to: Recipient::Address(self.config.protocol_fee_collector_addr.clone()),
                amount: cost.protocol_fee,
            },
        ];
        assert(msgs@ =~= seq![
            Action::Transfer {
                to: Recipient::Address(old(self).config.protocol_fee_collector_addr),
                amount: old(self).config.protocol_fee_config.start_new_thread_fixed_cost,
            },
        ]);
        Ok(msgs)
    }

    /// The thread a question goes to.
    pub open spec fn ask_thread_id(&self, data: AskInThreadMsg) -> u64 {
        if starts_thread(data) {
            self.next_thread_id
        } else {
            data.thread_id.unwrap()
        }
    }

    /// The id the question receives in its thread.
    pub open spec fn ask_msg_id(&self, data: AskInThreadMsg) -> u64 {
        if starts_thread(data) {
            1
        } else {
            self.next_thread_msg_id.as_map()[data.thread_id.unwrap() as u128]
        }
    }

    /// The creator of the thread a question goes to.
    pub open spec fn ask_creator_id(&self, asker: u64, data: AskInThreadMsg) -> u64 {
        if starts_thread(data) {
            asker
        } else {
            self.threads.as_map()[data.thread_id.unwrap() as u128].creator_user_id
        }
    }

    /// The cost query of a question.
    pub open spec fn ask_query(&self, asker: u64, data: AskInThreadMsg) -> QueryCostToAskInThreadMsg {
        QueryCostToAskInThreadMsg {
            asker_user_id: asker,
            ask_to_user_id: data.ask_to_user_id,
            thread_creator_user_id: self.ask_creator_id(asker, data),
            content_len: data.content@.len() as u64,
        }
    }

    /// The fees of a question.
    pub open spec fn ask_fee_parts(&self, members: &MemberRegistry, asker: u64, data: AskInThreadMsg) -> (nat, nat, nat, nat, nat) {
        ask_fees(
            self.ask_query(asker, data),
            self.config,
            self.user_configs.as_map()[self.ask_creator_id(asker, data) as u128],
            supply_of(members.user_at_id(data.ask_to_user_id)),
        )
    }

    /// Why asking fails, checked in this order.
    pub open spec fn ask_failure(&self, members: &MemberRegistry, sender: Seq<char>, data: AskInThreadMsg, paid: u128) -> Option<
        ContractError,
    > {
        let asker = members.user_at_addr(sender);
        let tc = self.config.thread_config;
        let creator_id = self.ask_creator_id(asker.id, data);
        let tid = self.ask_thread_id(data);
        let mid = self.ask_msg_id(data);
        let f = self.ask_fee_parts(members, asker.id, data);
        let total = f.0 + f.1 + f.2 + f.3 + f.4;
        let stats = self.user_thread_stats.as_map();
        let participated = self.users_participated_threads.as_map();
        if asker.membership_issued_by_me is None {
            Some(ContractError::UserMustHaveIssuedMembershipToAsk)
        } else if !starts_thread(data) && !self.threads.as_map().contains_key(tid as u128) {
            Some(ContractError::NotFound(StoredItem::Thread))
        } else if members.holding(asker.id, data.ask_to_user_id) == 0 {
            Some(ContractError::UserMustHoldAskToUserMembershipToAsk)
        } else if creator_id != asker.id && members.holding(asker.id, creator_id) == 0 {
            Some(ContractError::UserMustHoldThreadCreatorMembershipToAskInItsThread)
        } else if opt_len(data.thread_title) > tc.max_thread_title_length {
            Some(ContractError::ThreadTitleTooLong { max: tc.max_thread_title_length, actual: opt_len(data.thread_title) as u64 })
        } else if data.content@.len() > tc.max_thread_msg_length {
            Some(ContractError::ThreadMsgContentTooLong { max: tc.max_thread_msg_length, actual: data.content@.len() as u64 })
        } else if total > paid {
            Some(ContractError::InsufficientFundsToPayDuringAsk { needed: total as u128, available: paid })
        } else if !starts_thread(data) && !self.next_thread_msg_id.as_map().contains_key(tid as u128) {
            Some(ContractError::NotFound(StoredItem::NextThreadMsgId))
        } else if starts_thread(data) && (self.threads.as_map().contains_key(tid as u128)
            || self.users_created_threads.as_map().contains_key(pair_key(asker.id, tid))
            || participated.contains_key(pair_key(asker.id, tid))) {
            Some(ContractError::ThreadAlreadyExist)
        } else if data.ask_to_user_id == asker.id {
            Some(ContractError::ThreadAlreadyExist)
        } else if self.threads_msgs.as_map().contains_key(pair_key(tid, mid)) {
            Some(ContractError::ThreadMsgAlreadyExist)
        } else {
            None
        }
    }

    /// Whether a question, where it gets to each step, does not panic: the users it
    /// looks up exist, the fees and counters stay within their integer ranges, a new
    /// thread has a title and a description.
    pub open spec fn ask_computable(&self, members: &MemberRegistry, sender: Seq<char>, data: AskInThreadMsg, paid: u128) -> bool {
        let asker = members.user_at_addr(sender);
        let tc = self.config.thread_config;
        let creator_id = self.ask_creator_id(asker.id, data);
        let tid = self.ask_thread_id(data);
        let f = self.ask_fee_parts(members, asker.id, data);
        let stats = self.user_thread_stats.as_map();
        let participated = self.users_participated_threads.as_map();
        let reaches_lookup = asker.membership_issued_by_me is Some && (starts_thread(data) || (data.thread_id is Some
            && self.threads.as_map().contains_key(tid as u128)));
        let reaches_cost = reaches_lookup && members.holding(asker.id, data.ask_to_user_id) != 0 && (creator_id == asker.id
            || members.holding(asker.id, creator_id) != 0) && opt_len(data.thread_title) <= tc.max_thread_title_length
            && data.content@.len() <= tc.max_thread_msg_length;
        &&& members.addr_registered(sender)
        &&& asker.membership_issued_by_me is Some && !starts_thread(data) ==> data.thread_id is Some
        &&& reaches_lookup ==> members.id_registered(creator_id) && members.id_registered(data.ask_to_user_id)
        &&& reaches_cost ==> {
            &&& self.user_configs.as_map().contains_key(creator_id as u128)
            &&& members.user_at_id(data.ask_to_user_id).membership_issued_by_me is Some
            &&& ask_cost_computable(
                self.ask_query(asker.id, data),
                self.config,
                self.user_configs.as_map()[creator_id as u128],
                supply_of(members.user_at_id(data.ask_to_user_id)),
            )
        }
        &&& self.ask_failure(members, sender, data, paid) is None ==> {
            &&& starts_thread(data) ==> data.thread_title is Some && data.thread_description is Some && self.next_thread_id
                < u64::MAX
            &&& !starts_thread(data) ==> self.next_thread_msg_id.as_map()[tid as u128] < u64::MAX
            &&& stats_addable(stats, asker.id, if starts_thread(data) { 1 } else { 0 }, joins(participated, asker.id, tid))
            &&& stats_addable(
                add_stats(stats, asker.id, if starts_thread(data) { 1 } else { 0 }, joins(participated, asker.id, tid)),
                data.ask_to_user_id,
                0,
                joins(participated, data.ask_to_user_id, tid),
            )
            &&& self.threads_msgs_count.as_map().contains_key(tid as u128) ==> self.threads_msgs_count.as_map()[tid as u128]
                < u128::MAX
            &&& members.user_at_id(creator_id).membership_issued_by_me is Some
            &&& index_increment_computable(f.2 as u128, supply_of(members.user_at_id(data.ask_to_user_id)))
            &&& f.4 > 0 ==> index_increment_computable(f.4 as u128, supply_of(members.user_at_id(creator_id)))
        }
    }

    /// The thread statistics after a question: the asker has created one more thread
    /// when the question starts it, and the asker and the user asked each take part in
    /// one more thread when they did not take part in this one yet.
    pub open spec fn asked_stats(&self, asker: u64, data: AskInThreadMsg) -> Map<u128, (u128, u128)> {
        let created: nat = if starts_thread(data) {
            1
        } else {
            0
        };
        let tid = self.ask_thread_id(data);
        let participated = self.users_participated_threads.as_map();
        add_stats(
            add_stats(self.user_thread_stats.as_map(), asker, created, joins(participated, asker, tid)),
            data.ask_to_user_id,
            0,
            joins(participated, data.ask_to_user_id, tid),
        )
    }

    /// Who takes part in which thread after a question: the asker and the user asked
    /// are added to the thread when they are not in it yet.
    pub open spec fn asked_participants(&self, asker: u64, data: AskInThreadMsg) -> Map<u128, bool> {
        let tid = self.ask_thread_id(data);
        let p = self.users_participated_threads.as_map();
        let p1 = if p.contains_key(pair_key(asker, tid)) {
            p
        } else {
            p.insert(pair_key(asker, tid), true)
        };
        if p1.contains_key(pair_key(data.ask_to_user_id, tid)) {
            p1
        } else {
            p1.insert(pair_key(data.ask_to_user_id, tid), false)
        }
    }

    /// The messages a question emits: the share of the user asked goes to the
    /// distribution contract for its members and to the user, the protocol fee to the
    /// collector, and, when non-zero, the thread creator's shares likewise.
    pub open spec fn ask_actions(&self, members: &MemberRegistry, asker: u64, data: AskInThreadMsg) -> Seq<Action> {
        let f = self.ask_fee_parts(members, asker, data);
        let ask_to = members.user_at_id(data.ask_to_user_id);
        let creator_id = self.ask_creator_id(asker, data);
        let creator = members.user_at_id(creator_id);
        seq![
            Action::Distribute {
                membership_issuer_user_id: data.ask_to_user_id,
                index_increment: index_increment(f.2 as u128, supply_of(ask_to)),
                amount: f.2 as u128,
            },
            Action::Transfer { to: Recipient::Address(ask_to.addr), amount: f.1 as u128 },
            Action::Transfer { to: Recipient::Address(self.config.protocol_fee_collector_addr), amount: f.0 as u128 },
        ] + (if f.4 > 0 {
            seq![
                Action::Distribute {
                    membership_issuer_user_id: creator_id,
                    index_increment: index_increment(f.4 as u128, supply_of(creator)),
                    amount: f.4 as u128,
                },
            ]
        } else {
            Seq::empty()
        }) + (if f.3 > 0 {
            seq![Action::Transfer { to: Recipient::Address(creator.addr), amount: f.3 as u128 }]
        } else {
            Seq::empty()
        })
    }

    /// The outcome of a question: on failure the reason and no change; on success the
    /// question, the thread and participation bookkeeping and the fee payments.
    pub open spec fn ask_outcome(
        &self,
        next: ThreadState,
        members: &MemberRegistry,
        sender: Seq<char>,
        data: AskInThreadMsg,
        paid: u128,
        r: Result<Vec<Action>, ContractError>,
    ) -> bool {
        let asker = members.user_at_addr(sender);
        let tid = self.ask_thread_id(data);
        let mid = self.ask_msg_id(data);
        let new = starts_thread(data);
        match r {
            Err(e) => self.ask_failure(members, sender, data, paid) == Some(e) && next
                == *self,
            Ok(msgs) => {
                &&& self.ask_failure(members, sender, data, paid) is None
                &&& new ==> next.threads.as_map() == self.threads.as_map().insert(
                    tid as u128,
                    next.threads.as_map()[tid as u128],
                ) && is_new_thread(next.threads.as_map()[tid as u128], tid, data, asker.id)
                &&& !new ==> next.threads.as_map() == self.threads.as_map()
                &&& next.users_created_threads.as_map() == if new {
                    self.users_created_threads.as_map().insert(pair_key(asker.id, tid), true)
                } else {
                    self.users_created_threads.as_map()
                }
                &&& next.users_participated_threads.as_map() == self.asked_participants(asker.id, data)
                &&& next.next_thread_id == if new {
                    (self.next_thread_id + 1) as u64
                } else {
                    self.next_thread_id
                }
                &&& next.next_thread_msg_id.as_map() == if new {
                    self.next_thread_msg_id.as_map().insert(tid as u128, 2)
                } else {
                    self.next_thread_msg_id.as_map().insert(tid as u128, (mid + 1) as u64)
                }
                &&& next.user_thread_stats.as_map() == self.asked_stats(asker.id, data)
                &&& next.users_unanswered_questions.as_map()
                    == self.users_unanswered_questions.as_map().insert(pair_key(tid, mid), data.ask_to_user_id)
                &&& next.threads_msgs.as_map() == self.threads_msgs.as_map().insert(
                    pair_key(tid, mid),
                    ThreadMsg::ThreadQuestionMsg(
                        ThreadQuestionMsg {
                            id: mid,
                            thread_id: tid,
                            creator_user_id: asker.id,
                            content: data.content,
                            asked_to_user_id: data.ask_to_user_id,
                        },
                    ),
                )
                &&& next.threads_msgs_count.as_map() == self.threads_msgs_count.as_map().insert(
                    tid as u128,
                    if self.threads_msgs_count.as_map().contains_key(tid as u128) {
                        (self.threads_msgs_count.as_map()[tid as u128] + 1) as u128
                    } else {
                        1
                    },
                )
                &&& next.config == self.config
                &&& next.user_configs == self.user_configs
                &&& msgs@ == self.ask_actions(members, asker.id, data)
            },
        }
    }

    /// Asks the user `data.ask_to_user_id` a question, in a new thread of the asker or
    /// in an existing thread. The asker must have issued a membership, hold one of the
    /// user asked and, in someone else's thread, one of the thread creator, and pay
    /// the fees. The question gets the next message id of its thread and is recorded
    /// as unanswered; asker and user asked are recorded as taking part in the thread.
    /// On failure nothing changes.
    pub fn ask_in_thread(&mut self, members: &MemberRegistry, sender: &String, data: AskInThreadMsg, user_paid_amount: u128) -> (r:
        Result<Vec<Action>, ContractError>)
        requires
            members.wf(),
            old(self).ask_computable(members, sender@, data, user_paid_amount),
        ensures
            old(self).ask_outcome(*final(self), members, sender@, data, user_paid_amount, r),
            old(self).stats_count_threads() ==> final(self).stats_count_threads(),
    {
        let asker = members.user_by_addr(sender).unwrap();
        let asker_id = asker.id;
        if asker.membership_issued_by_me.is_none() {
            return Err(ContractError::UserMustHaveIssuedMembershipToAsk);
        }
        let new = match data.start_new_thread {
            Some(b) => b,
            None => false,
        };
        let creator_id = if new {
            asker_id
        } else {
            match self.threads.get(data.thread_id.unwrap() as u128) {
                Some(t) => t.creator_user_id,
                None => return Err(ContractError::NotFound(StoredItem::Thread)),
            }
        };
        let creator = members.user_by_id(creator_id).unwrap();
        let ask_to_id = data.ask_to_user_id;
        let ask_to = members.user_by_id(ask_to_id).unwrap();
        if !members.query_is_user_a_member_and_membership_amount(ask_to_id, asker_id).0 {
            return Err(ContractError::UserMustHoldAskToUserMembershipToAsk);
        }
        if creator_id != asker_id && !members.query_is_user_a_member_and_membership_amount(creator_id, asker_id).0 {
            return Err(ContractError::UserMustHoldThreadCreatorMembershipToAskInItsThread);
        }
        let tc = self.config.thread_config;
        let title_len = match &data.thread_title {
            Some(t) => t.as_str().unicode_len() as u64,
            None => 0,
        };
        if title_len > tc.max_thread_title_length {
            return Err(ContractError::ThreadTitleTooLong { max: tc.max_thread_title_length, actual: title_len });
        }
        let content_len = data.content.as_str().unicode_len() as u64;
        if content_len > tc.max_thread_msg_length {
            return Err(ContractError::ThreadMsgContentTooLong { max: tc.max_thread_msg_length, actual: content_len });
        }
        let creator_config = *self.user_configs.get(creator_id as u128).unwrap();
        let ask_to_supply = members.query_membership_supply(ask_to_id);
        let cost = query_cost_to_ask_in_thread(
            &QueryCostToAskInThreadMsg {
                asker_user_id: asker_id,
                ask_to_user_id: ask_to_id,
                thread_creator_user_id: creator_id,
                content_len,
            },
            &self.config,
            &creator_config,
            ask_to_supply,
        );
        if cost.total_needed_from_user > user_paid_amount {
            return Err(
                ContractError::InsufficientFundsToPayDuringAsk { needed: cost.total_needed_from_user, available: user_paid_amount },
            );
        }
        let (thread_id, msg_id) = if new {
            (self.next_thread_id, 1u64)
        } else {
            let tid = data.thread_id.unwrap();
            match self.next_thread_msg_id.get(tid as u128) {
                Some(n) => (tid, *n),
                None => return Err(ContractError::NotFound(StoredItem::NextThreadMsgId)),
            }
        };
        let asker_key = pair_key_exec(asker_id, thread_id);
        if new {
            if self.threads.contains(thread_id as u128) || self.users_created_threads.contains(asker_key)
                || self.users_participated_threads.contains(asker_key) {
                return Err(ContractError::ThreadAlreadyExist);
            }
        }
        let ask_to_key = pair_key_exec(ask_to_id, thread_id);
        if ask_to_id == asker_id {
            return Err(ContractError::ThreadAlreadyExist);
        }
        let asker_joins = !self.users_participated_threads.contains(asker_key);
        let ask_to_joins = !self.users_participated_threads.contains(ask_to_key);
        let msg_key = pair_key_exec(thread_id, msg_id);
        if self.threads_msgs.contains(msg_key) {
            return Err(ContractError::ThreadMsgAlreadyExist);
        }
        // All checks passed: build the messages, then update the state.
        let creator_supply = members.query_membership_supply(creator_id);
        let mut msgs: Vec<Action> = Vec::new();
        msgs.push(
            Action::Distribute {
                membership_issuer_user_id: ask_to_id,
                index_increment: decimal_from_ratio(cost.ask_to_membership_all_members_fee, ask_to_supply),
                amount: cost.ask_to_membership_all_members_fee,
            },
        );
        msgs.push(Action::Transfer { to: Recipient::Address(ask_to.addr.clone()), amount: cost.ask_to_membership_issuer_fee });
        msgs.push(
            Action::Transfer {
                to: Recipient::Address(self.config.protocol_fee_collector_addr.clone()),
                amount: cost.protocol_fee,
            },
        );
        let ghost base = msgs@;
        if cost.thread_creator_membership_all_members_fee > 0 {
            msgs.push(
                Action::Distribute {
                    membership_issuer_user_id: creator_id,
                    index_increment: decimal_from_ratio(cost.thread_creator_membership_all_members_fee, creator_supply),
                    amount: cost.thread_creator_membership_all_members_fee,
                },
            );
        }
        let ghost with_distribute = msgs@;
        if cost.thread_creator_membership_issuer_fee > 0 {
            msgs.push(
                Action::Transfer { to: Recipient::Address(creator.addr.clone()), amount: cost.thread_creator_membership_issuer_fee },
            );
        }
        proof {
            let f = old(self).ask_fee_parts(members, asker_id, data);
            assert(msgs@ =~= old(self).ask_actions(members, asker_id, data));
            use_type_invariant(&self.users_created_threads);
            use_type_invariant(&self.users_participated_threads);
            assert(*self == *old(self));
        }
        let ghost c0 = self.users_created_threads@;
        let ghost p0 = self.users_participated_threads@;
        let ghost stats0 = self.user_thread_stats.as_map();
        if new {
            let labels = match data.thread_labels {
                Some(l) => l,
                None => Vec::new(),
            };
            self.threads.insert(
                thread_id as u128,
                Thread {
                    id: thread_id,
                    title: data.thread_title.unwrap(),
                    description: data.thread_description.unwrap(),
                    labels,
                    creator_user_id: asker_id,
                    updatable: false,
                    deletable: false,
                },
            );
            self.users_created_threads.insert(asker_key, true);
            self.users_participated_threads.insert(asker_key, true);
            self.next_thread_id = thread_id + 1;
            self.next_thread_msg_id.insert(thread_id as u128, 2);
        } else {
            self.next_thread_msg_id.insert(thread_id as u128, msg_id + 1);
            if asker_joins {
                self.users_participated_threads.insert(asker_key, true);
            }
        }
        if new || asker_joins {
            let asker_stats = match self.user_thread_stats.get(asker_id as u128) {
                Some(s) => *s,
                None => (0u128, 0u128),
            };
            let created: u128 = if new {
                asker_stats.0 + 1
            } else {
                asker_stats.0
            };
            let joined: u128 = if asker_joins {
                asker_stats.1 + 1
            } else {
                asker_stats.1
            };
            self.user_thread_stats.insert(asker_id as u128, (created, joined));
        }
        proof {
            use_type_invariant(&self.users_created_threads);
            use_type_invariant(&self.users_participated_threads);
            lemma_threads_of_step(c0, self.users_created_threads@, asker_id, thread_id, true, new);
            lemma_threads_of_step(p0, self.users_participated_threads@, asker_id, thread_id, true, asker_joins);
        }
        let ghost c1 = self.users_created_threads@;
        let ghost p1 = self.users_participated_threads@;
        let ghost stats1 = self.user_thread_stats.as_map();
        let ghost cr: nat = if new { 1 } else { 0 };
        let ghost aj: nat = if asker_joins { 1 } else { 0 };
        let ghost tj: nat = if ask_to_joins { 1 } else { 0 };
        proof {
            assert(stats1 == add_stats(stats0, asker_id, cr, aj));
        }
        if ask_to_joins {
            let ask_to_stats = match self.user_thread_stats.get(ask_to_id as u128) {
                Some(s) => *s,
                None => (0u128, 0u128),
            };
            self.user_thread_stats.insert(ask_to_id as u128, (ask_to_stats.0, ask_to_stats.1 + 1));
            self.users_participated_threads.insert(ask_to_key, false);
        }
        proof {
            use_type_invariant(&self.users_participated_threads);
            lemma_threads_of_step(p1, self.users_participated_threads@, ask_to_id, thread_id, false, ask_to_joins);
            lemma_threads_of_step(c1, c1, ask_to_id, thread_id, false, false);
            assert(self.user_thread_stats.as_map() == add_stats(stats1, ask_to_id, 0, tj));
            if counts_match(stats0, c0, p0) {
                lemma_add_stats_counts(stats0, c0, p0, c1, p1, asker_id, cr, aj);
                lemma_add_stats_counts(stats1, c1, p1, c1, self.users_participated_threads@, ask_to_id, 0, tj);
            }
        }
        let ghost counted = self.stats_count_threads();
        self.users_unanswered_questions.insert(msg_key, ask_to_id);
        self.threads_msgs.insert(
            msg_key,
            ThreadMsg::ThreadQuestionMsg(
                ThreadQuestionMsg {
                    id: msg_id,
                    thread_id,
                    creator_user_id: asker_id,
                    content: data.content,
                    asked_to_user_id: ask_to_id,
                },
            ),
        );
        let count = match self.threads_msgs_count.get(thread_id as u128) {
            Some(c) => *c + 1,
            None => 1,
        };
        self.threads_msgs_count.insert(thread_id as u128, count);
        assert(counted ==> self.stats_count_threads());
        Ok(msgs)
    }

    /// Why answering fails, checked in this order: the answerer has issued no
    /// membership, there is no message at the question's place, it is no question, it
    /// was asked to someone else, the thread has no message counter, the content is too
    /// long, the next message id is taken, the thread has no message count.
    pub open spec fn answer_failure(&self, members: &MemberRegistry, sender: Seq<char>, data: AnswerInThreadMsg) -> Option<
        ContractError,
    > {
        let answerer = members.user_at_addr(sender);
        let key = pair_key(data.thread_id, data.question_id);
        let msg = self.threads_msgs.as_map()[key];
        let next = self.next_thread_msg_id.as_map();
        let tid = data.thread_id;
        let max = self.config.thread_config.max_thread_msg_length;
        if answerer.membership_issued_by_me is None {
            Some(ContractError::UserMustHaveIssuedMembershipToAnswer)
        } else if !self.threads_msgs.as_map().contains_key(key) {
            Some(ContractError::NotFound(StoredItem::ThreadMsg))
        } else if !(msg is ThreadQuestionMsg) {
            Some(ContractError::CannotAnswerNonQuestionThreadMsg)
        } else if msg->ThreadQuestionMsg_0.asked_to_user_id != answerer.id {
            Some(ContractError::CannotAnswerOthersQuestion)
        } else if !next.contains_key(tid as u128) {
            Some(ContractError::NotFound(StoredItem::NextThreadMsgId))
        } else if data.content@.len() > max {
            Some(ContractError::ThreadMsgContentTooLong { max, actual: data.content@.len() as u64 })
        } else if self.threads_msgs.as_map().contains_key(pair_key(tid, next[tid as u128])) {
            Some(ContractError::ThreadMsgAlreadyExist)
        } else if !self.threads_msgs_count.as_map().contains_key(tid as u128) {
            Some(ContractError::ThreadNotExist)
        } else {
            None
        }
    }

    /// Whether an answer, where it gets to each step, does not panic: the answerer is
    /// a user and the counters stay within their integer ranges.
    pub open spec fn answer_computable(&self, members: &MemberRegistry, sender: Seq<char>, data: AnswerInThreadMsg) -> bool {
        let answerer = members.user_at_addr(sender);
        let tid = data.thread_id;
        &&& members.addr_registered(sender)
        &&& data.content@.len() <= u64::MAX
        &&& self.answer_failure(members, sender, data) is None ==> {
            &&& self.next_thread_msg_id.as_map()[tid as u128] < u64::MAX
            &&& self.threads_msgs_count.as_map()[tid as u128] < u128::MAX
            &&& !self.users_participated_threads.as_map().contains_key(pair_key(answerer.id, tid)) ==> stats_addable(
                self.user_thread_stats.as_map(),
                answerer.id,
                0,
                1,
            )
        }
    }

    /// The outcome of an answer: on failure the reason and no change; on success the
    /// answer under the thread's next message id, the question no longer unanswered,
    /// the answerer recorded as taking part, and no payment.
    pub open spec fn answer_outcome(
        &self,
        next: ThreadState,
        members: &MemberRegistry,
        sender: Seq<char>,
        data: AnswerInThreadMsg,
        r: Result<Vec<Action>, ContractError>,
    ) -> bool {
        let answerer = members.user_at_addr(sender);
        let tid = data.thread_id;
        let mid = self.next_thread_msg_id.as_map()[tid as u128];
        let joined = !self.users_participated_threads.as_map().contains_key(pair_key(answerer.id, tid));
        match r {
            Err(e) => self.answer_failure(members, sender, data) == Some(e) && next == *self,
            Ok(msgs) => {
                &&& self.answer_failure(members, sender, data) is None
                &&& msgs@.len() == 0
                &&& next.threads_msgs.as_map() == self.threads_msgs.as_map().insert(
                    pair_key(tid, mid),
                    ThreadMsg::ThreadAnswerMsg(
                        ThreadAnswerMsg {
                            id: mid,
                            thread_id: tid,
                            creator_user_id: answerer.id,
                            content: data.content,
                            answered_to_question_msg_id: data.question_id,
                        },
                    ),
                )
                &&& next.next_thread_msg_id.as_map() == self.next_thread_msg_id.as_map().insert(
                    tid as u128,
                    (mid + 1) as u64,
                )
                &&& next.users_unanswered_questions.as_map() == self.users_unanswered_questions.as_map().remove(
                    pair_key(tid, data.question_id),
                )
                &&& next.users_participated_threads.as_map() == if joined {
                    self.users_participated_threads.as_map().insert(pair_key(answerer.id, tid), false)
                } else {
                    self.users_participated_threads.as_map()
                }
                &&& next.user_thread_stats.as_map() == if joined {
                    add_stats(self.user_thread_stats.as_map(), answerer.id, 0, 1)
                } else {
                    self.user_thread_stats.as_map()
                }
                &&& next.threads_msgs_count.as_map() == self.threads_msgs_count.as_map().insert(
                    tid as u128,
                    (self.threads_msgs_count.as_map()[tid as u128] + 1) as u128,
                )
                &&& next.config == self.config
                &&& next.next_thread_id == self.next_thread_id
                &&& next.user_configs == self.user_configs
                &&& next.threads == self.threads
                &&& next.users_created_threads == self.users_created_threads
            },
        }
    }

    /// Answers a question asked to the user at `sender`, who must have issued a
    /// membership. The answer gets the next message id of the thread; the question
    /// leaves the unanswered ones, and may be answered again. Answering is free. On
    /// failure nothing changes.
    pub fn answer_in_thread(&mut self, members: &MemberRegistry, sender: &String, data: AnswerInThreadMsg) -> (r: Result<
        Vec<Action>,
        ContractError,
    >)
        requires
            members.wf(),
            old(self).answer_computable(members, sender@, data),
        ensures
            old(self).answer_outcome(*final(self), members, sender@, data, r),
            old(self).stats_count_threads() ==> final(self).stats_count_threads(),
    {
        let answerer = members.user_by_addr(sender).unwrap();
        let answerer_id = answerer.id;
        if answerer.membership_issued_by_me.is_none() {
            return Err(ContractError::UserMustHaveIssuedMembershipToAnswer);
        }
        let key = pair_key_exec(data.thread_id, data.question_id);
        let asked_to = match self.threads_msgs.get(key) {
            None => return Err(ContractError::NotFound(StoredItem::ThreadMsg)),
            Some(ThreadMsg::ThreadQuestionMsg(q)) => q.asked_to_user_id,
            Some(_) => return Err(ContractError::CannotAnswerNonQuestionThreadMsg),
        };
        if asked_to != answerer_id {
            return Err(ContractError::CannotAnswerOthersQuestion);
        }
        let thread_id = data.thread_id;
        let msg_id = match self.next_thread_msg_id.get(thread_id as u128) {
            Some(n) => *n,
            None => return Err(ContractError::NotFound(StoredItem::NextThreadMsgId)),
        };
        let max = self.config.thread_config.max_thread_msg_length;
        let content_len = data.content.as_str().unicode_len() as u64;
        if content_len > max {
            return Err(ContractError::ThreadMsgContentTooLong { max, actual: content_len });
        }
        let msg_key = pair_key_exec(thread_id, msg_id);
        if self.threads_msgs.contains(msg_key) {
            return Err(ContractError::ThreadMsgAlreadyExist);
        }
        let count = match self.threads_msgs_count.get(thread_id as u128) {
            Some(c) => *c + 1,
            None => return Err(ContractError::ThreadNotExist),
        };
        proof {
            use_type_invariant(&self.users_created_threads);
            use_type_invariant(&self.users_participated_threads);
        }
        let ghost c0 = self.users_created_threads@;
        let ghost p0 = self.users_participated_threads@;
        let ghost stats0 = self.user_thread_stats.as_map();
        let part_key = pair_key_exec(answerer_id, thread_id);
        let joined = !self.users_participated_threads.contains(part_key);
        if joined {
            let s = match self.user_thread_stats.get(answerer_id as u128) {
                Some(s) => *s,
                None => (0u128, 0u128),
            };
            self.user_thread_stats.insert(answerer_id as u128, (s.0, s.1 + 1));
            self.users_participated_threads.insert(part_key, false);
        }
        proof {
            use_type_invariant(&self.users_participated_threads);
            let j: nat = if joined { 1 } else { 0 };
            lemma_threads_of_step(p0, self.users_participated_threads@, answerer_id, thread_id, false, joined);
            lemma_threads_of_step(c0, c0, answerer_id, thread_id, false, false);
            assert(self.user_thread_stats.as_map() == add_stats(stats0, answerer_id, 0, j));
            if counts_match(stats0, c0, p0) {
                lemma_add_stats_counts(stats0, c0, p0, c0, self.users_participated_threads@, answerer_id, 0, j);
            }
        }
        let ghost counted = self.stats_count_threads();
        self.next_thread_msg_id.insert(thread_id as u128, msg_id + 1);
        self.threads_msgs.insert(
            msg_key,
            ThreadMsg::ThreadAnswerMsg(
                ThreadAnswerMsg {
                    id: msg_id,
                    thread_id,
                    creator_user_id: answerer_id,
                    content: data.content,
                    answered_to_question_msg_id: data.question_id,
                },
            ),
        );
        self.users_unanswered_questions.remove(pair_key_exec(thread_id, data.question_id));
        self.threads_msgs_count.insert(thread_id as u128, count);
        assert(counted ==> self.stats_count_threads());
        Ok(Vec::new())
    }

    /// The user a reply is addressed to: the author of the message replied to, or
    /// the thread creator.
    pub open spec fn reply_target(&self, data: ReplyInThreadMsg) -> u64 {
        match data.reply_to_thread_msg_id {
            Some(mid) => msg_creator(self.threads_msgs.as_map()[pair_key(data.thread_id, mid)]),
            None => self.threads.as_map()[data.thread_id as u128].creator_user_id,
        }
    }

    /// The fees of a reply.
    pub open spec fn reply_fee_parts(&self, members: &MemberRegistry, replier: u64, data: ReplyInThreadMsg) -> (nat, nat, nat, nat, nat) {
        let creator_id = self.threads.as_map()[data.thread_id as u128].creator_user_id;
        reply_fees(
            QueryCostToReplyInThreadMsg {
                replier_user_id: replier,
                reply_to_user_id: self.reply_target(data),
                thread_creator_user_id: creator_id,
                content_len: data.content@.len() as u64,
            },
            self.config,
            self.user_configs.as_map()[creator_id as u128],
            supply_of(members.user_at_id(self.reply_target(data))),
        )
    }

    /// Why replying fails, checked in this order.
    pub open spec fn reply_failure(&self, members: &MemberRegistry, sender: Seq<char>, data: ReplyInThreadMsg, paid: u128) -> Option<
        ContractError,
    > {
        let replier = members.user_at_addr(sender);
        let tid = data.thread_id;
        let creator_id = self.threads.as_map()[tid as u128].creator_user_id;
        let tc = self.config.thread_config;
        let f = self.reply_fee_parts(members, replier.id, data);
        let total = f.0 + f.1 + f.2 + f.3 + f.4;
        let next = self.next_thread_msg_id.as_map();
        if replier.membership_issued_by_me is None {
            Some(ContractError::UserMustHaveIssuedMembershipToReply)
        } else if !self.threads.as_map().contains_key(tid as u128) {
            Some(ContractError::NotFound(StoredItem::Thread))
        } else if data.reply_to_thread_msg_id matches Some(mid) && !self.threads_msgs.as_map().contains_key(pair_key(tid, mid)) {
            Some(ContractError::NotFound(StoredItem::ThreadMsg))
        } else if members.holding(replier.id, creator_id) == 0 {
            Some(ContractError::UserMustHoldThreadCreatorMembershipToReply)
        } else if data.reply_to_thread_msg_id is Some && members.holding(replier.id, self.reply_target(data)) == 0 {
            Some(ContractError::UserMustHoldThreadReplyToUserMembershipToReply)
        } else if data.content@.len() > tc.max_thread_msg_length {
            Some(ContractError::ThreadMsgContentTooLong { max: tc.max_thread_msg_length, actual: data.content@.len() as u64 })
        } else if total > paid {
            Some(ContractError::InsufficientFundsToPayDuringAsk { needed: total as u128, available: paid })
        } else if !next.contains_key(tid as u128) {
            Some(ContractError::NotFound(StoredItem::NextThreadMsgId))
        } else if self.threads_msgs.as_map().contains_key(pair_key(tid, next[tid as u128])) {
            Some(ContractError::ThreadMsgAlreadyExist)
        } else if !self.threads_msgs_count.as_map().contains_key(tid as u128) {
            Some(ContractError::ThreadNotExist)
        } else {
            None
        }
    }

    /// Whether a reply, where it gets to each step, does not panic.
    pub open spec fn reply_computable(&self, members: &MemberRegistry, sender: Seq<char>, data: ReplyInThreadMsg, paid: u128) -> bool {
        let replier = members.user_at_addr(sender);
        let tid = data.thread_id;
        let creator_id = self.threads.as_map()[tid as u128].creator_user_id;
        let tc = self.config.thread_config;
        let f = self.reply_fee_parts(members, replier.id, data);
        let target = self.reply_target(data);
        let reaches_thread = replier.membership_issued_by_me is Some && self.threads.as_map().contains_key(tid as u128);
        let reaches_target = reaches_thread && (data.reply_to_thread_msg_id matches Some(mid) ==> self.threads_msgs.as_map().contains_key(
            pair_key(tid, mid),
        ));
        let reaches_cost = reaches_target && members.holding(replier.id, creator_id) != 0 && (data.reply_to_thread_msg_id is Some
            ==> members.holding(replier.id, target) != 0) && data.content@.len() <= tc.max_thread_msg_length;
        &&& members.addr_registered(sender)
        &&& reaches_thread ==> members.id_registered(creator_id)
        &&& reaches_target ==> members.id_registered(target)
        &&& reaches_cost ==> {
            &&& self.user_configs.as_map().contains_key(creator_id as u128)
            &&& members.user_at_id(target).membership_issued_by_me is Some
            &&& reply_cost_computable(
                QueryCostToReplyInThreadMsg {
                    replier_user_id: replier.id,
                    reply_to_user_id: target,
                    thread_creator_user_id: creator_id,
                    content_len: data.content@.len() as u64,
                },
                self.config,
                self.user_configs.as_map()[creator_id as u128],
                supply_of(members.user_at_id(target)),
            )
        }
        &&& self.reply_failure(members, sender, data, paid) is None ==> {
            &&& self.next_thread_msg_id.as_map()[tid as u128] < u64::MAX
            &&& !self.users_participated_threads.as_map().contains_key(pair_key(replier.id, tid)) ==> stats_addable(
                self.user_thread_stats.as_map(),
                replier.id,
                0,
                1,
            )
            &&& self.threads_msgs_count.as_map()[tid as u128] < u128::MAX
            &&& members.user_at_id(creator_id).membership_issued_by_me is Some
            &&& index_increment_computable(f.2 as u128, supply_of(members.user_at_id(target)))
            &&& f.4 > 0 ==> index_increment_computable(f.4 as u128, supply_of(members.user_at_id(creator_id)))
        }
    }

    /// The messages a reply emits. The user replied to (the author of the message
    /// replied to, or the thread creator for a reply to the thread itself) is paid,
    /// its members through the distribution contract, and so is the protocol. The
    /// thread creator's shares, when non-zero, are paid as for a question.
    pub open spec fn reply_actions(&self, members: &MemberRegistry, replier: u64, data: ReplyInThreadMsg) -> Seq<Action> {
        let f = self.reply_fee_parts(members, replier, data);
        let target = self.reply_target(data);
        let creator_id = self.threads.as_map()[data.thread_id as u128].creator_user_id;
        let creator = members.user_at_id(creator_id);
        seq![
            Action::Distribute {
                membership_issuer_user_id: target,
                index_increment: index_increment(f.2 as u128, supply_of(members.user_at_id(target))),
                amount: f.2 as u128,
            },
            Action::Transfer { to: Recipient::Address(members.user_at_id(target).addr), amount: f.1 as u128 },
            Action::Transfer { to: Recipient::Address(self.config.protocol_fee_collector_addr), amount: f.0 as u128 },
        ] + (if f.4 > 0 {
            seq![
                Action::Distribute {
                    membership_issuer_user_id: creator_id,
                    index_increment: index_increment(f.4 as u128, supply_of(creator)),
                    amount: f.4 as u128,
                },
            ]
        } else {
            Seq::empty()
        }) + (if f.3 > 0 {
            seq![Action::Transfer { to: Recipient::Address(creator.addr), amount: f.3 as u128 }]
        } else {
            Seq::empty()
        })
    }

    /// The outcome of a reply: on failure the reason and no change; on success the reply,
    /// its bookkeeping and the fee payments.
    pub open spec fn reply_outcome(
        &self,
        next: ThreadState,
        members: &MemberRegistry,
        sender: Seq<char>,
        data: ReplyInThreadMsg,
        paid: u128,
        r: Result<Vec<Action>, ContractError>,
    ) -> bool {
        let replier = members.user_at_addr(sender);
        let tid = data.thread_id;
        let mid = self.next_thread_msg_id.as_map()[tid as u128];
        let joined = !self.users_participated_threads.as_map().contains_key(pair_key(replier.id, tid));
        match r {
            Err(e) => self.reply_failure(members, sender, data, paid) == Some(e) && next
                == *self,
            Ok(msgs) => {
                &&& self.reply_failure(members, sender, data, paid) is None
                &&& next.next_thread_msg_id.as_map() == self.next_thread_msg_id.as_map().insert(
                    tid as u128,
                    (mid + 1) as u64,
                )
                &&& next.threads_msgs.as_map() == self.threads_msgs.as_map().insert(
                    pair_key(tid, mid),
                    ThreadMsg::ThreadReplyMsg(
                        ThreadReplyMsg {
                            id: mid,
                            thread_id: tid,
                            creator_user_id: replier.id,
                            content: data.content,
                            reply_to_thread_msg_id: data.reply_to_thread_msg_id,
                        },
                    ),
                )
                &&& next.user_thread_stats.as_map() == if joined {
                    add_stats(self.user_thread_stats.as_map(), replier.id, 0, 1)
                } else {
                    self.user_thread_stats.as_map()
                }
                &&& next.users_participated_threads.as_map() == if joined {
                    self.users_participated_threads.as_map().insert(pair_key(replier.id, tid), false)
                } else {
                    self.users_participated_threads.as_map()
                }
                &&& next.threads_msgs_count.as_map() == self.threads_msgs_count.as_map().insert(
                    tid as u128,
                    (self.threads_msgs_count.as_map()[tid as u128] + 1) as u128,
                )
                &&& next.config == self.config
                &&& next.next_thread_id == self.next_thread_id
                &&& next.user_configs == self.user_configs
                &&& next.threads == self.threads
                &&& next.users_created_threads == self.users_created_threads
                &&& next.users_unanswered_questions == self.users_unanswered_questions
                &&& msgs@ == self.reply_actions(members, replier.id, data)
            },
        }
    }

    /// Replies in a thread, to the thread or to one of its messages. The replier must
    /// have issued a membership, hold one of the thread creator and, when replying to
    /// a message, one of its author, and pay the fees. The reply gets the next message
    /// id of the thread; the replier is recorded as taking part. On failure nothing
    /// changes.
    pub fn reply_in_thread(&mut self, members: &MemberRegistry, sender: &String, data: ReplyInThreadMsg, user_paid_amount: u128) -> (r:
        Result<Vec<Action>, ContractError>)
        requires
            members.wf(),
            old(self).reply_computable(members, sender@, data, user_paid_amount),
        ensures
            old(self).reply_outcome(*final(self), members, sender@, data, user_paid_amount, r),
            old(self).stats_count_threads() ==> final(self).stats_count_threads(),
    {
        let replier = members.user_by_addr(sender).unwrap();
        let replier_id = replier.id;
        if replier.membership_issued_by_me.is_none() {
            return Err(ContractError::UserMustHaveIssuedMembershipToReply);
        }
        let thread_id = data.thread_id;
        let creator_id = match self.threads.get(thread_id as u128) {
            Some(t) => t.creator_user_id,
            None => return Err(ContractError::NotFound(StoredItem::Thread)),
        };
        let creator = members.user_by_id(creator_id).unwrap();
        let reply_to_user_id: Option<u64> = match data.reply_to_thread_msg_id {
            Some(mid) => match self.threads_msgs.get(pair_key_exec(thread_id, mid)) {
                Some(m) => Some(msg_creator_exec(m)),
                None => return Err(ContractError::NotFound(StoredItem::ThreadMsg)),
            },
            None => None,
        };
        let target_id = match reply_to_user_id {
            Some(id) => id,
            None => creator_id,
        };
        let target = members.user_by_id(target_id).unwrap();
        if !members.query_is_user_a_member_and_membership_amount(creator_id, replier_id).0 {
            return Err(ContractError::UserMustHoldThreadCreatorMembershipToReply);
        }
        if reply_to_user_id.is_some() && !members.query_is_user_a_member_and_membership_amount(target_id, replier_id).0 {
            return Err(ContractError::UserMustHoldThreadReplyToUserMembershipToReply);
        }
        let tc = self.config.thread_config;
        let content_len = data.content.as_str().unicode_len() as u64;
        if content_len > tc.max_thread_msg_length {
            return Err(ContractError::ThreadMsgContentTooLong { max: tc.max_thread_msg_length, actual: content_len });
        }
        let creator_config = *self.user_configs.get(creator_id as u128).unwrap();
        let target_supply = members.query_membership_supply(target_id);
        let cost = query_cost_to_reply_in_thread(
            &QueryCostToReplyInThreadMsg {
                replier_user_id: replier_id,
                reply_to_user_id: target_id,
                thread_creator_user_id: creator_id,
                content_len,
            },
            &self.config,
            &creator_config,
            target_supply,
        );
        if cost.total_needed_from_user > user_paid_amount {
            return Err(
                ContractError::InsufficientFundsToPayDuringAsk { needed: cost.total_needed_from_user, available: user_paid_amount },
            );
        }
        let msg_id = match self.next_thread_msg_id.get(thread_id as u128) {
            Some(n) => *n,
            None => return Err(ContractError::NotFound(StoredItem::NextThreadMsgId)),
        };
        let msg_key = pair_key_exec(thread_id, msg_id);
        if self.threads_msgs.contains(msg_key) {
            return Err(ContractError::ThreadMsgAlreadyExist);
        }
        let count = match self.threads_msgs_count.get(thread_id as u128) {
            Some(c) => *c + 1,
            None => return Err(ContractError::ThreadNotExist),
        };
        // All checks passed: build the messages, then update the state.
        let creator_supply = members.query_membership_supply(creator_id);
        let mut msgs: Vec<Action> = Vec::new();
        msgs.push(
            Action::Distribute {
                membership_issuer_user_id: target_id,
                index_increment: decimal_from_ratio(cost.reply_to_membership_all_members_fee, target_supply),
                amount: cost.reply_to_membership_all_members_fee,
            },
        );
        msgs.push(Action::Transfer { to: Recipient::Address(target.addr.clone()), amount: cost.reply_to_membership_issuer_fee });
        msgs.push(
            Action::Transfer {
                to: Recipient::Address(self.config.protocol_fee_collector_addr.clone()),
                amount: cost.protocol_fee,
            },
        );
        if cost.thread_creator_membership_all_members_fee > 0 {
            msgs.push(
                Action::Distribute {
                    membership_issuer_user_id: creator_id,
                    index_increment: decimal_from_ratio(cost.thread_creator_membership_all_members_fee, creator_supply),
                    amount: cost.thread_creator_membership_all_members_fee,
                },
            );
        }
        if cost.thread_creator_membership_issuer_fee > 0 {
            msgs.push(
                Action::Transfer { to: Recipient::Address(creator.addr.clone()), amount: cost.thread_creator_membership_issuer_fee },
            );
        }
        proof {
            assert(msgs@ =~= old(self).reply_actions(members, replier_id, data));
        }
        let part_key = pair_key_exec(replier_id, thread_id);
        let joined = !self.users_participated_threads.contains(part_key);
        self.next_thread_msg_id.insert(thread_id as u128, msg_id + 1);
        self.threads_msgs.insert(
            msg_key,
            ThreadMsg::ThreadReplyMsg(
                ThreadReplyMsg {
                    id: msg_id,
                    thread_id,
                    creator_user_id: replier_id,
                    content: data.content,
                    reply_to_thread_msg_id: data.reply_to_thread_msg_id,
                },
            ),
        );
        proof {
            use_type_invariant(&self.users_created_threads);
            use_type_invariant(&self.users_participated_threads);
        }
        let ghost c0 = self.users_created_threads@;
        let ghost p0 = self.users_participated_threads@;
        let ghost stats0 = self.user_thread_stats.as_map();
        if joined {
            let s = match self.user_thread_stats.get(replier_id as u128) {
                Some(s) => *s,
                None => (0u128, 0u128),
            };
            self.user_thread_stats.insert(replier_id as u128, (s.0, s.1 + 1));
            self.users_participated_threads.insert(part_key, false);
        }
        proof {
            use_type_invariant(&self.users_participated_threads);
            let j: nat = if joined { 1 } else { 0 };
            lemma_threads_of_step(p0, self.users_participated_threads@, replier_id, thread_id, false, joined);
            lemma_threads_of_step(c0, c0, replier_id, thread_id, false, false);
            assert(self.user_thread_stats.as_map() == add_stats(stats0, replier_id, 0, j));
            if counts_match(stats0, c0, p0) {
                lemma_add_stats_counts(stats0, c0, p0, c0, self.users_participated_threads@, replier_id, 0, j);
            }
        }
        let ghost counted = self.stats_count_threads();
        self.threads_msgs_count.insert(thread_id as u128, count);
        assert(counted ==> self.stats_count_threads());
        Ok(msgs)
    }
}

impl ThreadState {
    /// Whether stored threads and messages agree with the counters that hand out their
    /// ids: each thread is stored under its own id, below the next thread id; each
    /// message counter belongs to a thread id below the next thread id; each message
    /// is stored under its thread id and its own id, its thread has a message counter,
    /// and its id lies below that counter. A new id can then never hit a stored one.
    pub open spec fn ids_consistent(&self) -> bool {
        let threads = self.threads.as_map();
        let counters = self.next_thread_msg_id.as_map();
        let msgs = self.threads_msgs.as_map();
        &&& forall|k: u128| #[trigger] threads.contains_key(k) ==> k < self.next_thread_id && threads[k].id == k
        &&& forall|k: u128| #[trigger] counters.contains_key(k) ==> k < self.next_thread_id
        &&& forall|k: u128| #[trigger]
            msgs.contains_key(k) ==> {
                &&& counters.contains_key(pair_high(k) as u128)
                &&& pair_low(k) < counters[pair_high(k) as u128]
                &&& msg_place(msgs[k]) == (pair_high(k), pair_low(k))
            }
    }
}

/// The thread id and the message id of a message.
pub open spec fn msg_place(m: ThreadMsg) -> (u64, u64) {
    match m {
        ThreadMsg::ThreadQuestionMsg(q) => (q.thread_id, q.id),
        ThreadMsg::ThreadAnswerMsg(a) => (a.thread_id, a.id),
        ThreadMsg::ThreadReplyMsg(r) => (r.thread_id, r.id),
    }
}

/// Starting a thread keeps ids consistent with their counters: the new thread takes
/// the next thread id, which no stored thread has, and the counter moves past it.
pub proof fn law_start_new_thread_keeps_ids(
    s: ThreadState,
    next: ThreadState,
    members: MemberRegistry,
    sender: Seq<char>,
    data: StartNewThreadMsg,
    paid: u128,
    r: Result<Vec<Action>, ContractError>,
)
    requires
        s.ids_consistent(),
        s.start_new_thread_outcome(next, &members, sender, data, paid, r),
    ensures
        next.ids_consistent(),
{
}

/// A question keeps ids consistent with their counters: in a new thread it takes the
/// next thread id and message id 1, in an existing thread the thread's next message
/// id, and the counters move past what it took.
pub proof fn law_ask_keeps_ids(
    s: ThreadState,
    next: ThreadState,
    members: MemberRegistry,
    sender: Seq<char>,
    data: AskInThreadMsg,
    paid: u128,
    r: Result<Vec<Action>, ContractError>,
)
    requires
        s.ids_consistent(),
        s.ask_computable(&members, sender, data, paid),
        s.ask_outcome(next, &members, sender, data, paid, r),
    ensures
        next.ids_consistent(),
{
    if r is Ok {
        let tid = s.ask_thread_id(data);
        let mid = s.ask_msg_id(data);
        let key = pair_key(tid, mid);
        lemma_pair_key(tid, mid, 0, 0);
        let msgs = next.threads_msgs.as_map();
        let counters = next.next_thread_msg_id.as_map();
        assert forall|k: u128| #[trigger] msgs.contains_key(k) implies {
            &&& counters.contains_key(pair_high(k) as u128)
            &&& pair_low(k) < counters[pair_high(k) as u128]
            &&& msg_place(msgs[k]) == (pair_high(k), pair_low(k))
        } by {
            if k != key {
                assert(s.threads_msgs.as_map().contains_key(k));
            }
        }
    }
}

/// An answer keeps ids consistent with their counters: it takes its thread's next
/// message id, and the counter moves past it.
pub proof fn law_answer_keeps_ids(
    s: ThreadState,
    next: ThreadState,
    members: MemberRegistry,
    sender: Seq<char>,
    data: AnswerInThreadMsg,
    r: Result<Vec<Action>, ContractError>,
)
    requires
        s.ids_consistent(),
        s.answer_computable(&members, sender, data),
        s.answer_outcome(next, &members, sender, data, r),
    ensures
        next.ids_consistent(),
{
    if r is Ok {
        let tid = data.thread_id;
        let mid = s.next_thread_msg_id.as_map()[tid as u128];
        let key = pair_key(tid, mid);
        lemma_pair_key(tid, mid, 0, 0);
        let msgs = next.threads_msgs.as_map();
        let counters = next.next_thread_msg_id.as_map();
        assert forall|k: u128| #[trigger] msgs.contains_key(k) implies {
            &&& counters.contains_key(pair_high(k) as u128)
            &&& pair_low(k) < counters[pair_high(k) as u128]
            &&& msg_place(msgs[k]) == (pair_high(k), pair_low(k))
        } by {
            if k != key {
                assert(s.threads_msgs.as_map().contains_key(k));
            }
        }
    }
}

/// A reply keeps ids consistent with their counters: it takes its thread's next
/// message id, and the counter moves past it.
pub proof fn law_reply_keeps_ids(
    s: ThreadState,
    next: ThreadState,
    members: MemberRegistry,
    sender: Seq<char>,
    data: ReplyInThreadMsg,
    paid: u128,
    r: Result<Vec<Action>, ContractError>,
)
    requires
        s.ids_consistent(),
        s.reply_computable(&members, sender, data, paid),
        s.reply_outcome(next, &members, sender, data, paid, r),
    ensures
        next.ids_consistent(),
{
    if r is Ok {
        let tid = data.thread_id;
        let mid = s.next_thread_msg_id.as_map()[tid as u128];
        let key = pair_key(tid, mid);
        lemma_pair_key(tid, mid, 0, 0);
        let msgs = next.threads_msgs.as_map();
        let counters = next.next_thread_msg_id.as_map();
        assert forall|k: u128| #[trigger] msgs.contains_key(k) implies {
            &&& counters.contains_key(pair_high(k) as u128)
            &&& pair_low(k) < counters[pair_high(k) as u128]
            &&& msg_place(msgs[k]) == (pair_high(k), pair_low(k))
        } by {
            if k != key {
                assert(s.threads_msgs.as_map().contains_key(k));
            }
        }
    }
}

/// The author of a message, read off its variant.
pub open spec fn author_of(m: ThreadMsg) -> u64 {
    match m {
        ThreadMsg::ThreadQuestionMsg(q) => q.creator_user_id,
        ThreadMsg::ThreadAnswerMsg(a) => a.creator_user_id,
        ThreadMsg::ThreadReplyMsg(r) => r.creator_user_id,
    }
}

/// What five payments add up to, when each is within `u128`.
proof fn lemma_five_payments(msgs: Seq<Action>, f: (nat, nat, nat, nat, nat), d0: Action, t1: Action, t2: Action, d4: Action, t3: Action)
    requires
        f.0 + f.1 + f.2 + f.3 + f.4 <= u128::MAX,
        d0 matches Action::Distribute { amount, .. } && amount == f.2,
        t1 matches Action::Transfer { amount, .. } && amount == f.1,
        t2 matches Action::Transfer { amount, .. } && amount == f.0,
        d4 matches Action::Distribute { amount, .. } && amount == f.4,
        t3 matches Action::Transfer { amount, .. } && amount == f.3,
        msgs == seq![d0, t1, t2] + (if f.4 > 0 { seq![d4] } else { Seq::empty() }) + (if f.3 > 0 {
            seq![t3]
        } else {
            Seq::empty()
        }),
    ensures
        total_sent(msgs) == f.0 + f.1 + f.2 + f.3 + f.4,
{
    let base = seq![d0, t1, t2];
    assert(base.drop_last() =~= seq![d0, t1]);
    assert(seq![d0, t1].drop_last() =~= seq![d0]);
    assert(seq![d0].drop_last() =~= Seq::<Action>::empty());
    assert(total_sent(Seq::<Action>::empty()) == 0);
    assert(total_sent(seq![d0]) == f.2);
    assert(total_sent(seq![d0, t1]) == f.2 + f.1);
    assert(total_sent(base) == f.0 + f.1 + f.2);
    let with4 = base + (if f.4 > 0 { seq![d4] } else { Seq::empty() });
    if f.4 > 0 {
        assert(with4.drop_last() =~= base);
    } else {
        assert(with4 =~= base);
    }
    assert(total_sent(with4) == f.0 + f.1 + f.2 + f.4);
    if f.3 > 0 {
        assert(msgs.drop_last() =~= with4);
    } else {
        assert(msgs =~= with4);
    }
}

/// A question pays the user asked: its members (through the distribution contract)
/// and the user itself receive the shares of the ask fee priced on one membership of
/// the user asked, the protocol its share; and all that the question pays out adds
/// up to the cost quoted for it, with the thread creator's settings of the thread it
/// goes to (the asker's own for a new thread).
pub proof fn law_ask_pays_the_user_asked(
    s: ThreadState,
    next: ThreadState,
    members: MemberRegistry,
    sender: Seq<char>,
    data: AskInThreadMsg,
    paid: u128,
    r: Result<Vec<Action>, ContractError>,
)
    requires
        s.ask_computable(&members, sender, data, paid),
        s.ask_outcome(next, &members, sender, data, paid, r),
        r is Ok,
    ensures
        ({
            let asker = members.user_at_addr(sender).id;
            let to = data.ask_to_user_id;
            let creator = if data.start_new_thread == Some(true) {
                asker
            } else {
                s.threads.as_map()[data.thread_id.unwrap() as u128].creator_user_id
            };
            let f = ask_fees(
                QueryCostToAskInThreadMsg {
                    asker_user_id: asker,
                    ask_to_user_id: to,
                    thread_creator_user_id: creator,
                    content_len: data.content@.len() as u64,
                },
                s.config,
                s.user_configs.as_map()[creator as u128],
                supply_of(members.user_at_id(to)),
            );
            let msgs = r->Ok_0@;
            &&& msgs.len() >= 3
            &&& msgs[0] == Action::Distribute {
                membership_issuer_user_id: to,
                index_increment: index_increment(f.2 as u128, supply_of(members.user_at_id(to))),
                amount: f.2 as u128,
            }
            &&& msgs[1] == Action::Transfer { to: Recipient::Address(members.user_at_id(to).addr), amount: f.1 as u128 }
            &&& msgs[2] == Action::Transfer { to: Recipient::Address(s.config.protocol_fee_collector_addr), amount: f.0 as u128 }
            &&& msgs.len() == 3 + (if f.4 > 0 { 1int } else { 0int }) + (if f.3 > 0 { 1int } else { 0int })
            &&& f.4 > 0 ==> msgs[3] == Action::Distribute {
                membership_issuer_user_id: creator,
                index_increment: index_increment(f.4 as u128, supply_of(members.user_at_id(creator))),
                amount: f.4 as u128,
            }
            &&& f.3 > 0 ==> msgs.last() == Action::Transfer {
                to: Recipient::Address(members.user_at_id(creator).addr),
                amount: f.3 as u128,
            }
            &&& total_sent(msgs) == f.0 + f.1 + f.2 + f.3 + f.4
        }),
        ({
            let asker = members.user_at_addr(sender).id;
            let tid = if data.start_new_thread == Some(true) {
                s.next_thread_id
            } else {
                data.thread_id.unwrap()
            };
            let mid = if data.start_new_thread == Some(true) {
                1
            } else {
                s.next_thread_msg_id.as_map()[tid as u128]
            };
            &&& next.threads_msgs.as_map()[pair_key(tid, mid)] == ThreadMsg::ThreadQuestionMsg(
                ThreadQuestionMsg {
                    id: mid,
                    thread_id: tid,
                    creator_user_id: asker,
                    content: data.content,
                    asked_to_user_id: data.ask_to_user_id,
                },
            )
            &&& next.users_unanswered_questions.as_map()[pair_key(tid, mid)] == data.ask_to_user_id
            &&& !s.threads_msgs.as_map().contains_key(pair_key(tid, mid))
        }),
{
    let asker = members.user_at_addr(sender).id;
    let f = s.ask_fee_parts(&members, asker, data);
    let creator_id = s.ask_creator_id(asker, data);
    let c = members.user_at_id(creator_id);
    let to = members.user_at_id(data.ask_to_user_id);
    let msgs = r->Ok_0@;
    lemma_five_payments(
        msgs,
        f,
        Action::Distribute {
            membership_issuer_user_id: data.ask_to_user_id,
            index_increment: index_increment(f.2 as u128, supply_of(to)),
            amount: f.2 as u128,
        },
        Action::Transfer { to: Recipient::Address(to.addr), amount: f.1 as u128 },
        Action::Transfer { to: Recipient::Address(s.config.protocol_fee_collector_addr), amount: f.0 as u128 },
        Action::Distribute { membership_issuer_user_id: creator_id, index_increment: index_increment(f.4 as u128, supply_of(c)), amount: f.4 as u128 },
        Action::Transfer { to: Recipient::Address(c.addr), amount: f.3 as u128 },
    );
}

/// A reply pays the user replied to: the author of the message it names or, when it
/// names none, the thread creator. That user's members (through the distribution
/// contract) and the user itself receive the shares of the reply fee priced on one
/// membership of that user, the protocol its share; and all that the reply pays out
/// adds up to the cost quoted for it.
pub proof fn law_reply_pays_the_user_replied_to(
    s: ThreadState,
    next: ThreadState,
    members: MemberRegistry,
    sender: Seq<char>,
    data: ReplyInThreadMsg,
    paid: u128,
    r: Result<Vec<Action>, ContractError>,
)
    requires
        s.reply_computable(&members, sender, data, paid),
        s.reply_outcome(next, &members, sender, data, paid, r),
        r is Ok,
    ensures
        ({
            let creator = s.threads.as_map()[data.thread_id as u128].creator_user_id;
            let to = match data.reply_to_thread_msg_id {
                Some(mid) => author_of(s.threads_msgs.as_map()[pair_key(data.thread_id, mid)]),
                None => creator,
            };
            let f = reply_fees(
                QueryCostToReplyInThreadMsg {
                    replier_user_id: members.user_at_addr(sender).id,
                    reply_to_user_id: to,
                    thread_creator_user_id: creator,
                    content_len: data.content@.len() as u64,
                },
                s.config,
                s.user_configs.as_map()[creator as u128],
                supply_of(members.user_at_id(to)),
            );
            let msgs = r->Ok_0@;
            &&& msgs.len() >= 3
            &&& msgs[0] == Action::Distribute {
                membership_issuer_user_id: to,
                index_increment: index_increment(f.2 as u128, supply_of(members.user_at_id(to))),
                amount: f.2 as u128,
            }
            &&& msgs[1] == Action::Transfer { to: Recipient::Address(members.user_at_id(to).addr), amount: f.1 as u128 }
            &&& msgs[2] == Action::Transfer { to: Recipient::Address(s.config.protocol_fee_collector_addr), amount: f.0 as u128 }
            &&& msgs.len() == 3 + (if f.4 > 0 { 1int } else { 0int }) + (if f.3 > 0 { 1int } else { 0int })
            &&& f.4 > 0 ==> msgs[3] == Action::Distribute {
                membership_issuer_user_id: creator,
                index_increment: index_increment(f.4 as u128, supply_of(members.user_at_id(creator))),
                amount: f.4 as u128,
            }
            &&& f.3 > 0 ==> msgs.last() == Action::Transfer {
                to: Recipient::Address(members.user_at_id(creator).addr),
                amount: f.3 as u128,
            }
            &&& total_sent(msgs) == f.0 + f.1 + f.2 + f.3 + f.4
        }),
        ({
            let tid = data.thread_id;
            let mid = s.next_thread_msg_id.as_map()[tid as u128];
            &&& next.threads_msgs.as_map()[pair_key(tid, mid)] == ThreadMsg::ThreadReplyMsg(
                ThreadReplyMsg {
                    id: mid,
                    thread_id: tid,
                    creator_user_id: members.user_at_addr(sender).id,
                    content: data.content,
                    reply_to_thread_msg_id: data.reply_to_thread_msg_id,
                },
            )
            &&& !s.threads_msgs.as_map().contains_key(pair_key(tid, mid))
            &&& next.next_thread_msg_id.as_map()[tid as u128] == mid + 1
        }),
{
    let replier = members.user_at_addr(sender).id;
    let f = s.reply_fee_parts(&members, replier, data);
    let creator_id = s.threads.as_map()[data.thread_id as u128].creator_user_id;
    let c = members.user_at_id(creator_id);
    let target = s.reply_target(data);
    let to = members.user_at_id(target);
    let msgs = r->Ok_0@;
    lemma_five_payments(
        msgs,
        f,
        Action::Distribute {
            membership_issuer_user_id: target,
            index_increment: index_increment(f.2 as u128, supply_of(to)),
            amount: f.2 as u128,
        },
        Action::Transfer { to: Recipient::Address(to.addr), amount: f.1 as u128 },
        Action::Transfer { to: Recipient::Address(s.config.protocol_fee_collector_addr), amount: f.0 as u128 },
        Action::Distribute { membership_issuer_user_id: creator_id, index_increment: index_increment(f.4 as u128, supply_of(c)), amount: f.4 as u128 },
        Action::Transfer { to: Recipient::Address(c.addr), amount: f.3 as u128 },
    );
}

} // verus!
