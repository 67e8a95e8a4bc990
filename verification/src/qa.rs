//! Question-and-answer threads: a key holder asks a key issuer, paying a fee that
//! grows with the price of the issuer's key and the length of the question; the
//! issuer answers for free.
use vstd::prelude::*;
use vstd::string::StrSliceExecFns;
use crate::action::{Action, Recipient};
use crate::error::{ContractError, StoredItem};
use crate::fees::supply_of;
use crate::math::{calculate_price, multiply_percentage, price_computable, price_spec};
use crate::member::MemberRegistry;
use crate::ordered_map::{pair_key, pair_key_exec, OrderedMap};

verus! {

/// How the ask fee of a key is set and shared, in percentages.
#[derive(Debug, Clone, Copy, PartialEq, Eq)]
pub struct QaFeeConfig {
    /// Ask fee per 50 characters, as a percentage of the price of one key.
    pub ask_fee_in_key_price_percentage: u64,
    pub key_issuer_fee_percentage: u64,
    pub key_holder_fee_percentage: u64,
    pub protocol_fee_percentage: u64,
}

/// Limits and fee collector of question-and-answer threads.
#[derive(Debug, PartialEq, Eq)]
pub struct QaConfig {
    pub max_qa_thread_title_length: u64,
    pub max_qa_thread_msg_length: u64,
    pub protocol_fee_collector_addr: String,
}

/// A question-and-answer thread.
#[derive(Debug, PartialEq, Eq)]
pub struct QaThread {
    pub id: u64,
    pub title: String,
    pub description: String,
    /// The key issuer asked.
    pub ask_to_addr: String,
}

/// A question.
#[derive(Debug, PartialEq, Eq)]
pub struct Question {
    pub id: u64,
    pub qa_thread_id: u64,
    pub ask_by_addr: String,
    pub content: String,
}

/// An answer.
#[derive(Debug, PartialEq, Eq)]
pub struct Answer {
    pub id: u64,
    pub qa_thread_id: u64,
    pub answer_by_addr: String,
    pub content: String,
    pub reply_to_question_id: u64,
}

/// A message of a question-and-answer thread.
#[derive(Debug, PartialEq, Eq)]
pub enum QaThreadMsg {
    Question(Question),
    Answer(Answer),
}

/// A question, in a new thread or an existing one.
#[derive(Debug, PartialEq, Eq)]
pub struct AskMsg {
    pub start_new_qa_thread: Option<bool>,
    pub qa_thread_title: Option<String>,
    pub qa_thread_description: Option<String>,
    pub qa_thread_id: Option<u64>,
    pub ask_to_addr: String,
    pub content: String,
}

/// An answer to a question.
#[derive(Debug, PartialEq, Eq)]
pub struct AnswerMsg {
    pub qa_thread_id: u64,
    pub question_id: u64,
    pub content: String,
}

/// The cost of asking a key issuer a question of `content_len` characters.
#[derive(Debug, PartialEq, Eq)]
pub struct QuerySimulateAskMsg {
    pub ask_to_addr: String,
    pub content_len: u128,
}

/// The fees of a question and their total.
#[derive(Debug, Clone, Copy, PartialEq, Eq)]
pub struct SimulateAskResponse {
    pub protocol_fee: u128,
    pub key_issuer_fee: u128,
    pub key_holder_fee: u128,
    pub total_needed_from_user: u128,
}

/// State of question-and-answer threads.
pub struct QaBoard {
    pub config: QaConfig,
    /// Ask fee settings of key issuers, by user id.
    pub qa_fee_configs: OrderedMap<QaFeeConfig>,
    /// Id of the next thread.
    pub next_qa_thread_id: u64,
    /// Id of the next message, by thread id.
    pub next_qa_thread_msg_id: OrderedMap<u64>,
    /// Threads, by id.
    pub qa_threads: OrderedMap<QaThread>,
    /// Messages, by `(thread id, message id)`.
    pub qa_threads_msgs: OrderedMap<QaThreadMsg>,
    /// The thread id, by `(user id, thread id)`, of each thread a user belongs to.
    pub users_belong_to: OrderedMap<u64>,
}

/// The ask price of a question of `content_len` characters: the price of one key
/// at `supply`, times the ask percentage over 100, times the length over 50, each
/// division rounding down.
pub open spec fn ask_price(supply: nat, fc: QaFeeConfig, content_len: nat) -> nat {
    price_spec(supply, 1) * (fc.ask_fee_in_key_price_percentage as nat) / 100 * content_len / 50
}

/// The fees of a question: (protocol, key issuer, key holders, total with the price).
pub open spec fn simulated_ask(supply: nat, fc: QaFeeConfig, content_len: nat) -> (nat, nat, nat, nat) {
    let price = ask_price(supply, fc, content_len);
    let protocol = price * (fc.protocol_fee_percentage as nat) / 100;
    let issuer = price * (fc.key_issuer_fee_percentage as nat) / 100;
    let holders = price * (fc.key_holder_fee_percentage as nat) / 100;
    (protocol, issuer, holders, price + protocol + issuer + holders)
}

/// Whether the fees of a question stay within `u128` at every step.
pub open spec fn simulated_ask_computable(supply: nat, fc: QaFeeConfig, content_len: nat) -> bool {
    let single = price_spec(supply, 1);
    let price = ask_price(supply, fc, content_len);
    &&& price_computable(supply, 1)
    &&& single * fc.ask_fee_in_key_price_percentage <= u128::MAX
    &&& single * fc.ask_fee_in_key_price_percentage / 100 * content_len <= u128::MAX
    &&& price * fc.protocol_fee_percentage <= u128::MAX
    &&& price * fc.key_issuer_fee_percentage <= u128::MAX
    &&& price * fc.key_holder_fee_percentage <= u128::MAX
    &&& simulated_ask(supply, fc, content_len).3 <= u128::MAX
}

/// The length of an optional text, zero when absent.
pub open spec fn text_len(t: Option<String>) -> nat {
    match t {
        Some(s) => s@.len(),
        None => 0,
    }
}

/// Whether a question starts a new thread.
pub open spec fn starts_qa_thread(data: AskMsg) -> bool {
    data.start_new_qa_thread == Some(true)
}

impl QaBoard {
    /// Whether the key issuer at `addr` can be priced: registered, with an issued key
    /// and ask fee settings.
    pub open spec fn priced(&self, members: &MemberRegistry, addr: Seq<char>) -> bool {
        let u = members.user_at_addr(addr);
        members.addr_registered(addr) ==> u.membership_issued_by_me is Some && self.qa_fee_configs.as_map().contains_key(
            u.id as u128,
        )
    }

    /// The fees of asking the issuer at `addr` a question of `content_len` characters.
    pub open spec fn ask_fees(&self, members: &MemberRegistry, addr: Seq<char>, content_len: nat) -> (nat, nat, nat, nat) {
        let u = members.user_at_addr(addr);
        simulated_ask(supply_of(u) as nat, self.qa_fee_configs.as_map()[u.id as u128], content_len)
    }

    /// Whether those fees can be computed.
    pub open spec fn ask_fees_computable(&self, members: &MemberRegistry, addr: Seq<char>, content_len: nat) -> bool {
        let u = members.user_at_addr(addr);
        members.addr_registered(addr) ==> simulated_ask_computable(
            supply_of(u) as nat,
            self.qa_fee_configs.as_map()[u.id as u128],
            content_len,
        )
    }

    /// The fees of a question to a key issuer; fails when no user has its address.
    pub fn query_simulate_ask(&self, members: &MemberRegistry, data: &QuerySimulateAskMsg) -> (r: Result<SimulateAskResponse, ContractError>)
        requires
            members.wf(),
            self.priced(members, data.ask_to_addr@),
            self.ask_fees_computable(members, data.ask_to_addr@, data.content_len as nat),
        ensures
            match r {
                Err(e) => e == ContractError::NotFound(StoredItem::User) && !members.addr_registered(data.ask_to_addr@),
                Ok(resp) => {
                    let f = self.ask_fees(members, data.ask_to_addr@, data.content_len as nat);
                    &&& members.addr_registered(data.ask_to_addr@)
                    &&& resp == SimulateAskResponse {
                        protocol_fee: f.0 as u128,
                        key_issuer_fee: f.1 as u128,
                        key_holder_fee: f.2 as u128,
                        total_needed_from_user: f.3 as u128,
                    }
                },
            },
    {
        let (id, supply) = match members.user_by_addr(&data.ask_to_addr) {
            Some(u) => (u.id, u.membership_issued_by_me.unwrap().membership_supply),
            None => return Err(ContractError::NotFound(StoredItem::User)),
        };
        let fc = *self.qa_fee_configs.get(id as u128).unwrap();
        let single = calculate_price(supply, 1);
        let price = single * (fc.ask_fee_in_key_price_percentage as u128) / 100 * data.content_len / 50;
        let key_issuer_fee = multiply_percentage(price, fc.key_issuer_fee_percentage);
        let key_holder_fee = multiply_percentage(price, fc.key_holder_fee_percentage);
        let protocol_fee = multiply_percentage(price, fc.protocol_fee_percentage);
        let total_needed_from_user = price + protocol_fee + key_issuer_fee + key_holder_fee;
        Ok(SimulateAskResponse { protocol_fee, key_issuer_fee, key_holder_fee, total_needed_from_user })
    }

    /// How many keys of the issuer at `issuer` the user at `holder` holds; none when
    /// either has no user.
    pub open spec fn held(members: &MemberRegistry, holder: Seq<char>, issuer: Seq<char>) -> u128 {
        if members.addr_registered(holder) && members.addr_registered(issuer) {
            members.holding(members.user_at_addr(holder).id, members.user_at_addr(issuer).id)
        } else {
            0
        }
    }

    /// The thread a question goes to.
    pub open spec fn ask_thread_id(&self, data: AskMsg) -> u64 {
        if starts_qa_thread(data) {
            self.next_qa_thread_id
        } else {
            data.qa_thread_id.unwrap()
        }
    }

    /// The id the question gets within its thread.
    pub open spec fn ask_msg_id(&self, data: AskMsg) -> u64 {
        if starts_qa_thread(data) {
            1
        } else {
            self.next_qa_thread_msg_id.as_map()[data.qa_thread_id.unwrap() as u128]
        }
    }

    /// Why asking fails, checked in this order.
    pub open spec fn ask_failure(&self, members: &MemberRegistry, sender: Seq<char>, data: AskMsg, paid: u128) -> Option<ContractError> {
        let c = self.config;
        let f = self.ask_fees(members, data.ask_to_addr@, data.content@.len());
        let tid = self.ask_thread_id(data);
        if Self::held(members, sender, data.ask_to_addr@) == 0 {
            Some(ContractError::UserMustHoldKeyToAsk)
        } else if text_len(data.qa_thread_title) > c.max_qa_thread_title_length {
            Some(ContractError::QaThreadTitleTooLong { max: c.max_qa_thread_title_length, actual: text_len(data.qa_thread_title) as u64 })
        } else if data.content@.len() > c.max_qa_thread_msg_length {
            Some(ContractError::QaThreadMsgContentTooLong { max: c.max_qa_thread_msg_length, actual: data.content@.len() as u64 })
        } else if f.3 > paid {
            Some(ContractError::InsufficientFundsToPayDuringAsk { needed: f.3 as u128, available: paid })
        } else if !starts_qa_thread(data) && !self.next_qa_thread_msg_id.as_map().contains_key(tid as u128) {
            Some(ContractError::NotFound(StoredItem::NextQaThreadMsgId))
        } else if starts_qa_thread(data) && self.qa_threads.as_map().contains_key(tid as u128) {
            Some(ContractError::QaThreadAlreadyExist)
        } else if self.qa_threads_msgs.as_map().contains_key(pair_key(tid, self.ask_msg_id(data))) {
            Some(ContractError::QaThreadMsgAlreadyExist)
        } else {
            None
        }
    }

    /// Whether a question, where it gets to each step, does not panic: the issuer
    /// asked can be priced, the fees and counters stay within their integer ranges,
    /// the thread to ask in is named and a new thread has a title and a description.
    pub open spec fn ask_computable(&self, members: &MemberRegistry, sender: Seq<char>, data: AskMsg, paid: u128) -> bool {
        let c = self.config;
        let reaches_cost = Self::held(members, sender, data.ask_to_addr@) != 0 && text_len(data.qa_thread_title)
            <= c.max_qa_thread_title_length && data.content@.len() <= c.max_qa_thread_msg_length;
        &&& data.content@.len() <= u64::MAX
        &&& reaches_cost ==> self.priced(members, data.ask_to_addr@) && self.ask_fees_computable(
            members,
            data.ask_to_addr@,
            data.content@.len(),
        )
        &&& reaches_cost && !starts_qa_thread(data) ==> data.qa_thread_id is Some
        &&& self.ask_failure(members, sender, data, paid) is None ==> {
            &&& starts_qa_thread(data) ==> data.qa_thread_title is Some && data.qa_thread_description is Some
                && self.next_qa_thread_id < u64::MAX
            &&& !starts_qa_thread(data) ==> self.ask_msg_id(data) < u64::MAX
        }
    }

    /// Asks the key issuer at `data.ask_to_addr` a question, in a new thread or an
    /// existing one. The asker must hold the issuer's key and pay the fees; the issuer
    /// and the protocol are paid their shares. Asker and issuer then belong to the
    /// thread. On failure nothing changes.
    pub fn ask(&mut self, members: &MemberRegistry, sender: &String, data: AskMsg, user_paid_amount: u128) -> (r: Result<Vec<Action>, ContractError>)
        requires
            members.wf(),
            old(self).ask_computable(members, sender@, data, user_paid_amount),
        ensures
            match r {
                Err(e) => old(self).ask_failure(members, sender@, data, user_paid_amount) == Some(e) && *final(self) == *old(self),
                Ok(msgs) => {
                    let tid = old(self).ask_thread_id(data);
                    let mid = old(self).ask_msg_id(data);
                    let new = starts_qa_thread(data);
                    let f = old(self).ask_fees(members, data.ask_to_addr@, data.content@.len());
                    let asker_id = members.user_at_addr(sender@).id;
                    let ask_to_id = members.user_at_addr(data.ask_to_addr@).id;
                    &&& old(self).ask_failure(members, sender@, data, user_paid_amount) is None
                    &&& final(self).qa_threads.as_map() == if new {
                        old(self).qa_threads.as_map().insert(
                            tid as u128,
                            QaThread {
                                id: tid,
                                title: data.qa_thread_title.unwrap(),
                                description: data.qa_thread_description.unwrap(),
                                ask_to_addr: data.ask_to_addr,
                            },
                        )
                    } else {
                        old(self).qa_threads.as_map()
                    }
                    &&& final(self).next_qa_thread_id == if new {
                        (old(self).next_qa_thread_id + 1) as u64
                    } else {
                        old(self).next_qa_thread_id
                    }
                    &&& final(self).next_qa_thread_msg_id.as_map() == old(self).next_qa_thread_msg_id.as_map().insert(
                        tid as u128,
                        (mid + 1) as u64,
                    )
                    &&& final(self).users_belong_to.as_map() == old(self).users_belong_to.as_map().insert(
                        pair_key(asker_id, tid),
                        tid,
                    ).insert(pair_key(ask_to_id, tid), tid)
                    &&& final(self).qa_threads_msgs.as_map() == old(self).qa_threads_msgs.as_map().insert(
                        pair_key(tid, mid),
                        QaThreadMsg::Question(Question { id: mid, qa_thread_id: tid, ask_by_addr: *sender, content: data.content }),
                    )
                    &&& final(self).config == old(self).config
                    &&& final(self).qa_fee_configs == old(self).qa_fee_configs
                    &&& msgs@ == seq![
                        Action::Transfer { to: Recipient::Address(data.ask_to_addr), amount: f.1 as u128 },
                        Action::Transfer { to: Recipient::Address(old(self).config.protocol_fee_collector_addr), amount: f.0 as u128 },
                    ]
                },
            },
    {
        let asker_id = match members.user_by_addr(sender) {
            Some(u) => Some(u.id),
            None => None,
        };
        let ask_to_id = match members.user_by_addr(&data.ask_to_addr) {
            Some(u) => Some(u.id),
            None => None,
        };
        let (asker_id, ask_to_id) = match (asker_id, ask_to_id) {
            (Some(a), Some(b)) => {
                if members.holding_of(a, b) == 0 {
                    return Err(ContractError::UserMustHoldKeyToAsk);
                }
                (a, b)
            },
            _ => return Err(ContractError::UserMustHoldKeyToAsk),
        };
        let title_len = match &data.qa_thread_title {
            Some(t) => t.as_str().unicode_len() as u64,
            None => 0,
        };
        if title_len > self.config.max_qa_thread_title_length {
            return Err(ContractError::QaThreadTitleTooLong { max: self.config.max_qa_thread_title_length, actual: title_len });
        }
        let content_len = data.content.as_str().unicode_len() as u64;
        if content_len > self.config.max_qa_thread_msg_length {
            return Err(ContractError::QaThreadMsgContentTooLong { max: self.config.max_qa_thread_msg_length, actual: content_len });
        }
        let cost = match self.query_simulate_ask(
            members,
            &QuerySimulateAskMsg { ask_to_addr: data.ask_to_addr.clone(), content_len: content_len as u128 },
        ) {
            Ok(c) => c,
            Err(e) => return Err(e),
        };
        if cost.total_needed_from_user > user_paid_amount {
            return Err(
                ContractError::InsufficientFundsToPayDuringAsk { needed: cost.total_needed_from_user, available: user_paid_amount },
            );
        }
        let new = match data.start_new_qa_thread {
            Some(b) => b,
            None => false,
        };
        let (tid, mid) = if new {
            (self.next_qa_thread_id, 1u64)
        } else {
            let t = data.qa_thread_id.unwrap();
            match self.next_qa_thread_msg_id.get(t as u128) {
                Some(n) => (t, *n),
                None => return Err(ContractError::NotFound(StoredItem::NextQaThreadMsgId)),
            }
        };
        if new && self.qa_threads.contains(tid as u128) {
            return Err(ContractError::QaThreadAlreadyExist);
        }
        if self.qa_threads_msgs.contains(pair_key_exec(tid, mid)) {
            return Err(ContractError::QaThreadMsgAlreadyExist);
        }
        if new {
            self.qa_threads.insert(
                tid as u128,
                QaThread {
                    id: tid,
                    title: data.qa_thread_title.unwrap(),
                    description: data.qa_thread_description.unwrap(),
                    ask_to_addr: data.ask_to_addr.clone(),
                },
            );
            self.next_qa_thread_id = tid + 1;
        }
        self.next_qa_thread_msg_id.insert(tid as u128, mid + 1);
        self.users_belong_to.insert(pair_key_exec(asker_id, tid), tid);
        self.users_belong_to.insert(pair_key_exec(ask_to_id, tid), tid);
        self.qa_threads_msgs.insert(
            pair_key_exec(tid, mid),
            QaThreadMsg::Question(Question { id: mid, qa_thread_id: tid, ask_by_addr: sender.clone(), content: data.content }),
        );
        let mut msgs: Vec<Action> = Vec::new();
        msgs.push(Action::Transfer { to: Recipient::Address(data.ask_to_addr), amount: cost.key_issuer_fee });
        msgs.push(
            Action::Transfer {
                to: Recipient::Address(self.config.protocol_fee_collector_addr.clone()),
                amount: cost.protocol_fee,
            },
        );
        proof {
            assert(msgs@ =~= seq![
                Action::Transfer { to: Recipient::Address(data.ask_to_addr), amount: cost.key_issuer_fee },
                Action::Transfer { to: Recipient::Address(old(self).config.protocol_fee_collector_addr), amount: cost.protocol_fee },
            ]);
        }
        Ok(msgs)
    }

    /// Why answering fails, checked in this order: the thread does not exist, the
    /// sender is not the issuer asked, the thread has no message counter, the answer
    /// is too long, a message is already stored under the thread's next message id.
    pub open spec fn answer_failure(&self, sender: Seq<char>, data: AnswerMsg) -> Option<ContractError> {
        let t = self.qa_threads.as_map()[data.qa_thread_id as u128];
        let next = self.next_qa_thread_msg_id.as_map();
        if !self.qa_threads.as_map().contains_key(data.qa_thread_id as u128) {
            Some(ContractError::NotFound(StoredItem::QaThread))
        } else if t.ask_to_addr@ != sender {
            Some(ContractError::OnlyKeyIssuerCanAnswer)
        } else if !next.contains_key(data.qa_thread_id as u128) {
            Some(ContractError::NotFound(StoredItem::NextQaThreadMsgId))
        } else if data.content@.len() > self.config.max_qa_thread_msg_length {
            Some(ContractError::QaThreadMsgContentTooLong { max: self.config.max_qa_thread_msg_length, actual: data.content@.len() as u64 })
        } else if self.qa_threads_msgs.as_map().contains_key(pair_key(data.qa_thread_id, next[data.qa_thread_id as u128])) {
            Some(ContractError::QaThreadMsgAlreadyExist)
        } else {
            None
        }
    }

    /// The key issuer asked in a thread answers a question. The answer takes the
    /// thread's next message id, under which it is stored, and the counter moves past
    /// it; a question may be answered more than once. On failure nothing changes.
    pub fn answer(&mut self, sender: &String, data: AnswerMsg) -> (r: Result<(), ContractError>)
        requires
            data.content@.len() <= u64::MAX,
            old(self).answer_failure(sender@, data) is None ==> old(self).next_qa_thread_msg_id.as_map()[data.qa_thread_id as u128]
                < u64::MAX,
        ensures
            match r {
                Err(e) => old(self).answer_failure(sender@, data) == Some(e) && *final(self) == *old(self),
                Ok(()) => {
                    let next = old(self).next_qa_thread_msg_id.as_map();
                    let mid = next[data.qa_thread_id as u128];
                    &&& old(self).answer_failure(sender@, data) is None
                    &&& final(self).next_qa_thread_msg_id.as_map() == next.insert(data.qa_thread_id as u128, (mid + 1) as u64)
                    &&& final(self).qa_threads_msgs.as_map() == old(self).qa_threads_msgs.as_map().insert(
                        pair_key(data.qa_thread_id, mid),
                        QaThreadMsg::Answer(
                            Answer {
                                id: mid,
                                qa_thread_id: data.qa_thread_id,
                                answer_by_addr: *sender,
                                content: data.content,
                                reply_to_question_id: data.question_id,
                            },
                        ),
                    )
                    &&& final(self).qa_threads == old(self).qa_threads
                    &&& final(self).next_qa_thread_id == old(self).next_qa_thread_id
                    &&& final(self).users_belong_to == old(self).users_belong_to
                    &&& final(self).config == old(self).config
                    &&& final(self).qa_fee_configs == old(self).qa_fee_configs
                },
            },
    {
        let ask_to_ok = match self.qa_threads.get(data.qa_thread_id as u128) {
            Some(t) => t.ask_to_addr == *sender,
            None => return Err(ContractError::NotFound(StoredItem::QaThread)),
        };
        if !ask_to_ok {
            return Err(ContractError::OnlyKeyIssuerCanAnswer);
        }
        let msg_id = match self.next_qa_thread_msg_id.get(data.qa_thread_id as u128) {
            Some(n) => *n,
            None => return Err(ContractError::NotFound(StoredItem::NextQaThreadMsgId)),
        };
        let content_len = data.content.as_str().unicode_len() as u64;
        if content_len > self.config.max_qa_thread_msg_length {
            return Err(ContractError::QaThreadMsgContentTooLong { max: self.config.max_qa_thread_msg_length, actual: content_len });
        }
        let k = pair_key_exec(data.qa_thread_id, msg_id);
        if self.qa_threads_msgs.contains(k) {
            return Err(ContractError::QaThreadMsgAlreadyExist);
        }
        self.next_qa_thread_msg_id.insert(data.qa_thread_id as u128, msg_id + 1);
        self.qa_threads_msgs.insert(
            k,
            QaThreadMsg::Answer(
                Answer {
                    id: msg_id,
                    qa_thread_id: data.qa_thread_id,
                    answer_by_addr: sender.clone(),
                    content: data.content,
                    reply_to_question_id: data.question_id,
                },
            ),
        );
        Ok(())
    }
}

} // verus!
