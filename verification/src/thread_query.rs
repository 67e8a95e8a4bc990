//! Queries on the thread contract: paginated ids, threads and messages by id,
//! configurations.
use vstd::prelude::*;
use crate::board::{Thread, ThreadAnswerMsg, ThreadMsg, ThreadQuestionMsg, ThreadReplyMsg, ThreadState};
use crate::config::{Config, UserConfig};
use crate::error::{ContractError, StoredItem};
use crate::ordered_map::{first_n, pair_key, pair_key_exec, pair_low, pair_parts, window_entries};

verus! {

/// Page size when none is given.
pub const DEFAULT_QUERY_LIMIT: u32 = 5;

/// Largest page size.
pub const MAX_QUERY_LIMIT: u32 = 25;

/// The page size for a requested limit.
pub open spec fn page_size(limit: Option<u32>) -> nat {
    let l = match limit {
        Some(l) => l,
        None => DEFAULT_QUERY_LIMIT,
    };
    if l < MAX_QUERY_LIMIT { l as nat } else { MAX_QUERY_LIMIT as nat }
}

pub(crate) fn page_size_exec(limit: Option<u32>) -> (n: usize)
    ensures
        n == page_size(limit),
{
    let l = match limit {
        Some(l) => l,
        None => DEFAULT_QUERY_LIMIT,
    };
    if l < MAX_QUERY_LIMIT { l as usize } else { MAX_QUERY_LIMIT as usize }
}

/// A page of the threads a user took part in.
#[derive(Debug, Clone, Copy, PartialEq, Eq)]
pub struct QueryIDsOfAllThreadsUserParticipatedMsg {
    pub user_id: u64,
    pub start_after_thread_id: Option<u64>,
    pub limit: Option<u32>,
    pub include_start_after: Option<bool>,
}

/// A page of the threads a user created.
#[derive(Debug, Clone, Copy, PartialEq, Eq)]
pub struct QueryIDsOfAllThreadsUserCreatedMsg {
    pub user_id: u64,
    pub start_after_thread_id: Option<u64>,
    pub limit: Option<u32>,
    pub include_start_after: Option<bool>,
}

/// A page of the messages of a thread.
#[derive(Debug, Clone, Copy, PartialEq, Eq)]
pub struct QueryIDsOfAllThreadMsgsInThreadMsg {
    pub thread_id: u64,
    pub start_after_thread_msg_id: Option<u64>,
    pub limit: Option<u32>,
    pub include_start_after: Option<bool>,
}

/// A page of the ids of threads a user took part in, its length and the total.
#[derive(Debug, PartialEq, Eq)]
pub struct IDsOfAllThreadsUserParticipatedResponse {
    pub thread_ids: Vec<u64>,
    pub count: usize,
    pub total_count: usize,
}

/// A page of the ids of threads a user created, its length and the total.
#[derive(Debug, PartialEq, Eq)]
pub struct IDsOfAllThreadsUserCreatedResponse {
    pub thread_ids: Vec<u64>,
    pub count: usize,
    pub total_count: usize,
}

/// A page of the ids of messages of a thread, its length and the total.
#[derive(Debug, PartialEq, Eq)]
pub struct IDsOfAllThreadMsgsInThreadResponse {
    pub thread_msg_ids: Vec<u64>,
    pub count: usize,
    pub total_count: usize,
}

/// The window of composite keys a page covers: the pairs of `prefix`, from the
/// given start on when there is one.
pub open spec fn page_window(prefix: u64, start_after: Option<u64>, include_start_after: Option<bool>) -> (u128, bool, u128) {
    match start_after {
        Some(s) => (pair_key(prefix, s), include_start_after != Some(true), pair_key(prefix, u64::MAX)),
        None => (pair_key(prefix, 0), false, pair_key(prefix, u64::MAX)),
    }
}

/// The second components of the keys of the first `n` entries of a window.
pub open spec fn page_ids<T>(entries: Seq<(u128, T)>, w: (u128, bool, u128), n: nat) -> Seq<u64> {
    first_n(window_entries(entries, w.0, w.1, w.2), n).map_values(|e: (u128, T)| pair_low(e.0))
}

pub(crate) fn page_window_exec(prefix: u64, start_after: Option<u64>, include_start_after: Option<bool>) -> (w: (u128, bool, u128))
    ensures
        w == page_window(prefix, start_after, include_start_after),
{
    match start_after {
        Some(s) => {
            let inclusive = match include_start_after {
                Some(b) => b,
                None => false,
            };
            (pair_key_exec(prefix, s), !inclusive, pair_key_exec(prefix, u64::MAX))
        },
        None => (pair_key_exec(prefix, 0), false, pair_key_exec(prefix, u64::MAX)),
    }
}

fn low_parts(keys: Vec<u128>) -> (ids: Vec<u64>)
    ensures
        ids@ == keys@.map_values(|k: u128| pair_low(k)),
{
    let mut ids: Vec<u64> = Vec::new();
    let mut i: usize = 0;
    while i < keys.len()
        invariant
            i <= keys@.len(),
            ids@ == keys@.take(i as int).map_values(|k: u128| pair_low(k)),
        decreases keys@.len() - i,
    {
        let (_, low) = pair_parts(keys[i]);
        ids.push(low);
        proof {
            let f = |k: u128| pair_low(k);
            assert(keys@.take(i + 1).map_values(f) =~= keys@.take(i as int).map_values(f).push(f(keys@[i as int])));
        }
        i = i + 1;
    }
    proof {
        assert(keys@.take(keys@.len() as int) =~= keys@);
    }
    ids
}

impl ThreadState {
    fn ids_page(entries: &crate::ordered_map::OrderedMap<bool>, prefix: u64, start_after: Option<u64>, include_start_after: Option<bool>, limit: Option<u32>) -> (ids: Vec<u64>)
        ensures
            ids@ == page_ids(entries@, page_window(prefix, start_after, include_start_after), page_size(limit)),
    {
        let w = page_window_exec(prefix, start_after, include_start_after);
        let keys = entries.window_keys(w.0, w.1, w.2, page_size_exec(limit));
        let ids = low_parts(keys);
        proof {
            let s = first_n(window_entries(entries@, w.0, w.1, w.2), page_size(limit) as nat);
            assert(ids@ =~= s.map_values(|e: (u128, bool)| pair_low(e.0)));
        }
        ids
    }

    /// The ids of threads a user took part in, a page at a time, in increasing order;
    /// the total is the user's count of threads taken part in. Only the user's own
    /// threads are listed, starting after a given thread id.
    pub fn query_ids_of_all_threads_user_participated(&self, data: QueryIDsOfAllThreadsUserParticipatedMsg) -> (r: Result<
        IDsOfAllThreadsUserParticipatedResponse,
        ContractError,
    >)
        ensures
            match r {
                Ok(p) => {
                    &&& self.user_thread_stats.as_map().contains_key(data.user_id as u128)
                    &&& p.thread_ids@ == page_ids(
                        self.users_participated_threads@,
                        page_window(data.user_id, data.start_after_thread_id, data.include_start_after),
                        page_size(data.limit),
                    )
                    &&& p.count == p.thread_ids@.len()
                    &&& p.total_count == self.user_thread_stats.as_map()[data.user_id as u128].1 as usize
                },
                Err(e) => e == ContractError::NotFound(StoredItem::UserThreadStats) && !self.user_thread_stats.as_map().contains_key(
                    data.user_id as u128,
                ),
            },
    {
        let ids = Self::ids_page(
            &self.users_participated_threads,
            data.user_id,
            data.start_after_thread_id,
            data.include_start_after,
            data.limit,
        );
        let total = match self.user_thread_stats.get(data.user_id as u128) {
            Some(s) => s.1 as usize,
            None => return Err(ContractError::NotFound(StoredItem::UserThreadStats)),
        };
        let count = ids.len();
        Ok(IDsOfAllThreadsUserParticipatedResponse { thread_ids: ids, count, total_count: total })
    }

    /// The ids of threads a user created, a page at a time, in increasing order; the
    /// total is the user's count of threads created.
    pub fn query_ids_of_all_threads_user_created(&self, data: QueryIDsOfAllThreadsUserCreatedMsg) -> (r: Result<
        IDsOfAllThreadsUserCreatedResponse,
        ContractError,
    >)
        ensures
            match r {
                Ok(p) => {
                    &&& self.user_thread_stats.as_map().contains_key(data.user_id as u128)
                    &&& p.thread_ids@ == page_ids(
                        self.users_created_threads@,
                        page_window(data.user_id, data.start_after_thread_id, data.include_start_after),
                        page_size(data.limit),
                    )
                    &&& p.count == p.thread_ids@.len()
                    &&& p.total_count == self.user_thread_stats.as_map()[data.user_id as u128].0 as usize
                },
                Err(e) => e == ContractError::NotFound(StoredItem::UserThreadStats) && !self.user_thread_stats.as_map().contains_key(
                    data.user_id as u128,
                ),
            },
    {
        let ids = Self::ids_page(
            &self.users_created_threads,
            data.user_id,
            data.start_after_thread_id,
            data.include_start_after,
            data.limit,
        );
        let total = match self.user_thread_stats.get(data.user_id as u128) {
            Some(s) => s.0 as usize,
            None => return Err(ContractError::NotFound(StoredItem::UserThreadStats)),
        };
        let count = ids.len();
        Ok(IDsOfAllThreadsUserCreatedResponse { thread_ids: ids, count, total_count: total })
    }

    /// The ids of the messages of a thread, a page at a time, in increasing order,
    /// starting after a message id when one is given, or at it when the request says
    /// so; the total is the number of messages of the thread.
    pub fn query_ids_of_all_thread_msgs_in_thread(&self, data: QueryIDsOfAllThreadMsgsInThreadMsg) -> (p: IDsOfAllThreadMsgsInThreadResponse)
        ensures
            p.thread_msg_ids@ == first_n(
                window_entries(
                    self.threads_msgs@,
                    page_window(data.thread_id, data.start_after_thread_msg_id, data.include_start_after).0,
                    page_window(data.thread_id, data.start_after_thread_msg_id, data.include_start_after).1,
                    page_window(data.thread_id, data.start_after_thread_msg_id, data.include_start_after).2,
                ),
                page_size(data.limit),
            ).map_values(|e: (u128, ThreadMsg)| pair_low(e.0)),
            p.count == p.thread_msg_ids@.len(),
            p.total_count == window_entries(self.threads_msgs@, pair_key(data.thread_id, 0), false, pair_key(data.thread_id, u64::MAX)).len(),
    {
        let lo = pair_key_exec(data.thread_id, 0);
        let hi = pair_key_exec(data.thread_id, u64::MAX);
        let total = self.threads_msgs.count_window(lo, false, hi);
        let w = page_window_exec(data.thread_id, data.start_after_thread_msg_id, data.include_start_after);
        let keys = self.threads_msgs.window_keys(w.0, w.1, w.2, page_size_exec(data.limit));
        let ids = low_parts(keys);
        proof {
            let s = first_n(window_entries(self.threads_msgs@, w.0, w.1, w.2), page_size(data.limit) as nat);
            assert(ids@ =~= s.map_values(|e: (u128, ThreadMsg)| pair_low(e.0)));
        }
        let count = ids.len();
        IDsOfAllThreadMsgsInThreadResponse { thread_msg_ids: ids, count, total_count: total }
    }

    /// The fee settings of a user.
    pub fn query_user_config(&self, user_id: u64) -> (r: Result<UserConfig, ContractError>)
        ensures
            match r {
                Ok(c) => self.user_configs.as_map().contains_key(user_id as u128) && c == self.user_configs.as_map()[user_id as u128],
                Err(e) => e == ContractError::NotFound(StoredItem::UserConfig) && !self.user_configs.as_map().contains_key(
                    user_id as u128,
                ),
            },
    {
        match self.user_configs.get(user_id as u128) {
            Some(c) => Ok(*c),
            None => Err(ContractError::NotFound(StoredItem::UserConfig)),
        }
    }

    /// The configuration.
    pub fn query_config(&self) -> (c: Config)
        ensures
            c == self.config,
    {
        self.config.duplicate()
    }

    /// The threads with the given ids, in the order given.
    pub fn query_threads_by_ids(&self, thread_ids: &Vec<u64>) -> (threads: Vec<Thread>)
        requires
            forall|i: int| 0 <= i < thread_ids@.len() ==> self.threads.as_map().contains_key(#[trigger] thread_ids@[i] as u128),
        ensures
            threads@.len() == thread_ids@.len(),
            forall|i: int|
                0 <= i < thread_ids@.len() ==> (#[trigger] threads@[i]).same_as(self.threads.as_map()[thread_ids@[i] as u128]),
    {
        let mut threads: Vec<Thread> = Vec::new();
        let mut i: usize = 0;
        while i < thread_ids.len()
            invariant
                i <= thread_ids@.len(),
                threads@.len() == i,
                forall|j: int| 0 <= j < thread_ids@.len() ==> self.threads.as_map().contains_key(#[trigger] thread_ids@[j] as u128),
                forall|j: int| 0 <= j < i ==> (#[trigger] threads@[j]).same_as(self.threads.as_map()[thread_ids@[j] as u128]),
            decreases thread_ids@.len() - i,
        {
            let t = self.threads.get(thread_ids[i] as u128).unwrap();
            threads.push(t.duplicate());
            i = i + 1;
        }
        threads
    }

    /// The messages with the given `(thread id, message id)` pairs, in the order given.
    pub fn query_thread_msgs_by_ids(&self, ids: &Vec<(u64, u64)>) -> (msgs: Vec<ThreadMsg>)
        requires
            forall|i: int| 0 <= i < ids@.len() ==> self.threads_msgs.as_map().contains_key(pair_key(#[trigger] ids@[i].0, ids@[i].1)),
        ensures
            msgs@.len() == ids@.len(),
            forall|i: int| 0 <= i < ids@.len() ==> #[trigger] msgs@[i] == self.threads_msgs.as_map()[pair_key(ids@[i].0, ids@[i].1)],
    {
        let mut msgs: Vec<ThreadMsg> = Vec::new();
        let mut i: usize = 0;
        while i < ids.len()
            invariant
                i <= ids@.len(),
                msgs@.len() == i,
                forall|j: int| 0 <= j < ids@.len() ==> self.threads_msgs.as_map().contains_key(pair_key(#[trigger] ids@[j].0, ids@[j].1)),
                forall|j: int| 0 <= j < i ==> #[trigger] msgs@[j] == self.threads_msgs.as_map()[pair_key(ids@[j].0, ids@[j].1)],
            decreases ids@.len() - i,
        {
            let (t, m) = ids[i];
            let msg = self.threads_msgs.get(pair_key_exec(t, m)).unwrap();
            msgs.push(msg.duplicate());
            i = i + 1;
        }
        msgs
    }
}

impl Thread {
    /// Whether two threads hold the same data.
    pub open spec fn same_as(&self, other: Thread) -> bool {
        &&& self.id == other.id
        &&& self.title == other.title
        &&& self.description == other.description
        &&& self.labels@ == other.labels@
        &&& self.creator_user_id == other.creator_user_id
        &&& self.updatable == other.updatable
        &&& self.deletable == other.deletable
    }

    /// A copy of the thread.
    pub fn duplicate(&self) -> (t: Thread)
        ensures
            t.same_as(*self),
    {
        let mut labels: Vec<String> = Vec::new();
        let mut i: usize = 0;
        while i < self.labels.len()
            invariant
                i <= self.labels@.len(),
                labels@ == self.labels@.take(i as int),
            decreases self.labels@.len() - i,
        {
            labels.push(self.labels[i].clone());
            proof {
                assert(self.labels@.take(i + 1) =~= self.labels@.take(i as int).push(self.labels@[i as int]));
            }
            i = i + 1;
        }
        proof {
            assert(self.labels@.take(self.labels@.len() as int) =~= self.labels@);
        }
        Thread {
            id: self.id,
            title: self.title.clone(),
            description: self.description.clone(),
            labels,
            creator_user_id: self.creator_user_id,
            updatable: self.updatable,
            deletable: self.deletable,
        }
    }
}

impl ThreadMsg {
    /// A copy of the message.
    pub fn duplicate(&self) -> (m: ThreadMsg)
        ensures
            m == *self,
    {
        match self {
            ThreadMsg::ThreadQuestionMsg(q) => ThreadMsg::ThreadQuestionMsg(
                ThreadQuestionMsg {
                    id: q.id,
                    thread_id: q.thread_id,
                    creator_user_id: q.creator_user_id,
                    content: q.content.clone(),
                    asked_to_user_id: q.asked_to_user_id,
                },
            ),
            ThreadMsg::ThreadAnswerMsg(a) => ThreadMsg::ThreadAnswerMsg(
                ThreadAnswerMsg {
                    id: a.id,
                    thread_id: a.thread_id,
                    creator_user_id: a.creator_user_id,
                    content: a.content.clone(),
                    answered_to_question_msg_id: a.answered_to_question_msg_id,
                },
            ),
            ThreadMsg::ThreadReplyMsg(r) => ThreadMsg::ThreadReplyMsg(
                ThreadReplyMsg {
                    id: r.id,
                    thread_id: r.thread_id,
                    creator_user_id: r.creator_user_id,
                    content: r.content.clone(),
                    reply_to_thread_msg_id: r.reply_to_thread_msg_id,
                },
            ),
        }
    }
}

} // verus!
