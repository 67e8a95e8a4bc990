//! Queries on the member contract: users, supplies, the holders of a membership and
//! the memberships of a user.
use vstd::prelude::*;
use vstd::string::StrSliceExecFns;
use crate::error::{ContractError, StoredItem};
use crate::fees::supply_of;
use crate::member::{MemberRegistry, Membership, Member, User};
use crate::ordered_map::{
    first_n, lemma_entries_map_at, lemma_window_in_map, pair_key, pair_key_exec, pair_low, pair_parts, strictly_sorted, window_entries,
};
use crate::thread_query::{page_size, page_size_exec, page_window, page_window_exec};

verus! {

/// A user.
#[derive(Debug, PartialEq, Eq)]
pub struct UserResponse {
    pub user: User,
}

/// The supply of a membership.
#[derive(Debug, Clone, Copy, PartialEq, Eq)]
pub struct KeySupplyResponse {
    pub supply: u128,
}

/// A page of the holders of an issuer's membership, after a holder id if given.
#[derive(Debug, Clone, Copy, PartialEq, Eq)]
pub struct QueryKeyHoldersMsg {
    pub membership_issuer_user_id: u64,
    pub start_after_user_id: Option<u64>,
    pub limit: Option<u32>,
}

/// A page of holders, its length and the number of all holders.
#[derive(Debug, PartialEq, Eq)]
pub struct KeyHoldersResponse {
    pub key_holders: Vec<Member>,
    pub count: usize,
    pub total_count: usize,
}

/// A page of the memberships a user holds, after an issuer id if given.
#[derive(Debug, Clone, Copy, PartialEq, Eq)]
pub struct QueryUserHoldingsMsg {
    pub user_id: u64,
    pub start_after_membership_issuer_user_id: Option<u64>,
    pub limit: Option<u32>,
}

/// A page of memberships, its length and the number of all the user's memberships.
#[derive(Debug, PartialEq, Eq)]
pub struct UserHoldingsResponse {
    pub user_holdings: Vec<Membership>,
    pub count: usize,
    pub total_count: usize,
}

/// A page of users in increasing id order, after (or from) an id if given.
#[derive(Debug, Clone, Copy, PartialEq, Eq)]
pub struct QueryUsersPaginatedByIDMsg {
    pub start_after_user_id: Option<u64>,
    pub limit: Option<u32>,
    pub include_start_after: Option<bool>,
}

/// A page of users, its length and the number of users ever registered.
#[derive(Debug, PartialEq, Eq)]
pub struct UsersResponse {
    pub users: Vec<User>,
    pub count: usize,
    pub total_count: usize,
}

/// The holder an entry `(issuer, holder) -> amount` describes.
pub open spec fn holder_of(e: (u128, u128)) -> Member {
    Member { member_user_id: pair_low(e.0), amount: e.1 }
}

/// The membership an entry `(holder, issuer) -> amount` describes.
pub open spec fn membership_of(e: (u128, u128)) -> Membership {
    Membership { issuer_user_id: pair_low(e.0), amount: e.1 }
}

/// The window of user ids a page covers.
pub open spec fn user_window(start_after: Option<u64>, include_start_after: Option<bool>) -> (u128, bool, u128) {
    match start_after {
        Some(s) => (s as u128, include_start_after != Some(true), u128::MAX),
        None => (0, false, u128::MAX),
    }
}

/// The number of entries whose first key component is `prefix`.
pub open spec fn prefix_count(s: Seq<(u128, u128)>, prefix: u64) -> nat {
    window_entries(s, pair_key(prefix, 0), false, pair_key(prefix, u64::MAX)).len()
}

fn pairs_page(entries: Vec<(u128, u128)>) -> (r: Vec<(u64, u128)>)
    ensures
        r@ == entries@.map_values(|e: (u128, u128)| (pair_low(e.0), e.1)),
{
    let mut r: Vec<(u64, u128)> = Vec::new();
    let mut i: usize = 0;
    while i < entries.len()
        invariant
            i <= entries@.len(),
            r@ == entries@.take(i as int).map_values(|e: (u128, u128)| (pair_low(e.0), e.1)),
        decreases entries@.len() - i,
    {
        let (k, v) = entries[i];
        let (_, low) = pair_parts(k);
        r.push((low, v));
        proof {
            let f = |e: (u128, u128)| (pair_low(e.0), e.1);
            assert(entries@.take(i + 1).map_values(f) =~= entries@.take(i as int).map_values(f).push(f(entries@[i as int])));
        }
        i = i + 1;
    }
    proof {
        assert(entries@.take(entries@.len() as int) =~= entries@);
    }
    r
}

/// A page of users in increasing address order, after (or from) an address if given.
#[derive(Debug, PartialEq, Eq)]
pub struct QueryUsersPaginatedByAddrMsg {
    pub start_after_user_addr: Option<String>,
    pub limit: Option<u32>,
    pub include_start_after: Option<bool>,
}

/// Whether text `a` comes strictly before text `b`: compared character by
/// character, a proper prefix first. This is the order of their UTF-8 bytes.
pub open spec fn text_lt(a: Seq<char>, b: Seq<char>) -> bool
    decreases a.len(),
{
    if a.len() == 0 {
        b.len() > 0
    } else if b.len() == 0 {
        false
    } else if a[0] != b[0] {
        (a[0] as int) < (b[0] as int)
    } else {
        text_lt(a.drop_first(), b.drop_first())
    }
}

/// No text comes before itself.
pub proof fn lemma_text_lt_irreflexive(a: Seq<char>)
    ensures
        !text_lt(a, a),
    decreases a.len(),
{
    if a.len() > 0 {
        lemma_text_lt_irreflexive(a.drop_first());
    }
}

/// The order of texts is transitive.
pub proof fn lemma_text_lt_transitive(a: Seq<char>, b: Seq<char>, c: Seq<char>)
    requires
        text_lt(a, b),
        text_lt(b, c),
    ensures
        text_lt(a, c),
    decreases a.len(),
{
    if a.len() > 0 && a[0] == b[0] && b[0] == c[0] {
        lemma_text_lt_transitive(a.drop_first(), b.drop_first(), c.drop_first());
    }
}

/// Of two different texts, one comes before the other.
pub proof fn lemma_text_lt_total(a: Seq<char>, b: Seq<char>)
    requires
        a != b,
    ensures
        text_lt(a, b) || text_lt(b, a),
    decreases a.len(),
{
    if a.len() > 0 && b.len() > 0 && a[0] == b[0] {
        if a.drop_first() == b.drop_first() {
            assert(a.drop_first().len() == a.len() - 1);
            assert(b.drop_first().len() == b.len() - 1);
            assert(a =~= b) by {
                assert forall|i: int| 0 <= i < a.len() implies a[i] == b[i] by {
                    if i > 0 {
                        assert(a[i] == a.drop_first()[i - 1]);
                        assert(b[i] == b.drop_first()[i - 1]);
                    }
                }
            }
        }
        lemma_text_lt_total(a.drop_first(), b.drop_first());
    } else if a.len() == 0 && b.len() == 0 {
        assert(a =~= b);
    } else if a.len() > 0 && b.len() > 0 {
        assert(a[0] as int != b[0] as int);
    }
}

fn text_less(a: &String, b: &String) -> (r: bool)
    ensures
        r == text_lt(a@, b@),
{
    let sa = a.as_str();
    let sb = b.as_str();
    let na = sa.unicode_len();
    let nb = sb.unicode_len();
    let mut i: usize = 0;
    proof {
        assert(a@.skip(0) =~= a@);
        assert(b@.skip(0) =~= b@);
    }
    while i < na && i < nb
        invariant
            i <= na,
            i <= nb,
            na == a@.len(),
            nb == b@.len(),
            sa@ == a@,
            sb@ == b@,
            text_lt(a@, b@) == text_lt(a@.skip(i as int), b@.skip(i as int)),
        decreases na - i,
    {
        let ca = sa.get_char(i);
        let cb = sb.get_char(i);
        proof {
            assert(a@.skip(i as int)[0] == ca);
            assert(b@.skip(i as int)[0] == cb);
            assert(a@.skip(i as int).drop_first() =~= a@.skip(i + 1));
            assert(b@.skip(i as int).drop_first() =~= b@.skip(i + 1));
        }
        if ca != cb {
            let lt = (ca as u32) < (cb as u32);
            assert(lt == ((ca as int) < (cb as int)));
            return lt;
        }
        i = i + 1;
    }
    proof {
        assert(a@.skip(i as int).len() == na - i);
        assert(b@.skip(i as int).len() == nb - i);
    }
    i == na && i < nb
}

/// Whether an address lies in the page window: after the start address, or from
/// it when it is included; every address when none is given.
pub open spec fn addr_in_window(addr: Seq<char>, start: Option<Seq<char>>, inclusive: bool) -> bool {
    match start {
        Some(s) => if inclusive {
            !text_lt(addr, s)
        } else {
            text_lt(s, addr)
        },
        None => true,
    }
}

/// Whether `page` is the page of the users in `entries` whose addresses lie in the
/// window: in increasing address order, at most `n` of them, and leaving out only
/// users whose addresses come after the last one, when the page is full.
pub open spec fn is_addr_page(entries: Seq<(u128, User)>, page: Seq<User>, start: Option<Seq<char>>, inclusive: bool, n: nat) -> bool {
    &&& page.len() <= n
    &&& forall|i: int|
        0 <= i < page.len() ==> (exists|j: int| 0 <= j < entries.len() && entries[j].1 == #[trigger] page[i]) && addr_in_window(
            page[i].addr@,
            start,
            inclusive,
        )
    &&& forall|i: int, k: int| 0 <= i < k < page.len() ==> text_lt(#[trigger] page[i].addr@, #[trigger] page[k].addr@)
    &&& forall|j: int|
        0 <= j < entries.len() && addr_in_window((#[trigger] entries[j]).1.addr@, start, inclusive) ==> (exists|i: int|
            0 <= i < page.len() && page[i] == entries[j].1) || (page.len() == n && (n == 0 || text_lt(page.last().addr@, entries[j].1.addr@)))
}

/// The view of an optional text.
pub open spec fn opt_text(o: Option<String>) -> Option<Seq<char>> {
    match o {
        Some(s) => Some(s@),
        None => None,
    }
}

/// Whether the user at position `j` can come next on a page that ends with `page`.
pub open spec fn addr_candidate(u: User, page: Seq<User>, start: Option<Seq<char>>, inclusive: bool) -> bool {
    addr_in_window(u.addr@, start, inclusive) && (page.len() == 0 || text_lt(page.last().addr@, u.addr@))
}

fn addr_in_window_exec(addr: &String, start: &Option<String>, inclusive: bool) -> (r: bool)
    ensures
        r == addr_in_window(addr@, opt_text(*start), inclusive),
{
    match start {
        Some(s) => if inclusive {
            !text_less(addr, s)
        } else {
            text_less(s, addr)
        },
        None => true,
    }
}

impl MemberRegistry {
    proof fn lemma_same_addr_same_user(&self, j1: int, j2: int)
        requires
            self.wf(),
            strictly_sorted(self.users@),
            0 <= j1 < self.users@.len(),
            0 <= j2 < self.users@.len(),
            self.users@[j1].1.addr@ == self.users@[j2].1.addr@,
        ensures
            self.users@[j1].1 == self.users@[j2].1,
    {
        lemma_entries_map_at(self.users@, j1);
        lemma_entries_map_at(self.users@, j2);
        let k1 = self.users@[j1].0;
        let k2 = self.users@[j2].0;
        assert(self.users.as_map()[k1].addr@ == self.users.as_map()[k2].addr@);
    }

    /// A page of users in increasing address order, after (or from) an address if
    /// given; the total is the number of ids handed out so far.
    pub fn query_users_paginated_by_addr(&self, data: &QueryUsersPaginatedByAddrMsg) -> (resp: UsersResponse)
        requires
            self.wf(),
            self.next_user_id >= 1,
        ensures
            is_addr_page(
                self.users@,
                resp.users@,
                opt_text(data.start_after_user_addr),
                data.include_start_after == Some(true),
                page_size(data.limit),
            ),
            resp.count == resp.users@.len(),
            resp.total_count == (self.next_user_id - 1) as usize,
    {
        let ghost start = opt_text(data.start_after_user_addr);
        let n = page_size_exec(data.limit);
        let inclusive = match data.include_start_after {
            Some(b) => b,
            None => false,
        };
        let ghost incl = inclusive;
        let len = self.users.len();
        let ghost es = self.users@;
        let mut page: Vec<User> = Vec::new();
        let mut done = false;
        while page.len() < n && !done
            invariant
                self.wf(),
                es == self.users@,
                strictly_sorted(es),
                len == es.len(),
                n == page_size(data.limit),
                incl == inclusive,
                incl == (data.include_start_after == Some(true)),
                start == opt_text(data.start_after_user_addr),
                page@.len() <= n,
                forall|i: int|
                    0 <= i < page@.len() ==> (exists|j: int| 0 <= j < es.len() && es[j].1 == #[trigger] page@[i]) && addr_in_window(
                        page@[i].addr@,
                        start,
                        incl,
                    ),
                forall|i: int, k: int| 0 <= i < k < page@.len() ==> text_lt(#[trigger] page@[i].addr@, #[trigger] page@[k].addr@),
                forall|j: int|
                    0 <= j < es.len() && addr_in_window((#[trigger] es[j]).1.addr@, start, incl) && !addr_candidate(
                        es[j].1,
                        page@,
                        start,
                        incl,
                    ) ==> exists|i: int| 0 <= i < page@.len() && page@[i] == es[j].1,
                done ==> forall|j: int| 0 <= j < es.len() ==> !addr_candidate(#[trigger] es[j].1, page@, start, incl),
            decreases n - page@.len() + (if done {
                0int
            } else {
                1int
            }),
        {
            let mut best: Option<usize> = None;
            let mut j: usize = 0;
            while j < len
                invariant
                    self.wf(),
                    es == self.users@,
                    strictly_sorted(es),
                    len == es.len(),
                    j <= len,
                    start == opt_text(data.start_after_user_addr),
                    incl == inclusive,
                    best matches Some(b) ==> b < j && addr_candidate(es[b as int].1, page@, start, incl),
                    forall|q: int|
                        0 <= q < j && addr_candidate(#[trigger] es[q].1, page@, start, incl) ==> (best matches Some(b) && !text_lt(
                            es[q].1.addr@,
                            es[b as int].1.addr@,
                        )),
                decreases len - j,
            {
                let e = self.users.entry_at(j);
                let in_w = addr_in_window_exec(&e.1.addr, &data.start_after_user_addr, inclusive);
                let above = if page.len() == 0 {
                    true
                } else {
                    text_less(&page[page.len() - 1].addr, &e.1.addr)
                };
                proof {
                    if page@.len() > 0 {
                        assert(page@[page@.len() - 1] == page@.last());
                    }
                    lemma_text_lt_irreflexive(es[j as int].1.addr@);
                    assert(in_w && above <==> addr_candidate(es[j as int].1, page@, start, incl));
                }
                if in_w && above {
                    match best {
                        None => {
                            best = Some(j);
                        },
                        Some(b) => {
                            let cur = self.users.entry_at(b);
                            if text_less(&e.1.addr, &cur.1.addr) {
                                proof {
                                    assert forall|q: int|
                                        0 <= q < j && addr_candidate(#[trigger] es[q].1, page@, start, incl) implies !text_lt(
                                        es[q].1.addr@,
                                        es[j as int].1.addr@,
                                    ) by {
                                        if text_lt(es[q].1.addr@, es[j as int].1.addr@) {
                                            lemma_text_lt_transitive(es[q].1.addr@, es[j as int].1.addr@, es[b as int].1.addr@);
                                        }
                                    }
                                    lemma_text_lt_irreflexive(es[j as int].1.addr@);
                                }
                                best = Some(j);
                            }
                        },
                    }
                }
                j = j + 1;
            }
            match best {
                None => {
                    done = true;
                },
                Some(b) => {
                    let ghost old_page = page@;
                    let chosen = self.users.entry_at(b).1.duplicate();
                    page.push(chosen);
                    proof {
                        let u = es[b as int].1;
                        assert(page@ == old_page.push(u));
                        assert(page@.last() == u);
                        assert forall|i: int, k: int| 0 <= i < k < page@.len() implies text_lt(
                            #[trigger] page@[i].addr@,
                            #[trigger] page@[k].addr@,
                        ) by {
                            if k == page@.len() - 1 && i < k {
                                assert(old_page.len() > 0);
                                assert(old_page.last() == old_page[old_page.len() - 1]);
                                if i < old_page.len() - 1 {
                                    lemma_text_lt_transitive(old_page[i].addr@, old_page.last().addr@, u.addr@);
                                }
                            }
                        }
                        assert forall|i: int| 0 <= i < page@.len() implies (exists|jj: int|
                            0 <= jj < es.len() && es[jj].1 == #[trigger] page@[i]) && addr_in_window(page@[i].addr@, start, incl) by {
                            if i == page@.len() - 1 {
                                assert(es[b as int].1 == page@[i]);
                            } else {
                                assert(page@[i] == old_page[i]);
                            }
                        }
                        assert forall|q: int|
                            0 <= q < es.len() && addr_in_window((#[trigger] es[q]).1.addr@, start, incl) && !addr_candidate(
                                es[q].1,
                                page@,
                                start,
                                incl,
                            ) implies exists|i: int| 0 <= i < page@.len() && page@[i] == es[q].1 by {
                            if addr_candidate(es[q].1, old_page, start, incl) {
                                assert(!text_lt(es[q].1.addr@, u.addr@));
                                assert(!text_lt(u.addr@, es[q].1.addr@));
                                if es[q].1.addr@ != u.addr@ {
                                    lemma_text_lt_total(es[q].1.addr@, u.addr@);
                                }
                                self.lemma_same_addr_same_user(q, b as int);
                                assert(page@[page@.len() - 1] == es[q].1);
                            } else {
                                let i = choose|i: int| 0 <= i < old_page.len() && old_page[i] == es[q].1;
                                assert(page@[i] == es[q].1);
                            }
                        }
                    }
                },
            }
        }
        proof {
            assert forall|jj: int|
                0 <= jj < es.len() && addr_in_window((#[trigger] es[jj]).1.addr@, start, incl) implies (exists|i: int|
                0 <= i < page@.len() && page@[i] == es[jj].1) || (page@.len() == n && (n == 0 || text_lt(
                page@.last().addr@,
                es[jj].1.addr@,
            ))) by {
                if !(exists|i: int| 0 <= i < page@.len() && page@[i] == es[jj].1) {
                    assert(addr_candidate(es[jj].1, page@, start, incl));
                }
            }
        }
        let count = page.len();
        UsersResponse { users: page, count, total_count: (self.next_user_id - 1) as usize }
    }

    /// The user with address `user_addr`.
    pub fn query_user_by_addr(&self, user_addr: &String) -> (r: Result<UserResponse, ContractError>)
        requires
            self.wf(),
        ensures
            match r {
                Ok(resp) => self.addr_registered(user_addr@) && resp.user == self.user_at_addr(user_addr@),
                Err(e) => e == ContractError::NotFound(StoredItem::User) && !self.addr_registered(user_addr@),
            },
    {
        match self.user_by_addr(user_addr) {
            Some(u) => Ok(UserResponse { user: u.duplicate() }),
            None => Err(ContractError::NotFound(StoredItem::User)),
        }
    }

    /// The user with address `user_addr`, as the thread contract asks for it.
    pub fn query_user(&self, user_addr: &String) -> (r: Result<UserResponse, ContractError>)
        requires
            self.wf(),
        ensures
            match r {
                Ok(resp) => self.addr_registered(user_addr@) && resp.user == self.user_at_addr(user_addr@),
                Err(e) => e == ContractError::NotFound(StoredItem::User) && !self.addr_registered(user_addr@),
            },
    {
        self.query_user_by_addr(user_addr)
    }

    /// The user with id `user_id`, which must be registered.
    pub fn query_user_by_id(&self, user_id: u64) -> (resp: UserResponse)
        requires
            self.id_registered(user_id),
        ensures
            resp.user == self.user_at_id(user_id),
    {
        let u = self.users.get(user_id as u128).unwrap();
        UserResponse { user: u.duplicate() }
    }

    /// A page of users in increasing id order; the total is the number of ids handed
    /// out so far.
    pub fn query_users_paginated_by_id(&self, data: QueryUsersPaginatedByIDMsg) -> (resp: UsersResponse)
        requires
            self.next_user_id >= 1,
        ensures
            resp.users@ == first_n(
                window_entries(
                    self.users@,
                    user_window(data.start_after_user_id, data.include_start_after).0,
                    user_window(data.start_after_user_id, data.include_start_after).1,
                    user_window(data.start_after_user_id, data.include_start_after).2,
                ),
                page_size(data.limit),
            ).map_values(|e: (u128, User)| e.1),
            resp.count == resp.users@.len(),
            resp.total_count == (self.next_user_id - 1) as usize,
    {
        let (lo, strict) = match data.start_after_user_id {
            Some(s) => {
                let inclusive = match data.include_start_after {
                    Some(b) => b,
                    None => false,
                };
                (s as u128, !inclusive)
            },
            None => (0u128, false),
        };
        let n = self.users.len();
        let keys = self.users.window_keys(lo, strict, u128::MAX, page_size_exec(data.limit));
        let ghost w = window_entries(self.users@, lo, strict, u128::MAX);
        let ghost page = first_n(w, page_size(data.limit));
        proof {
            lemma_window_in_map(self.users@, lo, strict, u128::MAX);
        }
        let mut users: Vec<User> = Vec::new();
        let mut i: usize = 0;
        while i < keys.len()
            invariant
                i <= keys@.len(),
                keys@ == page.map_values(|e: (u128, User)| e.0),
                page == first_n(w, page_size(data.limit)),
                w == window_entries(self.users@, lo, strict, u128::MAX),
                forall|j: int|
                    0 <= j < w.len() ==> {
                        let e = #[trigger] w[j];
                        self.users.as_map().contains_key(e.0) && self.users.as_map()[e.0] == e.1
                    },
                users@ == page.take(i as int).map_values(|e: (u128, User)| e.1),
            decreases keys@.len() - i,
        {
            assert(page[i as int] == w[i as int]);
            let u = self.users.get(keys[i]).unwrap();
            users.push(u.duplicate());
            proof {
                let f = |e: (u128, User)| e.1;
                assert(page.take(i + 1).map_values(f) =~= page.take(i as int).map_values(f).push(f(page[i as int])));
            }
            i = i + 1;
        }
        proof {
            assert(page.take(page.len() as int) =~= page);
        }
        let count = users.len();
        UsersResponse { users, count, total_count: (self.next_user_id - 1) as usize }
    }

    /// The supply of the membership of an issuer, which must have issued one.
    pub fn query_key_supply(&self, membership_issuer_user_id: u64) -> (resp: KeySupplyResponse)
        requires
            self.id_registered(membership_issuer_user_id),
            self.user_at_id(membership_issuer_user_id).membership_issued_by_me is Some,
        ensures
            resp.supply == supply_of(self.user_at_id(membership_issuer_user_id)),
    {
        KeySupplyResponse { supply: self.query_membership_supply(membership_issuer_user_id) }
    }

    /// A page of the holders of an issuer's membership in increasing holder id order,
    /// with the number of all its holders. Only the issuer's own holders are listed,
    /// starting after a given holder.
    pub fn query_key_holders(&self, data: QueryKeyHoldersMsg) -> (resp: KeyHoldersResponse)
        ensures
            resp.key_holders@ == first_n(
                window_entries(
                    self.members@,
                    page_window(data.membership_issuer_user_id, data.start_after_user_id, None).0,
                    page_window(data.membership_issuer_user_id, data.start_after_user_id, None).1,
                    page_window(data.membership_issuer_user_id, data.start_after_user_id, None).2,
                ),
                page_size(data.limit),
            ).map_values(|e: (u128, u128)| holder_of(e)),
            resp.count == resp.key_holders@.len(),
            resp.total_count == prefix_count(self.members@, data.membership_issuer_user_id),
    {
        let issuer = data.membership_issuer_user_id;
        let total = self.members.count_window(pair_key_exec(issuer, 0), false, pair_key_exec(issuer, u64::MAX));
        let w = page_window_exec(issuer, data.start_after_user_id, None);
        let entries = self.members.window(w.0, w.1, w.2, page_size_exec(data.limit));
        let ghost page = entries@;
        let pairs = pairs_page(entries);
        let mut key_holders: Vec<Member> = Vec::new();
        let mut i: usize = 0;
        while i < pairs.len()
            invariant
                i <= pairs@.len(),
                pairs@ == page.map_values(|e: (u128, u128)| (pair_low(e.0), e.1)),
                key_holders@ == page.take(i as int).map_values(|e: (u128, u128)| holder_of(e)),
            decreases pairs@.len() - i,
        {
            let (holder, amount) = pairs[i];
            key_holders.push(Member { member_user_id: holder, amount });
            proof {
                let f = |e: (u128, u128)| holder_of(e);
                assert(page.take(i + 1).map_values(f) =~= page.take(i as int).map_values(f).push(f(page[i as int])));
            }
            i = i + 1;
        }
        proof {
            assert(page.take(page.len() as int) =~= page);
        }
        let count = key_holders.len();
        KeyHoldersResponse { key_holders, count, total_count: total }
    }

    /// A page of the memberships a user holds in increasing issuer id order, with the
    /// number of all its memberships. Only the user's own memberships are listed,
    /// starting after a given issuer.
    pub fn query_memberships(&self, data: QueryUserHoldingsMsg) -> (resp: UserHoldingsResponse)
        ensures
            resp.user_holdings@ == first_n(
                window_entries(
                    self.memberships@,
                    page_window(data.user_id, data.start_after_membership_issuer_user_id, None).0,
                    page_window(data.user_id, data.start_after_membership_issuer_user_id, None).1,
                    page_window(data.user_id, data.start_after_membership_issuer_user_id, None).2,
                ),
                page_size(data.limit),
            ).map_values(|e: (u128, u128)| membership_of(e)),
            resp.count == resp.user_holdings@.len(),
            resp.total_count == prefix_count(self.memberships@, data.user_id),
    {
        let user = data.user_id;
        let total = self.memberships.count_window(pair_key_exec(user, 0), false, pair_key_exec(user, u64::MAX));
        let w = page_window_exec(user, data.start_after_membership_issuer_user_id, None);
        let entries = self.memberships.window(w.0, w.1, w.2, page_size_exec(data.limit));
        let ghost page = entries@;
        let pairs = pairs_page(entries);
        let mut user_holdings: Vec<Membership> = Vec::new();
        let mut i: usize = 0;
        while i < pairs.len()
            invariant
                i <= pairs@.len(),
                pairs@ == page.map_values(|e: (u128, u128)| (pair_low(e.0), e.1)),
                user_holdings@ == page.take(i as int).map_values(|e: (u128, u128)| membership_of(e)),
            decreases pairs@.len() - i,
        {
            let (issuer, amount) = pairs[i];
            user_holdings.push(Membership { issuer_user_id: issuer, amount });
            proof {
                let f = |e: (u128, u128)| membership_of(e);
                assert(page.take(i + 1).map_values(f) =~= page.take(i as int).map_values(f).push(f(page[i as int])));
            }
            i = i + 1;
        }
        proof {
            assert(page.take(page.len() as int) =~= page);
        }
        let count = user_holdings.len();
        UserHoldingsResponse { user_holdings, count, total_count: total }
    }
}

} // verus!
