//! The state store and its single-writer reducer.
//!
//! Each substate is kept as an append-only association vector; its
//! mathematical content is the last-write-wins map of `assoc_map`.
//! `reduce` applies one action and is proved equal to the pure
//! `reduce_spec` on the views, which the laws below are stated over.

use vstd::prelude::*;

use crate::assoc::assoc_map;
use crate::assoc::drop_key;
use crate::assoc::lemma_assoc_map_contains;
use crate::assoc::lemma_assoc_map_drop_key;
use crate::assoc::lemma_assoc_map_last;
use crate::assoc::lemma_assoc_map_push;
use crate::assoc::rev;
use crate::types::Action;
use crate::types::ActionV;
use crate::types::ActionWrapper;
use crate::types::Address;
use crate::types::CoreError;
use crate::types::Entry;
use crate::types::KeyV;
use crate::types::PendingValidation;
use crate::types::QueryCell;
use crate::types::QueryKey;
use crate::types::QueryResolution;
use crate::types::addr_eq;
use crate::types::key_eq;

verus! {

/// Mathematical content of the state store.
#[verifier::ext_equal]
pub struct StateView {
    /// Query result map: key, then tri-state (absent, pending, resolved).
    pub queries: Map<KeyV, QueryCell>,
    /// Entries held in the local shard, by address.
    pub holdings: Map<Seq<char>, Entry>,
    /// Removal records: (deleted address, deletion address).
    pub removals: Set<(Seq<char>, Seq<char>)>,
    /// Deferred validations, by entry address.
    pub pending: Map<Seq<char>, PendingValidation>,
    /// Addresses handed to the network for publication.
    pub published: Set<Seq<char>>,
    /// Whether the network subsystem finished initializing.
    pub network_ready: bool,
}

/// The empty store.
pub open spec fn initial_state() -> StateView {
    StateView {
        queries: Map::empty(),
        holdings: Map::empty(),
        removals: Set::empty(),
        pending: Map::empty(),
        published: Set::empty(),
        network_ready: false,
    }
}

/// Pure reduction: the next state under one action.
///
/// Query transitions are monotonic: absent to pending to resolved,
/// and a terminal write to an already resolved key is a no-op.
pub open spec fn reduce_spec(s: StateView, a: ActionV) -> StateView {
    match a {
        ActionV::Query(k, _payload) => if s.queries.dom().contains(k) {
            s
        } else {
            StateView { queries: s.queries.insert(k, QueryCell::Pending), ..s }
        },
        ActionV::QueryResponse(k, r) => if s.queries.dom().contains(k) && s.queries[k]
            == QueryCell::Pending {
            StateView { queries: s.queries.insert(k, QueryCell::Resolved(r)), ..s }
        } else {
            s
        },
        ActionV::QueryTimeout(k) => if s.queries.dom().contains(k) && s.queries[k]
            == QueryCell::Pending {
            StateView {
                queries: s.queries.insert(k, QueryCell::Resolved(Err(CoreError::Timeout))),
                ..s
            }
        } else {
            s
        },
        ActionV::HoldEntry(e) => StateView { holdings: s.holdings.insert(e.address@, e), ..s },
        ActionV::RemoveEntry(deleted, deletion) => StateView {
            removals: s.removals.insert((deleted, deletion)),
            ..s
        },
        ActionV::Publish(address) => StateView { published: s.published.insert(address), ..s },
        ActionV::AddPendingValidation(pv) => StateView {
            pending: s.pending.insert(pv.entry_with_header.entry.address@, pv),
            ..s
        },
        ActionV::RemovePendingValidation(addr) => StateView { pending: s.pending.remove(addr), ..s },
        ActionV::NetworkReady => StateView { network_ready: true, ..s },
    }
}

/// The state after a whole sequence of actions, applied in order.
pub open spec fn reduce_all(s: StateView, actions: Seq<ActionV>) -> StateView
    decreases actions.len(),
{
    if actions.len() == 0 {
        s
    } else {
        reduce_spec(reduce_all(s, actions.drop_last()), actions.last())
    }
}

/// Pair view of the query substate.
pub open spec fn query_pairs(s: Seq<(QueryKey, QueryCell)>) -> Seq<(KeyV, QueryCell)> {
    s.map_values(|p: (QueryKey, QueryCell)| (p.0@, p.1))
}

/// Pair view of the holdings substate.
pub open spec fn holding_pairs(s: Seq<Entry>) -> Seq<(Seq<char>, Entry)> {
    s.map_values(|e: Entry| (e.address@, e))
}

/// Pair view of the removal substate.
pub open spec fn removal_pairs(s: Seq<(Address, Address)>) -> Seq<((Seq<char>, Seq<char>), ())> {
    s.map_values(|p: (Address, Address)| ((p.0@, p.1@), ()))
}

/// Pair view of the published-address substate.
pub open spec fn published_pairs(s: Seq<Address>) -> Seq<(Seq<char>, ())> {
    s.map_values(|a: Address| (a@, ()))
}

/// Pair view of the pending-validation substate.
pub open spec fn pending_pairs(s: Seq<PendingValidation>) -> Seq<(Seq<char>, PendingValidation)> {
    s.map_values(|pv: PendingValidation| (pv.entry_with_header.entry.address@, pv))
}

/// Process-wide versioned snapshot of system state, exclusively
/// mutated by the reducer.
pub struct CoreState {
    queries: Vec<(QueryKey, QueryCell)>,
    holdings: Vec<Entry>,
    removals: Vec<(Address, Address)>,
    pending: Vec<PendingValidation>,
    published: Vec<Address>,
    network_ready: bool,
}

impl View for CoreState {
    type V = StateView;

    closed spec fn view(&self) -> StateView {
        StateView {
            queries: assoc_map(query_pairs(self.queries@)),
            holdings: assoc_map(holding_pairs(self.holdings@)),
            removals: assoc_map(removal_pairs(self.removals@)).dom(),
            pending: assoc_map(pending_pairs(self.pending@)),
            published: assoc_map(published_pairs(self.published@)).dom(),
            network_ready: self.network_ready,
        }
    }
}

impl CoreState {
    /// A store holding nothing, with the network not yet ready.
    pub fn new() -> (s: Self)
        ensures
            s@ == initial_state(),
    {
        let s = CoreState {
            queries: Vec::new(),
            holdings: Vec::new(),
            removals: Vec::new(),
            pending: Vec::new(),
            published: Vec::new(),
            network_ready: false,
        };
        proof {
            assert(query_pairs(s.queries@) =~= Seq::<(KeyV, QueryCell)>::empty());
            assert(holding_pairs(s.holdings@) =~= Seq::<(Seq<char>, Entry)>::empty());
            assert(removal_pairs(s.removals@) =~= Seq::<((Seq<char>, Seq<char>), ())>::empty());
            assert(pending_pairs(s.pending@) =~= Seq::<(Seq<char>, PendingValidation)>::empty());
            assert(published_pairs(s.published@) =~= Seq::<(Seq<char>, ())>::empty());
            assert(assoc_map(published_pairs(s.published@)).dom() =~= Set::<Seq<char>>::empty());
            assert(assoc_map(removal_pairs(s.removals@)).dom() =~= Set::<(
                Seq<char>,
                Seq<char>,
            )>::empty());
            assert(s@ =~= initial_state());
        }
        s
    }

    /// Index of the last (authoritative) pair for `key`, if any.
    fn find_query(&self, key: &QueryKey) -> (r: Option<usize>)
        ensures
            match r {
                Some(i) => i < self.queries@.len() && self.queries@[i as int].0@ == key@
                    && self@.queries.dom().contains(key@) && self@.queries[key@]
                    == self.queries@[i as int].1 && forall|j: int|
                    i < j < self.queries@.len() ==> #[trigger] query_pairs(self.queries@)[j].0
                        != key@,
                None => !self@.queries.dom().contains(key@),
            },
    {
        let ghost pairs = query_pairs(self.queries@);
        let mut i: usize = self.queries.len();
        while i > 0
            invariant
                i <= self.queries@.len(),
                pairs == query_pairs(self.queries@),
                forall|j: int| i <= j < pairs.len() ==> #[trigger] pairs[j].0 != key@,
            decreases i,
        {
            i = i - 1;
            if key_eq(&self.queries[i].0, key) {
                proof {
                    assert(pairs[i as int].0 == key@);
                    lemma_assoc_map_last(pairs, i as int);
                }
                return Some(i);
            }
            proof {
                assert(pairs[i as int].0 != key@);
            }
        }
        proof {
            lemma_assoc_map_contains(pairs, key@);
        }
        None
    }

    /// The tri-state of `key` in the query result map.
    pub fn lookup_query<'a>(&'a self, key: &QueryKey) -> (r: Option<&'a QueryCell>)
        ensures
            match r {
                Some(cell) => self@.queries.dom().contains(key@) && self@.queries[key@] == *cell,
                None => !self@.queries.dom().contains(key@),
            },
    {
        match self.find_query(key) {
            Some(i) => Some(&self.queries[i].1),
            None => None,
        }
    }

    /// Whether the network subsystem finished initializing.
    pub fn network_ready(&self) -> (r: bool)
        ensures
            r == self@.network_ready,
    {
        self.network_ready
    }

    /// Whether the removal record (deleted, deletion) has been applied.
    pub fn has_removal(&self, deleted: &Address, deletion: &Address) -> (r: bool)
        ensures
            r == self@.removals.contains((deleted@, deletion@)),
    {
        let ghost pairs = removal_pairs(self.removals@);
        let mut i: usize = 0;
        while i < self.removals.len()
            invariant
                i <= self.removals@.len(),
                pairs == removal_pairs(self.removals@),
                forall|j: int| 0 <= j < i as int ==> #[trigger] pairs[j].0 != (deleted@, deletion@),
            decreases self.removals@.len() - i,
        {
            if addr_eq(&self.removals[i].0, deleted) && addr_eq(&self.removals[i].1, deletion) {
                proof {
                    assert(pairs[i as int].0 == (deleted@, deletion@));
                    lemma_assoc_map_contains(pairs, (deleted@, deletion@));
                }
                return true;
            }
            proof {
                assert(pairs[i as int].0 != (deleted@, deletion@));
            }
            i = i + 1;
        }
        proof {
            lemma_assoc_map_contains(pairs, (deleted@, deletion@));
        }
        false
    }

    /// Whether `address` has been handed to the network for
    /// publication.
    pub fn has_published(&self, address: &Address) -> (r: bool)
        ensures
            r == self@.published.contains(address@),
    {
        let ghost pairs = published_pairs(self.published@);
        let mut i: usize = 0;
        while i < self.published.len()
            invariant
                i <= self.published@.len(),
                pairs == published_pairs(self.published@),
                forall|j: int| 0 <= j < i as int ==> #[trigger] pairs[j].0 != address@,
            decreases self.published@.len() - i,
        {
            if addr_eq(&self.published[i], address) {
                proof {
                    assert(pairs[i as int].0 == address@);
                    lemma_assoc_map_contains(pairs, address@);
                }
                return true;
            }
            proof {
                assert(pairs[i as int].0 != address@);
            }
            i = i + 1;
        }
        proof {
            lemma_assoc_map_contains(pairs, address@);
        }
        false
    }

    /// The entry held locally under `address`, if any.
    pub fn get_holding(&self, address: &Address) -> (r: Option<Entry>)
        ensures
            match r {
                Some(e) => self@.holdings.dom().contains(address@) && self@.holdings[address@]
                    == e,
                None => !self@.holdings.dom().contains(address@),
            },
    {
        let ghost pairs = holding_pairs(self.holdings@);
        let mut i: usize = self.holdings.len();
        while i > 0
            invariant
                i <= self.holdings@.len(),
                pairs == holding_pairs(self.holdings@),
                forall|j: int| i <= j < pairs.len() ==> #[trigger] pairs[j].0 != address@,
            decreases i,
        {
            i = i - 1;
            if addr_eq(&self.holdings[i].address, address) {
                proof {
                    assert(pairs[i as int].0 == address@);
                    lemma_assoc_map_last(pairs, i as int);
                }
                return Some(self.holdings[i].clone());
            }
            proof {
                assert(pairs[i as int].0 != address@);
            }
        }
        proof {
            lemma_assoc_map_contains(pairs, address@);
        }
        None
    }

    /// The deferred validation recorded for `address`, if any.
    pub fn lookup_pending<'a>(&'a self, address: &Address) -> (r: Option<&'a PendingValidation>)
        ensures
            match r {
                Some(pv) => self@.pending.dom().contains(address@) && self@.pending[address@]
                    == *pv && pv.entry_with_header.entry.address@ == address@,
                None => !self@.pending.dom().contains(address@),
            },
    {
        let ghost pairs = pending_pairs(self.pending@);
        let mut i: usize = self.pending.len();
        while i > 0
            invariant
                i <= self.pending@.len(),
                pairs == pending_pairs(self.pending@),
                forall|j: int| i <= j < pairs.len() ==> #[trigger] pairs[j].0 != address@,
            decreases i,
        {
            i = i - 1;
            if addr_eq(&self.pending[i].entry_with_header.entry.address, address) {
                proof {
                    assert(pairs[i as int].0 == address@);
                    lemma_assoc_map_last(pairs, i as int);
                }
                return Some(&self.pending[i]);
            }
            proof {
                assert(pairs[i as int].0 != address@);
            }
        }
        proof {
            lemma_assoc_map_contains(pairs, address@);
        }
        None
    }

    /// Applies one action, in arrival order; the single logical writer.
    pub fn reduce(&mut self, aw: ActionWrapper)
        ensures
            final(self)@ == reduce_spec(old(self)@, aw.action@),
    {
        let ghost pre = self@;
        let ghost av = aw.action@;
        match aw.action {
            Action::Query(key, _payload) => {
                let found = self.find_query(&key);
                match found {
                    Some(_) => {
                        proof {
                            assert(self@ =~= reduce_spec(pre, av));
                        }
                    },
                    None => {
                        let ghost pairs = query_pairs(self.queries@);
                        let ghost kv = key@;
                        self.queries.push((key, QueryCell::Pending));
                        proof {
                            assert(query_pairs(self.queries@) =~= pairs.push(
                                (kv, QueryCell::Pending),
                            ));
                            lemma_assoc_map_push(pairs, kv, QueryCell::Pending);
                            assert(self@ =~= reduce_spec(pre, av));
                        }
                    },
                }
            },
            Action::QueryResponse(key, r) => {
                let found = self.find_query(&key);
                match found {
                    Some(i) => {
                        let is_pending = match &self.queries[i].1 {
                            QueryCell::Pending => true,
                            QueryCell::Resolved(_) => false,
                        };
                        if is_pending {
                            let ghost pairs = query_pairs(self.queries@);
                            let ghost kv = key@;
                            let cell = QueryCell::Resolved(r);
                            let ghost cellv = cell;
                            self.queries.push((key, cell));
                            proof {
                                assert(query_pairs(self.queries@) =~= pairs.push((kv, cellv)));
                                lemma_assoc_map_push(pairs, kv, cellv);
                                assert(self@ =~= reduce_spec(pre, av));
                            }
                        } else {
                            proof {
                                assert(self@ =~= reduce_spec(pre, av));
                            }
                        }
                    },
                    None => {
                        proof {
                            assert(self@ =~= reduce_spec(pre, av));
                        }
                    },
                }
            },
            Action::QueryTimeout(key) => {
                let found = self.find_query(&key);
                match found {
                    Some(i) => {
                        let is_pending = match &self.queries[i].1 {
                            QueryCell::Pending => true,
                            QueryCell::Resolved(_) => false,
                        };
                        if is_pending {
                            let ghost pairs = query_pairs(self.queries@);
                            let ghost kv = key@;
                            let cell = QueryCell::Resolved(Err(CoreError::Timeout));
                            let ghost cellv = cell;
                            self.queries.push((key, cell));
                            proof {
                                assert(query_pairs(self.queries@) =~= pairs.push((kv, cellv)));
                                lemma_assoc_map_push(pairs, kv, cellv);
                                assert(self@ =~= reduce_spec(pre, av));
                            }
                        } else {
                            proof {
                                assert(self@ =~= reduce_spec(pre, av));
                            }
                        }
                    },
                    None => {
                        proof {
                            assert(self@ =~= reduce_spec(pre, av));
                        }
                    },
                }
            },
            Action::HoldEntry(e) => {
                let ghost pairs = holding_pairs(self.holdings@);
                let ghost ev = e;
                self.holdings.push(e);
                proof {
                    assert(holding_pairs(self.holdings@) =~= pairs.push((ev.address@, ev)));
                    lemma_assoc_map_push(pairs, ev.address@, ev);
                    assert(self@ =~= reduce_spec(pre, av));
                }
            },
            Action::Publish(address) => {
                let ghost pairs = published_pairs(self.published@);
                let ghost addr_v = address@;
                self.published.push(address);
                proof {
                    assert(published_pairs(self.published@) =~= pairs.push((addr_v, ())));
                    lemma_assoc_map_push(pairs, addr_v, ());
                    assert(self@.published =~= pre.published.insert(addr_v));
                    assert(self@ =~= reduce_spec(pre, av));
                }
            },
            Action::RemoveEntry(deleted, deletion) => {
                let ghost pairs = removal_pairs(self.removals@);
                let ghost pv = (deleted@, deletion@);
                self.removals.push((deleted, deletion));
                proof {
                    assert(removal_pairs(self.removals@) =~= pairs.push((pv, ())));
                    lemma_assoc_map_push(pairs, pv, ());
                    assert(self@.removals =~= pre.removals.insert(pv));
                    assert(self@ =~= reduce_spec(pre, av));
                }
            },
            Action::AddPendingValidation(p) => {
                let ghost pairs = pending_pairs(self.pending@);
                let ghost pvv = p;
                let ghost kv = p.entry_with_header.entry.address@;
                self.pending.push(p);
                proof {
                    assert(pending_pairs(self.pending@) =~= pairs.push((kv, pvv)));
                    lemma_assoc_map_push(pairs, kv, pvv);
                    assert(self@ =~= reduce_spec(pre, av));
                }
            },
            Action::RemovePendingValidation(addr) => {
                self.remove_pending(&addr);
                proof {
                    assert(self@ =~= reduce_spec(pre, av));
                }
            },
            Action::NetworkReady => {
                self.network_ready = true;
                proof {
                    assert(self@ =~= reduce_spec(pre, av));
                }
            },
        }
    }

    /// Drops every pending-validation record for `address`.
    fn remove_pending(&mut self, address: &Address)
        ensures
            final(self)@ == (StateView {
                pending: old(self)@.pending.remove(address@),
                ..old(self)@
            }),
    {
        let ghost s0 = pending_pairs(old(self).pending@);
        let ghost addr = address@;
        let mut stack: Vec<PendingValidation> = Vec::new();
        proof {
            assert(rev(pending_pairs(stack@)) =~= Seq::<(Seq<char>, PendingValidation)>::empty());
            assert(drop_key(s0, addr) =~= drop_key(pending_pairs(self.pending@), addr) + rev(
                pending_pairs(stack@),
            ));
        }
        while self.pending.len() > 0
            invariant
                self.queries@ == old(self).queries@,
                self.holdings@ == old(self).holdings@,
                self.removals@ == old(self).removals@,
                self.published@ == old(self).published@,
                self.network_ready == old(self).network_ready,
                addr == address@,
                drop_key(s0, addr) =~= drop_key(pending_pairs(self.pending@), addr) + rev(
                    pending_pairs(stack@),
                ),
            decreases self.pending@.len(),
        {
            let ghost prefix = pending_pairs(self.pending@);
            let ghost st = pending_pairs(stack@);
            let x = self.pending.pop().unwrap();
            let ghost xp = (x.entry_with_header.entry.address@, x);
            proof {
                assert(prefix.drop_last() =~= pending_pairs(self.pending@));
                assert(prefix.last() == xp);
            }
            if addr_eq(&x.entry_with_header.entry.address, address) {
                proof {
                    assert(drop_key(prefix, addr) == drop_key(pending_pairs(self.pending@), addr));
                }
            } else {
                stack.push(x);
                proof {
                    assert(pending_pairs(stack@) =~= st.push(xp));
                    assert(pending_pairs(stack@).last() == xp);
                    assert(pending_pairs(stack@).drop_last() =~= st);
                    assert(rev(pending_pairs(stack@)) =~= seq![xp] + rev(st));
                    assert(drop_key(prefix, addr) == drop_key(prefix.drop_last(), addr).push(xp));
                    assert(drop_key(prefix.drop_last(), addr).push(xp) + rev(st) =~= drop_key(
                        prefix.drop_last(),
                        addr,
                    ) + (seq![xp] + rev(st)));
                }
            }
        }
        proof {
            assert(pending_pairs(self.pending@) =~= Seq::<(Seq<char>, PendingValidation)>::empty());
            assert(drop_key(s0, addr) =~= rev(pending_pairs(stack@)));
        }
        while stack.len() > 0
            invariant
                self.queries@ == old(self).queries@,
                self.holdings@ == old(self).holdings@,
                self.removals@ == old(self).removals@,
                self.published@ == old(self).published@,
                self.network_ready == old(self).network_ready,
                addr == address@,
                pending_pairs(self.pending@) + rev(pending_pairs(stack@)) =~= drop_key(s0, addr),
            decreases stack@.len(),
        {
            let ghost st = pending_pairs(stack@);
            let ghost cur = pending_pairs(self.pending@);
            let x = stack.pop().unwrap();
            let ghost xp = (x.entry_with_header.entry.address@, x);
            self.pending.push(x);
            proof {
                assert(pending_pairs(stack@) =~= st.drop_last());
                assert(st.last() == xp);
                assert(rev(st) =~= seq![xp] + rev(st.drop_last()));
                assert(pending_pairs(self.pending@) =~= cur.push(xp));
                assert(cur.push(xp) + rev(st.drop_last()) =~= cur + (seq![xp] + rev(st.drop_last())));
            }
        }
        proof {
            assert(rev(pending_pairs(stack@)) =~= Seq::<(Seq<char>, PendingValidation)>::empty());
            assert(pending_pairs(self.pending@) =~= drop_key(s0, addr));
            lemma_assoc_map_drop_key(s0, addr);
            assert(self@ =~= (StateView {
                pending: old(self)@.pending.remove(address@),
                ..old(self)@
            }));
        }
    }

    /// Delivers and clears a resolved query: hands the recorded
    /// outcome to the caller and removes the key from the result map,
    /// so the map does not grow with every query ever issued.
    pub fn take_query_result(&mut self, key: &QueryKey) -> (r: Option<QueryResolution>)
        ensures
            match r {
                Some(res) => old(self)@.queries.dom().contains(key@) && old(self)@.queries[key@]
                    == QueryCell::Resolved(res) && final(self)@ == (StateView {
                    queries: old(self)@.queries.remove(key@),
                    ..old(self)@
                }),
                None => final(self)@ == old(self)@ && (!old(self)@.queries.dom().contains(key@)
                    || old(self)@.queries[key@] == QueryCell::Pending),
            },
    {
        let idx = match self.find_query(key) {
            None => {
                return None;
            },
            Some(i) => {
                match &self.queries[i].1 {
                    QueryCell::Pending => {
                        return None;
                    },
                    QueryCell::Resolved(_) => i,
                }
            },
        };
        let ghost s0 = query_pairs(old(self).queries@);
        let ghost kv = key@;
        proof {
            assert(s0[idx as int] == (
                old(self).queries@[idx as int].0@,
                old(self).queries@[idx as int].1,
            ));
        }
        let mut taken: Option<QueryResolution> = None;
        let mut stack: Vec<(QueryKey, QueryCell)> = Vec::new();
        proof {
            assert(rev(query_pairs(stack@)) =~= Seq::<(KeyV, QueryCell)>::empty());
            assert(drop_key(s0, kv) =~= drop_key(query_pairs(self.queries@), kv) + rev(
                query_pairs(stack@),
            ));
        }
        while self.queries.len() > 0
            invariant
                self.pending@ == old(self).pending@,
                self.holdings@ == old(self).holdings@,
                self.removals@ == old(self).removals@,
                self.published@ == old(self).published@,
                self.network_ready == old(self).network_ready,
                kv == key@,
                idx < s0.len(),
                s0[idx as int].0 == kv,
                s0[idx as int].1 == old(self)@.queries[kv],
                old(self)@.queries.dom().contains(kv),
                old(self)@.queries[kv] matches QueryCell::Resolved(_),
                forall|j: int| idx < j < s0.len() ==> #[trigger] s0[j].0 != kv,
                self.queries@.len() <= s0.len(),
                query_pairs(self.queries@) =~= s0.subrange(0, self.queries@.len() as int),
                drop_key(s0, kv) =~= drop_key(query_pairs(self.queries@), kv) + rev(
                    query_pairs(stack@),
                ),
                self.queries@.len() > idx ==> taken matches None,
                self.queries@.len() <= idx ==> taken == Some(match old(self)@.queries[kv] {
                    QueryCell::Resolved(res) => res,
                    QueryCell::Pending => arbitrary(),
                }),
            decreases self.queries@.len(),
        {
            let ghost prefix = query_pairs(self.queries@);
            let ghost st = query_pairs(stack@);
            let x = self.queries.pop().unwrap();
            let ghost xp = (x.0@, x.1);
            proof {
                assert(prefix.drop_last() =~= query_pairs(self.queries@));
                assert(prefix.last() == xp);
                assert(prefix =~= s0.subrange(0, prefix.len() as int));
                assert(prefix.drop_last() =~= s0.subrange(0, prefix.len() - 1));
                assert(query_pairs(self.queries@) =~= s0.subrange(0, self.queries@.len() as int));
            }
            if key_eq(&x.0, key) {
                proof {
                    assert(drop_key(prefix, kv) == drop_key(query_pairs(self.queries@), kv));
                }
                if self.queries.len() == idx {
                    proof {
                        assert(prefix[idx as int] == s0[idx as int]);
                        assert(xp.1 == old(self)@.queries[kv]);
                    }
                    match x.1 {
                        QueryCell::Resolved(res) => {
                            taken = Some(res);
                        },
                        QueryCell::Pending => {
                            proof {
                                assert(false);
                            }
                        },
                    }
                }
            } else {
                stack.push(x);
                proof {
                    assert(query_pairs(stack@) =~= st.push(xp));
                    assert(query_pairs(stack@).last() == xp);
                    assert(query_pairs(stack@).drop_last() =~= st);
                    assert(rev(query_pairs(stack@)) =~= seq![xp] + rev(st));
                    assert(drop_key(prefix, kv) == drop_key(prefix.drop_last(), kv).push(xp));
                    assert(drop_key(prefix.drop_last(), kv).push(xp) + rev(st) =~= drop_key(
                        prefix.drop_last(),
                        kv,
                    ) + (seq![xp] + rev(st)));
                }
            }
        }
        proof {
            assert(query_pairs(self.queries@) =~= Seq::<(KeyV, QueryCell)>::empty());
            assert(drop_key(s0, kv) =~= rev(query_pairs(stack@)));
        }
        while stack.len() > 0
            invariant
                self.pending@ == old(self).pending@,
                self.holdings@ == old(self).holdings@,
                self.removals@ == old(self).removals@,
                self.published@ == old(self).published@,
                self.network_ready == old(self).network_ready,
                kv == key@,
                old(self)@.queries.dom().contains(kv),
                old(self)@.queries[kv] matches QueryCell::Resolved(_),
                taken == Some(match old(self)@.queries[kv] {
                    QueryCell::Resolved(res) => res,
                    QueryCell::Pending => arbitrary(),
                }),
                query_pairs(self.queries@) + rev(query_pairs(stack@)) =~= drop_key(s0, kv),
            decreases stack@.len(),
        {
            let ghost st = query_pairs(stack@);
            let ghost cur = query_pairs(self.queries@);
            let x = stack.pop().unwrap();
            let ghost xp = (x.0@, x.1);
            self.queries.push(x);
            proof {
                assert(query_pairs(stack@) =~= st.drop_last());
                assert(st.last() == xp);
                assert(rev(st) =~= seq![xp] + rev(st.drop_last()));
                assert(query_pairs(self.queries@) =~= cur.push(xp));
                assert(cur.push(xp) + rev(st.drop_last()) =~= cur + (seq![xp] + rev(st.drop_last())));
            }
        }
        proof {
            assert(rev(query_pairs(stack@)) =~= Seq::<(KeyV, QueryCell)>::empty());
            assert(query_pairs(self.queries@) =~= drop_key(s0, kv));
            lemma_assoc_map_drop_key(s0, kv);
            assert(self@ =~= (StateView { queries: old(self)@.queries.remove(key@), ..old(self)@ }));
        }
        taken
    }
}

/// For any dispatched query, once a terminal outcome is recorded it
/// is never overridden: every later action leaves it in place, so a
/// handle observes exactly one terminal outcome.
pub proof fn lemma_terminal_outcome_stable(s: StateView, a: ActionV, k: KeyV, r: QueryResolution)
    requires
        s.queries.dom().contains(k),
        s.queries[k] == QueryCell::Resolved(r),
    ensures
        reduce_spec(s, a).queries.dom().contains(k),
        reduce_spec(s, a).queries[k] == QueryCell::Resolved(r),
{
}

/// The terminal outcome of a query survives any whole sequence of
/// later actions, timeouts and duplicate responses included.
pub proof fn lemma_terminal_outcome_stable_all(
    s: StateView,
    actions: Seq<ActionV>,
    k: KeyV,
    r: QueryResolution,
)
    requires
        s.queries.dom().contains(k),
        s.queries[k] == QueryCell::Resolved(r),
    ensures
        reduce_all(s, actions).queries.dom().contains(k),
        reduce_all(s, actions).queries[k] == QueryCell::Resolved(r),
    decreases actions.len(),
{
    if actions.len() > 0 {
        lemma_terminal_outcome_stable_all(s, actions.drop_last(), k, r);
        lemma_terminal_outcome_stable(reduce_all(s, actions.drop_last()), actions.last(), k, r);
    }
}

/// Two queries for the same target address with distinct request ids
/// never coalesce: their keys differ, and resolving one leaves the
/// other's cell untouched.
pub proof fn lemma_queries_independent(
    s: StateView,
    address: Seq<char>,
    id1: Seq<char>,
    id2: Seq<char>,
    r: QueryResolution,
)
    requires
        id1 != id2,
    ensures
        (KeyV::Entry { address, id: id1 }) != (KeyV::Entry { address, id: id2 }),
        ({
            let k1 = KeyV::Entry { address, id: id1 };
            let k2 = KeyV::Entry { address, id: id2 };
            let after = reduce_spec(s, ActionV::QueryResponse(k1, r));
            &&& after.queries.dom().contains(k2) == s.queries.dom().contains(k2)
            &&& (s.queries.dom().contains(k2) ==> after.queries[k2] == s.queries[k2])
        }),
{
}

/// Two queries for the same target address issued concurrently under
/// distinct request ids are never coalesced: each gets its own
/// pending entry, and a terminal outcome for one resolves it alone,
/// leaving the other pending.
pub proof fn lemma_no_coalescing(
    s: StateView,
    address: Seq<char>,
    id1: Seq<char>,
    id2: Seq<char>,
    p1: crate::types::QueryPayload,
    p2: crate::types::QueryPayload,
    r: QueryResolution,
)
    requires
        id1 != id2,
        !s.queries.dom().contains(KeyV::Entry { address, id: id1 }),
        !s.queries.dom().contains(KeyV::Entry { address, id: id2 }),
    ensures
        ({
            let k1 = KeyV::Entry { address, id: id1 };
            let k2 = KeyV::Entry { address, id: id2 };
            let both = reduce_spec(reduce_spec(s, ActionV::Query(k1, p1)), ActionV::Query(k2, p2));
            let one_resolved = reduce_spec(both, ActionV::QueryResponse(k1, r));
            &&& both.queries[k1] == QueryCell::Pending
            &&& both.queries[k2] == QueryCell::Pending
            &&& one_resolved.queries[k1] == QueryCell::Resolved(r)
            &&& one_resolved.queries[k2] == QueryCell::Pending
        }),
{
}

/// Applying the removal mutation twice with the same pair leaves the
/// store exactly as applying it once does.
pub proof fn lemma_removal_idempotent(s: StateView, deleted: Seq<char>, deletion: Seq<char>)
    ensures
        reduce_spec(
            reduce_spec(s, ActionV::RemoveEntry(deleted, deletion)),
            ActionV::RemoveEntry(deleted, deletion),
        ) == reduce_spec(s, ActionV::RemoveEntry(deleted, deletion)),
{
    let once = reduce_spec(s, ActionV::RemoveEntry(deleted, deletion));
    let twice = reduce_spec(once, ActionV::RemoveEntry(deleted, deletion));
    assert(twice.removals =~= once.removals);
    assert(twice =~= once);
}

} // verus!

