//! Query submission and the suspend/resume handle.
//!
//! `query` builds a fresh uniquely-keyed request, dispatches the
//! action that records it as pending, and hands back the handle and
//! the watchdog order.  `QueryFuture::poll` is the handle's check,
//! run each time the surrounding task is woken.

use vstd::prelude::*;

use crate::state::CoreState;
use crate::state::reduce_spec;
use crate::types::Action;
use crate::types::ActionV;
use crate::types::ActionWrapper;
use crate::types::CoreError;
use crate::types::CrudStatus;
use crate::types::GetEntryKey;
use crate::types::GetLinksKey;
use crate::types::GetLinksNetworkResult;
use crate::types::GetLinksResultCount;
use crate::types::KeyV;
use crate::types::LinksStatusRequestKind;
use crate::types::NetworkQueryResult;
use crate::types::QueryCell;
use crate::types::QueryKey;
use crate::types::QueryMethod;
use crate::types::QueryPayload;
use crate::types::QueryResolution;
use crate::types::Timeout;

verus! {

/// Relies on snowflake::ProcessUniqueId::new for an id unique within
/// this process, rendered through its Display form.  Nothing is
/// assumed here about the value.
#[verifier::external_body]
fn fresh_request_id() -> (r: String) {
    snowflake::ProcessUniqueId::new().to_string()
}

impl ActionWrapper {
    /// Wraps an action under a fresh process-unique dispatch id.
    pub fn new(action: Action) -> (r: Self)
        ensures
            r.action == action,
    {
        ActionWrapper { action, id: fresh_request_id() }
    }
}

/// The CRUD filter a link query derives from the caller's
/// status-request option.
pub open spec fn crud_filter(k: LinksStatusRequestKind) -> Option<CrudStatus> {
    match k {
        LinksStatusRequestKind::All => None,
        LinksStatusRequestKind::Deleted => Some(CrudStatus::Deleted),
        LinksStatusRequestKind::Live => Some(CrudStatus::Live),
    }
}

/// The key a query method is recorded under, given its request id.
pub open spec fn key_of_method(m: QueryMethod, id: Seq<char>) -> KeyV {
    match m {
        QueryMethod::Entry(address) => KeyV::Entry { address: address@, id },
        QueryMethod::Link(args, _q) => KeyV::Links {
            base_address: args.entry_address@,
            link_type: args.link_type@,
            tag: args.tag@,
            id,
        },
    }
}

/// The payload dispatched along with a query method.
pub open spec fn payload_of_method(m: QueryMethod) -> QueryPayload {
    match m {
        QueryMethod::Entry(_) => QueryPayload::Entry,
        QueryMethod::Link(args, q) => QueryPayload::Links(
            crud_filter(args.options.status_request),
            q,
        ),
    }
}

/// Handle on one outstanding query; resolves by inspecting the store.
pub struct QueryFuture {
    pub key: QueryKey,
}

/// The watchdog order armed alongside a query: after `timeout`, a
/// `QueryTimeout` action for `key` must be dispatched unconditionally.
pub struct TimeoutWatch {
    pub key: QueryKey,
    pub timeout: Timeout,
}

/// Builds the key and payload for `method` under the given request id
/// and dispatches the action that records the key as pending.
pub fn submit_query(state: &mut CoreState, method: QueryMethod, request_id: String) -> (fut:
    QueryFuture)
    ensures
        fut.key@ == key_of_method(method, request_id@),
        final(state)@ == reduce_spec(
            old(state)@,
            ActionV::Query(key_of_method(method, request_id@), payload_of_method(method)),
        ),
{
    let (key, payload) = match method {
        QueryMethod::Entry(address) => (
            QueryKey::Entry(GetEntryKey { address, id: request_id }),
            QueryPayload::Entry,
        ),
        QueryMethod::Link(args, q) => {
            let crud_status = match args.options.status_request {
                LinksStatusRequestKind::All => None,
                LinksStatusRequestKind::Deleted => Some(CrudStatus::Deleted),
                LinksStatusRequestKind::Live => Some(CrudStatus::Live),
            };
            (
                QueryKey::Links(GetLinksKey {
                    base_address: args.entry_address,
                    link_type: args.link_type,
                    tag: args.tag,
                    id: request_id,
                }),
                QueryPayload::Links(crud_status, q),
            )
        },
    };
    let fut_key = key.clone();
    state.reduce(ActionWrapper::new(Action::Query(key, payload)));
    QueryFuture { key: fut_key }
}

/// Submits a query under a fresh request id and returns the handle
/// together with the watchdog order the caller must arm; the watchdog
/// fires unconditionally after the timeout, and the reducer makes a
/// timeout on an already resolved key a no-op.
pub fn query(state: &mut CoreState, method: QueryMethod, timeout: Timeout) -> (r: (
    QueryFuture,
    TimeoutWatch,
))
    ensures
        r.1.key == r.0.key,
        r.1.timeout == timeout,
        exists|id: Seq<char>|
            {
                &&& r.0.key@ == #[trigger] key_of_method(method, id)
                &&& final(state)@ == reduce_spec(
                    old(state)@,
                    ActionV::Query(key_of_method(method, id), payload_of_method(method)),
                )
            },
{
    let request_id = fresh_request_id();
    let ghost idv = request_id@;
    let fut = submit_query(state, method, request_id);
    proof {
        assert(fut.key@ == key_of_method(method, idv) && state@ == reduce_spec(
            old(state)@,
            ActionV::Query(key_of_method(method, idv), payload_of_method(method)),
        ));
    }
    let watch_key = fut.key.clone();
    (fut, TimeoutWatch { key: watch_key, timeout })
}

/// Outcome of one check of a query handle.
pub enum QueryPoll<'a> {
    /// Absent or pending: remain suspended and re-check when woken.
    NotReady,
    /// The stored terminal outcome.
    Ready(&'a QueryResolution),
    /// The check itself failed: broken channel or network not ready.
    Failed(CoreError),
}

impl QueryFuture {
    /// One suspend/resume check: fail if the dispatch channel is
    /// broken, fail if the network is not initialized, otherwise
    /// report the key's tri-state in the query result map.
    pub fn poll<'a>(&self, state: &'a CoreState, channel_ok: bool) -> (r: QueryPoll<'a>)
        ensures
            !channel_ok ==> (r matches QueryPoll::Failed(e) && e == CoreError::Infrastructure),
            channel_ok && !state@.network_ready ==> (r matches QueryPoll::Failed(e) && e
                == CoreError::NotInitialized),
            channel_ok && state@.network_ready ==> match r {
                QueryPoll::NotReady => !state@.queries.dom().contains(self.key@)
                    || state@.queries[self.key@] == QueryCell::Pending,
                QueryPoll::Ready(res) => state@.queries.dom().contains(self.key@)
                    && state@.queries[self.key@] == QueryCell::Resolved(*res),
                QueryPoll::Failed(_) => false,
            },
    {
        if !channel_ok {
            return QueryPoll::Failed(CoreError::Infrastructure);
        }
        if !state.network_ready() {
            return QueryPoll::Failed(CoreError::NotInitialized);
        }
        match state.lookup_query(&self.key) {
            Some(cell) => match cell {
                QueryCell::Resolved(res) => QueryPoll::Ready(res),
                QueryCell::Pending => QueryPoll::NotReady,
            },
            None => QueryPoll::NotReady,
        }
    }
}

/// Decodes the response of a count-mode link query, as the link-count
/// workflow does once its query resolves.
pub fn get_link_result_count_workflow(response: &QueryResolution) -> (r: Result<
    GetLinksResultCount,
    CoreError,
>)
    ensures
        match response {
            Ok(nqr) => match nqr {
                NetworkQueryResult::Links(lr, _t, _g) => match lr {
                    GetLinksNetworkResult::Count(c) => r == Ok::<GetLinksResultCount, CoreError>(
                        GetLinksResultCount { count: *c },
                    ),
                    GetLinksNetworkResult::Links(_) => r matches Err(e) && e matches
                        CoreError::Generic(m) && m@ == "Getting wrong type of GetLinks"@,
                },
                NetworkQueryResult::Entry(_) => r matches Err(e) && e matches CoreError::Generic(m)
                    && m@ == "Could not get link"@,
            },
            Err(e) => r == Err::<GetLinksResultCount, CoreError>(*e),
        },
{
    match response {
        Ok(NetworkQueryResult::Links(GetLinksNetworkResult::Count(c), _t, _g)) => Ok(
            GetLinksResultCount { count: *c },
        ),
        Ok(NetworkQueryResult::Links(GetLinksNetworkResult::Links(_), _t, _g)) => Err(
            CoreError::Generic("Getting wrong type of GetLinks".to_owned()),
        ),
        Ok(NetworkQueryResult::Entry(_)) => Err(
            CoreError::Generic("Could not get link".to_owned()),
        ),
        Err(e) => Err(e.clone()),
    }
}

} // verus!
