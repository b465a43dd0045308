use dht_core::query::{get_link_result_count_workflow, query, submit_query, QueryPoll};
use dht_core::state::CoreState;
use dht_core::types::{
    Action, ActionWrapper, Address, CoreError, Entry, EntryKind, GetLinksArgs,
    GetLinksNetworkQuery, GetLinksNetworkResult, GetLinksOptions, GetLinksResultCount,
    LinksStatusRequestKind, NetworkQueryResult, QueryKey, QueryMethod, Timeout,
};

fn addr(s: &str) -> Address {
    Address(s.to_string())
}

fn ready_state() -> CoreState {
    let mut state = CoreState::new();
    state.reduce(ActionWrapper::new(Action::NetworkReady));
    state
}

fn entry_result(a: &str) -> NetworkQueryResult {
    NetworkQueryResult::Entry(Some(Entry {
        address: addr(a),
        kind: EntryKind::App,
    }))
}

#[test]
fn scenario_a_no_response_resolves_with_timeout() {
    let mut state = ready_state();
    let (fut, watch) = query(
        &mut state,
        QueryMethod::Entry(addr("addrA")),
        Timeout { ms: 2000 },
    );
    match fut.poll(&state, true) {
        QueryPoll::NotReady => {}
        _ => panic!("query must stay suspended before any terminal outcome"),
    }
    // the watchdog fires after ~2s with no network response
    state.reduce(ActionWrapper::new(Action::QueryTimeout(watch.key)));
    match fut.poll(&state, true) {
        QueryPoll::Ready(res) => assert_eq!(*res, Err(CoreError::Timeout)),
        _ => panic!("after the watchdog fires the handle must resolve"),
    }
}

#[test]
fn scenario_b_response_wins_late_timeout_is_noop() {
    let mut state = ready_state();
    let (fut, watch) = query(
        &mut state,
        QueryMethod::Entry(addr("addrA")),
        Timeout { ms: 2000 },
    );
    let key = match &fut.key {
        QueryKey::Entry(_) => fut.key.clone(),
        QueryKey::Links(_) => panic!("an entry query must carry an entry key"),
    };
    // the network responds at 0.5s
    state.reduce(ActionWrapper::new(Action::QueryResponse(
        key,
        Ok(entry_result("addrA")),
    )));
    match fut.poll(&state, true) {
        QueryPoll::Ready(res) => assert_eq!(*res, Ok(entry_result("addrA"))),
        _ => panic!("a resolved query must be ready"),
    }
    // the watchdog still fires at 2s; it must have no observable effect
    state.reduce(ActionWrapper::new(Action::QueryTimeout(watch.key)));
    match fut.poll(&state, true) {
        QueryPoll::Ready(res) => assert_eq!(*res, Ok(entry_result("addrA"))),
        _ => panic!("a late timeout must not override the stored result"),
    }
}

#[test]
fn concurrent_queries_for_same_address_stay_independent() {
    let mut state = ready_state();
    let fut1 = submit_query(
        &mut state,
        QueryMethod::Entry(addr("addrA")),
        "req-1".to_string(),
    );
    let fut2 = submit_query(
        &mut state,
        QueryMethod::Entry(addr("addrA")),
        "req-2".to_string(),
    );
    assert_ne!(fut1.key, fut2.key);
    state.reduce(ActionWrapper::new(Action::QueryResponse(
        fut1.key.clone(),
        Ok(entry_result("addrA")),
    )));
    match fut1.poll(&state, true) {
        QueryPoll::Ready(res) => assert_eq!(*res, Ok(entry_result("addrA"))),
        _ => panic!("the resolved query must be ready"),
    }
    match fut2.poll(&state, true) {
        QueryPoll::NotReady => {}
        _ => panic!("the second query must not be coalesced with the first"),
    }
}

#[test]
fn queries_issued_with_fresh_ids_never_collide() {
    let mut state = ready_state();
    let (fut1, _w1) = query(
        &mut state,
        QueryMethod::Entry(addr("addrA")),
        Timeout { ms: 100 },
    );
    let (fut2, _w2) = query(
        &mut state,
        QueryMethod::Entry(addr("addrA")),
        Timeout { ms: 100 },
    );
    assert_ne!(fut1.key, fut2.key);
}

#[test]
fn poll_fails_on_broken_channel_and_uninitialized_network() {
    let mut state = CoreState::new();
    let fut = submit_query(
        &mut state,
        QueryMethod::Entry(addr("addrA")),
        "req-3".to_string(),
    );
    match fut.poll(&state, false) {
        QueryPoll::Failed(e) => assert_eq!(e, CoreError::Infrastructure),
        _ => panic!("a broken dispatch channel must fail the waiter"),
    }
    match fut.poll(&state, true) {
        QueryPoll::Failed(e) => assert_eq!(e, CoreError::NotInitialized),
        _ => panic!("an uninitialized network must fail the waiter"),
    }
}

#[test]
fn link_query_key_carries_base_type_and_tag() {
    let mut state = ready_state();
    let args = GetLinksArgs {
        entry_address: addr("base1"),
        link_type: "follows".to_string(),
        tag: "friend".to_string(),
        options: GetLinksOptions {
            status_request: LinksStatusRequestKind::Live,
            timeout: Timeout { ms: 1000 },
        },
    };
    let fut = submit_query(
        &mut state,
        QueryMethod::Link(args, GetLinksNetworkQuery::Count),
        "req-4".to_string(),
    );
    match &fut.key {
        QueryKey::Links(k) => {
            assert_eq!(k.base_address, addr("base1"));
            assert_eq!(k.link_type, "follows".to_string());
            assert_eq!(k.tag, "friend".to_string());
            assert_eq!(k.id, "req-4".to_string());
        }
        QueryKey::Entry(_) => panic!("a link query must carry a links key"),
    }
}

#[test]
fn link_count_workflow_decodes_each_response() {
    let count = get_link_result_count_workflow(&Ok(NetworkQueryResult::Links(
        GetLinksNetworkResult::Count(7),
        "follows".to_string(),
        "friend".to_string(),
    )));
    assert_eq!(count, Ok(GetLinksResultCount { count: 7 }));

    let wrong_mode = get_link_result_count_workflow(&Ok(NetworkQueryResult::Links(
        GetLinksNetworkResult::Links(vec![addr("l1")]),
        "follows".to_string(),
        "friend".to_string(),
    )));
    assert_eq!(
        wrong_mode,
        Err(CoreError::Generic("Getting wrong type of GetLinks".to_string()))
    );

    let wrong_kind = get_link_result_count_workflow(&Ok(entry_result("addrA")));
    assert_eq!(
        wrong_kind,
        Err(CoreError::Generic("Could not get link".to_string()))
    );

    let failed = get_link_result_count_workflow(&Err(CoreError::Timeout));
    assert_eq!(failed, Err(CoreError::Timeout));
}

#[test]
fn take_query_result_delivers_and_clears() {
    let mut state = ready_state();
    let fut = submit_query(
        &mut state,
        QueryMethod::Entry(addr("addrA")),
        "req-5".to_string(),
    );
    // pending: nothing to take, the key stays
    assert_eq!(state.take_query_result(&fut.key), None);
    assert!(state.lookup_query(&fut.key).is_some());
    state.reduce(ActionWrapper::new(Action::QueryResponse(
        fut.key.clone(),
        Ok(entry_result("addrA")),
    )));
    assert_eq!(
        state.take_query_result(&fut.key),
        Some(Ok(entry_result("addrA")))
    );
    // delivered: the key no longer occupies the result map
    assert!(state.lookup_query(&fut.key).is_none());
}

#[test]
fn timeout_for_unknown_key_is_a_noop() {
    let mut state = ready_state();
    let key = QueryKey::Entry(dht_core::types::GetEntryKey {
        address: addr("addrZ"),
        id: "req-6".to_string(),
    });
    state.reduce(ActionWrapper::new(Action::QueryTimeout(key.clone())));
    assert!(state.lookup_query(&key).is_none());
}
