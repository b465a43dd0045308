use dht_core::init::{
    call_init, collect_init_failures, initialize, initialize_step, stage_action, InitAction,
    InitStage, StepOutcome,
};
use dht_core::state::CoreState;
use dht_core::types::{
    Action, ActionWrapper, Address, CallbackResult, ChainHeader, CoreError, Dna, Entry, EntryKind,
    EntryWithHeader, MetaResult, PendingValidation, ValidatingWorkflow, ValidationError,
    ValidationPackage,
};
use dht_core::validation::{
    hold_remove_workflow, retry_pending_validation, RetryOutcome, RETRY_CAP,
};

fn addr(s: &str) -> Address {
    Address(s.to_string())
}

fn deletion_entry(deletion: &str, deleted: &str) -> EntryWithHeader {
    EntryWithHeader {
        entry: Entry {
            address: addr(deletion),
            kind: EntryKind::Deletion {
                deleted_entry_address: addr(deleted),
            },
        },
        header: ChainHeader {
            entry_address: addr(deletion),
        },
    }
}

fn package() -> ValidationPackage {
    ValidationPackage {
        chain_header: ChainHeader {
            entry_address: addr("author-head"),
        },
    }
}

#[test]
fn scenario_c_failed_package_fetch_defers_with_empty_deps() {
    let mut state = CoreState::new();
    let ewh = deletion_entry("del1", "addrB");
    let r = hold_remove_workflow(
        &mut state,
        &ewh,
        Err(CoreError::Timeout),
        Ok(()),
    );
    assert_eq!(r, Err(CoreError::ValidationPending));
    let pv = state
        .lookup_pending(&addr("del1"))
        .expect("a pending validation must be recorded");
    assert_eq!(pv.dependencies.len(), 0);
    assert_eq!(pv.workflow, ValidatingWorkflow::RemoveEntry);
    assert_eq!(pv.attempts, 0);
    assert!(!state.has_removal(&addr("addrB"), &addr("del1")));
}

#[test]
fn scenario_d_unresolved_deps_then_successful_retry() {
    let mut state = CoreState::new();
    let ewh = deletion_entry("del1", "addrB");
    let r = hold_remove_workflow(
        &mut state,
        &ewh,
        Ok(Some(package())),
        Err(ValidationError::UnresolvedDependencies(vec![addr("addrX")])),
    );
    assert_eq!(r, Err(CoreError::ValidationPending));
    {
        let pv = state
            .lookup_pending(&addr("del1"))
            .expect("a pending validation must be recorded");
        assert_eq!(pv.dependencies, vec![addr("addrX")]);
    }
    assert!(!state.has_removal(&addr("addrB"), &addr("del1")));
    // "addrX" becomes resolvable: the next scheduler pass validates
    let outcome = retry_pending_validation(&mut state, &addr("del1"), Ok(()));
    assert_eq!(outcome, RetryOutcome::Applied);
    assert!(state.has_removal(&addr("addrB"), &addr("del1")));
    assert!(state.lookup_pending(&addr("del1")).is_none());
    // a second pass finds nothing left to do and writes nothing new
    let again = retry_pending_validation(&mut state, &addr("del1"), Ok(()));
    assert_eq!(again, RetryOutcome::NoneSuch);
    assert!(state.has_removal(&addr("addrB"), &addr("del1")));
}

#[test]
fn successful_workflow_applies_the_removal_record() {
    let mut state = CoreState::new();
    let ewh = deletion_entry("del2", "addrC");
    let r = hold_remove_workflow(&mut state, &ewh, Ok(Some(package())), Ok(()));
    assert_eq!(r, Ok(()));
    assert!(state.has_removal(&addr("addrC"), &addr("del2")));
}

#[test]
fn applying_the_removal_twice_converges() {
    let mut state = CoreState::new();
    state.reduce(ActionWrapper::new(Action::RemoveEntry(
        addr("addrB"),
        addr("del1"),
    )));
    state.reduce(ActionWrapper::new(Action::RemoveEntry(
        addr("addrB"),
        addr("del1"),
    )));
    assert!(state.has_removal(&addr("addrB"), &addr("del1")));
    assert!(!state.has_removal(&addr("del1"), &addr("addrB")));
}

#[test]
fn missing_package_defers_like_a_failed_fetch() {
    let mut state = CoreState::new();
    let ewh = deletion_entry("del3", "addrD");
    let r = hold_remove_workflow(&mut state, &ewh, Ok(None), Ok(()));
    assert_eq!(r, Err(CoreError::ValidationPending));
    let pv = state
        .lookup_pending(&addr("del3"))
        .expect("an unobtainable package must defer the entry");
    assert_eq!(pv.dependencies.len(), 0);
    assert_eq!(pv.workflow, ValidatingWorkflow::RemoveEntry);
    assert!(!state.has_removal(&addr("addrD"), &addr("del3")));
}

#[test]
fn failed_validation_is_terminal_and_applies_nothing() {
    let mut state = CoreState::new();
    let ewh = deletion_entry("del4", "addrE");
    let r = hold_remove_workflow(
        &mut state,
        &ewh,
        Ok(Some(package())),
        Err(ValidationError::Fail("bad provenance".to_string())),
    );
    assert_eq!(r, Err(CoreError::ValidationFailed("bad provenance".to_string())));
    assert!(state.lookup_pending(&addr("del4")).is_none());
    assert!(!state.has_removal(&addr("addrE"), &addr("del4")));
}

#[test]
fn renewed_unresolved_deps_keep_the_entry_pending() {
    let mut state = CoreState::new();
    let ewh = deletion_entry("del5", "addrF");
    hold_remove_workflow(
        &mut state,
        &ewh,
        Ok(Some(package())),
        Err(ValidationError::UnresolvedDependencies(vec![addr("addrX")])),
    )
    .expect_err("unresolved dependencies must defer the entry");
    let outcome = retry_pending_validation(
        &mut state,
        &addr("del5"),
        Err(ValidationError::UnresolvedDependencies(vec![addr("addrX")])),
    );
    assert_eq!(outcome, RetryOutcome::StillPending);
    let pv = state.lookup_pending(&addr("del5")).expect("still pending");
    assert_eq!(pv.attempts, 1);
    assert_eq!(pv.dependencies, vec![addr("addrX")]);
}

#[test]
fn retry_cap_dead_letters_the_entry() {
    let mut state = CoreState::new();
    let ewh = deletion_entry("del6", "addrG");
    state.reduce(ActionWrapper::new(Action::AddPendingValidation(
        PendingValidation {
            entry_with_header: ewh,
            dependencies: vec![addr("addrX")],
            workflow: ValidatingWorkflow::RemoveEntry,
            attempts: RETRY_CAP - 1,
        },
    )));
    let outcome = retry_pending_validation(
        &mut state,
        &addr("del6"),
        Err(ValidationError::UnresolvedDependencies(vec![addr("addrX")])),
    );
    assert_eq!(outcome, RetryOutcome::DeadLettered);
    assert!(state.lookup_pending(&addr("del6")).is_none());
    assert!(!state.has_removal(&addr("addrG"), &addr("del6")));
}

#[test]
fn retry_failure_surfaces_the_reason_and_consumes_the_entry() {
    let mut state = CoreState::new();
    let ewh = deletion_entry("del7", "addrH");
    state.reduce(ActionWrapper::new(Action::AddPendingValidation(
        PendingValidation {
            entry_with_header: ewh,
            dependencies: vec![],
            workflow: ValidatingWorkflow::RemoveEntry,
            attempts: 0,
        },
    )));
    let outcome = retry_pending_validation(
        &mut state,
        &addr("del7"),
        Err(ValidationError::Fail("invalid".to_string())),
    );
    assert_eq!(outcome, RetryOutcome::Failed("invalid".to_string()));
    assert!(state.lookup_pending(&addr("del7")).is_none());
}

#[test]
fn retry_applies_a_hold_workflow_by_holding_the_entry() {
    let mut state = CoreState::new();
    let held = EntryWithHeader {
        entry: Entry {
            address: addr("app1"),
            kind: EntryKind::App,
        },
        header: ChainHeader {
            entry_address: addr("app1"),
        },
    };
    state.reduce(ActionWrapper::new(Action::AddPendingValidation(
        PendingValidation {
            entry_with_header: held,
            dependencies: vec![],
            workflow: ValidatingWorkflow::HoldEntry,
            attempts: 0,
        },
    )));
    let outcome = retry_pending_validation(&mut state, &addr("app1"), Ok(()));
    assert_eq!(outcome, RetryOutcome::Applied);
    let e = state.get_holding(&addr("app1")).expect("entry must be held");
    assert_eq!(e.kind, EntryKind::App);
    assert!(state.lookup_pending(&addr("app1")).is_none());
}

#[test]
fn publish_records_the_address_once() {
    let mut state = CoreState::new();
    assert!(!state.has_published(&addr("agent1")));
    state.reduce(ActionWrapper::new(Action::Publish(addr("agent1"))));
    state.reduce(ActionWrapper::new(Action::Publish(addr("agent1"))));
    assert!(state.has_published(&addr("agent1")));
    assert!(!state.has_published(&addr("agent2")));
}

#[test]
fn initialize_without_dna_is_refused() {
    assert_eq!(initialize(&None), Err(CoreError::DnaMissing));
}

#[test]
fn first_initialization_runs_the_publish_path() {
    let dna = Dna {
        address: addr("dna1"),
        zome_names: vec!["main".to_string()],
    };
    let mut stage = initialize(&Some(dna)).expect("a DNA must start the machine");
    assert_eq!(stage, InitStage::ProbeChain);
    assert_eq!(stage_action(stage), Some(InitAction::GetDnaAndAgent));
    // no DNA and agent in the chain yet: first initialization
    stage = initialize_step(
        stage,
        StepOutcome::Failure(CoreError::Generic("uninitialized".to_string())),
    )
    .unwrap();
    assert_eq!(stage, InitStage::ChainInit);
    stage = initialize_step(stage, StepOutcome::Success).unwrap();
    assert_eq!(stage, InitStage::NetworkInit { first: true });
    stage = initialize_step(stage, StepOutcome::Success).unwrap();
    assert_eq!(stage, InitStage::PublishAgent);
    stage = initialize_step(stage, StepOutcome::Success).unwrap();
    assert_eq!(stage, InitStage::PublishDnaHeader);
    stage = initialize_step(stage, StepOutcome::Success).unwrap();
    assert_eq!(stage, InitStage::PublishAgentHeader);
    stage = initialize_step(stage, StepOutcome::Success).unwrap();
    assert_eq!(stage, InitStage::ZomeInit);
    assert_eq!(stage_action(stage), Some(InitAction::CallZomeInit));
    stage = initialize_step(stage, StepOutcome::Success).unwrap();
    assert_eq!(stage, InitStage::Done);
    assert_eq!(stage_action(stage), None);
}

#[test]
fn repeat_initialization_skips_the_publish_path() {
    let mut stage = InitStage::ProbeChain;
    stage = initialize_step(stage, StepOutcome::Success).unwrap();
    assert_eq!(stage, InitStage::NetworkInit { first: false });
    stage = initialize_step(stage, StepOutcome::Success).unwrap();
    assert_eq!(stage, InitStage::Done);
}

#[test]
fn initialization_failures_short_circuit() {
    let r = initialize_step(
        InitStage::NetworkInit { first: true },
        StepOutcome::Failure(CoreError::NotInitialized),
    );
    assert_eq!(r, Err(CoreError::NotInitialized));
    let r = initialize_step(
        InitStage::ChainInit,
        StepOutcome::Failure(CoreError::Generic("disk".to_string())),
    );
    assert_eq!(r, Err(CoreError::Generic("disk".to_string())));
}

#[test]
fn call_init_collects_exactly_the_failing_zomes() {
    let results = vec![
        ("alpha".to_string(), CallbackResult::Pass),
        ("beta".to_string(), CallbackResult::Fail("boom".to_string())),
        ("gamma".to_string(), CallbackResult::NotImplemented),
    ];
    let failures = collect_init_failures(&results);
    assert_eq!(failures, vec![("beta".to_string(), "boom".to_string())]);
    assert_eq!(
        call_init(&results),
        Err(CoreError::Generic(
            "At least one zome init returned error: beta: boom;".to_string()
        ))
    );
    let two_failures = vec![
        ("alpha".to_string(), CallbackResult::Fail("a".to_string())),
        ("beta".to_string(), CallbackResult::Fail("b".to_string())),
    ];
    assert_eq!(
        call_init(&two_failures),
        Err(CoreError::Generic(
            "At least one zome init returned error: alpha: a; beta: b;".to_string()
        ))
    );
    let all_good = vec![
        ("alpha".to_string(), CallbackResult::Pass),
        ("beta".to_string(), CallbackResult::NotImplemented),
    ];
    assert_eq!(call_init(&all_good), Ok(()));
}

#[test]
fn version_decodes_only_the_version_reply() {
    assert_eq!(
        dht_core::init::version(MetaResult::Version("0.0.52-alpha2".to_string())),
        Ok("0.0.52-alpha2".to_string())
    );
    assert_eq!(
        dht_core::init::version(MetaResult::Hash("abc".to_string())),
        Err(CoreError::Generic(
            "Wrong Meta Type, Problem In Core".to_string()
        ))
    );
}
