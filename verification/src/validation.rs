//! The entry-validation workflow (hold / remove) and the
//! pending-validation retry scheduler.
//!
//! Fetching a validation package and judging an entry belong to
//! outside collaborators; these functions take their outcomes as
//! arguments and are verified for every outcome, deciding what is
//! recorded, what is deferred, and what is rejected.

use vstd::prelude::*;

use crate::state::CoreState;
use crate::state::StateView;
use crate::state::reduce_spec;
use crate::types::Action;
use crate::types::ActionV;
use crate::types::ActionWrapper;
use crate::types::CoreError;
use crate::types::EntryKind;
use crate::types::EntryLifecycle;
use crate::types::EntryWithHeader;
use crate::types::PendingValidation;
use crate::types::ValidatingWorkflow;
use crate::types::ValidationData;
use crate::types::ValidationError;
use crate::types::ValidationPackage;

verus! {

/// How many retries a deferred validation may consume before it is
/// dropped and dead-lettered.
pub const RETRY_CAP: u64 = 10;

/// Holds when `s` is `prev` with exactly one deferred validation
/// recorded for the entry of `ewh`: same entry and header, the given
/// dependencies, workflow and attempt count, and no other change.
pub open spec fn pending_recorded(
    s: StateView,
    prev: StateView,
    ewh: EntryWithHeader,
    deps: Seq<Seq<char>>,
    workflow: ValidatingWorkflow,
    attempts: u64,
) -> bool {
    let addr = ewh.entry.address@;
    &&& s.pending.dom().contains(addr)
    &&& s.pending[addr].entry_with_header == ewh
    &&& s.pending[addr].dependencies.deep_view() == deps
    &&& s.pending[addr].workflow == workflow
    &&& s.pending[addr].attempts == attempts
    &&& s.pending.remove(addr) == prev.pending.remove(addr)
    &&& s.queries == prev.queries
    &&& s.holdings == prev.holdings
    &&& s.removals == prev.removals
    &&& s.published == prev.published
    &&& s.network_ready == prev.network_ready
}

/// First half of the removal workflow: reacts to the outcome of the
/// validation-package fetch.  Any failure to obtain the package — a
/// fetch error or an empty answer — is not a hard error: the entry is
/// deferred with an empty dependency set and the caller sees the
/// retryable `ValidationPending`.
pub fn hold_remove_start(
    state: &mut CoreState,
    entry_with_header: &EntryWithHeader,
    fetch: Result<Option<ValidationPackage>, CoreError>,
) -> (r: Result<ValidationData, CoreError>)
    ensures
        match fetch {
            Ok(Some(package)) => r == Ok::<ValidationData, CoreError>(
                ValidationData { package, lifecycle: EntryLifecycle::Meta },
            ) && final(state)@ == old(state)@,
            _ => r == Err::<ValidationData, CoreError>(CoreError::ValidationPending)
                && pending_recorded(
                final(state)@,
                old(state)@,
                *entry_with_header,
                Seq::empty(),
                ValidatingWorkflow::RemoveEntry,
                0,
            ),
        },
{
    match fetch {
        Ok(Some(package)) => Ok(ValidationData { package, lifecycle: EntryLifecycle::Meta }),
        _ => {
            let pv = PendingValidation {
                entry_with_header: entry_with_header.clone(),
                dependencies: Vec::new(),
                workflow: ValidatingWorkflow::RemoveEntry,
                attempts: 0,
            };
            let ghost pvv = pv;
            state.reduce(ActionWrapper::new(Action::AddPendingValidation(pv)));
            proof {
                let addr = entry_with_header.entry.address@;
                assert(pvv.dependencies.deep_view() =~= Seq::<Seq<char>>::empty());
                assert(state@.pending.remove(addr) =~= old(state)@.pending.remove(addr));
            }
            Err(CoreError::ValidationPending)
        },
    }
}

/// Second half of the removal workflow: reacts to the validator's
/// verdict.  Success applies the removal record; unresolved
/// dependencies defer the entry; any other failure rejects it with
/// no mutation applied.
pub fn hold_remove_finish(
    state: &mut CoreState,
    entry_with_header: &EntryWithHeader,
    verdict: Result<(), ValidationError>,
) -> (r: Result<(), CoreError>)
    requires
        entry_with_header.entry.kind matches EntryKind::Deletion { .. },
    ensures
        match verdict {
            Ok(_) => r == Ok::<(), CoreError>(()) && (match entry_with_header.entry.kind {
                EntryKind::Deletion { deleted_entry_address } => final(state)@ == reduce_spec(
                    old(state)@,
                    ActionV::RemoveEntry(
                        deleted_entry_address@,
                        entry_with_header.entry.address@,
                    ),
                ),
                _ => false,
            }),
            Err(ValidationError::UnresolvedDependencies(deps)) => r == Err::<(), CoreError>(
                CoreError::ValidationPending,
            ) && pending_recorded(
                final(state)@,
                old(state)@,
                *entry_with_header,
                deps.deep_view(),
                ValidatingWorkflow::RemoveEntry,
                0,
            ),
            Err(ValidationError::Fail(reason)) => r == Err::<(), CoreError>(
                CoreError::ValidationFailed(reason),
            ) && final(state)@ == old(state)@,
        },
{
    match verdict {
        Ok(_) => {
            let deleted = match &entry_with_header.entry.kind {
                EntryKind::Deletion { deleted_entry_address } => deleted_entry_address.clone(),
                _ => vstd::pervasive::unreached(),
            };
            let deletion = entry_with_header.entry.address.clone();
            state.reduce(ActionWrapper::new(Action::RemoveEntry(deleted, deletion)));
            Ok(())
        },
        Err(ValidationError::UnresolvedDependencies(deps)) => {
            let ghost depsv = deps.deep_view();
            let pv = PendingValidation {
                entry_with_header: entry_with_header.clone(),
                dependencies: deps,
                workflow: ValidatingWorkflow::RemoveEntry,
                attempts: 0,
            };
            state.reduce(ActionWrapper::new(Action::AddPendingValidation(pv)));
            proof {
                let addr = entry_with_header.entry.address@;
                assert(state@.pending.remove(addr) =~= old(state)@.pending.remove(addr));
            }
            Err(CoreError::ValidationPending)
        },
        Err(ValidationError::Fail(reason)) => Err(CoreError::ValidationFailed(reason)),
    }
}

/// The whole removal workflow over the two collaborator outcomes: the
/// package fetch, then — only if a package was obtained — the verdict
/// the validator gave for `ValidationData { package, Meta }`.
pub fn hold_remove_workflow(
    state: &mut CoreState,
    entry_with_header: &EntryWithHeader,
    fetch: Result<Option<ValidationPackage>, CoreError>,
    verdict: Result<(), ValidationError>,
) -> (r: Result<(), CoreError>)
    requires
        entry_with_header.entry.kind matches EntryKind::Deletion { .. },
    ensures
        match fetch {
            Ok(Some(_)) => match verdict {
                Ok(_) => r == Ok::<(), CoreError>(()) && (match entry_with_header.entry.kind {
                    EntryKind::Deletion { deleted_entry_address } => final(state)@ == reduce_spec(
                        old(state)@,
                        ActionV::RemoveEntry(
                            deleted_entry_address@,
                            entry_with_header.entry.address@,
                        ),
                    ),
                    _ => false,
                }),
                Err(ValidationError::UnresolvedDependencies(deps)) => r == Err::<(), CoreError>(
                    CoreError::ValidationPending,
                ) && pending_recorded(
                    final(state)@,
                    old(state)@,
                    *entry_with_header,
                    deps.deep_view(),
                    ValidatingWorkflow::RemoveEntry,
                    0,
                ),
                Err(ValidationError::Fail(reason)) => r == Err::<(), CoreError>(
                    CoreError::ValidationFailed(reason),
                ) && final(state)@ == old(state)@,
            },
            _ => r == Err::<(), CoreError>(CoreError::ValidationPending) && pending_recorded(
                final(state)@,
                old(state)@,
                *entry_with_header,
                Seq::empty(),
                ValidatingWorkflow::RemoveEntry,
                0,
            ),
        },
{
    match hold_remove_start(state, entry_with_header, fetch) {
        Err(e) => Err(e),
        Ok(_validation_data) => hold_remove_finish(state, entry_with_header, verdict),
    }
}

/// What one retry pass decided for one deferred entry.
#[derive(Debug, PartialEq, Eq)]
pub enum RetryOutcome {
    /// Nothing is pending under the address.
    NoneSuch,
    /// Validation succeeded: mutation applied, entry consumed.
    Applied,
    /// Still blocked: re-enqueued with one more attempt consumed.
    StillPending,
    /// The retry cap was reached: entry dropped and dead-lettered.
    DeadLettered,
    /// Permanent failure: entry dropped, the reason surfaced.
    Failed(String),
}

/// The local mutation a deferred validation applies once it succeeds.
/// A removal whose entry is no deletion marker has no meaningful
/// mutation; the fallback arm is never reached through the scheduler,
/// whose contract routes that case to a failure instead.
pub open spec fn mutation_of(pv: PendingValidation) -> ActionV {
    match pv.workflow {
        ValidatingWorkflow::HoldEntry => ActionV::HoldEntry(pv.entry_with_header.entry),
        ValidatingWorkflow::RemoveEntry => match pv.entry_with_header.entry.kind {
            EntryKind::Deletion { deleted_entry_address } => ActionV::RemoveEntry(
                deleted_entry_address@,
                pv.entry_with_header.entry.address@,
            ),
            _ => ActionV::HoldEntry(pv.entry_with_header.entry),
        },
    }
}

/// One scheduler pass over the deferred entry at `address`, given the
/// validator's fresh verdict.  Success applies the mutation and
/// consumes the entry; renewed unresolved dependencies re-enqueue it
/// until the retry cap; any other failure consumes it and surfaces
/// the reason.
pub fn retry_pending_validation(
    state: &mut CoreState,
    address: &crate::types::Address,
    verdict: Result<(), ValidationError>,
) -> (r: RetryOutcome)
    ensures
        !old(state)@.pending.dom().contains(address@) ==> r == RetryOutcome::NoneSuch && final(state)@ == old(state)@,
        old(state)@.pending.dom().contains(address@) ==> ({
            let pv = old(state)@.pending[address@];
            match verdict {
                Ok(_) => ({
                    &&& (pv.workflow matches ValidatingWorkflow::RemoveEntry
                        && !(pv.entry_with_header.entry.kind matches EntryKind::Deletion { .. }))
                        ==> (r matches RetryOutcome::Failed(m) && m@
                        == "removal entry is not a deletion marker"@ && final(state)@
                        == reduce_spec(old(state)@, ActionV::RemovePendingValidation(address@)))
                    &&& !(pv.workflow matches ValidatingWorkflow::RemoveEntry
                        && !(pv.entry_with_header.entry.kind matches EntryKind::Deletion { .. }))
                        ==> (r == RetryOutcome::Applied && final(state)@ == reduce_spec(
                        reduce_spec(old(state)@, mutation_of(pv)),
                        ActionV::RemovePendingValidation(address@),
                    ))
                }),
                Err(ValidationError::UnresolvedDependencies(deps)) => if pv.attempts + 1
                    < RETRY_CAP {
                    r == RetryOutcome::StillPending && pending_recorded(
                        final(state)@,
                        old(state)@,
                        pv.entry_with_header,
                        deps.deep_view(),
                        pv.workflow,
                        (pv.attempts + 1) as u64,
                    )
                } else {
                    r == RetryOutcome::DeadLettered && final(state)@ == reduce_spec(
                        old(state)@,
                        ActionV::RemovePendingValidation(address@),
                    )
                },
                Err(ValidationError::Fail(reason)) => r == RetryOutcome::Failed(reason) && final(state)@ == reduce_spec(old(state)@, ActionV::RemovePendingValidation(address@)),
            }
        }),
{
    let (entry_with_header, workflow, attempts) = match state.lookup_pending(address) {
        None => {
            return RetryOutcome::NoneSuch;
        },
        Some(pv) => (pv.entry_with_header.clone(), pv.workflow, pv.attempts),
    };
    match verdict {
        Ok(_) => {
            match workflow {
                ValidatingWorkflow::HoldEntry => {
                    state.reduce(
                        ActionWrapper::new(Action::HoldEntry(entry_with_header.entry.clone())),
                    );
                },
                ValidatingWorkflow::RemoveEntry => {
                    let deleted = match &entry_with_header.entry.kind {
                        EntryKind::Deletion { deleted_entry_address } => {
                            deleted_entry_address.clone()
                        },
                        _ => {
                            state.reduce(
                                ActionWrapper::new(
                                    Action::RemovePendingValidation(address.clone()),
                                ),
                            );
                            return RetryOutcome::Failed(
                                "removal entry is not a deletion marker".to_owned(),
                            );
                        },
                    };
                    state.reduce(
                        ActionWrapper::new(
                            Action::RemoveEntry(deleted, entry_with_header.entry.address.clone()),
                        ),
                    );
                },
            }
            state.reduce(ActionWrapper::new(Action::RemovePendingValidation(address.clone())));
            RetryOutcome::Applied
        },
        Err(ValidationError::UnresolvedDependencies(deps)) => {
            if attempts < RETRY_CAP - 1 {
                let pv = PendingValidation {
                    entry_with_header,
                    dependencies: deps,
                    workflow,
                    attempts: attempts + 1,
                };
                state.reduce(ActionWrapper::new(Action::AddPendingValidation(pv)));
                proof {
                    assert(state@.pending.remove(address@) =~= old(state)@.pending.remove(
                        address@,
                    ));
                }
                RetryOutcome::StillPending
            } else {
                state.reduce(ActionWrapper::new(Action::RemovePendingValidation(address.clone())));
                RetryOutcome::DeadLettered
            }
        },
        Err(ValidationError::Fail(reason)) => {
            state.reduce(ActionWrapper::new(Action::RemovePendingValidation(address.clone())));
            RetryOutcome::Failed(reason)
        },
    }
}

} // verus!
