//! Instance initialization as a step machine, the zome-init error
//! collection, and the meta version decode.
//!
//! The collaborator calls themselves (chain probe, network start,
//! publishes, zome callbacks) are performed by the surrounding
//! runtime; each step's outcome is handed back here, and the machine
//! decides what runs next, publishing only on a first initialization.

use vstd::prelude::*;
use vstd::string::StringExecFns;

use crate::types::CallbackResult;
use crate::types::CoreError;
use crate::types::Dna;
use crate::types::MetaResult;

verus! {

/// Where initialization stands; each stage awaits one collaborator.
#[derive(Clone, Copy, Debug, PartialEq, Eq, Structural)]
pub enum InitStage {
    /// Probing the local chain for DNA and agent.
    ProbeChain,
    /// Writing the initial chain (first initialization only).
    ChainInit,
    /// Starting the network subsystem.
    NetworkInit { first: bool },
    /// Publishing the agent entry (first initialization only).
    PublishAgent,
    /// Publishing the DNA entry's header (first initialization only).
    PublishDnaHeader,
    /// Publishing the agent entry's header (first initialization only).
    PublishAgentHeader,
    /// Running the zomes' init callbacks (first initialization only).
    ZomeInit,
    /// Initialization finished.
    Done,
}

/// How the collaborator call a stage was waiting on came back.
#[derive(Debug, PartialEq, Eq)]
pub enum StepOutcome {
    Success,
    Failure(CoreError),
}

/// The stage that follows `stage` under `outcome`.  A failed chain
/// probe is not an error: it means the chain is uninitialized, so the
/// machine takes the first-initialization path.  Every other failure
/// short-circuits.
pub open spec fn init_next(stage: InitStage, outcome: StepOutcome) -> Result<
    InitStage,
    CoreError,
> {
    match outcome {
        StepOutcome::Failure(e) => match stage {
            InitStage::ProbeChain => Ok(InitStage::ChainInit),
            _ => Err(e),
        },
        StepOutcome::Success => match stage {
            InitStage::ProbeChain => Ok(InitStage::NetworkInit { first: false }),
            InitStage::ChainInit => Ok(InitStage::NetworkInit { first: true }),
            InitStage::NetworkInit { first } => if first {
                Ok(InitStage::PublishAgent)
            } else {
                Ok(InitStage::Done)
            },
            InitStage::PublishAgent => Ok(InitStage::PublishDnaHeader),
            InitStage::PublishDnaHeader => Ok(InitStage::PublishAgentHeader),
            InitStage::PublishAgentHeader => Ok(InitStage::ZomeInit),
            InitStage::ZomeInit => Ok(InitStage::Done),
            InitStage::Done => Ok(InitStage::Done),
        },
    }
}

/// Entry of initialization: without a DNA nothing can start.
pub fn initialize(dna: &Option<Dna>) -> (r: Result<InitStage, CoreError>)
    ensures
        dna matches Some(_) ==> r == Ok::<InitStage, CoreError>(InitStage::ProbeChain),
        dna matches None ==> r == Err::<InitStage, CoreError>(CoreError::DnaMissing),
{
    match dna {
        Some(_) => Ok(InitStage::ProbeChain),
        None => Err(CoreError::DnaMissing),
    }
}

/// Advances the machine by one awaited outcome.
pub fn initialize_step(stage: InitStage, outcome: StepOutcome) -> (r: Result<
    InitStage,
    CoreError,
>)
    ensures
        r == init_next(stage, outcome),
{
    match outcome {
        StepOutcome::Failure(e) => match stage {
            InitStage::ProbeChain => Ok(InitStage::ChainInit),
            _ => Err(e),
        },
        StepOutcome::Success => match stage {
            InitStage::ProbeChain => Ok(InitStage::NetworkInit { first: false }),
            InitStage::ChainInit => Ok(InitStage::NetworkInit { first: true }),
            InitStage::NetworkInit { first } => if first {
                Ok(InitStage::PublishAgent)
            } else {
                Ok(InitStage::Done)
            },
            InitStage::PublishAgent => Ok(InitStage::PublishDnaHeader),
            InitStage::PublishDnaHeader => Ok(InitStage::PublishAgentHeader),
            InitStage::PublishAgentHeader => Ok(InitStage::ZomeInit),
            InitStage::ZomeInit => Ok(InitStage::Done),
            InitStage::Done => Ok(InitStage::Done),
        },
    }
}

/// The collaborator call a stage is waiting on; what each publish
/// stage sends is derived from the DNA and agent addresses by the
/// runtime around the core.
#[derive(Clone, Copy, Debug, PartialEq, Eq, Structural)]
pub enum InitAction {
    GetDnaAndAgent,
    InitializeChain,
    InitializeNetwork,
    PublishAgentEntry,
    PublishDnaHeader,
    PublishAgentHeader,
    CallZomeInit,
}

/// The call to make next in a stage, if the stage awaits one.
pub open spec fn action_of(stage: InitStage) -> Option<InitAction> {
    match stage {
        InitStage::ProbeChain => Some(InitAction::GetDnaAndAgent),
        InitStage::ChainInit => Some(InitAction::InitializeChain),
        InitStage::NetworkInit { .. } => Some(InitAction::InitializeNetwork),
        InitStage::PublishAgent => Some(InitAction::PublishAgentEntry),
        InitStage::PublishDnaHeader => Some(InitAction::PublishDnaHeader),
        InitStage::PublishAgentHeader => Some(InitAction::PublishAgentHeader),
        InitStage::ZomeInit => Some(InitAction::CallZomeInit),
        InitStage::Done => None,
    }
}

/// Which collaborator the driver must call for the given stage.
pub fn stage_action(stage: InitStage) -> (r: Option<InitAction>)
    ensures
        r == action_of(stage),
{
    match stage {
        InitStage::ProbeChain => Some(InitAction::GetDnaAndAgent),
        InitStage::ChainInit => Some(InitAction::InitializeChain),
        InitStage::NetworkInit { .. } => Some(InitAction::InitializeNetwork),
        InitStage::PublishAgent => Some(InitAction::PublishAgentEntry),
        InitStage::PublishDnaHeader => Some(InitAction::PublishDnaHeader),
        InitStage::PublishAgentHeader => Some(InitAction::PublishAgentHeader),
        InitStage::ZomeInit => Some(InitAction::CallZomeInit),
        InitStage::Done => None,
    }
}

/// The zome init results that failed, in order, as (zome, message).
pub open spec fn failures_of(results: Seq<(String, CallbackResult)>) -> Seq<(
    Seq<char>,
    Seq<char>,
)>
    decreases results.len(),
{
    if results.len() == 0 {
        Seq::empty()
    } else {
        let rest = failures_of(results.drop_last());
        match results.last().1 {
            CallbackResult::Fail(message) => rest.push((results.last().0@, message@)),
            _ => rest,
        }
    }
}

/// Collects, zome by zome, the init callbacks that failed.
pub fn collect_init_failures(results: &Vec<(String, CallbackResult)>) -> (r: Vec<(String, String)>)
    ensures
        r.deep_view() == failures_of(results@),
{
    let mut failures: Vec<(String, String)> = Vec::new();
    let mut i: usize = 0;
    while i < results.len()
        invariant
            i <= results@.len(),
            failures.deep_view() =~= failures_of(results@.subrange(0, i as int)),
        decreases results@.len() - i,
    {
        let ghost prefix = results@.subrange(0, i as int);
        let ghost next = results@.subrange(0, i as int + 1);
        proof {
            assert(next.drop_last() =~= prefix);
            assert(next.last() == results@[i as int]);
        }
        match &results[i].1 {
            CallbackResult::Fail(message) => {
                failures.push((results[i].0.clone(), message.clone()));
            },
            CallbackResult::Pass => {},
            CallbackResult::NotImplemented => {},
        }
        i = i + 1;
        proof {
            assert(failures.deep_view() =~= failures_of(results@.subrange(0, i as int)));
        }
    }
    proof {
        assert(results@.subrange(0, results@.len() as int) =~= results@);
    }
    failures
}

/// The error message of a failed zome-init stage: it names every
/// failing zome with the error its init callback reported.
pub open spec fn init_error_message(failures: Seq<(Seq<char>, Seq<char>)>) -> Seq<char>
    decreases failures.len(),
{
    if failures.len() == 0 {
        "At least one zome init returned error:"@
    } else {
        init_error_message(failures.drop_last()) + " "@ + failures.last().0 + ": "@
            + failures.last().1 + ";"@
    }
}

/// Outcome of the zome-init stage: succeeds exactly when no zome's
/// init callback failed; otherwise the error lists every failing
/// (zome, error) pair.
pub fn call_init(results: &Vec<(String, CallbackResult)>) -> (r: Result<(), CoreError>)
    ensures
        r matches Ok(_) <==> failures_of(results@).len() == 0,
        r matches Err(e) ==> e matches CoreError::Generic(m) && m@ == init_error_message(
            failures_of(results@),
        ),
{
    let failures = collect_init_failures(results);
    if failures.len() == 0 {
        Ok(())
    } else {
        let ghost fdv = failures.deep_view();
        let mut message = "At least one zome init returned error:".to_owned();
        let mut i: usize = 0;
        while i < failures.len()
            invariant
                i <= failures@.len(),
                fdv == failures.deep_view(),
                fdv.len() == failures@.len(),
                forall|j: int| 0 <= j < failures@.len() ==> #[trigger] fdv[j] == (
                    failures@[j].0@,
                    failures@[j].1@,
                ),
                message@ == init_error_message(fdv.subrange(0, i as int)),
            decreases failures@.len() - i,
        {
            let ghost prefix = fdv.subrange(0, i as int);
            let ghost next = fdv.subrange(0, i as int + 1);
            proof {
                assert(next.drop_last() =~= prefix);
                assert(next.last() == fdv[i as int]);
            }
            message.append(" ");
            message.append(failures[i].0.as_str());
            message.append(": ");
            message.append(failures[i].1.as_str());
            message.append(";");
            i = i + 1;
        }
        proof {
            assert(fdv.subrange(0, fdv.len() as int) =~= fdv);
        }
        Err(CoreError::Generic(message))
    }
}

/// Decodes the runtime's meta reply into the version string.
pub fn version(meta: MetaResult) -> (r: Result<String, CoreError>)
    ensures
        match meta {
            MetaResult::Version(v) => r == Ok::<String, CoreError>(v),
            _ => r matches Err(e) && e matches CoreError::Generic(m) && m@
                == "Wrong Meta Type, Problem In Core"@,
        },
{
    match meta {
        MetaResult::Version(v) => Ok(v),
        MetaResult::Hash(_) => Err(
            CoreError::Generic("Wrong Meta Type, Problem In Core".to_owned()),
        ),
    }
}

} // verus!
