//! The interface to the execution engine: what it is asked, what it hands
//! back, and how its report is settled against the resource budget.

use vstd::prelude::*;
use crate::error::EngineError;

verus! {

/// A scalar measure of computational cost.
pub type Weight = u64;

/// The entry point that a replay of the off-chain worker invokes.
pub const OFFCHAIN_WORKER_ENTRY_POINT: &'static str = "OffchainWorkerApi_offchain_worker";

/// The backend that runs the program. It is chosen once, when the driver is
/// made.
#[derive(Clone, Copy, Debug, PartialEq, Eq, Structural)]
pub enum EngineKind {
    /// Dispatches to an implementation linked into the process. Only for an
    /// operator who trusts that it matches the program in the state.
    Native,
    /// Interprets the bytes installed under the reserved code key in an
    /// isolated sandbox.
    Sandboxed,
}

/// What the host offers to the running program.
#[derive(Clone, Copy, Debug, PartialEq, Eq, Structural)]
pub struct HostCapabilities {
    /// Access to the clock.
    pub clock: bool,
    /// Access to randomness.
    pub randomness: bool,
    /// Access to the key-value store of the overlay.
    pub storage: bool,
}

impl HostCapabilities {
    /// Every capability.
    pub open spec fn all() -> HostCapabilities {
        HostCapabilities { clock: true, randomness: true, storage: true }
    }

    /// Every capability.
    pub fn full() -> (capabilities: HostCapabilities)
        ensures
            capabilities == HostCapabilities::all(),
    {
        HostCapabilities { clock: true, randomness: true, storage: true }
    }
}

/// One invocation of an entry point.
#[derive(Debug, PartialEq, Eq)]
pub struct ExecutionRequest {
    /// The name of the entry point.
    pub entry_point: String,
    /// The encoded arguments.
    pub arguments: Vec<u8>,
    /// The most that the invocation may cost.
    pub budget: Weight,
}

/// The mathematical value of an [`ExecutionRequest`].
pub struct ExecutionRequestView {
    pub entry_point: Seq<char>,
    pub arguments: Seq<u8>,
    pub budget: Weight,
}

impl DeepView for ExecutionRequest {
    type V = ExecutionRequestView;

    open spec fn deep_view(&self) -> ExecutionRequestView {
        ExecutionRequestView {
            entry_point: self.entry_point@,
            arguments: self.arguments@,
            budget: self.budget,
        }
    }
}

/// How a run of the entry point ended, as the backend saw it.
#[derive(Debug, PartialEq, Eq)]
pub enum EngineResult {
    /// The entry point returned these bytes.
    Returned(Vec<u8>),
    /// The installed program has no such entry point.
    EntryPointMissing,
    /// The program faulted.
    Trapped,
}

/// The mathematical value of an [`EngineResult`].
pub enum EngineResultView {
    Returned(Seq<u8>),
    EntryPointMissing,
    Trapped,
}

impl DeepView for EngineResult {
    type V = EngineResultView;

    open spec fn deep_view(&self) -> EngineResultView {
        match self {
            EngineResult::Returned(bytes) => EngineResultView::Returned(bytes@),
            EngineResult::EntryPointMissing => EngineResultView::EntryPointMissing,
            EngineResult::Trapped => EngineResultView::Trapped,
        }
    }
}

/// What a backend hands back from an invocation.
#[derive(Debug, PartialEq, Eq)]
pub struct EngineReport {
    /// What the run cost, up to the point where it ended or was cut off.
    pub consumed: Weight,
    /// How the run ended.
    pub result: EngineResult,
}

/// The mathematical value of an [`EngineReport`].
pub struct EngineReportView {
    pub consumed: Weight,
    pub result: EngineResultView,
}

impl DeepView for EngineReport {
    type V = EngineReportView;

    open spec fn deep_view(&self) -> EngineReportView {
        EngineReportView { consumed: self.consumed, result: self.result.deep_view() }
    }
}

/// The outcome of an invocation. It is final: nothing is retried.
#[derive(Debug, PartialEq, Eq)]
pub enum ExecutionOutcome {
    /// The entry point returned these bytes within the budget.
    Success(Vec<u8>),
    /// The invocation failed.
    Failure(EngineError),
}

/// The mathematical value of an [`ExecutionOutcome`].
pub enum ExecutionOutcomeView {
    Success(Seq<u8>),
    Failure(EngineError),
}

impl DeepView for ExecutionOutcome {
    type V = ExecutionOutcomeView;

    open spec fn deep_view(&self) -> ExecutionOutcomeView {
        match self {
            ExecutionOutcome::Success(bytes) => ExecutionOutcomeView::Success(bytes@),
            ExecutionOutcome::Failure(error) => ExecutionOutcomeView::Failure(*error),
        }
    }
}

/// The outcome that a report amounts to under a budget.
///
/// A run that cost more than the budget is exhausted, whatever it returned.
/// Within the budget, returned bytes are a success, a missing entry point
/// and a fault are the failures of those names.
pub open spec fn settled(budget: Weight, report: EngineReportView) -> ExecutionOutcomeView {
    if report.consumed > budget {
        ExecutionOutcomeView::Failure(EngineError::ResourceExhausted)
    } else {
        match report.result {
            EngineResultView::Returned(bytes) => ExecutionOutcomeView::Success(bytes),
            EngineResultView::EntryPointMissing => ExecutionOutcomeView::Failure(
                EngineError::EntryPointNotFound,
            ),
            EngineResultView::Trapped => ExecutionOutcomeView::Failure(EngineError::Trap),
        }
    }
}

/// Settles a backend's report against the budget of the request.
pub fn settle(budget: Weight, report: EngineReport) -> (outcome: ExecutionOutcome)
    ensures
        outcome.deep_view() == settled(budget, report.deep_view()),
{
    if report.consumed > budget {
        ExecutionOutcome::Failure(EngineError::ResourceExhausted)
    } else {
        match report.result {
            EngineResult::Returned(bytes) => ExecutionOutcome::Success(bytes),
            EngineResult::EntryPointMissing => ExecutionOutcome::Failure(EngineError::EntryPointNotFound),
            EngineResult::Trapped => ExecutionOutcome::Failure(EngineError::Trap),
        }
    }
}

/// An invocation that cost more than its budget is exhausted, and hands
/// out no bytes.
pub proof fn law_over_budget_is_exhausted(budget: Weight, report: EngineReportView)
    requires
        report.consumed > budget,
    ensures
        settled(budget, report) == ExecutionOutcomeView::Failure(EngineError::ResourceExhausted),
        !(settled(budget, report) is Success),
{
}

/// A success was within the budget, and hands out what the entry point
/// returned.
pub proof fn law_success_is_within_budget(budget: Weight, report: EngineReportView)
    requires
        settled(budget, report) is Success,
    ensures
        report.consumed <= budget,
        report.result == EngineResultView::Returned(settled(budget, report)->Success_0),
{
}

} // verus!
