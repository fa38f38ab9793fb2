//! The replay driver: a linear state machine that takes a replay from the
//! command to its outcome.
//!
//! The driver performs no input or output. Each step takes the event that
//! answers the action it asked for last, and returns the next action. The
//! caller performs the actions: it fetches the header and the state, loads
//! the candidate program, and runs the execution engine.

use vstd::prelude::*;
use crate::advisory::{Advisory, Side};
use crate::bytes::{bytes_equal, optional_bytes};
use crate::code::{
    install_code, installed_code, original_code, substituted, Runtime, RuntimeView, Substitution,
};
use crate::command::{BlockReference, BlockReferenceView, OffchainWorkerCmd, OffchainWorkerCmdView, State, StateView};
use crate::engine::{
    settle, settled, EngineKind, EngineReport, EngineReportView, ExecutionOutcome,
    ExecutionOutcomeView, ExecutionRequest, ExecutionRequestView, HostCapabilities, Weight,
    OFFCHAIN_WORKER_ENTRY_POINT,
};
use crate::keys::reserved_code_key;
use crate::error::{EngineError, ReplayError};
use crate::overlay::{entries_view, map_of, CodeRecordView, Entry, OverlayView, StateOverlay};
use crate::snapshot::{
    fits_image, image_of, law_capture_then_resolve, parsed, resolve_snapshot, Resolution,
};
use crate::version::{check_versions, comparison, described};

verus! {

/// How far a replay has come.
#[derive(Clone, Copy, Debug, PartialEq, Eq, Structural)]
pub enum Stage {
    /// The command is accepted; the header is being fetched.
    Init,
    /// The header is known; the state is being fetched.
    HeaderResolved,
    /// The overlay is built; the candidate program is being loaded, or the
    /// versions of the two programs are being read.
    StateBuilt,
    /// The program to run is settled.
    CodeResolved,
    /// The entry point is being run.
    Invoked,
    /// The entry point returned within its budget.
    Success,
    /// The replay failed.
    Failed,
}

impl Stage {
    /// The place of the stage in the order of a replay.
    pub open spec fn rank(self) -> nat {
        match self {
            Stage::Init => 0,
            Stage::HeaderResolved => 1,
            Stage::StateBuilt => 2,
            Stage::CodeResolved => 3,
            Stage::Invoked => 4,
            Stage::Success => 5,
            Stage::Failed => 5,
        }
    }

    /// Whether the replay has ended.
    pub open spec fn terminal(self) -> bool {
        self == Stage::Success || self == Stage::Failed
    }
}

/// What happened to the action that the driver asked for.
#[derive(Debug, PartialEq, Eq)]
pub enum ReplayEvent {
    /// The header was fetched; these are its encoded bytes.
    HeaderFetched(Vec<u8>),
    /// The live peer delivered these entries.
    StateFetched(Vec<Entry>),
    /// The snapshot file holds these bytes.
    SnapshotRead(Vec<u8>),
    /// The candidate program was built or read.
    CodeLoaded(Vec<u8>),
    /// The engine read these version bytes out of the two programs; `None`
    /// where it could not.
    VersionsRead { original: Option<Vec<u8>>, candidate: Option<Vec<u8>> },
    /// The engine ran the entry point.
    EngineReturned(EngineReport),
    /// The action failed.
    Failed(ReplayError),
}

/// The mathematical value of a [`ReplayEvent`].
pub enum ReplayEventView {
    HeaderFetched(Seq<u8>),
    StateFetched(Seq<(Seq<u8>, Seq<u8>)>),
    SnapshotRead(Seq<u8>),
    CodeLoaded(Seq<u8>),
    VersionsRead { original: Option<Seq<u8>>, candidate: Option<Seq<u8>> },
    EngineReturned(EngineReportView),
    Failed(ReplayError),
}

impl DeepView for ReplayEvent {
    type V = ReplayEventView;

    open spec fn deep_view(&self) -> ReplayEventView {
        match self {
            ReplayEvent::HeaderFetched(header) => ReplayEventView::HeaderFetched(header@),
            ReplayEvent::StateFetched(entries) => ReplayEventView::StateFetched(entries_view(entries@)),
            ReplayEvent::SnapshotRead(image) => ReplayEventView::SnapshotRead(image@),
            ReplayEvent::CodeLoaded(code) => ReplayEventView::CodeLoaded(code@),
            ReplayEvent::VersionsRead { original, candidate } => ReplayEventView::VersionsRead {
                original: optional_bytes(*original),
                candidate: optional_bytes(*candidate),
            },
            ReplayEvent::EngineReturned(report) => ReplayEventView::EngineReturned(report.deep_view()),
            ReplayEvent::Failed(error) => ReplayEventView::Failed(*error),
        }
    }
}

/// What the caller is to do next.
#[derive(Debug, PartialEq, Eq)]
#[allow(inconsistent_fields)]
pub enum ReplayAction {
    /// Fetch the header of the block `at` from the peer at `uri`.
    FetchHeader { uri: String, at: BlockReference },
    /// Fetch every entry of the state from the peer at `uri`, at the block
    /// `at`, or at the peer's latest block.
    FetchState { uri: String, at: Option<BlockReference> },
    /// Read the snapshot file.
    ReadSnapshot { path: String },
    /// Build the candidate program from the local source tree.
    BuildLocalCode,
    /// Read the candidate program from the file.
    ReadCodeFile { path: String },
    /// Let the engine read the version out of each of the two programs.
    ReadVersions { original: Vec<u8>, candidate: Vec<u8> },
    /// Run the request on the driver's overlay, with the given backend.
    Invoke { engine: EngineKind, request: ExecutionRequest, capabilities: HostCapabilities },
    /// Nothing is left to do: the replay has ended.
    Finish,
    /// The event does not answer what the driver waits for. It changed
    /// nothing.
    Ignored,
}

/// The mathematical value of a [`ReplayAction`].
#[allow(inconsistent_fields)]
pub enum ReplayActionView {
    FetchHeader { uri: Seq<char>, at: BlockReferenceView },
    FetchState { uri: Seq<char>, at: Option<BlockReferenceView> },
    ReadSnapshot { path: Seq<char> },
    BuildLocalCode,
    ReadCodeFile { path: Seq<char> },
    ReadVersions { original: Seq<u8>, candidate: Seq<u8> },
    Invoke { engine: EngineKind, request: ExecutionRequestView, capabilities: HostCapabilities },
    Finish,
    Ignored,
}

impl DeepView for ReplayAction {
    type V = ReplayActionView;

    open spec fn deep_view(&self) -> ReplayActionView {
        match self {
            ReplayAction::FetchHeader { uri, at } => ReplayActionView::FetchHeader {
                uri: uri@,
                at: at.deep_view(),
            },
            ReplayAction::FetchState { uri, at } => ReplayActionView::FetchState {
                uri: uri@,
                at: at.deep_view(),
            },
            ReplayAction::ReadSnapshot { path } => ReplayActionView::ReadSnapshot { path: path@ },
            ReplayAction::BuildLocalCode => ReplayActionView::BuildLocalCode,
            ReplayAction::ReadCodeFile { path } => ReplayActionView::ReadCodeFile { path: path@ },
            ReplayAction::ReadVersions { original, candidate } => ReplayActionView::ReadVersions {
                original: original@,
                candidate: candidate@,
            },
            ReplayAction::Invoke { engine, request, capabilities } => ReplayActionView::Invoke {
                engine: *engine,
                request: request.deep_view(),
                capabilities: *capabilities,
            },
            ReplayAction::Finish => ReplayActionView::Finish,
            ReplayAction::Ignored => ReplayActionView::Ignored,
        }
    }
}

/// The mathematical value of a [`ReplayDriver`].
pub struct DriverView {
    /// Where the state comes from.
    pub source: StateView,
    /// Where the program comes from.
    pub runtime: RuntimeView,
    /// The backend that runs the program.
    pub engine: EngineKind,
    /// The most that the invocation may cost.
    pub budget: Weight,
    /// How far the replay has come.
    pub stage: Stage,
    /// Why the replay failed, and in which stage; `None` unless it failed.
    pub failure: Option<(Stage, ReplayError)>,
    /// The encoded header; empty until it is fetched.
    pub header: Seq<u8>,
    /// The state; empty until it is built.
    pub overlay: OverlayView,
    /// The warnings so far, oldest first.
    pub advisories: Seq<Advisory>,
    /// What the entry point returned; empty unless the replay succeeded.
    pub output: Seq<u8>,
}

impl DriverView {
    /// The driver with one more warning.
    pub open spec fn warned(self, advisory: Advisory) -> DriverView {
        DriverView { advisories: self.advisories.push(advisory), ..self }
    }

    /// The driver with the warning, if the condition holds.
    pub open spec fn warned_if(self, condition: bool, advisory: Advisory) -> DriverView {
        if condition {
            self.warned(advisory)
        } else {
            self
        }
    }

    /// The driver after a failure in its present stage.
    pub open spec fn failed(self, error: ReplayError) -> DriverView {
        DriverView { stage: Stage::Failed, failure: Some((self.stage, error)), ..self }
    }

    /// The request that the driver hands to the engine: the fixed entry
    /// point, the header as its argument, and the budget.
    pub open spec fn request(self) -> ExecutionRequestView {
        ExecutionRequestView {
            entry_point: OFFCHAIN_WORKER_ENTRY_POINT@,
            arguments: self.header,
            budget: self.budget,
        }
    }

    /// The action that asks for the state.
    pub open spec fn state_request(self) -> ReplayActionView {
        match self.source {
            StateView::Live { uri, at } => ReplayActionView::FetchState { uri, at },
            StateView::Snap { snapshot_path } => ReplayActionView::ReadSnapshot { path: snapshot_path },
        }
    }

    /// The program is settled: the entry point is invoked. The sandboxed
    /// backend runs the installed bytes, so without any it has nothing to
    /// search for the entry point, and the replay fails at once.
    pub open spec fn code_resolved(self) -> (DriverView, ReplayActionView) {
        let resolved = DriverView { stage: Stage::CodeResolved, ..self };
        if installed_code(self.overlay) is None && self.engine == EngineKind::Sandboxed {
            (
                resolved.failed(ReplayError::Engine(EngineError::EntryPointNotFound)),
                ReplayActionView::Finish,
            )
        } else {
            (
                DriverView { stage: Stage::Invoked, ..self },
                ReplayActionView::Invoke {
                    engine: self.engine,
                    request: self.request(),
                    capabilities: HostCapabilities::all(),
                },
            )
        }
    }

    /// The header has arrived: the state is asked for.
    pub open spec fn header_fetched(self, header: Seq<u8>) -> (DriverView, ReplayActionView) {
        (DriverView { stage: Stage::HeaderResolved, header, ..self }, self.state_request())
    }

    /// The state has arrived: the overlay is built. Where the state's own
    /// program is run, the program is settled with that; else the candidate
    /// is asked for.
    pub open spec fn state_built(self, map: Map<Seq<u8>, Seq<u8>>) -> (DriverView, ReplayActionView) {
        let built = DriverView {
            stage: Stage::StateBuilt,
            overlay: OverlayView { map, record: CodeRecordView::Untouched },
            ..self
        };
        match self.runtime {
            RuntimeView::Remote => built.warned_if(
                installed_code(built.overlay) is None,
                Advisory::MissingCode,
            ).code_resolved(),
            RuntimeView::Local => (built, ReplayActionView::BuildLocalCode),
            RuntimeView::Path(path) => (built, ReplayActionView::ReadCodeFile { path }),
        }
    }

    /// The snapshot file was read. An image that does not parse is corrupt.
    /// An image whose header is not the fetched header describes another
    /// block: that is warned of, and the fetched header stays.
    pub open spec fn snapshot_read(self, image: Seq<u8>) -> (DriverView, ReplayActionView) {
        match parsed(image) {
            Some(held) => self.warned_if(
                held.header != self.header,
                Advisory::InconsistentReference,
            ).state_built(map_of(held.entries)),
            None => (self.failed(ReplayError::CorruptSnapshot), ReplayActionView::Finish),
        }
    }

    /// The candidate has arrived: it is installed. Without an original
    /// there is nothing to compare it with, and two programs that are the
    /// same bytes need no comparison; else the versions are asked for.
    pub open spec fn code_loaded(self, code: Seq<u8>) -> (DriverView, ReplayActionView) {
        let installed = DriverView { overlay: substituted(self.overlay, Some(code)), ..self };
        match original_code(self.overlay) {
            None => installed.warned(Advisory::MissingCode).code_resolved(),
            Some(original) => if original == code {
                installed.code_resolved()
            } else {
                (installed, ReplayActionView::ReadVersions { original, candidate: code })
            },
        }
    }

    /// The versions have arrived: they are compared, and what the
    /// comparison finds is warned of. The replay goes on whatever it finds.
    pub open spec fn versions_read(self, original: Option<Seq<u8>>, candidate: Option<Seq<u8>>) -> (
        DriverView,
        ReplayActionView,
    ) {
        let report = comparison(described(original), described(candidate));
        self.warned_if(!report.original_known, Advisory::VersionDecodeFailed(Side::Original)).warned_if(
            !report.candidate_known,
            Advisory::VersionDecodeFailed(Side::Candidate),
        ).warned_if(report.mismatch(), Advisory::VersionMismatch(report)).code_resolved()
    }

    /// The engine has returned: its report is settled against the budget.
    pub open spec fn engine_returned(self, report: EngineReportView) -> (DriverView, ReplayActionView) {
        match settled(self.budget, report) {
            ExecutionOutcomeView::Success(output) => (
                DriverView { stage: Stage::Success, output, ..self },
                ReplayActionView::Finish,
            ),
            ExecutionOutcomeView::Failure(error) => (
                self.failed(ReplayError::Engine(error)),
                ReplayActionView::Finish,
            ),
        }
    }

    /// Whether the driver waits for the candidate program.
    pub open spec fn awaits_code(self) -> bool {
        self.stage == Stage::StateBuilt && !(self.runtime is Remote) && self.overlay.record
            == CodeRecordView::Untouched
    }

    /// Whether the driver waits for the versions of the two programs.
    pub open spec fn awaits_versions(self) -> bool {
        self.stage == Stage::StateBuilt && self.overlay.record != CodeRecordView::Untouched
    }

    /// One step of the replay: the driver after the event, and the action
    /// that it asks for next.
    pub open spec fn stepped(self, event: ReplayEventView) -> (DriverView, ReplayActionView) {
        if self.stage.terminal() {
            (self, ReplayActionView::Finish)
        } else {
            match event {
                ReplayEventView::Failed(error) => (self.failed(error), ReplayActionView::Finish),
                ReplayEventView::HeaderFetched(header) if self.stage == Stage::Init => self.header_fetched(
                    header,
                ),
                ReplayEventView::StateFetched(entries) if self.stage == Stage::HeaderResolved
                    && self.source is Live => self.state_built(map_of(entries)),
                ReplayEventView::SnapshotRead(image) if self.stage == Stage::HeaderResolved
                    && self.source is Snap => self.snapshot_read(image),
                ReplayEventView::CodeLoaded(code) if self.awaits_code() => self.code_loaded(code),
                ReplayEventView::VersionsRead { original, candidate } if self.awaits_versions() =>
                    self.versions_read(original, candidate),
                ReplayEventView::EngineReturned(report) if self.stage == Stage::Invoked =>
                    self.engine_returned(report),
                _ => (self, ReplayActionView::Ignored),
            }
        }
    }
}

/// The driver and the first action of a replay.
///
/// The header is fetched at the command's header reference, from the
/// command's header endpoint. A command that names no block, or no endpoint,
/// is ambiguous, and the replay fails before anything is fetched. A header
/// reference that disagrees with the block of a live state is warned of.
pub open spec fn begun(
    command: OffchainWorkerCmdView,
    runtime: RuntimeView,
    engine: EngineKind,
    budget: Weight,
) -> (DriverView, ReplayActionView) {
    let fresh = DriverView {
        source: command.state,
        runtime,
        engine,
        budget,
        stage: Stage::Init,
        failure: None,
        header: Seq::empty(),
        overlay: OverlayView { map: Map::empty(), record: CodeRecordView::Untouched },
        advisories: Seq::empty(),
        output: Seq::empty(),
    };
    match (command.header_reference(), command.header_endpoint()) {
        (Some(at), Some(uri)) => (
            fresh.warned_if(command.references_disagree(), Advisory::InconsistentReference),
            ReplayActionView::FetchHeader { uri, at },
        ),
        _ => (fresh.failed(ReplayError::AmbiguousReference), ReplayActionView::Finish),
    }
}

/// The driver of one replay.
///
/// It owns the overlay of the replay and everything that the replay has
/// found out so far. It is made by [`ReplayDriver::start`] and moved on by
/// [`ReplayDriver::step`].
#[derive(Debug)]
pub struct ReplayDriver {
    source: State,
    runtime: Runtime,
    engine: EngineKind,
    budget: Weight,
    stage: Stage,
    failure: Option<(Stage, ReplayError)>,
    header: Vec<u8>,
    overlay: StateOverlay,
    advisories: Vec<Advisory>,
    output: Vec<u8>,
}

impl View for ReplayDriver {
    type V = DriverView;

    closed spec fn view(&self) -> DriverView {
        DriverView {
            source: self.source.deep_view(),
            runtime: self.runtime.deep_view(),
            engine: self.engine,
            budget: self.budget,
            stage: self.stage,
            failure: self.failure,
            header: self.header@,
            overlay: self.overlay@,
            advisories: self.advisories@,
            output: self.output@,
        }
    }
}

impl ReplayDriver {
    /// The driver's invariant: its overlay is well formed.
    pub closed spec fn wf(&self) -> bool {
        self.overlay.wf()
    }

    /// Starts a replay: makes the driver, and says what to fetch first.
    pub fn start(command: OffchainWorkerCmd, runtime: Runtime, engine: EngineKind, budget: Weight) -> (started: (
        ReplayDriver,
        ReplayAction,
    ))
        ensures
            started.0.wf(),
            (started.0@, started.1.deep_view()) == begun(
                command.deep_view(),
                runtime.deep_view(),
                engine,
                budget,
            ),
    {
        let at = command.header_at();
        let uri = command.header_ws_uri();
        let disagree = command.references_disagree();
        let mut driver = ReplayDriver {
            source: command.state,
            runtime,
            engine,
            budget,
            stage: Stage::Init,
            failure: None,
            header: Vec::new(),
            overlay: StateOverlay::new(),
            advisories: Vec::new(),
            output: Vec::new(),
        };
        match (at, uri) {
            (Ok(at), Ok(uri)) => {
                if disagree {
                    driver.warn(Advisory::InconsistentReference);
                }
                (driver, ReplayAction::FetchHeader { uri, at })
            },
            _ => {
                let action = driver.fail(ReplayError::AmbiguousReference);
                (driver, action)
            },
        }
    }

    /// Records a warning.
    fn warn(&mut self, advisory: Advisory)
        requires
            old(self).wf(),
        ensures
            final(self).wf(),
            final(self)@ == old(self)@.warned(advisory),
    {
        self.advisories.push(advisory);
    }

    /// Ends the replay with a failure in the present stage.
    fn fail(&mut self, error: ReplayError) -> (action: ReplayAction)
        requires
            old(self).wf(),
        ensures
            final(self).wf(),
            final(self)@ == old(self)@.failed(error),
            action.deep_view() == ReplayActionView::Finish,
    {
        self.failure = Some((self.stage, error));
        self.stage = Stage::Failed;
        ReplayAction::Finish
    }

    /// Whether a program is installed under the reserved code key.
    fn has_code(&self) -> (present: bool)
        ensures
            present == (installed_code(self@.overlay) is Some),
    {
        let key = reserved_code_key();
        self.overlay.contains_key(key.as_slice())
    }

    /// Settles the program and invokes the entry point.
    fn resolve_code(&mut self) -> (action: ReplayAction)
        requires
            old(self).wf(),
        ensures
            final(self).wf(),
            (final(self)@, action.deep_view()) == old(self)@.code_resolved(),
    {
        let sandboxed = match self.engine {
            EngineKind::Sandboxed => true,
            EngineKind::Native => false,
        };
        if !self.has_code() && sandboxed {
            self.stage = Stage::CodeResolved;
            self.fail(ReplayError::Engine(EngineError::EntryPointNotFound))
        } else {
            self.stage = Stage::Invoked;
            ReplayAction::Invoke {
                engine: self.engine,
                request: ExecutionRequest {
                    entry_point: OFFCHAIN_WORKER_ENTRY_POINT.to_owned(),
                    arguments: self.header.clone(),
                    budget: self.budget,
                },
                capabilities: HostCapabilities::full(),
            }
        }
    }

    /// Takes the header in, and asks for the state.
    fn take_header(&mut self, header: Vec<u8>) -> (action: ReplayAction)
        requires
            old(self).wf(),
        ensures
            final(self).wf(),
            (final(self)@, action.deep_view()) == old(self)@.header_fetched(header@),
    {
        self.header = header;
        self.stage = Stage::HeaderResolved;
        match &self.source {
            State::Live(live) => {
                let at = match &live.at {
                    Some(reference) => Some(reference.clone()),
                    None => None,
                };
                ReplayAction::FetchState { uri: live.uri.clone(), at }
            },
            State::Snap { snapshot_path } => ReplayAction::ReadSnapshot { path: snapshot_path.clone() },
        }
    }

    /// Takes the state in as the overlay, and settles or asks for the
    /// program.
    fn take_state(&mut self, overlay: StateOverlay) -> (action: ReplayAction)
        requires
            old(self).wf(),
            overlay.wf(),
            overlay@.record == CodeRecordView::Untouched,
        ensures
            final(self).wf(),
            (final(self)@, action.deep_view()) == old(self)@.state_built(overlay@.map),
    {
        self.overlay = overlay;
        self.stage = Stage::StateBuilt;
        match &self.runtime {
            Runtime::Remote => {
                if !self.has_code() {
                    self.warn(Advisory::MissingCode);
                }
                self.resolve_code()
            },
            Runtime::Local => ReplayAction::BuildLocalCode,
            Runtime::Path(path) => ReplayAction::ReadCodeFile { path: path.clone() },
        }
    }

    /// Resolves the snapshot image and takes its state in.
    fn take_snapshot(&mut self, image: Vec<u8>) -> (action: ReplayAction)
        requires
            old(self).wf(),
        ensures
            final(self).wf(),
            (final(self)@, action.deep_view()) == old(self)@.snapshot_read(image@),
    {
        match resolve_snapshot(image.as_slice()) {
            Ok(Resolution { header, overlay }) => {
                if !bytes_equal(header.as_slice(), self.header.as_slice()) {
                    self.warn(Advisory::InconsistentReference);
                }
                self.take_state(overlay)
            },
            Err(error) => self.fail(error),
        }
    }

    /// Installs the candidate, and settles the program or asks for the
    /// versions.
    fn take_code(&mut self, code: Vec<u8>) -> (action: ReplayAction)
        requires
            old(self).wf(),
        ensures
            final(self).wf(),
            (final(self)@, action.deep_view()) == old(self)@.code_loaded(code@),
    {
        let Substitution { original, candidate } = install_code(&mut self.overlay, code);
        match original {
            None => {
                self.warn(Advisory::MissingCode);
                self.resolve_code()
            },
            Some(original) => {
                if bytes_equal(original.as_slice(), candidate.as_slice()) {
                    self.resolve_code()
                } else {
                    ReplayAction::ReadVersions { original, candidate }
                }
            },
        }
    }

    /// Compares the versions, and settles the program.
    fn take_versions(&mut self, original: Option<Vec<u8>>, candidate: Option<Vec<u8>>) -> (action:
        ReplayAction)
        requires
            old(self).wf(),
        ensures
            final(self).wf(),
            (final(self)@, action.deep_view()) == old(self)@.versions_read(
                optional_bytes(original),
                optional_bytes(candidate),
            ),
    {
        let report = check_versions(&original, &candidate);
        if !report.original_known {
            self.warn(Advisory::VersionDecodeFailed(Side::Original));
        }
        if !report.candidate_known {
            self.warn(Advisory::VersionDecodeFailed(Side::Candidate));
        }
        if report.has_mismatch() {
            self.warn(Advisory::VersionMismatch(report));
        }
        self.resolve_code()
    }

    /// Settles the engine's report, and ends the replay.
    fn take_report(&mut self, report: EngineReport) -> (action: ReplayAction)
        requires
            old(self).wf(),
        ensures
            final(self).wf(),
            (final(self)@, action.deep_view()) == old(self)@.engine_returned(report.deep_view()),
    {
        match settle(self.budget, report) {
            ExecutionOutcome::Success(output) => {
                self.output = output;
                self.stage = Stage::Success;
                ReplayAction::Finish
            },
            ExecutionOutcome::Failure(error) => self.fail(ReplayError::Engine(error)),
        }
    }

    /// Moves the replay on by one event, and says what to do next.
    ///
    /// An event that does not answer the action asked for last is ignored,
    /// and a replay that has ended stays as it ended.
    pub fn step(&mut self, event: ReplayEvent) -> (action: ReplayAction)
        requires
            old(self).wf(),
        ensures
            final(self).wf(),
            (final(self)@, action.deep_view()) == old(self)@.stepped(event.deep_view()),
    {
        match self.stage {
            Stage::Success | Stage::Failed => {
                return ReplayAction::Finish;
            },
            _ => {},
        }
        match event {
            ReplayEvent::Failed(error) => self.fail(error),
            ReplayEvent::HeaderFetched(header) => match self.stage {
                Stage::Init => self.take_header(header),
                _ => ReplayAction::Ignored,
            },
            ReplayEvent::StateFetched(entries) => match (self.stage, &self.source) {
                (Stage::HeaderResolved, State::Live(_)) => self.take_state(StateOverlay::from_entries(entries)),
                _ => ReplayAction::Ignored,
            },
            ReplayEvent::SnapshotRead(image) => match (self.stage, &self.source) {
                (Stage::HeaderResolved, State::Snap { .. }) => self.take_snapshot(image),
                _ => ReplayAction::Ignored,
            },
            ReplayEvent::CodeLoaded(code) => match self.stage {
                Stage::StateBuilt => {
                    if self.runtime.substitutes() && !self.overlay.code_replaced() {
                        self.take_code(code)
                    } else {
                        ReplayAction::Ignored
                    }
                },
                _ => ReplayAction::Ignored,
            },
            ReplayEvent::VersionsRead { original, candidate } => match self.stage {
                Stage::StateBuilt => {
                    if self.overlay.code_replaced() {
                        self.take_versions(original, candidate)
                    } else {
                        ReplayAction::Ignored
                    }
                },
                _ => ReplayAction::Ignored,
            },
            ReplayEvent::EngineReturned(report) => match self.stage {
                Stage::Invoked => self.take_report(report),
                _ => ReplayAction::Ignored,
            },
        }
    }

    /// How far the replay has come.
    pub fn stage(&self) -> (stage: Stage)
        ensures
            stage == self@.stage,
    {
        self.stage
    }

    /// Why the replay failed, and in which stage; `None` unless it failed.
    pub fn failure(&self) -> (failure: Option<(Stage, ReplayError)>)
        ensures
            failure == self@.failure,
    {
        self.failure
    }

    /// The encoded header; empty until it is fetched.
    pub fn header(&self) -> (header: &Vec<u8>)
        ensures
            header@ == self@.header,
    {
        &self.header
    }

    /// The overlay of the replay: the state that the engine runs on.
    pub fn overlay(&self) -> (overlay: &StateOverlay)
        requires
            self.wf(),
        ensures
            overlay.wf(),
            overlay@ == self@.overlay,
    {
        &self.overlay
    }

    /// The warnings so far, oldest first.
    pub fn advisories(&self) -> (advisories: &Vec<Advisory>)
        ensures
            advisories@ == self@.advisories,
    {
        &self.advisories
    }

    /// What the entry point returned; empty unless the replay succeeded.
    pub fn output(&self) -> (output: &Vec<u8>)
        ensures
            output@ == self@.output,
    {
        &self.output
    }
}

/// A replay that has ended stays as it ended, whatever event arrives.
pub proof fn law_ended_replay_stays(driver: DriverView, event: ReplayEventView)
    requires
        driver.stage.terminal(),
    ensures
        driver.stepped(event) == (driver, ReplayActionView::Finish),
{
}

/// A replay only goes forward: no step leads to an earlier stage, and no
/// step changes what the replay was asked to do.
pub proof fn law_replay_goes_forward(driver: DriverView, event: ReplayEventView)
    ensures
        driver.stepped(event).0.stage.rank() >= driver.stage.rank(),
        driver.stepped(event).0.source == driver.source,
        driver.stepped(event).0.runtime == driver.runtime,
        driver.stepped(event).0.engine == driver.engine,
        driver.stepped(event).0.budget == driver.budget,
{
}

/// A failed action ends the replay, and its error is carried unchanged
/// beside the stage in which it struck. Nothing is retried.
pub proof fn law_failure_is_carried(driver: DriverView, error: ReplayError)
    requires
        !driver.stage.terminal(),
    ensures
        driver.stepped(ReplayEventView::Failed(error)).0.stage == Stage::Failed,
        driver.stepped(ReplayEventView::Failed(error)).0.failure == Some((driver.stage, error)),
        driver.stepped(ReplayEventView::Failed(error)).0.overlay == driver.overlay,
        driver.stepped(ReplayEventView::Failed(error)).1 == ReplayActionView::Finish,
{
}

/// Every warning stays: a step only adds to the warnings.
pub proof fn law_warnings_are_kept(driver: DriverView, event: ReplayEventView)
    ensures
        driver.advisories.is_prefix_of(driver.stepped(event).0.advisories),
{
    let next = driver.stepped(event).0;
    assert(next.advisories.len() >= driver.advisories.len());
    assert(next.advisories.subrange(0, driver.advisories.len() as int) =~= driver.advisories);
}

/// Where the state's own program is run, the overlay is what the state
/// source delivered: building the state settles the program without writing
/// to the overlay, and no later step writes to it. The reserved code key
/// keeps its value, or its absence, byte for byte.
pub proof fn law_own_program_is_kept(
    driver: DriverView,
    delivered: Map<Seq<u8>, Seq<u8>>,
    event: ReplayEventView,
)
    requires
        driver.runtime is Remote,
    ensures
        driver.state_built(delivered).0.overlay == (OverlayView {
            map: delivered,
            record: CodeRecordView::Untouched,
        }),
        installed_code(driver.state_built(delivered).0.overlay) == installed_code(
            OverlayView { map: delivered, record: CodeRecordView::Untouched },
        ),
        driver.stage != Stage::HeaderResolved ==> driver.stepped(event).0.overlay == driver.overlay,
{
}

/// A live peer and a snapshot captured from it resolve to the same overlay:
/// what a driver builds from the entries that a peer delivered, and what a
/// driver builds from the image of those entries, is one mapping.
pub proof fn law_live_and_snapshot_agree(
    live: DriverView,
    snap: DriverView,
    header: Seq<u8>,
    entries: Seq<(Seq<u8>, Seq<u8>)>,
)
    requires
        live.stage == Stage::HeaderResolved,
        live.source is Live,
        snap.stage == Stage::HeaderResolved,
        snap.source is Snap,
        fits_image(header, entries),
    ensures
        live.stepped(ReplayEventView::StateFetched(entries)).0.overlay == snap.stepped(
            ReplayEventView::SnapshotRead(image_of(header, entries)),
        ).0.overlay,
        live.stepped(ReplayEventView::StateFetched(entries)).0.overlay.map == map_of(entries),
{
    law_capture_then_resolve(header, entries);
}

/// A candidate that is byte for byte the original is installed without a
/// comparison, and without a warning of a mismatch.
pub proof fn law_same_program_is_not_compared(driver: DriverView, code: Seq<u8>)
    requires
        driver.awaits_code(),
        original_code(driver.overlay) == Some(code),
    ensures
        driver.stepped(ReplayEventView::CodeLoaded(code)).0.advisories == driver.advisories,
        driver.stepped(ReplayEventView::CodeLoaded(code)).0.stage == Stage::Invoked,
        installed_code(driver.stepped(ReplayEventView::CodeLoaded(code)).0.overlay) == Some(code),
{
}

/// A difference between the versions of the two programs is a warning and
/// no failure: where the specification versions differ, the mismatch is the
/// last warning, and the entry point is invoked all the same.
pub proof fn law_version_mismatch_is_advisory(
    driver: DriverView,
    original: Option<Seq<u8>>,
    candidate: Option<Seq<u8>>,
)
    requires
        driver.awaits_versions(),
        installed_code(driver.overlay) is Some,
    ensures
        ({
            let event = ReplayEventView::VersionsRead { original, candidate };
            let report = comparison(described(original), described(candidate));
            &&& driver.stepped(event).0.stage == Stage::Invoked
            &&& driver.stepped(event).0.failure == driver.failure
            &&& driver.stepped(event).1 is Invoke
            &&& report.mismatch() ==> driver.stepped(event).0.advisories.last()
                == Advisory::VersionMismatch(report)
            &&& described(original) is Some && described(candidate) is Some && described(
                original,
            )->0.spec_version != described(candidate)->0.spec_version ==> report.mismatch()
        }),
{
}

/// An invocation that cost more than the budget ends the replay as
/// exhausted, and no byte of what it returned is kept.
pub proof fn law_over_budget_fails(driver: DriverView, report: EngineReportView)
    requires
        driver.stage == Stage::Invoked,
        report.consumed > driver.budget,
    ensures
        driver.stepped(ReplayEventView::EngineReturned(report)).0 == driver.failed(
            ReplayError::Engine(EngineError::ResourceExhausted),
        ),
        driver.stepped(ReplayEventView::EngineReturned(report)).0.output == driver.output,
        driver.stepped(ReplayEventView::EngineReturned(report)).1 == ReplayActionView::Finish,
{
}

/// The request that is invoked is the fixed entry point with the fetched
/// header as its argument, under the budget of the replay and with every
/// host capability.
pub proof fn law_invocation_is_fixed(driver: DriverView)
    requires
        driver.code_resolved().1 is Invoke,
    ensures
        driver.code_resolved().1 == (ReplayActionView::Invoke {
            engine: driver.engine,
            request: ExecutionRequestView {
                entry_point: OFFCHAIN_WORKER_ENTRY_POINT@,
                arguments: driver.header,
                budget: driver.budget,
            },
            capabilities: HostCapabilities::all(),
        }),
        driver.code_resolved().0.overlay == driver.overlay,
{
}

} // verus!
