use parity_scale_codec::Encode;
use replay_harness::advisory::{Advisory, Side};
use replay_harness::code::Runtime;
use replay_harness::command::{BlockReference, LiveState, OffchainWorkerCmd, State};
use replay_harness::driver::{ReplayAction, ReplayDriver, ReplayEvent, Stage};
use replay_harness::engine::{
    EngineKind, EngineReport, EngineResult, ExecutionRequest, HostCapabilities,
};
use replay_harness::error::{EngineError, ReplayError};
use replay_harness::overlay::CodeRecord;
use replay_harness::snapshot::capture_snapshot;
use replay_harness::version::VersionReport;
use sp_version::RuntimeVersion;
use std::borrow::Cow;

const BUDGET: u64 = 1_000_000;

fn snapshot_command() -> OffchainWorkerCmd {
    OffchainWorkerCmd {
        header_at: Some(BlockReference::Hash(vec![0x11; 32])),
        header_ws_uri: Some("ws://header:9944".to_string()),
        state: State::Snap { snapshot_path: "state.snap".to_string() },
    }
}

fn live_command(at: Option<BlockReference>) -> OffchainWorkerCmd {
    OffchainWorkerCmd {
        header_at: None,
        header_ws_uri: None,
        state: State::Live(LiveState { uri: "ws://peer:9944".to_string(), at }),
    }
}

fn version_bytes(spec_version: u32) -> Vec<u8> {
    RuntimeVersion {
        spec_name: Cow::Borrowed("node"),
        impl_name: Cow::Borrowed("node-impl"),
        authoring_version: 1,
        spec_version,
        impl_version: 0,
        apis: Cow::Owned(Vec::new()),
        transaction_version: 1,
        system_version: 1,
    }
    .encode()
}

fn invoke(engine: EngineKind, header: &[u8]) -> ReplayAction {
    ReplayAction::Invoke {
        engine,
        request: ExecutionRequest {
            entry_point: "OffchainWorkerApi_offchain_worker".to_string(),
            arguments: header.to_vec(),
            budget: BUDGET,
        },
        capabilities: HostCapabilities { clock: true, randomness: true, storage: true },
    }
}

fn returned(consumed: u64, bytes: &[u8]) -> ReplayEvent {
    ReplayEvent::EngineReturned(EngineReport { consumed, result: EngineResult::Returned(bytes.to_vec()) })
}

/// A driver that has fetched the header `header` for a snapshot command.
fn with_header(runtime: Runtime, engine: EngineKind, header: &[u8]) -> ReplayDriver {
    let (mut driver, action) = ReplayDriver::start(snapshot_command(), runtime, engine, BUDGET);
    assert_eq!(
        action,
        ReplayAction::FetchHeader {
            uri: "ws://header:9944".to_string(),
            at: BlockReference::Hash(vec![0x11; 32]),
        }
    );
    assert_eq!(driver.stage(), Stage::Init);
    let action = driver.step(ReplayEvent::HeaderFetched(header.to_vec()));
    assert_eq!(action, ReplayAction::ReadSnapshot { path: "state.snap".to_string() });
    assert_eq!(driver.stage(), Stage::HeaderResolved);
    assert_eq!(driver.header(), &header.to_vec());
    driver
}

#[test]
fn snapshot_without_substitution_succeeds() {
    let mut driver = with_header(Runtime::Remote, EngineKind::Sandboxed, &[]);
    let image = capture_snapshot(&[], &vec![(b":code".to_vec(), b"A".to_vec()), (b"k".to_vec(), b"v".to_vec())]);
    let action = driver.step(ReplayEvent::SnapshotRead(image));
    assert_eq!(action, invoke(EngineKind::Sandboxed, &[]));
    assert_eq!(driver.stage(), Stage::Invoked);
    assert_eq!(driver.overlay().get(b":code"), Some(b"A".to_vec()));
    assert_eq!(driver.overlay().get(b"k"), Some(b"v".to_vec()));
    assert_eq!(driver.overlay().code_record(), CodeRecord::Untouched);
    assert!(driver.advisories().is_empty());

    let action = driver.step(returned(10, b"result"));
    assert_eq!(action, ReplayAction::Finish);
    assert_eq!(driver.stage(), Stage::Success);
    assert_eq!(driver.output(), &b"result".to_vec());
    assert_eq!(driver.failure(), None);
}

#[test]
fn substituted_candidate_with_other_spec_version_warns_and_succeeds() {
    let header = b"encoded header".to_vec();
    let mut driver = with_header(Runtime::Path("candidate.wasm".to_string()), EngineKind::Sandboxed, &header);
    let image = capture_snapshot(&header, &vec![(b":code".to_vec(), b"A".to_vec())]);
    let action = driver.step(ReplayEvent::SnapshotRead(image));
    assert_eq!(action, ReplayAction::ReadCodeFile { path: "candidate.wasm".to_string() });
    assert_eq!(driver.stage(), Stage::StateBuilt);

    let action = driver.step(ReplayEvent::CodeLoaded(b"B".to_vec()));
    assert_eq!(
        action,
        ReplayAction::ReadVersions { original: b"A".to_vec(), candidate: b"B".to_vec() }
    );
    assert_eq!(driver.stage(), Stage::StateBuilt);
    assert_eq!(driver.overlay().get(b":code"), Some(b"B".to_vec()));
    assert_eq!(driver.overlay().code_record(), CodeRecord::Replaced(Some(b"A".to_vec())));

    let action = driver.step(ReplayEvent::VersionsRead {
        original: Some(version_bytes(100)),
        candidate: Some(version_bytes(101)),
    });
    assert_eq!(action, invoke(EngineKind::Sandboxed, &header));
    assert_eq!(driver.stage(), Stage::Invoked);
    assert_eq!(
        driver.advisories(),
        &vec![Advisory::VersionMismatch(VersionReport {
            original_known: true,
            candidate_known: true,
            spec_name_differs: false,
            spec_version_differs: true,
            impl_version_differs: false,
        })]
    );

    let action = driver.step(returned(BUDGET, b"ok"));
    assert_eq!(action, ReplayAction::Finish);
    assert_eq!(driver.stage(), Stage::Success);
    assert_eq!(driver.output(), &b"ok".to_vec());
}

#[test]
fn unreachable_live_source_fails_without_an_overlay() {
    let (mut driver, action) = ReplayDriver::start(
        live_command(Some(BlockReference::Height(5))),
        Runtime::Remote,
        EngineKind::Sandboxed,
        BUDGET,
    );
    assert_eq!(
        action,
        ReplayAction::FetchHeader { uri: "ws://peer:9944".to_string(), at: BlockReference::Height(5) }
    );
    let action = driver.step(ReplayEvent::Failed(ReplayError::SourceUnreachable));
    assert_eq!(action, ReplayAction::Finish);
    assert_eq!(driver.stage(), Stage::Failed);
    assert_eq!(driver.failure(), Some((Stage::Init, ReplayError::SourceUnreachable)));
    assert_eq!(driver.overlay().len(), 0);
    assert!(driver.output().is_empty());
}

#[test]
fn snapshot_without_code_fails_with_entry_point_not_found() {
    let mut driver = with_header(Runtime::Remote, EngineKind::Sandboxed, b"h");
    let image = capture_snapshot(b"h", &vec![(b"k".to_vec(), b"v".to_vec())]);
    let action = driver.step(ReplayEvent::SnapshotRead(image));
    assert_eq!(action, ReplayAction::Finish);
    assert_eq!(driver.stage(), Stage::Failed);
    assert_eq!(
        driver.failure(),
        Some((Stage::CodeResolved, ReplayError::Engine(EngineError::EntryPointNotFound)))
    );
    assert_eq!(driver.advisories(), &vec![Advisory::MissingCode]);
    assert_eq!(driver.overlay().get(b"k"), Some(b"v".to_vec()));
}

#[test]
fn native_engine_is_invoked_without_code_in_the_state() {
    let mut driver = with_header(Runtime::Remote, EngineKind::Native, b"h");
    let image = capture_snapshot(b"h", &Vec::new());
    let action = driver.step(ReplayEvent::SnapshotRead(image));
    assert_eq!(action, invoke(EngineKind::Native, b"h"));
    assert_eq!(driver.advisories(), &vec![Advisory::MissingCode]);
    assert_eq!(driver.stage(), Stage::Invoked);
}

#[test]
fn ambiguous_command_fails_at_the_start() {
    let command = OffchainWorkerCmd {
        header_at: None,
        header_ws_uri: None,
        state: State::Snap { snapshot_path: "state.snap".to_string() },
    };
    let (mut driver, action) = ReplayDriver::start(command, Runtime::Remote, EngineKind::Sandboxed, BUDGET);
    assert_eq!(action, ReplayAction::Finish);
    assert_eq!(driver.stage(), Stage::Failed);
    assert_eq!(driver.failure(), Some((Stage::Init, ReplayError::AmbiguousReference)));
    assert_eq!(driver.step(ReplayEvent::HeaderFetched(vec![1])), ReplayAction::Finish);
    assert_eq!(driver.stage(), Stage::Failed);
    assert!(driver.header().is_empty());
}

#[test]
fn snapshot_without_header_endpoint_is_ambiguous() {
    let command = OffchainWorkerCmd {
        header_at: Some(BlockReference::Height(1)),
        header_ws_uri: None,
        state: State::Snap { snapshot_path: "state.snap".to_string() },
    };
    let (driver, action) = ReplayDriver::start(command, Runtime::Remote, EngineKind::Sandboxed, BUDGET);
    assert_eq!(action, ReplayAction::Finish);
    assert_eq!(driver.failure(), Some((Stage::Init, ReplayError::AmbiguousReference)));
}

#[test]
fn live_state_is_fetched_at_its_own_block() {
    let (mut driver, action) = ReplayDriver::start(
        live_command(Some(BlockReference::Hash(vec![7; 32]))),
        Runtime::Remote,
        EngineKind::Sandboxed,
        BUDGET,
    );
    assert_eq!(
        action,
        ReplayAction::FetchHeader { uri: "ws://peer:9944".to_string(), at: BlockReference::Hash(vec![7; 32]) }
    );
    assert!(driver.advisories().is_empty());
    let action = driver.step(ReplayEvent::HeaderFetched(b"hdr".to_vec()));
    assert_eq!(
        action,
        ReplayAction::FetchState {
            uri: "ws://peer:9944".to_string(),
            at: Some(BlockReference::Hash(vec![7; 32])),
        }
    );
    let action = driver.step(ReplayEvent::StateFetched(vec![
        (b":code".to_vec(), b"old".to_vec()),
        (b":code".to_vec(), b"A".to_vec()),
    ]));
    assert_eq!(action, invoke(EngineKind::Sandboxed, b"hdr"));
    assert_eq!(driver.overlay().get(b":code"), Some(b"A".to_vec()));
    assert_eq!(driver.overlay().len(), 1);
}

#[test]
fn disagreeing_references_warn_and_go_on() {
    let command = OffchainWorkerCmd {
        header_at: Some(BlockReference::Height(9)),
        header_ws_uri: None,
        state: State::Live(LiveState {
            uri: "ws://peer:9944".to_string(),
            at: Some(BlockReference::Height(8)),
        }),
    };
    let (driver, action) = ReplayDriver::start(command, Runtime::Remote, EngineKind::Sandboxed, BUDGET);
    assert_eq!(
        action,
        ReplayAction::FetchHeader { uri: "ws://peer:9944".to_string(), at: BlockReference::Height(9) }
    );
    assert_eq!(driver.stage(), Stage::Init);
    assert_eq!(driver.advisories(), &vec![Advisory::InconsistentReference]);
}

#[test]
fn snapshot_of_another_block_warns_and_keeps_the_fetched_header() {
    let mut driver = with_header(Runtime::Remote, EngineKind::Sandboxed, b"fetched");
    let image = capture_snapshot(b"embedded", &vec![(b":code".to_vec(), b"A".to_vec())]);
    let action = driver.step(ReplayEvent::SnapshotRead(image));
    assert_eq!(action, invoke(EngineKind::Sandboxed, b"fetched"));
    assert_eq!(driver.advisories(), &vec![Advisory::InconsistentReference]);
    assert_eq!(driver.header(), &b"fetched".to_vec());
}

#[test]
fn corrupt_snapshot_fails_in_the_state_stage() {
    let mut driver = with_header(Runtime::Remote, EngineKind::Sandboxed, b"h");
    let action = driver.step(ReplayEvent::SnapshotRead(vec![1, 2, 3]));
    assert_eq!(action, ReplayAction::Finish);
    assert_eq!(driver.failure(), Some((Stage::HeaderResolved, ReplayError::CorruptSnapshot)));
    assert_eq!(driver.overlay().len(), 0);
}

#[test]
fn unknown_block_fails_in_the_stage_that_asked() {
    let (mut driver, _) = ReplayDriver::start(
        live_command(Some(BlockReference::Height(5))),
        Runtime::Remote,
        EngineKind::Sandboxed,
        BUDGET,
    );
    driver.step(ReplayEvent::HeaderFetched(b"h".to_vec()));
    let action = driver.step(ReplayEvent::Failed(ReplayError::BlockNotFound));
    assert_eq!(action, ReplayAction::Finish);
    assert_eq!(driver.failure(), Some((Stage::HeaderResolved, ReplayError::BlockNotFound)));
}

#[test]
fn over_budget_invocation_is_exhausted_and_keeps_no_output() {
    let mut driver = with_header(Runtime::Remote, EngineKind::Sandboxed, b"h");
    driver.step(ReplayEvent::SnapshotRead(capture_snapshot(b"h", &vec![(b":code".to_vec(), b"A".to_vec())])));
    let action = driver.step(returned(BUDGET + 1, b"partial"));
    assert_eq!(action, ReplayAction::Finish);
    assert_eq!(driver.stage(), Stage::Failed);
    assert_eq!(
        driver.failure(),
        Some((Stage::Invoked, ReplayError::Engine(EngineError::ResourceExhausted)))
    );
    assert!(driver.output().is_empty());
}

#[test]
fn engine_errors_are_carried_unchanged() {
    for (result, error) in [
        (EngineResult::Trapped, EngineError::Trap),
        (EngineResult::EntryPointMissing, EngineError::EntryPointNotFound),
    ] {
        let mut driver = with_header(Runtime::Remote, EngineKind::Sandboxed, b"h");
        driver.step(ReplayEvent::SnapshotRead(capture_snapshot(
            b"h",
            &vec![(b":code".to_vec(), b"A".to_vec())],
        )));
        let action = driver.step(ReplayEvent::EngineReturned(EngineReport { consumed: 1, result }));
        assert_eq!(action, ReplayAction::Finish);
        assert_eq!(driver.failure(), Some((Stage::Invoked, ReplayError::Engine(error))));
    }
}

#[test]
fn local_build_is_asked_for_and_installed_without_original() {
    let mut driver = with_header(Runtime::Local, EngineKind::Sandboxed, b"h");
    let action = driver.step(ReplayEvent::SnapshotRead(capture_snapshot(b"h", &vec![(b"k".to_vec(), b"v".to_vec())])));
    assert_eq!(action, ReplayAction::BuildLocalCode);
    let action = driver.step(ReplayEvent::CodeLoaded(b"B".to_vec()));
    assert_eq!(action, invoke(EngineKind::Sandboxed, b"h"));
    assert_eq!(driver.advisories(), &vec![Advisory::MissingCode]);
    assert_eq!(driver.overlay().get(b":code"), Some(b"B".to_vec()));
    assert_eq!(driver.overlay().get(b"k"), Some(b"v".to_vec()));
    assert_eq!(driver.overlay().code_record(), CodeRecord::Replaced(None));
}

#[test]
fn identical_candidate_is_not_compared() {
    let mut driver = with_header(Runtime::Local, EngineKind::Sandboxed, b"h");
    driver.step(ReplayEvent::SnapshotRead(capture_snapshot(b"h", &vec![(b":code".to_vec(), b"A".to_vec())])));
    let action = driver.step(ReplayEvent::CodeLoaded(b"A".to_vec()));
    assert_eq!(action, invoke(EngineKind::Sandboxed, b"h"));
    assert!(driver.advisories().is_empty());
    assert_eq!(driver.overlay().get(b":code"), Some(b"A".to_vec()));
}

#[test]
fn equal_versions_raise_no_warning() {
    let mut driver = with_header(Runtime::Local, EngineKind::Sandboxed, b"h");
    driver.step(ReplayEvent::SnapshotRead(capture_snapshot(b"h", &vec![(b":code".to_vec(), b"A".to_vec())])));
    driver.step(ReplayEvent::CodeLoaded(b"B".to_vec()));
    let action = driver.step(ReplayEvent::VersionsRead {
        original: Some(version_bytes(3)),
        candidate: Some(version_bytes(3)),
    });
    assert_eq!(action, invoke(EngineKind::Sandboxed, b"h"));
    assert!(driver.advisories().is_empty());
}

#[test]
fn undecodable_versions_degrade_to_warnings() {
    let mut driver = with_header(Runtime::Local, EngineKind::Sandboxed, b"h");
    driver.step(ReplayEvent::SnapshotRead(capture_snapshot(b"h", &vec![(b":code".to_vec(), b"A".to_vec())])));
    driver.step(ReplayEvent::CodeLoaded(b"B".to_vec()));
    let action = driver.step(ReplayEvent::VersionsRead { original: None, candidate: Some(vec![0xff]) });
    assert_eq!(action, invoke(EngineKind::Sandboxed, b"h"));
    assert_eq!(
        driver.advisories(),
        &vec![
            Advisory::VersionDecodeFailed(Side::Original),
            Advisory::VersionDecodeFailed(Side::Candidate),
        ]
    );
    assert_eq!(driver.stage(), Stage::Invoked);
}

#[test]
fn events_out_of_turn_are_ignored() {
    let (mut driver, _) = ReplayDriver::start(snapshot_command(), Runtime::Local, EngineKind::Sandboxed, BUDGET);
    assert_eq!(driver.step(ReplayEvent::SnapshotRead(vec![0; 16])), ReplayAction::Ignored);
    assert_eq!(driver.step(ReplayEvent::CodeLoaded(vec![1])), ReplayAction::Ignored);
    assert_eq!(driver.step(returned(1, b"x")), ReplayAction::Ignored);
    assert_eq!(driver.stage(), Stage::Init);
    driver.step(ReplayEvent::HeaderFetched(b"h".to_vec()));
    // A snapshot source does not take entries from a peer.
    assert_eq!(driver.step(ReplayEvent::StateFetched(Vec::new())), ReplayAction::Ignored);
    assert_eq!(driver.step(ReplayEvent::HeaderFetched(b"again".to_vec())), ReplayAction::Ignored);
    assert_eq!(driver.header(), &b"h".to_vec());
    assert_eq!(driver.stage(), Stage::HeaderResolved);
    driver.step(ReplayEvent::SnapshotRead(capture_snapshot(b"h", &vec![(b":code".to_vec(), b"A".to_vec())])));
    // The candidate is waited for, not the versions.
    assert_eq!(
        driver.step(ReplayEvent::VersionsRead { original: None, candidate: None }),
        ReplayAction::Ignored
    );
    driver.step(ReplayEvent::CodeLoaded(b"B".to_vec()));
    // The versions are waited for, not a second candidate.
    assert_eq!(driver.step(ReplayEvent::CodeLoaded(b"C".to_vec())), ReplayAction::Ignored);
    assert_eq!(driver.overlay().get(b":code"), Some(b"B".to_vec()));
    assert!(driver.advisories().is_empty());
}

#[test]
fn ended_replay_stays_as_it_ended() {
    let mut driver = with_header(Runtime::Remote, EngineKind::Sandboxed, b"h");
    driver.step(ReplayEvent::SnapshotRead(capture_snapshot(b"h", &vec![(b":code".to_vec(), b"A".to_vec())])));
    driver.step(returned(1, b"done"));
    assert_eq!(driver.step(ReplayEvent::Failed(ReplayError::SourceUnreachable)), ReplayAction::Finish);
    assert_eq!(driver.step(returned(1, b"other")), ReplayAction::Finish);
    assert_eq!(driver.stage(), Stage::Success);
    assert_eq!(driver.failure(), None);
    assert_eq!(driver.output(), &b"done".to_vec());
}

#[test]
fn live_and_snapshot_resolve_to_the_same_overlay() {
    let entries = vec![
        (b":code".to_vec(), b"A".to_vec()),
        (b"a".to_vec(), b"1".to_vec()),
        (b"a".to_vec(), b"2".to_vec()),
    ];
    let (mut live, _) = ReplayDriver::start(
        live_command(Some(BlockReference::Height(5))),
        Runtime::Remote,
        EngineKind::Sandboxed,
        BUDGET,
    );
    live.step(ReplayEvent::HeaderFetched(b"h".to_vec()));
    live.step(ReplayEvent::StateFetched(entries.clone()));

    let mut snap = with_header(Runtime::Remote, EngineKind::Sandboxed, b"h");
    snap.step(ReplayEvent::SnapshotRead(capture_snapshot(b"h", &entries)));

    assert_eq!(live.overlay().len(), 2);
    assert_eq!(snap.overlay().len(), 2);
    for key in [&b":code"[..], &b"a"[..], &b"b"[..]] {
        assert_eq!(live.overlay().get(key), snap.overlay().get(key));
    }
    assert_eq!(live.overlay().get(b"a"), Some(b"2".to_vec()));
}
