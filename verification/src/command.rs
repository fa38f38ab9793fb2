//! What a replay is asked to do: where the state comes from, and at which
//! block the header is taken.

use vstd::prelude::*;
use crate::bytes::bytes_equal;
use crate::error::ReplayError;

verus! {

/// One point in the ledger's history, named by block hash or by height.
#[derive(Debug, PartialEq, Eq)]
pub enum BlockReference {
    /// The hash of the block.
    Hash(Vec<u8>),
    /// The height of the block.
    Height(u64),
}

/// The mathematical value of a [`BlockReference`].
pub enum BlockReferenceView {
    Hash(Seq<u8>),
    Height(u64),
}

impl DeepView for BlockReference {
    type V = BlockReferenceView;

    open spec fn deep_view(&self) -> BlockReferenceView {
        match self {
            BlockReference::Hash(h) => BlockReferenceView::Hash(h@),
            BlockReference::Height(n) => BlockReferenceView::Height(*n),
        }
    }
}

impl Clone for BlockReference {
    fn clone(&self) -> (copy: Self)
        ensures
            copy.deep_view() == self.deep_view(),
    {
        match self {
            BlockReference::Hash(h) => BlockReference::Hash(h.clone()),
            BlockReference::Height(n) => BlockReference::Height(*n),
        }
    }
}

impl BlockReference {
    /// Whether two references name the same block in the same way.
    pub fn same_as(&self, other: &BlockReference) -> (same: bool)
        ensures
            same == (self.deep_view() == other.deep_view()),
    {
        match (self, other) {
            (BlockReference::Hash(a), BlockReference::Hash(b)) => bytes_equal(a.as_slice(), b.as_slice()),
            (BlockReference::Height(a), BlockReference::Height(b)) => *a == *b,
            _ => false,
        }
    }
}

/// A live peer to take the state from.
#[derive(Debug, PartialEq, Eq)]
pub struct LiveState {
    /// The endpoint of the peer.
    pub uri: String,
    /// The block at which to take the state; the peer's latest block if absent.
    pub at: Option<BlockReference>,
}

/// Where the state comes from.
#[derive(Debug, PartialEq, Eq)]
pub enum State {
    /// A live peer, queried over the network.
    Live(LiveState),
    /// A snapshot image on local storage.
    Snap { snapshot_path: String },
}

/// The mathematical value of a [`State`].
pub enum StateView {
    Live { uri: Seq<char>, at: Option<BlockReferenceView> },
    Snap { snapshot_path: Seq<char> },
}

impl DeepView for State {
    type V = StateView;

    open spec fn deep_view(&self) -> StateView {
        match self {
            State::Live(live) => StateView::Live { uri: live.uri@, at: live.at.deep_view() },
            State::Snap { snapshot_path } => StateView::Snap { snapshot_path: snapshot_path@ },
        }
    }
}

impl Clone for State {
    fn clone(&self) -> (copy: Self)
        ensures
            copy.deep_view() == self.deep_view(),
    {
        match self {
            State::Live(live) => {
                let at = match &live.at {
                    Some(r) => Some(r.clone()),
                    None => None,
                };
                State::Live(LiveState { uri: live.uri.clone(), at })
            },
            State::Snap { snapshot_path } => State::Snap { snapshot_path: snapshot_path.clone() },
        }
    }
}

/// The command that replays the off-chain worker entry point.
#[derive(Debug, PartialEq, Eq)]
pub struct OffchainWorkerCmd {
    /// The block at which to fetch the header. May be omitted with a live
    /// state, and is then the block at which the state is taken.
    pub header_at: Option<BlockReference>,
    /// The endpoint from which to fetch the header. May be omitted with a live
    /// state, and is then the endpoint of that state.
    pub header_ws_uri: Option<String>,
    /// The source of the state.
    pub state: State,
}

/// The mathematical value of an [`OffchainWorkerCmd`].
pub struct OffchainWorkerCmdView {
    pub header_at: Option<BlockReferenceView>,
    pub header_ws_uri: Option<Seq<char>>,
    pub state: StateView,
}

impl OffchainWorkerCmdView {
    /// The block whose header is fetched: the explicit header reference if
    /// there is one, else the block of a live state; none otherwise.
    pub open spec fn header_reference(self) -> Option<BlockReferenceView> {
        match (self.header_at, self.state) {
            (Some(at), _) => Some(at),
            (None, StateView::Live { at, .. }) => at,
            (None, StateView::Snap { .. }) => None,
        }
    }

    /// The endpoint that serves the header: the explicit header endpoint if
    /// there is one, else the endpoint of a live state; none otherwise.
    pub open spec fn header_endpoint(self) -> Option<Seq<char>> {
        match (self.header_ws_uri, self.state) {
            (Some(uri), _) => Some(uri),
            (None, StateView::Live { uri, .. }) => Some(uri),
            (None, StateView::Snap { .. }) => None,
        }
    }

    /// Whether an explicit header reference and the block of a live state are
    /// both given and differ, so that header and state describe two blocks.
    pub open spec fn references_disagree(self) -> bool {
        match (self.header_at, self.state) {
            (Some(header_at), StateView::Live { at: Some(state_at), .. }) => header_at != state_at,
            _ => false,
        }
    }
}

impl DeepView for OffchainWorkerCmd {
    type V = OffchainWorkerCmdView;

    open spec fn deep_view(&self) -> OffchainWorkerCmdView {
        OffchainWorkerCmdView {
            header_at: self.header_at.deep_view(),
            header_ws_uri: match self.header_ws_uri {
                Some(uri) => Some(uri@),
                None => None,
            },
            state: self.state.deep_view(),
        }
    }
}

impl OffchainWorkerCmd {
    /// The block at which the header is fetched.
    ///
    /// An explicit header reference wins; without one the block of a live
    /// state is taken. With neither the command names no block, and the
    /// result is `AmbiguousReference`: a reference is never guessed.
    pub fn header_at(&self) -> (at: Result<BlockReference, ReplayError>)
        ensures
            match self.deep_view().header_reference() {
                Some(reference) => at is Ok && at->Ok_0.deep_view() == reference,
                None => at == Err::<BlockReference, ReplayError>(ReplayError::AmbiguousReference),
            },
    {
        match (&self.header_at, &self.state) {
            (Some(header_at), _) => Ok(header_at.clone()),
            (None, State::Live(LiveState { at: Some(at), .. })) => Ok(at.clone()),
            _ => Err(ReplayError::AmbiguousReference),
        }
    }

    /// The endpoint from which the header is fetched.
    ///
    /// An explicit header endpoint wins; without one the endpoint of a live
    /// state is taken. A snapshot has no endpoint, so with neither the result
    /// is `AmbiguousReference`.
    pub fn header_ws_uri(&self) -> (uri: Result<String, ReplayError>)
        ensures
            match self.deep_view().header_endpoint() {
                Some(endpoint) => uri is Ok && uri->Ok_0@ == endpoint,
                None => uri == Err::<String, ReplayError>(ReplayError::AmbiguousReference),
            },
    {
        match (&self.header_ws_uri, &self.state) {
            (Some(header_ws_uri), _) => Ok(header_ws_uri.clone()),
            (None, State::Live(live)) => Ok(live.uri.clone()),
            (None, State::Snap { .. }) => Err(ReplayError::AmbiguousReference),
        }
    }

    /// Whether the header and the state are pinned to two different blocks.
    ///
    /// This is the case when an explicit header reference is given beside a
    /// live state with a block of its own, and the two differ. The replay
    /// goes on all the same; the caller is owed a warning.
    pub fn references_disagree(&self) -> (disagree: bool)
        ensures
            disagree == self.deep_view().references_disagree(),
    {
        match (&self.header_at, &self.state) {
            (Some(header_at), State::Live(LiveState { at: Some(state_at), .. })) => !header_at.same_as(state_at),
            _ => false,
        }
    }
}

} // verus!
