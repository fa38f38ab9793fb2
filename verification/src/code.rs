//! Code substitution: installing a candidate program under the reserved code
//! key of an overlay, and keeping the program that the state came with for
//! comparison.

use vstd::prelude::*;
use crate::bytes::{copy_optional_bytes, optional_bytes};
use crate::keys::{code_key, reserved_code_key};
use crate::overlay::{CodeRecord, CodeRecordView, OverlayView, StateOverlay};

verus! {

/// Where the program that is run comes from.
#[derive(Debug, PartialEq, Eq)]
pub enum Runtime {
    /// A program built from the local source tree replaces the state's own.
    Local,
    /// A program read from the given file replaces the state's own.
    Path(String),
    /// The state's own program is run unchanged.
    Remote,
}

/// The mathematical value of a [`Runtime`].
pub enum RuntimeView {
    Local,
    Path(Seq<char>),
    Remote,
}

impl DeepView for Runtime {
    type V = RuntimeView;

    open spec fn deep_view(&self) -> RuntimeView {
        match self {
            Runtime::Local => RuntimeView::Local,
            Runtime::Path(path) => RuntimeView::Path(path@),
            Runtime::Remote => RuntimeView::Remote,
        }
    }
}

impl Clone for Runtime {
    fn clone(&self) -> (copy: Self)
        ensures
            copy.deep_view() == self.deep_view(),
    {
        match self {
            Runtime::Local => Runtime::Local,
            Runtime::Path(path) => Runtime::Path(path.clone()),
            Runtime::Remote => Runtime::Remote,
        }
    }
}

impl Runtime {
    /// Whether a candidate program takes the place of the state's own.
    pub fn substitutes(&self) -> (yes: bool)
        ensures
            yes == !(self.deep_view() is Remote),
    {
        match self {
            Runtime::Remote => false,
            _ => true,
        }
    }
}

/// The two programs of a substitution, kept for comparison.
#[derive(Debug, PartialEq, Eq)]
pub struct Substitution {
    /// The program that the state came with, if it came with one.
    pub original: Option<Vec<u8>>,
    /// The program that was installed in its place.
    pub candidate: Vec<u8>,
}

/// The mathematical value of a [`Substitution`].
pub struct SubstitutionView {
    pub original: Option<Seq<u8>>,
    pub candidate: Seq<u8>,
}

impl DeepView for Substitution {
    type V = SubstitutionView;

    open spec fn deep_view(&self) -> SubstitutionView {
        SubstitutionView { original: optional_bytes(self.original), candidate: self.candidate@ }
    }
}

/// The program currently installed in the overlay, if there is one.
pub open spec fn installed_code(overlay: OverlayView) -> Option<Seq<u8>> {
    if overlay.map.contains_key(code_key()) {
        Some(overlay.map[code_key()])
    } else {
        None
    }
}

/// The program that the state came with: what the overlay remembers if its
/// code was replaced, and what is installed otherwise.
pub open spec fn original_code(overlay: OverlayView) -> Option<Seq<u8>> {
    match overlay.record {
        CodeRecordView::Replaced(original) => original,
        CodeRecordView::Untouched => installed_code(overlay),
    }
}

/// The overlay after the substitution of a candidate, or of none.
///
/// A candidate is written under the reserved code key and nowhere else, and
/// the overlay remembers the program that the state came with. Without a
/// candidate the overlay stays as it is.
pub open spec fn substituted(overlay: OverlayView, candidate: Option<Seq<u8>>) -> OverlayView {
    match candidate {
        Some(code) => OverlayView {
            map: overlay.map.insert(code_key(), code),
            record: CodeRecordView::Replaced(original_code(overlay)),
        },
        None => overlay,
    }
}

/// What a substitution hands on for comparison: nothing without a candidate,
/// else the candidate and the program that the state came with.
pub open spec fn substitution_of(overlay: OverlayView, candidate: Option<Seq<u8>>) -> Option<
    SubstitutionView,
> {
    match candidate {
        Some(code) => Some(SubstitutionView { original: original_code(overlay), candidate: code }),
        None => None,
    }
}

/// The program installed under the reserved code key, if there is one.
pub fn current_code(overlay: &StateOverlay) -> (code: Option<Vec<u8>>)
    requires
        overlay.wf(),
    ensures
        optional_bytes(code) == installed_code(overlay@),
{
    let key = reserved_code_key();
    overlay.get(key.as_slice())
}

/// Installs the candidate under the reserved code key, and hands back both
/// programs.
///
/// No other key is touched, and nothing is executed. The overlay remembers
/// the program that the state came with.
pub fn install_code(overlay: &mut StateOverlay, candidate: Vec<u8>) -> (substitution: Substitution)
    requires
        old(overlay).wf(),
    ensures
        final(overlay).wf(),
        final(overlay)@ == substituted(old(overlay)@, Some(candidate@)),
        Some(substitution.deep_view()) == substitution_of(old(overlay)@, Some(candidate@)),
{
    let key = reserved_code_key();
    let original = match overlay.code_record() {
        CodeRecord::Replaced(original) => original,
        CodeRecord::Untouched => overlay.get(key.as_slice()),
    };
    overlay.remember_original(copy_optional_bytes(&original));
    overlay.set(key, candidate.clone());
    Substitution { original, candidate }
}

/// Installs the candidate, if there is one, under the reserved code key.
///
/// Without a candidate the overlay stays as it is. With one, the result
/// holds both programs for comparison.
pub fn substitute_code(overlay: &mut StateOverlay, candidate: Option<Vec<u8>>) -> (substitution: Option<
    Substitution,
>)
    requires
        old(overlay).wf(),
    ensures
        final(overlay).wf(),
        final(overlay)@ == substituted(old(overlay)@, optional_bytes(candidate)),
        substitution.deep_view() == substitution_of(old(overlay)@, optional_bytes(candidate)),
{
    match candidate {
        Some(code) => Some(install_code(overlay, code)),
        None => None,
    }
}

/// Substituting the same candidate twice gives the overlay that substituting
/// it once gives.
pub proof fn law_substitution_is_idempotent(overlay: OverlayView, candidate: Option<Seq<u8>>)
    ensures
        substituted(substituted(overlay, candidate), candidate) == substituted(overlay, candidate),
{
    if let Some(code) = candidate {
        assert(overlay.map.insert(code_key(), code).insert(code_key(), code) =~= overlay.map.insert(
            code_key(),
            code,
        ));
    }
}

/// Substitution writes the reserved code key only: every other key keeps
/// its value, or its absence.
pub proof fn law_substitution_touches_code_only(
    overlay: OverlayView,
    candidate: Option<Seq<u8>>,
    key: Seq<u8>,
)
    requires
        key != code_key(),
    ensures
        substituted(overlay, candidate).map.contains_key(key) == overlay.map.contains_key(key),
        overlay.map.contains_key(key) ==> substituted(overlay, candidate).map[key] == overlay.map[key],
{
}

/// Without a candidate the installed program stays byte for byte what it
/// was, and with one the candidate is what is installed.
pub proof fn law_installed_after_substitution(overlay: OverlayView, candidate: Option<Seq<u8>>)
    ensures
        candidate is None ==> installed_code(substituted(overlay, candidate)) == installed_code(overlay),
        candidate is Some ==> installed_code(substituted(overlay, candidate)) == candidate,
{
}

} // verus!
