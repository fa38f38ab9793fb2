//! Runtime versions: decoding the version that a program declares, and
//! comparing the versions of two programs.

use vstd::prelude::*;
use parity_scale_codec::Decode;
use crate::bytes::optional_bytes;
use sp_version::RuntimeVersion;

verus! {

/// The version that a program declares of itself.
///
/// A descriptor is always decoded from what the execution engine read out of
/// a program; it cannot be put together by hand.
#[derive(Debug)]
pub struct RuntimeVersionDescriptor {
    spec_name: String,
    spec_version: u32,
    impl_version: u32,
    apis: Vec<(Vec<u8>, u32)>,
}

/// The mathematical value of a [`RuntimeVersionDescriptor`].
pub struct RuntimeVersionView {
    /// The name of the specification that the program implements.
    pub spec_name: Seq<char>,
    /// The version of that specification.
    pub spec_version: u32,
    /// The version of the implementation.
    pub impl_version: u32,
    /// The call interfaces that the program supports: identifier and version.
    pub apis: Seq<(Seq<u8>, u32)>,
}

impl View for RuntimeVersionDescriptor {
    type V = RuntimeVersionView;

    closed spec fn view(&self) -> RuntimeVersionView {
        RuntimeVersionView {
            spec_name: self.spec_name@,
            spec_version: self.spec_version,
            impl_version: self.impl_version,
            apis: self.apis@.map_values(|api: (Vec<u8>, u32)| (api.0@, api.1)),
        }
    }
}

/// The mathematical value of a descriptor that may be unknown.
pub open spec fn optional_version(version: Option<RuntimeVersionDescriptor>) -> Option<
    RuntimeVersionView,
> {
    match version {
        Some(v) => Some(v@),
        None => None,
    }
}

impl RuntimeVersionDescriptor {
    /// The name of the specification that the program implements.
    pub fn spec_name(&self) -> (name: &String)
        ensures
            name@ == self@.spec_name,
    {
        &self.spec_name
    }

    /// The version of the specification.
    pub fn spec_version(&self) -> (version: u32)
        ensures
            version == self@.spec_version,
    {
        self.spec_version
    }

    /// The version of the implementation.
    pub fn impl_version(&self) -> (version: u32)
        ensures
            version == self@.impl_version,
    {
        self.impl_version
    }

    /// The number of call interfaces that the program supports.
    pub fn api_count(&self) -> (count: usize)
        ensures
            count == self@.apis.len(),
    {
        self.apis.len()
    }

    /// The `i`-th call interface that the program supports: its identifier
    /// and its version. `None` where the program supports fewer.
    pub fn api(&self, i: usize) -> (api: Option<(Vec<u8>, u32)>)
        ensures
            match api {
                Some((id, version)) => i < self@.apis.len() && self@.apis[i as int] == (id@, version),
                None => i >= self@.apis.len(),
            },
    {
        if i < self.apis.len() {
            Some((self.apis[i].0.clone(), self.apis[i].1))
        } else {
            None
        }
    }
}

/// The runtime version that the SCALE decoder of `sp_version::RuntimeVersion`
/// reads from the front of the bytes, or `None` where it reports an error.
pub uninterp spec fn decoded_runtime_version(bytes: Seq<u8>) -> Option<RuntimeVersionView>;

/// Decodes a runtime version from its SCALE encoding.
///
/// Trusted: calls `<sp_version::RuntimeVersion as parity_scale_codec::Decode>::decode`
/// on the bytes. The decoder reads the bytes and nothing else, so its result
/// is a function of them; that function is named, not described. Of the
/// decoded version the name, the two version numbers and the list of call
/// interfaces are kept; a decoding error becomes `None`.
#[verifier::external_body]
fn decode_runtime_version(bytes: &[u8]) -> (version: Option<RuntimeVersionDescriptor>)
    ensures
        optional_version(version) == decoded_runtime_version(bytes@),
{
    let mut input = bytes;
    match RuntimeVersion::decode(&mut input) {
        Ok(v) => Some(
            RuntimeVersionDescriptor {
                spec_name: v.spec_name.to_string(),
                spec_version: v.spec_version,
                impl_version: v.impl_version,
                apis: v.apis.iter().map(|api| (api.0.to_vec(), api.1)).collect(),
            },
        ),
        Err(_) => None,
    }
}

/// The version declared by what the engine read, where it read anything.
pub open spec fn described(raw: Option<Seq<u8>>) -> Option<RuntimeVersionView> {
    match raw {
        Some(bytes) => decoded_runtime_version(bytes),
        None => None,
    }
}

/// Turns what the execution engine read out of a program into a descriptor.
///
/// The version is unknown, `None`, where the engine read nothing or where
/// what it read does not decode.
pub fn describe(raw: &Option<Vec<u8>>) -> (version: Option<RuntimeVersionDescriptor>)
    ensures
        optional_version(version) == described(optional_bytes(*raw)),
{
    match raw {
        Some(bytes) => decode_runtime_version(bytes.as_slice()),
        None => None,
    }
}

/// How the versions of two programs compare.
#[derive(Clone, Copy, Debug, PartialEq, Eq, Structural)]
pub struct VersionReport {
    /// Whether the original program's version is known.
    pub original_known: bool,
    /// Whether the candidate program's version is known.
    pub candidate_known: bool,
    /// Both known, and the specification names differ.
    pub spec_name_differs: bool,
    /// Both known, and the specification versions differ.
    pub spec_version_differs: bool,
    /// Both known, and the implementation versions differ.
    pub impl_version_differs: bool,
}

impl VersionReport {
    /// Whether the report holds a difference between the two versions.
    pub open spec fn mismatch(self) -> bool {
        self.spec_name_differs || self.spec_version_differs || self.impl_version_differs
    }

    /// Whether the report holds a difference between the two versions.
    pub fn has_mismatch(&self) -> (yes: bool)
        ensures
            yes == self.mismatch(),
    {
        self.spec_name_differs || self.spec_version_differs || self.impl_version_differs
    }
}

/// The report on two versions, either of which may be unknown. A difference
/// is reported only between two known versions.
pub open spec fn comparison(
    original: Option<RuntimeVersionView>,
    candidate: Option<RuntimeVersionView>,
) -> VersionReport {
    match (original, candidate) {
        (Some(a), Some(b)) => VersionReport {
            original_known: true,
            candidate_known: true,
            spec_name_differs: a.spec_name != b.spec_name,
            spec_version_differs: a.spec_version != b.spec_version,
            impl_version_differs: a.impl_version != b.impl_version,
        },
        _ => VersionReport {
            original_known: original is Some,
            candidate_known: candidate is Some,
            spec_name_differs: false,
            spec_version_differs: false,
            impl_version_differs: false,
        },
    }
}

/// Compares the versions of the original and the candidate program.
///
/// The comparison never fails: an unknown version yields a report that says
/// so and holds no difference.
pub fn compare_versions(
    original: &Option<RuntimeVersionDescriptor>,
    candidate: &Option<RuntimeVersionDescriptor>,
) -> (report: VersionReport)
    ensures
        report == comparison(optional_version(*original), optional_version(*candidate)),
{
    match (original, candidate) {
        (Some(a), Some(b)) => VersionReport {
            original_known: true,
            candidate_known: true,
            spec_name_differs: a.spec_name != b.spec_name,
            spec_version_differs: a.spec_version != b.spec_version,
            impl_version_differs: a.impl_version != b.impl_version,
        },
        _ => VersionReport {
            original_known: original.is_some(),
            candidate_known: candidate.is_some(),
            spec_name_differs: false,
            spec_version_differs: false,
            impl_version_differs: false,
        },
    }
}

/// Compares the versions of two programs as the engine read them.
pub fn check_versions(original: &Option<Vec<u8>>, candidate: &Option<Vec<u8>>) -> (report: VersionReport)
    ensures
        report == comparison(
            described(optional_bytes(*original)),
            described(optional_bytes(*candidate)),
        ),
{
    let a = describe(original);
    let b = describe(candidate);
    compare_versions(&a, &b)
}

/// A version agrees with itself: two equal versions, known or unknown, are
/// reported without a difference.
pub proof fn law_equal_versions_agree(version: Option<RuntimeVersionView>)
    ensures
        !comparison(version, version).mismatch(),
{
}

/// Two programs from which the engine read the same bytes are reported
/// without a difference.
pub proof fn law_identical_programs_agree(raw: Option<Seq<u8>>)
    ensures
        !comparison(described(raw), described(raw)).mismatch(),
{
}

/// Two known versions whose specification versions differ are reported with
/// a difference.
pub proof fn law_differing_spec_versions_mismatch(
    original: RuntimeVersionView,
    candidate: RuntimeVersionView,
)
    requires
        original.spec_version != candidate.spec_version,
    ensures
        comparison(Some(original), Some(candidate)).mismatch(),
        comparison(Some(original), Some(candidate)).spec_version_differs,
{
}

} // verus!
