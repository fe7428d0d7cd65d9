//! The externally callable entry surface.
//!
//! These operations compose the guard, registry and error channel to
//! implement the library's binary contract: object creation with a
//! once-per-process version diagnostic, the intentionally unimplemented
//! extended-capability family, and the instrumentation no-ops. Every
//! operation returns a well-defined value on every path; the caller that
//! hosts these behind the raw calling convention only moves plain values
//! across.

use vstd::prelude::*;
use crate::error::Error;
use crate::guard::IdempotentGuard;
use crate::registry::{InterfaceId, ObjectArena};

verus! {

/// The exact version code of the expected flagship release.
pub const KNOWN_VERSION: u32 = 32;

/// The flagship version code with the diagnostic-mode high bit set: a
/// debug-variant request.
pub const DEBUG_VERSION: u32 = 0x8000_0020;

/// How a caller-supplied version code is classified for diagnostics.
#[derive(Clone, Copy, Debug, PartialEq, Eq, Structural)]
pub enum VersionClass {
    /// An exact match for the expected flagship version.
    KnownVersion,
    /// The flagship version with the diagnostic-mode high bit set.
    DebugVariant,
    /// Any other value.
    Unrecognized,
}

/// The classification of a version code.
pub open spec fn spec_classify(version: u32) -> VersionClass {
    if version == KNOWN_VERSION {
        VersionClass::KnownVersion
    } else if version == DEBUG_VERSION {
        VersionClass::DebugVariant
    } else {
        VersionClass::Unrecognized
    }
}

/// Classify a caller-supplied version code.
pub fn classify_version(version: u32) -> (r: VersionClass)
    ensures
        r == spec_classify(version),
{
    if version == KNOWN_VERSION {
        VersionClass::KnownVersion
    } else if version == DEBUG_VERSION {
        VersionClass::DebugVariant
    } else {
        VersionClass::Unrecognized
    }
}

/// One diagnostic record about a version classification, handed out for
/// emission by whatever logging backend hosts the library.
#[derive(Clone, Copy, Debug, PartialEq, Eq, Structural)]
pub struct DiagnosticRecord {
    /// The classification of the version code seen.
    pub class: VersionClass,
    /// The version code itself.
    pub version: u32,
}

/// The state one loaded instance of the library keeps: the arena of managed
/// objects and the latch for the once-per-process version diagnostic.
pub struct LibraryState {
    /// All managed objects reachable through external handles.
    pub arena: ObjectArena,
    /// Latch for the version-classification diagnostic.
    pub version_guard: IdempotentGuard,
}

impl LibraryState {
    /// A freshly loaded library: no objects, no diagnostic emitted yet.
    pub fn new() -> (r: LibraryState)
        ensures
            r.arena.wf(),
            r.arena.slots@.len() == 0,
            !r.version_guard.set,
    {
        LibraryState { arena: ObjectArena::new(), version_guard: IdempotentGuard::new() }
    }

    /// Create the primary object.
    ///
    /// Classifies `sdk_version` and, under the guard dedicated to version
    /// diagnostics, hands out one record for emission — on the first call
    /// alone, however many calls follow. Construction itself belongs to the
    /// external collaborator; its outcome arrives in `construction`. On
    /// success a new managed object carrying the constructed capability set
    /// is placed in the arena and the first owning handle to it is returned
    /// with `Success`; on failure no handle is returned and the collaborator's
    /// failure kind is passed through unchanged — diagnosis of the failure is
    /// the collaborator's responsibility, not this layer's.
    pub fn create_primary(
        &mut self,
        sdk_version: u32,
        construction: Result<Vec<InterfaceId>, Error>,
    ) -> (res: (Option<usize>, Error, Option<DiagnosticRecord>))
        requires
            old(self).arena.wf(),
            construction matches Err(e) ==> e.spec_is_failure(),
        ensures
            final(self).arena.wf(),
            final(self).version_guard.set,
            res.2 == if !old(self).version_guard.set {
                Some(DiagnosticRecord { class: spec_classify(sdk_version), version: sdk_version })
            } else {
                None::<DiagnosticRecord>
            },
            construction matches Ok(caps) ==> {
                &&& res.0 == Some(old(self).arena.slots@.len() as usize)
                &&& res.1 == Error::Success
                &&& final(self).arena.live(old(self).arena.slots@.len() as int)
                &&& final(self).arena.count_of(old(self).arena.slots@.len() as int) == 1
                &&& final(self).arena.supported_of(old(self).arena.slots@.len() as int) == caps@
                &&& final(self).arena.slots@.len() == old(self).arena.slots@.len() + 1
                &&& forall|j: int| 0 <= j < old(self).arena.slots@.len()
                    ==> final(self).arena.slots@[j] == old(self).arena.slots@[j]
            },
            construction matches Err(e) ==> {
                &&& res.0 == None::<usize>
                &&& res.1 == e
                &&& final(self).arena == old(self).arena
            },
    {
        let emit = self.version_guard.claim();
        let record = if emit {
            Some(DiagnosticRecord { class: classify_version(sdk_version), version: sdk_version })
        } else {
            None
        };
        match construction {
            Ok(caps) => {
                let h = self.arena.create(caps);
                (Some(h), Error::Success, record)
            },
            Err(e) => (None, e, record),
        }
    }
}

/// How many of `k` successive primary-creation calls on one library state
/// emit a classification record, starting from a version guard in state
/// `initially_set`. Each call emits exactly when the latch was unset and
/// leaves it set, as `create_primary` ensures, so the recursion follows the
/// guard's own transition.
pub open spec fn records_emitted(initially_set: bool, k: nat) -> int
    decreases k,
{
    if k == 0 {
        0
    } else {
        (if !initially_set { 1int } else { 0int }) + records_emitted(true, (k - 1) as nat)
    }
}

/// Once-per-process diagnostic law: however many times the primary-creation
/// entry point is called on a freshly loaded library, the version
/// classification is logged exactly once — on the first call — and a library
/// whose guard is already set logs it never again.
pub proof fn lemma_classification_logged_once(k: nat)
    ensures
        k >= 1 ==> records_emitted(false, k) == 1,
        records_emitted(true, k) == 0,
    decreases k,
{
    if k > 0 {
        lemma_classification_logged_once((k - 1) as nat);
    }
}

/// Create the extended-capability object. This capability family is not
/// supported in the current scope: every call answers `NotAvailable` and
/// leaves the caller's output-handle slot untouched — no handle is ever
/// written to it.
pub fn create_extended(_sdk_version: u32, out_handle: &mut Option<usize>) -> (r: Error)
    ensures
        r == Error::NotAvailable,
        *final(out_handle) == *old(out_handle),
{
    Error::NotAvailable
}

/// A name for what `widestring`'s lossy UTF-16 decode returns: the decoded
/// characters are a function of the input units alone.
pub uninterp spec fn wide_lossy_of(units: Seq<u16>) -> Seq<char>;

/// Relies on widestring::U16Str::to_string_lossy: decodes the units as
/// UTF-16, replacing invalid sequences with U+FFFD; the result depends on
/// the units alone, and an empty input decodes to the empty string.
#[verifier::external_body]
fn decode_wide(units: &Vec<u16>) -> (r: String)
    ensures
        r@ == wide_lossy_of(units@),
        units@.len() == 0 ==> r@.len() == 0,
{
    widestring::U16Str::from_slice(units.as_slice()).to_string_lossy()
}

/// Instrumentation: begin a profiling event. A diagnostic no-op: it decodes
/// the caller's wide-character label solely for human-readable logging,
/// mutates no state, and always answers the fixed neutral status 0. The
/// decoded label is handed back for the hosting logger to emit.
pub fn perf_begin(_color: u32, label: &Vec<u16>) -> (r: (i32, String))
    ensures
        r.0 == 0,
        r.1@ == wide_lossy_of(label@),
        label@.len() == 0 ==> r.1@.len() == 0,
{
    (0, decode_wide(label))
}

/// Instrumentation: set profiling options. Bit 0 of `options` historically
/// signals that the process refuses to be profiled, but is not currently
/// enforced: the call mutates no state and always answers the fixed neutral
/// status 0.
pub fn perf_set_options(_options: u32) -> (r: i32)
    ensures
        r == 0,
{
    0
}

/// Instrumentation: end a profiling event. A diagnostic no-op: mutates no
/// state and always answers the fixed neutral status 0.
pub fn perf_end() -> (r: i32)
    ensures
        r == 0,
{
    0
}

} // verus!
