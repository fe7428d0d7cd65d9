//! Structured status values and their translation to the single external
//! sentinel code.
//!
//! The external binary contract only understands a 32-bit status word whose
//! high bit denotes failure; internal call chains work with this enumeration
//! and translate exactly once at the boundary.

use vstd::prelude::*;

verus! {

/// Sentinel code for success.
pub const SENTINEL_SUCCESS: u32 = 0;
/// Sentinel code for a feature that is intentionally unimplemented.
pub const SENTINEL_NOT_AVAILABLE: u32 = 0x8876_086A;
/// Sentinel code for an interface identity absent from an object's set.
pub const SENTINEL_NO_INTERFACE: u32 = 0x8000_4002;
/// Sentinel code for a construction failure reported by the collaborator.
pub const SENTINEL_CONSTRUCTION_FAILED: u32 = 0x8000_4005;
/// Sentinel code for a construction failure from memory exhaustion.
pub const SENTINEL_OUT_OF_MEMORY: u32 = 0x8007_000E;

/// A status value: `Success`, or one of a fixed set of named failure kinds.
#[derive(Clone, Copy, Debug, PartialEq, Eq, Structural)]
pub enum Error {
    /// The operation completed.
    Success,
    /// The requested capability family is intentionally unimplemented.
    NotAvailable,
    /// The requested interface identity is not in the object's static set.
    InterfaceNotSupported,
    /// The external collaborator reported that construction failed.
    ConstructionFailed,
    /// The external collaborator ran out of memory during construction.
    OutOfMemory,
}

impl Error {
    /// Whether this status names a failure kind.
    pub open spec fn spec_is_failure(self) -> bool {
        self !== Error::Success
    }

    /// The sentinel code this status translates to.
    pub open spec fn spec_sentinel(self) -> u32 {
        match self {
            Error::Success => SENTINEL_SUCCESS,
            Error::NotAvailable => SENTINEL_NOT_AVAILABLE,
            Error::InterfaceNotSupported => SENTINEL_NO_INTERFACE,
            Error::ConstructionFailed => SENTINEL_CONSTRUCTION_FAILED,
            Error::OutOfMemory => SENTINEL_OUT_OF_MEMORY,
        }
    }

    /// Whether this status names a failure kind.
    pub fn is_failure(self) -> (r: bool)
        ensures
            r == self.spec_is_failure(),
    {
        !matches!(self, Error::Success)
    }

    /// Translate this status into the external sentinel code.
    ///
    /// The high bit of the sentinel is set exactly when the status is a
    /// failure, matching the external convention.
    pub fn to_sentinel(self) -> (r: u32)
        ensures
            r == self.spec_sentinel(),
            (r & 0x8000_0000) != 0 <==> self.spec_is_failure(),
    {
        proof {
            assert((SENTINEL_SUCCESS & 0x8000_0000) == 0) by (bit_vector);
            assert((SENTINEL_NOT_AVAILABLE & 0x8000_0000) != 0) by (bit_vector);
            assert((SENTINEL_NO_INTERFACE & 0x8000_0000) != 0) by (bit_vector);
            assert((SENTINEL_CONSTRUCTION_FAILED & 0x8000_0000) != 0) by (bit_vector);
            assert((SENTINEL_OUT_OF_MEMORY & 0x8000_0000) != 0) by (bit_vector);
        }
        match self {
            Error::Success => SENTINEL_SUCCESS,
            Error::NotAvailable => SENTINEL_NOT_AVAILABLE,
            Error::InterfaceNotSupported => SENTINEL_NO_INTERFACE,
            Error::ConstructionFailed => SENTINEL_CONSTRUCTION_FAILED,
            Error::OutOfMemory => SENTINEL_OUT_OF_MEMORY,
        }
    }

    /// The structured status a sentinel code stands for, if it is one this
    /// library emits.
    pub open spec fn spec_from_sentinel(code: u32) -> Option<Error> {
        if code == SENTINEL_SUCCESS {
            Some(Error::Success)
        } else if code == SENTINEL_NOT_AVAILABLE {
            Some(Error::NotAvailable)
        } else if code == SENTINEL_NO_INTERFACE {
            Some(Error::InterfaceNotSupported)
        } else if code == SENTINEL_CONSTRUCTION_FAILED {
            Some(Error::ConstructionFailed)
        } else if code == SENTINEL_OUT_OF_MEMORY {
            Some(Error::OutOfMemory)
        } else {
            None
        }
    }

    /// Recover the structured status from a sentinel code, if the code is one
    /// this library emits.
    pub fn from_sentinel(code: u32) -> (r: Option<Error>)
        ensures
            r == Error::spec_from_sentinel(code),
    {
        if code == SENTINEL_SUCCESS {
            Some(Error::Success)
        } else if code == SENTINEL_NOT_AVAILABLE {
            Some(Error::NotAvailable)
        } else if code == SENTINEL_NO_INTERFACE {
            Some(Error::InterfaceNotSupported)
        } else if code == SENTINEL_CONSTRUCTION_FAILED {
            Some(Error::ConstructionFailed)
        } else if code == SENTINEL_OUT_OF_MEMORY {
            Some(Error::OutOfMemory)
        } else {
            None
        }
    }
}

/// Translate a value-or-error result into a status: a successful result maps
/// to `Success`, a failure to its carried status unchanged.
pub fn to_error_success<T>(r: &Result<T, Error>) -> (e: Error)
    ensures
        r is Ok ==> e == Error::Success,
        r matches Err(err) ==> e == err,
{
    match r {
        Ok(_) => Error::Success,
        Err(err) => *err,
    }
}

/// Translating to a sentinel code loses no information: distinct statuses
/// translate to distinct codes, so propagation through the external boundary
/// never collapses one failure kind into another.
pub proof fn lemma_sentinel_injective(a: Error, b: Error)
    ensures
        a.spec_sentinel() == b.spec_sentinel() ==> a == b,
{
}

/// Round trip: every status this library emits is recovered unchanged from
/// its own sentinel code, so the translation is total and
/// information-preserving.
pub proof fn lemma_sentinel_round_trip(e: Error)
    ensures
        Error::spec_from_sentinel(e.spec_sentinel()) == Some(e),
{
}

} // verus!
