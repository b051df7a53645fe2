//! Failure classification and the recovery decision tree.
//!
//! Every filesystem failure is classified into exactly one [`FailureKind`]
//! before any recovery decision is made, and the decision itself is a pure
//! function of the classified kind and the caller's creation policy.

use vstd::prelude::*;

verus! {

/// Structured classification of why a filesystem operation did not succeed.
/// `Other` keeps the raw numeric detail of a failure outside the named
/// categories.
#[derive(Clone, Copy, Debug, PartialEq, Eq, Structural)]
pub enum FailureKind {
    NotFound,
    PermissionDenied,
    Other(u32),
}

/// Terminal error of an acquisition attempt. Each variant names the
/// operation that failed and wraps the root cause, so nothing is silently
/// discarded.
#[derive(Clone, Copy, Debug, PartialEq, Eq, Structural)]
pub enum AcquireError {
    /// The open failed with `NotFound` and creation was not permitted.
    NotFoundFailure,
    /// The open failed with `PermissionDenied`.
    PermissionFailure,
    /// The open failed with some other kind; the raw detail is kept.
    OtherIoFailure(u32),
    /// The create attempted after a missed open failed; wraps that create
    /// failure's kind.
    CreateFailure(FailureKind),
}

/// Error from reading an open handle; wraps the underlying failure's kind.
#[derive(Clone, Copy, Debug, PartialEq, Eq, Structural)]
pub struct ReadError {
    pub kind: FailureKind,
}

/// Either failure of the composed acquire-then-read helpers, propagated to
/// the caller untouched.
#[derive(Clone, Copy, Debug, PartialEq, Eq, Structural)]
pub enum AcquisitionOrReadError {
    Acquisition(AcquireError),
    Read(ReadError),
}

/// What to do after a classified open failure: recover by a single create
/// attempt, or stop with a terminal error.
#[derive(Clone, Copy, Debug, PartialEq, Eq, Structural)]
pub enum Recovery {
    AttemptCreate,
    Fail(AcquireError),
}

/// The terminal error that wraps an open failure of kind `kind` when no
/// recovery applies.
pub open spec fn spec_open_error(kind: FailureKind) -> AcquireError {
    match kind {
        FailureKind::NotFound => AcquireError::NotFoundFailure,
        FailureKind::PermissionDenied => AcquireError::PermissionFailure,
        FailureKind::Other(detail) => AcquireError::OtherIoFailure(detail),
    }
}

/// The decision tree applied after an open failure: create exactly when the
/// file was missing and creation is permitted; otherwise fail, wrapping the
/// original kind.
pub open spec fn spec_decide(kind: FailureKind, create_if_missing: bool) -> Recovery {
    if kind == FailureKind::NotFound && create_if_missing {
        Recovery::AttemptCreate
    } else {
        Recovery::Fail(spec_open_error(kind))
    }
}

/// The failure kind a terminal error wraps: the root cause of the failed
/// acquisition.
pub open spec fn spec_wrapped_kind(e: AcquireError) -> FailureKind {
    match e {
        AcquireError::NotFoundFailure => FailureKind::NotFound,
        AcquireError::PermissionFailure => FailureKind::PermissionDenied,
        AcquireError::OtherIoFailure(detail) => FailureKind::Other(detail),
        AcquireError::CreateFailure(kind) => kind,
    }
}

impl AcquireError {
    /// The root cause kept by this terminal error.
    pub fn wrapped_kind(&self) -> (k: FailureKind)
        ensures
            k == spec_wrapped_kind(*self),
    {
        match *self {
            AcquireError::NotFoundFailure => FailureKind::NotFound,
            AcquireError::PermissionFailure => FailureKind::PermissionDenied,
            AcquireError::OtherIoFailure(detail) => FailureKind::Other(detail),
            AcquireError::CreateFailure(kind) => kind,
        }
    }

    /// A human-readable message naming the attempted operation and the
    /// underlying cause.
    pub fn message(&self) -> (r: &'static str)
        ensures
            r@ == spec_acquire_message(*self),
    {
        match *self {
            AcquireError::NotFoundFailure => "problem opening the file: not found",
            AcquireError::PermissionFailure => "problem opening the file: permission denied",
            AcquireError::OtherIoFailure(_) => "problem opening the file: unclassified failure",
            AcquireError::CreateFailure(kind) => match kind {
                FailureKind::NotFound => "problem creating the file: not found",
                FailureKind::PermissionDenied => "problem creating the file: permission denied",
                FailureKind::Other(_) => "problem creating the file: unclassified failure",
            },
        }
    }
}

/// The words naming a failure's cause inside a human-readable message.
pub open spec fn spec_cause_words(kind: FailureKind) -> Seq<char> {
    match kind {
        FailureKind::NotFound => "not found"@,
        FailureKind::PermissionDenied => "permission denied"@,
        FailureKind::Other(_) => "unclassified failure"@,
    }
}

/// The human-readable message of a terminal error: it names the attempted
/// operation and the underlying cause. The path is the caller's to add.
pub open spec fn spec_acquire_message(e: AcquireError) -> Seq<char> {
    match e {
        AcquireError::NotFoundFailure => "problem opening the file: not found"@,
        AcquireError::PermissionFailure => "problem opening the file: permission denied"@,
        AcquireError::OtherIoFailure(_) => "problem opening the file: unclassified failure"@,
        AcquireError::CreateFailure(kind) => match kind {
            FailureKind::NotFound => "problem creating the file: not found"@,
            FailureKind::PermissionDenied => "problem creating the file: permission denied"@,
            FailureKind::Other(_) => "problem creating the file: unclassified failure"@,
        },
    }
}

/// The human-readable message of a read error.
pub open spec fn spec_read_message(e: ReadError) -> Seq<char> {
    match e.kind {
        FailureKind::NotFound => "problem reading the file: not found"@,
        FailureKind::PermissionDenied => "problem reading the file: permission denied"@,
        FailureKind::Other(_) => "problem reading the file: unclassified failure"@,
    }
}

impl ReadError {
    /// A human-readable message naming the attempted operation and the
    /// underlying cause.
    pub fn message(&self) -> (r: &'static str)
        ensures
            r@ == spec_read_message(*self),
    {
        match self.kind {
            FailureKind::NotFound => "problem reading the file: not found",
            FailureKind::PermissionDenied => "problem reading the file: permission denied",
            FailureKind::Other(_) => "problem reading the file: unclassified failure",
        }
    }
}

impl AcquisitionOrReadError {
    /// The wrapped failure's human-readable message, untouched.
    pub fn message(&self) -> (r: &'static str)
        ensures
            ({
                match *self {
                    AcquisitionOrReadError::Acquisition(e) => r@ == spec_acquire_message(e),
                    AcquisitionOrReadError::Read(e) => r@ == spec_read_message(e),
                }
            }),
    {
        match self {
            AcquisitionOrReadError::Acquisition(e) => e.message(),
            AcquisitionOrReadError::Read(e) => e.message(),
        }
    }
}

/// Classify-and-decide step of an acquisition: after an open failure of
/// `kind`, either recover by a single create attempt (only when the file was
/// missing and the caller permits creation) or surface the terminal error
/// that wraps the original kind.
pub fn decide_on_open_failure(kind: FailureKind, create_if_missing: bool) -> (d: Recovery)
    ensures
        d == spec_decide(kind, create_if_missing),
        d == Recovery::AttemptCreate <==> kind == FailureKind::NotFound && create_if_missing,
        d matches Recovery::Fail(e) ==> spec_wrapped_kind(e) == kind,
{
    match kind {
        FailureKind::NotFound => {
            if create_if_missing {
                Recovery::AttemptCreate
            } else {
                Recovery::Fail(AcquireError::NotFoundFailure)
            }
        },
        FailureKind::PermissionDenied => Recovery::Fail(AcquireError::PermissionFailure),
        FailureKind::Other(detail) => Recovery::Fail(AcquireError::OtherIoFailure(detail)),
    }
}

} // verus!
