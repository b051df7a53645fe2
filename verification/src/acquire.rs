//! The acquirer: open, classify, create once when missing and permitted,
//! and the composed acquire-then-read helpers, together with the laws that
//! hold of every acquisition.

use vstd::prelude::*;

use crate::failure::AcquireError;
use crate::failure::AcquisitionOrReadError;
use crate::failure::FailureKind;
use crate::failure::ReadError;
use crate::failure::Recovery;
use crate::failure::decide_on_open_failure;
use crate::failure::spec_decide;
use crate::failure::spec_wrapped_kind;
use crate::filesystem::FileHandle;
use crate::filesystem::Fs;
use crate::filesystem::FsModel;
use crate::filesystem::lemma_find_characterises;
use crate::filesystem::lemma_find_first_match;
use crate::filesystem::spec_create;
use crate::filesystem::spec_find;
use crate::filesystem::spec_open;
use crate::filesystem::spec_read_all;

verus! {

/// The result of an acquisition attempt: an open handle, or a classified
/// terminal failure with the root cause kept for the caller's recovery
/// decision.
pub type AcquisitionOutcome = Result<FileHandle, AcquireError>;

/// All attempt and handle counters have room for one more call.
pub open spec fn counters_have_room(m: FsModel) -> bool {
    &&& m.open_attempts < u64::MAX
    &&& m.create_attempts < u64::MAX
    &&& m.open_handles < u64::MAX
}

/// The store and outcome of one acquisition: one open attempt; on an open
/// failure, the decision tree of [`spec_decide`]; at most one create
/// attempt, and only for a missing file with creation permitted.
pub open spec fn spec_acquire(m: FsModel, path: Seq<u8>, create_if_missing: bool) -> (
    FsModel,
    Result<int, AcquireError>,
) {
    let opened = FsModel { open_attempts: m.open_attempts + 1, ..m };
    match spec_open(m, path, create_if_missing) {
        Ok(i) => (FsModel { open_handles: opened.open_handles + 1, ..opened }, Ok(i)),
        Err(kind) => match spec_decide(kind, create_if_missing) {
            Recovery::AttemptCreate => {
                let created = spec_create(opened, path);
                match created.1 {
                    Ok(i) => (created.0, Ok(i)),
                    Err(k2) => (created.0, Err(AcquireError::CreateFailure(k2))),
                }
            },
            Recovery::Fail(e) => (opened, Err(e)),
        },
    }
}

/// Acquire the file named `path`: attempt one open (for writing too when
/// creation is enabled); on success hand the handle back; on failure,
/// classify it, recover by a single create attempt exactly when the file
/// was missing and `create_if_missing` permits, and otherwise surface the
/// terminal error that wraps the original failure's kind. A create failure
/// is wrapped and surfaced, never discarded.
pub fn acquire(fs: &mut Fs, path: &Vec<u8>, create_if_missing: bool) -> (r: AcquisitionOutcome)
    requires
        path@.len() > 0,
        counters_have_room(old(fs)@),
    ensures
        ({
            let (m2, res) = spec_acquire(old(fs)@, path@, create_if_missing);
            &&& final(fs)@ =~= m2
            &&& match (r, res) {
                (Ok(h), Ok(i)) => h.id() == i && h.valid(final(fs)@),
                (Err(e), Err(e2)) => e == e2,
                _ => false,
            }
        }),
        // One open attempt, at most one create attempt, per call.
        final(fs)@.open_attempts == old(fs)@.open_attempts + 1,
        final(fs)@.create_attempts <= old(fs)@.create_attempts + 1,
        // An existing path never sees a create attempt.
        spec_find(old(fs)@.files, path@) is Some ==> final(fs)@.create_attempts == old(
            fs,
        )@.create_attempts,
        // A failure other than `NotFound` is terminal, wrapping its kind.
        match spec_open(old(fs)@, path@, create_if_missing) {
            Err(k) => k != FailureKind::NotFound ==> ({
                &&& final(fs)@.create_attempts == old(fs)@.create_attempts
                &&& r matches Err(e) && spec_wrapped_kind(e) == k
            }),
            Ok(i) => true,
        },
        // A handle is opened exactly on success, and nothing else leaks.
        final(fs)@.open_handles == old(fs)@.open_handles + (if r is Ok {
            1nat
        } else {
            0nat
        }),
{
    match fs.open(path, create_if_missing) {
        Ok(h) => Ok(h),
        Err(kind) => match decide_on_open_failure(kind, create_if_missing) {
            Recovery::AttemptCreate => match fs.create(path) {
                Ok(h) => Ok(h),
                Err(k2) => Err(AcquireError::CreateFailure(k2)),
            },
            Recovery::Fail(e) => Err(e),
        },
    }
}

/// The outcome of acquiring `path` without creation and reading the whole
/// of it: the contents, or whichever failure came first, wrapped untouched.
pub open spec fn spec_read_file(m: FsModel, path: Seq<u8>) -> Result<
    Seq<u8>,
    AcquisitionOrReadError,
> {
    let acq = spec_acquire(m, path, false);
    match acq.1 {
        Err(e) => Err(AcquisitionOrReadError::Acquisition(e)),
        Ok(i) => match spec_read_all(acq.0.files[i]) {
            Ok(d) => Ok(d),
            Err(k) => Err(AcquisitionOrReadError::Read(ReadError { kind: k })),
        },
    }
}

/// Acquire `path` without creation, read the whole contents, release the
/// handle, and propagate either failure untouched to the caller — written
/// with explicit matching.
pub fn read_file_or_fail(fs: &mut Fs, path: &Vec<u8>) -> (r: Result<
    Vec<u8>,
    AcquisitionOrReadError,
>)
    requires
        path@.len() > 0,
        counters_have_room(old(fs)@),
    ensures
        final(fs)@.files =~= old(fs)@.files,
        final(fs)@.writable == old(fs)@.writable,
        final(fs)@.open_attempts == old(fs)@.open_attempts + 1,
        final(fs)@.create_attempts == old(fs)@.create_attempts,
        final(fs)@.open_handles == old(fs)@.open_handles,
        match (r, spec_read_file(old(fs)@, path@)) {
            (Ok(content), Ok(d)) => content@ == d,
            (Err(e), Err(e2)) => e == e2,
            _ => false,
        },
{
    let h = match acquire(fs, path, false) {
        Ok(handle) => handle,
        Err(e) => {
            return Err(AcquisitionOrReadError::Acquisition(e));
        },
    };
    let outcome = fs.read_all(&h);
    fs.close(h);
    match outcome {
        Ok(content) => Ok(content),
        Err(e) => Err(AcquisitionOrReadError::Read(e)),
    }
}

/// The acquisition outcome with its failure wrapped for propagation.
fn wrap_acquire(r: AcquisitionOutcome) -> (w: Result<FileHandle, AcquisitionOrReadError>)
    ensures
        match (w, r) {
            (Ok(h), Ok(h0)) => h == h0,
            (Err(e), Err(e0)) => e == AcquisitionOrReadError::Acquisition(e0),
            _ => false,
        },
{
    match r {
        Ok(h) => Ok(h),
        Err(e) => Err(AcquisitionOrReadError::Acquisition(e)),
    }
}

/// The read outcome with its failure wrapped for propagation.
fn wrap_read(r: Result<Vec<u8>, ReadError>) -> (w: Result<Vec<u8>, AcquisitionOrReadError>)
    ensures
        match (w, r) {
            (Ok(c), Ok(c0)) => c == c0,
            (Err(e), Err(e0)) => e == AcquisitionOrReadError::Read(e0),
            _ => false,
        },
{
    match r {
        Ok(c) => Ok(c),
        Err(e) => Err(AcquisitionOrReadError::Read(e)),
    }
}

/// The same operation as [`read_file_or_fail`], written with shorthand
/// propagation: each failure is wrapped and handed to the caller by the
/// try operator. The two forms meet the same contract, so their outcomes
/// are identical on every input.
pub fn read_file_or_fail_shorthand(fs: &mut Fs, path: &Vec<u8>) -> (r: Result<
    Vec<u8>,
    AcquisitionOrReadError,
>)
    requires
        path@.len() > 0,
        counters_have_room(old(fs)@),
    ensures
        final(fs)@.files =~= old(fs)@.files,
        final(fs)@.writable == old(fs)@.writable,
        final(fs)@.open_attempts == old(fs)@.open_attempts + 1,
        final(fs)@.create_attempts == old(fs)@.create_attempts,
        final(fs)@.open_handles == old(fs)@.open_handles,
        match (r, spec_read_file(old(fs)@, path@)) {
            (Ok(content), Ok(d)) => content@ == d,
            (Err(e), Err(e2)) => e == e2,
            _ => false,
        },
{
    let h = wrap_acquire(acquire(fs, path, false))?;
    let outcome = wrap_read(fs.read_all(&h));
    fs.close(h);
    let content = outcome?;
    Ok(content)
}

/// Law: acquiring a missing path with creation permitted, on a store that
/// accepts creates, creates the file — with exactly one create attempt —
/// and yields a handle to a blank file whose full read returns empty
/// content.
pub proof fn lemma_acquire_missing_creates_empty(m: FsModel, path: Seq<u8>)
    requires
        spec_find(m.files, path) is None,
        m.writable,
    ensures
        ({
            let (m2, res) = spec_acquire(m, path, true);
            &&& res == Ok::<int, AcquireError>(m.files.len() as int)
            &&& m2.create_attempts == m.create_attempts + 1
            &&& m2.files.len() == m.files.len() + 1
            &&& spec_find(m2.files, path) == Some(m.files.len() as int)
            &&& m2.files[m.files.len() as int].data == Seq::<u8>::empty()
            &&& spec_read_all(m2.files[m.files.len() as int]) == Ok::<Seq<u8>, FailureKind>(
                Seq::<u8>::empty(),
            )
        }),
{
    lemma_find_characterises(m.files, path);
    let (m2, res) = spec_acquire(m, path, true);
    let k = m.files.len() as int;
    assert(m2.files[k].name == path);
    assert(forall|j: int| 0 <= j < k ==> m2.files[j] == m.files[j]);
    lemma_find_first_match(m2.files, path, k);
}

/// Law: acquisition is idempotent on an initially missing path — the first
/// call creates the file once; the second opens the now-existing file with
/// no further create attempt and leaves the files unchanged.
pub proof fn lemma_acquire_idempotent(m: FsModel, path: Seq<u8>)
    requires
        spec_find(m.files, path) is None,
        m.writable,
    ensures
        ({
            let (m1, r1) = spec_acquire(m, path, true);
            let (m2, r2) = spec_acquire(m1, path, true);
            &&& r1 is Ok
            &&& m1.create_attempts == m.create_attempts + 1
            &&& r2 is Ok
            &&& m2.create_attempts == m1.create_attempts
            &&& m2.files =~= m1.files
        }),
{
    lemma_acquire_missing_creates_empty(m, path);
    let (m1, r1) = spec_acquire(m, path, true);
    let k = m.files.len() as int;
    assert(spec_open(m1, path, true) == Ok::<int, FailureKind>(k));
}

/// Law: when the path already exists, acquisition never attempts a create,
/// whatever the creation flag says.
pub proof fn lemma_existing_path_never_creates(m: FsModel, path: Seq<u8>, create_if_missing: bool)
    requires
        spec_find(m.files, path) is Some,
    ensures
        spec_acquire(m, path, create_if_missing).0.create_attempts == m.create_attempts,
{
}

/// Law: an open failure of any kind other than `NotFound` never leads to a
/// create attempt, and the terminal error wraps exactly the original
/// failure's kind.
pub proof fn lemma_other_failures_terminal(m: FsModel, path: Seq<u8>, create_if_missing: bool)
    requires
        spec_open(m, path, create_if_missing) matches Err(k) && k != FailureKind::NotFound,
    ensures
        spec_acquire(m, path, create_if_missing).0.create_attempts == m.create_attempts,
        spec_acquire(m, path, create_if_missing).1 matches Err(e) && spec_wrapped_kind(e)
            == spec_open(m, path, create_if_missing)->Err_0,
{
}

} // verus!
