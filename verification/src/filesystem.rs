//! A verified model of the filesystem capability the acquirer consumes:
//! open, create and read primitives over an in-memory store of files, with
//! counters for the attempts made and the handles outstanding.
//!
//! The model supports the failure modes the acquirer must classify: a
//! missing file, a file whose open is not permitted, a store that refuses
//! creates, and an injected device fault that makes reads fail partway.

use vstd::prelude::*;

use crate::failure::FailureKind;
use crate::failure::ReadError;

verus! {

/// Mathematical model of one file: its name, its contents, whether opening
/// it is permitted, and an injected device fault, if any. A fault `(at, k)`
/// makes every read at offset `at` or beyond fail with kind `k`.
#[verifier::ext_equal]
pub struct FileModel {
    pub name: Seq<u8>,
    pub data: Seq<u8>,
    pub readable: bool,
    pub fault: Option<(usize, FailureKind)>,
}

/// Mathematical model of the whole capability: the files in creation order,
/// whether the store accepts creates, and the counters the contracts and
/// laws speak of.
#[verifier::ext_equal]
pub struct FsModel {
    pub files: Seq<FileModel>,
    pub writable: bool,
    pub open_attempts: nat,
    pub create_attempts: nat,
    pub open_handles: nat,
}

/// One stored file.
pub struct FsEntry {
    name: Vec<u8>,
    data: Vec<u8>,
    readable: bool,
    fault: Option<(usize, FailureKind)>,
}

impl View for FsEntry {
    type V = FileModel;

    closed spec fn view(&self) -> FileModel {
        FileModel { name: self.name@, data: self.data@, readable: self.readable, fault: self.fault }
    }
}

/// The models of a sequence of stored files, in order.
pub open spec fn models_of(files: Seq<FsEntry>) -> Seq<FileModel> {
    Seq::new(files.len(), |i: int| files[i]@)
}

/// The in-memory filesystem capability.
pub struct Fs {
    files: Vec<FsEntry>,
    writable: bool,
    open_attempts: u64,
    create_attempts: u64,
    open_handles: u64,
}

impl View for Fs {
    type V = FsModel;

    closed spec fn view(&self) -> FsModel {
        FsModel {
            files: models_of(self.files@),
            writable: self.writable,
            open_attempts: self.open_attempts as nat,
            create_attempts: self.create_attempts as nat,
            open_handles: self.open_handles as nat,
        }
    }
}

/// An open file: an opaque resource that is never handed out without the
/// underlying file genuinely present. It is not `Clone`, so a caller
/// releases it exactly once, by value, through [`Fs::close`].
#[derive(Debug)]
pub struct FileHandle {
    idx: usize,
}

impl FileHandle {
    /// The position of the opened file in the store.
    pub closed spec fn id(&self) -> int {
        self.idx as int
    }

    /// The handle denotes a file genuinely present in `m`.
    pub open spec fn valid(&self, m: FsModel) -> bool {
        0 <= self.id() < m.files.len()
    }
}

/// The index of the first file named `name`, if any.
pub open spec fn spec_find(files: Seq<FileModel>, name: Seq<u8>) -> Option<int>
    decreases files.len(),
{
    if files.len() == 0 {
        None
    } else if files[0].name == name {
        Some(0)
    } else {
        match spec_find(files.drop_first(), name) {
            Some(i) => Some(i + 1),
            None => None,
        }
    }
}

/// What `spec_find` returns: the first index bearing the name, or nothing
/// when no file bears it.
pub proof fn lemma_find_characterises(files: Seq<FileModel>, name: Seq<u8>)
    ensures
        match spec_find(files, name) {
            Some(i) => 0 <= i < files.len() && files[i].name == name && (forall|j: int|
                0 <= j < i ==> files[j].name != name),
            None => forall|j: int| 0 <= j < files.len() ==> files[j].name != name,
        },
    decreases files.len(),
{
    if files.len() > 0 && files[0].name != name {
        let rest = files.drop_first();
        lemma_find_characterises(rest, name);
        match spec_find(rest, name) {
            Some(i) => {
                assert(files[i + 1] == rest[i]);
                assert forall|j: int| 0 <= j < i + 1 implies files[j].name != name by {
                    if j > 0 {
                        assert(files[j] == rest[j - 1]);
                    }
                }
            },
            None => {
                assert forall|j: int| 0 <= j < files.len() implies files[j].name != name by {
                    if j > 0 {
                        assert(files[j] == rest[j - 1]);
                    }
                }
            },
        }
    }
}

/// A first match at `i` pins `spec_find` to `Some(i)`.
pub proof fn lemma_find_first_match(files: Seq<FileModel>, name: Seq<u8>, i: int)
    requires
        0 <= i < files.len(),
        forall|j: int| 0 <= j < i ==> files[j].name != name,
        files[i].name == name,
    ensures
        spec_find(files, name) == Some(i),
    decreases i,
{
    if i > 0 {
        lemma_find_first_match(files.drop_first(), name, i - 1);
    }
}

/// No match anywhere pins `spec_find` to `None`.
pub proof fn lemma_find_no_match(files: Seq<FileModel>, name: Seq<u8>)
    requires
        forall|j: int| 0 <= j < files.len() ==> files[j].name != name,
    ensures
        spec_find(files, name) == None::<int>,
    decreases files.len(),
{
    if files.len() > 0 {
        lemma_find_no_match(files.drop_first(), name);
    }
}

/// The result of opening `path`: the index of the file, or the classified
/// failure. A missing file is `NotFound`; a file whose open is not
/// permitted, or an open-for-write on a store that refuses writes, is
/// `PermissionDenied`.
pub open spec fn spec_open(m: FsModel, path: Seq<u8>, write: bool) -> Result<int, FailureKind> {
    match spec_find(m.files, path) {
        None => Err(FailureKind::NotFound),
        Some(i) => if !m.files[i].readable {
            Err(FailureKind::PermissionDenied)
        } else if write && !m.writable {
            Err(FailureKind::PermissionDenied)
        } else {
            Ok(i)
        },
    }
}

/// The store and result after creating `path`: a refused create on a
/// read-only store, or a blank, readable, fault-free file — in place of the
/// first file of that name, or appended when the name is new. The create
/// counter is bumped either way, and a handle is opened exactly on success.
pub open spec fn spec_create(m: FsModel, path: Seq<u8>) -> (FsModel, Result<int, FailureKind>) {
    let bumped = FsModel { create_attempts: m.create_attempts + 1, ..m };
    if !m.writable {
        (bumped, Err(FailureKind::PermissionDenied))
    } else {
        let blank = FileModel { name: path, data: Seq::empty(), readable: true, fault: None };
        match spec_find(m.files, path) {
            Some(i) => (
                FsModel {
                    files: m.files.update(i, blank),
                    open_handles: m.open_handles + 1,
                    ..bumped
                },
                Ok(i),
            ),
            None => (
                FsModel {
                    files: m.files.push(blank),
                    open_handles: m.open_handles + 1,
                    ..bumped
                },
                Ok(m.files.len() as int),
            ),
        }
    }
}

/// One read at `pos`: the injected fault's kind at or past its offset, the
/// byte at `pos` inside the contents, or end-of-file.
pub open spec fn spec_read_byte(f: FileModel, pos: usize) -> Result<Option<u8>, FailureKind> {
    match f.fault {
        Some(fa) => if pos >= fa.0 {
            Err(fa.1)
        } else if pos < f.data.len() {
            Ok(Some(f.data[pos as int]))
        } else {
            Ok(None)
        },
        None => if pos < f.data.len() {
            Ok(Some(f.data[pos as int]))
        } else {
            Ok(None)
        },
    }
}

/// The outcome of reading the whole of `f` byte by byte: the contents when
/// no fault lies at or before their end, else the fault's kind. A read
/// that fails partway yields no partial contents.
pub open spec fn spec_read_all(f: FileModel) -> Result<Seq<u8>, FailureKind> {
    match f.fault {
        Some(fa) => if fa.0 <= f.data.len() {
            Err(fa.1)
        } else {
            Ok(f.data)
        },
        None => Ok(f.data),
    }
}

/// A fresh vector holding the same bytes.
fn copy_bytes(v: &Vec<u8>) -> (r: Vec<u8>)
    ensures
        r@ == v@,
{
    let n: usize = v.len();
    let mut out: Vec<u8> = Vec::new();
    let mut i: usize = 0;
    while i < n
        invariant
            n == v@.len(),
            i <= n,
            out@ == v@.subrange(0, i as int),
        decreases n - i,
    {
        out.push(v[i]);
        proof {
            assert(out@ =~= v@.subrange(0, i + 1));
        }
        i = i + 1;
    }
    proof {
        assert(out@ =~= v@);
    }
    out
}

/// Whether the two byte vectors hold the same bytes.
fn bytes_eq(a: &Vec<u8>, b: &Vec<u8>) -> (r: bool)
    ensures
        r == (a@ == b@),
{
    if a.len() != b.len() {
        return false;
    }
    let n: usize = a.len();
    let mut i: usize = 0;
    while i < n
        invariant
            n == a@.len(),
            n == b@.len(),
            i <= n,
            forall|j: int| 0 <= j < i ==> a@[j] == b@[j],
        decreases n - i,
    {
        if a[i] != b[i] {
            return false;
        }
        i = i + 1;
    }
    proof {
        assert(a@ =~= b@);
    }
    true
}

impl Fs {
    /// An empty store with all counters at zero; it accepts creates exactly
    /// when `writable` says so.
    pub fn new(writable: bool) -> (fs: Fs)
        ensures
            fs@ =~= (FsModel {
                files: Seq::empty(),
                writable,
                open_attempts: 0,
                create_attempts: 0,
                open_handles: 0,
            }),
    {
        Fs { files: Vec::new(), writable, open_attempts: 0, create_attempts: 0, open_handles: 0 }
    }

    /// Fixture population: place a file with the given attributes, in place
    /// of the first file of that name, or appended when the name is new.
    /// Counters are untouched.
    pub fn seed_file(
        &mut self,
        name: Vec<u8>,
        data: Vec<u8>,
        readable: bool,
        fault: Option<(usize, FailureKind)>,
    )
        ensures
            ({
                let placed = FileModel { name: name@, data: data@, readable, fault };
                match spec_find(old(self)@.files, name@) {
                    Some(i) => final(self)@ =~= (FsModel {
                        files: old(self)@.files.update(i, placed),
                        ..old(self)@
                    }),
                    None => final(self)@ =~= (FsModel {
                        files: old(self)@.files.push(placed),
                        ..old(self)@
                    }),
                }
            }),
    {
        let entry = FsEntry { name, data, readable, fault };
        match self.find_entry(&entry.name) {
            Some(i) => {
                proof {
                    lemma_find_characterises(self@.files, entry.name@);
                }
                self.files[i] = entry;
                proof {
                    assert(final(self)@.files =~= old(self)@.files.update(i as int, entry@));
                }
            },
            None => {
                self.files.push(entry);
                proof {
                    assert(final(self)@.files =~= old(self)@.files.push(entry@));
                }
            },
        }
    }

    /// Open the file named `path`, for writing too when `write` says so.
    /// Exactly one open attempt is recorded; a handle is opened exactly on
    /// success, and it denotes the file that bears the name. The files
    /// themselves are untouched: an open never truncates.
    pub fn open(&mut self, path: &Vec<u8>, write: bool) -> (r: Result<FileHandle, FailureKind>)
        requires
            old(self)@.open_attempts < u64::MAX,
            old(self)@.open_handles < u64::MAX,
        ensures
            final(self)@.files == old(self)@.files,
            final(self)@.writable == old(self)@.writable,
            final(self)@.open_attempts == old(self)@.open_attempts + 1,
            final(self)@.create_attempts == old(self)@.create_attempts,
            match (r, spec_open(old(self)@, path@, write)) {
                (Ok(h), Ok(i)) => h.id() == i && h.valid(final(self)@) && final(self)@.open_handles
                    == old(self)@.open_handles + 1,
                (Err(k), Err(k2)) => k == k2 && final(self)@.open_handles == old(
                    self,
                )@.open_handles,
                _ => false,
            },
    {
        self.open_attempts = self.open_attempts + 1;
        match self.find_entry(path) {
            None => Err(FailureKind::NotFound),
            Some(i) => {
                proof {
                    lemma_find_characterises(self@.files, path@);
                }
                if !self.files[i].readable {
                    Err(FailureKind::PermissionDenied)
                } else if write && !self.writable {
                    Err(FailureKind::PermissionDenied)
                } else {
                    self.open_handles = self.open_handles + 1;
                    Ok(FileHandle { idx: i })
                }
            },
        }
    }

    /// Create the file named `path`: blank, readable and fault-free, in
    /// place of the first file of that name or appended when the name is
    /// new; refused with `PermissionDenied` when the store does not accept
    /// writes. Exactly one create attempt is recorded; a handle is opened
    /// exactly on success.
    pub fn create(&mut self, path: &Vec<u8>) -> (r: Result<FileHandle, FailureKind>)
        requires
            old(self)@.create_attempts < u64::MAX,
            old(self)@.open_handles < u64::MAX,
        ensures
            final(self)@.writable == old(self)@.writable,
            final(self)@.open_attempts == old(self)@.open_attempts,
            final(self)@.create_attempts == old(self)@.create_attempts + 1,
            final(self)@.files =~= spec_create(old(self)@, path@).0.files,
            final(self)@.open_handles == spec_create(old(self)@, path@).0.open_handles,
            match (r, spec_create(old(self)@, path@).1) {
                (Ok(h), Ok(i)) => h.id() == i && h.valid(final(self)@),
                (Err(k), Err(k2)) => k == k2,
                _ => false,
            },
    {
        self.create_attempts = self.create_attempts + 1;
        if !self.writable {
            return Err(FailureKind::PermissionDenied);
        }
        let blank = FsEntry { name: copy_bytes(path), data: Vec::new(), readable: true, fault: None };
        match self.find_entry(&blank.name) {
            Some(i) => {
                proof {
                    lemma_find_characterises(self@.files, path@);
                }
                self.files[i] = blank;
                self.open_handles = self.open_handles + 1;
                proof {
                    assert(final(self)@.files =~= spec_create(old(self)@, path@).0.files);
                }
                Ok(FileHandle { idx: i })
            },
            None => {
                let i = self.files.len();
                self.files.push(blank);
                self.open_handles = self.open_handles + 1;
                proof {
                    assert(final(self)@.files =~= spec_create(old(self)@, path@).0.files);
                }
                Ok(FileHandle { idx: i })
            },
        }
    }

    /// Read the whole contents of the open handle's file: either every byte
    /// of it, or — when the injected fault lies at or before the end of the
    /// contents — the fault's kind, with every byte already read discarded,
    /// so a truncated prefix is never handed back. The store is borrowed
    /// and unchanged.
    pub fn read_all(&self, h: &FileHandle) -> (r: Result<Vec<u8>, ReadError>)
        requires
            h.valid(self@),
        ensures
            match (r, spec_read_all(self@.files[h.id()])) {
                (Ok(content), Ok(d)) => content@ == d,
                (Err(e), Err(k)) => e.kind == k,
                _ => false,
            },
    {
        let ghost f = self@.files[h.id()];
        let n: usize = self.files[h.idx].data.len();
        let mut buf: Vec<u8> = Vec::new();
        let mut pos: usize = 0;
        loop
            invariant
                h.valid(self@),
                f == self@.files[h.id()],
                n == f.data.len(),
                pos <= n,
                buf@ == f.data.subrange(0, pos as int),
                f.fault matches Some(fa) ==> pos <= fa.0,
            decreases n - pos,
        {
            match self.read_byte(h, pos) {
                Err(k) => {
                    return Err(ReadError { kind: k });
                },
                Ok(None) => {
                    proof {
                        assert(buf@ =~= f.data);
                    }
                    return Ok(buf);
                },
                Ok(Some(b)) => {
                    buf.push(b);
                    proof {
                        assert(buf@ =~= f.data.subrange(0, pos + 1));
                    }
                    pos = pos + 1;
                },
            }
        }
    }

    /// One read of the open handle's file at offset `pos`, as the
    /// capability's read primitive sees it: the injected fault's kind at or
    /// past its offset, the byte at `pos`, or end-of-file.
    pub fn read_byte(&self, h: &FileHandle, pos: usize) -> (r: Result<Option<u8>, FailureKind>)
        requires
            h.valid(self@),
        ensures
            r == spec_read_byte(self@.files[h.id()], pos),
    {
        let entry = &self.files[h.idx];
        match entry.fault {
            Some(fa) => if pos >= fa.0 {
                return Err(fa.1);
            },
            None => {},
        }
        if pos < entry.data.len() {
            Ok(Some(entry.data[pos]))
        } else {
            Ok(None)
        }
    }

    /// Release an open handle. The handle is consumed: it cannot be used,
    /// or released, again. The files themselves are untouched.
    pub fn close(&mut self, handle: FileHandle)
        requires
            old(self)@.open_handles >= 1,
        ensures
            final(self)@ =~= (FsModel {
                open_handles: (old(self)@.open_handles - 1) as nat,
                ..old(self)@
            }),
    {
        let _consumed = handle;
        self.open_handles = self.open_handles - 1;
    }

    /// How many open attempts the store has seen.
    pub fn open_attempt_count(&self) -> (n: u64)
        ensures
            n as nat == self@.open_attempts,
    {
        self.open_attempts
    }

    /// How many create attempts the store has seen.
    pub fn create_attempt_count(&self) -> (n: u64)
        ensures
            n as nat == self@.create_attempts,
    {
        self.create_attempts
    }

    /// How many handles are open and not yet released.
    pub fn open_handle_count(&self) -> (n: u64)
        ensures
            n as nat == self@.open_handles,
    {
        self.open_handles
    }

    /// The index of the first stored file named `name`, if any.
    fn find_entry(&self, name: &Vec<u8>) -> (r: Option<usize>)
        ensures
            match r {
                Some(i) => spec_find(self@.files, name@) == Some(i as int),
                None => spec_find(self@.files, name@) == None::<int>,
            },
    {
        let n: usize = self.files.len();
        let mut i: usize = 0;
        while i < n
            invariant
                n == self.files@.len(),
                i <= n,
                forall|j: int| 0 <= j < i ==> self@.files[j].name != name@,
            decreases n - i,
        {
            if bytes_eq(&self.files[i].name, name) {
                proof {
                    lemma_find_first_match(self@.files, name@, i as int);
                }
                return Some(i);
            }
            i = i + 1;
        }
        proof {
            lemma_find_no_match(self@.files, name@);
        }
        None
    }
}

} // verus!
