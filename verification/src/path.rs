//! Repository paths, as far as wire pack records speak of them.

use vstd::prelude::*;
use vstd::slice::slice_to_vec;

verus! {

/// The bytes that can name a file or a directory: at least one byte, and
/// no NUL byte among them.
pub open spec fn valid_path_bytes(bytes: Seq<u8>) -> bool {
    bytes.len() > 0 && forall|i: int| 0 <= i < bytes.len() ==> bytes[i] != 0u8
}

/// Why a byte string is not a path name.
#[derive(Clone, Copy, Debug, PartialEq, Eq)]
pub enum PathError {
    /// The byte string is empty.
    Empty,
    /// The byte string holds a NUL byte; `index` is where the first one is.
    NulByte { index: usize },
}

/// What [`MPath::new`] answers for a byte string that is not a path name.
pub open spec fn path_error(bytes: Seq<u8>, err: PathError) -> bool {
    match err {
        PathError::Empty => bytes.len() == 0,
        PathError::NulByte { index } => {
            &&& index < bytes.len()
            &&& bytes[index as int] == 0u8
            &&& forall|i: int| 0 <= i < index ==> bytes[i] != 0u8
        },
    }
}

/// The name of a file or directory: a non-empty byte string without NUL.
#[derive(Debug, PartialEq, Eq, Hash)]
pub struct MPath {
    bytes: Vec<u8>,
}

impl View for MPath {
    type V = Seq<u8>;

    closed spec fn view(&self) -> Seq<u8> {
        self.bytes@
    }
}

impl Clone for MPath {
    fn clone(&self) -> (p: MPath)
        ensures
            p@ == self@,
    {
        proof {
            use_type_invariant(self);
        }
        MPath { bytes: slice_to_vec(self.bytes.as_slice()) }
    }
}

impl MPath {
    #[verifier::type_invariant]
    spec fn well_formed(self) -> bool {
        valid_path_bytes(self.bytes@)
    }

    /// Makes a path name of `bytes`, which it copies. It fails exactly on
    /// the byte strings that [`valid_path_bytes`] excludes, and says why.
    pub fn new(bytes: &[u8]) -> (r: Result<MPath, PathError>)
        ensures
            r is Ok <==> valid_path_bytes(bytes@),
            r matches Ok(p) ==> p@ == bytes@,
            r matches Err(e) ==> path_error(bytes@, e),
    {
        let n: usize = bytes.len();
        if n == 0 {
            return Err(PathError::Empty);
        }
        let mut i: usize = 0;
        while i < n
            invariant
                i <= n,
                n == bytes@.len(),
                forall|j: int| 0 <= j < i ==> bytes@[j] != 0u8,
            decreases n - i,
        {
            if bytes[i] == 0 {
                return Err(PathError::NulByte { index: i });
            }
            i += 1;
        }
        Ok(MPath { bytes: slice_to_vec(bytes) })
    }

    /// The length of the name in bytes, which is never zero.
    pub fn len(&self) -> (n: usize)
        ensures
            n == self@.len(),
            n > 0,
    {
        proof {
            use_type_invariant(self);
        }
        self.bytes.len()
    }

    /// A copy of the name's bytes.
    pub fn to_vec(&self) -> (v: Vec<u8>)
        ensures
            v@ == self@,
            valid_path_bytes(v@),
    {
        proof {
            use_type_invariant(self);
        }
        slice_to_vec(self.bytes.as_slice())
    }
}

/// A path in a repository: the root, a directory or a file.
#[derive(Clone, Debug, PartialEq, Eq, Hash)]
pub enum RepoPath {
    RootPath,
    DirectoryPath(MPath),
    FilePath(MPath),
}

/// What a [`RepoPath`] is, with each name as its bytes.
pub enum RepoPathView {
    Root,
    Directory(Seq<u8>),
    File(Seq<u8>),
}

impl View for RepoPath {
    type V = RepoPathView;

    open spec fn view(&self) -> RepoPathView {
        match self {
            RepoPath::RootPath => RepoPathView::Root,
            RepoPath::DirectoryPath(p) => RepoPathView::Directory(p@),
            RepoPath::FilePath(p) => RepoPathView::File(p@),
        }
    }
}

impl RepoPath {
    /// The root of the repository.
    pub fn root() -> (p: RepoPath)
        ensures
            p@ == RepoPathView::Root,
    {
        RepoPath::RootPath
    }

    /// The directory named by `name`, where `name` is a path name.
    pub fn dir(name: &[u8]) -> (r: Result<RepoPath, PathError>)
        ensures
            r is Ok <==> valid_path_bytes(name@),
            r matches Ok(p) ==> p@ == RepoPathView::Directory(name@),
            r matches Err(e) ==> path_error(name@, e),
    {
        match MPath::new(name) {
            Ok(p) => Ok(RepoPath::DirectoryPath(p)),
            Err(e) => Err(e),
        }
    }

    /// The file named by `name`, where `name` is a path name.
    pub fn file(name: &[u8]) -> (r: Result<RepoPath, PathError>)
        ensures
            r is Ok <==> valid_path_bytes(name@),
            r matches Ok(p) ==> p@ == RepoPathView::File(name@),
            r matches Err(e) ==> path_error(name@, e),
    {
        match MPath::new(name) {
            Ok(p) => Ok(RepoPath::FilePath(p)),
            Err(e) => Err(e),
        }
    }
}

} // verus!
