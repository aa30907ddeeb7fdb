//! Wire pack records: history entries, data entries, and the parts that a
//! wire pack stream is made of.
//!
//! The layout of both records is stated here as spec functions on the bytes
//! at the front of the buffer; the decoders are proved against them.

use crate::buffer::be_value;
use crate::buffer::buf_bytes;
use crate::buffer::buf_split_to;
use crate::buffer::contents;
use crate::buffer::lemma_be_value_two;
use crate::buffer::read_be_u16;
use crate::buffer::read_be_u64;
use crate::delta::CodecError;
use crate::delta::Delta;
use crate::hash::null_bytes;
use crate::hash::NodeHash;
use crate::path::path_error;
use crate::path::valid_path_bytes;
use crate::path::PathError;
use crate::path::RepoPath;
use crate::path::RepoPathView;
use bytes::BytesMut;
use vstd::pervasive::unreached;
use vstd::prelude::*;
use vstd::slice::slice_subrange;
use vstd::slice::slice_to_vec;

verus! {

/// What sort of wire pack this is.
#[derive(Clone, Copy, Debug, PartialEq, Eq, Hash)]
pub enum Kind {
    /// A wire pack representing tree manifests.
    Tree,
    /// A wire pack representing file contents.
    File,
}

/// The name under which a kind is shown.
pub open spec fn kind_name(kind: Kind) -> Seq<char> {
    match kind {
        Kind::Tree => "tree"@,
        Kind::File => "file"@,
    }
}

impl Kind {
    /// The kind's name in lower case.
    pub fn name(&self) -> (s: &'static str)
        ensures
            s@ == kind_name(*self),
    {
        match self {
            Kind::Tree => "tree",
            Kind::File => "file",
        }
    }
}

/// Where the length of the copy-from path stands in a history record.
pub const HISTORY_COPY_FROM_OFFSET: usize = 80;

/// The size of a history record without its copy-from path: four hashes and
/// a 16-bit length.
pub const HISTORY_HEADER_SIZE: usize = 82;

/// Where the length of the payload stands in a data record.
pub const DATA_DELTA_OFFSET: usize = 40;

/// The size of a data record without its payload: two hashes and a 64-bit
/// length.
pub const DATA_HEADER_SIZE: usize = 48;

/// The longest copy-from path that a history record can carry.
pub const MAX_COPY_FROM_LEN: usize = 65535;

/// A revision's identity, its parents, its link revision and, for a copied
/// file, the path it was copied from.
#[derive(Clone, Debug, PartialEq, Eq)]
pub struct HistoryEntry {
    pub node: NodeHash,
    pub p1: NodeHash,
    pub p2: NodeHash,
    pub linknode: NodeHash,
    pub copy_from: Option<RepoPath>,
}

/// A history entry as plain values.
pub struct HistoryEntryView {
    pub node: Seq<u8>,
    pub p1: Seq<u8>,
    pub p2: Seq<u8>,
    pub linknode: Seq<u8>,
    pub copy_from: Option<RepoPathView>,
}

impl View for HistoryEntry {
    type V = HistoryEntryView;

    open spec fn view(&self) -> HistoryEntryView {
        HistoryEntryView {
            node: self.node@,
            p1: self.p1@,
            p2: self.p2@,
            linknode: self.linknode@,
            copy_from: match self.copy_from {
                Some(p) => Some(p@),
                None => None,
            },
        }
    }
}

/// Why a record could not be decoded.
#[derive(Clone, Debug, PartialEq, Eq)]
pub enum DecodeError {
    /// A history record of a tree wire pack names a path that `node` was
    /// copied from; tree revisions are never copies.
    TreeCopy { node: NodeHash, path: Vec<u8> },
    /// The copy-from bytes of the history record of `node` are not a path
    /// name.
    InvalidCopyFromPath { node: NodeHash, cause: PathError },
    /// The delta codec rejected the payload of the data record of `node`.
    InvalidDelta { node: NodeHash, rejection: CodecError },
}

/// What makes a history entry invalid.
#[derive(Clone, Debug, PartialEq, Eq)]
pub enum Violation {
    /// The entry is copied from the root path.
    CopiedFromRoot,
    /// The entry is copied from a directory.
    CopiedFromDirectory { path: Vec<u8> },
    /// The entry is copied from a file, but the wire pack is not of files.
    CopiedInKind { path: Vec<u8>, kind: Kind },
    /// The copy-from path is longer than a 16-bit length can say.
    PathTooLong { len: usize },
}

/// A violation as plain values.
pub enum ViolationView {
    CopiedFromRoot,
    CopiedFromDirectory { path: Seq<u8> },
    CopiedInKind { path: Seq<u8>, kind: Kind },
    PathTooLong { len: nat },
}

impl View for Violation {
    type V = ViolationView;

    open spec fn view(&self) -> ViolationView {
        match self {
            Violation::CopiedFromRoot => ViolationView::CopiedFromRoot,
            Violation::CopiedFromDirectory { path } => ViolationView::CopiedFromDirectory {
                path: path@,
            },
            Violation::CopiedInKind { path, kind } => ViolationView::CopiedInKind {
                path: path@,
                kind: *kind,
            },
            Violation::PathTooLong { len } => ViolationView::PathTooLong { len: *len as nat },
        }
    }
}

/// An invalid history entry: the node it is for, and what is wrong with it.
#[derive(Clone, Debug, PartialEq, Eq)]
pub struct ValidationError {
    pub node: NodeHash,
    pub violation: Violation,
}

/// The length of the copy-from path that a history header announces.
pub open spec fn history_copy_len(s: Seq<u8>) -> nat {
    be_value(s.subrange(80, 82))
}

/// The length of the history record at the front of `s`.
pub open spec fn history_record_len(s: Seq<u8>) -> nat {
    82 + history_copy_len(s)
}

/// Whether `s` holds all of the history record that starts it.
pub open spec fn history_complete(s: Seq<u8>) -> bool {
    s.len() >= 82 && s.len() >= history_record_len(s)
}

/// The copy-from bytes of the history record at the front of `s`.
pub open spec fn history_copy_bytes(s: Seq<u8>) -> Seq<u8> {
    s.subrange(82, history_record_len(s) as int)
}

/// Whether the history record at the front of `s` can stand in a wire pack
/// of kind `kind`: it names no copy source, or the wire pack is of files and
/// the copy source is a path name.
pub open spec fn history_accepted(s: Seq<u8>, kind: Kind) -> bool {
    history_copy_len(s) == 0 || (kind == Kind::File && valid_path_bytes(history_copy_bytes(s)))
}

/// The entry that the history record at the front of `s` encodes.
pub open spec fn history_decoded(s: Seq<u8>) -> HistoryEntryView {
    HistoryEntryView {
        node: s.subrange(0, 20),
        p1: s.subrange(20, 40),
        p2: s.subrange(40, 60),
        linknode: s.subrange(60, 80),
        copy_from: if history_copy_len(s) == 0 {
            None
        } else {
            Some(RepoPathView::File(history_copy_bytes(s)))
        },
    }
}

/// The error that a complete history record at the front of `s` gets where
/// it is not accepted.
pub open spec fn history_rejection(s: Seq<u8>, kind: Kind, err: DecodeError) -> bool {
    match kind {
        Kind::Tree => (err matches DecodeError::TreeCopy { node, path } && node@ == s.subrange(
            0,
            20,
        ) && path@ == history_copy_bytes(s)),
        Kind::File => (err matches DecodeError::InvalidCopyFromPath { node, cause } && node@
            == s.subrange(0, 20) && path_error(history_copy_bytes(s), cause)),
    }
}

/// What is wrong with a copy source in a wire pack of kind `kind`, if
/// anything.
pub open spec fn violation_of(copy_from: Option<RepoPathView>, kind: Kind) -> Option<
    ViolationView,
> {
    match copy_from {
        None => None,
        Some(RepoPathView::Root) => Some(ViolationView::CopiedFromRoot),
        Some(RepoPathView::Directory(path)) => Some(ViolationView::CopiedFromDirectory { path }),
        Some(RepoPathView::File(path)) => if kind != Kind::File {
            Some(ViolationView::CopiedInKind { path, kind })
        } else if path.len() > 65535 {
            Some(ViolationView::PathTooLong { len: path.len() })
        } else {
            None
        },
    }
}

impl HistoryEntry {
    /// Decodes the history record at the front of `buf`.
    ///
    /// While the record is not all there, the answer is `Ok(None)`. A
    /// complete record that is accepted for `kind` is removed from the
    /// buffer and returned. One that is not accepted is an error. The
    /// buffer changes only where an entry is returned.
    pub fn decode(buf: &mut BytesMut, kind: Kind) -> (r: Result<Option<HistoryEntry>, DecodeError>)
        ensures
            !history_complete(contents(*old(buf))) ==> r matches Ok(None),
            history_complete(contents(*old(buf))) && history_accepted(contents(*old(buf)), kind)
                ==> (r matches Ok(Some(e)) && e@ == history_decoded(contents(*old(buf)))),
            history_complete(contents(*old(buf))) && !history_accepted(contents(*old(buf)), kind)
                ==> (r matches Err(err) && history_rejection(contents(*old(buf)), kind, err)),
            contents(*final(buf)) == if r matches Ok(Some(_)) {
                contents(*old(buf)).skip(history_record_len(contents(*old(buf))) as int)
            } else {
                contents(*old(buf))
            },
    {
        let ghost s = contents(*buf);
        let bytes = buf_bytes(buf);
        let n: usize = bytes.len();
        if n < HISTORY_HEADER_SIZE {
            return Ok(None);
        }
        let len_field = slice_subrange(bytes, HISTORY_COPY_FROM_OFFSET, HISTORY_HEADER_SIZE);
        let copy_from_len: usize = read_be_u16(len_field) as usize;
        proof {
            assert(len_field@.take(2) =~= s.subrange(80, 82));
            lemma_be_value_two(s.subrange(80, 82));
        }
        if n - HISTORY_HEADER_SIZE < copy_from_len {
            return Ok(None);
        }
        let node = NodeHash::read_at(bytes, 0);
        let p1 = NodeHash::read_at(bytes, 20);
        let p2 = NodeHash::read_at(bytes, 40);
        let linknode = NodeHash::read_at(bytes, 60);
        let mut copy_from: Option<RepoPath> = None;
        if copy_from_len > 0 {
            let raw = slice_subrange(bytes, HISTORY_HEADER_SIZE, HISTORY_HEADER_SIZE + copy_from_len);
            match kind {
                Kind::Tree => {
                    return Err(DecodeError::TreeCopy { node, path: slice_to_vec(raw) });
                },
                Kind::File => match RepoPath::file(raw) {
                    Ok(path) => {
                        copy_from = Some(path);
                    },
                    Err(cause) => {
                        return Err(DecodeError::InvalidCopyFromPath { node, cause });
                    },
                },
            }
        }
        let _record = buf_split_to(buf, HISTORY_HEADER_SIZE + copy_from_len);
        Ok(Some(HistoryEntry { node, p1, p2, linknode, copy_from }))
    }

    /// Checks that the entry may stand in a wire pack of kind `kind`.
    ///
    /// An entry without a copy source is valid. One with a copy source is
    /// valid only where the source is a file, the wire pack is of files, and
    /// the path is at most 65535 bytes long. The error names the node and
    /// the first rule that is broken.
    pub fn verify(&self, kind: Kind) -> (r: Result<(), ValidationError>)
        ensures
            r is Ok <==> violation_of(self@.copy_from, kind) is None,
            r matches Err(e) ==> (e.node == self.node && Some(e.violation@) == violation_of(
                self@.copy_from,
                kind,
            )),
    {
        match &self.copy_from {
            None => Ok(()),
            Some(RepoPath::RootPath) => Err(
                ValidationError { node: self.node, violation: Violation::CopiedFromRoot },
            ),
            Some(RepoPath::DirectoryPath(path)) => Err(
                ValidationError {
                    node: self.node,
                    violation: Violation::CopiedFromDirectory { path: path.to_vec() },
                },
            ),
            Some(RepoPath::FilePath(path)) => {
                match kind {
                    Kind::Tree => {
                        return Err(
                            ValidationError {
                                node: self.node,
                                violation: Violation::CopiedInKind { path: path.to_vec(), kind },
                            },
                        );
                    },
                    Kind::File => {},
                }
                let len: usize = path.len();
                if len > MAX_COPY_FROM_LEN {
                    return Err(
                        ValidationError {
                            node: self.node,
                            violation: Violation::PathTooLong { len },
                        },
                    );
                }
                Ok(())
            },
        }
    }
}

/// A revision's content: the full text where `delta_base` is the null hash,
/// else a delta against the content of `delta_base`.
#[derive(Clone, Debug, PartialEq, Eq)]
pub struct DataEntry {
    pub node: NodeHash,
    pub delta_base: NodeHash,
    pub delta: Delta,
}

/// The length of the payload that a data header announces.
pub open spec fn data_payload_len(s: Seq<u8>) -> nat {
    be_value(s.subrange(40, 48))
}

/// The length of the data record at the front of `s`.
pub open spec fn data_record_len(s: Seq<u8>) -> nat {
    48 + data_payload_len(s)
}

/// Whether `s` holds all of the data record that starts it.
pub open spec fn data_complete(s: Seq<u8>) -> bool {
    s.len() >= 48 && s.len() >= data_record_len(s)
}

/// The node of the data record at the front of `s`.
pub open spec fn data_node(s: Seq<u8>) -> Seq<u8> {
    s.subrange(0, 20)
}

/// The delta base of the data record at the front of `s`.
pub open spec fn data_base(s: Seq<u8>) -> Seq<u8> {
    s.subrange(20, 40)
}

/// The payload of the data record at the front of `s`.
pub open spec fn data_payload(s: Seq<u8>) -> Seq<u8> {
    s.subrange(48, data_record_len(s) as int)
}

/// Whether the payload of the data record at the front of `s` is a full
/// text: its delta base is the null hash.
pub open spec fn data_is_fulltext(s: Seq<u8>) -> bool {
    data_base(s) == null_bytes()
}

/// What decoding a data record gives once the codec has answered `decoded`
/// for its payload: the codec's delta in an entry, or the codec's error as
/// the cause of a decode error.
pub open spec fn data_codec_outcome(
    node: NodeHash,
    delta_base: NodeHash,
    decoded: Result<Delta, CodecError>,
) -> Result<Option<DataEntry>, DecodeError> {
    match decoded {
        Ok(delta) => Ok(Some(DataEntry { node, delta_base, delta })),
        Err(rejection) => Err(DecodeError::InvalidDelta { node, rejection }),
    }
}

/// What decoding the complete data record at the front of `s` gives where
/// its payload is a full text.
pub open spec fn data_fulltext_outcome(
    s: Seq<u8>,
    r: Result<Option<DataEntry>, DecodeError>,
) -> bool {
    r matches Ok(Some(e)) && e.node@ == data_node(s) && e.delta_base@ == data_base(s) && (
    e.delta matches Delta::FullText(text) && text@ == data_payload(s))
}

/// What decoding the complete data record at the front of `s` gives where
/// its payload is an encoded delta, for which the codec answered `decoded`.
pub open spec fn data_delta_outcome(
    s: Seq<u8>,
    decoded: Result<Delta, CodecError>,
    r: Result<Option<DataEntry>, DecodeError>,
) -> bool {
    exists|node: NodeHash, delta_base: NodeHash|
        node@ == data_node(s) && delta_base@ == data_base(s) && r == data_codec_outcome(
            node,
            delta_base,
            decoded,
        )
}

impl DataEntry {
    /// The result of decoding a data record of `node` against `delta_base`
    /// whose payload the delta codec has answered with `decoded`.
    pub fn from_codec_result(
        node: NodeHash,
        delta_base: NodeHash,
        decoded: Result<Delta, CodecError>,
    ) -> (r: Result<Option<DataEntry>, DecodeError>)
        ensures
            r == data_codec_outcome(node, delta_base, decoded),
    {
        match decoded {
            Ok(delta) => Ok(Some(DataEntry { node, delta_base, delta })),
            Err(rejection) => Err(DecodeError::InvalidDelta { node, rejection }),
        }
    }

    /// Decodes the data record at the front of `buf`; `codec` decodes an
    /// encoded delta.
    ///
    /// While the record is not all there, the answer is `Ok(None)` and the
    /// buffer stays as it is. A complete record is removed from the buffer.
    /// Where its delta base is the null hash, its payload is the full text
    /// and `codec` is not asked. Otherwise `codec` is called once, on the
    /// payload, and its answer is handed on: the delta inside the entry, or
    /// the error as the cause of the failure.
    pub fn decode<F: FnOnce(Vec<u8>) -> Result<Delta, CodecError>>(buf: &mut BytesMut, codec: F) -> (r:
        Result<Option<DataEntry>, DecodeError>)
        requires
            data_complete(contents(*old(buf))) && !data_is_fulltext(contents(*old(buf)))
                ==> forall|payload: Vec<u8>|
                payload@ == data_payload(contents(*old(buf))) ==> #[trigger] codec.requires(
                    (payload,),
                ),
        ensures
            !data_complete(contents(*old(buf))) ==> r matches Ok(None),
            data_complete(contents(*old(buf))) && data_is_fulltext(contents(*old(buf)))
                ==> data_fulltext_outcome(contents(*old(buf)), r),
            data_complete(contents(*old(buf))) && !data_is_fulltext(contents(*old(buf)))
                ==> exists|payload: Vec<u8>, decoded: Result<Delta, CodecError>|
                payload@ == data_payload(contents(*old(buf))) && #[trigger] codec.ensures(
                    (payload,),
                    decoded,
                ) && data_delta_outcome(contents(*old(buf)), decoded, r),
            contents(*final(buf)) == if data_complete(contents(*old(buf))) {
                contents(*old(buf)).skip(data_record_len(contents(*old(buf))) as int)
            } else {
                contents(*old(buf))
            },
    {
        let ghost s = contents(*buf);
        let bytes = buf_bytes(buf);
        let n: usize = bytes.len();
        if n < DATA_HEADER_SIZE {
            return Ok(None);
        }
        let len_field = slice_subrange(bytes, DATA_DELTA_OFFSET, DATA_HEADER_SIZE);
        let announced: u64 = read_be_u64(len_field);
        assert(len_field@.take(8) =~= s.subrange(40, 48));
        if ((n - DATA_HEADER_SIZE) as u64) < announced {
            return Ok(None);
        }
        let delta_len: usize = announced as usize;
        let node = NodeHash::read_at(bytes, 0);
        let delta_base = NodeHash::read_at(bytes, 20);
        let _header = buf_split_to(buf, DATA_HEADER_SIZE);
        let payload = buf_split_to(buf, delta_len);
        let text = slice_to_vec(buf_bytes(&payload));
        assert(text@ =~= data_payload(s));
        assert(contents(*buf) =~= s.skip(data_record_len(s) as int));
        if delta_base.is_null() {
            Ok(Some(DataEntry { node, delta_base, delta: Delta::new_fulltext(text) }))
        } else {
            let decoded = codec(text);
            DataEntry::from_codec_result(node, delta_base, decoded)
        }
    }
}

/// An atomic part of a wire pack stream.
#[derive(Clone, Debug, PartialEq, Eq)]
pub enum Part {
    HistoryMeta { path: RepoPath, entry_count: usize },
    History(HistoryEntry),
    DataMeta { path: RepoPath, entry_count: usize },
    Data(DataEntry),
    End,
}

impl Part {
    /// The path and the entry count of a history header part.
    pub fn unwrap_history_meta(self) -> (r: (RepoPath, usize))
        requires
            self is HistoryMeta,
        ensures
            self == (Part::HistoryMeta { path: r.0, entry_count: r.1 }),
    {
        match self {
            Part::HistoryMeta { path, entry_count } => (path, entry_count),
            _ => unreached(),
        }
    }

    /// The entry of a history part.
    pub fn unwrap_history(self) -> (r: HistoryEntry)
        requires
            self is History,
        ensures
            self == Part::History(r),
    {
        match self {
            Part::History(entry) => entry,
            _ => unreached(),
        }
    }

    /// The path and the entry count of a data header part.
    pub fn unwrap_data_meta(self) -> (r: (RepoPath, usize))
        requires
            self is DataMeta,
        ensures
            self == (Part::DataMeta { path: r.0, entry_count: r.1 }),
    {
        match self {
            Part::DataMeta { path, entry_count } => (path, entry_count),
            _ => unreached(),
        }
    }

    /// The entry of a data part.
    pub fn unwrap_data(self) -> (r: DataEntry)
        requires
            self is Data,
        ensures
            self == Part::Data(r),
    {
        match self {
            Part::Data(entry) => entry,
            _ => unreached(),
        }
    }
}

} // verus!
