use bytes::BytesMut;
use wirepack::hash::NodeHash;
use wirepack::path::PathError;
use wirepack::path::RepoPath;
use wirepack::wirepack::DecodeError;
use wirepack::wirepack::HistoryEntry;
use wirepack::wirepack::Kind;
use wirepack::wirepack::Violation;

fn hash_of(byte: u8) -> NodeHash {
    NodeHash { bytes: [byte; 20] }
}

fn history_record(copy_from: &[u8]) -> Vec<u8> {
    let mut out = Vec::new();
    out.extend_from_slice(&[1u8; 20]);
    out.extend_from_slice(&[2u8; 20]);
    out.extend_from_slice(&[3u8; 20]);
    out.extend_from_slice(&[4u8; 20]);
    out.push((copy_from.len() / 256) as u8);
    out.push((copy_from.len() % 256) as u8);
    out.extend_from_slice(copy_from);
    out
}

fn make_history_entry(copy_from: Option<RepoPath>) -> HistoryEntry {
    HistoryEntry {
        node: NodeHash::null(),
        p1: NodeHash::null(),
        p2: NodeHash::null(),
        linknode: NodeHash::null(),
        copy_from,
    }
}

#[test]
fn test_history_verify_basic() {
    let foo_dir = RepoPath::dir("foo".as_bytes()).unwrap();
    let bar_file = RepoPath::file("bar".as_bytes()).unwrap();
    let root = RepoPath::root();

    let valid = vec![
        (Kind::Tree, None),
        (Kind::File, None),
        (Kind::File, Some(bar_file.clone())),
    ];
    let kinds = vec![Kind::Tree, Kind::File];
    let copy_froms = vec![None, Some(foo_dir), Some(bar_file), Some(root)];

    for kind in kinds {
        for copy_from in copy_froms.iter() {
            let pair = (kind, copy_from.clone());
            let is_valid = valid.contains(&pair);
            let (kind, copy_from) = pair;
            let entry = make_history_entry(copy_from);
            let result = entry.verify(kind);
            if is_valid {
                result.expect("expected history entry to be valid");
            } else {
                result.expect_err("expected history entry to be invalid");
            }
        }
    }
}

#[test]
fn verify_names_the_node_and_the_violation() {
    let mut entry = make_history_entry(Some(RepoPath::root()));
    entry.node = hash_of(9);
    let err = entry.verify(Kind::File).unwrap_err();
    assert_eq!(err.node, hash_of(9));
    assert_eq!(err.violation, Violation::CopiedFromRoot);

    entry.copy_from = Some(RepoPath::dir(b"foo").unwrap());
    let err = entry.verify(Kind::File).unwrap_err();
    assert_eq!(err.node, hash_of(9));
    assert_eq!(err.violation, Violation::CopiedFromDirectory { path: b"foo".to_vec() });

    entry.copy_from = Some(RepoPath::file(b"bar").unwrap());
    let err = entry.verify(Kind::Tree).unwrap_err();
    assert_eq!(err.node, hash_of(9));
    assert_eq!(
        err.violation,
        Violation::CopiedInKind { path: b"bar".to_vec(), kind: Kind::Tree }
    );
}

#[test]
fn verify_path_length_limit() {
    let longest = vec![b'a'; 65535];
    let entry = make_history_entry(Some(RepoPath::file(&longest).unwrap()));
    assert_eq!(entry.verify(Kind::File), Ok(()));

    let too_long = vec![b'a'; 65536];
    let entry = make_history_entry(Some(RepoPath::file(&too_long).unwrap()));
    let err = entry.verify(Kind::File).unwrap_err();
    assert_eq!(err.node, NodeHash::null());
    assert_eq!(err.violation, Violation::PathTooLong { len: 65536 });

    // The kind is looked at before the length.
    let err = entry.verify(Kind::Tree).unwrap_err();
    assert_eq!(err.violation, Violation::CopiedInKind { path: too_long, kind: Kind::Tree });
}

#[test]
fn history_decode_without_copy_from() {
    for kind in [Kind::Tree, Kind::File] {
        let mut buf = BytesMut::from(history_record(b""));
        let entry = HistoryEntry::decode(&mut buf, kind).unwrap().unwrap();
        assert_eq!(
            entry,
            HistoryEntry {
                node: hash_of(1),
                p1: hash_of(2),
                p2: hash_of(3),
                linknode: hash_of(4),
                copy_from: None,
            }
        );
        assert_eq!(buf.len(), 0);
    }
}

#[test]
fn history_decode_with_copy_from() {
    let mut bytes = history_record(b"dir/file.txt");
    bytes.extend_from_slice(b"tail");
    let mut buf = BytesMut::from(bytes);
    let entry = HistoryEntry::decode(&mut buf, Kind::File).unwrap().unwrap();
    assert_eq!(entry.node, hash_of(1));
    assert_eq!(entry.p1, hash_of(2));
    assert_eq!(entry.p2, hash_of(3));
    assert_eq!(entry.linknode, hash_of(4));
    assert_eq!(entry.copy_from, Some(RepoPath::file(b"dir/file.txt").unwrap()));
    assert_eq!(&buf[..], b"tail");
    assert_eq!(entry.verify(Kind::File), Ok(()));
}

#[test]
fn history_decode_waits_on_every_prefix() {
    let record = history_record(b"some/path");
    assert_eq!(record.len(), 82 + 9);
    for cut in 0..record.len() {
        let mut buf = BytesMut::from(record[..cut].to_vec());
        for _ in 0..3 {
            assert_eq!(HistoryEntry::decode(&mut buf, Kind::File), Ok(None));
            assert_eq!(&buf[..], &record[..cut]);
        }
        buf.extend_from_slice(&record[cut..]);
        let late = HistoryEntry::decode(&mut buf, Kind::File).unwrap().unwrap();
        let mut whole = BytesMut::from(record.clone());
        let at_once = HistoryEntry::decode(&mut whole, Kind::File).unwrap().unwrap();
        assert_eq!(late, at_once);
        assert_eq!(buf.len(), 0);
    }
}

#[test]
fn history_decode_consumes_exactly_one_record() {
    for len in [0usize, 1, 65535] {
        let path = vec![b'p'; len];
        for rest in [&b""[..], &b"x"[..], &b"following bytes"[..]] {
            let mut bytes = history_record(&path);
            bytes.extend_from_slice(rest);
            let mut buf = BytesMut::from(bytes);
            let entry = HistoryEntry::decode(&mut buf, Kind::File).unwrap().unwrap();
            assert_eq!(&buf[..], rest);
            if len == 0 {
                assert_eq!(entry.copy_from, None);
            } else {
                assert_eq!(entry.copy_from, Some(RepoPath::file(&path).unwrap()));
            }
        }
    }
}

#[test]
fn history_decode_reads_the_length_big_endian() {
    // 0x0102 = 258: with the bytes swapped the record would be 513 long.
    let path = vec![b'q'; 258];
    let mut bytes = history_record(&path);
    assert_eq!(bytes[80], 1);
    assert_eq!(bytes[81], 2);
    bytes.extend_from_slice(&[7u8; 300]);
    let mut buf = BytesMut::from(bytes);
    let entry = HistoryEntry::decode(&mut buf, Kind::File).unwrap().unwrap();
    assert_eq!(entry.copy_from, Some(RepoPath::file(&path).unwrap()));
    assert_eq!(&buf[..], &[7u8; 300][..]);
}

#[test]
fn history_decode_two_records_in_a_row() {
    let mut bytes = history_record(b"first");
    bytes.extend_from_slice(&history_record(b""));
    let mut buf = BytesMut::from(bytes);
    let first = HistoryEntry::decode(&mut buf, Kind::File).unwrap().unwrap();
    assert_eq!(first.copy_from, Some(RepoPath::file(b"first").unwrap()));
    let second = HistoryEntry::decode(&mut buf, Kind::File).unwrap().unwrap();
    assert_eq!(second.copy_from, None);
    assert_eq!(HistoryEntry::decode(&mut buf, Kind::File), Ok(None));
}

#[test]
fn tree_cannot_copy() {
    for len in [1usize, 2, 300, 65535] {
        let path = vec![b't'; len];
        let mut bytes = history_record(&path);
        bytes.extend_from_slice(b"rest");
        let before = bytes.clone();
        let mut buf = BytesMut::from(bytes);
        let err = HistoryEntry::decode(&mut buf, Kind::Tree).unwrap_err();
        assert_eq!(err, DecodeError::TreeCopy { node: hash_of(1), path });
        assert_eq!(&buf[..], &before[..]);
    }
    let mut buf = BytesMut::from(history_record(b""));
    let entry = HistoryEntry::decode(&mut buf, Kind::Tree).unwrap().unwrap();
    assert_eq!(entry.copy_from, None);
}

#[test]
fn tree_record_with_incomplete_copy_from_waits() {
    let record = history_record(b"abc");
    let mut buf = BytesMut::from(record[..84].to_vec());
    assert_eq!(HistoryEntry::decode(&mut buf, Kind::Tree), Ok(None));
    assert_eq!(&buf[..], &record[..84]);
}

#[test]
fn history_decode_rejects_a_bad_path() {
    let bytes = history_record(b"ab\0cd\0");
    let mut buf = BytesMut::from(bytes.clone());
    let err = HistoryEntry::decode(&mut buf, Kind::File).unwrap_err();
    assert_eq!(
        err,
        DecodeError::InvalidCopyFromPath {
            node: hash_of(1),
            cause: PathError::NulByte { index: 2 },
        }
    );
    assert_eq!(&buf[..], &bytes[..]);
}
