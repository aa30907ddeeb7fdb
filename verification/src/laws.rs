//! What holds of the record layouts whatever the bytes are: a record that
//! is cut short is never taken for a complete one, a record reads the same
//! whatever follows it, and what follows it is what stays.

use crate::path::RepoPathView;
use crate::wirepack::data_base;
use crate::wirepack::data_complete;
use crate::wirepack::data_is_fulltext;
use crate::wirepack::data_node;
use crate::wirepack::data_payload;
use crate::wirepack::data_record_len;
use crate::wirepack::history_accepted;
use crate::wirepack::history_complete;
use crate::wirepack::history_copy_bytes;
use crate::wirepack::history_copy_len;
use crate::wirepack::history_decoded;
use crate::wirepack::history_record_len;
use crate::wirepack::violation_of;
use crate::wirepack::Kind;
use vstd::prelude::*;

verus! {

/// A history record that is cut anywhere before its end is incomplete: the
/// decoder waits on every proper prefix of a record.
pub proof fn lemma_history_prefix_incomplete(s: Seq<u8>, n: int)
    requires
        history_complete(s),
        0 <= n < history_record_len(s),
    ensures
        !history_complete(s.take(n)),
{
    if n >= 82 {
        assert(s.take(n).subrange(80, 82) =~= s.subrange(80, 82));
    }
}

/// Two buffers that start with the same complete history record hold the
/// same entry: what follows a record has no part in how it is read.
pub proof fn lemma_history_same_record(a: Seq<u8>, b: Seq<u8>, kind: Kind)
    requires
        history_complete(a),
        b.len() >= history_record_len(a),
        b.take(history_record_len(a) as int) == a.take(history_record_len(a) as int),
    ensures
        history_complete(b),
        history_record_len(b) == history_record_len(a),
        history_decoded(b) == history_decoded(a),
        history_accepted(b, kind) == history_accepted(a, kind),
{
    let n = history_record_len(a) as int;
    let ta = a.take(n);
    let tb = b.take(n);
    assert(a.subrange(80, 82) =~= ta.subrange(80, 82));
    assert(b.subrange(80, 82) =~= tb.subrange(80, 82));
    assert(a.subrange(0, 20) =~= ta.subrange(0, 20));
    assert(b.subrange(0, 20) =~= tb.subrange(0, 20));
    assert(a.subrange(20, 40) =~= ta.subrange(20, 40));
    assert(b.subrange(20, 40) =~= tb.subrange(20, 40));
    assert(a.subrange(40, 60) =~= ta.subrange(40, 60));
    assert(b.subrange(40, 60) =~= tb.subrange(40, 60));
    assert(a.subrange(60, 80) =~= ta.subrange(60, 80));
    assert(b.subrange(60, 80) =~= tb.subrange(60, 80));
    assert(a.subrange(82, n) =~= ta.subrange(82, n));
    assert(b.subrange(82, n) =~= tb.subrange(82, n));
}

/// Where a complete history record is followed by `rest`, the record is
/// complete in the whole, and what is left after it is `rest`, byte for
/// byte.
pub proof fn lemma_history_exact_consumption(record: Seq<u8>, rest: Seq<u8>)
    requires
        history_complete(record),
        record.len() == history_record_len(record),
    ensures
        history_complete(record + rest),
        history_record_len(record + rest) == record.len(),
        (record + rest).skip(history_record_len(record + rest) as int) == rest,
        (record + rest).take(history_record_len(record + rest) as int) == record,
{
    let whole = record + rest;
    assert(whole.subrange(80, 82) =~= record.subrange(80, 82));
    assert(whole.skip(record.len() as int) =~= rest);
    assert(whole.take(record.len() as int) =~= record);
}

/// In a wire pack of trees a history record is accepted exactly where it
/// announces no copy source, and the entry then has none.
pub proof fn lemma_tree_cannot_copy(s: Seq<u8>)
    ensures
        history_accepted(s, Kind::Tree) <==> history_copy_len(s) == 0,
        history_copy_len(s) == 0 ==> history_decoded(s).copy_from is None,
        history_copy_len(s) != 0 ==> history_decoded(s).copy_from == Some(
            RepoPathView::File(history_copy_bytes(s)),
        ),
{
}

/// Where a copy source, if it is a file, has a path of at most 65535 bytes,
/// it is without fault exactly in three cases: no copy source in a wire
/// pack of trees, none in one of files, and a file in one of files.
pub proof fn lemma_validator_matrix(copy_from: Option<RepoPathView>, kind: Kind)
    requires
        copy_from matches Some(RepoPathView::File(path)) ==> path.len() <= 65535,
    ensures
        violation_of(copy_from, kind) is None <==> (copy_from is None || (kind == Kind::File
            && copy_from matches Some(RepoPathView::File(_)))),
{
}

/// A data record that is cut anywhere before its end is incomplete.
pub proof fn lemma_data_prefix_incomplete(s: Seq<u8>, n: int)
    requires
        data_complete(s),
        0 <= n < data_record_len(s),
    ensures
        !data_complete(s.take(n)),
{
    if n >= 48 {
        assert(s.take(n).subrange(40, 48) =~= s.subrange(40, 48));
    }
}

/// Two buffers that start with the same complete data record give the same
/// node, delta base and payload.
pub proof fn lemma_data_same_record(a: Seq<u8>, b: Seq<u8>)
    requires
        data_complete(a),
        b.len() >= data_record_len(a),
        b.take(data_record_len(a) as int) == a.take(data_record_len(a) as int),
    ensures
        data_complete(b),
        data_record_len(b) == data_record_len(a),
        data_node(b) == data_node(a),
        data_base(b) == data_base(a),
        data_payload(b) == data_payload(a),
        data_is_fulltext(b) == data_is_fulltext(a),
{
    let n = data_record_len(a) as int;
    let ta = a.take(n);
    let tb = b.take(n);
    assert(a.subrange(40, 48) =~= ta.subrange(40, 48));
    assert(b.subrange(40, 48) =~= tb.subrange(40, 48));
    assert(a.subrange(0, 20) =~= ta.subrange(0, 20));
    assert(b.subrange(0, 20) =~= tb.subrange(0, 20));
    assert(a.subrange(20, 40) =~= ta.subrange(20, 40));
    assert(b.subrange(20, 40) =~= tb.subrange(20, 40));
    assert(a.subrange(48, n) =~= ta.subrange(48, n));
    assert(b.subrange(48, n) =~= tb.subrange(48, n));
}

/// Where a complete data record is followed by `rest`, the record is
/// complete in the whole, and what is left after it is `rest`, byte for
/// byte.
pub proof fn lemma_data_exact_consumption(record: Seq<u8>, rest: Seq<u8>)
    requires
        data_complete(record),
        record.len() == data_record_len(record),
    ensures
        data_complete(record + rest),
        data_record_len(record + rest) == record.len(),
        (record + rest).skip(data_record_len(record + rest) as int) == rest,
        (record + rest).take(data_record_len(record + rest) as int) == record,
{
    let whole = record + rest;
    assert(whole.subrange(40, 48) =~= record.subrange(40, 48));
    assert(whole.skip(record.len() as int) =~= rest);
    assert(whole.take(record.len() as int) =~= record);
}

} // verus!
