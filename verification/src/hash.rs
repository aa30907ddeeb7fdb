//! Revision identifiers.

use vstd::prelude::*;

verus! {

/// A fixed 20-byte identifier of a revision or of a piece of content.
#[derive(Clone, Copy, Debug, PartialEq, Eq, Hash)]
pub struct NodeHash {
    pub bytes: [u8; 20],
}

/// The bytes of the null hash: twenty zero bytes.
pub open spec fn null_bytes() -> Seq<u8> {
    Seq::new(20, |i: int| 0u8)
}

impl View for NodeHash {
    type V = Seq<u8>;

    open spec fn view(&self) -> Seq<u8> {
        self.bytes@
    }
}

impl NodeHash {
    /// The null hash, which stands for "no such revision".
    pub fn null() -> (h: NodeHash)
        ensures
            h@ == null_bytes(),
    {
        let h = NodeHash { bytes: [0u8; 20] };
        assert(h@ =~= null_bytes());
        h
    }

    /// The hash made of the 20 bytes of `bytes` that start at `at`.
    pub fn read_at(bytes: &[u8], at: usize) -> (h: NodeHash)
        requires
            at + 20 <= bytes@.len(),
        ensures
            h@ == bytes@.subrange(at as int, at + 20),
    {
        let mut out: [u8; 20] = [0u8; 20];
        let n: usize = bytes.len();
        let mut i: usize = 0;
        while i < 20
            invariant
                i <= 20,
                at + 20 <= n,
                n == bytes@.len(),
                forall|j: int| 0 <= j < i ==> out@[j] == bytes@[at + j],
            decreases 20 - i,
        {
            out[i] = bytes[at + i];
            i += 1;
        }
        let h = NodeHash { bytes: out };
        assert(h@ =~= bytes@.subrange(at as int, at + 20));
        h
    }

    /// The hash made of a slice of exactly 20 bytes; `None` for any other
    /// length.
    pub fn from_bytes(bytes: &[u8]) -> (r: Option<NodeHash>)
        ensures
            r is Some <==> bytes@.len() == 20,
            r is Some ==> r->Some_0@ == bytes@,
    {
        if bytes.len() != 20 {
            return None;
        }
        let h = NodeHash::read_at(bytes, 0);
        assert(bytes@.subrange(0, 20) =~= bytes@);
        Some(h)
    }

    /// Whether this is the null hash.
    pub fn is_null(&self) -> (b: bool)
        ensures
            b <==> self@ == null_bytes(),
    {
        let mut i: usize = 0;
        while i < 20
            invariant
                i <= 20,
                forall|j: int| 0 <= j < i ==> self.bytes@[j] == 0u8,
            decreases 20 - i,
        {
            if self.bytes[i] != 0 {
                assert(null_bytes()[i as int] == 0u8);
                return false;
            }
            i += 1;
        }
        assert(self@ =~= null_bytes());
        true
    }
}

} // verus!
