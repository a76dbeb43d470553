//! Commit identifiers: the bytes of a content hash, and their text.

use crate::text::{digit, digits};
use vstd::prelude::*;
use vstd::string::StringExecFns;

verus! {

/// The identifier of a commit: the bytes of its hash.
#[derive(Debug, Clone, PartialEq, Eq)]
pub struct CommitId {
    pub bytes: Vec<u8>,
}

impl View for CommitId {
    type V = Seq<u8>;

    open spec fn view(&self) -> Seq<u8> {
        self.bytes@
    }
}

/// The text of a hash: two lower-case hexadecimal digits for each byte, the
/// high half first.
pub open spec fn hex(bytes: Seq<u8>) -> Seq<char> {
    Seq::new(
        2 * bytes.len(),
        |i: int|
            if i % 2 == 0 {
                digits()[bytes[i / 2] as int / 16]
            } else {
                digits()[bytes[i / 2] as int % 16]
            },
    )
}

/// No two digits are alike.
pub proof fn lemma_digits_differ(x: int, y: int)
    requires
        0 <= x < 16,
        0 <= y < 16,
        digits()[x] == digits()[y],
    ensures
        x == y,
{
}

/// The text of a hash identifies it: hashes with the same text are the same
/// hash.
pub proof fn lemma_hex_identifies(a: Seq<u8>, b: Seq<u8>)
    requires
        hex(a) == hex(b),
    ensures
        a == b,
{
    assert(a.len() == b.len()) by {
        assert(hex(a).len() == 2 * a.len());
        assert(hex(b).len() == 2 * b.len());
    }
    assert forall|i: int| 0 <= i < a.len() implies a[i] == b[i] by {
        assert(hex(a)[2 * i] == digits()[a[i] as int / 16]);
        assert(hex(b)[2 * i] == digits()[b[i] as int / 16]);
        assert(hex(a)[2 * i + 1] == digits()[a[i] as int % 16]);
        assert(hex(b)[2 * i + 1] == digits()[b[i] as int % 16]);
        lemma_digits_differ(a[i] as int / 16, b[i] as int / 16);
        lemma_digits_differ(a[i] as int % 16, b[i] as int % 16);
    }
    assert(a =~= b);
}

impl CommitId {
    pub fn new(bytes: Vec<u8>) -> (id: CommitId)
        ensures
            id@ == bytes@,
    {
        CommitId { bytes }
    }

    /// The identifier as text.
    pub fn to_hex(&self) -> (s: String)
        ensures
            s@ == hex(self@),
    {
        let mut s = String::new();
        let mut i: usize = 0;
        while i < self.bytes.len()
            invariant
                i <= self.bytes.len(),
                s@ == hex(self@.subrange(0, i as int)),
            decreases self.bytes.len() - i,
        {
            let b = self.bytes[i];
            s.append(digit(b / 16));
            s.append(digit(b % 16));
            assert(s@ == hex(self@.subrange(0, i + 1))) by {
                let shorter = self@.subrange(0, i as int);
                let longer = self@.subrange(0, i + 1);
                assert forall|k: int| 0 <= k < s@.len() implies s@[k] == hex(longer)[k] by {
                    if k < 2 * i {
                        assert(shorter[k / 2] == longer[k / 2]);
                    } else {
                        assert(longer[k / 2] == b);
                    }
                }
            }
            i += 1;
        }
        s
    }

    /// Whether two identifiers name the same commit.
    pub fn same(&self, other: &CommitId) -> (r: bool)
        ensures
            r == (self@ == other@),
    {
        if self.bytes.len() != other.bytes.len() {
            return false;
        }
        let mut i: usize = 0;
        while i < self.bytes.len()
            invariant
                self.bytes.len() == other.bytes.len(),
                i <= self.bytes.len(),
                self@.subrange(0, i as int) == other@.subrange(0, i as int),
            decreases self.bytes.len() - i,
        {
            if self.bytes[i] != other.bytes[i] {
                return false;
            }
            i += 1;
        }
        assert(self@ == self@.subrange(0, self.bytes.len() as int));
        assert(other@ == other@.subrange(0, other.bytes.len() as int));
        true
    }
}

} // verus!
