//! Comparing and searching text.

use vstd::prelude::*;
use vstd::string::StringSliceAdditionalSpecFns;

verus! {

/// Whether `a` and `b` are the same text.
pub fn same_text(a: &str, b: &str) -> (same: bool)
    ensures
        same == (a@ == b@),
{
    let x = a.as_bytes();
    let y = b.as_bytes();
    proof {
        vstd::utf8::encode_utf8_decode_utf8(a@);
        vstd::utf8::encode_utf8_decode_utf8(b@);
    }
    let n: usize = x.len();
    if n != y.len() {
        return false;
    }
    let mut i: usize = 0;
    while i < n
        invariant
            n == x@.len(),
            n == y@.len(),
            x@ == a.spec_bytes(),
            y@ == b.spec_bytes(),
            i <= n,
            forall|j: int| 0 <= j < i ==> x@[j] == y@[j],
        decreases n - i,
    {
        if x[i] != y[i] {
            return false;
        }
        i = i + 1;
    }
    assert(x@ =~= y@);
    true
}

/// Whether `needle` stands in `text` at byte `at`.
pub open spec fn occurs_at(text: Seq<u8>, needle: Seq<u8>, at: int) -> bool {
    &&& 0 <= at
    &&& at + needle.len() <= text.len()
    &&& text.subrange(at, at + needle.len()) == needle
}

/// Whether the text `text` contains the text `needle`.
pub fn contains_text(text: &str, needle: &str) -> (found: bool)
    ensures
        found == exists|at: int| occurs_at(text.spec_bytes(), needle.spec_bytes(), at),
{
    let x = text.as_bytes();
    let y = needle.as_bytes();
    let n: usize = x.len();
    let m: usize = y.len();
    if m > n {
        return false;
    }
    let mut at: usize = 0;
    while at <= n - m
        invariant
            n == x@.len(),
            m == y@.len(),
            m <= n,
            x@ == text.spec_bytes(),
            y@ == needle.spec_bytes(),
            at <= n - m + 1,
            forall|k: int| 0 <= k < at ==> !#[trigger] occurs_at(x@, y@, k),
        decreases n - m + 1 - at,
    {
        let mut i: usize = 0;
        let mut same = true;
        while i < m && same
            invariant
                n == x@.len(),
                m == y@.len(),
                at + m <= n,
                i <= m,
                forall|j: int| 0 <= j < i ==> x@[at + j] == y@[j],
                !same ==> i < m && x@[at + i] != y@[i as int],
            decreases
                    m - i,
                    if same {
                        1int
                    } else {
                        0int
                    },
        {
            if x[at + i] == y[i] {
                i = i + 1;
            } else {
                same = false;
            }
        }
        if same {
            assert(x@.subrange(at as int, at + m) =~= y@);
            assert(occurs_at(x@, y@, at as int));
            return true;
        }
        assert(!occurs_at(x@, y@, at as int)) by {
            assert(x@.subrange(at as int, at + m)[i as int] == x@[at + i]);
        }
        at = at + 1;
    }
    false
}

} // verus!
