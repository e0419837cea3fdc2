//! Error classifier: maps a backend failure's diagnostic text to
//! `Recoverable` or `Fatal`.
//!
//! A diagnostic is recoverable exactly when it contains one of five
//! case-sensitive substrings (`insufficient balance`, `ResourceExhausted`,
//! `network`, `timeout`, `connection`); every other text is fatal, so an
//! unknown failure never triggers a silent fallback.
//!
//! Diagnostics are handled as their UTF-8 bytes; every pattern is ASCII, so
//! a byte-level substring match coincides with a character-level one.

use vstd::prelude::*;

verus! {

/// Classification of a backend failure: `Recoverable` permits the single
/// fallback attempt, `Fatal` aborts the request.
#[derive(Clone, Copy, Debug, PartialEq, Eq, Structural)]
pub enum Category {
    Recoverable,
    Fatal,
}

/// `needle` occurs as a contiguous run inside `hay`.
pub open spec fn contains_subseq(hay: Seq<u8>, needle: Seq<u8>) -> bool {
    exists|i: int|
        0 <= i && i + needle.len() <= hay.len() && #[trigger] hay.subrange(i, i + needle.len())
            == needle
}

/// The bytes of `insufficient balance`.
pub open spec fn pat_insufficient_balance() -> Seq<u8> {
    seq![105u8, 110, 115, 117, 102, 102, 105, 99, 105, 101, 110, 116, 32, 98, 97, 108, 97, 110, 99, 101]
}

/// The bytes of `ResourceExhausted`.
pub open spec fn pat_resource_exhausted() -> Seq<u8> {
    seq![82u8, 101, 115, 111, 117, 114, 99, 101, 69, 120, 104, 97, 117, 115, 116, 101, 100]
}

/// The bytes of `network`.
pub open spec fn pat_network() -> Seq<u8> {
    seq![110u8, 101, 116, 119, 111, 114, 107]
}

/// The bytes of `timeout`.
pub open spec fn pat_timeout() -> Seq<u8> {
    seq![116u8, 105, 109, 101, 111, 117, 116]
}

/// The bytes of `connection`.
pub open spec fn pat_connection() -> Seq<u8> {
    seq![99u8, 111, 110, 110, 101, 99, 116, 105, 111, 110]
}

/// The closed set of diagnostics that permit a fallback attempt.
pub open spec fn spec_is_recoverable(diagnostic: Seq<u8>) -> bool {
    ||| contains_subseq(diagnostic, pat_insufficient_balance())
    ||| contains_subseq(diagnostic, pat_resource_exhausted())
    ||| contains_subseq(diagnostic, pat_network())
    ||| contains_subseq(diagnostic, pat_timeout())
    ||| contains_subseq(diagnostic, pat_connection())
}

/// Category assigned to a diagnostic: fail-closed, so any text outside the
/// recoverable set is `Fatal`.
pub open spec fn spec_classify(diagnostic: Seq<u8>) -> Category {
    if spec_is_recoverable(diagnostic) {
        Category::Recoverable
    } else {
        Category::Fatal
    }
}

/// Whether `needle` occurs as a contiguous subslice of `hay`.
pub fn find_subslice(hay: &[u8], needle: &[u8]) -> (found: bool)
    ensures
        found == contains_subseq(hay@, needle@),
{
    let n = needle.len();
    let h = hay.len();
    if n == 0 {
        proof {
            assert(hay@.subrange(0, 0 + needle@.len() as int) =~= needle@);
        }
        return true;
    }
    if n > h {
        return false;
    }
    let last = h - n;
    let mut i: usize = 0;
    while i <= last
        invariant
            n == needle@.len(),
            h == hay@.len(),
            1 <= n <= h,
            last == h - n,
            0 <= i <= last + 1,
            forall|k: int| 0 <= k < i ==> #[trigger] hay@.subrange(k, k + n) != needle@,
        decreases last + 1 - i,
    {
        let mut j: usize = 0;
        let mut mismatch = false;
        while j < n
            invariant
                n == needle@.len(),
                h == hay@.len(),
                i + n <= h,
                0 <= j <= n,
                !mismatch ==> forall|l: int| 0 <= l < j ==> hay@[i + l] == #[trigger] needle@[l],
                mismatch ==> hay@.subrange(i as int, i + n) != needle@,
            decreases n - j,
        {
            if hay[i + j] != needle[j] {
                proof {
                    assert(hay@.subrange(i as int, i + n)[j as int] == hay@[i + j]);
                }
                mismatch = true;
            }
            j = j + 1;
        }
        if !mismatch {
            proof {
                assert(hay@.subrange(i as int, i + n) =~= needle@);
            }
            return true;
        }
        i = i + 1;
    }
    proof {
        assert(!contains_subseq(hay@, needle@)) by {
            assert forall|k: int| 0 <= k && k + needle@.len() <= hay@.len() implies #[trigger] hay@.subrange(
                k,
                k + needle@.len(),
            ) != needle@ by {
                assert(k < i);
            }
        }
    }
    false
}

/// Whether the diagnostic text permits the fallback attempt.
pub fn is_recoverable(diagnostic: &[u8]) -> (r: bool)
    ensures
        r == spec_is_recoverable(diagnostic@),
{
    let p1: [u8; 20] = [105u8, 110, 115, 117, 102, 102, 105, 99, 105, 101, 110, 116, 32, 98, 97, 108, 97, 110, 99, 101];
    let p2: [u8; 17] = [82u8, 101, 115, 111, 117, 114, 99, 101, 69, 120, 104, 97, 117, 115, 116, 101, 100];
    let p3: [u8; 7] = [110u8, 101, 116, 119, 111, 114, 107];
    let p4: [u8; 7] = [116u8, 105, 109, 101, 111, 117, 116];
    let p5: [u8; 10] = [99u8, 111, 110, 110, 101, 99, 116, 105, 111, 110];
    proof {
        assert(p1@ =~= pat_insufficient_balance());
        assert(p2@ =~= pat_resource_exhausted());
        assert(p3@ =~= pat_network());
        assert(p4@ =~= pat_timeout());
        assert(p5@ =~= pat_connection());
    }
    if find_subslice(diagnostic, p1.as_slice()) {
        return true;
    }
    if find_subslice(diagnostic, p2.as_slice()) {
        return true;
    }
    if find_subslice(diagnostic, p3.as_slice()) {
        return true;
    }
    if find_subslice(diagnostic, p4.as_slice()) {
        return true;
    }
    find_subslice(diagnostic, p5.as_slice())
}

/// Classify a failure diagnostic; the same text always yields the same
/// category.
pub fn classify(diagnostic: &[u8]) -> (c: Category)
    ensures
        c == spec_classify(diagnostic@),
{
    if is_recoverable(diagnostic) {
        Category::Recoverable
    } else {
        Category::Fatal
    }
}

} // verus!
