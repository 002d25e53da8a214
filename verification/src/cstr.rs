//! Null-terminated byte sequences and the string primitives over them.
//!
//! A C string is a byte sequence holding at least one NUL byte; the
//! primitives scan no further than the first one. The length and
//! comparison operations carry the exact C-library semantics: `strlen`
//! counts the bytes that precede the terminator, and `strcmp` reports the
//! sign of the first differing byte pair, bytes compared as unsigned.

use vstd::prelude::*;

verus! {

/// True when `s` holds a NUL byte, i.e. is a valid null-terminated
/// byte sequence.
pub open spec fn has_nul(s: Seq<u8>) -> bool {
    exists|k: int| 0 <= k < s.len() && s[k] == 0
}

/// Index of the first NUL byte at or after `i`; `s.len()` when there is
/// none in that range.
pub open spec fn first_nul_from(s: Seq<u8>, i: int) -> int
    decreases s.len() - i,
{
    if i < 0 || i >= s.len() {
        s.len() as int
    } else if s[i] == 0 {
        i
    } else {
        first_nul_from(s, i + 1)
    }
}

/// Index of the terminating NUL byte: the count of bytes that precede it.
pub open spec fn first_nul(s: Seq<u8>) -> int {
    first_nul_from(s, 0)
}

/// On a sequence with a NUL at or after `i`, `first_nul_from` lands on a
/// NUL byte and nothing before it is NUL.
pub proof fn lemma_first_nul_from(s: Seq<u8>, i: int)
    requires
        0 <= i <= s.len(),
        exists|k: int| i <= k < s.len() && s[k] == 0,
    ensures
        i <= first_nul_from(s, i) < s.len(),
        s[first_nul_from(s, i)] == 0,
        forall|j: int| i <= j < first_nul_from(s, i) ==> s[j] != 0,
    decreases s.len() - i,
{
    let k = choose|k: int| i <= k < s.len() && s[k] == 0;
    if i < s.len() && s[i] != 0 {
        assert(i + 1 <= k < s.len() && s[k] == 0);
        lemma_first_nul_from(s, i + 1);
    }
}

/// The properties of the terminating NUL of a valid C string.
pub proof fn lemma_first_nul(s: Seq<u8>)
    requires
        has_nul(s),
    ensures
        0 <= first_nul(s) < s.len(),
        s[first_nul(s)] == 0,
        forall|j: int| 0 <= j < first_nul(s) ==> s[j] != 0,
{
    lemma_first_nul_from(s, 0);
}

/// Counts the bytes that precede the terminating NUL, as the C `strlen`
/// does on a valid null-terminated sequence.
pub fn strlen(s: &Vec<u8>) -> (n: usize)
    requires
        has_nul(s@),
    ensures
        n == first_nul(s@),
        n < s@.len(),
        s@[n as int] == 0,
        forall|j: int| 0 <= j < n ==> s@[j] != 0,
{
    proof {
        lemma_first_nul(s@);
        assert(s@.len() == s.len());
    }
    let ghost g: int = first_nul(s@);
    let mut i: usize = 0;
    while s[i] != 0
        invariant
            0 <= i <= g,
            g == first_nul(s@),
            g < s@.len() <= usize::MAX,
            s@[g] == 0,
            forall|j: int| 0 <= j < g ==> s@[j] != 0,
        decreases g - i,
    {
        i = i + 1;
    }
    proof {
        if i < g {
            assert(s@[i as int] != 0);
        }
    }
    i
}

/// Three-way ordering of two null-terminated sequences from index `i` on:
/// the sign of the first differing byte pair, scanning no further than the
/// first terminator.
pub open spec fn cstr_cmp_from(a: Seq<u8>, b: Seq<u8>, i: int) -> int
    decreases a.len() - i,
{
    if i < 0 || i >= a.len() || i >= b.len() {
        0
    } else if a[i] < b[i] {
        -1
    } else if a[i] > b[i] {
        1
    } else if a[i] == 0 {
        0
    } else {
        cstr_cmp_from(a, b, i + 1)
    }
}

/// Three-way ordering of two null-terminated sequences, as the C `strcmp`
/// reports it.
pub open spec fn cstr_cmp(a: Seq<u8>, b: Seq<u8>) -> int {
    cstr_cmp_from(a, b, 0)
}

/// Compares two null-terminated sequences byte for byte, as the C `strcmp`
/// does: zero exactly on sequences identical up to and including their
/// terminators, otherwise the sign of the first differing byte pair.
pub fn strcmp(a: &Vec<u8>, b: &Vec<u8>) -> (r: i32)
    requires
        has_nul(a@),
        has_nul(b@),
    ensures
        r == cstr_cmp(a@, b@),
        r == -1 || r == 0 || r == 1,
{
    proof {
        lemma_first_nul(a@);
        lemma_first_nul(b@);
        assert(a@.len() == a.len());
        assert(b@.len() == b.len());
    }
    let ghost fa: int = first_nul(a@);
    let ghost fb: int = first_nul(b@);
    let mut i: usize = 0;
    loop
        invariant
            0 <= i <= fa,
            i <= fb,
            fa == first_nul(a@),
            fb == first_nul(b@),
            fa < a@.len() <= usize::MAX,
            fb < b@.len() <= usize::MAX,
            a@[fa] == 0,
            b@[fb] == 0,
            forall|j: int| 0 <= j < fa ==> a@[j] != 0,
            forall|j: int| 0 <= j < fb ==> b@[j] != 0,
            cstr_cmp(a@, b@) == cstr_cmp_from(a@, b@, i as int),
        decreases fa - i,
    {
        let x = a[i];
        let y = b[i];
        if x < y {
            return -1;
        }
        if x > y {
            return 1;
        }
        if x == 0 {
            return 0;
        }
        i = i + 1;
    }
}

/// Identical terminated prefixes are exactly what a zero comparison result
/// means: `strcmp` reports zero if and only if the two sequences agree byte
/// for byte up to and including their terminators.
pub proof fn lemma_strcmp_zero_iff_identical(a: Seq<u8>, b: Seq<u8>)
    requires
        has_nul(a),
        has_nul(b),
    ensures
        cstr_cmp(a, b) == 0 <==> a.take(first_nul(a) + 1) == b.take(first_nul(b) + 1),
{
    lemma_first_nul(a);
    lemma_first_nul(b);
    lemma_cmp_zero_iff_from(a, b, 0);
    assert(a.take(first_nul(a) + 1) =~= a.subrange(0, first_nul(a) + 1));
    assert(b.take(first_nul(b) + 1) =~= b.subrange(0, first_nul(b) + 1));
}

proof fn lemma_cmp_zero_iff_from(a: Seq<u8>, b: Seq<u8>, i: int)
    requires
        0 <= i <= first_nul(a),
        i <= first_nul(b),
        first_nul(a) < a.len(),
        first_nul(b) < b.len(),
        a[first_nul(a)] == 0,
        b[first_nul(b)] == 0,
        forall|j: int| 0 <= j < first_nul(a) ==> a[j] != 0,
        forall|j: int| 0 <= j < first_nul(b) ==> b[j] != 0,
    ensures
        cstr_cmp_from(a, b, i) == 0 <==> a.subrange(i, first_nul(a) + 1) == b.subrange(
            i,
            first_nul(b) + 1,
        ),
    decreases first_nul(a) - i,
{
    let fa = first_nul(a);
    let fb = first_nul(b);
    let sa = a.subrange(i, fa + 1);
    let sb = b.subrange(i, fb + 1);
    if a[i] != b[i] {
        assert(sa[0] == a[i]);
        assert(sb[0] == b[i]);
        assert(sa != sb);
        assert(cstr_cmp_from(a, b, i) != 0);
    } else if a[i] == 0 {
        assert(i == fa);
        assert(i == fb);
        assert(sa =~= sb);
        assert(cstr_cmp_from(a, b, i) == 0);
    } else {
        assert(i < fa && i < fb);
        lemma_cmp_zero_iff_from(a, b, i + 1);
        let ta = a.subrange(i + 1, fa + 1);
        let tb = b.subrange(i + 1, fb + 1);
        assert(cstr_cmp_from(a, b, i) == cstr_cmp_from(a, b, i + 1));
        assert(ta.len() == fa - i);
        assert(tb.len() == fb - i);
        if ta == tb {
            assert(fa == fb);
            assert(sa =~= sb) by {
                assert(sa[0] == a[i] && sb[0] == b[i]);
                assert(forall|k: int|
                    0 < k < sa.len() ==> sa[k] == ta[k - 1] && sb[k] == tb[k - 1]);
            }
        }
        if sa == sb {
            assert(sa.len() == sb.len());
            assert(fa == fb);
            assert(ta =~= tb) by {
                assert(forall|k: int|
                    0 <= k < ta.len() ==> ta[k] == sa[k + 1] && tb[k] == sb[k + 1]);
            }
        }
    }
}

/// Duplicates a null-terminated sequence up to and including its
/// terminator, as a successful C `strdup` does; in this model allocation
/// of the copy always succeeds.
pub fn strdup(s: &Vec<u8>) -> (r: Vec<u8>)
    requires
        has_nul(s@),
    ensures
        r@ == s@.take(first_nul(s@) + 1),
        has_nul(r@),
{
    let n = strlen(s);
    proof {
        assert(s@.len() == s.len());
    }
    let mut r: Vec<u8> = Vec::new();
    let mut j: usize = 0;
    while j <= n
        invariant
            0 <= j <= n + 1,
            n == first_nul(s@),
            n < s@.len() <= usize::MAX,
            s@[n as int] == 0,
            r@ == s@.take(j as int),
        decreases n + 1 - j,
    {
        r.push(s[j]);
        proof {
            assert(s@.take(j + 1) =~= s@.take(j as int).push(s@[j as int]));
        }
        j = j + 1;
    }
    proof {
        assert(r@[n as int] == 0);
    }
    r
}

} // verus!
