//! Character-level text helpers: case folding, substring search and
//! lexicographic ordering, shared by the sorting policy and the live filters.

use vstd::prelude::*;
use vstd::string::StrSliceExecFns;

verus! {

/// What `str::to_lowercase` returns for a given character sequence.
pub uninterp spec fn lower_of(s: Seq<char>) -> Seq<char>;

/// Relies on str::to_lowercase: the result depends on the input characters
/// alone.
#[verifier::external_body]
pub(crate) fn lowercase(s: &str) -> (r: String)
    ensures
        r@ == lower_of(s@),
{
    s.to_lowercase()
}

/// Relies on String::push: appends exactly the one character.
#[verifier::external_body]
pub(crate) fn push_char(s: &mut String, c: char)
    ensures
        final(s)@ == old(s)@.push(c),
{
    s.push(c);
}

/// Relies on String::pop: removes and returns the last character, if any.
#[verifier::external_body]
pub(crate) fn pop_char(s: &mut String) -> (r: Option<char>)
    ensures
        old(s)@.len() == 0 ==> final(s)@ == old(s)@ && r is None,
        old(s)@.len() > 0 ==> final(s)@ == old(s)@.drop_last() && r == Some(old(s)@.last()),
{
    s.pop()
}

/// The characters of `s`, in order.
pub fn chars_of(s: &str) -> (r: Vec<char>)
    ensures
        r@ == s@,
{
    let n = s.unicode_len();
    let mut v: Vec<char> = Vec::new();
    let mut i: usize = 0;
    while i < n
        invariant
            0 <= i <= n,
            n == s@.len(),
            v@ == s@.subrange(0, i as int),
        decreases n - i,
    {
        let c = s.get_char(i);
        v.push(c);
        proof {
            assert(v@ =~= s@.subrange(0, i + 1 as int));
        }
        i += 1;
    }
    proof {
        assert(v@ =~= s@);
    }
    v
}

/// A string holding exactly the characters of `v`, in order.
pub fn string_from_chars(v: &Vec<char>) -> (r: String)
    ensures
        r@ == v@,
{
    let mut s = String::new();
    let n = v.len();
    let mut i: usize = 0;
    while i < n
        invariant
            0 <= i <= n,
            n == v@.len(),
            s@ == v@.subrange(0, i as int),
        decreases n - i,
    {
        push_char(&mut s, v[i]);
        proof {
            assert(s@ =~= v@.subrange(0, i + 1 as int));
        }
        i += 1;
    }
    proof {
        assert(s@ =~= v@);
    }
    s
}

/// Whether two lists of strings hold the same text, position by position.
pub open spec fn str_seqs_equiv(a: Seq<String>, b: Seq<String>) -> bool {
    &&& a.len() == b.len()
    &&& forall|k: int| 0 <= k < a.len() ==> a[k]@ == b[k]@
}

/// Whether the pattern `p` occurs in `t` starting at position `i`.
pub open spec fn seq_contains_at(t: Seq<char>, p: Seq<char>, i: int) -> bool {
    0 <= i && i + p.len() <= t.len() && t.subrange(i, i + p.len()) == p
}

/// Whether the pattern `p` occurs anywhere in `t`.
pub open spec fn spec_contains(t: Seq<char>, p: Seq<char>) -> bool {
    exists|i: int| seq_contains_at(t, p, i)
}

/// Substring search: whether `p` occurs in `t`.
pub fn str_contains(t: &str, p: &str) -> (r: bool)
    ensures
        r == spec_contains(t@, p@),
{
    let tv = chars_of(t);
    let pv = chars_of(p);
    let tn = tv.len();
    let pn = pv.len();
    if pn > tn {
        proof {
            assert(forall|i: int| !seq_contains_at(t@, p@, i));
        }
        return false;
    }
    if pn == 0 {
        proof {
            assert(t@.subrange(0, 0) =~= p@);
            assert(seq_contains_at(t@, p@, 0));
        }
        return true;
    }
    let mut i: usize = 0;
    while i <= tn - pn
        invariant
            0 <= i <= tn - pn + 1,
            0 < pn <= tn,
            tn == t@.len(),
            pn == p@.len(),
            tv@ == t@,
            pv@ == p@,
            forall|k: int| 0 <= k < i ==> !seq_contains_at(t@, p@, k),
        decreases tn - pn - i + 1,
    {
        let mut j: usize = 0;
        let mut matched = true;
        while j < pn
            invariant
                0 <= j <= pn,
                i + pn <= tn,
                tn == t@.len(),
                pn == p@.len(),
                tv@ == t@,
                pv@ == p@,
                matched ==> forall|m: int| 0 <= m < j ==> t@[i + m] == p@[m],
                !matched ==> !seq_contains_at(t@, p@, i as int),
            decreases pn - j,
        {
            if tv[i + j] != pv[j] {
                proof {
                    assert(t@.subrange(i as int, i + pn) != p@) by {
                        assert(t@.subrange(i as int, i + pn)[j as int] == t@[i + j]);
                    }
                }
                matched = false;
                j = pn;
            } else {
                j += 1;
            }
        }
        if matched {
            proof {
                assert(t@.subrange(i as int, i + pn) =~= p@);
                assert(seq_contains_at(t@, p@, i as int));
            }
            return true;
        }
        i += 1;
    }
    proof {
        assert forall|k: int| !seq_contains_at(t@, p@, k) by {
            if 0 <= k <= tn - pn {
            }
        }
    }
    false
}

/// Lexicographic order on character sequences, comparing code points.
pub open spec fn seq_char_le(a: Seq<char>, b: Seq<char>) -> bool
    decreases a.len(),
{
    if a.len() == 0 {
        true
    } else if b.len() == 0 {
        false
    } else if a[0] == b[0] {
        seq_char_le(a.skip(1), b.skip(1))
    } else {
        (a[0] as u32) < (b[0] as u32)
    }
}

/// The lexicographic order is total.
pub proof fn lemma_seq_char_le_total(a: Seq<char>, b: Seq<char>)
    ensures
        seq_char_le(a, b) || seq_char_le(b, a),
    decreases a.len(),
{
    if a.len() == 0 {
        assert(seq_char_le(a, b));
    } else if b.len() == 0 {
        assert(seq_char_le(b, a));
    } else if a[0] == b[0] {
        lemma_seq_char_le_total(a.skip(1), b.skip(1));
        assert(seq_char_le(a, b) == seq_char_le(a.skip(1), b.skip(1)));
        assert(seq_char_le(b, a) == seq_char_le(b.skip(1), a.skip(1)));
    } else {
        vstd::utf8::char_u32_cast(a[0], a[0] as u32);
        vstd::utf8::char_u32_cast(b[0], b[0] as u32);
        assert((a[0] as u32) != (b[0] as u32));
        assert(seq_char_le(a, b) == ((a[0] as u32) < (b[0] as u32)));
        assert(seq_char_le(b, a) == ((b[0] as u32) < (a[0] as u32)));
    }
}

/// The lexicographic order is transitive.
pub proof fn lemma_seq_char_le_trans(a: Seq<char>, b: Seq<char>, c: Seq<char>)
    requires
        seq_char_le(a, b),
        seq_char_le(b, c),
    ensures
        seq_char_le(a, c),
    decreases a.len(),
{
    if a.len() > 0 && b.len() > 0 && c.len() > 0 && a[0] == b[0] && b[0] == c[0] {
        lemma_seq_char_le_trans(a.skip(1), b.skip(1), c.skip(1));
    }
}

/// If the first `i` characters agree, the order is decided by the rest.
proof fn lemma_seq_char_le_common_prefix(a: Seq<char>, b: Seq<char>, i: int)
    requires
        0 <= i <= a.len(),
        i <= b.len(),
        forall|j: int| 0 <= j < i ==> a[j] == b[j],
    ensures
        seq_char_le(a, b) == seq_char_le(a.skip(i), b.skip(i)),
    decreases i,
{
    if i == 0 {
        assert(a.skip(0) =~= a);
        assert(b.skip(0) =~= b);
    } else {
        assert(a.len() > 0 && b.len() > 0 && a[0] == b[0]);
        lemma_seq_char_le_common_prefix(a.skip(1), b.skip(1), i - 1);
        assert(forall|j: int| 0 <= j < i - 1 ==> a.skip(1)[j] == a[j + 1]);
        assert(forall|j: int| 0 <= j < i - 1 ==> b.skip(1)[j] == b[j + 1]);
        assert(a.skip(1).skip(i - 1) =~= a.skip(i));
        assert(b.skip(1).skip(i - 1) =~= b.skip(i));
    }
}

/// Order on pairs of character sequences: the first components decide unless
/// they are tied, then the second components do.
pub open spec fn seq_pair_le(a0: Seq<char>, a1: Seq<char>, b0: Seq<char>, b1: Seq<char>) -> bool {
    if seq_char_le(a0, b0) && seq_char_le(b0, a0) {
        seq_char_le(a1, b1)
    } else {
        seq_char_le(a0, b0)
    }
}

/// The pair order is total.
pub proof fn lemma_seq_pair_le_total(a0: Seq<char>, a1: Seq<char>, b0: Seq<char>, b1: Seq<char>)
    ensures
        seq_pair_le(a0, a1, b0, b1) || seq_pair_le(b0, b1, a0, a1),
{
    lemma_seq_char_le_total(a0, b0);
    lemma_seq_char_le_total(a1, b1);
}

/// The pair order is transitive.
pub proof fn lemma_seq_pair_le_trans(
    a0: Seq<char>,
    a1: Seq<char>,
    b0: Seq<char>,
    b1: Seq<char>,
    c0: Seq<char>,
    c1: Seq<char>,
)
    requires
        seq_pair_le(a0, a1, b0, b1),
        seq_pair_le(b0, b1, c0, c1),
    ensures
        seq_pair_le(a0, a1, c0, c1),
{
    let tie_ab = seq_char_le(a0, b0) && seq_char_le(b0, a0);
    let tie_bc = seq_char_le(b0, c0) && seq_char_le(c0, b0);
    if tie_ab && tie_bc {
        lemma_seq_char_le_trans(a0, b0, c0);
        lemma_seq_char_le_trans(c0, b0, a0);
        lemma_seq_char_le_trans(a1, b1, c1);
    } else if tie_ab {
        lemma_seq_char_le_trans(a0, b0, c0);
        if seq_char_le(c0, a0) {
            lemma_seq_char_le_trans(c0, a0, b0);
            lemma_seq_char_le_trans(b0, c0, a0);
        }
    } else if tie_bc {
        lemma_seq_char_le_trans(a0, b0, c0);
        if seq_char_le(c0, a0) {
            lemma_seq_char_le_trans(b0, c0, a0);
        }
    } else {
        lemma_seq_char_le_trans(a0, b0, c0);
        if seq_char_le(c0, a0) {
            lemma_seq_char_le_trans(b0, c0, a0);
        }
    }
}

/// Lexicographic comparison of two character vectors.
pub fn chars_le(a: &Vec<char>, b: &Vec<char>) -> (r: bool)
    ensures
        r == seq_char_le(a@, b@),
{
    let an = a.len();
    let bn = b.len();
    let n = if an < bn {
        an
    } else {
        bn
    };
    let mut i: usize = 0;
    while i < n
        invariant
            0 <= i <= n,
            n <= an && n <= bn,
            n == an || n == bn,
            an == a@.len(),
            bn == b@.len(),
            forall|j: int| 0 <= j < i ==> a@[j] == b@[j],
        decreases n - i,
    {
        let ca = a[i];
        let cb = b[i];
        if ca != cb {
            proof {
                lemma_seq_char_le_common_prefix(a@, b@, i as int);
            }
            return (ca as u32) < (cb as u32);
        }
        i += 1;
    }
    proof {
        lemma_seq_char_le_common_prefix(a@, b@, n as int);
    }
    an <= bn
}

} // verus!
