//! Verified string primitives for the export formatter and the ignore filter:
//! placeholder replacement, base-name sanitization, and the split of a path
//! into its directory part and its final segment.

use vstd::prelude::*;

verus! {

/// Characters outside this set are replaced by `'_'` when a path's base name
/// is sanitized.
pub open spec fn is_path_safe_char(c: char) -> bool {
    ('0' <= c && c <= '9') || ('A' <= c && c <= 'Z') || ('a' <= c && c <= 'z') || c == '_' || c
        == '-' || c == '+' || c == '.'
}

/// The character a base name keeps in place of `c`: `c` itself when it is
/// path-safe, `'_'` otherwise.
pub open spec fn sanitize_char(c: char) -> char {
    if is_path_safe_char(c) {
        c
    } else {
        '_'
    }
}

/// A segment with every character outside the path-safe set replaced, one for
/// one, by `'_'`.
pub open spec fn sanitize_seq(s: Seq<char>) -> Seq<char> {
    s.map_values(|c: char| sanitize_char(c))
}

/// Every character of a sanitized segment is path-safe. In particular no
/// path separator survives sanitization, so a sanitized value can never form
/// path structure of its own.
pub proof fn lemma_sanitize_seq_safe(s: Seq<char>)
    ensures
        sanitize_seq(s).len() == s.len(),
        forall|i: int|
            0 <= i < s.len() ==> is_path_safe_char(#[trigger] sanitize_seq(s)[i]),
        forall|i: int| 0 <= i < s.len() ==> sanitize_seq(s)[i] != '/',
{
}

fn path_safe(c: char) -> (b: bool)
    ensures
        b == is_path_safe_char(c),
{
    ('0' <= c && c <= '9') || ('A' <= c && c <= 'Z') || ('a' <= c && c <= 'z') || c == '_' || c
        == '-' || c == '+' || c == '.'
}

proof fn lemma_sanitize_seq_snoc(s: Seq<char>, i: int)
    requires
        0 <= i < s.len(),
    ensures
        sanitize_seq(s.take(i + 1)) == sanitize_seq(s.take(i)).push(sanitize_char(s[i])),
{
    assert(sanitize_seq(s.take(i + 1)) =~= sanitize_seq(s.take(i)).push(sanitize_char(s[i])));
}

/// Replace every character of `s` outside the path-safe set (digits, letters,
/// `_`, `-`, `+`, `.`) by `'_'`, keeping the rest in place.
pub fn sanitize_segment(s: &str) -> (r: String)
    ensures
        r@ == sanitize_seq(s@),
{
    let n = s.unicode_len();
    let mut out = String::new();
    let mut i: usize = 0;
    while i < n
        invariant
            i <= n,
            n == s@.len(),
            out@ == sanitize_seq(s@.take(i as int)),
        decreases n - i,
    {
        let c = s.get_char(i);
        if path_safe(c) {
            let piece = s.substring_char(i, i + 1);
            out.append(piece);
            proof {
                assert(piece@ =~= seq![s@[i as int]]);
            }
        } else {
            out.append("_");
            proof {
                reveal_strlit("_");
                assert("_"@ =~= seq!['_']);
            }
        }
        proof {
            lemma_sanitize_seq_snoc(s@, i as int);
            assert(out@ =~= sanitize_seq(s@.take(i as int)).push(sanitize_char(s@[i as int])));
        }
        i = i + 1;
    }
    proof {
        assert(s@.take(n as int) =~= s@);
    }
    out
}

/// `s` with every non-overlapping occurrence of `pat`, found left to right,
/// replaced by `rep`. A pattern that never occurs, or an empty pattern,
/// leaves `s` unchanged.
pub open spec fn replace_seq(s: Seq<char>, pat: Seq<char>, rep: Seq<char>) -> Seq<char>
    decreases s.len(),
{
    if pat.len() == 0 || s.len() < pat.len() {
        s
    } else if s.take(pat.len() as int) == pat {
        rep + replace_seq(s.skip(pat.len() as int), pat, rep)
    } else {
        seq![s[0]] + replace_seq(s.skip(1), pat, rep)
    }
}

proof fn lemma_replace_step_match(s: Seq<char>, pat: Seq<char>, rep: Seq<char>, i: int)
    requires
        pat.len() >= 1,
        0 <= i,
        i + pat.len() <= s.len(),
        s.subrange(i, i + pat.len()) == pat,
    ensures
        replace_seq(s.skip(i), pat, rep) == rep + replace_seq(s.skip(i + pat.len()), pat, rep),
{
    let t = s.skip(i);
    assert(t.take(pat.len() as int) =~= s.subrange(i, i + pat.len()));
    assert(t.skip(pat.len() as int) =~= s.skip(i + pat.len()));
}

proof fn lemma_replace_step_char(s: Seq<char>, pat: Seq<char>, rep: Seq<char>, i: int)
    requires
        pat.len() >= 1,
        0 <= i < s.len(),
        i + pat.len() <= s.len() ==> s.subrange(i, i + pat.len()) != pat,
    ensures
        replace_seq(s.skip(i), pat, rep) == seq![s[i]] + replace_seq(s.skip(i + 1), pat, rep),
{
    let t = s.skip(i);
    assert(seq![t[0]] =~= seq![s[i]]);
    if i + pat.len() <= s.len() {
        assert(t.take(pat.len() as int) =~= s.subrange(i, i + pat.len()));
        assert(t.skip(1) =~= s.skip(i + 1));
    } else {
        assert(t.len() < pat.len());
        assert(replace_seq(t, pat, rep) == t);
        assert(s.skip(i + 1).len() < pat.len());
        assert(replace_seq(s.skip(i + 1), pat, rep) == s.skip(i + 1));
        assert(t =~= seq![s[i]] + s.skip(i + 1));
    }
}

fn matches_at(s: &str, i: usize, pat: &str) -> (r: bool)
    requires
        i + pat@.len() <= s@.len(),
        s@.len() <= usize::MAX,
    ensures
        r == (s@.subrange(i as int, i + pat@.len()) == pat@),
{
    let m = pat.unicode_len();
    let mut j: usize = 0;
    while j < m
        invariant
            j <= m,
            m == pat@.len(),
            i + m <= s@.len(),
            s@.len() <= usize::MAX,
            forall|k: int| 0 <= k < j ==> s@[i + k] == pat@[k],
        decreases m - j,
    {
        if s.get_char(i + j) != pat.get_char(j) {
            proof {
                assert(s@.subrange(i as int, i + pat@.len())[j as int] == s@[i + j]);
            }
            return false;
        }
        j = j + 1;
    }
    proof {
        assert(s@.subrange(i as int, i + pat@.len()) =~= pat@);
    }
    true
}

/// `s` with every non-overlapping occurrence of `pat`, found left to right,
/// replaced by `rep`.
pub fn replace_all(s: &str, pat: &str, rep: &str) -> (r: String)
    requires
        pat@.len() >= 1,
    ensures
        r@ == replace_seq(s@, pat@, rep@),
{
    let n = s.unicode_len();
    let m = pat.unicode_len();
    let mut out = String::new();
    let mut i: usize = 0;
    proof {
        assert(s@.skip(0) =~= s@);
        assert(out@ + replace_seq(s@, pat@, rep@) =~= replace_seq(s@, pat@, rep@));
    }
    while i < n
        invariant
            i <= n,
            n == s@.len(),
            m == pat@.len(),
            m >= 1,
            replace_seq(s@, pat@, rep@) == out@ + replace_seq(s@.skip(i as int), pat@, rep@),
        decreases n - i,
    {
        if m <= n - i && matches_at(s, i, pat) {
            out.append(rep);
            proof {
                lemma_replace_step_match(s@, pat@, rep@, i as int);
                assert(out@ + replace_seq(s@.skip(i + m), pat@, rep@) =~= replace_seq(
                    s@,
                    pat@,
                    rep@,
                ));
            }
            i = i + m;
        } else {
            let piece = s.substring_char(i, i + 1);
            out.append(piece);
            proof {
                assert(piece@ =~= seq![s@[i as int]]);
                lemma_replace_step_char(s@, pat@, rep@, i as int);
                assert(out@ + replace_seq(s@.skip(i + 1), pat@, rep@) =~= replace_seq(
                    s@,
                    pat@,
                    rep@,
                ));
            }
            i = i + 1;
        }
    }
    proof {
        assert(s@.skip(n as int) =~= Seq::<char>::empty());
        assert(replace_seq(Seq::<char>::empty(), pat@, rep@) == Seq::<char>::empty());
        assert(out@ + Seq::<char>::empty() =~= out@);
    }
    out
}

/// The lowercase form of a sequence of characters, as Unicode defines it: a
/// function of the characters alone.
pub uninterp spec fn lower_of(s: Seq<char>) -> Seq<char>;

/// Relies on `str::to_lowercase`: the returned string is the Unicode
/// lowercase of the input, a function of the input characters alone.
#[verifier::external_body]
pub(crate) fn to_lowercase(s: &str) -> (r: String)
    ensures
        r@ == lower_of(s@),
{
    s.to_lowercase()
}

/// The index at which a path's final segment begins: one past the last `'/'`,
/// or `0` when the path holds none.
pub open spec fn base_start(s: Seq<char>) -> int
    decreases s.len(),
{
    if s.len() == 0 {
        0
    } else if s[s.len() - 1] == '/' {
        s.len() as int
    } else {
        base_start(s.take(s.len() - 1))
    }
}

pub proof fn lemma_base_start_bounds(s: Seq<char>)
    ensures
        0 <= base_start(s) <= s.len(),
    decreases s.len(),
{
    if s.len() == 0 {
    } else if s[s.len() - 1] == '/' {
    } else {
        lemma_base_start_bounds(s.take(s.len() - 1));
    }
}

/// A resolved path, finished for writing: the final segment is sanitized in
/// place; a path whose final segment is empty gets the dummy base name
/// `_.yaml` instead. Directory segments are kept as they are.
pub open spec fn finalize_path(s: Seq<char>) -> Seq<char> {
    let b = base_start(s);
    if s.skip(b).len() == 0 {
        s + "_.yaml"@
    } else {
        s.take(b) + sanitize_seq(s.skip(b))
    }
}

fn find_base_start(s: &str) -> (b: usize)
    ensures
        b as int == base_start(s@),
        b <= s@.len(),
{
    let n = s.unicode_len();
    proof {
        assert(s@.take(n as int) =~= s@);
        lemma_base_start_bounds(s@);
    }
    let mut j: usize = n;
    while j > 0
        invariant
            j <= n,
            n == s@.len(),
            base_start(s@) == base_start(s@.take(j as int)),
        decreases j,
    {
        if s.get_char(j - 1) == '/' {
            proof {
                assert(s@.take(j as int)[j - 1] == s@[j - 1]);
            }
            return j;
        }
        proof {
            assert(s@.take(j as int)[j - 1] == s@[j - 1]);
            assert(s@.take(j as int).take(j - 1) =~= s@.take(j - 1));
        }
        j = j - 1;
    }
    proof {
        assert(s@.take(0).len() == 0);
    }
    0
}

/// The finished form of a resolved path: its final segment sanitized, or the
/// dummy base name `_.yaml` where that segment is empty.
pub fn finalize_path_string(s: &str) -> (r: String)
    ensures
        r@ == finalize_path(s@),
{
    let n = s.unicode_len();
    let b = find_base_start(s);
    if b == n {
        let mut out = String::from_str(s);
        out.append("_.yaml");
        proof {
            assert(s@.skip(b as int).len() == 0);
        }
        out
    } else {
        let dir = s.substring_char(0, b);
        let base = s.substring_char(b, n);
        let mut out = String::from_str(dir);
        let clean = sanitize_segment(base);
        out.append(clean.as_str());
        proof {
            assert(dir@ =~= s@.take(b as int));
            assert(base@ =~= s@.skip(b as int));
            assert(s@.skip(b as int).len() > 0);
        }
        out
    }
}

/// Exact character-wise equality of two string slices.
pub(crate) fn str_eq_str(a: &str, b: &str) -> (r: bool)
    ensures
        r == (a@ == b@),
{
    let la = a.unicode_len();
    let lb = b.unicode_len();
    if la != lb {
        return false;
    }
    let mut i: usize = 0;
    while i < la
        invariant
            i <= la,
            la == a@.len(),
            la == b@.len(),
            forall|j: int| 0 <= j < i ==> a@[j] == b@[j],
        decreases la - i,
    {
        if a.get_char(i) != b.get_char(i) {
            return false;
        }
        i = i + 1;
    }
    proof {
        assert(a@ =~= b@);
    }
    true
}

} // verus!
