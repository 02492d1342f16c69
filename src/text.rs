//! Verified helpers on character sequences: comparison and literal
//! substring replacement.
use vstd::prelude::*;

verus! {

/// Character-wise equality of two string slices.
pub fn str_eq(a: &str, b: &str) -> (r: bool)
    ensures
        r == (a@ == b@),
{
    let n = a.unicode_len();
    if n != b.unicode_len() {
        return false;
    }
    let mut i: usize = 0;
    while i < n
        invariant
            n == a@.len(),
            n == b@.len(),
            i <= n,
            a@.subrange(0, i as int) == b@.subrange(0, i as int),
        decreases n - i,
    {
        if a.get_char(i) != b.get_char(i) {
            return false;
        }
        proof {
            assert(a@.subrange(0, i + 1) == a@.subrange(0, i as int).push(a@[i as int]));
            assert(b@.subrange(0, i + 1) == b@.subrange(0, i as int).push(b@[i as int]));
        }
        i = i + 1;
    }
    proof {
        assert(a@ == a@.subrange(0, n as int));
        assert(b@ == b@.subrange(0, n as int));
    }
    true
}


/// `pat` occurs in `s` at position `i`.
pub open spec fn occurs_at(s: Seq<char>, pat: Seq<char>, i: int) -> bool {
    0 <= i && i + pat.len() <= s.len() && s.subrange(i, i + pat.len()) == pat
}

/// `s` with each occurrence of the non-empty `pat` replaced by `rep`,
/// occurrences taken left to right without overlap.
pub open spec fn replace_spec(s: Seq<char>, pat: Seq<char>, rep: Seq<char>) -> Seq<char>
    decreases s.len(),
{
    if s.len() == 0 || pat.len() == 0 {
        s
    } else if occurs_at(s, pat, 0) {
        rep + replace_spec(s.subrange(pat.len() as int, s.len() as int), pat, rep)
    } else {
        seq![s[0]] + replace_spec(s.subrange(1, s.len() as int), pat, rep)
    }
}

/// Substitution never misses: where `pat` occurs in `s`, the replacement
/// text occurs in the result.
pub proof fn lemma_replace_inserts(s: Seq<char>, pat: Seq<char>, rep: Seq<char>, i: int)
    requires
        pat.len() > 0,
        occurs_at(s, pat, i),
    ensures
        exists|j: int| occurs_at(replace_spec(s, pat, rep), rep, j),
    decreases s.len(),
{
    let r = replace_spec(s, pat, rep);
    if occurs_at(s, pat, 0) {
        assert(r.subrange(0, rep.len() as int) =~= rep);
        assert(occurs_at(r, rep, 0));
    } else {
        let t = s.subrange(1, s.len() as int);
        assert(i > 0);
        assert(t.subrange(i - 1, i - 1 + pat.len()) =~= s.subrange(i, i + pat.len()));
        lemma_replace_inserts(t, pat, rep, i - 1);
        let j = choose|j: int| occurs_at(replace_spec(t, pat, rep), rep, j);
        let rt = replace_spec(t, pat, rep);
        assert(r == seq![s[0]] + rt);
        assert(r.subrange(j + 1, j + 1 + rep.len()) =~= rt.subrange(j, j + rep.len()));
        assert(occurs_at(r, rep, j + 1));
    }
}

/// `pat` occurs somewhere in `s`.
pub open spec fn contains(s: Seq<char>, pat: Seq<char>) -> bool {
    exists|j: int| occurs_at(s, pat, j)
}

/// `s` holds no opening brace.
pub open spec fn no_open_brace(s: Seq<char>) -> bool {
    forall|i: int| 0 <= i < s.len() ==> s[i] != '{'
}

/// `s` holds no brace at all.
pub open spec fn brace_free(s: Seq<char>) -> bool {
    forall|i: int| 0 <= i < s.len() ==> s[i] != '{' && s[i] != '}'
}

/// The placeholder token of a key: the key between double braces.
pub open spec fn slot(key: Seq<char>) -> Seq<char> {
    seq!['{', '{'] + key + seq!['}', '}']
}

/// Text without an opening brace passes through a substitution whose
/// pattern opens with one unchanged.
pub proof fn lemma_skip_plain(a: Seq<char>, b: Seq<char>, pat: Seq<char>, rep: Seq<char>)
    requires
        pat.len() > 0,
        pat[0] == '{',
        no_open_brace(a),
    ensures
        replace_spec(a + b, pat, rep) == a + replace_spec(b, pat, rep),
    decreases a.len(),
{
    if a.len() == 0 {
        assert(a + b =~= b);
        assert(a + replace_spec(b, pat, rep) =~= replace_spec(b, pat, rep));
    } else {
        let s = a + b;
        assert(s[0] == a[0]);
        if occurs_at(s, pat, 0) {
            assert(s.subrange(0, pat.len() as int)[0] == s[0]);
        }
        let a1 = a.subrange(1, a.len() as int);
        assert(s.subrange(1, s.len() as int) =~= a1 + b);
        lemma_skip_plain(a1, b, pat, rep);
        assert(seq![a[0]] + (a1 + replace_spec(b, pat, rep)) =~= a + replace_spec(b, pat, rep));
    }
}

/// A substitution replaces its own placeholder where it stands first.
pub proof fn lemma_fill_own(b: Seq<char>, pat: Seq<char>, rep: Seq<char>)
    requires
        pat.len() > 0,
    ensures
        replace_spec(pat + b, pat, rep) == rep + replace_spec(b, pat, rep),
{
    let s = pat + b;
    assert(s.subrange(0, pat.len() as int) =~= pat);
    assert(s.subrange(pat.len() as int, s.len() as int) =~= b);
}

/// A substitution leaves the placeholder of another brace-free key alone.
pub proof fn lemma_keep_other(b: Seq<char>, key: Seq<char>, other: Seq<char>, rep: Seq<char>)
    requires
        brace_free(key),
        brace_free(other),
        other.len() > 0,
        key != other,
    ensures
        replace_spec(slot(other) + b, slot(key), rep) == slot(other) + replace_spec(
            b,
            slot(key),
            rep,
        ),
{
    let pat = slot(key);
    let s = slot(other) + b;
    let n = key.len() as int;
    let o = other.len() as int;
    assert(pat[0] == '{');
    if occurs_at(s, pat, 0) {
        let w = s.subrange(0, pat.len() as int);
        if n < o {
            assert(w[2 + n] == pat[2 + n]);
            assert(s[2 + n] == other[n]);
        } else if n > o {
            assert(w[2 + o] == pat[2 + o]);
            assert(pat[2 + o] == key[o]);
        } else {
            assert forall|j: int| 0 <= j < n implies key[j] == other[j] by {
                assert(w[2 + j] == pat[2 + j]);
            }
            assert(key =~= other);
        }
    }
    let s1 = s.subrange(1, s.len() as int);
    assert(s1[1] == other[0]);
    if occurs_at(s1, pat, 0) {
        assert(s1.subrange(0, pat.len() as int)[1] == pat[1]);
    }
    assert(!occurs_at(s, pat, 0));
    assert(!occurs_at(s1, pat, 0));
    assert(replace_spec(s, pat, rep) == seq![s[0]] + replace_spec(s1, pat, rep));
    let a = other + seq!['}', '}'];
    assert(s1.subrange(1, s1.len() as int) =~= a + b);
    assert(replace_spec(s1, pat, rep) == seq![s1[0]] + replace_spec(a + b, pat, rep));
    assert(s[0] == '{');
    assert(s1[0] == '{');
    lemma_skip_plain(a, b, pat, rep);
    assert(seq![s[0]] + (seq![s1[0]] + (a + replace_spec(b, pat, rep))) =~= slot(other)
        + replace_spec(b, pat, rep));
}

/// The characters of a string slice, in order.
pub fn chars_of(s: &str) -> (r: Vec<char>)
    ensures
        r@ == s@,
{
    let n = s.unicode_len();
    let mut out: Vec<char> = Vec::new();
    let mut i: usize = 0;
    while i < n
        invariant
            n == s@.len(),
            i <= n,
            out@ == s@.subrange(0, i as int),
        decreases n - i,
    {
        out.push(s.get_char(i));
        proof {
            assert(s@.subrange(0, i + 1) == s@.subrange(0, i as int).push(s@[i as int]));
        }
        i = i + 1;
    }
    proof {
        assert(s@ == s@.subrange(0, n as int));
    }
    out
}

/// Relies on `String`'s `FromIterator<&char>`: the string holds the
/// characters in order.
#[verifier::external_body]
pub(crate) fn string_of(v: &Vec<char>) -> (r: String)
    ensures
        r@ == v@,
{
    v.iter().collect::<String>()
}

/// Whether `pat` occurs in `s` at position `i`.
fn matches_at(s: &Vec<char>, pat: &Vec<char>, i: usize) -> (r: bool)
    requires
        i <= s@.len(),
    ensures
        r == occurs_at(s@, pat@, i as int),
{
    let m = pat.len();
    let n = s.len();
    if n - i < m {
        return false;
    }
    let mut j: usize = 0;
    while j < m
        invariant
            m == pat@.len(),
            n == s@.len(),
            i + m <= s@.len(),
            j <= m,
            forall|k: int| 0 <= k < j ==> s@[i + k] == pat@[k],
        decreases m - j,
    {
        if s[i + j] != pat[j] {
            proof {
                assert(s@.subrange(i as int, i + m)[j as int] != pat@[j as int]);
            }
            return false;
        }
        j = j + 1;
    }
    proof {
        assert(s@.subrange(i as int, i + m) =~= pat@);
    }
    true
}

/// `s` with each occurrence of the non-empty `pat` replaced by `rep`,
/// scanning left to right.
pub fn replace_chars(s: &Vec<char>, pat: &Vec<char>, rep: &Vec<char>) -> (r: Vec<char>)
    requires
        pat@.len() > 0,
    ensures
        r@ == replace_spec(s@, pat@, rep@),
{
    let n = s.len();
    let m = pat.len();
    let mut out: Vec<char> = Vec::new();
    let mut i: usize = 0;
    proof {
        assert(s@.subrange(0, n as int) =~= s@);
    }
    while i < n
        invariant
            n == s@.len(),
            m == pat@.len(),
            m > 0,
            i <= n,
            out@ + replace_spec(s@.subrange(i as int, n as int), pat@, rep@)
                == replace_spec(s@, pat@, rep@),
        decreases n - i,
    {
        let ghost rest = s@.subrange(i as int, n as int);
        if matches_at(s, pat, i) {
            proof {
                assert(rest.subrange(0, m as int) =~= s@.subrange(i as int, i + m));
                assert(rest.subrange(m as int, rest.len() as int)
                    =~= s@.subrange(i + m, n as int));
                assert(out@ + rep@ + replace_spec(s@.subrange(i + m, n as int), pat@, rep@)
                    == out@ + (rep@ + replace_spec(s@.subrange(i + m, n as int), pat@, rep@)));
            }
            let mut k: usize = 0;
            let ghost out0 = out@;
            while k < rep.len()
                invariant
                    out@ == out0 + rep@.subrange(0, k as int),
                    k <= rep@.len(),
                decreases rep@.len() - k,
            {
                out.push(rep[k]);
                proof {
                    assert(rep@.subrange(0, k + 1) == rep@.subrange(0, k as int).push(rep@[k as int]));
                }
                k = k + 1;
            }
            proof {
                assert(rep@.subrange(0, rep@.len() as int) == rep@);
            }
            i = i + m;
        } else {
            proof {
                assert(!occurs_at(rest, pat@, 0)) by {
                    if occurs_at(rest, pat@, 0) {
                        assert(rest.subrange(0, m as int) =~= s@.subrange(i as int, i + m));
                    }
                }
                assert(rest.subrange(1, rest.len() as int) =~= s@.subrange(i + 1, n as int));
                assert(out@.push(s@[i as int]) + replace_spec(s@.subrange(i + 1, n as int), pat@, rep@)
                    == out@ + (seq![s@[i as int]] + replace_spec(s@.subrange(i + 1, n as int), pat@, rep@)));
            }
            out.push(s[i]);
            i = i + 1;
        }
    }
    proof {
        assert(s@.subrange(n as int, n as int) =~= Seq::<char>::empty());
        assert(out@ + Seq::<char>::empty() == out@);
    }
    out
}

/// `s` with each occurrence of the non-empty `pat` replaced by `rep`, as
/// `str::replace` does for a non-empty pattern.
pub fn replace_all(s: &str, pat: &str, rep: &str) -> (r: String)
    requires
        pat@.len() > 0,
    ensures
        r@ == replace_spec(s@, pat@, rep@),
{
    let v = replace_chars(&chars_of(s), &chars_of(pat), &chars_of(rep));
    string_of(&v)
}

} // verus!
