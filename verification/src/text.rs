//! Character-level text utilities: substring search, whole-string
//! replacement, placeholder stripping, and decimal formatting.
//!
//! Executable code works on `Vec<char>`; every function is specified against
//! a recursive spec function over `Seq<char>`.

use vstd::prelude::*;

verus! {

/// True when `pat` occurs in `s` starting at index `i`.
pub open spec fn contains_at(s: Seq<char>, pat: Seq<char>, i: int) -> bool {
    &&& 0 <= i
    &&& i + pat.len() <= s.len()
    &&& s.subrange(i, i + pat.len() as int) == pat
}

/// Index of the leftmost occurrence of `pat` in `s`, if any.
pub open spec fn spec_find(s: Seq<char>, pat: Seq<char>) -> Option<int>
    decreases s.len(),
{
    if pat.len() == 0 {
        Some(0)
    } else if s.len() < pat.len() {
        None
    } else if s.subrange(0, pat.len() as int) == pat {
        Some(0)
    } else {
        match spec_find(s.skip(1), pat) {
            None => None,
            Some(j) => Some(j + 1),
        }
    }
}

/// Occurrences of `pat` shift by `n` when a prefix of length `n` is dropped.
pub proof fn lemma_skip_contains_at(s: Seq<char>, pat: Seq<char>, n: int, k: int)
    requires
        0 <= n <= s.len(),
        0 <= k,
    ensures
        contains_at(s.skip(n), pat, k) == contains_at(s, pat, n + k),
{
    if n + k + pat.len() <= s.len() {
        assert(s.skip(n).subrange(k, k + pat.len() as int) =~= s.subrange(
            n + k,
            n + k + pat.len() as int,
        ));
    }
}

/// A found index is an occurrence, and the leftmost one.
pub proof fn lemma_find_is_first(s: Seq<char>, pat: Seq<char>)
    ensures
        spec_find(s, pat) matches Some(i) ==> contains_at(s, pat, i) && (forall|k: int|
            0 <= k < i ==> !contains_at(s, pat, k)),
    decreases s.len(),
{
    if pat.len() == 0 {
        assert(s.subrange(0, 0) =~= pat);
    } else if s.len() < pat.len() {
    } else if s.subrange(0, pat.len() as int) == pat {
    } else {
        lemma_find_is_first(s.skip(1), pat);
        if let Some(j) = spec_find(s.skip(1), pat) {
            lemma_skip_contains_at(s, pat, 1, j);
            assert forall|k: int| 0 <= k < j + 1 implies !contains_at(s, pat, k) by {
                if k == 0 {
                    assert(!contains_at(s, pat, 0));
                } else {
                    lemma_skip_contains_at(s, pat, 1, k - 1);
                }
            }
        }
    }
}

/// An occurrence at `i` with none earlier pins the search result.
pub proof fn lemma_find_exact(s: Seq<char>, pat: Seq<char>, i: int)
    requires
        contains_at(s, pat, i),
        forall|k: int| 0 <= k < i ==> !contains_at(s, pat, k),
    ensures
        spec_find(s, pat) == Some(i),
    decreases s.len(),
{
    if i == 0 {
        assert(s.subrange(0, pat.len() as int) == pat);
    } else {
        assert(!contains_at(s, pat, 0));
        if pat.len() == 0 {
            assert(s.subrange(0, 0) =~= pat);
            assert(contains_at(s, pat, 0));
        }
        assert(s.len() >= pat.len());
        lemma_skip_contains_at(s, pat, 1, i - 1);
        assert forall|k: int| 0 <= k < i - 1 implies !contains_at(s.skip(1), pat, k) by {
            lemma_skip_contains_at(s, pat, 1, k);
        }
        lemma_find_exact(s.skip(1), pat, i - 1);
    }
}

/// True when the characters of `pat` stand in `s` at index `i`.
pub fn match_at(s: &Vec<char>, pat: &Vec<char>, i: usize) -> (r: bool)
    requires
        i + pat@.len() <= s@.len(),
    ensures
        r == contains_at(s@, pat@, i as int),
{
    let n: usize = s.len();
    let mut j: usize = 0;
    while j < pat.len()
        invariant
            i + pat@.len() <= s@.len(),
            n == s@.len(),
            j <= pat@.len(),
            forall|t: int| 0 <= t < j ==> s@[i + t] == pat@[t],
        decreases pat@.len() - j,
    {
        if s[i + j] != pat[j] {
            assert(s@.subrange(i as int, i + pat@.len() as int)[j as int] == s@[i + j]);
            return false;
        }
        j += 1;
    }
    assert(s@.subrange(i as int, i + pat@.len() as int) =~= pat@);
    true
}

/// Leftmost occurrence of `pat` in `s`, as `spec_find` gives it.
pub fn find(s: &Vec<char>, pat: &Vec<char>) -> (r: Option<usize>)
    ensures
        match r {
            Some(i) => spec_find(s@, pat@) == Some(i as int),
            None => spec_find(s@, pat@) is None,
        },
{
    if pat.len() == 0 {
        assert(s@.subrange(0, 0) =~= pat@);
        return Some(0);
    }
    if pat.len() > s.len() {
        return None;
    }
    let n: usize = s.len();
    let end: usize = n - pat.len();
    let mut i: usize = 0;
    while i <= end
        invariant
            1 <= pat@.len() <= s@.len(),
            n == s@.len(),
            end == n - pat@.len(),
            i <= end + 1,
            forall|k: int| 0 <= k < i ==> !contains_at(s@, pat@, k),
        decreases end + 1 - i,
    {
        if match_at(s, pat, i) {
            proof {
                lemma_find_exact(s@, pat@, i as int);
            }
            return Some(i);
        }
        i += 1;
    }
    proof {
        assert forall|k: int| !contains_at(s@, pat@, k) by {
            if 0 <= k && k + pat@.len() <= s@.len() {
                assert(k < i);
            }
        }
        if spec_find(s@, pat@) is Some {
            lemma_find_is_first(s@, pat@);
        }
    }
    None
}

/// True when the two vectors hold the same characters.
pub fn chars_eq(a: &Vec<char>, b: &Vec<char>) -> (r: bool)
    ensures
        r == (a@ == b@),
{
    if a.len() != b.len() {
        assert(a@ != b@);
        return false;
    }
    let r = match_at(a, b, 0);
    assert(a@.subrange(0, b@.len() as int) =~= a@);
    r
}

/// True when `s` ends with `suffix`.
pub open spec fn spec_ends_with(s: Seq<char>, suffix: Seq<char>) -> bool {
    s.len() >= suffix.len() && s.subrange(s.len() - suffix.len(), s.len() as int) == suffix
}

/// Check whether `s` ends with `suffix`.
pub fn ends_with(s: &Vec<char>, suffix: &Vec<char>) -> (r: bool)
    ensures
        r == spec_ends_with(s@, suffix@),
{
    if suffix.len() > s.len() {
        return false;
    }
    let r = match_at(s, suffix, s.len() - suffix.len());
    assert(s@.subrange(s@.len() - suffix@.len(), s@.len() as int) =~= s@.subrange(
        s@.len() - suffix@.len(),
        s@.len() - suffix@.len() + suffix@.len(),
    ));
    r
}

/// True when the two strings hold the same characters.
pub fn str_eq(a: &str, b: &str) -> (r: bool)
    ensures
        r == (a@ == b@),
{
    let ac = str_to_chars(a);
    let bc = str_to_chars(b);
    chars_eq(&ac, &bc)
}

/// `s` with every occurrence of `pat` replaced by `rep`, scanning left to
/// right without revisiting replaced text; an empty `pat` leaves `s` as it is.
pub open spec fn spec_replace_all(s: Seq<char>, pat: Seq<char>, rep: Seq<char>) -> Seq<char>
    decreases s.len(),
{
    if pat.len() == 0 || s.len() < pat.len() {
        s
    } else if s.subrange(0, pat.len() as int) == pat {
        rep + spec_replace_all(s.skip(pat.len() as int), pat, rep)
    } else {
        seq![s[0]] + spec_replace_all(s.skip(1), pat, rep)
    }
}

/// When the replaced text begins with a proper suffix of the pattern, that
/// suffix already stood at the head of the source: a replacement shares no
/// character with the pattern, so it cannot help to spell one.
proof fn lemma_replace_prefix_from_source(s: Seq<char>, pat: Seq<char>, rep: Seq<char>, j: int)
    requires
        0 < j < pat.len(),
        rep.len() > 0,
        forall|x: int, y: int| 0 <= x < rep.len() && 0 <= y < pat.len() ==> rep[x] != pat[y],
        spec_replace_all(s, pat, rep).len() >= pat.len() - j,
        spec_replace_all(s, pat, rep).subrange(0, pat.len() - j) == pat.skip(j),
    ensures
        s.len() >= pat.len() - j,
        s.subrange(0, pat.len() - j) == pat.skip(j),
    decreases s.len(),
{
    let out = spec_replace_all(s, pat, rep);
    let m = pat.len() - j;
    if s.len() < pat.len() {
        assert(out == s);
    } else if s.subrange(0, pat.len() as int) == pat {
        assert(out[0] == rep[0]);
        assert(out.subrange(0, m)[0] == out[0]);
        assert(pat.skip(j)[0] == pat[j]);
        assert(rep[0] == pat[j]);
        assert(false);
    } else {
        let r = spec_replace_all(s.skip(1), pat, rep);
        assert(out == seq![s[0]] + r);
        assert(out.subrange(0, m)[0] == out[0]);
        assert(s[0] == pat[j]);
        if j == pat.len() - 1 {
            assert(s.subrange(0, 1) =~= pat.skip(j));
        } else {
            assert(r.len() >= m - 1);
            assert forall|t: int| 0 <= t < m - 1 implies #[trigger] r[t] == pat[j + 1 + t] by {
                assert(r[t] == out[t + 1]);
                assert(out.subrange(0, m)[t + 1] == out[t + 1]);
                assert(pat.skip(j)[t + 1] == pat[j + 1 + t]);
            }
            assert(r.subrange(0, m - 1) =~= pat.skip(j + 1));
            lemma_replace_prefix_from_source(s.skip(1), pat, rep, j + 1);
            assert forall|t: int| 0 <= t < m implies #[trigger] s[t] == pat[j + t] by {
                if t > 0 {
                    assert(s.skip(1).subrange(0, m - 1)[t - 1] == s[t]);
                    assert(pat.skip(j + 1)[t - 1] == pat[j + t]);
                }
            }
            assert(s.subrange(0, m) =~= pat.skip(j));
        }
    }
}

/// A replacement that shares no character with the pattern leaves no
/// occurrence of the pattern in the replaced text.
pub proof fn lemma_replace_disjoint_removes_pattern(s: Seq<char>, pat: Seq<char>, rep: Seq<char>)
    requires
        pat.len() > 0,
        rep.len() > 0,
        forall|x: int, y: int| 0 <= x < rep.len() && 0 <= y < pat.len() ==> rep[x] != pat[y],
    ensures
        forall|k: int| !contains_at(spec_replace_all(s, pat, rep), pat, k),
    decreases s.len(),
{
    let out = spec_replace_all(s, pat, rep);
    let n = pat.len() as int;
    if s.len() < pat.len() {
        assert forall|k: int| !contains_at(out, pat, k) by {
            if 0 <= k && k + n <= out.len() {
                assert(out == s);
            }
        }
    } else if s.subrange(0, n) == pat {
        let r = spec_replace_all(s.skip(n), pat, rep);
        lemma_replace_disjoint_removes_pattern(s.skip(n), pat, rep);
        assert forall|k: int| !contains_at(out, pat, k) by {
            if 0 <= k && k + n <= out.len() {
                if contains_at(out, pat, k) {
                    if k < rep.len() {
                        assert(out.subrange(k, k + n)[0] == out[k]);
                        assert(out[k] == rep[k]);
                        assert(out[k] == pat[0]);
                        assert(false);
                    } else {
                        let k2 = k - rep.len();
                        assert(r.subrange(k2, k2 + n) =~= out.subrange(k, k + n));
                        assert(contains_at(r, pat, k2));
                        assert(false);
                    }
                }
            }
        }
    } else {
        let r = spec_replace_all(s.skip(1), pat, rep);
        lemma_replace_disjoint_removes_pattern(s.skip(1), pat, rep);
        assert forall|k: int| !contains_at(out, pat, k) by {
            if 0 <= k && k + n <= out.len() {
                if contains_at(out, pat, k) {
                    if k == 0 {
                        assert(out.subrange(0, n)[0] == out[0]);
                        assert(s[0] == pat[0]);
                        if pat.len() == 1 {
                            assert(s.subrange(0, 1) =~= pat);
                            assert(false);
                        } else {
                            assert(r.len() >= n - 1);
                            assert forall|t: int|
                                0 <= t < n - 1 implies #[trigger] r[t] == pat[1 + t] by {
                                assert(r[t] == out[t + 1]);
                                assert(out.subrange(0, n)[t + 1] == out[t + 1]);
                                assert(pat.skip(1)[t] == pat[1 + t]);
                            }
                            assert(r.subrange(0, n - 1) =~= pat.skip(1));
                            lemma_replace_prefix_from_source(s.skip(1), pat, rep, 1);
                            assert forall|t: int| 0 <= t < n implies #[trigger] s[t] == pat[t] by {
                                if t > 0 {
                                    assert(s.skip(1).subrange(0, n - 1)[t - 1] == s[t]);
                                    assert(pat.skip(1)[t - 1] == pat[t]);
                                }
                            }
                            assert(s.subrange(0, n) =~= pat);
                            assert(false);
                        }
                    } else {
                        assert(r.subrange(k - 1, k - 1 + n) =~= out.subrange(k, k + n));
                        assert(contains_at(r, pat, k - 1));
                        assert(false);
                    }
                }
            }
        }
    }
}

/// Append every character of `src` to `out`.
pub fn push_all(out: &mut Vec<char>, src: &Vec<char>)
    ensures
        final(out)@ == old(out)@ + src@,
{
    let ghost out0 = out@;
    let mut j: usize = 0;
    while j < src.len()
        invariant
            j <= src@.len(),
            out@ == out0 + src@.subrange(0, j as int),
        decreases src@.len() - j,
    {
        out.push(src[j]);
        assert(out0 + src@.subrange(0, j as int) + seq![src@[j as int]] =~= out0 + src@.subrange(
            0,
            j + 1,
        ));
        j += 1;
    }
    assert(out0 + src@.subrange(0, src@.len() as int) =~= out0 + src@);
}

/// Replace every occurrence of `pat` in `s` by `rep`.
pub fn replace_all(s: &Vec<char>, pat: &Vec<char>, rep: &Vec<char>) -> (r: Vec<char>)
    ensures
        r@ == spec_replace_all(s@, pat@, rep@),
{
    let mut out: Vec<char> = Vec::new();
    if pat.len() == 0 {
        push_all(&mut out, s);
        return out;
    }
    proof {
        assert(s@.skip(0) =~= s@);
        assert(Seq::<char>::empty() + spec_replace_all(s@, pat@, rep@) =~= spec_replace_all(
            s@,
            pat@,
            rep@,
        ));
    }
    let mut i: usize = 0;
    while i < s.len()
        invariant
            1 <= pat@.len(),
            i <= s@.len(),
            spec_replace_all(s@, pat@, rep@) == out@ + spec_replace_all(
                s@.skip(i as int),
                pat@,
                rep@,
            ),
        decreases s@.len() - i,
    {
        let ghost tail = s@.skip(i as int);
        if pat.len() <= s.len() - i && match_at(s, pat, i) {
            proof {
                assert(tail.subrange(0, pat@.len() as int) =~= s@.subrange(
                    i as int,
                    i + pat@.len() as int,
                ));
                assert(tail.subrange(0, pat@.len() as int) == pat@);
                assert(tail.skip(pat@.len() as int) =~= s@.skip(i + pat@.len() as int));
            }
            push_all(&mut out, rep);
            i += pat.len();
            assert(spec_replace_all(s@, pat@, rep@) == out@ + spec_replace_all(
                s@.skip(i as int),
                pat@,
                rep@,
            ));
        } else {
            proof {
                if i + pat@.len() <= s@.len() {
                    assert(tail.subrange(0, pat@.len() as int) =~= s@.subrange(
                        i as int,
                        i + pat@.len() as int,
                    ));
                    assert(spec_replace_all(tail, pat@, rep@) == seq![tail[0]]
                        + spec_replace_all(tail.skip(1), pat@, rep@));
                } else {
                    assert(tail.len() < pat@.len());
                    assert(spec_replace_all(tail, pat@, rep@) == tail);
                    assert(tail.skip(1).len() < pat@.len());
                    assert(spec_replace_all(tail.skip(1), pat@, rep@) == tail.skip(1));
                    assert(seq![tail[0]] + tail.skip(1) =~= tail);
                }
                assert(tail.skip(1) =~= s@.skip(i + 1));
            }
            out.push(s[i]);
            i += 1;
            assert(spec_replace_all(s@, pat@, rep@) == out@ + spec_replace_all(
                s@.skip(i as int),
                pat@,
                rep@,
            ));
        }
    }
    proof {
        assert(s@.skip(s@.len() as int) =~= Seq::<char>::empty());
        assert(out@ + Seq::<char>::empty() =~= out@);
    }
    out
}

/// The whitespace characters that may trail a removed placeholder.
pub open spec fn is_space_char(c: char) -> bool {
    c == ' ' || c == '\t' || c == '\n' || c == '\r' || c == '\u{b}' || c == '\u{c}'
}

/// `s` with every occurrence of `pat` removed together with the run of
/// whitespace that immediately follows it. The flag records whether the scan
/// stands just after a removed occurrence, still inside its whitespace run.
pub open spec fn spec_strip_token_ws(s: Seq<char>, pat: Seq<char>, in_ws: bool) -> Seq<char>
    decreases s.len(),
{
    if s.len() == 0 {
        s
    } else if in_ws && is_space_char(s[0]) {
        spec_strip_token_ws(s.skip(1), pat, true)
    } else if pat.len() > 0 && s.len() >= pat.len() && s.subrange(0, pat.len() as int) == pat {
        spec_strip_token_ws(s.skip(pat.len() as int), pat, true)
    } else {
        seq![s[0]] + spec_strip_token_ws(s.skip(1), pat, false)
    }
}

/// In a text where every occurrence of the pattern's opening character
/// opens a full occurrence of the pattern, stripping leaves no trace of
/// that character — so no occurrence of the pattern — behind. (A text
/// where the opening character also stands on its own can re-form the
/// pattern across a removal site, so this premise cannot be dropped.)
pub proof fn lemma_strip_leaves_no_marker(s: Seq<char>, pat: Seq<char>, in_ws: bool)
    requires
        pat.len() > 0,
        forall|k: int| 0 <= k < s.len() && s[k] == pat[0] ==> contains_at(s, pat, k),
    ensures
        forall|j: int|
            0 <= j < spec_strip_token_ws(s, pat, in_ws).len() ==> spec_strip_token_ws(
                s,
                pat,
                in_ws,
            )[j] != pat[0],
    decreases s.len(),
{
    if s.len() == 0 {
    } else if in_ws && is_space_char(s[0]) {
        assert forall|k: int|
            0 <= k < s.skip(1).len() && s.skip(1)[k] == pat[0] implies contains_at(
            s.skip(1),
            pat,
            k,
        ) by {
            assert(s[k + 1] == pat[0]);
            lemma_skip_contains_at(s, pat, 1, k);
        }
        lemma_strip_leaves_no_marker(s.skip(1), pat, true);
        assert forall|j: int|
            0 <= j < spec_strip_token_ws(s, pat, in_ws).len() implies spec_strip_token_ws(
            s,
            pat,
            in_ws,
        )[j] != pat[0] by {
            assert(spec_strip_token_ws(s, pat, in_ws)[j] == spec_strip_token_ws(
                s.skip(1),
                pat,
                true,
            )[j]);
        }
    } else if pat.len() > 0 && s.len() >= pat.len() && s.subrange(0, pat.len() as int) == pat {
        let n = pat.len() as int;
        assert forall|k: int|
            0 <= k < s.skip(n).len() && s.skip(n)[k] == pat[0] implies contains_at(
            s.skip(n),
            pat,
            k,
        ) by {
            assert(s[k + n] == pat[0]);
            lemma_skip_contains_at(s, pat, n, k);
        }
        lemma_strip_leaves_no_marker(s.skip(n), pat, true);
        assert forall|j: int|
            0 <= j < spec_strip_token_ws(s, pat, in_ws).len() implies spec_strip_token_ws(
            s,
            pat,
            in_ws,
        )[j] != pat[0] by {
            assert(spec_strip_token_ws(s, pat, in_ws)[j] == spec_strip_token_ws(
                s.skip(n),
                pat,
                true,
            )[j]);
        }
    } else {
        if s[0] == pat[0] {
            assert(contains_at(s, pat, 0));
            assert(s.subrange(0, pat.len() as int) == pat);
        }
        assert forall|k: int|
            0 <= k < s.skip(1).len() && s.skip(1)[k] == pat[0] implies contains_at(
            s.skip(1),
            pat,
            k,
        ) by {
            assert(s[k + 1] == pat[0]);
            lemma_skip_contains_at(s, pat, 1, k);
        }
        lemma_strip_leaves_no_marker(s.skip(1), pat, false);
        assert forall|j: int|
            0 <= j < spec_strip_token_ws(s, pat, in_ws).len() implies spec_strip_token_ws(
            s,
            pat,
            in_ws,
        )[j] != pat[0] by {
            if j == 0 {
                assert(spec_strip_token_ws(s, pat, in_ws)[0] == s[0]);
            } else {
                assert(spec_strip_token_ws(s, pat, in_ws)[j] == spec_strip_token_ws(
                    s.skip(1),
                    pat,
                    false,
                )[j - 1]);
            }
        }
    }
}

/// Under the same premise — every occurrence of the pattern's opening
/// character opens a full occurrence — the stripped text holds no
/// occurrence of the pattern.
pub proof fn lemma_strip_removes_pattern(s: Seq<char>, pat: Seq<char>, in_ws: bool)
    requires
        pat.len() > 0,
        forall|k: int| 0 <= k < s.len() && s[k] == pat[0] ==> contains_at(s, pat, k),
    ensures
        forall|k: int| !contains_at(spec_strip_token_ws(s, pat, in_ws), pat, k),
{
    lemma_strip_leaves_no_marker(s, pat, in_ws);
    let out = spec_strip_token_ws(s, pat, in_ws);
    assert forall|k: int| !contains_at(out, pat, k) by {
        if contains_at(out, pat, k) {
            assert(out.subrange(k, k + pat.len() as int)[0] == out[k]);
            assert(out[k] == pat[0]);
        }
    }
}

/// Remove every occurrence of `pat`, each with its trailing whitespace run.
pub fn strip_token_ws(s: &Vec<char>, pat: &Vec<char>) -> (r: Vec<char>)
    requires
        pat@.len() > 0,
    ensures
        r@ == spec_strip_token_ws(s@, pat@, false),
{
    let mut out: Vec<char> = Vec::new();
    proof {
        assert(s@.skip(0) =~= s@);
        assert(Seq::<char>::empty() + spec_strip_token_ws(s@, pat@, false) =~= spec_strip_token_ws(
            s@,
            pat@,
            false,
        ));
    }
    let mut i: usize = 0;
    let mut in_ws: bool = false;
    while i < s.len()
        invariant
            1 <= pat@.len(),
            i <= s@.len(),
            spec_strip_token_ws(s@, pat@, false) == out@ + spec_strip_token_ws(
                s@.skip(i as int),
                pat@,
                in_ws,
            ),
        decreases s@.len() - i,
    {
        let ghost tail = s@.skip(i as int);
        let c = s[i];
        if in_ws && (c == ' ' || c == '\t' || c == '\n' || c == '\r' || c == '\u{b}' || c
            == '\u{c}') {
            proof {
                assert(tail[0] == c);
                assert(tail.skip(1) =~= s@.skip(i + 1));
            }
            i += 1;
        } else if pat.len() <= s.len() - i && match_at(s, pat, i) {
            proof {
                assert(tail.subrange(0, pat@.len() as int) =~= s@.subrange(
                    i as int,
                    i + pat@.len() as int,
                ));
                assert(tail[0] == c);
                assert(tail.skip(pat@.len() as int) =~= s@.skip(i + pat@.len() as int));
            }
            i += pat.len();
            in_ws = true;
        } else {
            proof {
                assert(tail[0] == c);
                if i + pat@.len() <= s@.len() {
                    assert(tail.subrange(0, pat@.len() as int) =~= s@.subrange(
                        i as int,
                        i + pat@.len() as int,
                    ));
                } else {
                    assert(tail.len() < pat@.len());
                }
                assert(tail.skip(1) =~= s@.skip(i + 1));
            }
            out.push(c);
            i += 1;
            in_ws = false;
        }
        assert(spec_strip_token_ws(s@, pat@, false) == out@ + spec_strip_token_ws(
            s@.skip(i as int),
            pat@,
            in_ws,
        ));
    }
    proof {
        assert(s@.skip(s@.len() as int) =~= Seq::<char>::empty());
        assert(out@ + Seq::<char>::empty() =~= out@);
    }
    out
}

/// The characters of `s` between `a` and `b`.
pub fn subvec(s: &Vec<char>, a: usize, b: usize) -> (r: Vec<char>)
    requires
        a <= b <= s@.len(),
    ensures
        r@ == s@.subrange(a as int, b as int),
{
    let mut out: Vec<char> = Vec::new();
    let mut i: usize = a;
    while i < b
        invariant
            a <= i <= b <= s@.len(),
            out@ == s@.subrange(a as int, i as int),
        decreases b - i,
    {
        out.push(s[i]);
        assert(s@.subrange(a as int, i as int).push(s@[i as int]) =~= s@.subrange(
            a as int,
            i + 1,
        ));
        i += 1;
    }
    out
}

/// `s` without its leading whitespace.
pub open spec fn spec_trim_start(s: Seq<char>) -> Seq<char>
    decreases s.len(),
{
    if s.len() > 0 && is_space_char(s[0]) {
        spec_trim_start(s.skip(1))
    } else {
        s
    }
}

/// `s` without its trailing whitespace.
pub open spec fn spec_trim_end(s: Seq<char>) -> Seq<char>
    decreases s.len(),
{
    if s.len() > 0 && is_space_char(s[s.len() - 1]) {
        spec_trim_end(s.take(s.len() - 1))
    } else {
        s
    }
}

/// `s` without leading and trailing whitespace.
pub open spec fn spec_trim(s: Seq<char>) -> Seq<char> {
    spec_trim_end(spec_trim_start(s))
}

/// True for the characters that trimming removes.
pub fn is_space(c: char) -> (r: bool)
    ensures
        r == is_space_char(c),
{
    c == ' ' || c == '\t' || c == '\n' || c == '\r' || c == '\u{b}' || c == '\u{c}'
}

/// `s` with leading and trailing whitespace removed.
pub fn trim(s: &Vec<char>) -> (r: Vec<char>)
    ensures
        r@ == spec_trim(s@),
{
    let mut a: usize = 0;
    proof {
        assert(s@.skip(0) =~= s@);
    }
    while a < s.len() && is_space(s[a])
        invariant
            a <= s@.len(),
            spec_trim_start(s@) == spec_trim_start(s@.skip(a as int)),
        decreases s@.len() - a,
    {
        proof {
            assert(s@.skip(a as int)[0] == s@[a as int]);
            assert(s@.skip(a as int).skip(1) =~= s@.skip(a + 1));
        }
        a += 1;
    }
    let ghost head = s@.skip(a as int);
    proof {
        if a < s@.len() {
            assert(head[0] == s@[a as int]);
        }
        assert(spec_trim_start(s@) == head);
    }
    let mut b: usize = s.len();
    proof {
        assert(head.take(head.len() as int) =~= head);
    }
    while b > a && is_space(s[b - 1])
        invariant
            a <= b <= s@.len(),
            head == s@.skip(a as int),
            spec_trim_start(s@) == head,
            spec_trim_end(head) == spec_trim_end(head.take(b - a as int)),
        decreases b,
    {
        proof {
            let part = head.take(b - a as int);
            assert(part[part.len() - 1] == s@[b - 1]);
            assert(part.take(part.len() - 1) =~= head.take(b - 1 - a as int));
        }
        b -= 1;
    }
    let ghost part = head.take(b - a as int);
    proof {
        if b > a {
            assert(part[part.len() - 1] == s@[b - 1]);
        }
        assert(spec_trim_end(part) == part);
        assert(part =~= s@.subrange(a as int, b as int));
    }
    subvec(s, a, b)
}

/// The characters of `s`, in order.
pub fn str_to_chars(s: &str) -> (r: Vec<char>)
    ensures
        r@ == s@,
{
    let n = s.unicode_len();
    let mut v: Vec<char> = Vec::new();
    let mut i: usize = 0;
    while i < n
        invariant
            n == s@.len(),
            i <= n,
            v@ == s@.subrange(0, i as int),
        decreases n - i,
    {
        v.push(s.get_char(i));
        assert(s@.subrange(0, i as int) + seq![s@[i as int]] =~= s@.subrange(0, i + 1));
        i += 1;
    }
    assert(s@.subrange(0, s@.len() as int) =~= s@);
    v
}

/// Relies on `String::push`: appends one character to the string.
#[verifier::external_body]
fn push_char(s: &mut String, c: char)
    ensures
        final(s)@ == old(s)@.push(c),
{
    s.push(c);
}

/// A `String` holding exactly the characters of `v`.
pub fn chars_to_string(v: &Vec<char>) -> (r: String)
    ensures
        r@ == v@,
{
    let mut s = String::new();
    let mut i: usize = 0;
    while i < v.len()
        invariant
            i <= v@.len(),
            s@ == v@.subrange(0, i as int),
        decreases v@.len() - i,
    {
        push_char(&mut s, v[i]);
        assert(v@.subrange(0, i as int).push(v@[i as int]) =~= v@.subrange(0, i + 1));
        i += 1;
    }
    assert(v@.subrange(0, v@.len() as int) =~= v@);
    s
}

/// The character for a single decimal digit.
pub open spec fn spec_digit_char(d: u16) -> char {
    ((48 + d) as u8) as char
}

/// The decimal spelling of `n`, without leading zeroes.
pub open spec fn spec_u16_decimal(n: u16) -> Seq<char> {
    if n < 10 {
        seq![spec_digit_char(n)]
    } else if n < 100 {
        seq![spec_digit_char(n / 10), spec_digit_char(n % 10)]
    } else if n < 1000 {
        seq![spec_digit_char(n / 100), spec_digit_char((n / 10) % 10), spec_digit_char(n % 10)]
    } else if n < 10000 {
        seq![
            spec_digit_char(n / 1000),
            spec_digit_char((n / 100) % 10),
            spec_digit_char((n / 10) % 10),
            spec_digit_char(n % 10),
        ]
    } else {
        seq![
            spec_digit_char(n / 10000),
            spec_digit_char((n / 1000) % 10),
            spec_digit_char((n / 100) % 10),
            spec_digit_char((n / 10) % 10),
            spec_digit_char(n % 10),
        ]
    }
}

/// Every character of a decimal spelling is a digit character.
pub proof fn lemma_decimal_all_digits(n: u16)
    ensures
        forall|x: int|
            0 <= x < spec_u16_decimal(n).len() ==> 48 <= #[trigger] spec_u16_decimal(n)[x] as u32
                <= 57,
{
    assert forall|x: int|
        0 <= x < spec_u16_decimal(n).len() implies 48 <= #[trigger] spec_u16_decimal(n)[x] as u32
        <= 57 by {
        assert(n / 10000 <= 9) by (nonlinear_arith);
        assert(n / 1000 <= 9 || n >= 10000) by (nonlinear_arith);
        assert(n / 100 <= 9 || n >= 1000) by (nonlinear_arith);
        assert(n / 10 <= 9 || n >= 100) by (nonlinear_arith);
    }
}

/// The decimal digits of `n` as characters.
pub fn u16_to_chars(n: u16) -> (r: Vec<char>)
    ensures
        r@ == spec_u16_decimal(n),
{
    let mut v: Vec<char> = Vec::new();
    if n >= 10000 {
        v.push((48 + (n / 10000) as u8) as char);
    }
    if n >= 1000 {
        v.push((48 + ((n / 1000) % 10) as u8) as char);
    }
    if n >= 100 {
        v.push((48 + ((n / 100) % 10) as u8) as char);
    }
    if n >= 10 {
        v.push((48 + ((n / 10) % 10) as u8) as char);
    }
    v.push((48 + (n % 10) as u8) as char);
    proof {
        if n < 10 {
            assert(v@ =~= spec_u16_decimal(n));
        } else if n < 100 {
            assert(n / 10 == (n / 10) % 10);
            assert(v@ =~= spec_u16_decimal(n));
        } else if n < 1000 {
            assert(n / 100 == (n / 100) % 10);
            assert(v@ =~= spec_u16_decimal(n));
        } else if n < 10000 {
            assert(n / 1000 == (n / 1000) % 10);
            assert(v@ =~= spec_u16_decimal(n));
        } else {
            assert(v@ =~= spec_u16_decimal(n));
        }
    }
    v
}

} // verus!
