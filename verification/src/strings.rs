//! Character-sequence building blocks shared by the interpolator, the
//! command classifier and the configuration helpers: substring search,
//! single-pass replacement, splitting into lines and joining with a
//! separator, each stated over `Seq<char>` views.

use vstd::prelude::*;
use vstd::string::StrSliceExecFns;
use vstd::string::StringExecFns;

verus! {

/// The pattern `p` occurs in `t` starting at index `i`.
pub open spec fn occurs_at(t: Seq<char>, p: Seq<char>, i: int) -> bool {
    0 <= i && i + p.len() <= t.len() && t.subrange(i, i + p.len() as int) == p
}

/// The pattern `p` occurs somewhere in `t`.
pub open spec fn occurs(t: Seq<char>, p: Seq<char>) -> bool {
    exists|i: int| occurs_at(t, p, i)
}

/// Whether `s` contains the character `c`.
pub fn contains_char(s: &str, c: char) -> (r: bool)
    ensures
        r == s@.contains(c),
{
    let n: usize = s.unicode_len();
    let mut i: usize = 0;
    while i < n
        invariant
            n == s@.len(),
            0 <= i <= n,
            forall|j: int| 0 <= j < i ==> s@[j] != c,
        decreases n - i,
    {
        if s.get_char(i) == c {
            assert(s@[i as int] == c);
            return true;
        }
        i += 1;
    }
    assert(!s@.contains(c));
    false
}

/// Single-pass, non-recursive replacement of every occurrence of `p` in
/// `t` by `s`, scanning left to right; substituted text is never
/// re-scanned. An empty pattern leaves `t` unchanged.
pub open spec fn replaced(t: Seq<char>, p: Seq<char>, s: Seq<char>) -> Seq<char>
    decreases t.len(),
{
    if p.len() == 0 || t.len() < p.len() {
        t
    } else if t.subrange(0, p.len() as int) == p {
        s + replaced(t.skip(p.len() as int), p, s)
    } else {
        seq![t[0]] + replaced(t.skip(1), p, s)
    }
}

/// A text without any occurrence of the pattern is left unchanged.
pub proof fn lemma_replaced_absent(t: Seq<char>, p: Seq<char>, s: Seq<char>)
    requires
        p.len() >= 1,
        !occurs(t, p),
    ensures
        replaced(t, p, s) == t,
    decreases t.len(),
{
    if t.len() < p.len() {
    } else if t.subrange(0, p.len() as int) == p {
        assert(occurs_at(t, p, 0));
        assert(false);
    } else {
        assert forall|i: int| !occurs_at(t.skip(1), p, i) by {
            if occurs_at(t.skip(1), p, i) {
                assert(t.subrange(i + 1, i + 1 + p.len() as int) =~= t.skip(1).subrange(
                    i,
                    i + p.len() as int,
                ));
                assert(occurs_at(t, p, i + 1));
            }
        }
        lemma_replaced_absent(t.skip(1), p, s);
        assert(seq![t[0]] + t.skip(1) =~= t);
    }
}

/// Occurrences in the tail `t.skip(1)` are exactly the occurrences in
/// `t` shifted by one position.
pub proof fn lemma_occurs_shift(t: Seq<char>, p: Seq<char>, i: int)
    requires
        t.len() >= 1,
        0 <= i,
    ensures
        occurs_at(t, p, i + 1) <==> occurs_at(t.skip(1), p, i),
{
    if occurs_at(t, p, i + 1) {
        assert(t.skip(1).subrange(i, i + p.len() as int) =~= t.subrange(
            i + 1,
            i + 1 + p.len() as int,
        ));
    }
    if occurs_at(t.skip(1), p, i) {
        assert(t.subrange(i + 1, i + 1 + p.len() as int) =~= t.skip(1).subrange(
            i,
            i + p.len() as int,
        ));
    }
}

/// Index of the first occurrence of `p` in `t`; `t.len()` when there is
/// none (for a non-empty pattern).
pub open spec fn find_idx(t: Seq<char>, p: Seq<char>) -> nat
    decreases t.len(),
{
    if t.len() < p.len() {
        t.len()
    } else if t.subrange(0, p.len() as int) == p {
        0
    } else if t.len() == 0 {
        0
    } else {
        1 + find_idx(t.skip(1), p)
    }
}

/// `find_idx` points at the first occurrence of the pattern, and at
/// `t.len()` exactly when the pattern does not occur.
pub proof fn lemma_find_idx(t: Seq<char>, p: Seq<char>)
    requires
        p.len() >= 1,
    ensures
        find_idx(t, p) <= t.len(),
        occurs(t, p) ==> occurs_at(t, p, find_idx(t, p) as int),
        forall|j: int| 0 <= j < find_idx(t, p) ==> !occurs_at(t, p, j),
        !occurs(t, p) ==> find_idx(t, p) == t.len(),
    decreases t.len(),
{
    if t.len() < p.len() {
        assert(forall|i: int| !occurs_at(t, p, i));
    } else if t.subrange(0, p.len() as int) == p {
        assert(occurs_at(t, p, 0));
    } else {
        lemma_find_idx(t.skip(1), p);
        let r: int = 1 + find_idx(t.skip(1), p) as int;
        if occurs(t, p) {
            let i = choose|i: int| occurs_at(t, p, i);
            assert(i != 0);
            lemma_occurs_shift(t, p, i - 1);
            assert(occurs_at(t.skip(1), p, i - 1));
            lemma_occurs_shift(t, p, r - 1);
            assert(occurs_at(t, p, r));
        }
        assert forall|j: int| 0 <= j < r implies !occurs_at(t, p, j) by {
            if j > 0 && occurs_at(t, p, j) {
                lemma_occurs_shift(t, p, j - 1);
            }
        }
        if !occurs(t, p) {
            if occurs(t.skip(1), p) {
                let i = choose|i: int| occurs_at(t.skip(1), p, i);
                lemma_occurs_shift(t, p, i);
                assert(false);
            }
        }
    }
}

/// Index of the first occurrence of `p` in `s`, if any.
pub fn find_first(s: &str, p: &str) -> (r: Option<usize>)
    ensures
        match r {
            Some(i) => occurs_at(s@, p@, i as int) && forall|j: int|
                0 <= j < i ==> !occurs_at(s@, p@, j),
            None => !occurs(s@, p@),
        },
{
    let n: usize = s.unicode_len();
    let m: usize = p.unicode_len();
    if m == 0 {
        proof {
            assert(s@.subrange(0, 0) =~= p@);
            assert(occurs_at(s@, p@, 0));
        }
        return Some(0);
    }
    if m > n {
        proof {
            assert(forall|i: int| !occurs_at(s@, p@, i));
        }
        return None;
    }
    let mut i: usize = 0;
    while i <= n - m
        invariant
            n == s@.len(),
            m == p@.len(),
            1 <= m <= n,
            0 <= i <= n - m + 1,
            forall|j: int| 0 <= j < i ==> !occurs_at(s@, p@, j),
        decreases n - i,
    {
        if match_at(s, i, p) {
            assert(occurs_at(s@, p@, i as int));
            return Some(i);
        }
        assert(!occurs_at(s@, p@, i as int));
        i += 1;
    }
    proof {
        assert forall|j: int| !occurs_at(s@, p@, j) by {
            if occurs_at(s@, p@, j) {
                assert(0 <= j <= n - m);
            }
        }
    }
    None
}

/// Whether `p` occurs anywhere in `s`.
pub fn contains_sub(s: &str, p: &str) -> (r: bool)
    ensures
        r == occurs(s@, p@),
{
    match find_first(s, p) {
        Some(_) => true,
        None => false,
    }
}

/// `t` begins with the characters of `p`.
pub open spec fn begins_with(t: Seq<char>, p: Seq<char>) -> bool {
    p.len() <= t.len() && t.subrange(0, p.len() as int) == p
}

/// Whether `s` begins with the characters of `p`.
pub fn begins_with_exec(s: &str, p: &str) -> (r: bool)
    ensures
        r == begins_with(s@, p@),
{
    let n: usize = s.unicode_len();
    let m: usize = p.unicode_len();
    if m > n {
        return false;
    }
    match_at(s, 0, p)
}

/// Whether two string slices hold the same characters.
pub fn str_eq(a: &str, b: &str) -> (r: bool)
    ensures
        r == (a@ == b@),
{
    let n: usize = a.unicode_len();
    let m: usize = b.unicode_len();
    if n != m {
        return false;
    }
    let r = match_at(a, 0, b);
    proof {
        assert(a@.subrange(0, b@.len() as int) =~= a@);
    }
    r
}

/// Whether `s` is one of the strings in `list`.
pub fn contains_string(list: &Vec<String>, s: &str) -> (r: bool)
    ensures
        r == list.deep_view().contains(s@),
{
    let n = list.len();
    let mut i: usize = 0;
    while i < n
        invariant
            n == list.len(),
            n == list.deep_view().len(),
            0 <= i <= n,
            forall|j: int| 0 <= j < i ==> list.deep_view()[j] != s@,
        decreases n - i,
    {
        if str_eq(list[i].as_str(), s) {
            assert(list.deep_view()[i as int] == s@);
            return true;
        }
        assert(list.deep_view()[i as int] == list[i as int]@);
        i += 1;
    }
    assert(!list.deep_view().contains(s@));
    false
}

/// The elements of `ls` laid end to end with `sep` between neighbours.
pub open spec fn joined(ls: Seq<Seq<char>>, sep: Seq<char>) -> Seq<char>
    decreases ls.len(),
{
    if ls.len() == 0 {
        Seq::empty()
    } else if ls.len() == 1 {
        ls[0]
    } else {
        ls[0] + sep + joined(ls.drop_first(), sep)
    }
}

/// Joining one more element appends a separator and that element.
pub proof fn lemma_joined_snoc(ls: Seq<Seq<char>>, sep: Seq<char>, i: int)
    requires
        1 <= i < ls.len(),
    ensures
        joined(ls.take(i + 1), sep) == joined(ls.take(i), sep) + sep + ls[i],
    decreases i,
{
    let d = ls.drop_first();
    if i == 1 {
        assert(ls.take(2).drop_first() =~= seq![ls[1]]);
        assert(ls.take(1) =~= seq![ls[0]]);
        assert(joined(ls.take(2), sep) == ls.take(2)[0] + sep + joined(
            ls.take(2).drop_first(),
            sep,
        ));
        assert(joined(ls.take(2), sep) == ls[0] + sep + ls[1]);
        assert(joined(ls.take(1), sep) + sep + ls[1] =~= ls[0] + sep + ls[1]);
    } else {
        lemma_joined_snoc(d, sep, i - 1);
        assert(ls.take(i + 1).drop_first() =~= d.take(i));
        assert(ls.take(i).drop_first() =~= d.take(i - 1));
        assert(joined(ls.take(i + 1), sep) == ls[0] + sep + joined(d.take(i), sep));
        assert(joined(ls.take(i), sep) == ls[0] + sep + joined(d.take(i - 1), sep));
        assert(d[i - 1] == ls[i]);
        assert((ls[0] + sep + (joined(d.take(i - 1), sep) + sep + d[i - 1])) =~= ((ls[0] + sep
            + joined(d.take(i - 1), sep)) + sep + ls[i]));
    }
}

/// Joins the given parts with the separator `sep`.
pub fn join_all(parts: &Vec<String>, sep: &str) -> (r: String)
    ensures
        r@ == joined(parts.deep_view(), sep@),
{
    let k = parts.len();
    if k == 0 {
        return String::new();
    }
    let mut res: String = parts[0].clone();
    proof {
        assert(parts.deep_view().take(1) =~= seq![parts.deep_view()[0]]);
        assert(parts.deep_view()[0] == parts[0]@);
    }
    let mut i: usize = 1;
    while i < k
        invariant
            k == parts.len(),
            k == parts.deep_view().len(),
            1 <= i <= k,
            res@ == joined(parts.deep_view().take(i as int), sep@),
        decreases k - i,
    {
        res.append(sep);
        res.append(parts[i].as_str());
        proof {
            lemma_joined_snoc(parts.deep_view(), sep@, i as int);
            assert(parts.deep_view()[i as int] == parts[i as int]@);
        }
        i += 1;
    }
    proof {
        assert(parts.deep_view().take(k as int) =~= parts.deep_view());
    }
    res
}

/// Index of the first occurrence of the character `c` in `t`; `t.len()`
/// when there is none.
pub open spec fn find_char_idx(t: Seq<char>, c: char) -> nat
    decreases t.len(),
{
    if t.len() == 0 {
        0
    } else if t[0] == c {
        0
    } else {
        1 + find_char_idx(t.skip(1), c)
    }
}

/// `find_char_idx` points at the first occurrence of the character, and
/// at `t.len()` exactly when the character does not occur.
pub proof fn lemma_find_char_idx(t: Seq<char>, c: char)
    ensures
        find_char_idx(t, c) <= t.len(),
        find_char_idx(t, c) < t.len() ==> t[find_char_idx(t, c) as int] == c,
        forall|j: int| 0 <= j < find_char_idx(t, c) ==> t[j] != c,
        !t.contains(c) ==> find_char_idx(t, c) == t.len(),
    decreases t.len(),
{
    if t.len() == 0 {
    } else if t[0] == c {
    } else {
        lemma_find_char_idx(t.skip(1), c);
        assert forall|j: int| 0 <= j < find_char_idx(t, c) implies t[j] != c by {
            if j >= 1 {
                assert(t.skip(1)[j - 1] != c);
                assert(t[j] == t.skip(1)[j - 1]);
            }
        }
        if !t.contains(c) {
            if t.skip(1).contains(c) {
                let i = choose|i: int| 0 <= i < t.skip(1).len() && t.skip(1)[i] == c;
                assert(t[i + 1] == c);
                assert(false);
            }
            assert(!t.skip(1).contains(c));
        }
    }
}

/// A line with a trailing carriage return loses it; any other line is
/// unchanged.
pub open spec fn strip_cr(l: Seq<char>) -> Seq<char> {
    if l.len() > 0 && l[l.len() - 1] == '\r' {
        l.drop_last()
    } else {
        l
    }
}

/// The lines of `t`: segments between newline characters, each losing a
/// carriage return that stood just before its newline; a final newline
/// ends the last line rather than opening an empty one.
pub open spec fn split_lines(t: Seq<char>) -> Seq<Seq<char>>
    decreases t.len(),
{
    if t.len() == 0 {
        seq![]
    } else {
        let k = find_char_idx(t, '\n');
        if k >= t.len() {
            seq![t]
        } else {
            seq![strip_cr(t.take(k as int))] + split_lines(t.skip(k as int + 1))
        }
    }
}

/// Splits `s` into its lines.
pub fn split_lines_exec(s: &str) -> (r: Vec<String>)
    ensures
        r.deep_view() == split_lines(s@),
{
    let n: usize = s.unicode_len();
    let mut lines: Vec<String> = Vec::new();
    let mut start: usize = 0;
    let mut i: usize = 0;
    proof {
        assert(s@.skip(0) =~= s@);
        assert(lines.deep_view() =~= Seq::<Seq<char>>::empty());
        assert(lines.deep_view() + split_lines(s@) =~= split_lines(s@));
    }
    while i < n
        invariant
            n == s@.len(),
            0 <= start <= i <= n,
            split_lines(s@) == lines.deep_view() + split_lines(s@.skip(start as int)),
            forall|j: int| start <= j < i ==> s@[j] != '\n',
        decreases n - i,
    {
        if s.get_char(i) == '\n' {
            let end: usize = if i > start && s.get_char(i - 1) == '\r' {
                i - 1
            } else {
                i
            };
            let line = s.substring_char(start, end).to_owned();
            proof {
                let rest = s@.skip(start as int);
                let k: int = i - start;
                assert forall|j: int| 0 <= j < k implies rest[j] != '\n' by {
                    assert(rest[j] == s@[start + j]);
                }
                assert(rest[k] == '\n');
                lemma_find_char_idx(rest, '\n');
                let f = find_char_idx(rest, '\n') as int;
                if f < k {
                    assert(rest[f] != '\n');
                    assert(false);
                }
                if f > k {
                    assert(rest[k] != '\n');
                    assert(false);
                }
                assert(f == k);
                assert(split_lines(rest) == seq![strip_cr(rest.take(k))] + split_lines(
                    rest.skip(k + 1),
                ));
                assert(rest.take(k) =~= s@.subrange(start as int, i as int));
                if i > start && s@[i - 1] == '\r' {
                    assert(rest.take(k)[k - 1] == '\r');
                    assert(strip_cr(rest.take(k)) =~= s@.subrange(start as int, end as int));
                } else {
                    assert(strip_cr(rest.take(k)) =~= s@.subrange(start as int, end as int));
                }
                assert(line@ == strip_cr(rest.take(k)));
                assert(rest.skip(k + 1) =~= s@.skip(i + 1));
            }
            let ghost old_lines = lines.deep_view();
            lines.push(line);
            proof {
                assert(lines.deep_view() =~= old_lines + seq![line@]);
                assert((old_lines + seq![line@]) + split_lines(s@.skip(i + 1)) =~= old_lines + (
                seq![line@] + split_lines(s@.skip(i + 1))));
            }
            start = i + 1;
        }
        i += 1;
    }
    if start < n {
        let line = s.substring_char(start, n).to_owned();
        proof {
            let rest = s@.skip(start as int);
            assert forall|j: int| 0 <= j < rest.len() implies rest[j] != '\n' by {
                assert(rest[j] == s@[start + j]);
            }
            assert(!rest.contains('\n'));
            lemma_find_char_idx(rest, '\n');
            assert(split_lines(rest) == seq![rest]);
            assert(rest =~= s@.subrange(start as int, n as int));
        }
        let ghost old_lines = lines.deep_view();
        lines.push(line);
        proof {
            assert(lines.deep_view() =~= old_lines + seq![line@]);
        }
    } else {
        proof {
            assert(s@.skip(start as int) =~= Seq::<char>::empty());
            assert(split_lines(s@.skip(start as int)) =~= Seq::<Seq<char>>::empty());
            assert(lines.deep_view() + split_lines(s@.skip(start as int)) =~= lines.deep_view());
        }
    }
    lines
}

/// Whether the characters of `p` appear in `s` starting at index `i`.
fn match_at(s: &str, i: usize, p: &str) -> (r: bool)
    requires
        i + p@.len() <= s@.len(),
    ensures
        r == (s@.subrange(i as int, i + p@.len() as int) == p@),
{
    let n: usize = s.unicode_len();
    let m: usize = p.unicode_len();
    let ghost sub = s@.subrange(i as int, i + p@.len() as int);
    let mut j: usize = 0;
    while j < m
        invariant
            n == s@.len(),
            m == p@.len(),
            i + m <= n,
            sub == s@.subrange(i as int, i + p@.len() as int),
            0 <= j <= m,
            forall|k: int| 0 <= k < j ==> sub[k] == p@[k],
        decreases m - j,
    {
        if s.get_char(i + j) != p.get_char(j) {
            assert(sub[j as int] != p@[j as int]);
            return false;
        }
        j += 1;
    }
    assert(sub =~= p@);
    true
}

/// Replaces every occurrence of `pat` in `text` by `sub`, in one pass
/// from left to right.
pub fn replace_all(text: &str, pat: &str, sub: &str) -> (r: String)
    ensures
        r@ == replaced(text@, pat@, sub@),
{
    let n: usize = text.unicode_len();
    let m: usize = pat.unicode_len();
    if m == 0 {
        return text.to_owned();
    }
    let mut res = String::new();
    let mut i: usize = 0;
    proof {
        assert(text@.skip(0) =~= text@);
        assert(res@ + replaced(text@, pat@, sub@) =~= replaced(text@, pat@, sub@));
    }
    while i < n
        invariant
            n == text@.len(),
            m == pat@.len(),
            m >= 1,
            0 <= i <= n,
            replaced(text@, pat@, sub@) == res@ + replaced(
                text@.skip(i as int),
                pat@,
                sub@,
            ),
        decreases n - i,
    {
        let ghost rest = text@.skip(i as int);
        if m <= n - i && match_at(text, i, pat) {
            proof {
                assert(rest.subrange(0, pat@.len() as int) =~= text@.subrange(
                    i as int,
                    i + pat@.len() as int,
                ));
                assert(rest.skip(pat@.len() as int) =~= text@.skip(i + m));
                assert(replaced(rest, pat@, sub@) == sub@ + replaced(
                    text@.skip(i + m),
                    pat@,
                    sub@,
                ));
                assert((res@ + sub@) + replaced(text@.skip(i + m), pat@, sub@) =~= res@ + (
                sub@ + replaced(text@.skip(i + m), pat@, sub@)));
            }
            res.append(sub);
            i += m;
        } else {
            proof {
                assert(rest.len() == n - i >= 1);
                if i + m <= n {
                    assert(rest.subrange(0, pat@.len() as int) =~= text@.subrange(
                        i as int,
                        i + pat@.len() as int,
                    ));
                    assert(rest.subrange(0, pat@.len() as int) != pat@);
                    assert(replaced(rest, pat@, sub@) == seq![rest[0]] + replaced(
                        rest.skip(1),
                        pat@,
                        sub@,
                    ));
                } else {
                    assert(rest.len() < pat@.len());
                    assert(replaced(rest, pat@, sub@) == rest);
                    assert(rest.skip(1).len() < pat@.len());
                    assert(replaced(rest.skip(1), pat@, sub@) == rest.skip(1));
                    assert(rest =~= seq![rest[0]] + rest.skip(1));
                }
                assert(rest[0] == text@[i as int]);
                assert(rest.skip(1) =~= text@.skip(i + 1));
                assert(text@.subrange(i as int, i + 1) =~= seq![text@[i as int]]);
                assert((res@ + seq![rest[0]]) + replaced(text@.skip(i + 1), pat@, sub@) =~= res@
                    + (seq![rest[0]] + replaced(text@.skip(i + 1), pat@, sub@)));
            }
            let ch = text.substring_char(i, i + 1);
            res.append(ch);
            i += 1;
        }
    }
    proof {
        assert(text@.skip(n as int) =~= Seq::<char>::empty());
        assert(replaced(text@.skip(n as int), pat@, sub@).len() == 0);
        assert(res@ =~= res@ + replaced(text@.skip(n as int), pat@, sub@));
    }
    res
}

} // verus!
