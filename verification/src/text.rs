//! Character-level text model shared by the rest of the library: the views of
//! `str` and `String` as `Seq<char>`, and the few std text operations the
//! logic relies on (`lines`, `contains`, `trim`, `replace`, splitting on a
//! separator) stated as spec functions and implemented by verified loops.
use vstd::prelude::*;

verus! {

/// The views of a sequence of owned strings.
pub open spec fn views(v: Seq<String>) -> Seq<Seq<char>> {
    v.map_values(|s: String| s@)
}

/// `pat` occurs in `s` starting at index `i`.
pub open spec fn occurs_at(s: Seq<char>, pat: Seq<char>, i: int) -> bool {
    0 <= i && i + pat.len() <= s.len() && s.subrange(i, i + pat.len()) == pat
}

/// `pat` occurs somewhere in `s` (what `str::contains` answers for a string pattern).
pub open spec fn contains(s: Seq<char>, pat: Seq<char>) -> bool {
    exists|i: int| occurs_at(s, pat, i)
}

/// Index of the first `c` in `s`, or `s.len()` when there is none.
pub open spec fn char_index(s: Seq<char>, c: char) -> nat
    decreases s.len(),
{
    if s.len() == 0 {
        0
    } else if s[0] == c {
        0
    } else {
        1 + char_index(s.drop_first(), c)
    }
}

/// Removes one trailing carriage return.
pub open spec fn strip_cr(l: Seq<char>) -> Seq<char> {
    if l.len() > 0 && l.last() == '\r' {
        l.drop_last()
    } else {
        l
    }
}

/// The lines of `s` as `str::lines` yields them: `s` is split at each `'\n'`,
/// a line ended by `'\n'` loses one trailing `'\r'`, and a final line ending
/// does not start an empty last line.
pub open spec fn lines(s: Seq<char>) -> Seq<Seq<char>>
    decreases s.len(),
{
    if s.len() == 0 {
        seq![]
    } else {
        let k = char_index(s, '\n');
        if k < s.len() {
            seq![strip_cr(s.take(k as int))] + lines(s.skip((k + 1) as int))
        } else {
            seq![s]
        }
    }
}

/// The members of `ls` that are not empty, in order.
pub open spec fn drop_empty(ls: Seq<Seq<char>>) -> Seq<Seq<char>>
    decreases ls.len(),
{
    if ls.len() == 0 {
        seq![]
    } else if ls[0].len() == 0 {
        drop_empty(ls.drop_first())
    } else {
        seq![ls[0]] + drop_empty(ls.drop_first())
    }
}

/// The non-empty lines of `s`.
pub open spec fn nonempty_lines(s: Seq<char>) -> Seq<Seq<char>> {
    drop_empty(lines(s))
}

/// Unicode `White_Space`, which is what `char::is_whitespace` tests.
pub open spec fn is_whitespace(c: char) -> bool {
    let n = c as u32;
    (0x9 <= n <= 0xd) || n == 0x20 || n == 0x85 || n == 0xa0 || n == 0x1680 || (0x2000 <= n
        <= 0x200a) || n == 0x2028 || n == 0x2029 || n == 0x202f || n == 0x205f || n == 0x3000
}

/// Number of leading whitespace characters.
pub open spec fn lead_ws(s: Seq<char>) -> nat
    decreases s.len(),
{
    if s.len() > 0 && is_whitespace(s[0]) {
        1 + lead_ws(s.drop_first())
    } else {
        0
    }
}

/// Number of trailing whitespace characters.
pub open spec fn trail_ws(s: Seq<char>) -> nat
    decreases s.len(),
{
    if s.len() > 0 && is_whitespace(s.last()) {
        1 + trail_ws(s.drop_last())
    } else {
        0
    }
}

/// `s` without leading and trailing whitespace (`str::trim`).
pub open spec fn trim(s: Seq<char>) -> Seq<char> {
    let t = s.skip(lead_ws(s) as int);
    t.take(t.len() - trail_ws(t))
}

/// The part of `s` before the first `sep` (the first item of `str::split(sep)`).
pub open spec fn first_field(s: Seq<char>, sep: char) -> Seq<char> {
    s.take(char_index(s, sep) as int)
}

/// The second item of `str::split(sep)`, or the empty sequence when `s` holds no `sep`.
pub open spec fn second_field(s: Seq<char>, sep: char) -> Seq<char> {
    let k = char_index(s, sep);
    if k < s.len() {
        first_field(s.skip((k + 1) as int), sep)
    } else {
        seq![]
    }
}

/// Every non-overlapping occurrence of `pat`, scanning from the left, replaced by
/// `to` (`str::replace` with a non-empty pattern).
pub open spec fn replace_all(s: Seq<char>, pat: Seq<char>, to: Seq<char>) -> Seq<char>
    recommends
        pat.len() > 0,
    decreases s.len(),
{
    if pat.len() == 0 || s.len() < pat.len() {
        s
    } else if s.take(pat.len() as int) == pat {
        to + replace_all(s.skip(pat.len() as int), pat, to)
    } else {
        seq![s[0]] + replace_all(s.drop_first(), pat, to)
    }
}

// ---------------------------------------------------------------------------
// Lemmas
// ---------------------------------------------------------------------------
pub proof fn lemma_char_index(s: Seq<char>, c: char, k: nat)
    requires
        k <= s.len(),
        forall|j: int| 0 <= j < k ==> s[j] != c,
        k < s.len() ==> s[k as int] == c,
    ensures
        char_index(s, c) == k,
    decreases k,
{
    if k > 0 {
        let t = s.drop_first();
        assert forall|j: int| 0 <= j < k - 1 implies t[j] != c by {
            assert(t[j] == s[j + 1]);
        }
        if (k - 1) < t.len() {
            assert(t[k - 1] == s[k as int]);
        }
        lemma_char_index(t, c, (k - 1) as nat);
    }
}

pub proof fn lemma_char_index_bound(s: Seq<char>, c: char)
    ensures
        char_index(s, c) <= s.len(),
        forall|j: int| 0 <= j < char_index(s, c) ==> s[j] != c,
        char_index(s, c) < s.len() ==> s[char_index(s, c) as int] == c,
    decreases s.len(),
{
    if s.len() > 0 && s[0] != c {
        let t = s.drop_first();
        lemma_char_index_bound(t, c);
        assert forall|j: int| 0 <= j < char_index(s, c) implies s[j] != c by {
            if j > 0 {
                assert(s[j] == t[j - 1]);
            }
        }
        if char_index(s, c) < s.len() {
            assert(s[char_index(s, c) as int] == t[char_index(t, c) as int]);
        }
    }
}

pub proof fn lemma_lead_ws(s: Seq<char>, a: nat)
    requires
        a <= s.len(),
        forall|j: int| 0 <= j < a ==> is_whitespace(s[j]),
        a < s.len() ==> !is_whitespace(s[a as int]),
    ensures
        lead_ws(s) == a,
    decreases a,
{
    if a > 0 {
        let t = s.drop_first();
        assert forall|j: int| 0 <= j < a - 1 implies is_whitespace(t[j]) by {
            assert(t[j] == s[j + 1]);
        }
        if (a - 1) < t.len() {
            assert(t[a - 1] == s[a as int]);
        }
        lemma_lead_ws(t, (a - 1) as nat);
    }
}

pub proof fn lemma_trail_ws(s: Seq<char>, b: nat)
    requires
        b <= s.len(),
        forall|j: int| s.len() - b <= j < s.len() ==> is_whitespace(s[j]),
        b < s.len() ==> !is_whitespace(s[s.len() - b - 1]),
    ensures
        trail_ws(s) == b,
    decreases b,
{
    if b > 0 {
        let t = s.drop_last();
        assert forall|j: int| t.len() - (b - 1) <= j < t.len() implies is_whitespace(t[j]) by {
            assert(t[j] == s[j]);
        }
        if (b - 1) < t.len() {
            assert(t[t.len() - (b - 1) - 1] == s[s.len() - b - 1]);
        }
        lemma_trail_ws(t, (b - 1) as nat);
    }
}

pub proof fn lemma_drop_empty_cons(l: Seq<char>, rest: Seq<Seq<char>>)
    ensures
        drop_empty(seq![l] + rest) == (if l.len() == 0 {
            seq![]
        } else {
            seq![l]
        }) + drop_empty(rest),
{
    let ls = seq![l] + rest;
    assert(ls[0] == l);
    assert(ls.drop_first() =~= rest);
    if l.len() == 0 {
        assert(seq![] + drop_empty(rest) =~= drop_empty(rest));
    }
}

pub proof fn lemma_drop_empty_nonempty(ls: Seq<Seq<char>>, i: int)
    requires
        0 <= i < drop_empty(ls).len(),
    ensures
        drop_empty(ls)[i].len() > 0,
    decreases ls.len(),
{
    if ls.len() > 0 {
        if ls[0].len() == 0 {
            lemma_drop_empty_nonempty(ls.drop_first(), i);
        } else if i > 0 {
            lemma_drop_empty_nonempty(ls.drop_first(), i - 1);
        }
    }
}

pub proof fn lemma_drop_empty_append(a: Seq<Seq<char>>, b: Seq<Seq<char>>)
    ensures
        drop_empty(a + b) == drop_empty(a) + drop_empty(b),
    decreases a.len(),
{
    if a.len() == 0 {
        assert(a + b =~= b);
        assert(seq![] + drop_empty(b) =~= drop_empty(b));
    } else {
        let rest = a.drop_first();
        assert(a =~= seq![a[0]] + rest);
        assert(a + b =~= seq![a[0]] + (rest + b));
        lemma_drop_empty_cons(a[0], rest + b);
        lemma_drop_empty_cons(a[0], rest);
        lemma_drop_empty_append(rest, b);
        let h: Seq<Seq<char>> = if a[0].len() == 0 {
            seq![]
        } else {
            seq![a[0]]
        };
        assert(h + (drop_empty(rest) + drop_empty(b)) =~= (h + drop_empty(rest)) + drop_empty(
            b,
        ));
    }
}

pub proof fn lemma_views_push(v: Seq<String>, x: String)
    ensures
        views(v.push(x)) == views(v).push(x@),
{
    assert(views(v.push(x)) =~= views(v).push(x@));
}

// ---------------------------------------------------------------------------
// Executable helpers
// ---------------------------------------------------------------------------
/// Appends one character with std's `String::push`; claimed, as its
/// documentation says: afterwards the string is the old one followed by `c`.
#[verifier::external_body]
pub(crate) fn push_char(s: &mut String, c: char)
    ensures
        final(s)@ == old(s)@.push(c),
{
    s.push(c);
}

/// The characters of `s`, in order.
pub fn str_chars(s: &str) -> (v: Vec<char>)
    ensures
        v@ == s@,
{
    let mut v: Vec<char> = Vec::new();
    for c in it: s.chars()
        invariant
            v@ == it.seq().take(it.index() as int),
            it.seq() == s@,
    {
        v.push(c);
    }
    v
}

/// A new string holding `v[a..b]`.
pub fn string_from_range(v: &Vec<char>, a: usize, b: usize) -> (s: String)
    requires
        a <= b <= v.len(),
    ensures
        s@ == v@.subrange(a as int, b as int),
{
    let mut s = String::new();
    let mut i = a;
    while i < b
        invariant
            a <= i <= b <= v.len(),
            s@ == v@.subrange(a as int, i as int),
        decreases b - i,
    {
        push_char(&mut s, v[i]);
        assert(v@.subrange(a as int, i + 1) =~= v@.subrange(a as int, i as int).push(v@[i as int]));
        i = i + 1;
    }
    s
}

/// Index of the first `c` at or after `start`, or `v.len()`.
pub fn find_char(v: &Vec<char>, start: usize, c: char) -> (k: usize)
    requires
        start <= v.len(),
    ensures
        start <= k <= v.len(),
        forall|j: int| start <= j < k ==> v@[j] != c,
        k < v.len() ==> v@[k as int] == c,
        char_index(v@.skip(start as int), c) == k - start,
{
    let mut k = start;
    while k < v.len() && v[k] != c
        invariant
            start <= k <= v.len(),
            forall|j: int| start <= j < k ==> v@[j] != c,
        decreases v.len() - k,
    {
        k = k + 1;
    }
    proof {
        let t = v@.skip(start as int);
        assert forall|j: int| 0 <= j < k - start implies t[j] != c by {
            assert(t[j] == v@[start + j]);
        }
        if k < v.len() {
            assert(t[k - start] == v@[k as int]);
        }
        lemma_char_index(t, c, (k - start) as nat);
    }
    k
}

/// Whether `pat` occurs in `s` at index `i`.
pub fn occurs_at_exec(s: &Vec<char>, pat: &Vec<char>, i: usize) -> (r: bool)
    ensures
        r == occurs_at(s@, pat@, i as int),
{
    if i > s.len() || pat.len() > s.len() - i {
        return false;
    }
    let mut j: usize = 0;
    while j < pat.len()
        invariant
            i + pat.len() <= s.len(),
            j <= pat.len(),
            forall|m: int| 0 <= m < j ==> s@[i + m] == pat@[m],
        decreases pat.len() - j,
    {
        if s[i + j] != pat[j] {
            assert(s@.subrange(i as int, i + pat.len())[j as int] != pat@[j as int]);
            return false;
        }
        j = j + 1;
    }
    assert(s@.subrange(i as int, i + pat.len()) =~= pat@);
    true
}

/// Whether `pat` occurs anywhere in `s`.
pub fn contains_exec(s: &Vec<char>, pat: &Vec<char>) -> (r: bool)
    ensures
        r == contains(s@, pat@),
{
    if pat.len() > s.len() {
        assert forall|i: int| !occurs_at(s@, pat@, i) by {}
        return false;
    }
    if pat.len() == 0 {
        assert(s@.subrange(0, 0) =~= pat@);
        assert(occurs_at(s@, pat@, 0));
        return true;
    }
    let last = s.len() - pat.len();
    let mut i: usize = 0;
    while i <= last
        invariant
            last == s.len() - pat.len(),
            pat.len() > 0,
            i <= last + 1,
            forall|m: int| 0 <= m < i ==> !occurs_at(s@, pat@, m),
        decreases last + 1 - i,
    {
        if occurs_at_exec(s, pat, i) {
            return true;
        }
        i = i + 1;
    }
    assert forall|m: int| !occurs_at(s@, pat@, m) by {
        if 0 <= m < i {
        }
    }
    false
}

/// `str::contains` on two string slices.
pub fn str_contains(s: &str, pat: &str) -> (r: bool)
    ensures
        r == contains(s@, pat@),
{
    let sv = str_chars(s);
    let pv = str_chars(pat);
    contains_exec(&sv, &pv)
}

/// Whether two string slices hold the same characters.
pub fn str_eq(a: &str, b: &str) -> (r: bool)
    ensures
        r == (a@ == b@),
{
    let x = String::from_str(a);
    let y = String::from_str(b);
    x == y
}

/// `char::is_whitespace`.
pub fn is_whitespace_exec(c: char) -> (r: bool)
    ensures
        r == is_whitespace(c),
{
    let n = c as u32;
    (0x9 <= n && n <= 0xd) || n == 0x20 || n == 0x85 || n == 0xa0 || n == 0x1680 || (0x2000 <= n
        && n <= 0x200a) || n == 0x2028 || n == 0x2029 || n == 0x202f || n == 0x205f || n == 0x3000
}

/// Bounds `(a, b)` of the trimmed part of `v`, so that `trim(v@) == v@[a..b]`.
pub fn trim_bounds(v: &Vec<char>) -> (r: (usize, usize))
    ensures
        r.0 <= r.1 <= v.len(),
        trim(v@) == v@.subrange(r.0 as int, r.1 as int),
{
    let mut a: usize = 0;
    while a < v.len() && is_whitespace_exec(v[a])
        invariant
            a <= v.len(),
            forall|j: int| 0 <= j < a ==> is_whitespace(v@[j]),
        decreases v.len() - a,
    {
        a = a + 1;
    }
    proof {
        lemma_lead_ws(v@, a as nat);
    }
    let mut b: usize = v.len();
    while b > a && is_whitespace_exec(v[b - 1])
        invariant
            a <= b <= v.len(),
            forall|j: int| b <= j < v.len() ==> is_whitespace(v@[j]),
        decreases b - a,
    {
        b = b - 1;
    }
    proof {
        let t = v@.skip(a as int);
        assert forall|j: int| t.len() - (v.len() - b) <= j < t.len() implies is_whitespace(t[j]) by {
            assert(t[j] == v@[a + j]);
        }
        if (v.len() - b) < t.len() {
            assert(t[t.len() - (v.len() - b) - 1] == v@[b - 1]);
        }
        lemma_trail_ws(t, (v.len() - b) as nat);
        assert(t.take(t.len() - trail_ws(t)) =~= v@.subrange(a as int, b as int));
    }
    (a, b)
}

/// `str::trim`, as an owned string.
pub fn trim_string(s: &str) -> (r: String)
    ensures
        r@ == trim(s@),
{
    let v = str_chars(s);
    let (a, b) = trim_bounds(&v);
    string_from_range(&v, a, b)
}

/// The lines of `s` (`str::lines`), as owned strings.
pub fn lines_of(s: &str) -> (r: Vec<String>)
    ensures
        views(r@) == lines(s@),
{
    let v = str_chars(s);
    let mut r: Vec<String> = Vec::new();
    let mut i: usize = 0;
    assert(v@.skip(0) =~= v@);
    while i < v.len()
        invariant
            i <= v.len(),
            v@ == s@,
            lines(s@) == views(r@) + lines(v@.skip(i as int)),
        decreases v.len() - i,
    {
        let k = find_char(&v, i, '\n');
        let ghost t = v@.skip(i as int);
        if k < v.len() {
            let line = if k > i && v[k - 1] == '\r' {
                string_from_range(&v, i, k - 1)
            } else {
                string_from_range(&v, i, k)
            };
            proof {
                assert(t.take((k - i) as int) =~= v@.subrange(i as int, k as int));
                if k > i && v@[k - 1] == '\r' {
                    assert(v@.subrange(i as int, k as int).drop_last() =~= v@.subrange(
                        i as int,
                        k - 1,
                    ));
                }
                assert(line@ == strip_cr(t.take((k - i) as int)));
                assert(t.skip((k - i) + 1) =~= v@.skip(k + 1));
                assert(lines(t) == seq![line@] + lines(v@.skip(k + 1)));
                lemma_views_push(r@, line);
            }
            let ghost r0 = r@;
            r.push(line);
            proof {
                assert(views(r@) + lines(v@.skip(k + 1)) =~= (views(r0) + seq![line@]) + lines(
                    v@.skip(k + 1),
                ));
            }
            i = k + 1;
        } else {
            let line = string_from_range(&v, i, k);
            proof {
                assert(line@ =~= t);
                assert(lines(t) == seq![line@]);
                lemma_views_push(r@, line);
            }
            r.push(line);
            i = k;
            proof {
                assert(v@.skip(i as int) =~= Seq::<char>::empty());
                assert(lines(v@.skip(i as int)) =~= Seq::<Seq<char>>::empty());
                assert(views(r@) + lines(v@.skip(i as int)) =~= views(r@));
            }
        }
    }
    proof {
        assert(v@.skip(i as int) =~= Seq::<char>::empty());
        assert(views(r@) + lines(v@.skip(i as int)) =~= views(r@));
    }
    r
}

/// The non-empty lines of `s`, as owned strings.
pub fn nonempty_lines_of(s: &str) -> (r: Vec<String>)
    ensures
        views(r@) == nonempty_lines(s@),
{
    let all = lines_of(s);
    let mut r: Vec<String> = Vec::new();
    let mut i: usize = 0;
    assert(views(all@).skip(0) =~= views(all@));
    while i < all.len()
        invariant
            i <= all.len(),
            views(all@) == lines(s@),
            nonempty_lines(s@) == views(r@) + drop_empty(views(all@).skip(i as int)),
        decreases all.len() - i,
    {
        let ghost rest = views(all@).skip(i as int);
        proof {
            assert(rest =~= seq![all@[i as int]@] + views(all@).skip(i + 1));
            lemma_drop_empty_cons(all@[i as int]@, views(all@).skip(i + 1));
        }
        if !all[i].as_str().is_empty() {
            let l = all[i].clone();
            let ghost r0 = r@;
            proof {
                lemma_views_push(r@, l);
            }
            r.push(l);
            assert(views(r@) + drop_empty(views(all@).skip(i + 1)) =~= views(r0) + (seq![
                l@,
            ] + drop_empty(views(all@).skip(i + 1))));
        } else {
            assert(seq![] + drop_empty(views(all@).skip(i + 1)) =~= drop_empty(
                views(all@).skip(i + 1),
            ));
        }
        i = i + 1;
    }
    assert(views(all@).skip(i as int) =~= Seq::<Seq<char>>::empty());
    assert(views(r@) + drop_empty(Seq::<Seq<char>>::empty()) =~= views(r@));
    r
}

/// `str::replace` with a non-empty pattern, on the characters of `s`.
pub fn replace_exec(s: &Vec<char>, pat: &Vec<char>, to: &str) -> (r: String)
    requires
        pat.len() > 0,
    ensures
        r@ == replace_all(s@, pat@, to@),
{
    let mut r = String::new();
    let mut i: usize = 0;
    assert(s@.skip(0) =~= s@);
    while i < s.len()
        invariant
            i <= s.len(),
            pat.len() > 0,
            replace_all(s@, pat@, to@) == r@ + replace_all(s@.skip(i as int), pat@, to@),
        decreases s.len() - i,
    {
        let ghost t = s@.skip(i as int);
        let ghost r0 = r@;
        if occurs_at_exec(s, pat, i) {
            proof {
                assert(t.take(pat.len() as int) =~= s@.subrange(i as int, i + pat.len()));
                assert(t.skip(pat.len() as int) =~= s@.skip(i + pat.len()));
            }
            r.append(to);
            i = i + pat.len();
            assert(r0 + (to@ + replace_all(s@.skip(i as int), pat@, to@)) =~= r@ + replace_all(
                s@.skip(i as int),
                pat@,
                to@,
            ));
        } else {
            let c = s[i];
            proof {
                assert(t[0] == c);
                assert(t.drop_first() =~= s@.skip(i + 1));
                if t.len() < pat.len() {
                    assert(replace_all(t, pat@, to@) == t);
                    assert(replace_all(t.drop_first(), pat@, to@) == t.drop_first());
                    assert(t =~= seq![c] + t.drop_first());
                } else {
                    assert(t.take(pat.len() as int) != pat@) by {
                        if t.take(pat.len() as int) == pat@ {
                            assert(s@.subrange(i as int, i + pat.len()) =~= t.take(pat.len() as int));
                        }
                    }
                }
                assert(replace_all(t, pat@, to@) == seq![c] + replace_all(s@.skip(i + 1), pat@, to@));
            }
            push_char(&mut r, c);
            i = i + 1;
            assert(r0 + (seq![c] + replace_all(s@.skip(i as int), pat@, to@)) =~= r@ + replace_all(
                s@.skip(i as int),
                pat@,
                to@,
            ));
        }
    }
    assert(s@.skip(i as int) =~= Seq::<char>::empty());
    assert(r@ + Seq::<char>::empty() =~= r@);
    r
}

} // verus!
