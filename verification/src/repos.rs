//! The list of repos (hosts sources): one URL per line of the repos file.
use vstd::prelude::*;

use crate::text::{
    char_index, drop_empty, find_char, lemma_char_index, lemma_char_index_bound,
    lemma_drop_empty_append, lemma_drop_empty_cons, lemma_drop_empty_nonempty, lines, lines_of,
    nonempty_lines,
    nonempty_lines_of, replace_all, replace_exec, str_chars, str_eq, string_from_range, strip_cr,
    views,
};

verus! {

/// Why a change to the repos list was refused.
#[derive(Debug, PartialEq, Eq, Structural)]
pub enum RepoError {
    /// The repo to add is already a line of the list.
    AlreadyExists,
    /// No line of the list is the repo to delete.
    NotFound,
    /// There is no repos file.
    ListMissing,
}

/// The repos named by the repos file (absent file: none).
pub open spec fn repos_listed(repos_file: Option<Seq<char>>) -> Seq<Seq<char>> {
    match repos_file {
        Some(c) => nonempty_lines(c),
        None => seq![],
    }
}

/// The repos file after adding `repo`: a new line holding it.
pub open spec fn with_repo(repos: Seq<char>, repo: Seq<char>) -> Seq<char> {
    repos + "\n"@ + repo
}

/// `repos` with the repo taken out of each line equal to `repo` (as
/// `str::lines` reads it): such a line keeps only its carriage return, if it
/// had one, and its line feed; a last line without line feed that equals
/// `repo` disappears. All other text is kept as it was.
pub open spec fn blank_repo_lines(repos: Seq<char>, repo: Seq<char>) -> Seq<char>
    decreases repos.len(),
{
    if repos.len() == 0 {
        seq![]
    } else {
        let k = char_index(repos, '\n');
        if k < repos.len() {
            (if strip_cr(repos.take(k as int)) == repo {
                repos.subrange(repo.len() as int, (k + 1) as int)
            } else {
                repos.take((k + 1) as int)
            }) + blank_repo_lines(repos.skip((k + 1) as int), repo)
        } else if repos == repo {
            seq![]
        } else {
            repos
        }
    }
}

/// The repos file after deleting `repo`: the repo is taken out of the lines
/// equal to it, then every double line feed is made single, as
/// `repos.replace(repo, "").replace("\n\n", "\n")` does when `repo` occurs in
/// the file only as whole lines. Text that merely contains `repo` (another
/// repo of which it is a part) is left alone.
pub open spec fn without_repo(repos: Seq<char>, repo: Seq<char>) -> Seq<char> {
    replace_all(blank_repo_lines(repos, repo), "\n\n"@, "\n"@)
}

/// The members of `ls` other than `repo`, in order.
pub open spec fn remove_line(ls: Seq<Seq<char>>, repo: Seq<char>) -> Seq<Seq<char>>
    decreases ls.len(),
{
    if ls.len() == 0 {
        seq![]
    } else if ls[0] == repo {
        remove_line(ls.drop_first(), repo)
    } else {
        seq![ls[0]] + remove_line(ls.drop_first(), repo)
    }
}

/// The view of an optional string slice.
pub open spec fn opt_str_view(o: Option<&str>) -> Option<Seq<char>> {
    match o {
        Some(s) => Some(s@),
        None => None,
    }
}

/// The repos in the repos file, in order, skipping empty lines.
pub fn list_repos(repos_file: Option<&str>) -> (r: Vec<String>)
    ensures
        views(r@) == repos_listed(opt_str_view(repos_file)),
{
    match repos_file {
        Some(c) => nonempty_lines_of(c),
        None => {
            let r: Vec<String> = Vec::new();
            assert(views(r@) =~= Seq::<Seq<char>>::empty());
            r
        },
    }
}

/// Whether some line of `s` is exactly `repo`.
fn has_line(s: &str, repo: &str) -> (r: bool)
    ensures
        r == lines(s@).contains(repo@),
{
    let ls = lines_of(s);
    let mut i: usize = 0;
    while i < ls.len()
        invariant
            i <= ls.len(),
            views(ls@) == lines(s@),
            forall|j: int| 0 <= j < i ==> ls@[j]@ != repo@,
        decreases ls.len() - i,
    {
        if str_eq(ls[i].as_str(), repo) {
            assert(views(ls@)[i as int] == repo@);
            return true;
        }
        i = i + 1;
    }
    assert(!lines(s@).contains(repo@)) by {
        if lines(s@).contains(repo@) {
            let j = choose|j: int| 0 <= j < lines(s@).len() && lines(s@)[j] == repo@;
            assert(views(ls@)[j] == ls@[j]@);
        }
    }
    false
}

/// The repos file once `repo` is added, or `AlreadyExists` when a line of the
/// file is exactly `repo`.
pub fn add_repo(repos: &str, repo: &str) -> (r: Result<String, RepoError>)
    ensures
        lines(repos@).contains(repo@) ==> r == Err::<String, RepoError>(RepoError::AlreadyExists),
        !lines(repos@).contains(repo@) ==> r is Ok && r->Ok_0@ == with_repo(repos@, repo@),
{
    if has_line(repos, repo) {
        return Err(RepoError::AlreadyExists);
    }
    let out = String::from_str(repos);
    let out = out.concat("\n");
    Ok(out.concat(repo))
}

/// The repos file once `repo` is deleted: `ListMissing` without a file,
/// `NotFound` when no line of it is `repo`.
pub fn del_repo(repos_file: Option<&str>, repo: &str) -> (r: Result<String, RepoError>)
    ensures
        repos_file is None ==> r == Err::<String, RepoError>(RepoError::ListMissing),
        repos_file is Some && !lines(repos_file->0@).contains(repo@) ==> r == Err::<
            String,
            RepoError,
        >(RepoError::NotFound),
        repos_file is Some && lines(repos_file->0@).contains(repo@) ==> r is Ok && r->Ok_0@
            == without_repo(repos_file->0@, repo@),
{
    match repos_file {
        None => Err(RepoError::ListMissing),
        Some(c) => {
            if !has_line(c, repo) {
                return Err(RepoError::NotFound);
            }
            Ok(remove_repo_lines(c, repo))
        },
    }
}

/// `s` with the lines equal to `repo` deleted.
fn remove_repo_lines(s: &str, repo: &str) -> (r: String)
    ensures
        r@ == without_repo(s@, repo@),
{
    let blanked = blank_lines_exec(s, repo);
    let bv = str_chars(blanked.as_str());
    let pat = str_chars("\n\n");
    proof {
        reveal_strlit("\n\n");
    }
    replace_exec(&bv, &pat, "\n")
}

/// `s` with the repo taken out of each line equal to it.
fn blank_lines_exec(s: &str, repo: &str) -> (r: String)
    ensures
        r@ == blank_repo_lines(s@, repo@),
{
    let v = str_chars(s);
    let rl = str_chars(repo).len();
    let mut out = String::new();
    let mut i: usize = 0;
    assert(v@.skip(0) =~= v@);
    while i < v.len()
        invariant
            i <= v.len(),
            v@ == s@,
            rl == repo@.len(),
            blank_repo_lines(s@, repo@) == out@ + blank_repo_lines(v@.skip(i as int), repo@),
        decreases v.len() - i,
    {
        let k = find_char(&v, i, '\n');
        let ghost t = v@.skip(i as int);
        let ghost out0 = out@;
        if k < v.len() {
            let line = if k > i && v[k - 1] == '\r' {
                string_from_range(&v, i, k - 1)
            } else {
                string_from_range(&v, i, k)
            };
            proof {
                assert(t.take((k - i) as int) =~= v@.subrange(i as int, k as int));
                if k > i && v@[k - 1] == '\r' {
                    assert(v@.subrange(i as int, k as int).drop_last() =~= v@.subrange(
                        i as int,
                        k - 1,
                    ));
                }
                assert(line@ == strip_cr(t.take((k - i) as int)));
                assert(t.take((k - i) + 1) =~= v@.subrange(i as int, k + 1));
                assert(t.skip((k - i) + 1) =~= v@.skip(k + 1));
            }
            let seg = if str_eq(line.as_str(), repo) {
                assert(line@.len() == rl);
                assert(rl <= k - i);
                let seg = string_from_range(&v, i + rl, k + 1);
                assert(seg@ =~= t.subrange(rl as int, (k - i) + 1));
                seg
            } else {
                string_from_range(&v, i, k + 1)
            };
            out.append(seg.as_str());
            assert(out0 + (seg@ + blank_repo_lines(v@.skip(k + 1), repo@)) =~= out@
                + blank_repo_lines(v@.skip(k + 1), repo@));
            i = k + 1;
        } else {
            let line = string_from_range(&v, i, k);
            proof {
                assert(line@ =~= t);
            }
            if !str_eq(line.as_str(), repo) {
                out.append(line.as_str());
            }
            i = k;
            proof {
                assert(v@.skip(i as int) =~= Seq::<char>::empty());
                assert(blank_repo_lines(v@.skip(i as int), repo@) == Seq::<char>::empty());
                assert(out@ + Seq::<char>::empty() =~= out@);
            }
        }
    }
    proof {
        assert(v@.skip(i as int) =~= Seq::<char>::empty());
        assert(out@ + blank_repo_lines(v@.skip(i as int), repo@) =~= out@);
    }
    out
}

// ---------------------------------------------------------------------------
// Laws
// ---------------------------------------------------------------------------
proof fn lemma_char_index_concat(a: Seq<char>, b: Seq<char>, c: char)
    ensures
        char_index(a + b, c) == (if char_index(a, c) < a.len() {
            char_index(a, c)
        } else {
            a.len() + char_index(b, c)
        }),
{
    lemma_char_index_bound(a, c);
    lemma_char_index_bound(b, c);
    let s = a + b;
    if char_index(a, c) < a.len() {
        let k = char_index(a, c);
        assert forall|j: int| 0 <= j < k implies s[j] != c by {
            assert(s[j] == a[j]);
        }
        assert(s[k as int] == a[k as int]);
        lemma_char_index(s, c, k);
    } else {
        let k = a.len() + char_index(b, c);
        assert forall|j: int| 0 <= j < k implies s[j] != c by {
            if j < a.len() {
                assert(s[j] == a[j]);
            } else {
                assert(s[j] == b[j - a.len()]);
            }
        }
        if k < s.len() {
            assert(s[k as int] == b[char_index(b, c) as int]);
        }
        lemma_char_index(s, c, k);
    }
}

/// A line without line feeds is its own single line.
proof fn lemma_single_line(r: Seq<char>)
    requires
        r.len() > 0,
        char_index(r, '\n') == r.len(),
    ensures
        lines(r) == seq![r],
{
}

/// Appending a line feed and a non-empty line without line feeds adds exactly
/// that line to the lines.
proof fn lemma_lines_push_line(a: Seq<char>, r: Seq<char>)
    requires
        r.len() > 0,
        char_index(r, '\n') == r.len(),
    ensures
        lines(a + "\n"@ + r) == lines(a + "\n"@) + seq![r],
    decreases a.len(),
{
    reveal_strlit("\n");
    let nl: Seq<char> = "\n"@;
    let s = a + nl + r;
    let t = a + nl;
    lemma_char_index_concat(a, nl, '\n');
    lemma_char_index_concat(t, r, '\n');
    assert(char_index(nl, '\n') == 0);
    let k = char_index(t, '\n');
    assert(k <= a.len());
    assert(char_index(s, '\n') == k);
    assert(s.take(k as int) =~= t.take(k as int));
    if k < a.len() {
        let a2 = a.skip((k + 1) as int);
        assert(s.skip((k + 1) as int) =~= a2 + nl + r);
        assert(t.skip((k + 1) as int) =~= a2 + nl);
        lemma_lines_push_line(a2, r);
        assert(lines(s) == seq![strip_cr(t.take(k as int))] + lines(a2 + nl + r));
        assert(lines(t) == seq![strip_cr(t.take(k as int))] + lines(a2 + nl));
        assert(seq![strip_cr(t.take(k as int))] + (lines(a2 + nl) + seq![r]) =~= (seq![
            strip_cr(t.take(k as int)),
        ] + lines(a2 + nl)) + seq![r]);
    } else {
        assert(s.skip((k + 1) as int) =~= r);
        assert(t.skip((k + 1) as int) =~= Seq::<char>::empty());
        lemma_single_line(r);
        assert(lines(t) == seq![strip_cr(t.take(k as int))] + lines(Seq::<char>::empty()));
        assert(lines(t) =~= seq![strip_cr(t.take(k as int))]);
    }
}

/// Ending the last line with a line feed adds or removes only empty lines,
/// provided that line does not end with a carriage return.
proof fn lemma_lines_terminate(a: Seq<char>)
    requires
        a.len() == 0 || a.last() != '\r',
    ensures
        drop_empty(lines(a + "\n"@)) == drop_empty(lines(a)),
    decreases a.len(),
{
    reveal_strlit("\n");
    let nl: Seq<char> = "\n"@;
    let t = a + nl;
    lemma_char_index_concat(a, nl, '\n');
    assert(char_index(nl, '\n') == 0);
    let k = char_index(a, '\n');
    lemma_char_index_bound(a, '\n');
    if a.len() == 0 {
        assert(t =~= nl);
        assert(char_index(t, '\n') == 0);
        assert(t.take(0) =~= Seq::<char>::empty());
        assert(t.skip(1) =~= Seq::<char>::empty());
        assert(strip_cr(Seq::<char>::empty()) == Seq::<char>::empty());
        assert(lines(Seq::<char>::empty()) == Seq::<Seq<char>>::empty());
        assert(lines(t) == seq![strip_cr(t.take(0))] + lines(t.skip(1)));
        assert(lines(t) =~= seq![Seq::<char>::empty()]);
        lemma_drop_empty_cons(Seq::<char>::empty(), seq![]);
        assert(drop_empty(lines(t)) =~= Seq::<Seq<char>>::empty());
    } else if k < a.len() {
        let a2 = a.skip((k + 1) as int);
        assert(t.skip((k + 1) as int) =~= a2 + nl);
        assert(t.take(k as int) =~= a.take(k as int));
        if a2.len() > 0 {
            assert(a2.last() == a.last());
        }
        lemma_lines_terminate(a2);
        let h = strip_cr(a.take(k as int));
        assert(lines(t) == seq![h] + lines(a2 + nl));
        assert(lines(a) == seq![h] + lines(a2));
        lemma_drop_empty_cons(h, lines(a2 + nl));
        lemma_drop_empty_cons(h, lines(a2));
    } else {
        assert(t.take(k as int) =~= a);
        assert(t.skip((k + 1) as int) =~= Seq::<char>::empty());
        assert(strip_cr(a) == a);
        assert(char_index(t, '\n') == k);
        assert(lines(Seq::<char>::empty()) == Seq::<Seq<char>>::empty());
        assert(lines(t) == seq![strip_cr(t.take(k as int))] + lines(t.skip((k + 1) as int)));
        assert(lines(t) =~= seq![a]);
        assert(lines(a) == seq![a]);
    }
}

/// Adding a repo lists it after the repos listed before. The new line must be a
/// non-empty line without line feeds, and the file must not end in a carriage
/// return (which the new line feed would strip from the last repo).
pub proof fn lemma_added_repo_listed(repos: Seq<char>, repo: Seq<char>)
    requires
        repo.len() > 0,
        !repo.contains('\n'),
        repos.len() == 0 || repos.last() != '\r',
    ensures
        repos_listed(Some(with_repo(repos, repo))) == repos_listed(Some(repos)).push(repo),
{
    lemma_char_index_bound(repo, '\n');
    if char_index(repo, '\n') < repo.len() {
        assert(repo.contains(repo[char_index(repo, '\n') as int]));
    }
    lemma_lines_push_line(repos, repo);
    lemma_lines_terminate(repos);
    lemma_drop_empty_append(lines(repos + "\n"@), seq![repo]);
    lemma_drop_empty_cons(repo, seq![]);
    assert(seq![repo] + drop_empty(Seq::<Seq<char>>::empty()) =~= seq![repo]);
    assert(drop_empty(lines(repos)) + seq![repo] =~= drop_empty(lines(repos)).push(repo));
}

/// A repo that was just added cannot be added again.
pub proof fn lemma_add_repo_twice(repos: Seq<char>, repo: Seq<char>)
    requires
        repo.len() > 0,
        !repo.contains('\n'),
    ensures
        lines(with_repo(repos, repo)).contains(repo),
{
    lemma_char_index_bound(repo, '\n');
    if char_index(repo, '\n') < repo.len() {
        assert(repo.contains(repo[char_index(repo, '\n') as int]));
    }
    lemma_lines_push_line(repos, repo);
    let ls = lines(repos + "\n"@) + seq![repo];
    assert(ls[ls.len() - 1] == repo);
}

/// No listed repo is empty.
pub proof fn lemma_listed_repos_nonempty(repos_file: Option<Seq<char>>, i: int)
    requires
        0 <= i < repos_listed(repos_file).len(),
    ensures
        repos_listed(repos_file)[i].len() > 0,
{
    if let Some(c) = repos_file {
        lemma_drop_empty_nonempty(lines(c), i);
    }
}

/// A line ended by a line feed, followed by `w`: its lines are that line
/// (without a carriage return) and the lines of `w`.
proof fn lemma_lines_after_segment(s: Seq<char>, k: nat, w: Seq<char>)
    requires
        k < s.len(),
        char_index(s, '\n') == k,
    ensures
        lines(s.take((k + 1) as int) + w) == seq![strip_cr(s.take(k as int))] + lines(w),
{
    lemma_char_index_bound(s, '\n');
    let seg = s.take((k + 1) as int);
    assert forall|j: int| 0 <= j < k implies seg[j] != '\n' by {
        assert(seg[j] == s[j]);
    }
    assert(seg[k as int] == s[k as int]);
    lemma_char_index(seg, '\n', k);
    lemma_char_index_concat(seg, w, '\n');
    let t = seg + w;
    assert(t.take(k as int) =~= s.take(k as int));
    assert(t.skip((k + 1) as int) =~= w);
}

/// The lines of a text that starts with `x` and a line feed: the lines of `x`
/// ended by that line feed, then the lines of what follows.
proof fn lemma_lines_split(x: Seq<char>, b: Seq<char>)
    ensures
        lines(x + "\n"@ + b) == lines(x + "\n"@) + lines(b),
    decreases x.len(),
{
    reveal_strlit("\n");
    let nl: Seq<char> = "\n"@;
    let s = x + nl + b;
    let t = x + nl;
    lemma_char_index_concat(x, nl, '\n');
    lemma_char_index_concat(t, b, '\n');
    assert(char_index(nl, '\n') == 0);
    let k = char_index(t, '\n');
    assert(k <= x.len());
    assert(char_index(s, '\n') == k);
    assert(s.take(k as int) =~= t.take(k as int));
    if k < x.len() {
        let x2 = x.skip((k + 1) as int);
        assert(s.skip((k + 1) as int) =~= x2 + nl + b);
        assert(t.skip((k + 1) as int) =~= x2 + nl);
        lemma_lines_split(x2, b);
        let h = seq![strip_cr(t.take(k as int))];
        assert(lines(s) == h + lines(x2 + nl + b));
        assert(lines(t) == h + lines(x2 + nl));
        assert(h + (lines(x2 + nl) + lines(b)) =~= (h + lines(x2 + nl)) + lines(b));
    } else {
        assert(s.skip((k + 1) as int) =~= b);
        assert(t.skip((k + 1) as int) =~= Seq::<char>::empty());
        assert(lines(t) == seq![strip_cr(t.take(k as int))] + lines(Seq::<char>::empty()));
        assert(lines(t) =~= seq![strip_cr(t.take(k as int))]);
    }
}

/// Text without line feeds in front is left alone by collapsing double line feeds.
proof fn lemma_collapse_prefix(x: Seq<char>, w: Seq<char>)
    requires
        !x.contains('\n'),
    ensures
        replace_all(x + w, "\n\n"@, "\n"@) == x + replace_all(w, "\n\n"@, "\n"@),
    decreases x.len(),
{
    reveal_strlit("\n\n");
    reveal_strlit("\n");
    let nn: Seq<char> = "\n\n"@;
    let n: Seq<char> = "\n"@;
    if x.len() == 0 {
        assert(x + w =~= w);
        assert(x + replace_all(w, nn, n) =~= replace_all(w, nn, n));
    } else {
        let s = x + w;
        let x2 = x.drop_first();
        assert(s[0] == x[0]);
        assert(x[0] != '\n') by {
            if x[0] == '\n' {
                assert(x.contains(x[0]));
            }
        }
        assert(!x2.contains('\n')) by {
            if x2.contains('\n') {
                let j = choose|j: int| 0 <= j < x2.len() && x2[j] == '\n';
                assert(x[j + 1] == '\n');
                assert(x.contains(x[j + 1]));
            }
        }
        lemma_collapse_prefix(x2, w);
        assert(s.drop_first() =~= x2 + w);
        if s.len() < 2 {
            assert(w.len() == 0);
            assert(x2.len() == 0);
            assert(replace_all(w, nn, n) == w);
            assert(replace_all(s, nn, n) == s);
            assert(x + replace_all(w, nn, n) =~= s);
        } else {
            assert(s.take(2)[0] != nn[0]);
            assert(s.take(2) != nn);
            assert(replace_all(s, nn, n) == seq![s[0]] + replace_all(x2 + w, nn, n));
            assert(seq![x[0]] + (x2 + replace_all(w, nn, n)) =~= x + replace_all(w, nn, n));
        }
    }
}

/// Collapsing double line feeds removes only empty lines.
proof fn lemma_collapse_lines(t: Seq<char>)
    ensures
        drop_empty(lines(replace_all(t, "\n\n"@, "\n"@))) == drop_empty(lines(t)),
    decreases t.len(),
{
    reveal_strlit("\n\n");
    reveal_strlit("\n");
    let nn: Seq<char> = "\n\n"@;
    let n: Seq<char> = "\n"@;
    let k = char_index(t, '\n');
    lemma_char_index_bound(t, '\n');
    if k == t.len() {
        assert(!t.contains('\n')) by {
            if t.contains('\n') {
                let j = choose|j: int| 0 <= j < t.len() && t[j] == '\n';
            }
        }
        lemma_collapse_prefix(t, Seq::<char>::empty());
        assert(t + Seq::<char>::empty() =~= t);
        assert(replace_all(Seq::<char>::empty(), nn, n) == Seq::<char>::empty());
    } else {
        let x = t.take(k as int);
        let rest = t.skip((k + 1) as int);
        assert(!x.contains('\n')) by {
            if x.contains('\n') {
                let j = choose|j: int| 0 <= j < x.len() && x[j] == '\n';
                assert(t[j] == '\n');
            }
        }
        assert(t =~= x + (n + rest));
        assert(x + n + rest =~= x + (n + rest));
        lemma_collapse_prefix(x, n + rest);
        lemma_lines_split(x, rest);
        lemma_drop_empty_append(lines(x + n), lines(rest));
        if rest.len() > 0 && rest[0] == '\n' {
            let r2 = rest.skip(1);
            let u = n + rest;
            assert(u.take(2) =~= nn);
            assert(u.skip(2) =~= r2);
            assert(replace_all(u, nn, n) == n + replace_all(r2, nn, n));
            assert(x + (n + replace_all(r2, nn, n)) =~= x + n + replace_all(r2, nn, n));
            lemma_lines_split(x, replace_all(r2, nn, n));
            lemma_drop_empty_append(lines(x + n), lines(replace_all(r2, nn, n)));
            lemma_collapse_lines(r2);
            assert(rest =~= Seq::<char>::empty() + n + r2);
            lemma_lines_split(Seq::<char>::empty(), r2);
            assert(Seq::<char>::empty() + n =~= n);
            assert(char_index(n, '\n') == 0);
            assert(n.take(0) =~= Seq::<char>::empty());
            assert(n.skip(1) =~= Seq::<char>::empty());
            assert(lines(Seq::<char>::empty()) == Seq::<Seq<char>>::empty());
            assert(lines(n) == seq![strip_cr(n.take(0))] + lines(n.skip(1)));
            assert(lines(n) =~= seq![Seq::<char>::empty()]);
            lemma_drop_empty_append(lines(n), lines(r2));
            lemma_drop_empty_cons(Seq::<char>::empty(), seq![]);
            assert(drop_empty(lines(n)) =~= Seq::<Seq<char>>::empty());
            assert(Seq::<Seq<char>>::empty() + drop_empty(lines(r2)) =~= drop_empty(lines(r2)));
        } else {
            let u = n + rest;
            if rest.len() == 0 {
                assert(u =~= n);
                assert(replace_all(u, nn, n) == u);
                assert(replace_all(rest, nn, n) == rest);
            } else {
                assert(u.take(2)[1] == rest[0]);
                assert(u.take(2) != nn);
                assert(u[0] == '\n');
                assert(u.drop_first() =~= rest);
            }
            assert(replace_all(u, nn, n) == n + replace_all(rest, nn, n));
            assert(x + (n + replace_all(rest, nn, n)) =~= x + n + replace_all(rest, nn, n));
            lemma_lines_split(x, replace_all(rest, nn, n));
            lemma_drop_empty_append(lines(x + n), lines(replace_all(rest, nn, n)));
            lemma_collapse_lines(rest);
        }
    }
}

/// Taking the repo out of its lines leaves the other non-empty lines as they were.
proof fn lemma_blank_lines(repos: Seq<char>, repo: Seq<char>)
    requires
        repo.len() > 0,
    ensures
        drop_empty(lines(blank_repo_lines(repos, repo))) == drop_empty(
            remove_line(lines(repos), repo),
        ),
    decreases repos.len(),
{
    if repos.len() > 0 {
        let k = char_index(repos, '\n');
        lemma_char_index_bound(repos, '\n');
        if k < repos.len() {
            let rest = repos.skip((k + 1) as int);
            let line = repos.take(k as int);
            let head = strip_cr(line);
            lemma_blank_lines(rest, repo);
            let ls = lines(repos);
            assert(ls == seq![head] + lines(rest));
            assert(ls[0] == head);
            assert(ls.drop_first() =~= lines(rest));
            let w = blank_repo_lines(rest, repo);
            if head == repo {
                let rl = repo.len();
                assert(rl <= k);
                let s2 = repos.skip(rl as int);
                let k2 = (k - rl) as nat;
                assert forall|j: int| 0 <= j < k2 implies s2[j] != '\n' by {
                    assert(s2[j] == repos[j + rl]);
                }
                assert(s2[k2 as int] == repos[k as int]);
                lemma_char_index(s2, '\n', k2);
                lemma_lines_after_segment(s2, k2, w);
                assert(s2.take((k2 + 1) as int) =~= repos.subrange(rl as int, (k + 1) as int));
                let tail = s2.take(k2 as int);
                assert(strip_cr(tail).len() == 0) by {
                    if line.len() > 0 && line.last() == '\r' {
                        assert(line.drop_last() == repo);
                        assert(tail.len() == 1);
                        assert(tail[0] == line[rl as int]);
                        assert(tail.last() == '\r');
                    } else {
                        assert(line == repo);
                        assert(tail.len() == 0);
                    }
                }
                assert(strip_cr(tail) =~= Seq::<char>::empty());
                lemma_drop_empty_cons(Seq::<char>::empty(), lines(w));
                assert(Seq::<Seq<char>>::empty() + drop_empty(lines(w)) =~= drop_empty(lines(w)));
            } else {
                lemma_lines_after_segment(repos, k, w);
                lemma_drop_empty_cons(head, lines(w));
                lemma_drop_empty_cons(head, remove_line(lines(rest), repo));
            }
        } else {
            assert(lines(repos) == seq![repos]);
            let ls = seq![repos];
            assert(ls.drop_first() =~= Seq::<Seq<char>>::empty());
            assert(remove_line(Seq::<Seq<char>>::empty(), repo) == Seq::<Seq<char>>::empty());
            if repos != repo {
                assert(remove_line(ls, repo) =~= seq![repos] + Seq::<Seq<char>>::empty());
            } else {
                assert(lines(Seq::<char>::empty()) == Seq::<Seq<char>>::empty());
            }
        }
    }
}

/// Deleting a repo: the repos listed afterwards are those listed before, less
/// every line equal to the repo.
pub proof fn lemma_delete_removes_lines(repos: Seq<char>, repo: Seq<char>)
    requires
        repo.len() > 0,
    ensures
        nonempty_lines(without_repo(repos, repo)) == drop_empty(remove_line(lines(repos), repo)),
{
    lemma_collapse_lines(blank_repo_lines(repos, repo));
    lemma_blank_lines(repos, repo);
}

proof fn lemma_remove_line_append(a: Seq<Seq<char>>, b: Seq<Seq<char>>, r: Seq<char>)
    ensures
        remove_line(a + b, r) == remove_line(a, r) + remove_line(b, r),
    decreases a.len(),
{
    if a.len() == 0 {
        assert(a + b =~= b);
        assert(Seq::<Seq<char>>::empty() + remove_line(b, r) =~= remove_line(b, r));
    } else {
        assert((a + b)[0] == a[0]);
        assert((a + b).drop_first() =~= a.drop_first() + b);
        lemma_remove_line_append(a.drop_first(), b, r);
        if a[0] != r {
            assert(seq![a[0]] + (remove_line(a.drop_first(), r) + remove_line(b, r)) =~= (seq![
                a[0],
            ] + remove_line(a.drop_first(), r)) + remove_line(b, r));
        }
    }
}

proof fn lemma_remove_line_absent(a: Seq<Seq<char>>, r: Seq<char>)
    requires
        !a.contains(r),
    ensures
        remove_line(a, r) == a,
    decreases a.len(),
{
    if a.len() > 0 {
        assert(a[0] != r);
        assert forall|j: int| 0 <= j < a.drop_first().len() implies a.drop_first()[j] != r by {
            assert(a.drop_first()[j] == a[j + 1]);
        }
        lemma_remove_line_absent(a.drop_first(), r);
        assert(seq![a[0]] + a.drop_first() =~= a);
    }
}

proof fn lemma_remove_line_excludes(a: Seq<Seq<char>>, r: Seq<char>)
    ensures
        !remove_line(a, r).contains(r),
    decreases a.len(),
{
    if a.len() > 0 {
        lemma_remove_line_excludes(a.drop_first(), r);
        if a[0] != r {
            let t = seq![a[0]] + remove_line(a.drop_first(), r);
            assert forall|j: int| 0 <= j < t.len() implies t[j] != r by {
                if j > 0 {
                    assert(t[j] == remove_line(a.drop_first(), r)[j - 1]);
                }
            }
        }
    }
}

proof fn lemma_drop_empty_remove_line(a: Seq<Seq<char>>, r: Seq<char>)
    requires
        r.len() > 0,
    ensures
        drop_empty(remove_line(a, r)) == remove_line(drop_empty(a), r),
    decreases a.len(),
{
    if a.len() > 0 {
        let x = a[0];
        let rest = a.drop_first();
        lemma_drop_empty_remove_line(rest, r);
        assert(a =~= seq![x] + rest);
        lemma_drop_empty_cons(x, rest);
        if x == r {
            assert(remove_line(a, r) == remove_line(rest, r));
            assert(x.len() > 0);
            let d = seq![x] + drop_empty(rest);
            assert(d[0] == x);
            assert(d.drop_first() =~= drop_empty(rest));
        } else {
            lemma_drop_empty_cons(x, remove_line(rest, r));
            if x.len() == 0 {
                assert(Seq::<Seq<char>>::empty() + drop_empty(rest) =~= drop_empty(rest));
                assert(Seq::<Seq<char>>::empty() + drop_empty(remove_line(rest, r)) =~= drop_empty(
                    remove_line(rest, r),
                ));
            } else {
                let d = seq![x] + drop_empty(rest);
                assert(d[0] == x);
                assert(d.drop_first() =~= drop_empty(rest));
            }
        }
    }
}

/// A deleted repo is no longer listed.
pub proof fn lemma_deleted_repo_not_listed(repos: Seq<char>, repo: Seq<char>)
    requires
        repo.len() > 0,
    ensures
        !repos_listed(Some(without_repo(repos, repo))).contains(repo),
{
    lemma_delete_removes_lines(repos, repo);
    lemma_drop_empty_remove_line(lines(repos), repo);
    lemma_remove_line_excludes(drop_empty(lines(repos)), repo);
}

/// Deleting a repo right after adding it gives back the list as it was. The
/// repo must be a non-empty line without line feeds that was not listed, and
/// the file must not end in a carriage return.
pub proof fn lemma_add_then_delete(repos: Seq<char>, repo: Seq<char>)
    requires
        repo.len() > 0,
        !repo.contains('\n'),
        !lines(repos).contains(repo),
        repos.len() == 0 || repos.last() != '\r',
    ensures
        repos_listed(Some(without_repo(with_repo(repos, repo), repo))) == repos_listed(Some(repos)),
{
    lemma_char_index_bound(repo, '\n');
    if char_index(repo, '\n') < repo.len() {
        assert(repo.contains(repo[char_index(repo, '\n') as int]));
    }
    let t = repos + "\n"@;
    lemma_lines_push_line(repos, repo);
    lemma_delete_removes_lines(with_repo(repos, repo), repo);
    lemma_remove_line_append(lines(t), seq![repo], repo);
    assert(remove_line(seq![repo], repo) =~= Seq::<Seq<char>>::empty()) by {
        let one = seq![repo];
        assert(one[0] == repo);
        assert(one.drop_first() =~= Seq::<Seq<char>>::empty());
        assert(remove_line(Seq::<Seq<char>>::empty(), repo) == Seq::<Seq<char>>::empty());
        assert(remove_line(one, repo) == remove_line(one.drop_first(), repo));
    }
    assert(remove_line(lines(t), repo) + Seq::<Seq<char>>::empty() =~= remove_line(lines(t), repo));
    lemma_drop_empty_remove_line(lines(t), repo);
    lemma_lines_terminate(repos);
    lemma_drop_empty_remove_line(lines(repos), repo);
    lemma_remove_line_absent(lines(repos), repo);
}

} // verus!
