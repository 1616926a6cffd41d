//! A table of watched repositories, one watcher per repository, fed by a map
//! from notebook names to repository ids. Each round folds the map into the
//! table of watched repositories: a repository seen for the first time gets a
//! watcher and a scratch directory of its own, a known one learns the
//! notebooks built from it, and a repository that no notebook names any more
//! leaves the table, which ends its watcher.
use vstd::prelude::*;

verus! {

/// A lower-case hexadecimal digit.
pub open spec fn is_lower_hex(c: char) -> bool {
    ('0' <= c && c <= '9') || ('a' <= c && c <= 'f')
}

/// The simple form of a UUID: 32 lower-case hexadecimal digits.
pub open spec fn is_simple_uuid(s: Seq<char>) -> bool {
    s.len() == 32 && forall|i: int| 0 <= i < 32 ==> is_lower_hex(#[trigger] s[i])
}

/// Every name is fit for a scratch directory: the simple form of a UUID.
pub open spec fn fresh_names(dirs: Seq<String>) -> bool {
    forall|i: int| 0 <= i < dirs.len() ==> is_simple_uuid(#[trigger] dirs[i]@)
}

/// A watched repository: the notebooks built from it and the directory that
/// its watcher works in.
pub struct RepoWatch {
    pub repo: String,
    pub notebooks: Vec<String>,
    pub dir: String,
}

/// Some string of `v` reads `n`.
pub open spec fn has_name(v: Seq<String>, n: Seq<char>) -> bool {
    exists|i: int| 0 <= i < v.len() && (#[trigger] v[i])@ == n
}

/// No string of `v` occurs twice.
pub open spec fn distinct_names(v: Seq<String>) -> bool {
    forall|i: int, j: int| 0 <= i < j < v.len() ==> (#[trigger] v[i])@ != (#[trigger] v[j])@
}

/// Some entry of the table watches `repo`.
pub open spec fn has_repo(w: Seq<RepoWatch>, repo: Seq<char>) -> bool {
    exists|i: int| 0 <= i < w.len() && (#[trigger] w[i]).repo@ == repo
}

/// The table watches each repository once, and lists each notebook of an
/// entry once.
pub open spec fn watch_inv(w: Seq<RepoWatch>) -> bool {
    &&& forall|i: int, j: int| 0 <= i < j < w.len() ==> (#[trigger] w[i]).repo@ != (#[trigger] w[j]).repo@
    &&& forall|i: int| 0 <= i < w.len() ==> distinct_names(#[trigger] w[i].notebooks@)
}

/// One of the first `k` pairs of the map builds notebook `nb` from `repo`.
pub open spec fn listed_under(listed: Seq<(String, String)>, k: int, repo: Seq<char>, nb: Seq<char>) -> bool {
    exists|j: int| 0 <= j < k && (#[trigger] listed[j]).0@ == nb && listed[j].1@ == repo
}

/// One of the first `k` pairs of the map names `repo`.
pub open spec fn repo_listed(listed: Seq<(String, String)>, k: int, repo: Seq<char>) -> bool {
    exists|j: int| 0 <= j < k && (#[trigger] listed[j]).1@ == repo
}

/// `new` is `old` with the first `k` pairs of `listed` folded in: the
/// entries of `old` stay where they were, with their repository and
/// directory, and gain the notebooks that those pairs build from them; each
/// repository of those pairs that `old` lacks follows, once, with a fresh
/// directory and the notebooks that the pairs build from it.
pub open spec fn merged_upto(old: Seq<RepoWatch>, new: Seq<RepoWatch>, listed: Seq<(String, String)>, k: int) -> bool {
    &&& watch_inv(new)
    &&& old.len() <= new.len()
    &&& forall|i: int| 0 <= i < old.len() ==> (#[trigger] new[i]).repo@ == old[i].repo@ && new[i].dir@ == old[i].dir@
    &&& forall|i: int, nb: Seq<char>| 0 <= i < new.len() ==> (#[trigger] has_name(new[i].notebooks@, nb) <==> (
        (i < old.len() && has_name(old[i].notebooks@, nb)) || listed_under(listed, k, new[i].repo@, nb)))
    &&& forall|i: int| old.len() <= i < new.len() ==> !has_repo(old, (#[trigger] new[i]).repo@) && repo_listed(
        listed, k, new[i].repo@) && is_simple_uuid(new[i].dir@)
    &&& forall|j: int| 0 <= j < k ==> has_repo(new, (#[trigger] listed[j]).1@)
}

/// `new` is `old` with all of `listed` folded in.
pub open spec fn merged(old: Seq<RepoWatch>, new: Seq<RepoWatch>, listed: Seq<(String, String)>) -> bool {
    merged_upto(old, new, listed, listed.len() as int)
}

proof fn lemma_merge_nothing(old: Seq<RepoWatch>, listed: Seq<(String, String)>)
    requires
        watch_inv(old),
    ensures
        merged_upto(old, old, listed, 0),
{
}

proof fn lemma_has_name_push(v: Seq<String>, s: String, x: Seq<char>)
    ensures
        has_name(v.push(s), x) == (has_name(v, x) || s@ == x),
{
    if has_name(v, x) {
        let i = choose|i: int| 0 <= i < v.len() && (#[trigger] v[i])@ == x;
        assert(v.push(s)[i] == v[i]);
    }
    if s@ == x {
        assert(v.push(s)[v.len() as int] == s);
    }
    if has_name(v.push(s), x) {
        let i = choose|i: int| 0 <= i < v.push(s).len() && (#[trigger] v.push(s)[i])@ == x;
        if i < v.len() {
            assert(v.push(s)[i] == v[i]);
        }
    }
}

proof fn lemma_listed_under_step(listed: Seq<(String, String)>, k: int, repo: Seq<char>, nb: Seq<char>)
    requires
        0 <= k < listed.len(),
    ensures
        listed_under(listed, k + 1, repo, nb) == (listed_under(listed, k, repo, nb) || (listed[k].0@ == nb
            && listed[k].1@ == repo)),
{
}

proof fn lemma_repo_listed_step(listed: Seq<(String, String)>, k: int, repo: Seq<char>)
    requires
        0 <= k < listed.len(),
    ensures
        repo_listed(listed, k + 1, repo) == (repo_listed(listed, k, repo) || listed[k].1@ == repo),
{
}

/// Folding in a pair whose repository the table already watches.
proof fn lemma_merge_known(
    old: Seq<RepoWatch>,
    w: Seq<RepoWatch>,
    w2: Seq<RepoWatch>,
    listed: Seq<(String, String)>,
    k: int,
    i: int,
)
    requires
        0 <= k < listed.len(),
        merged_upto(old, w, listed, k),
        0 <= i < w.len(),
        w[i].repo@ == listed[k].1@,
        w2.len() == w.len(),
        forall|j: int| 0 <= j < w.len() && j != i ==> w2[j] == w[j],
        w2[i].repo@ == w[i].repo@,
        w2[i].dir@ == w[i].dir@,
        w2[i].notebooks@ == (if has_name(w[i].notebooks@, listed[k].0@) {
            w[i].notebooks@
        } else {
            w[i].notebooks@.push(listed[k].0)
        }),
    ensures
        merged_upto(old, w2, listed, k + 1),
{
    let nb0 = listed[k].0;
    assert(distinct_names(w2[i].notebooks@)) by {
        if !has_name(w[i].notebooks@, nb0@) {
            assert forall|a: int, b: int| 0 <= a < b < w2[i].notebooks@.len() implies (
            #[trigger] w2[i].notebooks@[a])@ != (#[trigger] w2[i].notebooks@[b])@ by {
                if b == w[i].notebooks@.len() {
                    assert(w2[i].notebooks@[a] == w[i].notebooks@[a]);
                } else {
                    assert(w2[i].notebooks@[a] == w[i].notebooks@[a]);
                    assert(w2[i].notebooks@[b] == w[i].notebooks@[b]);
                }
            }
        }
    }
    assert forall|a: int, b: int| 0 <= a < b < w2.len() implies (#[trigger] w2[a]).repo@ != (
    #[trigger] w2[b]).repo@ by {
        assert(w[a].repo@ != w[b].repo@);
    }
    assert forall|a: int| 0 <= a < w2.len() implies distinct_names(#[trigger] w2[a].notebooks@) by {
        if a != i {
            assert(w2[a] == w[a]);
        }
    }
    assert forall|a: int, nb: Seq<char>| 0 <= a < w2.len() implies (#[trigger] has_name(
        w2[a].notebooks@,
        nb,
    ) <==> ((a < old.len() && has_name(old[a].notebooks@, nb)) || listed_under(
        listed,
        k + 1,
        w2[a].repo@,
        nb,
    ))) by {
        lemma_listed_under_step(listed, k, w2[a].repo@, nb);
        assert(has_name(w[a].notebooks@, nb) <==> ((a < old.len() && has_name(old[a].notebooks@, nb))
            || listed_under(listed, k, w[a].repo@, nb)));
        if a == i {
            if !has_name(w[i].notebooks@, nb0@) {
                lemma_has_name_push(w[i].notebooks@, nb0, nb);
            }
        } else {
            assert(w2[a] == w[a]);
            assert(w[a].repo@ != w[i].repo@);
        }
    }
    assert forall|a: int| old.len() <= a < w2.len() implies !has_repo(old, (#[trigger] w2[a]).repo@)
        && repo_listed(listed, k + 1, w2[a].repo@) && is_simple_uuid(w2[a].dir@) by {
        lemma_repo_listed_step(listed, k, w2[a].repo@);
        if a != i {
            assert(w2[a] == w[a]);
        }
    }
    assert forall|j: int| 0 <= j < k + 1 implies has_repo(w2, (#[trigger] listed[j]).1@) by {
        if j == k {
            assert(w2[i].repo@ == listed[k].1@);
        } else {
            assert(has_repo(w, listed[j].1@));
            let a = choose|a: int| 0 <= a < w.len() && (#[trigger] w[a]).repo@ == listed[j].1@;
            if a != i {
                assert(w2[a] == w[a]);
            }
            assert(w2[a].repo@ == listed[j].1@);
        }
    }
    assert forall|a: int| 0 <= a < old.len() implies (#[trigger] w2[a]).repo@ == old[a].repo@ && w2[a].dir@
        == old[a].dir@ by {
        if a != i {
            assert(w2[a] == w[a]);
        }
    }
}

/// Folding in a pair whose repository the table does not watch yet.
proof fn lemma_merge_new(
    old: Seq<RepoWatch>,
    w: Seq<RepoWatch>,
    e: RepoWatch,
    listed: Seq<(String, String)>,
    k: int,
)
    requires
        0 <= k < listed.len(),
        merged_upto(old, w, listed, k),
        !has_repo(w, listed[k].1@),
        e.repo@ == listed[k].1@,
        e.notebooks@ == seq![listed[k].0],
        is_simple_uuid(e.dir@),
    ensures
        merged_upto(old, w.push(e), listed, k + 1),
{
    let w2 = w.push(e);
    let n = w.len() as int;
    assert(w2[n] == e);
    assert forall|a: int| 0 <= a < n implies #[trigger] w2[a] == w[a] by {}
    assert forall|a: int, b: int| 0 <= a < b < w2.len() implies (#[trigger] w2[a]).repo@ != (
    #[trigger] w2[b]).repo@ by {
        if b == n {
            assert(w2[a] == w[a]);
        } else {
            assert(w2[a] == w[a]);
            assert(w2[b] == w[b]);
        }
    }
    assert forall|a: int| 0 <= a < w2.len() implies distinct_names(#[trigger] w2[a].notebooks@) by {
        if a < n {
            assert(w2[a] == w[a]);
            assert(distinct_names(w[a].notebooks@));
        } else {
            assert(w2[a] == e);
            assert(e.notebooks@.len() == 1);
            assert(distinct_names(e.notebooks@));
        }
    }
    assert forall|a: int| 0 <= a < old.len() implies (#[trigger] w2[a]).repo@ == old[a].repo@ && w2[a].dir@
        == old[a].dir@ by {
        assert(w2[a] == w[a]);
    }
    assert forall|a: int, nb: Seq<char>| 0 <= a < w2.len() implies (#[trigger] has_name(
        w2[a].notebooks@,
        nb,
    ) <==> ((a < old.len() && has_name(old[a].notebooks@, nb)) || listed_under(
        listed,
        k + 1,
        w2[a].repo@,
        nb,
    ))) by {
        lemma_listed_under_step(listed, k, w2[a].repo@, nb);
        if a < n {
            assert(w2[a] == w[a]);
            assert(has_name(w[a].notebooks@, nb) <==> ((a < old.len() && has_name(old[a].notebooks@, nb))
                || listed_under(listed, k, w[a].repo@, nb)));
            assert(w[a].repo@ != listed[k].1@);
        } else {
            assert(old.len() <= n);
            if listed_under(listed, k, e.repo@, nb) {
                let j = choose|j: int| 0 <= j < k && (#[trigger] listed[j]).0@ == nb && listed[j].1@ == e.repo@;
                assert(has_repo(w, listed[j].1@));
            }
            if has_name(e.notebooks@, nb) {
                let x = choose|x: int| 0 <= x < e.notebooks@.len() && (#[trigger] e.notebooks@[x])@ == nb;
                assert(x == 0);
            }
            if nb == listed[k].0@ {
                assert(e.notebooks@[0]@ == nb);
            }
        }
    }
    assert forall|a: int| old.len() <= a < w2.len() implies !has_repo(old, (#[trigger] w2[a]).repo@)
        && repo_listed(listed, k + 1, w2[a].repo@) && is_simple_uuid(w2[a].dir@) by {
        lemma_repo_listed_step(listed, k, w2[a].repo@);
        if a < n {
            assert(w2[a] == w[a]);
        } else {
            if has_repo(old, e.repo@) {
                let b = choose|b: int| 0 <= b < old.len() && (#[trigger] old[b]).repo@ == e.repo@;
                assert(w[b].repo@ == old[b].repo@);
            }
        }
    }
    assert forall|j: int| 0 <= j < k + 1 implies has_repo(w2, (#[trigger] listed[j]).1@) by {
        if j == k {
            assert(w2[n].repo@ == listed[k].1@);
        } else {
            assert(has_repo(w, listed[j].1@));
            let a = choose|a: int| 0 <= a < w.len() && (#[trigger] w[a]).repo@ == listed[j].1@;
            assert(w2[a] == w[a]);
        }
    }
}

fn same_text(a: &String, b: &String) -> (r: bool)
    ensures
        r == (a@ == b@),
{
    *a == *b
}

/// Whether `v` holds a string that reads `n`.
fn holds_name(v: &Vec<String>, n: &String) -> (r: bool)
    ensures
        r == has_name(v@, n@),
{
    let mut i: usize = 0;
    while i < v.len()
        invariant
            i <= v@.len(),
            forall|j: int| 0 <= j < i ==> (#[trigger] v@[j])@ != n@,
        decreases v.len() - i,
    {
        if same_text(&v[i], n) {
            return true;
        }
        i = i + 1;
    }
    false
}

/// Where the table watches `repo`, if it does.
fn find_repo(w: &Vec<RepoWatch>, repo: &String) -> (r: Option<usize>)
    ensures
        match r {
            Some(i) => i < w@.len() && w@[i as int].repo@ == repo@,
            None => !has_repo(w@, repo@),
        },
{
    let mut i: usize = 0;
    while i < w.len()
        invariant
            i <= w@.len(),
            forall|j: int| 0 <= j < i ==> (#[trigger] w@[j]).repo@ != repo@,
        decreases w.len() - i,
    {
        if same_text(&w[i].repo, repo) {
            return Some(i);
        }
        i = i + 1;
    }
    None
}

/// Whether the watcher of `repo` goes on: it does while the table still
/// holds the repository.
pub fn is_watched(watches: &Vec<RepoWatch>, repo: &String) -> (r: bool)
    ensures
        r == has_repo(watches@, repo@),
{
    match find_repo(watches, repo) {
        Some(_) => true,
        None => false,
    }
}

/// Folds the map of notebooks to repositories into the table: a known
/// repository learns the notebooks built from it, and a repository seen for
/// the first time joins the table with a fresh directory: the next unused
/// name of `fresh_dirs` (freshly drawn UUIDs, at least one per pair of the
/// map). Gives the repositories that joined, in the order in which they
/// joined: each of them needs a watcher.
pub fn merge_notebooks(
    watches: &mut Vec<RepoWatch>,
    listed: &Vec<(String, String)>,
    fresh_dirs: &Vec<String>,
) -> (started: Vec<String>)
    requires
        watch_inv(old(watches)@),
        fresh_dirs@.len() >= listed@.len(),
        fresh_names(fresh_dirs@),
    ensures
        forall|m: int|
            0 <= m < started@.len() ==> final(watches)@[old(watches)@.len() + m].dir@ == (
            #[trigger] fresh_dirs@[m])@,
        merged(old(watches)@, final(watches)@, listed@),
        started@.len() + old(watches)@.len() == final(watches)@.len(),
        forall|m: int|
            0 <= m < started@.len() ==> (#[trigger] started@[m])@ == final(watches)@[old(
                watches,
            )@.len() + m].repo@,
{
    let ghost old_w = watches@;
    proof {
        lemma_merge_nothing(old_w, listed@);
    }
    let mut started: Vec<String> = Vec::new();
    let mut k: usize = 0;
    while k < listed.len()
        invariant
            k <= listed@.len(),
            merged_upto(old_w, watches@, listed@, k as int),
            started@.len() + old_w.len() == watches@.len(),
            started@.len() <= k,
            fresh_dirs@.len() >= listed@.len(),
            fresh_names(fresh_dirs@),
            forall|m: int|
                0 <= m < started@.len() ==> (#[trigger] started@[m])@ == watches@[old_w.len()
                    + m].repo@,
            forall|m: int|
                0 <= m < started@.len() ==> watches@[old_w.len() + m].dir@ == (
                #[trigger] fresh_dirs@[m])@,
        decreases listed.len() - k,
    {
        let nb = &listed[k].0;
        let repo = &listed[k].1;
        let ghost w = watches@;
        match find_repo(watches, repo) {
            Some(i) => {
                if !holds_name(&watches[i].notebooks, nb) {
                    let mut e = watches.remove(i);
                    e.notebooks.push(nb.clone());
                    watches.insert(i, e);
                }
                proof {
                    lemma_merge_known(old_w, w, watches@, listed@, k as int, i as int);
                }
            },
            None => {
                let dir = fresh_dirs[started.len()].clone();
                assert(is_simple_uuid(fresh_dirs@[started@.len() as int]@));
                let e = RepoWatch { repo: repo.clone(), notebooks: vec![nb.clone()], dir };
                watches.push(e);
                started.push(repo.clone());
                proof {
                    assert(e.notebooks@ =~= seq![listed@[k as int].0]);
                    lemma_merge_new(old_w, w, e, listed@, k as int);
                }
            },
        }
        k = k + 1;
    }
    started
}

/// The entries whose repository the map still names.
pub open spec fn still_listed(listed: Seq<(String, String)>) -> spec_fn(RepoWatch) -> bool {
    |w: RepoWatch| repo_listed(listed, listed.len() as int, w.repo@)
}

/// The entries whose repository the map no longer names.
pub open spec fn no_longer_listed(listed: Seq<(String, String)>) -> spec_fn(RepoWatch) -> bool {
    |w: RepoWatch| !repo_listed(listed, listed.len() as int, w.repo@)
}

/// The repositories of the entries, in order.
pub open spec fn repos_of(w: Seq<RepoWatch>) -> Seq<String> {
    w.map_values(|e: RepoWatch| e.repo)
}

/// Whether some pair of the map names `repo`.
fn names_repo(listed: &Vec<(String, String)>, repo: &String) -> (r: bool)
    ensures
        r == repo_listed(listed@, listed@.len() as int, repo@),
{
    let mut j: usize = 0;
    while j < listed.len()
        invariant
            j <= listed@.len(),
            forall|m: int| 0 <= m < j ==> (#[trigger] listed@[m]).1@ != repo@,
        decreases listed.len() - j,
    {
        if same_text(&listed[j].1, repo) {
            return true;
        }
        j = j + 1;
    }
    false
}

/// Takes out of the table the repositories that the map no longer names, and
/// gives them in the order of the table: their watchers end. The entries that
/// stay keep their order.
pub fn drop_unlisted(watches: &mut Vec<RepoWatch>, listed: &Vec<(String, String)>) -> (removed: Vec<
    String,
>)
    ensures
        final(watches)@ == old(watches)@.filter(still_listed(listed@)),
        removed@ == repos_of(old(watches)@.filter(no_longer_listed(listed@))),
{
    let mut src: Vec<RepoWatch> = Vec::new();
    std::mem::swap(&mut src, watches);
    let ghost old_w = src@;
    assert(old_w.len() == src.len());
    let ghost keep = still_listed(listed@);
    let ghost gone = no_longer_listed(listed@);
    let mut removed: Vec<String> = Vec::new();
    let mut i: usize = 0;
    assert(old_w.take(0) =~= Seq::<RepoWatch>::empty());
    assert(old_w.skip(0) =~= old_w);
    assert(repos_of(Seq::<RepoWatch>::empty()) =~= Seq::<String>::empty());
    while src.len() > 0
        invariant
            i <= old_w.len(),
            old_w.len() <= usize::MAX,
            src@ == old_w.skip(i as int),
            keep == still_listed(listed@),
            gone == no_longer_listed(listed@),
            watches@ == old_w.take(i as int).filter(keep),
            removed@ == repos_of(old_w.take(i as int).filter(gone)),
        decreases src.len(),
    {
        let ghost before = old_w.take(i as int);
        assert(src@.len() == old_w.len() - i);
        let w = src.remove(0);
        assert(w == old_w[i as int]);
        assert(old_w.take(i + 1) =~= before.push(w));
        assert(src@ =~= old_w.skip(i + 1));
        proof {
            before.lemma_filter_push(w, keep);
            before.lemma_filter_push(w, gone);
        }
        if names_repo(listed, &w.repo) {
            watches.push(w);
        } else {
            let ghost kept = before.filter(gone);
            assert(repos_of(kept.push(w)) =~= repos_of(kept).push(w.repo));
            removed.push(w.repo);
        }
        i = i + 1;
    }
    assert(old_w.take(old_w.len() as int) =~= old_w);
    removed
}

/// Some entry of the table watches `repo` and lists notebook `nb`.
pub open spec fn lists_notebook(w: Seq<RepoWatch>, repo: Seq<char>, nb: Seq<char>) -> bool {
    exists|i: int| 0 <= i < w.len() && (#[trigger] w[i]).repo@ == repo && has_name(w[i].notebooks@, nb)
}

proof fn lemma_filter_watch_inv(w: Seq<RepoWatch>, p: spec_fn(RepoWatch) -> bool)
    requires
        watch_inv(w),
    ensures
        watch_inv(w.filter(p)),
    decreases w.len(),
{
    if w.len() > 0 {
        let rest = w.drop_last();
        let x = w.last();
        assert(w =~= rest.push(x));
        assert(watch_inv(rest)) by {
            assert forall|a: int, b: int| 0 <= a < b < rest.len() implies (#[trigger] rest[a]).repo@ != (
            #[trigger] rest[b]).repo@ by {
                assert(rest[a] == w[a] && rest[b] == w[b]);
            }
            assert forall|a: int| 0 <= a < rest.len() implies distinct_names(#[trigger] rest[a].notebooks@) by {
                assert(rest[a] == w[a]);
            }
        }
        lemma_filter_watch_inv(rest, p);
        rest.lemma_filter_push(x, p);
        if p(x) {
            let f = rest.filter(p);
            assert forall|a: int, b: int| 0 <= a < b < f.push(x).len() implies (#[trigger] f.push(
                x,
            )[a]).repo@ != (#[trigger] f.push(x)[b]).repo@ by {
                if b == f.len() {
                    assert(f.push(x)[a] == f[a]);
                    assert(f.contains(f[a]));
                    rest.lemma_filter_contains_rev(p, f[a]);
                    let c = choose|c: int| 0 <= c < rest.len() && rest[c] == f[a];
                    assert(w[c] == rest[c]);
                    assert(w[w.len() - 1] == x);
                } else {
                    assert(f.push(x)[a] == f[a] && f.push(x)[b] == f[b]);
                }
            }
            assert forall|a: int| 0 <= a < f.push(x).len() implies distinct_names(
                #[trigger] f.push(x)[a].notebooks@,
            ) by {
                if a < f.len() {
                    assert(f.push(x)[a] == f[a]);
                    assert(distinct_names(f[a].notebooks@));
                } else {
                    assert(w[w.len() - 1] == x);
                    assert(distinct_names(w[w.len() - 1].notebooks@));
                    assert(f.push(x)[a] == x);
                }
            }
        }
    }
}

/// After a round (the map folded in, then the repositories it no longer
/// names taken out), the table watches exactly the repositories that the
/// map names, each once, and the entry of each repository lists every
/// notebook that the map builds from it.
pub proof fn lemma_round_watches_exactly_the_map(
    old: Seq<RepoWatch>,
    mid: Seq<RepoWatch>,
    fin: Seq<RepoWatch>,
    listed: Seq<(String, String)>,
)
    requires
        watch_inv(old),
        merged(old, mid, listed),
        fin == mid.filter(still_listed(listed)),
    ensures
        watch_inv(fin),
        forall|r: Seq<char>| #[trigger] has_repo(fin, r) <==> repo_listed(listed, listed.len() as int, r),
        forall|j: int|
            0 <= j < listed.len() ==> lists_notebook(fin, (#[trigger] listed[j]).1@, listed[j].0@),
{
    let n = listed.len() as int;
    let p = still_listed(listed);
    lemma_filter_watch_inv(mid, p);
    assert forall|r: Seq<char>| #[trigger] has_repo(fin, r) <==> repo_listed(listed, n, r) by {
        if has_repo(fin, r) {
            let i = choose|i: int| 0 <= i < fin.len() && (#[trigger] fin[i]).repo@ == r;
            mid.lemma_filter_pred(p, i);
        }
        if repo_listed(listed, n, r) {
            let j = choose|j: int| 0 <= j < n && (#[trigger] listed[j]).1@ == r;
            assert(has_repo(mid, listed[j].1@));
            let a = choose|a: int| 0 <= a < mid.len() && (#[trigger] mid[a]).repo@ == r;
            mid.lemma_filter_contains(p, a);
            let b = choose|b: int| 0 <= b < fin.len() && fin[b] == mid[a];
            assert(fin[b].repo@ == r);
        }
    }
    assert forall|j: int| 0 <= j < n implies lists_notebook(fin, (#[trigger] listed[j]).1@, listed[j].0@) by {
        assert(has_repo(mid, listed[j].1@));
        let a = choose|a: int| 0 <= a < mid.len() && (#[trigger] mid[a]).repo@ == listed[j].1@;
        assert(listed_under(listed, n, mid[a].repo@, listed[j].0@));
        assert(has_name(mid[a].notebooks@, listed[j].0@));
        assert(repo_listed(listed, n, mid[a].repo@));
        mid.lemma_filter_contains(p, a);
        let b = choose|b: int| 0 <= b < fin.len() && fin[b] == mid[a];
        assert(fin[b].repo@ == listed[j].1@);
    }
}

/// One round of the table: the map folded in (new repositories taking their
/// directories from `fresh_dirs` in turn), then the repositories it no
/// longer names taken out. Gives the repositories that need a watcher
/// started and those whose watcher ends.
pub fn refresh_watches(
    watches: &mut Vec<RepoWatch>,
    listed: &Vec<(String, String)>,
    fresh_dirs: &Vec<String>,
) -> (r: (Vec<String>, Vec<String>))
    requires
        watch_inv(old(watches)@),
        fresh_dirs@.len() >= listed@.len(),
        fresh_names(fresh_dirs@),
    ensures
        exists|mid: Seq<RepoWatch>|
            {
                &&& #[trigger] merged(old(watches)@, mid, listed@)
                &&& r.0@.len() + old(watches)@.len() == mid.len()
                &&& forall|m: int|
                    0 <= m < r.0@.len() ==> mid[old(watches)@.len() + m].dir@ == (
                    #[trigger] fresh_dirs@[m])@
                &&& forall|m: int|
                    0 <= m < r.0@.len() ==> (#[trigger] r.0@[m])@ == mid[old(watches)@.len() + m].repo@
                &&& final(watches)@ == mid.filter(still_listed(listed@))
                &&& r.1@ == repos_of(mid.filter(no_longer_listed(listed@)))
            },
        watch_inv(final(watches)@),
        forall|repo: Seq<char>|
            #[trigger] has_repo(final(watches)@, repo) <==> repo_listed(listed@, listed@.len() as int, repo),
        forall|j: int|
            0 <= j < listed@.len() ==> lists_notebook(
                final(watches)@,
                (#[trigger] listed@[j]).1@,
                listed@[j].0@,
            ),
{
    let ghost old_w = watches@;
    let started = merge_notebooks(watches, listed, fresh_dirs);
    let ghost mid = watches@;
    let removed = drop_unlisted(watches, listed);
    proof {
        lemma_round_watches_exactly_the_map(old_w, mid, watches@, listed@);
    }
    (started, removed)
}

} // verus!
