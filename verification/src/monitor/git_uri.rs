//! The repository address that a user writes for a notebook, such as
//! `https://github.com/org/repo//path/to/dir@branches/main`.
//!
//! The accepted grammar is
//! `^(http|https)://REPO(?:(?://)?PATHSPEC)?(?:@REF)?$` where
//! REPO is `(?:[A-Za-z0-9]+[.:/\-_])*[A-Za-z0-9]+`,
//! PATHSPEC is `(?:[A-Za-z0-9]+[/\-_])*[A-Za-z0-9]+` and
//! REF is `branches/[A-Za-z0-9\-_/]+`, `tags/[A-Za-z0-9\-_/]+` or `[A-Fa-f0-9]+`.
//! Of the captures, the longest REPO wins, as the pattern's greedy repetition
//! gives: a PATHSPEC is only split off at a `//`.
use vstd::prelude::*;

use crate::text::{
    chars_of, contains_seq, has_prefix, occurs_at, replace_all, replace_all_chars, starts_with,
    string_of_chars,
};

verus! {


// ---------------------------------------------------------------------------
// Character classes and the pieces of the grammar
// ---------------------------------------------------------------------------

/// `[A-Za-z0-9]`
pub open spec fn is_alnum(c: char) -> bool {
    ('A' <= c && c <= 'Z') || ('a' <= c && c <= 'z') || ('0' <= c && c <= '9')
}

/// The separators between alphanumeric runs: `[/\-_]`, and with `wide` also
/// `.` and `:` (`[.:/\-_]`).
pub open spec fn is_sep(c: char, wide: bool) -> bool {
    c == '/' || c == '-' || c == '_' || (wide && (c == '.' || c == ':'))
}

/// `[A-Fa-f0-9]`
pub open spec fn is_hex(c: char) -> bool {
    ('A' <= c && c <= 'F') || ('a' <= c && c <= 'f') || ('0' <= c && c <= '9')
}

/// `[A-Za-z0-9\-_/]`
pub open spec fn is_ref_char(c: char) -> bool {
    is_alnum(c) || c == '-' || c == '_' || c == '/'
}

/// `s` matches `(?:[A-Za-z0-9]+SEP)*[A-Za-z0-9]+`: non-empty alphanumeric
/// runs joined by single separators.
pub open spec fn is_segmented(s: Seq<char>, wide: bool) -> bool {
    &&& s.len() > 0
    &&& is_alnum(s[0])
    &&& is_alnum(s.last())
    &&& forall|i: int| 0 <= i < s.len() ==> is_alnum(#[trigger] s[i]) || is_sep(s[i], wide)
    &&& forall|i: int| 0 <= i < s.len() - 1 ==> is_alnum(#[trigger] s[i]) || is_alnum(s[i + 1])
}

/// The repository part: `(?:[A-Za-z0-9]+[.:/\-_])*[A-Za-z0-9]+`.
pub open spec fn is_repo_part(s: Seq<char>) -> bool {
    is_segmented(s, true)
}

/// The path inside the repository: `(?:[A-Za-z0-9]+[/\-_])*[A-Za-z0-9]+`.
pub open spec fn is_pathspec(s: Seq<char>) -> bool {
    is_segmented(s, false)
}

/// Every character of `s` is in `[A-Za-z0-9\-_/]`.
pub open spec fn all_ref_chars(s: Seq<char>) -> bool {
    forall|i: int| 0 <= i < s.len() ==> is_ref_char(#[trigger] s[i])
}

/// The reference after `@`: a branch, a tag, or a commit in hexadecimal.
pub open spec fn is_ref(s: Seq<char>) -> bool {
    ||| has_prefix(s, "branches/"@) && s.len() > "branches/"@.len() && all_ref_chars(
        s.skip("branches/"@.len() as int),
    )
    ||| has_prefix(s, "tags/"@) && s.len() > "tags/"@.len() && all_ref_chars(
        s.skip("tags/"@.len() as int),
    )
    ||| s.len() > 0 && (forall|i: int| 0 <= i < s.len() ==> is_hex(#[trigger] s[i]))
}

// ---------------------------------------------------------------------------
// The captures of the pattern
// ---------------------------------------------------------------------------

/// `i` is the first index of `c` in `s`.
pub open spec fn first_index_of(s: Seq<char>, c: char, i: int) -> bool {
    0 <= i < s.len() && s[i] == c && forall|j: int| 0 <= j < i ==> s[j] != c
}

/// `i` is the first index at which `p` occurs in `s`.
pub open spec fn first_occurrence(s: Seq<char>, p: Seq<char>, i: int) -> bool {
    occurs_at(s, p, i) && forall|j: int| 0 <= j < i ==> !occurs_at(s, p, j)
}

/// The protocol that `uri` starts with, when it starts with `http://` or `https://`.
pub open spec fn scheme_of(uri: Seq<char>) -> Option<Seq<char>> {
    if has_prefix(uri, "http://"@) {
        Some("http"@)
    } else if has_prefix(uri, "https://"@) {
        Some("https"@)
    } else {
        None
    }
}

/// What stands before the first `@` and, when there is one, what follows it.
pub open spec fn split_at_ref(body: Seq<char>) -> (Seq<char>, Option<Seq<char>>) {
    if exists|i: int| first_index_of(body, '@', i) {
        let i = choose|i: int| first_index_of(body, '@', i);
        (body.take(i), Some(body.skip(i + 1)))
    } else {
        (body, None)
    }
}

/// The repository and the path inside it: the whole location when it is a
/// repository part, else the two sides of its first `//`.
pub open spec fn split_location(loc: Seq<char>) -> Option<(Seq<char>, Seq<char>)> {
    if is_repo_part(loc) {
        Some((loc, Seq::<char>::empty()))
    } else if exists|j: int| first_occurrence(loc, "//"@, j) {
        let j = choose|j: int| first_occurrence(loc, "//"@, j);
        if is_repo_part(loc.take(j)) && is_pathspec(loc.skip(j + 2)) {
            Some((loc.take(j), loc.skip(j + 2)))
        } else {
            None
        }
    } else {
        None
    }
}

/// The four named captures of the pattern; a group that takes no part in the
/// match captures the empty string.
pub ghost struct UriCaptures {
    pub protocol: Seq<char>,
    pub repo: Seq<char>,
    pub pathspec: Seq<char>,
    pub reference: Seq<char>,
}

/// The captures of the pattern on `uri`, or `None` where it does not match.
pub open spec fn uri_captures(uri: Seq<char>) -> Option<UriCaptures> {
    match scheme_of(uri) {
        None => None,
        Some(protocol) => {
            let body = uri.skip(protocol.len() + 3int);
            let (loc, reference) = split_at_ref(body);
            match split_location(loc) {
                None => None,
                Some((repo, pathspec)) => match reference {
                    None => Some(
                        UriCaptures { protocol, repo, pathspec, reference: Seq::<char>::empty() },
                    ),
                    Some(r) => if is_ref(r) {
                        Some(UriCaptures { protocol, repo, pathspec, reference: r })
                    } else {
                        None
                    },
                },
            }
        },
    }
}

// ---------------------------------------------------------------------------
// The parsed address
// ---------------------------------------------------------------------------

/// What the reference names.
#[derive(PartialEq, Eq, Structural, Clone, Copy, Debug)]
pub enum RefKind {
    Commit,
    Branch,
    Tag,
}

impl RefKind {
    /// The name of the kind: `commit`, `branch` or `tag`.
    pub open spec fn spec_name(self) -> Seq<char> {
        match self {
            RefKind::Commit => "commit"@,
            RefKind::Branch => "branch"@,
            RefKind::Tag => "tag"@,
        }
    }

    /// The name of the kind: `commit`, `branch` or `tag`.
    pub fn name(&self) -> (r: String)
        ensures
            r@ == self.spec_name(),
    {
        match self {
            RefKind::Commit => String::from_str("commit"),
            RefKind::Branch => String::from_str("branch"),
            RefKind::Tag => String::from_str("tag"),
        }
    }
}

/// A parsed repository address.
pub struct GitUri {
    /// `http` or `https`.
    pub protocol: String,
    /// Host and path of the repository.
    pub repo: String,
    /// The directory inside the repository; empty for the whole repository.
    pub pathspec: String,
    /// What to check out: `origin/<branch>`, `tags/<tag>`, a commit, or `HEAD`.
    pub reference: String,
    pub ref_kind: RefKind,
}

/// The model of a parsed address.
pub ghost struct GitUriView {
    pub protocol: Seq<char>,
    pub repo: Seq<char>,
    pub pathspec: Seq<char>,
    pub reference: Seq<char>,
    pub ref_kind: RefKind,
}

impl View for GitUri {
    type V = GitUriView;

    open spec fn view(&self) -> GitUriView {
        GitUriView {
            protocol: self.protocol@,
            repo: self.repo@,
            pathspec: self.pathspec@,
            reference: self.reference@,
            ref_kind: self.ref_kind,
        }
    }
}

/// The address that the captures describe: a `branches/` reference is
/// checked out from `origin/` (every `branches/` in it becomes `origin/`), a
/// `tags/` reference is a tag, no reference is the branch `HEAD`, and
/// anything else is a commit.
pub open spec fn git_uri_of(c: UriCaptures) -> GitUriView {
    let (reference, ref_kind) = if has_prefix(c.reference, "branches/"@) {
        (replace_all(c.reference, "branches/"@, "origin/"@), RefKind::Branch)
    } else if has_prefix(c.reference, "tags/"@) {
        (c.reference, RefKind::Tag)
    } else if c.reference.len() == 0 {
        ("HEAD"@, RefKind::Branch)
    } else {
        (c.reference, RefKind::Commit)
    };
    GitUriView { protocol: c.protocol, repo: c.repo, pathspec: c.pathspec, reference, ref_kind }
}

/// The parse of `uri`: `None` where the pattern does not match.
pub open spec fn parse_git_uri_spec(uri: Seq<char>) -> Option<GitUriView> {
    match uri_captures(uri) {
        Some(c) => Some(git_uri_of(c)),
        None => None,
    }
}

// ---------------------------------------------------------------------------
// Executable checks
// ---------------------------------------------------------------------------

fn alnum(c: char) -> (r: bool)
    ensures
        r == is_alnum(c),
{
    ('A' <= c && c <= 'Z') || ('a' <= c && c <= 'z') || ('0' <= c && c <= '9')
}

fn sep(c: char, wide: bool) -> (r: bool)
    ensures
        r == is_sep(c, wide),
{
    c == '/' || c == '-' || c == '_' || (wide && (c == '.' || c == ':'))
}

fn hex(c: char) -> (r: bool)
    ensures
        r == is_hex(c),
{
    ('A' <= c && c <= 'F') || ('a' <= c && c <= 'f') || ('0' <= c && c <= '9')
}

/// The characters of `v` from `lo` up to `hi`.
fn sub_chars(v: &Vec<char>, lo: usize, hi: usize) -> (r: Vec<char>)
    requires
        lo <= hi <= v@.len(),
    ensures
        r@ == v@.subrange(lo as int, hi as int),
{
    let mut r: Vec<char> = Vec::new();
    let mut i: usize = lo;
    while i < hi
        invariant
            lo <= i <= hi <= v@.len(),
            r@ == v@.subrange(lo as int, i as int),
        decreases hi - i,
    {
        r.push(v[i]);
        assert(v@.subrange(lo as int, i + 1) =~= v@.subrange(lo as int, i as int).push(v@[i as int]));
        i = i + 1;
    }
    r
}

fn segmented(s: &Vec<char>, wide: bool) -> (r: bool)
    ensures
        r == is_segmented(s@, wide),
{
    if s.len() == 0 {
        return false;
    }
    if !alnum(s[0]) || !alnum(s[s.len() - 1]) {
        return false;
    }
    let mut i: usize = 0;
    while i < s.len()
        invariant
            i <= s@.len(),
            s@.len() > 0,
            forall|j: int| 0 <= j < i ==> is_alnum(#[trigger] s@[j]) || is_sep(s@[j], wide),
            forall|j: int| 0 <= j < i && j < s@.len() - 1 ==> is_alnum(#[trigger] s@[j]) || is_alnum(s@[j + 1]),
        decreases s.len() - i,
    {
        let c = s[i];
        if !alnum(c) {
            if !sep(c, wide) {
                return false;
            }
            if i + 1 < s.len() && !alnum(s[i + 1]) {
                return false;
            }
        }
        i = i + 1;
    }
    true
}

fn ref_chars(s: &Vec<char>, from: usize) -> (r: bool)
    requires
        from <= s@.len(),
    ensures
        r == all_ref_chars(s@.skip(from as int)),
{
    let mut i: usize = from;
    while i < s.len()
        invariant
            from <= i <= s@.len(),
            forall|j: int| from <= j < i ==> is_ref_char(#[trigger] s@[j]),
        decreases s.len() - i,
    {
        let c = s[i];
        if !(alnum(c) || c == '-' || c == '_' || c == '/') {
            assert(s@.skip(from as int)[i - from] == c);
            return false;
        }
        i = i + 1;
    }
    assert forall|j: int| 0 <= j < s@.skip(from as int).len() implies is_ref_char(
        #[trigger] s@.skip(from as int)[j],
    ) by {
        assert(s@.skip(from as int)[j] == s@[from + j]);
    }
    true
}

fn all_hex(s: &Vec<char>) -> (r: bool)
    ensures
        r == (s@.len() > 0 && forall|i: int| 0 <= i < s@.len() ==> is_hex(#[trigger] s@[i])),
{
    if s.len() == 0 {
        return false;
    }
    let mut i: usize = 0;
    while i < s.len()
        invariant
            i <= s@.len(),
            forall|j: int| 0 <= j < i ==> is_hex(#[trigger] s@[j]),
        decreases s.len() - i,
    {
        if !hex(s[i]) {
            return false;
        }
        i = i + 1;
    }
    true
}

/// Whether `s` is a reference that the pattern accepts after `@`.
fn reference_ok(s: &Vec<char>) -> (r: bool)
    ensures
        r == is_ref(s@),
{
    let branches = chars_of("branches/");
    let tags = chars_of("tags/");
    if starts_with(s, &branches) && s.len() > branches.len() && ref_chars(s, branches.len()) {
        return true;
    }
    if starts_with(s, &tags) && s.len() > tags.len() && ref_chars(s, tags.len()) {
        return true;
    }
    all_hex(s)
}

/// The first index of `c` in `s`.
fn find_char(s: &Vec<char>, c: char) -> (r: Option<usize>)
    ensures
        r matches Some(i) ==> first_index_of(s@, c, i as int),
        r is None ==> forall|j: int| 0 <= j < s@.len() ==> s@[j] != c,
{
    let mut i: usize = 0;
    while i < s.len()
        invariant
            i <= s@.len(),
            forall|j: int| 0 <= j < i ==> s@[j] != c,
        decreases s.len() - i,
    {
        if s[i] == c {
            return Some(i);
        }
        i = i + 1;
    }
    None
}

/// The first index at which `p` occurs in `s`.
fn find_seq(s: &Vec<char>, p: &Vec<char>) -> (r: Option<usize>)
    ensures
        r matches Some(i) ==> first_occurrence(s@, p@, i as int),
        r is None ==> forall|j: int| !occurs_at(s@, p@, j),
{
    let mut i: usize = 0;
    while i < s.len()
        invariant
            i <= s@.len(),
            forall|j: int| 0 <= j < i ==> !occurs_at(s@, p@, j),
        decreases s.len() - i,
    {
        if crate::text::matches_at(s, p, i) {
            return Some(i);
        }
        i = i + 1;
    }
    if crate::text::matches_at(s, p, i) {
        return Some(i);
    }
    assert forall|j: int| !occurs_at(s@, p@, j) by {
        if 0 <= j && j + p@.len() <= s@.len() {
            assert(j <= i);
        }
    }
    None
}

proof fn lemma_first_index_unique(s: Seq<char>, c: char, i: int, k: int)
    requires
        first_index_of(s, c, i),
        first_index_of(s, c, k),
    ensures
        i == k,
{
}

proof fn lemma_first_occurrence_unique(s: Seq<char>, p: Seq<char>, i: int, k: int)
    requires
        first_occurrence(s, p, i),
        first_occurrence(s, p, k),
    ensures
        i == k,
{
}

/// The repository and path parts of a location, as `split_location` gives them.
fn location_parts(loc: &Vec<char>) -> (r: Option<(Vec<char>, Vec<char>)>)
    ensures
        match r {
            Some((repo, path)) => split_location(loc@) == Some((repo@, path@)),
            None => split_location(loc@) is None,
        },
{
    if segmented(loc, true) {
        return Some((sub_chars(loc, 0, loc.len()), Vec::new()));
    }
    let dslash = chars_of("//");
    proof {
        reveal_strlit("//");
    }
    assert(dslash@.len() == 2);
    match find_seq(loc, &dslash) {
        None => None,
        Some(j) => {
            assert(occurs_at(loc@, dslash@, j as int));
            assert(j + 2 <= loc@.len());
            assert(loc@.len() == loc.len());
            proof {
                let jj = choose|j: int| first_occurrence(loc@, "//"@, j);
                lemma_first_occurrence_unique(loc@, "//"@, j as int, jj);
            }
            let repo = sub_chars(loc, 0, j);
            let path = sub_chars(loc, j + 2, loc.len());
            assert(repo@ =~= loc@.take(j as int));
            assert(path@ =~= loc@.skip(j + 2));
            if segmented(&repo, true) && segmented(&path, false) {
                Some((repo, path))
            } else {
                None
            }
        },
    }
}

/// The captures of the pattern on `uri`.
fn captures(u: &Vec<char>) -> (r: Option<(Vec<char>, Vec<char>, Vec<char>, Vec<char>)>)
    ensures
        match r {
            Some((p, repo, path, rf)) => uri_captures(u@) == Some(
                UriCaptures { protocol: p@, repo: repo@, pathspec: path@, reference: rf@ },
            ),
            None => uri_captures(u@) is None,
        },
{
    proof {
        reveal_strlit("http://");
        reveal_strlit("https://");
        reveal_strlit("http");
        reveal_strlit("https");
    }
    let http = chars_of("http://");
    let https = chars_of("https://");
    let (protocol, start) = if starts_with(u, &http) {
        (chars_of("http"), 7usize)
    } else if starts_with(u, &https) {
        (chars_of("https"), 8usize)
    } else {
        return None;
    };
    assert(scheme_of(u@) == Some(protocol@));
    let body = sub_chars(u, start, u.len());
    assert(body@ =~= u@.skip(protocol@.len() + 3int));
    let (loc, reference) = match find_char(&body, '@') {
        Some(i) => {
            proof {
                let ii = choose|i: int| first_index_of(body@, '@', i);
                lemma_first_index_unique(body@, '@', i as int, ii);
            }
            let l = sub_chars(&body, 0, i);
            let rf = sub_chars(&body, i + 1, body.len());
            assert(l@ =~= body@.take(i as int));
            assert(rf@ =~= body@.skip(i + 1));
            (l, Some(rf))
        },
        None => (body, None),
    };
    match location_parts(&loc) {
        None => None,
        Some((repo, path)) => match reference {
            None => Some((protocol, repo, path, Vec::new())),
            Some(rf) => {
                if reference_ok(&rf) {
                    Some((protocol, repo, path, rf))
                } else {
                    None
                }
            },
        },
    }
}

/// Parses a repository address. `None` where the address does not match the
/// pattern; else its protocol, repository, path, and the reference with its kind.
pub fn parse_git_uri(uri: &str) -> (r: Option<GitUri>)
    ensures
        match r {
            Some(g) => parse_git_uri_spec(uri@) == Some(g@),
            None => parse_git_uri_spec(uri@) is None,
        },
{
    let u = chars_of(uri);
    match captures(&u) {
        None => None,
        Some((p, repo, path, rf)) => {
            let branches = chars_of("branches/");
            let tags = chars_of("tags/");
            let (reference, kind) = if starts_with(&rf, &branches) {
                proof {
                    reveal_strlit("branches/");
                }
                let origin = chars_of("origin/");
                (replace_all_chars(&rf, &branches, &origin), RefKind::Branch)
            } else if starts_with(&rf, &tags) {
                (rf, RefKind::Tag)
            } else if rf.len() == 0 {
                (chars_of("HEAD"), RefKind::Branch)
            } else {
                (rf, RefKind::Commit)
            };
            Some(
                GitUri {
                    protocol: string_of_chars(&p),
                    repo: string_of_chars(&repo),
                    pathspec: string_of_chars(&path),
                    reference: string_of_chars(&reference),
                    ref_kind: kind,
                },
            )
        },
    }
}

// ---------------------------------------------------------------------------
// The accepted language
// ---------------------------------------------------------------------------

/// What may stand between the repository and the reference: nothing, a
/// path, or `//` and a path (`(?:(?://)?PATHSPEC)?`).
pub open spec fn is_location_tail(mid: Seq<char>) -> bool {
    ||| mid.len() == 0
    ||| is_pathspec(mid)
    ||| has_prefix(mid, "//"@) && is_pathspec(mid.skip(2))
}

/// What may end the address: nothing, or `@` and a reference (`(?:@REF)?`).
pub open spec fn is_ref_tail(t: Seq<char>) -> bool {
    t.len() == 0 || (t[0] == '@' && is_ref(t.skip(1)))
}

/// `uri` is in the language of the whole pattern.
pub open spec fn in_pattern_language(uri: Seq<char>) -> bool {
    exists|proto: Seq<char>, repo: Seq<char>, mid: Seq<char>, tail: Seq<char>|
        {
            &&& proto == "http"@ || proto == "https"@
            &&& is_repo_part(repo)
            &&& is_location_tail(mid)
            &&& is_ref_tail(tail)
            &&& uri == proto + "://"@ + repo + mid + tail
        }
}

/// What a captured path contributes to the address: nothing, or `//` and the path.
pub open spec fn path_text(pathspec: Seq<char>) -> Seq<char> {
    if pathspec.len() == 0 {
        Seq::<char>::empty()
    } else {
        "//"@ + pathspec
    }
}

/// What a captured reference contributes to the address: nothing, or `@` and the reference.
pub open spec fn ref_text(reference: Seq<char>) -> Seq<char> {
    if reference.len() == 0 {
        Seq::<char>::empty()
    } else {
        "@"@ + reference
    }
}

/// The address that the captures spell out again.
pub open spec fn reassemble(c: UriCaptures) -> Seq<char> {
    c.protocol + "://"@ + c.repo + path_text(c.pathspec) + ref_text(c.reference)
}

proof fn lemma_no_at_in_segmented(s: Seq<char>, wide: bool)
    requires
        is_segmented(s, wide),
    ensures
        forall|i: int| 0 <= i < s.len() ==> s[i] != '@',
{
    assert forall|i: int| 0 <= i < s.len() implies s[i] != '@' by {
        assert(is_alnum(s[i]) || is_sep(s[i], wide));
    }
}

proof fn lemma_merge_segmented(a: Seq<char>, b: Seq<char>)
    requires
        is_repo_part(a),
        is_pathspec(b),
    ensures
        is_repo_part(a + b),
{
    let s = a + b;
    assert forall|i: int| 0 <= i < s.len() implies is_alnum(#[trigger] s[i]) || is_sep(s[i], true) by {
        if i < a.len() {
            assert(s[i] == a[i]);
        } else {
            assert(s[i] == b[i - a.len()]);
            assert(is_alnum(b[i - a.len()]) || is_sep(b[i - a.len()], false));
        }
    }
    assert forall|i: int| 0 <= i < s.len() - 1 implies is_alnum(#[trigger] s[i]) || is_alnum(s[i + 1]) by {
        if i < a.len() - 1 {
            assert(s[i] == a[i] && s[i + 1] == a[i + 1]);
            assert(is_alnum(a[i]) || is_alnum(a[i + 1]));
        } else if i == a.len() - 1 {
            assert(s[i] == a.last());
        } else {
            assert(s[i] == b[i - a.len()] && s[i + 1] == b[i - a.len() + 1]);
            assert(is_alnum(b[i - a.len()]) || is_alnum(b[i - a.len() + 1]));
        }
    }
    assert(s[0] == a[0]);
    assert(s.last() == b.last());
}

proof fn lemma_is_ref_nonempty(r: Seq<char>)
    requires
        is_ref(r),
    ensures
        r.len() > 0,
{
}

proof fn reveal_pattern_literals()
    ensures
        "http://"@ == seq!['h', 't', 't', 'p', ':', '/', '/'],
        "https://"@ == seq!['h', 't', 't', 'p', 's', ':', '/', '/'],
        "http"@ == seq!['h', 't', 't', 'p'],
        "https"@ == seq!['h', 't', 't', 'p', 's'],
        "://"@ == seq![':', '/', '/'],
        "//"@ == seq!['/', '/'],
        "@"@ == seq!['@'],
{
    reveal_strlit("http://");
    reveal_strlit("https://");
    reveal_strlit("http");
    reveal_strlit("https");
    reveal_strlit("://");
    reveal_strlit("//");
    reveal_strlit("@");
}

proof fn lemma_location_reassemble(loc: Seq<char>)
    requires
        split_location(loc) is Some,
    ensures
        split_location(loc) matches Some((repo, pathspec)) ==> loc == repo + path_text(pathspec)
            && is_repo_part(repo) && is_location_tail(path_text(pathspec)),
{
    reveal_pattern_literals();
    let (repo, pathspec) = split_location(loc)->0;
    let mid = path_text(pathspec);
    if is_repo_part(loc) {
        assert(loc =~= repo + mid);
    } else {
        let j = choose|j: int| first_occurrence(loc, "//"@, j);
        assert(loc.subrange(j, j + 2) =~= "//"@);
        assert(loc =~= loc.take(j) + loc.subrange(j, j + 2) + loc.skip(j + 2));
        assert(loc =~= repo + mid);
        assert(has_prefix(mid, "//"@)) by {
            assert(mid.take(2) =~= "//"@);
        }
        assert(mid.skip(2) =~= pathspec);
    }
}

proof fn lemma_ref_reassemble(body: Seq<char>)
    requires
        split_at_ref(body).1 matches Some(r) ==> is_ref(r),
    ensures
        body == split_at_ref(body).0 + ref_text(
            match split_at_ref(body).1 {
                Some(r) => r,
                None => Seq::<char>::empty(),
            },
        ),
        is_ref_tail(
            ref_text(
                match split_at_ref(body).1 {
                    Some(r) => r,
                    None => Seq::<char>::empty(),
                },
            ),
        ),
{
    reveal_pattern_literals();
    let (loc, reference) = split_at_ref(body);
    match reference {
        None => {
            assert(body =~= loc + ref_text(Seq::<char>::empty()));
        },
        Some(r) => {
            lemma_is_ref_nonempty(r);
            let i = choose|i: int| first_index_of(body, '@', i);
            assert(body =~= body.take(i) + seq![body[i]] + body.skip(i + 1));
            assert(body =~= loc + ref_text(r));
            assert(ref_text(r).skip(1) =~= r);
        },
    }
}

/// Whatever the captures are, they spell the address out again.
pub proof fn lemma_captures_reassemble(uri: Seq<char>)
    requires
        uri_captures(uri) is Some,
    ensures
        reassemble(uri_captures(uri)->0) == uri,
{
    reveal_pattern_literals();
    let c = uri_captures(uri)->0;
    let protocol = scheme_of(uri)->0;
    let n = protocol.len() + 3int;
    let body = uri.skip(n);
    let loc = split_at_ref(body).0;
    lemma_ref_reassemble(body);
    lemma_location_reassemble(loc);
    assert(body == loc + ref_text(c.reference));
    assert(loc == c.repo + path_text(c.pathspec));
    assert(uri.take(n) =~= protocol + "://"@);
    assert(uri =~= uri.take(n) + body);
    assert(reassemble(c) =~= uri);
}

/// An address that parses is in the language of the pattern.
pub proof fn lemma_captures_in_language(uri: Seq<char>)
    requires
        uri_captures(uri) is Some,
    ensures
        in_pattern_language(uri),
{
    reveal_pattern_literals();
    lemma_captures_reassemble(uri);
    let c = uri_captures(uri)->0;
    let body = uri.skip(c.protocol.len() + 3int);
    let loc = split_at_ref(body).0;
    lemma_ref_reassemble(body);
    lemma_location_reassemble(loc);
    let mid = path_text(c.pathspec);
    let tail = ref_text(c.reference);
    assert(is_repo_part(c.repo));
    assert(is_location_tail(mid));
    assert(is_ref_tail(tail));
    assert(uri == c.protocol + "://"@ + c.repo + mid + tail);
}

/// Every address in the language of the pattern parses.
pub proof fn lemma_pattern_language_parses(uri: Seq<char>)
    requires
        in_pattern_language(uri),
    ensures
        uri_captures(uri) is Some,
{
    reveal_pattern_literals();
    let (proto, repo, mid, tail) = choose|
        proto: Seq<char>,
        repo: Seq<char>,
        mid: Seq<char>,
        tail: Seq<char>,
    |
        {
            &&& proto == "http"@ || proto == "https"@
            &&& is_repo_part(repo)
            &&& is_location_tail(mid)
            &&& is_ref_tail(tail)
            &&& uri == proto + "://"@ + repo + mid + tail
        };
    // The scheme.
    let n = proto.len() + 3int;
    assert(uri.take(n) =~= proto + "://"@);
    if proto == "http"@ {
        assert(uri.take(7) =~= "http://"@);
        assert(has_prefix(uri, "http://"@));
    } else {
        assert(uri.take(8) =~= "https://"@);
        assert(uri[4] == 's');
        assert(!has_prefix(uri, "http://"@)) by {
            if has_prefix(uri, "http://"@) {
                assert(uri.take(7)[4] == uri[4]);
            }
        }
    }
    assert(scheme_of(uri) == Some(proto));
    let body = uri.skip(n);
    let loc = repo + mid;
    assert(body =~= loc + tail);
    split_loc_and_ref(repo, mid, tail);
    assert(split_at_ref(body).0 == loc);
    split_location_of(repo, mid);
}

proof fn split_loc_and_ref(repo: Seq<char>, mid: Seq<char>, tail: Seq<char>)
    requires
        is_repo_part(repo),
        is_location_tail(mid),
        is_ref_tail(tail),
    ensures
        split_at_ref(repo + mid + tail).0 == repo + mid,
        tail.len() == 0 ==> split_at_ref(repo + mid + tail).1 is None,
        tail.len() > 0 ==> split_at_ref(repo + mid + tail).1 == Some(tail.skip(1)),
{
    reveal_pattern_literals();
    let loc = repo + mid;
    let body = loc + tail;
    lemma_no_at_in_segmented(repo, true);
    if is_pathspec(mid) {
        lemma_no_at_in_segmented(mid, false);
    } else if mid.len() > 0 {
        lemma_no_at_in_segmented(mid.skip(2), false);
        assert forall|i: int| 0 <= i < mid.len() implies mid[i] != '@' by {
            if i >= 2 {
                assert(mid[i] == mid.skip(2)[i - 2]);
            } else {
                assert(mid.take(2)[i] == mid[i]);
            }
        }
    }
    assert forall|i: int| 0 <= i < loc.len() implies loc[i] != '@' by {
        if i < repo.len() {
            assert(loc[i] == repo[i]);
        } else {
            assert(loc[i] == mid[i - repo.len()]);
        }
    }
    if tail.len() == 0 {
        assert(body =~= loc);
        assert(!exists|i: int| first_index_of(body, '@', i));
    } else {
        let k = loc.len() as int;
        assert(body[k] == '@');
        assert(first_index_of(body, '@', k));
        let i = choose|i: int| first_index_of(body, '@', i);
        lemma_first_index_unique(body, '@', i, k);
        assert(body.take(k) =~= loc);
        assert(body.skip(k + 1) =~= tail.skip(1));
    }
}

proof fn split_location_of(repo: Seq<char>, mid: Seq<char>)
    requires
        is_repo_part(repo),
        is_location_tail(mid),
    ensures
        split_location(repo + mid) is Some,
{
    reveal_pattern_literals();
    let loc = repo + mid;
    if mid.len() == 0 {
        assert(loc =~= repo);
    } else if is_pathspec(mid) {
        lemma_merge_segmented(repo, mid);
    } else {
        let k = repo.len() as int;
        assert(mid.take(2) =~= "//"@);
        assert(loc.subrange(k, k + 2) =~= mid.take(2));
        assert(occurs_at(loc, "//"@, k));
        assert(!is_repo_part(loc)) by {
            assert(loc[k] == mid[0] && loc[k + 1] == mid[1]);
            assert(mid.take(2)[0] == mid[0] && mid.take(2)[1] == mid[1]);
            assert(!is_alnum(loc[k]) && !is_alnum(loc[k + 1]));
        }
        assert forall|j: int| 0 <= j < k implies !occurs_at(loc, "//"@, j) by {
            if occurs_at(loc, "//"@, j) {
                assert(loc.subrange(j, j + 2)[0] == loc[j]);
                assert(loc.subrange(j, j + 2)[1] == loc[j + 1]);
                if j + 1 < k {
                    assert(loc[j] == repo[j] && loc[j + 1] == repo[j + 1]);
                    assert(is_alnum(repo[j]) || is_alnum(repo[j + 1]));
                } else {
                    assert(loc[j] == repo.last());
                }
            }
        }
        assert(first_occurrence(loc, "//"@, k));
        let j = choose|j: int| first_occurrence(loc, "//"@, j);
        lemma_first_occurrence_unique(loc, "//"@, j, k);
        assert(loc.take(k) =~= repo);
        assert(loc.skip(k + 2) =~= mid.skip(2));
    }
}

/// An address parses exactly when it is in the language of the pattern.
pub proof fn lemma_parse_accepts_exactly_the_pattern(uri: Seq<char>)
    ensures
        parse_git_uri_spec(uri) is Some <==> in_pattern_language(uri),
{
    if uri_captures(uri) is Some {
        lemma_captures_in_language(uri);
    }
    if in_pattern_language(uri) {
        lemma_pattern_language_parses(uri);
    }
}

} // verus!
