//! The repository endpoints: the map of tracked repositories with their
//! notebooks, a single repository, the build and track logs, and the backup
//! of the logs and the digest while a build runs.
use vstd::prelude::*;

use crate::dto::{
    opt_flag, opt_num, opt_text, text_or_default, Notebook, NotebookData, NotebookDataView,
    NotebookId, NotebookIdView, NotebookView, Repo, RepoView, repo_views,
};

verus! {

// ---------------------------------------------------------------------------
// The repository map
// ---------------------------------------------------------------------------

/// One row of the join of the tracked repositories with their notebooks.
pub struct RepoMapRow {
    pub repo_id: Option<i32>,
    pub uri: Option<String>,
    pub secret_namespace: Option<String>,
    pub build_log: Option<String>,
    pub track_log: Option<String>,
    pub digest: Option<String>,
    pub private_repo: Option<bool>,
    pub dockerfile: Option<String>,
    pub repo_credential_secret: Option<String>,
    pub updating: Option<bool>,
    pub id: Option<i32>,
    pub name: Option<String>,
    pub namespace: Option<String>,
    pub image: Option<String>,
    pub registry_credential_secret: Option<String>,
    pub private_registry: Option<bool>,
    pub registry: Option<String>,
    pub syncing: Option<bool>,
    pub auto_sync: Option<bool>,
}

/// The repository that a row belongs to.
pub open spec fn row_repo_id(r: RepoMapRow) -> i32 {
    opt_num(r.repo_id)
}

/// The notebook that a row describes; absent values become their defaults.
pub open spec fn map_row_notebook(r: RepoMapRow) -> NotebookView {
    NotebookView {
        id: opt_num(r.id),
        nb_id: NotebookIdView { name: opt_text(r.name), namespace: opt_text(r.namespace) },
        nb_data: NotebookDataView {
            image: opt_text(r.image),
            registry_credential_secret: opt_text(r.registry_credential_secret),
            private_registry: opt_flag(r.private_registry),
            registry: opt_text(r.registry),
            repo_id: opt_num(r.repo_id),
            repo_uri: opt_text(r.uri),
            private_repo: opt_flag(r.private_repo),
            repo_credential_secret: opt_text(r.repo_credential_secret),
            auto_sync: opt_flag(r.auto_sync),
            syncing: opt_flag(r.syncing),
            dockerfile: opt_text(r.dockerfile),
        },
    }
}

/// The repository that a row describes, with the given notebooks.
pub open spec fn map_row_repo(r: RepoMapRow, notebooks: Seq<NotebookView>) -> RepoView {
    RepoView {
        id: opt_num(r.repo_id),
        uri: opt_text(r.uri),
        secret_namespace: opt_text(r.secret_namespace),
        private_repo: opt_flag(r.private_repo),
        repo_credential_secret: opt_text(r.repo_credential_secret),
        updating: opt_flag(r.updating),
        build_log: opt_text(r.build_log),
        track_log: opt_text(r.track_log),
        digest: opt_text(r.digest),
        dockerfile: opt_text(r.dockerfile),
        notebooks,
    }
}

/// Every row names its notebook and the notebook's namespace.
pub open spec fn rows_named(rows: Seq<RepoMapRow>) -> bool {
    forall|i: int| 0 <= i < rows.len() ==> (#[trigger] rows[i]).name is Some && rows[i].namespace is Some
}

/// The notebooks of the rows that belong to repository `id`, in row order.
pub open spec fn notebooks_of(rows: Seq<RepoMapRow>, id: i32) -> Seq<NotebookView> {
    rows.filter(|r: RepoMapRow| row_repo_id(r) == id).map_values(|r: RepoMapRow| map_row_notebook(r))
}

/// Row `f` is the first row of repository `id`.
pub open spec fn first_row_of(rows: Seq<RepoMapRow>, id: i32, f: int) -> bool {
    &&& 0 <= f < rows.len()
    &&& row_repo_id(rows[f]) == id
    &&& forall|g: int| 0 <= g < f ==> row_repo_id(#[trigger] rows[g]) != id
}

/// Some entry of `repos` is the repository `id`.
pub open spec fn has_repo(repos: Seq<RepoView>, id: i32) -> bool {
    exists|j: int| 0 <= j < repos.len() && (#[trigger] repos[j]).id == id
}

/// `repo` is what the rows say of its repository: its fields as the first
/// row of that repository gives them, and the notebooks of all its rows, in
/// row order.
pub open spec fn repo_from_rows(rows: Seq<RepoMapRow>, repo: RepoView) -> bool {
    exists|f: int|
        first_row_of(rows, repo.id, f) && repo == map_row_repo(#[trigger] rows[f], notebooks_of(rows, repo.id))
}

/// `repos` holds one entry per repository that occurs in `rows`, each as the
/// rows describe it.
pub open spec fn is_repo_map(rows: Seq<RepoMapRow>, repos: Seq<RepoView>) -> bool {
    &&& forall|i: int, j: int|
        0 <= i < j < repos.len() ==> (#[trigger] repos[i]).id != (#[trigger] repos[j]).id
    &&& forall|k: int| 0 <= k < rows.len() ==> has_repo(repos, row_repo_id(#[trigger] rows[k]))
    &&& forall|j: int| 0 <= j < repos.len() ==> repo_from_rows(rows, #[trigger] repos[j])
}

fn num_or_default(o: Option<i32>) -> (r: i32)
    ensures
        r == opt_num(o),
{
    match o {
        Some(n) => n,
        None => 0,
    }
}

fn flag_or_default(o: Option<bool>) -> (r: bool)
    ensures
        r == opt_flag(o),
{
    match o {
        Some(b) => b,
        None => false,
    }
}

/// The notebook holds its own row's columns: its id, name and namespace,
/// its image, its registry and whether that registry is private, the
/// registry's secret, whether it syncs automatically and whether it is
/// syncing, with each absent column as its default; and its repository's
/// id, address, privacy, credentials' secret and Dockerfile.
pub open spec fn carries_row(n: NotebookView, r: RepoMapRow) -> bool {
    &&& n.id == opt_num(r.id)
    &&& n.nb_id.name == opt_text(r.name)
    &&& n.nb_id.namespace == opt_text(r.namespace)
    &&& n.nb_data.image == opt_text(r.image)
    &&& n.nb_data.registry == opt_text(r.registry)
    &&& n.nb_data.private_registry == opt_flag(r.private_registry)
    &&& n.nb_data.registry_credential_secret == opt_text(r.registry_credential_secret)
    &&& n.nb_data.auto_sync == opt_flag(r.auto_sync)
    &&& n.nb_data.syncing == opt_flag(r.syncing)
    &&& n.nb_data.repo_id == opt_num(r.repo_id)
    &&& n.nb_data.repo_uri == opt_text(r.uri)
    &&& n.nb_data.private_repo == opt_flag(r.private_repo)
    &&& n.nb_data.repo_credential_secret == opt_text(r.repo_credential_secret)
    &&& n.nb_data.dockerfile == opt_text(r.dockerfile)
}

/// The notebook that a row describes.
pub fn notebook_of_map_row(r: &RepoMapRow) -> (nb: Notebook)
    requires
        r.name is Some,
        r.namespace is Some,
    ensures
        nb@ == map_row_notebook(*r),
        carries_row(nb@, *r),
{
    Notebook {
        id: num_or_default(r.id),
        nb_id: NotebookId { name: text_or_default(&r.name), namespace: text_or_default(&r.namespace) },
        nb_data: NotebookData {
            image: text_or_default(&r.image),
            registry_credential_secret: text_or_default(&r.registry_credential_secret),
            private_registry: flag_or_default(r.private_registry),
            registry: text_or_default(&r.registry),
            repo_id: num_or_default(r.repo_id),
            repo_uri: text_or_default(&r.uri),
            private_repo: flag_or_default(r.private_repo),
            repo_credential_secret: text_or_default(&r.repo_credential_secret),
            auto_sync: flag_or_default(r.auto_sync),
            syncing: flag_or_default(r.syncing),
            dockerfile: text_or_default(&r.dockerfile),
        },
    }
}

proof fn lemma_notebooks_of_push(rows: Seq<RepoMapRow>, r: RepoMapRow, id: i32)
    ensures
        notebooks_of(rows.push(r), id) == if row_repo_id(r) == id {
            notebooks_of(rows, id).push(map_row_notebook(r))
        } else {
            notebooks_of(rows, id)
        },
{
    let pred = |x: RepoMapRow| row_repo_id(x) == id;
    let f = |x: RepoMapRow| map_row_notebook(x);
    rows.lemma_filter_push(r, pred);
    if pred(r) {
        rows.filter(pred).lemma_push_map_commute(f, r);
    }
}

proof fn lemma_notebooks_of_absent(rows: Seq<RepoMapRow>, id: i32)
    requires
        forall|g: int| 0 <= g < rows.len() ==> row_repo_id(#[trigger] rows[g]) != id,
    ensures
        notebooks_of(rows, id) == Seq::<NotebookView>::empty(),
    decreases rows.len(),
{
    if rows.len() > 0 {
        let prev = rows.drop_last();
        assert forall|g: int| 0 <= g < prev.len() implies row_repo_id(#[trigger] prev[g]) != id by {
            assert(prev[g] == rows[g]);
        }
        lemma_notebooks_of_absent(prev, id);
        assert(rows == prev.push(rows.last()));
        lemma_notebooks_of_push(prev, rows.last(), id);
    } else {
        assert(rows.filter(|r: RepoMapRow| row_repo_id(r) == id) =~= Seq::<RepoMapRow>::empty());
        assert(notebooks_of(rows, id) =~= Seq::<NotebookView>::empty());
    }
}

/// The index of the entry for repository `id`, if there is one.
fn find_repo(repos: &Vec<Repo>, id: i32) -> (r: Option<usize>)
    ensures
        r matches Some(j) ==> j < repos@.len() && repos@[j as int].id == id,
        r is None ==> forall|j: int| 0 <= j < repos@.len() ==> (#[trigger] repos@[j]).id != id,
{
    let mut j: usize = 0;
    while j < repos.len()
        invariant
            j <= repos@.len(),
            forall|k: int| 0 <= k < j ==> (#[trigger] repos@[k]).id != id,
        decreases repos.len() - j,
    {
        if repos[j].id == id {
            return Some(j);
        }
        j = j + 1;
    }
    None
}

/// The tracked repositories with their notebooks, grouped from the rows of
/// the join: one entry per repository, whose fields come from its first row
/// and whose notebooks are those of all its rows, in row order.
pub fn get_map(rows: &Vec<RepoMapRow>) -> (repos: Vec<Repo>)
    requires
        rows_named(rows@),
    ensures
        is_repo_map(rows@, repo_views(repos@)),
        rows_agree(rows@) ==> forall|j: int|
            0 <= j < repos@.len() ==> carries_repository(#[trigger] repos@[j]@),
        forall|j: int, k: int|
            0 <= j < repos@.len() && 0 <= k < repos@[j].notebooks@.len() ==> from_own_row(
                rows@,
                repos@[j].id,
                #[trigger] repos@[j].notebooks@[k]@,
            ),
        forall|j: int| 0 <= j < repos@.len() ==> carries_first_row(rows@, #[trigger] repos@[j]@),
{
    let mut repos: Vec<Repo> = Vec::new();
    let ghost mut firsts: Seq<int> = Seq::empty();
    let mut i: usize = 0;
    while i < rows.len()
        invariant
            i <= rows@.len(),
            rows_named(rows@),
            firsts.len() == repos@.len(),
            forall|a: int, b: int|
                0 <= a < b < repos@.len() ==> (#[trigger] repos@[a]).id != (#[trigger] repos@[b]).id,
            forall|k: int| 0 <= k < i ==> has_repo(repo_views(repos@), row_repo_id(#[trigger] rows@[k])),
            forall|j: int|
                0 <= j < repos@.len() ==> {
                    &&& first_row_of(rows@.take(i as int), (#[trigger] repos@[j]).id, firsts[j])
                    &&& repos@[j]@ == map_row_repo(
                        rows@[firsts[j]],
                        notebooks_of(rows@.take(i as int), repos@[j].id),
                    )
                },
        decreases rows.len() - i,
    {
        let ghost prefix = rows@.take(i as int);
        let ghost next = rows@.take(i + 1);
        assert(next == prefix.push(rows@[i as int]));
        let row = &rows[i];
        let nb = notebook_of_map_row(row);
        let id = nb.nb_data.repo_id;
        let ghost old_repos = repos@;
        let ghost old_views = repo_views(repos@);
        match find_repo(&repos, id) {
            Some(j) => {
                repos[j].notebooks.push(nb);
                proof {
                    let views = repo_views(repos@);
                    assert forall|x: int| 0 <= x < repos@.len() implies {
                        &&& first_row_of(next, (#[trigger] repos@[x]).id, firsts[x])
                        &&& repos@[x]@ == map_row_repo(rows@[firsts[x]], notebooks_of(next, repos@[x].id))
                    } by {
                        lemma_notebooks_of_push(prefix, rows@[i as int], repos@[x].id);
                        assert(first_row_of(prefix, old_repos[x].id, firsts[x]));
                        assert(next[firsts[x]] == prefix[firsts[x]]);
                        assert forall|g: int| 0 <= g < firsts[x] implies row_repo_id(#[trigger] next[g])
                            != repos@[x].id by {
                            assert(next[g] == prefix[g]);
                        }
                        if x == j {
                            assert(repos@[x].notebooks@ == old_repos[x].notebooks@.push(nb));
                            assert(repos@[x]@.notebooks =~= old_repos[x]@.notebooks.push(nb@));
                        } else {
                            assert(repos@[x] == old_repos[x]);
                        }
                    }
                    assert forall|k: int| 0 <= k < i + 1 implies has_repo(views, row_repo_id(#[trigger] rows@[k])) by {
                        if k == i {
                            assert(views[j as int].id == row_repo_id(rows@[k]));
                        } else {
                            assert(has_repo(old_views, row_repo_id(rows@[k])));
                            let y = choose|y: int| 0 <= y < old_views.len() && (#[trigger] old_views[y]).id == row_repo_id(rows@[k]);
                            assert(views[y].id == old_views[y].id);
                        }
                    }
                }
            },
            None => {
                let notebooks = vec![nb];
                let repo = Repo {
                    id,
                    uri: text_or_default(&row.uri),
                    secret_namespace: text_or_default(&row.secret_namespace),
                    private_repo: flag_or_default(row.private_repo),
                    repo_credential_secret: text_or_default(&row.repo_credential_secret),
                    updating: flag_or_default(row.updating),
                    build_log: text_or_default(&row.build_log),
                    track_log: text_or_default(&row.track_log),
                    digest: text_or_default(&row.digest),
                    dockerfile: text_or_default(&row.dockerfile),
                    notebooks,
                };
                repos.push(repo);
                proof {
                    let views = repo_views(repos@);
                    // No earlier row belongs to this repository.
                    assert forall|g: int| 0 <= g < prefix.len() implies row_repo_id(#[trigger] prefix[g])
                        != id by {
                        assert(prefix[g] == rows@[g]);
                        assert(has_repo(old_views, row_repo_id(rows@[g])));
                        let y = choose|y: int| 0 <= y < old_views.len() && (#[trigger] old_views[y]).id == row_repo_id(rows@[g]);
                        assert(old_views[y] == old_repos[y]@);
                    }
                    lemma_notebooks_of_absent(prefix, id);
                    firsts = firsts.push(i as int);
                    assert forall|x: int| 0 <= x < repos@.len() implies {
                        &&& first_row_of(next, (#[trigger] repos@[x]).id, firsts[x])
                        &&& repos@[x]@ == map_row_repo(rows@[firsts[x]], notebooks_of(next, repos@[x].id))
                    } by {
                        lemma_notebooks_of_push(prefix, rows@[i as int], repos@[x].id);
                        if x == old_repos.len() {
                            assert(next[i as int] == rows@[i as int]);
                            assert forall|g: int| 0 <= g < i implies row_repo_id(#[trigger] next[g])
                                != id by {
                                assert(next[g] == prefix[g]);
                            }
                            assert(repos@[x].notebooks@ =~= seq![nb]);
                            assert(repos@[x]@.notebooks =~= Seq::<NotebookView>::empty().push(nb@));
                        } else {
                            assert(repos@[x] == old_repos[x]);
                            assert(first_row_of(prefix, old_repos[x].id, firsts[x]));
                            assert(next[firsts[x]] == prefix[firsts[x]]);
                            assert forall|g: int| 0 <= g < firsts[x] implies row_repo_id(
                                #[trigger] next[g],
                            ) != repos@[x].id by {
                                assert(next[g] == prefix[g]);
                            }
                        }
                    }
                    assert forall|a: int, b: int|
                        0 <= a < b < repos@.len() implies (#[trigger] repos@[a]).id != (
                        #[trigger] repos@[b]).id by {
                        if b == old_repos.len() {
                            assert(repos@[a] == old_repos[a]);
                        } else {
                            assert(repos@[a] == old_repos[a] && repos@[b] == old_repos[b]);
                        }
                    }
                    assert forall|k: int| 0 <= k < i + 1 implies has_repo(views, row_repo_id(#[trigger] rows@[k])) by {
                        if k == i {
                            assert(views[old_repos.len() as int].id == row_repo_id(rows@[k]));
                        } else {
                            assert(has_repo(old_views, row_repo_id(rows@[k])));
                            let y = choose|y: int| 0 <= y < old_views.len() && (#[trigger] old_views[y]).id == row_repo_id(rows@[k]);
                            assert(views[y] == old_views[y]);
                        }
                    }
                }
            },
        }
        i = i + 1;
    }
    proof {
        let views = repo_views(repos@);
        assert(rows@.take(rows@.len() as int) =~= rows@);
        assert forall|j: int| 0 <= j < views.len() implies repo_from_rows(rows@, #[trigger] views[j]) by {
            assert(views[j] == repos@[j]@);
            assert(first_row_of(rows@, views[j].id, firsts[j]));
        }
        assert forall|a: int, b: int| 0 <= a < b < views.len() implies (#[trigger] views[a]).id != (
        #[trigger] views[b]).id by {
            assert(views[a] == repos@[a]@ && views[b] == repos@[b]@);
        }
        lemma_map_notebooks_carry_their_rows(rows@, views);
        lemma_map_entries_carry_their_first_row(rows@, views);
        assert forall|j: int| 0 <= j < repos@.len() implies carries_first_row(rows@, #[trigger] repos@[j]@) by {
            assert(views[j] == repos@[j]@);
        }
        assert forall|j: int, k: int|
            0 <= j < repos@.len() && 0 <= k < repos@[j].notebooks@.len() implies from_own_row(
                rows@,
                repos@[j].id,
                #[trigger] repos@[j].notebooks@[k]@,
            ) by {
            assert(views[j] == repos@[j]@);
            assert(views[j].notebooks[k] == repos@[j].notebooks@[k]@);
        }
        if rows_agree(rows@) {
            lemma_map_notebooks_carry_their_repository(rows@, views);
            assert forall|j: int| 0 <= j < repos@.len() implies carries_repository(
                #[trigger] repos@[j]@,
            ) by {
                assert(views[j] == repos@[j]@);
            }
        }
    }
    repos
}

// ---------------------------------------------------------------------------
// A single repository
// ---------------------------------------------------------------------------

/// The row of one repository.
pub struct RepoRow {
    pub id: i32,
    pub uri: Option<String>,
    pub secret_namespace: Option<String>,
    pub build_log: Option<String>,
    pub track_log: Option<String>,
    pub dockerfile: String,
    pub digest: Option<String>,
    pub private_repo: Option<bool>,
    pub repo_credential_secret: Option<String>,
    pub updating: Option<bool>,
}

/// The repository that its row describes, without notebooks; absent values
/// become their defaults.
pub open spec fn repo_of_row(r: RepoRow) -> RepoView {
    RepoView {
        id: r.id,
        uri: opt_text(r.uri),
        secret_namespace: opt_text(r.secret_namespace),
        private_repo: opt_flag(r.private_repo),
        repo_credential_secret: opt_text(r.repo_credential_secret),
        updating: opt_flag(r.updating),
        build_log: opt_text(r.build_log),
        track_log: opt_text(r.track_log),
        digest: opt_text(r.digest),
        dockerfile: r.dockerfile@,
        notebooks: Seq::<NotebookView>::empty(),
    }
}

/// The repository that its row describes, without notebooks.
pub fn get_repo(r: &RepoRow) -> (repo: Repo)
    ensures
        repo@ == repo_of_row(*r),
        repo.id == r.id,
        repo.uri@ == opt_text(r.uri),
        repo.secret_namespace@ == opt_text(r.secret_namespace),
        repo.private_repo == opt_flag(r.private_repo),
        repo.repo_credential_secret@ == opt_text(r.repo_credential_secret),
        repo.updating == opt_flag(r.updating),
        repo.build_log@ == opt_text(r.build_log),
        repo.track_log@ == opt_text(r.track_log),
        repo.digest@ == opt_text(r.digest),
        repo.dockerfile@ == r.dockerfile@,
        repo.notebooks@.len() == 0,
{
    let repo = Repo {
        id: r.id,
        uri: text_or_default(&r.uri),
        secret_namespace: text_or_default(&r.secret_namespace),
        private_repo: flag_or_default(r.private_repo),
        repo_credential_secret: text_or_default(&r.repo_credential_secret),
        updating: flag_or_default(r.updating),
        build_log: text_or_default(&r.build_log),
        track_log: text_or_default(&r.track_log),
        digest: text_or_default(&r.digest),
        dockerfile: r.dockerfile.clone(),
        notebooks: Vec::new(),
    };
    assert(repo@.notebooks =~= Seq::<NotebookView>::empty());
    repo
}

/// Whether the repository is being built; the column is always set.
pub fn updating(value: Option<bool>) -> (r: bool)
    requires
        value is Some,
    ensures
        r == value->0,
{
    match value {
        Some(b) => b,
        None => false,
    }
}

// ---------------------------------------------------------------------------
// Logs
// ---------------------------------------------------------------------------

/// A log after a line was added to it: the old log (empty where there was
/// none), the line, and a line break.
pub open spec fn appended(current: Option<String>, line: Seq<char>) -> Seq<char> {
    opt_text(current) + line + seq!['\n']
}

/// Adds a line to a build or push log.
pub fn append_log(current: &Option<String>, line: &str) -> (r: String)
    ensures
        r@ == appended(*current, line@),
{
    let mut r = text_or_default(current);
    r.append(line);
    crate::text::push_char(&mut r, '\n');
    r
}

/// The log columns of a repository: the build log, the track log and the
/// image digest, each beside the copy kept while a build runs.
pub struct JobLogs {
    pub build_log: Option<String>,
    pub last_build_log: Option<String>,
    pub track_log: Option<String>,
    pub last_track_log: Option<String>,
    pub digest: Option<String>,
    pub last_digest: Option<String>,
}

pub ghost struct JobLogsView {
    pub build_log: Option<Seq<char>>,
    pub last_build_log: Option<Seq<char>>,
    pub track_log: Option<Seq<char>>,
    pub last_track_log: Option<Seq<char>>,
    pub digest: Option<Seq<char>>,
    pub last_digest: Option<Seq<char>>,
}

pub open spec fn opt_view(o: Option<String>) -> Option<Seq<char>> {
    match o {
        Some(s) => Some(s@),
        None => None,
    }
}

impl View for JobLogs {
    type V = JobLogsView;

    open spec fn view(&self) -> JobLogsView {
        JobLogsView {
            build_log: opt_view(self.build_log),
            last_build_log: opt_view(self.last_build_log),
            track_log: opt_view(self.track_log),
            last_track_log: opt_view(self.last_track_log),
            digest: opt_view(self.digest),
            last_digest: opt_view(self.last_digest),
        }
    }
}

/// The contents of an optional column, or the empty string.
pub open spec fn column_text(o: Option<Seq<char>>) -> Seq<char> {
    match o {
        Some(s) => s,
        None => Seq::<char>::empty(),
    }
}

/// The columns after the build log was saved and emptied.
pub open spec fn build_log_backed_up(l: JobLogsView) -> JobLogsView {
    JobLogsView {
        last_build_log: Some(column_text(l.build_log)),
        build_log: Some(Seq::<char>::empty()),
        ..l
    }
}

/// The columns after the track log was saved and emptied.
pub open spec fn track_log_backed_up(l: JobLogsView) -> JobLogsView {
    JobLogsView {
        last_track_log: Some(column_text(l.track_log)),
        track_log: Some(Seq::<char>::empty()),
        ..l
    }
}

/// The columns after the digest was saved.
pub open spec fn digest_backed_up(l: JobLogsView) -> JobLogsView {
    JobLogsView { last_digest: Some(column_text(l.digest)), ..l }
}

/// The columns after the build log was restored from its copy.
pub open spec fn build_log_recovered(l: JobLogsView) -> JobLogsView {
    JobLogsView { build_log: Some(column_text(l.last_build_log)), ..l }
}

/// The columns after the digest was restored from its copy.
pub open spec fn digest_recovered(l: JobLogsView) -> JobLogsView {
    JobLogsView { digest: Some(column_text(l.last_digest)), ..l }
}

/// Saves the build log and empties it.
pub fn backup_build_log(l: &mut JobLogs)
    ensures
        final(l)@ == build_log_backed_up(old(l)@),
{
    l.last_build_log = Some(text_or_default(&l.build_log));
    l.build_log = Some(String::new());
}

/// Saves the track log and empties it: done before a new track log is set.
pub fn backup_track_log(l: &mut JobLogs)
    ensures
        final(l)@ == track_log_backed_up(old(l)@),
{
    l.last_track_log = Some(text_or_default(&l.track_log));
    l.track_log = Some(String::new());
}

/// Saves the digest.
pub fn backup_digest(l: &mut JobLogs)
    ensures
        final(l)@ == digest_backed_up(old(l)@),
{
    l.last_digest = Some(text_or_default(&l.digest));
}

/// Restores the build log from its copy.
pub fn recover_build_log(l: &mut JobLogs)
    ensures
        final(l)@ == build_log_recovered(old(l)@),
{
    l.build_log = Some(text_or_default(&l.last_build_log));
}

/// Restores the digest from its copy.
pub fn recover_digest(l: &mut JobLogs)
    ensures
        final(l)@ == digest_recovered(old(l)@),
{
    l.digest = Some(text_or_default(&l.last_digest));
}

/// What starting a build does to the logs: the build log and the digest
/// are saved, and the build log is emptied.
pub fn backup(l: &mut JobLogs)
    ensures
        final(l)@ == digest_backed_up(build_log_backed_up(old(l)@)),
{
    backup_build_log(l);
    backup_digest(l);
}

/// What reverting a build does to the logs: the build log and the digest
/// are restored from their copies.
pub fn recover(l: &mut JobLogs)
    ensures
        final(l)@ == digest_recovered(build_log_recovered(old(l)@)),
{
    recover_build_log(l);
    recover_digest(l);
}

/// Reverting a build right after starting it gives back the build log and
/// the digest that were there before (an absent one comes back empty), and
/// keeps the track log.
pub proof fn lemma_recover_undoes_backup(l: JobLogsView)
    ensures
        ({
            let r = digest_recovered(build_log_recovered(digest_backed_up(build_log_backed_up(l))));
            &&& r.build_log == Some(column_text(l.build_log))
            &&& r.digest == Some(column_text(l.digest))
            &&& r.track_log == l.track_log
            &&& r.last_track_log == l.last_track_log
        }),
{
}

/// A log that a line was added to reads back as the old log, the line and a
/// line break; an empty log reads back as the line alone with its break.
pub proof fn lemma_append_then_read(current: Option<String>, line: Seq<char>)
    ensures
        appended(current, line).len() == opt_text(current).len() + line.len() + 1,
        appended(current, line).take(opt_text(current).len() as int) == opt_text(current),
        appended(current, line).last() == '\n',
        current is None ==> appended(current, line) == line.push('\n'),
{
    assert(appended(current, line).take(opt_text(current).len() as int) =~= opt_text(current));
    if current is None {
        assert(appended(current, line) =~= line.push('\n'));
    }
}

/// A log after the lines were added to it one after another: the log, then
/// each line followed by a line break, in order.
pub open spec fn lines_appended(log: Seq<char>, lines: Seq<Seq<char>>) -> Seq<char>
    decreases lines.len(),
{
    if lines.len() == 0 {
        log
    } else {
        lines_appended(log, lines.drop_last()) + lines.last() + seq!['\n']
    }
}

proof fn lemma_appends_accumulate_upto(
    start: Seq<char>,
    lines: Seq<Seq<char>>,
    logs: Seq<Option<String>>,
    k: int,
)
    requires
        logs.len() == lines.len() + 1,
        opt_text(logs[0]) == start,
        forall|i: int|
            0 <= i < lines.len() ==> opt_text(logs[i + 1]) == appended(logs[i], #[trigger] lines[i]),
        0 <= k <= lines.len(),
    ensures
        opt_text(logs[k]) == lines_appended(start, lines.take(k)),
    decreases k,
{
    if k == 0 {
        assert(lines.take(0) =~= Seq::<Seq<char>>::empty());
    } else {
        lemma_appends_accumulate_upto(start, lines, logs, k - 1);
        assert(lines.take(k).drop_last() =~= lines.take(k - 1));
        assert(lines.take(k).last() == lines[k - 1]);
        assert(opt_text(logs[k]) == appended(logs[k - 1], lines[k - 1]));
    }
}

/// Adding lines to a log one call after another (each call reading the log
/// that the one before wrote) leaves the log it started from, followed by
/// every line with its line break, in the order of the calls.
pub proof fn lemma_appends_accumulate(
    start: Seq<char>,
    lines: Seq<Seq<char>>,
    logs: Seq<Option<String>>,
)
    requires
        logs.len() == lines.len() + 1,
        opt_text(logs[0]) == start,
        forall|i: int|
            0 <= i < lines.len() ==> opt_text(logs[i + 1]) == appended(logs[i], #[trigger] lines[i]),
    ensures
        opt_text(logs[lines.len() as int]) == lines_appended(start, lines),
{
    lemma_appends_accumulate_upto(start, lines, logs, lines.len() as int);
    assert(lines.take(lines.len() as int) =~= lines);
}

/// Two rows say the same of their repository: its address, whether it is
/// private, its credentials' secret and its Dockerfile.
pub open spec fn same_repo_fields(a: RepoMapRow, b: RepoMapRow) -> bool {
    &&& opt_text(a.uri) == opt_text(b.uri)
    &&& opt_flag(a.private_repo) == opt_flag(b.private_repo)
    &&& opt_text(a.repo_credential_secret) == opt_text(b.repo_credential_secret)
    &&& opt_text(a.dockerfile) == opt_text(b.dockerfile)
}

/// The rows of one repository agree on the repository, as the rows of a
/// join of each repository with its notebooks do.
pub open spec fn rows_agree(rows: Seq<RepoMapRow>) -> bool {
    forall|i: int, j: int|
        0 <= i < rows.len() && 0 <= j < rows.len() && row_repo_id(rows[i]) == row_repo_id(rows[j])
            ==> same_repo_fields(#[trigger] rows[i], #[trigger] rows[j])
}

/// The entry has a notebook, and each of its notebooks carries the entry's
/// repository id, address, privacy, credentials' secret and Dockerfile.
pub open spec fn carries_repository(repo: RepoView) -> bool {
    &&& repo.notebooks.len() > 0
    &&& forall|k: int|
        0 <= k < repo.notebooks.len() ==> {
            let d = (#[trigger] repo.notebooks[k]).nb_data;
            &&& d.repo_id == repo.id
            &&& d.repo_uri == repo.uri
            &&& d.private_repo == repo.private_repo
            &&& d.repo_credential_secret == repo.repo_credential_secret
            &&& d.dockerfile == repo.dockerfile
        }
}

/// The notebook is that of a row of repository `id`.
pub open spec fn from_row_of(rows: Seq<RepoMapRow>, id: i32, n: NotebookView) -> bool {
    exists|i: int| 0 <= i < rows.len() && row_repo_id(rows[i]) == id && n == map_row_notebook(#[trigger] rows[i])
}

proof fn lemma_notebook_from_row(rows: Seq<RepoMapRow>, id: i32, k: int)
    requires
        0 <= k < notebooks_of(rows, id).len(),
    ensures
        from_row_of(rows, id, notebooks_of(rows, id)[k]),
{
    let pred = |x: RepoMapRow| row_repo_id(x) == id;
    let f = |x: RepoMapRow| map_row_notebook(x);
    let fl = rows.filter(pred);
    assert(notebooks_of(rows, id) == fl.map_values(f));
    rows.lemma_filter_pred(pred, k);
    assert(fl.contains(fl[k]));
    rows.lemma_filter_contains_rev(pred, fl[k]);
    let i = choose|i: int| 0 <= i < rows.len() && rows[i] == fl[k];
    assert(notebooks_of(rows, id)[k] == map_row_notebook(rows[i]));
}

proof fn lemma_repository_has_notebook(rows: Seq<RepoMapRow>, id: i32, f: int)
    requires
        0 <= f < rows.len(),
        row_repo_id(rows[f]) == id,
    ensures
        notebooks_of(rows, id).len() > 0,
{
    let pred = |x: RepoMapRow| row_repo_id(x) == id;
    let g = |x: RepoMapRow| map_row_notebook(x);
    rows.lemma_filter_contains(pred, f);
    assert(notebooks_of(rows, id) == rows.filter(pred).map_values(g));
}

/// In the map of repositories, where the rows of each repository agree on
/// it (as a join of repositories with their notebooks gives them), every
/// entry has at least one notebook, and each of its notebooks carries the
/// entry's repository id, address, privacy, credentials' secret and
/// Dockerfile.
pub proof fn lemma_map_notebooks_carry_their_repository(rows: Seq<RepoMapRow>, repos: Seq<RepoView>)
    requires
        is_repo_map(rows, repos),
        rows_agree(rows),
    ensures
        forall|j: int| 0 <= j < repos.len() ==> carries_repository(#[trigger] repos[j]),
{
    assert forall|j: int| 0 <= j < repos.len() implies carries_repository(#[trigger] repos[j]) by {
        let repo = repos[j];
        assert(repo_from_rows(rows, repo));
        let f = choose|f: int|
            first_row_of(rows, repo.id, f) && repo == map_row_repo(#[trigger] rows[f], notebooks_of(rows, repo.id));
        lemma_repository_has_notebook(rows, repo.id, f);
        assert forall|k: int| 0 <= k < repo.notebooks.len() implies {
            let d = (#[trigger] repo.notebooks[k]).nb_data;
            &&& d.repo_id == repo.id
            &&& d.repo_uri == repo.uri
            &&& d.private_repo == repo.private_repo
            &&& d.repo_credential_secret == repo.repo_credential_secret
            &&& d.dockerfile == repo.dockerfile
        } by {
            lemma_notebook_from_row(rows, repo.id, k);
            let i = choose|i: int|
                0 <= i < rows.len() && row_repo_id(rows[i]) == repo.id && repo.notebooks[k] == map_row_notebook(
                    #[trigger] rows[i],
                );
            assert(same_repo_fields(rows[i], rows[f]));
        }
    }
}

/// Some row of repository `id` is the notebook's own row.
pub open spec fn from_own_row(rows: Seq<RepoMapRow>, id: i32, n: NotebookView) -> bool {
    exists|i: int| 0 <= i < rows.len() && row_repo_id(rows[i]) == id && carries_row(n, #[trigger] rows[i])
}

/// In the map of repositories, each notebook of an entry holds the columns
/// of one of that repository's rows: its registry and whether the registry
/// is private, its image, the registry's secret, whether it syncs
/// automatically and whether it is syncing, its id, name and namespace.
pub proof fn lemma_map_notebooks_carry_their_rows(rows: Seq<RepoMapRow>, repos: Seq<RepoView>)
    requires
        is_repo_map(rows, repos),
    ensures
        forall|j: int, k: int|
            0 <= j < repos.len() && 0 <= k < repos[j].notebooks.len() ==> from_own_row(
                rows,
                repos[j].id,
                #[trigger] repos[j].notebooks[k],
            ),
{
    assert forall|j: int, k: int| 0 <= j < repos.len() && 0 <= k < repos[j].notebooks.len() implies from_own_row(
        rows,
        repos[j].id,
        #[trigger] repos[j].notebooks[k],
    ) by {
        let repo = repos[j];
        assert(repo_from_rows(rows, repo));
        let f = choose|f: int|
            first_row_of(rows, repo.id, f) && repo == map_row_repo(#[trigger] rows[f], notebooks_of(rows, repo.id));
        lemma_notebook_from_row(rows, repo.id, k);
        let i = choose|i: int|
            0 <= i < rows.len() && row_repo_id(rows[i]) == repo.id && repo.notebooks[k] == map_row_notebook(
                #[trigger] rows[i],
            );
        assert(carries_row(repo.notebooks[k], rows[i]));
    }
}

/// The entry holds the repository columns of a row: its id, address, the
/// namespace of its secrets, privacy, credentials' secret, whether it is
/// being built, its build and track logs, its digest and its Dockerfile.
pub open spec fn repo_carries_row(repo: RepoView, r: RepoMapRow) -> bool {
    &&& repo.id == opt_num(r.repo_id)
    &&& repo.uri == opt_text(r.uri)
    &&& repo.secret_namespace == opt_text(r.secret_namespace)
    &&& repo.private_repo == opt_flag(r.private_repo)
    &&& repo.repo_credential_secret == opt_text(r.repo_credential_secret)
    &&& repo.updating == opt_flag(r.updating)
    &&& repo.build_log == opt_text(r.build_log)
    &&& repo.track_log == opt_text(r.track_log)
    &&& repo.digest == opt_text(r.digest)
    &&& repo.dockerfile == opt_text(r.dockerfile)
}

/// The entry holds the repository columns of its repository's first row.
pub open spec fn carries_first_row(rows: Seq<RepoMapRow>, repo: RepoView) -> bool {
    exists|f: int| first_row_of(rows, repo.id, f) && repo_carries_row(repo, #[trigger] rows[f])
}

/// Each entry of the map of repositories holds the repository columns of the
/// first row of its repository.
pub proof fn lemma_map_entries_carry_their_first_row(rows: Seq<RepoMapRow>, repos: Seq<RepoView>)
    requires
        is_repo_map(rows, repos),
    ensures
        forall|j: int| 0 <= j < repos.len() ==> carries_first_row(rows, #[trigger] repos[j]),
{
    assert forall|j: int| 0 <= j < repos.len() implies carries_first_row(rows, #[trigger] repos[j]) by {
        assert(repo_from_rows(rows, repos[j]));
        let f = choose|f: int|
            first_row_of(rows, repos[j].id, f) && repos[j] == map_row_repo(#[trigger] rows[f], notebooks_of(rows, repos[j].id));
        assert(repo_carries_row(repos[j], rows[f]));
    }
}

} // verus!
