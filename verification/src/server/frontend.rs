//! The frontend: the index page for a known user, and the data of the page,
//! which joins the notebooks of the user's namespace with those that are
//! built from a repository.
use vstd::prelude::*;

use crate::dto::{
    opt_flag, opt_num, opt_text, text_or_default, FrontendData, FrontendDataView,
    FrontendNotebookData, FrontendNotebookDataView,
};

verus! {

/// The query of the frontend data: the user's e-mail address.
pub struct EmailOnlyParam {
    email: String,
}

impl EmailOnlyParam {
    /// A query for the user with this address.
    pub fn new(email: String) -> (r: EmailOnlyParam)
        ensures
            r.email_view() == email@,
    {
        EmailOnlyParam { email }
    }

    pub closed spec fn email_view(&self) -> Seq<char> {
        self.email@
    }

    /// The user's address.
    pub fn email(&self) -> (r: &String)
        ensures
            r@ == self.email_view(),
    {
        &self.email
    }
}

/// What the index page shows.
pub enum FrontendPage {
    /// The page for the user named in the configured header.
    Index { userid: String },
    /// `403 Forbidden`: the request does not name a user.
    Forbidden,
}

/// The index page: for the user that the configured header names, else
/// `403 Forbidden`.
pub fn frontend(userid_header: Option<String>) -> (r: FrontendPage)
    ensures
        match userid_header {
            Some(u) => r matches FrontendPage::Index { userid } && userid@ == u@,
            None => r is Forbidden,
        },
{
    match userid_header {
        Some(u) => FrontendPage::Index { userid: u },
        None => FrontendPage::Forbidden,
    }
}

/// One row of the notebooks of a namespace joined with their repositories.
pub struct FrontendRow {
    pub repo_id: Option<i32>,
    pub name: Option<String>,
    pub syncing: Option<bool>,
    pub updating: Option<bool>,
    pub digest: Option<String>,
    pub dockerfile: String,
}

/// Every row names its notebook.
pub open spec fn frontend_rows_named(rows: Seq<FrontendRow>) -> bool {
    forall|i: int| 0 <= i < rows.len() ==> (#[trigger] rows[i]).name is Some
}

/// Row `i` is the last row for the notebook `name`: a later row for the same
/// notebook takes the place of an earlier one.
pub open spec fn last_row_for(rows: Seq<FrontendRow>, name: Seq<char>, i: int) -> bool {
    &&& 0 <= i < rows.len()
    &&& opt_text(rows[i].name) == name
    &&& forall|k: int| i < k < rows.len() ==> opt_text(#[trigger] rows[k].name) != name
}

/// The row that enables the notebook `name`, if any.
pub open spec fn row_for(rows: Seq<FrontendRow>, name: Seq<char>) -> Option<FrontendRow> {
    if exists|i: int| last_row_for(rows, name, i) {
        Some(rows[choose|i: int| last_row_for(rows, name, i)])
    } else {
        None
    }
}

/// How the page shows the notebook `name` of the cluster: an enabled notebook
/// (one with a row) shows whether it is building and syncing, whether the
/// digest of its pod's image differs from the digest of the last build, its
/// repository and its Dockerfile; any other notebook is shown as not enabled,
/// with repository `-1` and the Dockerfile `Dockerfile`.
pub open spec fn notebook_entry(
    rows: Seq<FrontendRow>,
    name: Seq<char>,
    pod_digest: Seq<char>,
) -> FrontendNotebookDataView {
    match row_for(rows, name) {
        Some(r) => FrontendNotebookDataView {
            name,
            enabled: true,
            building: opt_flag(r.updating),
            syncing: opt_flag(r.syncing),
            out_of_sync: pod_digest != opt_text(r.digest),
            repo_id: opt_num(r.repo_id),
            dockerfile: r.dockerfile@,
        },
        None => FrontendNotebookDataView {
            name,
            enabled: false,
            building: false,
            syncing: false,
            out_of_sync: false,
            repo_id: -1i32,
            dockerfile: "Dockerfile"@,
        },
    }
}

/// The row that enables `name`: the last one for it.
fn find_row(rows: &Vec<FrontendRow>, name: &String) -> (r: Option<usize>)
    requires
        frontend_rows_named(rows@),
    ensures
        r matches Some(i) ==> last_row_for(rows@, name@, i as int) && row_for(rows@, name@) == Some(
            rows@[i as int],
        ),
        r is None ==> row_for(rows@, name@) is None,
{
    let mut k: usize = rows.len();
    while k > 0
        invariant
            k <= rows@.len(),
            frontend_rows_named(rows@),
            forall|j: int| k <= j < rows@.len() ==> opt_text(#[trigger] rows@[j].name) != name@,
        decreases k,
    {
        let j = k - 1;
        let candidate = match &rows[j].name {
            Some(n) => n,
            None => {
                assert(rows@[j as int].name is Some);
                return None;
            },
        };
        if *candidate == *name {
            assert(last_row_for(rows@, name@, j as int));
            proof {
                let c = choose|c: int| last_row_for(rows@, name@, c);
                if c < j {
                    assert(opt_text(rows@[j as int].name) == name@);
                }
            }
            return Some(j);
        }
        k = j;
    }
    assert forall|i: int| !last_row_for(rows@, name@, i) by {}
    None
}

/// Whether each notebook of the cluster is enabled (built from a
/// repository): the notebooks whose pod's image digest the page needs.
pub fn enabled_notebooks(rows: &Vec<FrontendRow>, names: &Vec<String>) -> (r: Vec<bool>)
    requires
        frontend_rows_named(rows@),
    ensures
        r@.len() == names@.len(),
        forall|i: int| 0 <= i < names@.len() ==> r@[i] == (row_for(rows@, #[trigger] names@[i]@) is Some),
{
    let mut r: Vec<bool> = Vec::new();
    let mut i: usize = 0;
    while i < names.len()
        invariant
            i <= names@.len(),
            r@.len() == i,
            frontend_rows_named(rows@),
            forall|j: int| 0 <= j < i ==> r@[j] == (row_for(rows@, #[trigger] names@[j]@) is Some),
        decreases names.len() - i,
    {
        let found = find_row(rows, &names[i]);
        r.push(found.is_some());
        i = i + 1;
    }
    r
}

/// The data of the frontend page for `namespace`: for each notebook of the
/// cluster (`names`, with `pod_digests[i]` the digest of the image that the
/// pod of `names[i]` runs), its entry as [`notebook_entry`] gives it; then
/// the secrets of the namespace, and the namespace.
pub fn frontend_data(
    rows: &Vec<FrontendRow>,
    names: &Vec<String>,
    pod_digests: &Vec<String>,
    secrets: Vec<String>,
    namespace: String,
) -> (r: FrontendData)
    requires
        frontend_rows_named(rows@),
        pod_digests@.len() == names@.len(),
    ensures
        r.notebooks@.len() == names@.len(),
        forall|i: int|
            0 <= i < names@.len() ==> (#[trigger] r.notebooks@[i])@ == notebook_entry(
                rows@,
                names@[i]@,
                pod_digests@[i]@,
            ),
        r.secrets@ == secrets@,
        r.namespace@ == namespace@,
{
    let mut notebooks: Vec<FrontendNotebookData> = Vec::new();
    let mut i: usize = 0;
    while i < names.len()
        invariant
            i <= names@.len(),
            pod_digests@.len() == names@.len(),
            notebooks@.len() == i,
            frontend_rows_named(rows@),
            forall|j: int|
                0 <= j < i ==> (#[trigger] notebooks@[j])@ == notebook_entry(
                    rows@,
                    names@[j]@,
                    pod_digests@[j]@,
                ),
        decreases names.len() - i,
    {
        let name = &names[i];
        let entry = match find_row(rows, name) {
            Some(k) => {
                let row = &rows[k];
                let digest = text_or_default(&row.digest);
                let same = pod_digests[i] == digest;
                FrontendNotebookData {
                    name: name.clone(),
                    enabled: true,
                    building: match row.updating {
                        Some(b) => b,
                        None => false,
                    },
                    syncing: match row.syncing {
                        Some(b) => b,
                        None => false,
                    },
                    out_of_sync: !same,
                    repo_id: match row.repo_id {
                        Some(n) => n,
                        None => 0,
                    },
                    dockerfile: row.dockerfile.clone(),
                }
            },
            None => FrontendNotebookData {
                name: name.clone(),
                enabled: false,
                building: false,
                syncing: false,
                out_of_sync: false,
                repo_id: -1,
                dockerfile: String::from_str("Dockerfile"),
            },
        };
        notebooks.push(entry);
        i = i + 1;
    }
    FrontendData { notebooks, secrets, namespace }
}

/// A notebook is shown as enabled exactly when it has a row, and the digest
/// of the pod of a notebook that is not enabled does not change how it is
/// shown (so it need not be read).
pub proof fn lemma_digest_only_matters_when_enabled(
    rows: Seq<FrontendRow>,
    name: Seq<char>,
    d1: Seq<char>,
    d2: Seq<char>,
)
    ensures
        notebook_entry(rows, name, d1).enabled <==> row_for(rows, name) is Some,
        row_for(rows, name) is None ==> notebook_entry(rows, name, d1) == notebook_entry(
            rows,
            name,
            d2,
        ),
{
}

/// The row that enables a notebook is its last row: where row `i` names the
/// notebook and no later row does, that row is the one.
pub proof fn lemma_last_row_enables(rows: Seq<FrontendRow>, name: Seq<char>, i: int)
    requires
        0 <= i < rows.len(),
        opt_text(rows[i].name) == name,
        forall|k: int| i < k < rows.len() ==> opt_text(#[trigger] rows[k].name) != name,
    ensures
        row_for(rows, name) == Some(rows[i]),
{
    assert(last_row_for(rows, name, i));
    let c = choose|c: int| last_row_for(rows, name, c);
    if c < i {
        assert(opt_text(rows[i].name) == name);
    } else if c > i {
        assert(opt_text(rows[c].name) != name);
    }
}

/// An enabled notebook shows what its row says: whether the notebook syncs
/// comes from the row's `syncing` column alone and whether it builds from
/// the row's `updating` column alone; it is out of sync exactly when the
/// pod's digest differs from the row's, and it shows the row's repository
/// and Dockerfile.
pub proof fn lemma_enabled_entry_shows_its_row(rows: Seq<FrontendRow>, name: Seq<char>, pod_digest: Seq<char>)
    requires
        row_for(rows, name) is Some,
    ensures
        ({
            let r = row_for(rows, name)->0;
            let e = notebook_entry(rows, name, pod_digest);
            &&& e.name == name
            &&& e.enabled
            &&& e.syncing == opt_flag(r.syncing)
            &&& e.building == opt_flag(r.updating)
            &&& e.out_of_sync == (pod_digest != opt_text(r.digest))
            &&& e.repo_id == opt_num(r.repo_id)
            &&& e.dockerfile == r.dockerfile@
        }),
{
}

/// A notebook without a row is shown as not enabled, not building, not
/// syncing and in sync, with repository `-1` and the Dockerfile `Dockerfile`.
pub proof fn lemma_other_entry_is_plain(rows: Seq<FrontendRow>, name: Seq<char>, pod_digest: Seq<char>)
    requires
        row_for(rows, name) is None,
    ensures
        ({
            let e = notebook_entry(rows, name, pod_digest);
            &&& e.name == name
            &&& !e.enabled && !e.building && !e.syncing && !e.out_of_sync
            &&& e.repo_id == -1
            &&& e.dockerfile == "Dockerfile"@
        }),
{
}

} // verus!
