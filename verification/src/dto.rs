//! The records that the server hands out and the monitor reads: notebooks,
//! the repositories they are built from, and the data of the frontend page.
use vstd::prelude::*;

verus! {

/// The contents of an optional string, or the empty string.
pub open spec fn opt_text(o: Option<String>) -> Seq<char> {
    match o {
        Some(s) => s@,
        None => Seq::<char>::empty(),
    }
}

/// The contents of an optional string, or the empty string
/// (`unwrap_or_default` on an `Option<String>`).
pub fn text_or_default(o: &Option<String>) -> (r: String)
    ensures
        r@ == opt_text(*o),
{
    match o {
        Some(s) => s.clone(),
        None => String::new(),
    }
}

/// The value of an optional flag, or `false`.
pub open spec fn opt_flag(o: Option<bool>) -> bool {
    match o {
        Some(b) => b,
        None => false,
    }
}

/// The value of an optional number, or `0`.
pub open spec fn opt_num(o: Option<i32>) -> i32 {
    match o {
        Some(n) => n,
        None => 0,
    }
}

/// Which notebook: its name and the namespace it lives in.
#[derive(Debug)]
pub struct NotebookId {
    pub name: String,
    pub namespace: String,
}

pub ghost struct NotebookIdView {
    pub name: Seq<char>,
    pub namespace: Seq<char>,
}

impl View for NotebookId {
    type V = NotebookIdView;

    open spec fn view(&self) -> NotebookIdView {
        NotebookIdView { name: self.name@, namespace: self.namespace@ }
    }
}

/// How a notebook is built and kept in sync.
#[derive(Debug)]
pub struct NotebookData {
    pub image: String,
    pub registry_credential_secret: String,
    pub private_registry: bool,
    pub registry: String,
    pub repo_id: i32,
    pub repo_uri: String,
    pub private_repo: bool,
    pub repo_credential_secret: String,
    pub auto_sync: bool,
    pub syncing: bool,
    pub dockerfile: String,
}

pub ghost struct NotebookDataView {
    pub image: Seq<char>,
    pub registry_credential_secret: Seq<char>,
    pub private_registry: bool,
    pub registry: Seq<char>,
    pub repo_id: i32,
    pub repo_uri: Seq<char>,
    pub private_repo: bool,
    pub repo_credential_secret: Seq<char>,
    pub auto_sync: bool,
    pub syncing: bool,
    pub dockerfile: Seq<char>,
}

impl View for NotebookData {
    type V = NotebookDataView;

    open spec fn view(&self) -> NotebookDataView {
        NotebookDataView {
            image: self.image@,
            registry_credential_secret: self.registry_credential_secret@,
            private_registry: self.private_registry,
            registry: self.registry@,
            repo_id: self.repo_id,
            repo_uri: self.repo_uri@,
            private_repo: self.private_repo,
            repo_credential_secret: self.repo_credential_secret@,
            auto_sync: self.auto_sync,
            syncing: self.syncing,
            dockerfile: self.dockerfile@,
        }
    }
}

/// A notebook whose image is built from a repository.
#[derive(Debug)]
pub struct Notebook {
    pub id: i32,
    pub nb_id: NotebookId,
    pub nb_data: NotebookData,
}

pub ghost struct NotebookView {
    pub id: i32,
    pub nb_id: NotebookIdView,
    pub nb_data: NotebookDataView,
}

impl View for Notebook {
    type V = NotebookView;

    open spec fn view(&self) -> NotebookView {
        NotebookView { id: self.id, nb_id: self.nb_id@, nb_data: self.nb_data@ }
    }
}

/// A repository that is tracked and built, with the notebooks built from it.
#[derive(Debug)]
pub struct Repo {
    pub id: i32,
    pub uri: String,
    pub secret_namespace: String,
    pub private_repo: bool,
    pub repo_credential_secret: String,
    pub updating: bool,
    pub build_log: String,
    pub track_log: String,
    pub digest: String,
    pub dockerfile: String,
    pub notebooks: Vec<Notebook>,
}

pub ghost struct RepoView {
    pub id: i32,
    pub uri: Seq<char>,
    pub secret_namespace: Seq<char>,
    pub private_repo: bool,
    pub repo_credential_secret: Seq<char>,
    pub updating: bool,
    pub build_log: Seq<char>,
    pub track_log: Seq<char>,
    pub digest: Seq<char>,
    pub dockerfile: Seq<char>,
    pub notebooks: Seq<NotebookView>,
}

impl View for Repo {
    type V = RepoView;

    open spec fn view(&self) -> RepoView {
        RepoView {
            id: self.id,
            uri: self.uri@,
            secret_namespace: self.secret_namespace@,
            private_repo: self.private_repo,
            repo_credential_secret: self.repo_credential_secret@,
            updating: self.updating,
            build_log: self.build_log@,
            track_log: self.track_log@,
            digest: self.digest@,
            dockerfile: self.dockerfile@,
            notebooks: self.notebooks@.map_values(|n: Notebook| n@),
        }
    }
}

/// The models of a sequence of repositories.
pub open spec fn repo_views(s: Seq<Repo>) -> Seq<RepoView> {
    s.map_values(|r: Repo| r@)
}

/// One notebook as the frontend page shows it.
#[derive(Debug)]
pub struct FrontendNotebookData {
    pub name: String,
    pub building: bool,
    pub enabled: bool,
    pub syncing: bool,
    pub out_of_sync: bool,
    pub repo_id: i32,
    pub dockerfile: String,
}

pub ghost struct FrontendNotebookDataView {
    pub name: Seq<char>,
    pub building: bool,
    pub enabled: bool,
    pub syncing: bool,
    pub out_of_sync: bool,
    pub repo_id: i32,
    pub dockerfile: Seq<char>,
}

impl View for FrontendNotebookData {
    type V = FrontendNotebookDataView;

    open spec fn view(&self) -> FrontendNotebookDataView {
        FrontendNotebookDataView {
            name: self.name@,
            building: self.building,
            enabled: self.enabled,
            syncing: self.syncing,
            out_of_sync: self.out_of_sync,
            repo_id: self.repo_id,
            dockerfile: self.dockerfile@,
        }
    }
}

/// What the frontend page shows to a user: the notebooks of the user's
/// namespace, the secrets there, and the namespace.
#[derive(Debug)]
pub struct FrontendData {
    pub notebooks: Vec<FrontendNotebookData>,
    pub secrets: Vec<String>,
    pub namespace: String,
}

pub ghost struct FrontendDataView {
    pub notebooks: Seq<FrontendNotebookDataView>,
    pub secrets: Seq<Seq<char>>,
    pub namespace: Seq<char>,
}

impl View for FrontendData {
    type V = FrontendDataView;

    open spec fn view(&self) -> FrontendDataView {
        FrontendDataView {
            notebooks: self.notebooks@.map_values(|n: FrontendNotebookData| n@),
            secrets: self.secrets@.map_values(|s: String| s@),
            namespace: self.namespace@,
        }
    }
}

} // verus!
