//! The notebook endpoints: enabling, disabling and reading a notebook, and
//! restarting its pod on a new image.
use vstd::prelude::*;

use crate::dto::{
    opt_flag, opt_text, text_or_default, Notebook, NotebookData, NotebookDataView, NotebookId,
    NotebookIdView, NotebookView,
};
use crate::server::http::{finish, one_row_status, status_of_update, Reply, Status};
use crate::text::{i32_to_decimal, signed_decimal};

verus! {

// ---------------------------------------------------------------------------
// Enabling a notebook
// ---------------------------------------------------------------------------

/// The namespace in which the repository's credentials are looked up: the
/// notebook's own namespace for a private registry, else none.
pub open spec fn secret_namespace_for(nb: NotebookDataView, nb_id: NotebookIdView) -> Seq<char> {
    if nb.private_registry {
        nb_id.namespace
    } else {
        Seq::<char>::empty()
    }
}

/// The namespace in which the repository's credentials are looked up.
pub fn put_secret_namespace(nb: &NotebookData, nb_id: &NotebookId) -> (r: String)
    ensures
        r@ == secret_namespace_for(nb@, nb_id@),
        nb.private_registry ==> r@ == nb_id.namespace@,
        !nb.private_registry ==> r@.len() == 0,
{
    if nb.private_registry {
        nb_id.namespace.clone()
    } else {
        String::new()
    }
}

/// The answer to enabling a notebook: its row id in the body, or `500` where
/// the row could not be written.
pub fn put_reply(id: Option<i32>) -> (r: Reply)
    ensures
        match id {
            Some(n) => r.status == Status::Success && r.body@ == signed_decimal(n as int),
            None => r.status == Status::InternalServerError && r.body@ == Seq::<char>::empty(),
        },
{
    match id {
        Some(n) => Reply { status: Status::Success, body: i32_to_decimal(n) },
        None => finish(Status::InternalServerError),
    }
}

// ---------------------------------------------------------------------------
// Disabling a notebook
// ---------------------------------------------------------------------------

/// What disabling a notebook deletes.
#[derive(PartialEq, Eq, Structural, Clone, Copy, Debug)]
pub enum RemoveTarget {
    /// The notebook's repository, and with it the notebook.
    Repository,
    /// The notebook alone.
    Notebook,
}

/// A repository with at most one notebook goes with its notebook; otherwise
/// only the notebook goes.
pub open spec fn remove_target_for(rows_with_notebook: nat) -> RemoveTarget {
    if rows_with_notebook <= 1 {
        RemoveTarget::Repository
    } else {
        RemoveTarget::Notebook
    }
}

/// What to delete, given how many rows the join of the notebook with its
/// repository gave.
pub fn remove_target(rows_with_notebook: usize) -> (r: RemoveTarget)
    ensures
        r == remove_target_for(rows_with_notebook as nat),
        rows_with_notebook <= 1 ==> r == RemoveTarget::Repository,
        rows_with_notebook >= 2 ==> r == RemoveTarget::Notebook,
{
    if rows_with_notebook <= 1 {
        RemoveTarget::Repository
    } else {
        RemoveTarget::Notebook
    }
}

/// The answer to disabling a notebook: `200` when the delete removed one
/// row, else `500`.
pub fn remove_reply(affected: Option<u64>) -> (r: Reply)
    ensures
        r.status == one_row_status(affected),
        (affected == Some(1u64)) == (r.status == Status::Success),
        affected != Some(1u64) ==> r.status == Status::InternalServerError,
        r.body@ == Seq::<char>::empty(),
{
    finish(status_of_update(affected))
}

// ---------------------------------------------------------------------------
// Reading a notebook
// ---------------------------------------------------------------------------

/// The row of one notebook joined with its repository.
pub struct NotebookRow {
    pub id: i32,
    pub name: Option<String>,
    pub namespace: Option<String>,
    pub image: Option<String>,
    pub private_registry: Option<bool>,
    pub registry: Option<String>,
    pub registry_credential_secret: Option<String>,
    pub repo_id: Option<i32>,
    pub auto_sync: Option<bool>,
    pub syncing: Option<bool>,
    pub uri: Option<String>,
    pub private_repo: Option<bool>,
    pub dockerfile: String,
    pub repo_credential_secret: Option<String>,
}

/// The notebook that its row describes; absent values become their defaults.
pub open spec fn notebook_of_row(r: NotebookRow) -> NotebookView {
    NotebookView {
        id: r.id,
        nb_id: NotebookIdView { name: opt_text(r.name), namespace: opt_text(r.namespace) },
        nb_data: NotebookDataView {
            image: opt_text(r.image),
            registry_credential_secret: opt_text(r.registry_credential_secret),
            private_registry: opt_flag(r.private_registry),
            registry: opt_text(r.registry),
            repo_id: crate::dto::opt_num(r.repo_id),
            repo_uri: opt_text(r.uri),
            private_repo: opt_flag(r.private_repo),
            repo_credential_secret: opt_text(r.repo_credential_secret),
            auto_sync: opt_flag(r.auto_sync),
            syncing: opt_flag(r.syncing),
            dockerfile: r.dockerfile@,
        },
    }
}

fn flag(o: Option<bool>) -> (r: bool)
    ensures
        r == opt_flag(o),
{
    match o {
        Some(b) => b,
        None => false,
    }
}

/// The notebook that its row describes.
pub fn get(r: &NotebookRow) -> (nb: Notebook)
    ensures
        nb@ == notebook_of_row(*r),
        nb.id == r.id,
        nb.nb_id.name@ == opt_text(r.name),
        nb.nb_id.namespace@ == opt_text(r.namespace),
        nb.nb_data.image@ == opt_text(r.image),
        nb.nb_data.registry_credential_secret@ == opt_text(r.registry_credential_secret),
        nb.nb_data.private_registry == opt_flag(r.private_registry),
        nb.nb_data.registry@ == opt_text(r.registry),
        nb.nb_data.repo_id == crate::dto::opt_num(r.repo_id),
        nb.nb_data.repo_uri@ == opt_text(r.uri),
        nb.nb_data.private_repo == opt_flag(r.private_repo),
        nb.nb_data.repo_credential_secret@ == opt_text(r.repo_credential_secret),
        nb.nb_data.auto_sync == opt_flag(r.auto_sync),
        nb.nb_data.syncing == opt_flag(r.syncing),
        nb.nb_data.dockerfile@ == r.dockerfile@,
{
    Notebook {
        id: r.id,
        nb_id: NotebookId { name: text_or_default(&r.name), namespace: text_or_default(&r.namespace) },
        nb_data: NotebookData {
            image: text_or_default(&r.image),
            private_registry: flag(r.private_registry),
            registry: text_or_default(&r.registry),
            repo_id: match r.repo_id {
                Some(n) => n,
                None => 0,
            },
            repo_uri: text_or_default(&r.uri),
            private_repo: flag(r.private_repo),
            registry_credential_secret: text_or_default(&r.registry_credential_secret),
            repo_credential_secret: text_or_default(&r.repo_credential_secret),
            auto_sync: flag(r.auto_sync),
            dockerfile: r.dockerfile.clone(),
            syncing: flag(r.syncing),
        },
    }
}

} // verus!
