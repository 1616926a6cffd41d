//! The server's own view of a notebook and of a repository.
use vstd::prelude::*;

verus! {

/// A notebook by name, with the image and the repository it is built from,
/// where known.
#[derive(Debug)]
pub struct Notebook {
    pub id: i32,
    pub name: String,
    pub image: Option<String>,
    pub repo_id: Option<i32>,
}

impl Notebook {
    /// A notebook that is only known by its name: no row yet (id `-1`), no
    /// image and no repository.
    pub fn from_name(name: &str) -> (r: Notebook)
        ensures
            r.id == -1,
            r.name@ == name@,
            r.image is None,
            r.repo_id is None,
    {
        Notebook { id: -1, name: String::from_str(name), image: None, repo_id: None }
    }
}

/// A repository with its last build.
#[derive(Debug)]
pub struct Repo {
    pub id: i32,
    pub git: String,
    pub updating: bool,
    pub log: Option<String>,
    pub digest: Option<String>,
    pub update_time: Option<String>,
    pub notebooks: Option<Vec<Notebook>>,
}

} // verus!
