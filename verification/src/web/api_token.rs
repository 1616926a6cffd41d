//! The rules of an API token: which pipelines, models and notebooks it opens.
use vstd::prelude::*;

verus! {

/// The rules of an API token, by version.
pub struct Rule {
    pub v1: Option<V1Rule>,
}

/// The first version of the rules: whether pipelines are open, and which
/// models and notebooks, by name.
pub struct V1Rule {
    pipeline: bool,
    models: Vec<(String, bool)>,
    notebooks: Vec<(String, bool)>,
}

} // verus!
