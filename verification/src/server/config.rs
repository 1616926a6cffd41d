//! The server's settings, read from the environment.
use vstd::prelude::*;

verus! {

/// The server's settings.
pub struct Config {
    pub server: ServerCfg,
    pub database_url: String,
    pub database_maxcon: u32,
    pub kubeflow: KubeflowCfg,
    pub default_image_name: String,
}

/// Where the server listens.
pub struct ServerCfg {
    pub host: String,
    pub port: i32,
    pub base_path: String,
}

/// How the server finds Kubeflow's users and notebooks.
pub struct KubeflowCfg {
    /// The request header that names the user.
    pub userid_header: String,
    /// The kind of resource of a notebook.
    pub notebook_resource: String,
    /// The kind of resource of a user's profile.
    pub profile_resource: String,
}

} // verus!
