//! The settings of the web frontend, read from the environment.
use vstd::prelude::*;

verus! {

/// The settings of the web frontend.
pub struct Config {
    pub server: ServerCfg,
    pub kubeflow: KubeflowCfg,
    pub database_url: String,
    pub jwt_secret: String,
}

/// Where the web frontend listens.
pub struct ServerCfg {
    pub host: String,
    pub port: i32,
}

/// How the web frontend finds Kubeflow.
pub struct KubeflowCfg {
    /// The request header that names the user.
    pub userid_header: String,
    pub interactive_endpoint: String,
}

} // verus!
