pub mod http;
pub mod repo;
pub mod frontend;
pub mod notebook;
pub mod restart;
pub mod config;
pub mod json;
pub mod kube;
pub mod clean;
pub mod models;
