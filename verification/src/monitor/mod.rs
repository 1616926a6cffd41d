pub mod git_uri;
pub mod api;
pub mod auth;
pub mod track;
pub mod watch_map;
pub mod round;
pub mod build_run;
pub mod image_build;
pub mod manager;
