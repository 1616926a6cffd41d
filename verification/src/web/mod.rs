pub mod api_token;
pub mod config;
