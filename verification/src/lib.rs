pub mod dto;
pub mod monitor;
pub mod server;
pub mod text;
pub mod web;
