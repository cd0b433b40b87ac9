//! An in-memory string key-value store driven by single-line JSON commands.

pub mod request;
pub mod response;
pub mod cmd;
pub mod database;
pub mod connection;
