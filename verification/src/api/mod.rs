//! Notion REST API: request bodies, error mapping and transport decisions.

pub mod block;
pub mod client;
pub mod comment;
pub mod data_source;
pub mod database;
pub mod error;
pub mod page;
pub mod pagination;
pub mod query;
pub mod search;
pub mod user;
pub mod version;
