//! `zotero_rs`: the request-building, response-reading and retry logic of a
//! client for the Zotero Web API v3, with its behaviour stated as contracts.

pub mod auth;
pub mod config;
pub mod encoding;
pub mod endpoints;
pub mod error;
pub mod file_upload;
pub mod headers;
pub mod items;
pub mod oauth;
pub mod requests;
pub mod responses;
pub mod retry;
pub mod scope;
pub mod sort;
pub mod text;
pub mod time;
pub mod types;
pub mod urls;

pub use config::RetryPolicy;
pub use error::ZoteroClientError;
pub use requests::WriteOptions;
pub use scope::LibraryScope;
