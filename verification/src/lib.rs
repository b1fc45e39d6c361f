//! Verified client-side logic for a source-hosting platform's HTTP API:
//! project reference encoding, package query construction, package file
//! selection, and the download/upload decision pipeline.

pub mod download;
pub mod encode;
pub mod error;
pub mod filter;
pub mod models;
pub mod numfmt;
pub mod packages;
pub mod paths;
pub mod projects;
pub mod query;
pub mod releases;
pub mod status;
pub mod tools;

pub use status::is_success_status;
