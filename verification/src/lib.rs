//! Client-side core of the Linktor messaging platform SDK: webhook signature
//! verification and event construction, the retry/backoff decisions of the
//! request orchestrator, credential selection, and the data-transfer types
//! that requests and responses are built from.

pub mod client;
pub mod credentials;
pub mod errors;
pub mod headers;
pub mod orchestrator;
pub mod parse;
pub mod signature;
pub mod text;
pub mod types;
pub mod webhook;

pub use errors::{LinktorError, Result};
