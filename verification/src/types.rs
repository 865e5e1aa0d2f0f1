//! Data-transfer types for the platform's resources: enums with the closed
//! value sets the API speaks, request parameter builders, and response
//! shapes. These are mechanical mappings; the invariants of the SDK live in
//! the verifier, orchestrator and credential modules.

pub mod ai;
pub mod auth;
pub mod bot;
pub mod channel;
pub mod common;
pub mod contact;
pub mod conversation;
pub mod flow;
pub mod knowledge;
pub mod vre;
