//! Resilient, authenticated access layer for Dynamics 365 OData services:
//! query-string construction, retry policy, token lifetime, paging and
//! schema extraction, each with a machine-checked contract.

pub mod args;
pub mod auth;
pub mod client;
pub mod error;
pub mod metadata;
pub mod number;
pub mod query;
pub mod query_laws;
pub mod retry;
pub mod text;
pub mod tools;
