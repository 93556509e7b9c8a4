//! Durable human business decisions.
//!
//! A requester asks for an approval under a stable request identifier and an
//! idempotency key of its own. The request starts out pending, at revision one,
//! and takes exactly one terminal step: approved, rejected, cancelled or
//! expired, at revision two and with the evidence of who took it.

pub mod admission;
pub mod capability;
pub mod config;
pub mod exchange;
pub mod failure;
pub mod flow;
pub mod identifiers;
pub mod laws;
pub mod lifecycle;
pub mod operation;
pub mod operator;
pub mod outcomes;
pub mod response;
pub mod schema;
pub mod statement;
pub mod storage;
pub mod table;
pub mod text;
pub mod timestamp;
pub mod values;
