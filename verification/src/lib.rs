//! Referential integrity for a shared-expense ledger kept in a document store
//! that has no foreign keys and no multi-document transactions.
//!
//! Organizations have members; members pay expenses and split them. Every
//! operation is a small machine: it names the next request to put to the
//! store and, given the store's reply, either names another request or ends
//! with a result. The machines never talk to a store themselves, so any store
//! can serve them.
//!
//! - `id`: identifiers and their spelling.
//! - `model`: the records.
//! - `protocol`: requests, replies, failures.
//! - `integrity`: how the reply to a lookup is read.
//! - `expense_writer`, `member_creation`, `expense_deletion`,
//!   `organization_creation`: the operations.
//! - `memory`: a store in memory that answers truly.
//! - `service`: the operations run against that store, and what they do to it.
//! - `consistency`: what stays true of a store that only they write to.
//! - `http`: the response to each way an operation can end.
pub mod id;
pub mod model;
pub mod protocol;
pub mod integrity;
pub mod expense_writer;
pub mod member_creation;
pub mod expense_deletion;
pub mod organization_creation;
pub mod memory;
pub mod service;
pub mod consistency;
pub mod http;
