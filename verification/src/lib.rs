//! A verified user-account service for a small school-management system:
//! validated account creation with memory-hard password hashing, lookup,
//! listing, and deletion, all mediated through a repository over an
//! explicit store handle.
//!
//! `dto` holds the transport shapes, `validate` the structural rules,
//! `store` the user table with its invariants, `password` the hashing
//! boundary, `repository` the operations and their laws, `api` the handlers
//! that map outcomes to statuses, `clock` timestamps and their rendering,
//! and `config` process settings built from plain values.

pub mod api;
pub mod clock;
pub mod config;
pub mod dto;
pub mod password;
pub mod repository;
pub mod store;
pub mod validate;
