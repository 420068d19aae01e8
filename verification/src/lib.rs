//! A small note-keeping library: named collections of text notes over a
//! relational store, with create and list operations.
//!
//! The storage engine is modeled here as an in-memory pair of tables with the
//! same constraints the on-disk database enforces: unique collection names,
//! sequential primary keys, and notes that must reference an existing
//! collection. The statements the engine would run against the embedded
//! database, and the path of the database file, are produced by `backend`.

pub mod backend;
pub mod laws;
pub mod model;
pub mod services;
pub mod store;

use vstd::prelude::*;

verus! {

/// Row identifier assigned by the store on creation.
pub type Id = i32;

} // verus!
