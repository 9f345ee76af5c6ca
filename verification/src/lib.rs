//! A small library-management core.
//!
//! The heart of the crate is the checkout engine: it guarantees that a
//! physical book is never lent to two borrowers at once, and that a return
//! moves the loan into an append-only history as one indivisible step.
//!
//! - [`repository::checkout`] holds the engine: its state, its decisions and
//!   the coordinator over stores in memory.
//! - [`protocol`] lays a command out as a conversation with a transactional
//!   store, for coordinators whose store is elsewhere.
//! - [`laws`] states what holds of the engine in every state.
//! - [`store`] and [`ordering`] are what the engine stands on: the two
//!   record holders, and the stable ordering of rows.
//! - [`id`], [`error`], [`model`] and [`database`] are the values that pass
//!   between the parts; [`api`] is the library as its callers see it.
//!
//! Times are microseconds since the Unix epoch. Identifiers are UUIDs, held
//! as their 128-bit numbers.

pub mod api;
pub mod database;
pub mod env;
pub mod error;
pub mod id;
pub mod laws;
pub mod model;
pub mod ordering;
pub mod protocol;
pub mod redis;
pub mod repository;
pub mod store;
