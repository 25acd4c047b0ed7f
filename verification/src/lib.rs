//! Persistence core of an event-sourced storage adapter for a partitioned
//! key-value store that offers conditional single-item writes and bounded
//! atomic multi-item transactions.
//!
//! The library turns events, snapshots and views into conditional put
//! operations, guards the size of a transaction, decodes the records that a
//! partition query returns, and classifies the failures of the store. The
//! network round-trips themselves are left to the caller.
pub mod attribute;
pub mod decimal;
pub mod error;
pub mod event_repository;
pub mod json;
pub mod query;
pub mod query_repository;
pub mod snapshot;
pub mod transaction;

pub use crate::error::DynamoAggregateError;
pub use crate::event_repository::DynamoEventRepository;
pub use crate::query_repository::DynamoViewRepository;
