//! Query building and row mapping for a small inventory store.
//!
//! An entity whose fields are all optional serves three purposes: as a new row,
//! as a search filter and as a partial update. This crate turns such a value
//! into a parameterised statement, and maps stored rows back into entities.

pub mod date;
pub mod employee;
pub mod laws;
pub mod outcome;
pub mod placeholders;
pub mod product;
pub mod query;
pub mod record;
pub mod schema;
pub mod snapshot;
pub mod value;
