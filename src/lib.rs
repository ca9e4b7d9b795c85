//! A small query engine: a dynamically typed column value, schema-driven
//! record building, a validated statement model, an immutable operator graph
//! built through an arena of drafts, and the decision logic of the streaming
//! protocol that runs such a graph.

pub mod error;
pub mod value;
pub mod record;
pub mod sql;
pub mod graph;
pub mod builder;
pub mod cache;
pub mod protocol;
pub mod query;
pub mod auth;
