//! A small question-and-answer store: entity types, a persistence gateway
//! with a two-kind error taxonomy, and the request-handling rules that map
//! gateway errors onto transport faults.

pub mod handlers;
pub mod ident;
pub mod models;
pub mod persistance;
