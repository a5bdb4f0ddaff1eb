//! A product catalog search engine: a fixed schema, an indexing pipeline and a
//! query engine over an in-memory full-text index.

pub mod models;
pub mod schema;
pub mod backend;
pub mod document;
pub mod engine;
