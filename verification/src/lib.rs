//! Engine-agnostic introspection of a PostgreSQL server.
//!
//! The library turns the flat rows that the server's catalog hands out into a
//! nested description of tables, columns, constraints and indices, maps the
//! server's type names to a small portable vocabulary, shapes query results
//! and decides the life cycle of a client's connection pool. It performs no
//! I/O itself: callers fetch the rows and hand them over as plain values.

pub mod text;
pub mod category;
pub mod error;
pub mod model;
pub mod tables;
pub mod json;
pub mod constraints;
pub mod indices;
pub mod views;
pub mod functions;
pub mod query;
pub mod schema;
pub mod client;
