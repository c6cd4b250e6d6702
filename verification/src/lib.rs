//! A fluent builder for SQL statements over the reloading database.
//!
//! A [`Database`] owns a storage connection and at most one statement under
//! construction. Clauses are accumulated in a [`Query`] and rendered to text,
//! either with literal values for display or with placeholders and a list of
//! values to bind.

pub mod database;
pub mod decimal;
pub mod error;
pub mod operator;
pub mod protocol;
pub mod query;
pub mod records;
pub mod render;
pub mod statement;
pub mod text;
pub mod value;

pub use database::{BuilderState, Database};
pub use decimal::Decimal;
pub use error::{Error, StateError, ValidationError};
pub use operator::{Command, Operator};
pub use query::{Condition, Query};
pub use records::Powder;
pub use value::Value;
