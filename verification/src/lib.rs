//! Error classification and result propagation for a SQL query front-end.
//!
//! The crate defines the closed taxonomy of query failures ([`QueryError`]),
//! the uniform outcome type every query-lifecycle operation returns
//! ([`QueryResult`]), the single normalizing conversion that brings
//! engine-native failures into the taxonomy, and the immutable identity
//! value naming a query target by its storage path ([`ResolvedTable`]).

pub mod error;
pub mod table;
pub mod text;

pub use error::EngineError;
pub use error::QueryError;
pub use error::QueryResult;
pub use error::SourceLocation;
pub use table::ResolvedTable;
