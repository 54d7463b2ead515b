//! Verified core of a multi-backend SQL client.
//!
//! The crate models the pieces of a database-client surface that carry real
//! design decisions: the backend-tagged connection configuration and its
//! defaulting policy, the tagged-value decoding protocol that turns native
//! column values into a backend-independent representation, the fixed
//! exception taxonomy with its classifier, and the accounting of a bounded
//! connection pool together with the query operations that borrow it.
//! The backend drivers themselves (wire protocols, SQL generation, file and
//! network I/O) are external collaborators: they live outside this crate and
//! hand plain values in and out.

pub mod config;
pub mod decode;
pub mod errors;
pub mod executor;
pub mod pool;
pub mod values;

pub use config::ConnectionConfig;
pub use config::Driver;
pub use decode::DecodeError;
pub use decode::Row;
pub use decode::RowMap;
pub use errors::DbError;
pub use errors::ErrorKind;
pub use errors::RawError;
pub use errors::RawErrorKind;
pub use executor::QueryError;
pub use executor::Table;
pub use pool::AcquireDecision;
pub use pool::Database;
pub use pool::Pool;
pub use values::DecodeFailure;
pub use values::Value;
pub use values::ValueTag;
