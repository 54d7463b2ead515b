//! The fixed exception taxonomy and the classifier that maps raw backend
//! failures onto it.
//!
//! The taxonomy shape is fixed by contract with a standard database-client
//! specification: `Error` is the root, `Warning` a sibling outside the error
//! tree, `InterfaceError` and `DatabaseError` are the root's children, and
//! the six specific failure kinds are children of `DatabaseError`.

use vstd::prelude::*;

verus! {

/// One member of the fixed exception taxonomy.
#[derive(Copy, Clone, PartialEq, Eq, Structural, Debug)]
pub enum ErrorKind {
    /// Root of the error tree.
    Error,
    /// Important but non-fatal conditions, e.g. data truncation. Not an
    /// error subtype: it stands beside the tree, not inside it.
    Warning,
    /// Misuse of the client surface itself, e.g. calling on a closed handle.
    InterfaceError,
    /// Generic parent of all failures originating from the backend; also the
    /// classifier's fallback when no finer classification is available.
    DatabaseError,
    /// Problems with the processed data: value out of range, invalid cast.
    DataError,
    /// The backend's operation failed: connectivity, resource exhaustion,
    /// backend unavailable.
    OperationalError,
    /// The relational integrity of the database is affected, e.g. a
    /// constraint check fails.
    IntegrityError,
    /// The backend reports an internal inconsistency, e.g. a stale cursor or
    /// a transaction out of sync.
    InternalError,
    /// Programming errors: malformed query or configuration, object not
    /// found, wrong number of parameters.
    ProgrammingError,
    /// A feature the backend does not support was requested.
    NotSupportedError,
}

/// Direct parent in the taxonomy tree; the root and `Warning` have none.
pub open spec fn spec_parent(k: ErrorKind) -> Option<ErrorKind> {
    match k {
        ErrorKind::Error => None,
        ErrorKind::Warning => None,
        ErrorKind::InterfaceError => Some(ErrorKind::Error),
        ErrorKind::DatabaseError => Some(ErrorKind::Error),
        _ => Some(ErrorKind::DatabaseError),
    }
}

/// Whether `k` is `cat` or a descendant of `cat` in the taxonomy tree. The
/// tree has depth two, so two parent steps cover every chain.
pub open spec fn spec_within(k: ErrorKind, cat: ErrorKind) -> bool {
    ||| k == cat
    ||| spec_parent(k) == Some(cat)
    ||| (match spec_parent(k) {
        Some(p) => spec_parent(p) == Some(cat),
        None => false,
    })
}

/// The taxonomy members with no children.
pub open spec fn spec_is_leaf(k: ErrorKind) -> bool {
    k != ErrorKind::Error && k != ErrorKind::DatabaseError
}

/// Whether `kind` falls under the category `cat`, so that a caller can catch
/// by category: every `DatabaseError` descendant, say, or only
/// `IntegrityError`.
pub fn kind_within(kind: ErrorKind, cat: ErrorKind) -> (b: bool)
    ensures
        b == spec_within(kind, cat),
{
    if kind == cat {
        true
    } else {
        match kind {
            ErrorKind::Error => false,
            ErrorKind::Warning => false,
            ErrorKind::InterfaceError => cat == ErrorKind::Error,
            ErrorKind::DatabaseError => cat == ErrorKind::Error,
            _ => cat == ErrorKind::DatabaseError || cat == ErrorKind::Error,
        }
    }
}

/// The backend-reported kind of one raw driver failure, as the drivers
/// expose it through error codes and kinds — classification never rests on
/// message text.
#[derive(Copy, Clone, PartialEq, Eq, Structural, Debug)]
pub enum RawErrorKind {
    /// Data was truncated while being stored.
    DataTruncation,
    /// The client surface was used after the handle was closed.
    ClosedHandle,
    /// The driver was handed arguments its low-level API refuses.
    MalformedDriverUsage,
    /// A numeric value fell outside the range of its column type.
    ValueOutOfRange,
    /// A stored value could not be cast to the requested type.
    InvalidCast,
    /// The backend could not be reached.
    ConnectionFailure,
    /// The backend rejected the credentials.
    AuthenticationFailed,
    /// The backend ran out of a resource, e.g. too many connections.
    ResourceExhausted,
    /// The backend is up but refuses service.
    BackendUnavailable,
    /// A unique constraint was violated.
    UniqueViolation,
    /// A foreign-key constraint was violated.
    ForeignKeyViolation,
    /// A not-null constraint was violated.
    NotNullViolation,
    /// A check constraint was violated.
    CheckViolation,
    /// The backend reported an internal inconsistency.
    InternalInconsistency,
    /// A cursor or transaction is no longer valid.
    StaleCursor,
    /// The statement could not be parsed.
    SyntaxError,
    /// A referenced table, column or other object does not exist.
    ObjectNotFound,
    /// The statement was given the wrong number of parameters.
    WrongParameterCount,
    /// The backend does not support the requested feature.
    UnsupportedFeature,
    /// The driver reported a failure it could not itself describe.
    Unknown,
}

/// One raw failure as it leaves the driver: its kind and the backend's own
/// message text.
#[derive(Clone, PartialEq, Debug)]
pub struct RawError {
    pub kind: RawErrorKind,
    pub message: String,
}

/// One classified failure as this core surfaces it: a taxonomy member and a
/// human-readable message derived from the backend's own error text.
#[derive(Clone, PartialEq, Debug)]
pub struct DbError {
    pub kind: ErrorKind,
    pub message: String,
}

/// Where each raw kind lands in the taxonomy. Total and deterministic: every
/// raw kind maps to exactly one member, and a kind with no finer
/// classification maps to the generic `DatabaseError`.
pub open spec fn spec_classify(k: RawErrorKind) -> ErrorKind {
    match k {
        RawErrorKind::DataTruncation => ErrorKind::Warning,
        RawErrorKind::ClosedHandle => ErrorKind::InterfaceError,
        RawErrorKind::MalformedDriverUsage => ErrorKind::InterfaceError,
        RawErrorKind::ValueOutOfRange => ErrorKind::DataError,
        RawErrorKind::InvalidCast => ErrorKind::DataError,
        RawErrorKind::ConnectionFailure => ErrorKind::OperationalError,
        RawErrorKind::AuthenticationFailed => ErrorKind::OperationalError,
        RawErrorKind::ResourceExhausted => ErrorKind::OperationalError,
        RawErrorKind::BackendUnavailable => ErrorKind::OperationalError,
        RawErrorKind::UniqueViolation => ErrorKind::IntegrityError,
        RawErrorKind::ForeignKeyViolation => ErrorKind::IntegrityError,
        RawErrorKind::NotNullViolation => ErrorKind::IntegrityError,
        RawErrorKind::CheckViolation => ErrorKind::IntegrityError,
        RawErrorKind::InternalInconsistency => ErrorKind::InternalError,
        RawErrorKind::StaleCursor => ErrorKind::InternalError,
        RawErrorKind::SyntaxError => ErrorKind::ProgrammingError,
        RawErrorKind::ObjectNotFound => ErrorKind::ProgrammingError,
        RawErrorKind::WrongParameterCount => ErrorKind::ProgrammingError,
        RawErrorKind::UnsupportedFeature => ErrorKind::NotSupportedError,
        RawErrorKind::Unknown => ErrorKind::DatabaseError,
    }
}

/// Classify one raw kind.
pub fn classify_kind(k: RawErrorKind) -> (r: ErrorKind)
    ensures
        r == spec_classify(k),
{
    match k {
        RawErrorKind::DataTruncation => ErrorKind::Warning,
        RawErrorKind::ClosedHandle => ErrorKind::InterfaceError,
        RawErrorKind::MalformedDriverUsage => ErrorKind::InterfaceError,
        RawErrorKind::ValueOutOfRange => ErrorKind::DataError,
        RawErrorKind::InvalidCast => ErrorKind::DataError,
        RawErrorKind::ConnectionFailure => ErrorKind::OperationalError,
        RawErrorKind::AuthenticationFailed => ErrorKind::OperationalError,
        RawErrorKind::ResourceExhausted => ErrorKind::OperationalError,
        RawErrorKind::BackendUnavailable => ErrorKind::OperationalError,
        RawErrorKind::UniqueViolation => ErrorKind::IntegrityError,
        RawErrorKind::ForeignKeyViolation => ErrorKind::IntegrityError,
        RawErrorKind::NotNullViolation => ErrorKind::IntegrityError,
        RawErrorKind::CheckViolation => ErrorKind::IntegrityError,
        RawErrorKind::InternalInconsistency => ErrorKind::InternalError,
        RawErrorKind::StaleCursor => ErrorKind::InternalError,
        RawErrorKind::SyntaxError => ErrorKind::ProgrammingError,
        RawErrorKind::ObjectNotFound => ErrorKind::ProgrammingError,
        RawErrorKind::WrongParameterCount => ErrorKind::ProgrammingError,
        RawErrorKind::UnsupportedFeature => ErrorKind::NotSupportedError,
        RawErrorKind::Unknown => ErrorKind::DatabaseError,
    }
}

/// Classify one raw failure, keeping the backend's own message text.
pub fn classify(raw: RawError) -> (e: DbError)
    ensures
        e.kind == spec_classify(raw.kind),
        e.message == raw.message,
{
    DbError { kind: classify_kind(raw.kind), message: raw.message }
}

/// Classification is total with no escape hatch: every raw kind maps to
/// exactly one taxonomy member, that member is a leaf or the generic
/// `DatabaseError` fallback, it is never the bare root, and it is either the
/// `Warning` sibling or a member of the error tree.
pub proof fn lemma_classification_total(k: RawErrorKind)
    ensures
        spec_is_leaf(spec_classify(k)) || spec_classify(k) == ErrorKind::DatabaseError,
        spec_classify(k) != ErrorKind::Error,
        spec_classify(k) == ErrorKind::Warning || spec_within(spec_classify(k), ErrorKind::Error),
{
}

/// Catching by category is sound for the classifier's results: every
/// classified kind other than `Warning` and `InterfaceError` falls under the
/// `DatabaseError` category.
pub proof fn lemma_backend_failures_are_database_errors(k: RawErrorKind)
    ensures
        spec_classify(k) != ErrorKind::Warning && spec_classify(k) != ErrorKind::InterfaceError
            ==> spec_within(spec_classify(k), ErrorKind::DatabaseError),
{
}

} // verus!
