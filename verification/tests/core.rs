use dbapi_core::config::ConnectionConfig;
use dbapi_core::config::Driver;
use dbapi_core::decode::DecodeError;
use dbapi_core::decode::Row;
use dbapi_core::decode::decode;
use dbapi_core::decode::failure_class;
use dbapi_core::decode::lookup;
use dbapi_core::errors::DbError;
use dbapi_core::errors::ErrorKind;
use dbapi_core::errors::RawError;
use dbapi_core::errors::RawErrorKind;
use dbapi_core::errors::classify;
use dbapi_core::errors::classify_kind;
use dbapi_core::errors::kind_within;
use dbapi_core::executor::QueryError;
use dbapi_core::executor::Table;
use dbapi_core::executor::decode_rows;
use dbapi_core::pool::AcquireDecision;
use dbapi_core::pool::Database;
use dbapi_core::pool::connect_outcome;
use dbapi_core::values::DecodeFailure;
use dbapi_core::values::Value;
use dbapi_core::values::ValueTag;
use dbapi_core::values::decode_cell;

fn sqlite_config(filename: &str) -> ConnectionConfig {
    ConnectionConfig::sqlite(filename.to_string(), None, None).unwrap()
}

fn users_table() -> Table {
    let mut t = Table::new();
    t.insert(Row {
        cells: vec![
            ("id".to_string(), Value::I64(1)),
            ("name".to_string(), Value::String("a".to_string())),
        ],
    });
    t.insert(Row {
        cells: vec![
            ("id".to_string(), Value::I64(2)),
            ("name".to_string(), Value::String("b".to_string())),
        ],
    });
    t
}

fn users_columns() -> Vec<(String, ValueTag)> {
    vec![("id".to_string(), ValueTag::I64), ("name".to_string(), ValueTag::String)]
}

// --- connection configuration -------------------------------------------

#[test]
fn sqlite_defaults() {
    let c = sqlite_config("/tmp/some.db");
    assert_eq!(c.min_connections, 1);
    assert_eq!(c.max_connections, 16);
    match &c.driver {
        Driver::SQLite { filename } => assert_eq!(filename, "/tmp/some.db"),
        other => panic!("wrong driver: {:?}", other),
    }
}

#[test]
fn sqlite_explicit_sizes() {
    let c = ConnectionConfig::sqlite("db".to_string(), Some(2), Some(4)).unwrap();
    assert_eq!(c.min_connections, 2);
    assert_eq!(c.max_connections, 4);
}

#[test]
fn mysql_defaults() {
    let c = ConnectionConfig::mysql(
        "shop".to_string(),
        "root".to_string(),
        "secret".to_string(),
        None,
        None,
        None,
        None,
    )
    .unwrap();
    assert_eq!(c.min_connections, 1);
    assert_eq!(c.max_connections, 32);
    match &c.driver {
        Driver::MySQL { name, host, port, user, password } => {
            assert_eq!(name, "shop");
            assert_eq!(host, "localhost");
            assert_eq!(*port, 3306);
            assert_eq!(user, "root");
            assert_eq!(password, "secret");
        }
        other => panic!("wrong driver: {:?}", other),
    }
}

#[test]
fn postgres_defaults() {
    let c = ConnectionConfig::postgres(
        "shop".to_string(),
        "admin".to_string(),
        "pw".to_string(),
        None,
        None,
        None,
        None,
    )
    .unwrap();
    assert_eq!(c.min_connections, 1);
    assert_eq!(c.max_connections, 32);
    match &c.driver {
        Driver::Postgres { host, port, .. } => {
            assert_eq!(host, "localhost");
            assert_eq!(*port, 5432);
        }
        other => panic!("wrong driver: {:?}", other),
    }
}

#[test]
fn mysql_explicit_endpoint() {
    let c = ConnectionConfig::mysql(
        "db".to_string(),
        "u".to_string(),
        "p".to_string(),
        Some("db.internal".to_string()),
        Some(3307),
        Some(2),
        Some(8),
    )
    .unwrap();
    match &c.driver {
        Driver::MySQL { host, port, .. } => {
            assert_eq!(host, "db.internal");
            assert_eq!(*port, 3307);
        }
        other => panic!("wrong driver: {:?}", other),
    }
}

#[test]
fn invalid_pool_sizes_rejected() {
    let e = ConnectionConfig::sqlite("db".to_string(), Some(8), Some(2)).unwrap_err();
    assert_eq!(e.kind, ErrorKind::ProgrammingError);
    let e = ConnectionConfig::sqlite("db".to_string(), Some(0), None).unwrap_err();
    assert_eq!(e.kind, ErrorKind::ProgrammingError);
    let e = ConnectionConfig::mysql(
        "db".to_string(),
        "u".to_string(),
        "p".to_string(),
        None,
        None,
        Some(5),
        Some(4),
    )
    .unwrap_err();
    assert_eq!(e.kind, ErrorKind::ProgrammingError);
}

#[test]
fn file_section_defaults() {
    let c = ConnectionConfig::from_file_section(
        Driver::SQLite { filename: "conf.db".to_string() },
        None,
        None,
    )
    .unwrap();
    assert_eq!(c.min_connections, 1);
    assert_eq!(c.max_connections, 32);
}

// --- pool construction and accounting -----------------------------------

#[test]
fn connect_new_sqlite_file_default_pool() {
    // A SQLite path with no existing file: the driver opens the floor of
    // one connection under the default sizing (min 1, max 16).
    let config = sqlite_config("/tmp/does-not-exist-yet.db");
    assert_eq!(config.min_connections, 1);
    assert_eq!(config.max_connections, 16);
    let db = connect_outcome(config, Ok(1)).unwrap();
    match db {
        Database::Open { pool } => {
            assert_eq!(pool.total, 1);
            assert_eq!(pool.in_use, 0);
            assert_eq!(pool.config.min_connections, 1);
            assert_eq!(pool.config.max_connections, 16);
        }
        Database::Closed => panic!("fresh handle must be open"),
    }
}

#[test]
fn connect_failure_is_classified_and_atomic() {
    let config = sqlite_config("/tmp/locked.db");
    let raw = RawError {
        kind: RawErrorKind::ConnectionFailure,
        message: "unable to open database file".to_string(),
    };
    let e = connect_outcome(config, Err(raw)).unwrap_err();
    assert_eq!(e.kind, ErrorKind::OperationalError);
    assert_eq!(e.message, "unable to open database file");
}

#[test]
fn connect_below_floor_is_operational() {
    let c = ConnectionConfig::sqlite("db".to_string(), Some(3), Some(8)).unwrap();
    let e = connect_outcome(c, Ok(2)).unwrap_err();
    assert_eq!(e.kind, ErrorKind::OperationalError);
}

#[test]
fn connect_invalid_config_is_interface_misuse() {
    let c = ConnectionConfig { driver: Driver::SQLite { filename: "db".to_string() }, min_connections: 4, max_connections: 2 };
    let e = connect_outcome(c, Ok(4)).unwrap_err();
    assert_eq!(e.kind, ErrorKind::InterfaceError);
}

#[test]
fn acquire_grow_wait_release_cycle() {
    let c = ConnectionConfig::sqlite("db".to_string(), Some(1), Some(2)).unwrap();
    let mut db = connect_outcome(c, Ok(1)).unwrap();
    assert_eq!(db.try_acquire().unwrap(), AcquireDecision::Granted);
    // all live connections are out, but the pool may grow
    assert_eq!(db.try_acquire().unwrap(), AcquireDecision::Grow);
    assert!(db.add_connection());
    assert_eq!(db.try_acquire().unwrap(), AcquireDecision::Granted);
    // at the ceiling and fully checked out: wait
    assert_eq!(db.try_acquire().unwrap(), AcquireDecision::Wait);
    assert!(!db.add_connection());
    assert!(db.release());
    assert_eq!(db.try_acquire().unwrap(), AcquireDecision::Granted);
}

#[test]
fn close_drains_then_closes() {
    let c = sqlite_config("db");
    let mut db = connect_outcome(c, Ok(1)).unwrap();
    assert_eq!(db.try_acquire().unwrap(), AcquireDecision::Granted);
    // a connection is still out: teardown is refused
    assert!(!db.close());
    assert!(db.is_open());
    assert!(db.release());
    assert!(db.close());
    assert!(!db.is_open());
    // closed handle: acquiring is interface misuse
    let e = db.try_acquire().unwrap_err();
    assert_eq!(e.kind, ErrorKind::InterfaceError);
}

// --- tagged-value decoding ----------------------------------------------

#[test]
fn decode_cell_round_trips() {
    assert_eq!(decode_cell(&Value::I64(42), ValueTag::I64), Ok(Value::I64(42)));
    assert_eq!(decode_cell(&Value::I32(-7), ValueTag::I32), Ok(Value::I32(-7)));
    assert_eq!(decode_cell(&Value::I16(9), ValueTag::I16), Ok(Value::I16(9)));
    assert_eq!(decode_cell(&Value::Bool(true), ValueTag::Bool), Ok(Value::Bool(true)));
    assert_eq!(
        decode_cell(&Value::String("abc".to_string()), ValueTag::String),
        Ok(Value::String("abc".to_string()))
    );
    let bits = (0.1f64 + 0.2f64).to_bits();
    assert_eq!(decode_cell(&Value::F64(bits), ValueTag::F64), Ok(Value::F64(bits)));
    assert_eq!(f64::from_bits(bits), 0.1f64 + 0.2f64);
    let fbits = 1.5f32.to_bits();
    assert_eq!(decode_cell(&Value::F32(fbits), ValueTag::F32), Ok(Value::F32(fbits)));
}

#[test]
fn decode_cell_narrows_in_range() {
    assert_eq!(decode_cell(&Value::I64(1000), ValueTag::I32), Ok(Value::I32(1000)));
    assert_eq!(decode_cell(&Value::I64(-32768), ValueTag::I16), Ok(Value::I16(-32768)));
    assert_eq!(decode_cell(&Value::I32(300), ValueTag::I16), Ok(Value::I16(300)));
}

#[test]
fn decode_cell_out_of_range() {
    assert_eq!(
        decode_cell(&Value::I64(4_000_000_000), ValueTag::I32),
        Err(DecodeFailure::OutOfRange)
    );
    assert_eq!(decode_cell(&Value::I64(40000), ValueTag::I16), Err(DecodeFailure::OutOfRange));
    assert_eq!(decode_cell(&Value::I32(-40000), ValueTag::I16), Err(DecodeFailure::OutOfRange));
}

#[test]
fn decode_cell_type_mismatch() {
    assert_eq!(
        decode_cell(&Value::String("1".to_string()), ValueTag::I64),
        Err(DecodeFailure::TypeMismatch)
    );
    assert_eq!(decode_cell(&Value::I64(1), ValueTag::Bool), Err(DecodeFailure::TypeMismatch));
    assert_eq!(decode_cell(&Value::F64(0), ValueTag::F32), Err(DecodeFailure::TypeMismatch));
}

#[test]
fn decode_cell_unsupported_tags_fail_loudly() {
    for tag in [ValueTag::Binary, ValueTag::Time, ValueTag::Date, ValueTag::DateTime] {
        assert_eq!(decode_cell(&Value::I64(0), tag), Err(DecodeFailure::Unsupported));
    }
}

#[test]
fn decode_null_tag_gives_null() {
    assert_eq!(decode_cell(&Value::I64(5), ValueTag::Null), Ok(Value::Null));
}

#[test]
fn lookup_finds_first_match() {
    let cells = vec![
        ("a".to_string(), Value::I64(1)),
        ("b".to_string(), Value::I64(2)),
        ("a".to_string(), Value::I64(3)),
    ];
    assert_eq!(lookup(&cells, &"a".to_string()), Some(&Value::I64(1)));
    assert_eq!(lookup(&cells, &"b".to_string()), Some(&Value::I64(2)));
    assert_eq!(lookup(&cells, &"c".to_string()), None);
}

#[test]
fn decode_row_keeps_request_order() {
    let row = Row {
        cells: vec![
            ("id".to_string(), Value::I64(7)),
            ("name".to_string(), Value::String("x".to_string())),
        ],
    };
    // request in the opposite order of storage
    let cols = vec![("name".to_string(), ValueTag::String), ("id".to_string(), ValueTag::I64)];
    let m = decode(&row, &cols).unwrap();
    assert_eq!(m.entries.len(), 2);
    assert_eq!(m.entries[0], ("name".to_string(), Value::String("x".to_string())));
    assert_eq!(m.entries[1], ("id".to_string(), Value::I64(7)));
}

#[test]
fn decode_row_error_names_column_and_tag() {
    let row = Row { cells: vec![("id".to_string(), Value::String("oops".to_string()))] };
    let cols = vec![("id".to_string(), ValueTag::I64)];
    let e = decode(&row, &cols).unwrap_err();
    assert_eq!(e.column, "id");
    assert_eq!(e.tag, ValueTag::I64);
    assert_eq!(e.cause, DecodeFailure::TypeMismatch);
    assert_eq!(failure_class(e.cause), ErrorKind::DataError);
}

#[test]
fn decode_row_missing_column() {
    let row = Row { cells: vec![("id".to_string(), Value::I64(1))] };
    let cols = vec![("absent".to_string(), ValueTag::I64)];
    let e = decode(&row, &cols).unwrap_err();
    assert_eq!(e.column, "absent");
    assert_eq!(e.cause, DecodeFailure::MissingColumn);
    assert_eq!(failure_class(e.cause), ErrorKind::ProgrammingError);
}

#[test]
fn decode_row_first_failure_wins() {
    let row = Row {
        cells: vec![
            ("a".to_string(), Value::Bool(true)),
            ("b".to_string(), Value::I64(1)),
        ],
    };
    let cols = vec![
        ("a".to_string(), ValueTag::I64),
        ("missing".to_string(), ValueTag::I64),
    ];
    let e = decode(&row, &cols).unwrap_err();
    assert_eq!(e.column, "a");
    assert_eq!(e.cause, DecodeFailure::TypeMismatch);
}

#[test]
fn row_map_lookup() {
    let row = Row {
        cells: vec![
            ("id".to_string(), Value::I64(7)),
            ("name".to_string(), Value::String("x".to_string())),
        ],
    };
    let cols = vec![("id".to_string(), ValueTag::I64), ("name".to_string(), ValueTag::String)];
    let m = decode(&row, &cols).unwrap();
    assert_eq!(m.get(&"id".to_string()), Some(&Value::I64(7)));
    assert_eq!(m.get(&"name".to_string()), Some(&Value::String("x".to_string())));
    assert_eq!(m.get(&"other".to_string()), None);
}

#[test]
fn decode_cell_narrowing_boundaries() {
    assert_eq!(decode_cell(&Value::I64(i32::MAX as i64), ValueTag::I32), Ok(Value::I32(i32::MAX)));
    assert_eq!(decode_cell(&Value::I64(i32::MIN as i64), ValueTag::I32), Ok(Value::I32(i32::MIN)));
    assert_eq!(
        decode_cell(&Value::I64(i32::MAX as i64 + 1), ValueTag::I32),
        Err(DecodeFailure::OutOfRange)
    );
    assert_eq!(
        decode_cell(&Value::I64(i32::MIN as i64 - 1), ValueTag::I32),
        Err(DecodeFailure::OutOfRange)
    );
    assert_eq!(decode_cell(&Value::I32(32767), ValueTag::I16), Ok(Value::I16(32767)));
    assert_eq!(decode_cell(&Value::I32(32768), ValueTag::I16), Err(DecodeFailure::OutOfRange));
}

#[test]
fn file_section_invalid_override_rejected() {
    let e = ConnectionConfig::from_file_section(
        Driver::SQLite { filename: "conf.db".to_string() },
        Some(10),
        Some(3),
    )
    .unwrap_err();
    assert_eq!(e.kind, ErrorKind::ProgrammingError);
}

// --- error classification -----------------------------------------------

#[test]
fn classifier_is_total_and_maps_each_kind() {
    let expected = [
        (RawErrorKind::DataTruncation, ErrorKind::Warning),
        (RawErrorKind::ClosedHandle, ErrorKind::InterfaceError),
        (RawErrorKind::MalformedDriverUsage, ErrorKind::InterfaceError),
        (RawErrorKind::ValueOutOfRange, ErrorKind::DataError),
        (RawErrorKind::InvalidCast, ErrorKind::DataError),
        (RawErrorKind::ConnectionFailure, ErrorKind::OperationalError),
        (RawErrorKind::AuthenticationFailed, ErrorKind::OperationalError),
        (RawErrorKind::ResourceExhausted, ErrorKind::OperationalError),
        (RawErrorKind::BackendUnavailable, ErrorKind::OperationalError),
        (RawErrorKind::UniqueViolation, ErrorKind::IntegrityError),
        (RawErrorKind::ForeignKeyViolation, ErrorKind::IntegrityError),
        (RawErrorKind::NotNullViolation, ErrorKind::IntegrityError),
        (RawErrorKind::CheckViolation, ErrorKind::IntegrityError),
        (RawErrorKind::InternalInconsistency, ErrorKind::InternalError),
        (RawErrorKind::StaleCursor, ErrorKind::InternalError),
        (RawErrorKind::SyntaxError, ErrorKind::ProgrammingError),
        (RawErrorKind::ObjectNotFound, ErrorKind::ProgrammingError),
        (RawErrorKind::WrongParameterCount, ErrorKind::ProgrammingError),
        (RawErrorKind::UnsupportedFeature, ErrorKind::NotSupportedError),
        (RawErrorKind::Unknown, ErrorKind::DatabaseError),
    ];
    for (raw, kind) in expected {
        assert_eq!(classify_kind(raw), kind);
        // never the bare root, and exactly one classification per kind
        assert_ne!(classify_kind(raw), ErrorKind::Error);
    }
}

#[test]
fn classified_error_keeps_backend_message() {
    let e = classify(RawError {
        kind: RawErrorKind::UniqueViolation,
        message: "UNIQUE constraint failed: users.id".to_string(),
    });
    assert_eq!(e.kind, ErrorKind::IntegrityError);
    assert_eq!(e.message, "UNIQUE constraint failed: users.id");
}

#[test]
fn catch_by_category() {
    assert!(kind_within(ErrorKind::IntegrityError, ErrorKind::DatabaseError));
    assert!(kind_within(ErrorKind::IntegrityError, ErrorKind::Error));
    assert!(kind_within(ErrorKind::InterfaceError, ErrorKind::Error));
    assert!(kind_within(ErrorKind::DatabaseError, ErrorKind::DatabaseError));
    assert!(!kind_within(ErrorKind::Warning, ErrorKind::Error));
    assert!(!kind_within(ErrorKind::InterfaceError, ErrorKind::DatabaseError));
    assert!(!kind_within(ErrorKind::Error, ErrorKind::DatabaseError));
}

// --- the query operations ------------------------------------------------

#[test]
fn query_all_users_in_storage_order() {
    // query_all("users", [("id", I64), ("name", String)]) against rows
    // (1, "a"), (2, "b") yields the two mappings in storage order.
    let table = users_table();
    let cols = users_columns();
    let config = sqlite_config("users.db");
    let mut db = connect_outcome(config, Ok(1)).unwrap();
    assert_eq!(db.try_acquire().unwrap(), AcquireDecision::Granted);
    let fetched = Ok(table.select_all().clone());
    let maps = db.finish_query(fetched, &cols).unwrap();
    assert_eq!(maps.len(), 2);
    assert_eq!(
        maps[0].entries,
        vec![("id".to_string(), Value::I64(1)), ("name".to_string(), Value::String("a".to_string()))]
    );
    assert_eq!(
        maps[1].entries,
        vec![("id".to_string(), Value::I64(2)), ("name".to_string(), Value::String("b".to_string()))]
    );
    // the connection went back to the pool
    match &db {
        Database::Open { pool } => assert_eq!(pool.in_use, 0),
        Database::Closed => panic!("handle should still be open"),
    }
}

#[test]
fn query_all_empty_table_is_empty_success() {
    let table = Table::new();
    let cols = users_columns();
    let mut db = connect_outcome(sqlite_config("empty.db"), Ok(1)).unwrap();
    assert_eq!(db.try_acquire().unwrap(), AcquireDecision::Granted);
    let maps = db.finish_query(Ok(table.select_all().clone()), &cols).unwrap();
    assert!(maps.is_empty());
}

#[test]
fn query_all_driver_failure_is_classified() {
    let cols = users_columns();
    let mut db = connect_outcome(sqlite_config("x.db"), Ok(1)).unwrap();
    assert_eq!(db.try_acquire().unwrap(), AcquireDecision::Granted);
    let raw = RawError { kind: RawErrorKind::ObjectNotFound, message: "no such table: users".to_string() };
    let e = db.finish_query(Err(raw), &cols).unwrap_err();
    match &e {
        QueryError::Driver(d) => {
            assert_eq!(d.kind, ErrorKind::ProgrammingError);
            assert_eq!(d.message, "no such table: users");
        }
        QueryError::Decode(_) => panic!("expected a driver failure"),
    }
    assert_eq!(e.kind(), ErrorKind::ProgrammingError);
    // released even on the error path
    match &db {
        Database::Open { pool } => assert_eq!(pool.in_use, 0),
        Database::Closed => panic!("handle should still be open"),
    }
}

#[test]
fn query_all_decode_failure_releases_connection() {
    let table = users_table();
    let cols = vec![("id".to_string(), ValueTag::Bool)];
    let mut db = connect_outcome(sqlite_config("x.db"), Ok(1)).unwrap();
    assert_eq!(db.try_acquire().unwrap(), AcquireDecision::Granted);
    let e = db.finish_query(Ok(table.select_all().clone()), &cols).unwrap_err();
    match &e {
        QueryError::Decode(d) => {
            assert_eq!(d.column, "id");
            assert_eq!(d.tag, ValueTag::Bool);
            assert_eq!(d.cause, DecodeFailure::TypeMismatch);
        }
        QueryError::Driver(_) => panic!("expected a decode failure"),
    }
    assert_eq!(e.kind(), ErrorKind::DataError);
    match &db {
        Database::Open { pool } => assert_eq!(pool.in_use, 0),
        Database::Closed => panic!("handle should still be open"),
    }
}

#[test]
fn decode_rows_directly() {
    let table = users_table();
    let cols = users_columns();
    let maps = decode_rows(table.select_all(), &cols).unwrap();
    assert_eq!(maps.len(), 2);
    assert_eq!(maps[0].entries[0].1, Value::I64(1));
    assert_eq!(maps[1].entries[1].1, Value::String("b".to_string()));
}

#[test]
fn delete_all_empty_and_nonempty() {
    // on an empty table the delete succeeds and the table stays empty
    let mut empty = Table::new();
    assert!(empty.delete_all());
    assert!(empty.select_all().is_empty());

    // on a non-empty table, after a successful delete_all a subsequent
    // query_all returns zero rows
    let mut table = users_table();
    assert!(table.delete_all());
    let cols = users_columns();
    let mut db = connect_outcome(sqlite_config("x.db"), Ok(1)).unwrap();
    assert_eq!(db.try_acquire().unwrap(), AcquireDecision::Granted);
    let outcome: Result<(), RawError> = Ok(());
    assert_eq!(db.finish_delete(outcome).unwrap(), true);
    assert_eq!(db.try_acquire().unwrap(), AcquireDecision::Granted);
    let maps = db.finish_query(Ok(table.select_all().clone()), &cols).unwrap();
    assert_eq!(maps.len(), 0);
}

#[test]
fn delete_all_driver_failure_is_classified() {
    let mut db = connect_outcome(sqlite_config("x.db"), Ok(1)).unwrap();
    assert_eq!(db.try_acquire().unwrap(), AcquireDecision::Granted);
    let raw = RawError { kind: RawErrorKind::BackendUnavailable, message: "database is locked".to_string() };
    let e: DbError = db.finish_delete(Err(raw)).unwrap_err();
    assert_eq!(e.kind, ErrorKind::OperationalError);
    assert_eq!(e.message, "database is locked");
    match &db {
        Database::Open { pool } => assert_eq!(pool.in_use, 0),
        Database::Closed => panic!("handle should still be open"),
    }
}
