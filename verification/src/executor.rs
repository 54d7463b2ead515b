//! The query executor: the verified half of `query_all` and `delete_all`.
//!
//! Each operation checks out exactly one pooled connection, lets the driver
//! perform the I/O, and then completes here: the fetched rows are decoded
//! with the caller's tags (or the raw failure is classified), and the
//! connection is returned to the pool on every exit path. Row order is the
//! backend's: the decoder never reorders what the driver returned.

use vstd::prelude::*;

use crate::decode::DecodeError;
use crate::decode::Row;
use crate::decode::RowMap;
use crate::decode::decode;
use crate::decode::lemma_decode_row_shape;
use crate::decode::spec_decode_row;
use crate::errors::DbError;
use crate::errors::ErrorKind;
use crate::errors::RawError;
use crate::errors::classify;
use crate::errors::spec_classify;
use crate::pool::Database;
use crate::pool::Pool;
use crate::values::Value;
use crate::values::ValueTag;

verus! {

/// How one query operation failed: either the driver itself reported a raw
/// failure, which is classified, or a fetched row refused to decode under
/// the caller's tags.
#[derive(Clone, PartialEq, Debug)]
pub enum QueryError {
    /// A classified raw driver failure.
    Driver(DbError),
    /// A decode failure, carrying the column and tag for diagnosis.
    Decode(DecodeError),
}

impl QueryError {
    /// The taxonomy kind of this failure.
    pub open spec fn spec_kind(self) -> ErrorKind {
        match self {
            QueryError::Driver(e) => e.kind,
            QueryError::Decode(e) => crate::decode::spec_failure_class(e.cause),
        }
    }

    /// The taxonomy kind of this failure.
    pub fn kind(&self) -> (k: ErrorKind)
        ensures
            k == self.spec_kind(),
    {
        match self {
            QueryError::Driver(e) => e.kind,
            QueryError::Decode(e) => crate::decode::failure_class(e.cause),
        }
    }
}

/// What decoding a whole result set yields: one decoded row per fetched
/// row, in the backend's order, or the first failure.
pub open spec fn spec_decode_rows(rows: Seq<Row>, cols: Seq<(String, ValueTag)>) -> Result<
    Seq<Seq<(String, Value)>>,
    DecodeError,
>
    decreases rows.len(),
{
    if rows.len() == 0 {
        Ok(Seq::empty())
    } else {
        match spec_decode_rows(rows.drop_last(), cols) {
            Err(e) => Err(e),
            Ok(rest) => match spec_decode_row(rows.last().cells@, cols) {
                Err(e) => Err(e),
                Ok(entries) => Ok(rest.push(entries)),
            },
        }
    }
}

/// If decoding a proper prefix of the result set already failed, the whole
/// result set fails with that same first error.
proof fn lemma_decode_rows_error_extends(
    rows: Seq<Row>,
    cols: Seq<(String, ValueTag)>,
    k: int,
    e: DecodeError,
)
    requires
        0 <= k <= rows.len(),
        spec_decode_rows(rows.take(k), cols) == Err::<Seq<Seq<(String, Value)>>, DecodeError>(e),
    ensures
        spec_decode_rows(rows, cols) == Err::<Seq<Seq<(String, Value)>>, DecodeError>(e),
    decreases rows.len() - k,
{
    if k == rows.len() {
        assert(rows.take(k) =~= rows);
    } else {
        assert(rows.take(k + 1).drop_last() =~= rows.take(k));
        assert(spec_decode_rows(rows.take(k + 1), cols) == Err::<
            Seq<Seq<(String, Value)>>,
            DecodeError,
        >(e));
        lemma_decode_rows_error_extends(rows, cols, k + 1, e);
    }
}

/// Decode every fetched row under the caller's requested columns. Row order
/// is preserved; the first row that refuses to decode fails the whole
/// operation with its error.
pub fn decode_rows(rows: &Vec<Row>, columns: &Vec<(String, ValueTag)>) -> (r: Result<
    Vec<RowMap>,
    DecodeError,
>)
    ensures
        (r matches Ok(ms) ==> spec_decode_rows(rows@, columns@) == Ok::<_, DecodeError>(
            ms@.map_values(|m: RowMap| m.entries@),
        )),
        (r matches Ok(ms) ==> ms@.len() == rows@.len()),
        (r matches Err(e) ==> spec_decode_rows(rows@, columns@) == Err::<
            Seq<Seq<(String, Value)>>,
            _,
        >(e)),
        (r is Ok <==> spec_decode_rows(rows@, columns@) is Ok),
{
    let n = rows.len();
    let mut out: Vec<RowMap> = Vec::new();
    let mut i: usize = 0;
    proof {
        assert(rows@.take(0) =~= Seq::<Row>::empty());
        assert(out@.map_values(|m: RowMap| m.entries@) =~= Seq::<Seq<(String, Value)>>::empty());
    }
    while i < n
        invariant
            0 <= i <= n,
            n == rows@.len(),
            i == out@.len(),
            spec_decode_rows(rows@.take(i as int), columns@) == Ok::<_, DecodeError>(
                out@.map_values(|m: RowMap| m.entries@),
            ),
        decreases n - i,
    {
        let ghost prev = out@;
        match decode(&rows[i], columns) {
            Ok(m) => {
                let ghost entries = m.entries@;
                out.push(m);
                proof {
                    assert(rows@.take(i as int + 1).drop_last() =~= rows@.take(i as int));
                    assert(rows@.take(i as int + 1).last() == rows@[i as int]);
                    assert(out@ == prev.push(out@[i as int]));
                    assert(out@.map_values(|m: RowMap| m.entries@) =~= prev.map_values(
                        |m: RowMap| m.entries@,
                    ).push(entries));
                }
                i += 1;
            },
            Err(e) => {
                proof {
                    assert(rows@.take(i as int + 1).drop_last() =~= rows@.take(i as int));
                    assert(rows@.take(i as int + 1).last() == rows@[i as int]);
                    assert(spec_decode_rows(rows@.take(i as int + 1), columns@) == Err::<
                        Seq<Seq<(String, Value)>>,
                        _,
                    >(e));
                    lemma_decode_rows_error_extends(rows@, columns@, i as int + 1, e);
                }
                return Err(e);
            },
        }
    }
    proof {
        assert(rows@.take(n as int) =~= rows@);
    }
    Ok(out)
}

/// An empty result set decodes to the empty sequence of row-mappings — an
/// empty table's `query_all` is a success, never a null or an error.
pub proof fn lemma_query_all_empty(rows: Seq<Row>, cols: Seq<(String, ValueTag)>)
    requires
        rows.len() == 0,
    ensures
        spec_decode_rows(rows, cols) == Ok::<_, DecodeError>(Seq::<Seq<(String, Value)>>::empty()),
{
    assert(rows =~= Seq::<Row>::empty());
}

/// A successfully decoded result set holds one row-mapping per fetched row.
proof fn lemma_query_all_len(rows: Seq<Row>, cols: Seq<(String, ValueTag)>)
    requires
        spec_decode_rows(rows, cols) is Ok,
    ensures
        (spec_decode_rows(rows, cols)->Ok_0).len() == rows.len(),
    decreases rows.len(),
{
    if rows.len() == 0 {
    } else {
        lemma_query_all_len(rows.drop_last(), cols);
    }
}

/// The row-mapping at one position of a successfully decoded result set is
/// the decoding of the fetched row at that same position.
proof fn lemma_query_all_index(rows: Seq<Row>, cols: Seq<(String, ValueTag)>, i: int)
    requires
        spec_decode_rows(rows, cols) is Ok,
        0 <= i < rows.len(),
    ensures
        spec_decode_row(rows[i].cells@, cols) is Ok,
        (spec_decode_rows(rows, cols)->Ok_0)[i] == spec_decode_row(rows[i].cells@, cols)->Ok_0,
    decreases rows.len(),
{
    lemma_query_all_len(rows, cols);
    if i == rows.len() - 1 {
        assert(rows.last() == rows[i]);
    } else {
        lemma_query_all_index(rows.drop_last(), cols, i);
        lemma_query_all_len(rows.drop_last(), cols);
        assert(rows.drop_last()[i] == rows[i]);
    }
}

/// A successfully decoded result set of a table with N rows holds exactly N
/// row-mappings, in the backend's native order, and each mapping holds
/// exactly the requested columns, in request order.
pub proof fn lemma_query_all_shape(rows: Seq<Row>, cols: Seq<(String, ValueTag)>)
    requires
        spec_decode_rows(rows, cols) is Ok,
    ensures
        (spec_decode_rows(rows, cols)->Ok_0).len() == rows.len(),
        forall|i: int|
            #![trigger spec_decode_row(rows[i].cells@, cols)]
            0 <= i < rows.len() ==> spec_decode_row(rows[i].cells@, cols) is Ok,
        forall|i: int|
            #![trigger (spec_decode_rows(rows, cols)->Ok_0)[i]]
            0 <= i < rows.len() ==> (spec_decode_rows(rows, cols)->Ok_0)[i] == spec_decode_row(
                rows[i].cells@,
                cols,
            )->Ok_0,
        forall|i: int|
            #![trigger (spec_decode_rows(rows, cols)->Ok_0)[i]]
            0 <= i < rows.len() ==> ((spec_decode_rows(rows, cols)->Ok_0)[i]).len() == cols.len(),
        forall|i: int, j: int|
            #![trigger (spec_decode_rows(rows, cols)->Ok_0)[i][j]]
            0 <= i < rows.len() && 0 <= j < cols.len() ==> ((spec_decode_rows(
                rows,
                cols,
            )->Ok_0)[i][j]).0 == cols[j].0,
{
    lemma_query_all_len(rows, cols);
    assert forall|i: int|
        #![trigger spec_decode_row(rows[i].cells@, cols)]
        0 <= i < rows.len() implies spec_decode_row(rows[i].cells@, cols) is Ok by {
        lemma_query_all_index(rows, cols, i);
    }
    assert forall|i: int|
        #![trigger (spec_decode_rows(rows, cols)->Ok_0)[i]]
        0 <= i < rows.len() implies (spec_decode_rows(rows, cols)->Ok_0)[i] == spec_decode_row(
        rows[i].cells@,
        cols,
    )->Ok_0 by {
        lemma_query_all_index(rows, cols, i);
    }
    assert forall|i: int|
        #![trigger (spec_decode_rows(rows, cols)->Ok_0)[i]]
        0 <= i < rows.len() implies ((spec_decode_rows(rows, cols)->Ok_0)[i]).len()
        == cols.len() by {
        lemma_query_all_index(rows, cols, i);
        lemma_decode_row_shape(rows[i].cells@, cols);
    }
    assert forall|i: int, j: int|
        #![trigger (spec_decode_rows(rows, cols)->Ok_0)[i][j]]
        0 <= i < rows.len() && 0 <= j < cols.len() implies ((spec_decode_rows(
        rows,
        cols,
    )->Ok_0)[i][j]).0 == cols[j].0 by {
        lemma_query_all_index(rows, cols, i);
        lemma_decode_row_shape(rows[i].cells@, cols);
    }
}

impl Database {
    /// Complete one `query_all` operation. The caller holds one checked-out
    /// connection; the driver has fetched the rows (or failed); this
    /// function decodes them under the caller's tags, classifies a raw
    /// failure, and returns the connection to the pool on every exit path.
    pub fn finish_query(
        &mut self,
        fetched: Result<Vec<Row>, RawError>,
        columns: &Vec<(String, ValueTag)>,
    ) -> (r: Result<Vec<RowMap>, QueryError>)
        requires
            old(self).wf(),
            (*old(self)) matches Database::Open { pool } && pool.in_use > 0,
        ensures
            final(self).wf(),
            ((*old(self)) matches Database::Open { pool } ==> {
                &&& *final(self) == (Database::Open {
                    pool: Pool {
                        config: pool.config,
                        total: pool.total,
                        in_use: (pool.in_use - 1) as u32,
                    },
                })
                &&& (fetched matches Err(raw) ==> r matches Err(qe) && qe == QueryError::Driver(
                    DbError { kind: spec_classify(raw.kind), message: raw.message },
                ))
                &&& (fetched matches Ok(rows) ==> {
                    &&& (r matches Ok(ms) ==> spec_decode_rows(rows@, columns@) == Ok::<
                        _,
                        DecodeError,
                    >(ms@.map_values(|m: RowMap| m.entries@)) && ms@.len() == rows@.len())
                    &&& (r matches Err(qe) ==> qe matches QueryError::Decode(e)
                        && spec_decode_rows(rows@, columns@) == Err::<
                        Seq<Seq<(String, Value)>>,
                        _,
                    >(e))
                    &&& (r is Ok <==> spec_decode_rows(rows@, columns@) is Ok)
                })
            }),
    {
        let result: Result<Vec<RowMap>, QueryError> = match fetched {
            Err(raw) => Err(QueryError::Driver(classify(raw))),
            Ok(rows) => match decode_rows(&rows, columns) {
                Ok(ms) => Ok(ms),
                Err(e) => Err(QueryError::Decode(e)),
            },
        };
        match self {
            Database::Open { pool } => {
                pool.in_use = pool.in_use - 1;
            },
            Database::Closed => {
            },
        }
        result
    }

    /// Complete one `delete_all` operation: a boolean success signal when
    /// the driver's delete went through, the classified failure otherwise.
    /// The connection is returned to the pool on every exit path.
    pub fn finish_delete(&mut self, outcome: Result<(), RawError>) -> (r: Result<bool, DbError>)
        requires
            old(self).wf(),
            (*old(self)) matches Database::Open { pool } && pool.in_use > 0,
        ensures
            final(self).wf(),
            ((*old(self)) matches Database::Open { pool } ==> {
                &&& *final(self) == (Database::Open {
                    pool: Pool {
                        config: pool.config,
                        total: pool.total,
                        in_use: (pool.in_use - 1) as u32,
                    },
                })
                &&& (outcome is Ok ==> r == Ok::<_, DbError>(true))
                &&& (outcome matches Err(raw) ==> r matches Err(e) && e.kind == spec_classify(
                    raw.kind,
                ) && e.message == raw.message)
            }),
    {
        let result: Result<bool, DbError> = match outcome {
            Err(raw) => Err(classify(raw)),
            Ok(unit) => Ok(true),
        };
        match self {
            Database::Open { pool } => {
                pool.in_use = pool.in_use - 1;
            },
            Database::Closed => {
            },
        }
        result
    }
}

/// An in-memory model of one backend table: its rows in storage order. It
/// stands in for the external backend when the query operations' laws are
/// stated and exercised: a read returns exactly the stored rows, and an
/// unconditional delete leaves the table empty.
#[derive(PartialEq, Debug)]
pub struct Table {
    pub rows: Vec<Row>,
}

impl Table {
    /// An empty table.
    pub fn new() -> (t: Table)
        ensures
            t.rows@.len() == 0,
    {
        Table { rows: Vec::new() }
    }

    /// Append one row in storage order.
    pub fn insert(&mut self, row: Row)
        ensures
            final(self).rows@ == old(self).rows@.push(row),
    {
        self.rows.push(row);
    }

    /// What a full read returns: the stored rows, in storage order.
    pub fn select_all(&self) -> (r: &Vec<Row>)
        ensures
            r@ == self.rows@,
    {
        &self.rows
    }

    /// What an unconditional delete leaves: no rows at all. It succeeds on
    /// an empty table just as on a non-empty one.
    pub fn delete_all(&mut self) -> (ok: bool)
        ensures
            ok,
            final(self).rows@.len() == 0,
    {
        self.rows.clear();
        true
    }
}

/// After a successful `delete_all`, a subsequent `query_all` of the same
/// table decodes to zero row-mappings, whatever columns are requested; and
/// on an already-empty table the delete leaves the table just as empty.
pub proof fn lemma_delete_then_query(t: Table, cols: Seq<(String, ValueTag)>)
    requires
        t.rows@.len() == 0,
    ensures
        spec_decode_rows(t.rows@, cols) == Ok::<_, DecodeError>(
            Seq::<Seq<(String, Value)>>::empty(),
        ),
{
    lemma_query_all_empty(t.rows@, cols);
}

} // verus!
