//! The row decoder: converts one backend-native result row, given the
//! caller's (column name, tag) requests, into an owned, backend-independent
//! ordered mapping from column name to typed value.
//!
//! Any extraction failure carries the column name and tag on which it
//! happened; decoding never substitutes a null for a stored value.

use vstd::prelude::*;

use crate::values::DecodeFailure;
use crate::values::Value;
use crate::values::ValueTag;
use crate::values::decode_cell;
use crate::values::spec_decode_cell;
use crate::errors::ErrorKind;

verus! {

/// One backend-native result row, modeled as the ordered list of its
/// columns' stored values. It is ephemeral: the decoder reads it once and
/// produces an owned mapping.
#[derive(Clone, PartialEq, Debug)]
pub struct Row {
    pub cells: Vec<(String, Value)>,
}

/// An owned, decoded row: an ordered mapping from column name to value, one
/// entry per requested column, in request order.
#[derive(Clone, PartialEq, Debug)]
pub struct RowMap {
    pub entries: Vec<(String, Value)>,
}

impl RowMap {
    /// The value decoded for one column, if the column was requested.
    pub fn get<'a>(&'a self, name: &String) -> (r: Option<&'a Value>)
        ensures
            (r matches Some(v) ==> spec_lookup(self.entries@, name@) == Some(*v)),
            (r is None ==> spec_lookup(self.entries@, name@) is None),
    {
        lookup(&self.entries, name)
    }
}

/// A decode failure: the column name and declared tag on which extraction
/// failed, and why.
#[derive(Clone, PartialEq, Debug)]
pub struct DecodeError {
    pub column: String,
    pub tag: ValueTag,
    pub cause: DecodeFailure,
}

/// The taxonomy class of a decode failure: an unimplemented tag is a
/// not-supported failure, a missing column a programming error, and a
/// mismatch or out-of-range conversion a data error.
pub open spec fn spec_failure_class(f: DecodeFailure) -> ErrorKind {
    match f {
        DecodeFailure::Unsupported => ErrorKind::NotSupportedError,
        DecodeFailure::MissingColumn => ErrorKind::ProgrammingError,
        DecodeFailure::TypeMismatch => ErrorKind::DataError,
        DecodeFailure::OutOfRange => ErrorKind::DataError,
    }
}

/// The taxonomy class of a decode failure.
pub fn failure_class(f: DecodeFailure) -> (k: ErrorKind)
    ensures
        k == spec_failure_class(f),
{
    match f {
        DecodeFailure::Unsupported => ErrorKind::NotSupportedError,
        DecodeFailure::MissingColumn => ErrorKind::ProgrammingError,
        DecodeFailure::TypeMismatch => ErrorKind::DataError,
        DecodeFailure::OutOfRange => ErrorKind::DataError,
    }
}

/// The stored value of the first cell whose column name matches, if any.
pub open spec fn spec_lookup(cells: Seq<(String, Value)>, name: Seq<char>) -> Option<Value>
    decreases cells.len(),
{
    if cells.len() == 0 {
        None
    } else if cells[0].0@ == name {
        Some(cells[0].1)
    } else {
        spec_lookup(cells.skip(1), name)
    }
}

/// What decoding one requested column against one row yields: the decoded
/// value, or the failure annotated with the column and tag.
pub open spec fn spec_decode_column(cells: Seq<(String, Value)>, col: (String, ValueTag)) -> Result<
    Value,
    DecodeError,
> {
    match spec_lookup(cells, col.0@) {
        None => Err(DecodeError { column: col.0, tag: col.1, cause: DecodeFailure::MissingColumn }),
        Some(stored) => match spec_decode_cell(stored, col.1) {
            Ok(v) => Ok(v),
            Err(f) => Err(DecodeError { column: col.0, tag: col.1, cause: f }),
        },
    }
}

/// What decoding one row under a list of requested columns yields: one entry
/// per column in request order, or the leftmost failure.
pub open spec fn spec_decode_row(
    cells: Seq<(String, Value)>,
    cols: Seq<(String, ValueTag)>,
) -> Result<Seq<(String, Value)>, DecodeError>
    decreases cols.len(),
{
    if cols.len() == 0 {
        Ok(Seq::empty())
    } else {
        match spec_decode_row(cells, cols.drop_last()) {
            Err(e) => Err(e),
            Ok(rest) => match spec_decode_column(cells, cols.last()) {
                Err(e) => Err(e),
                Ok(v) => Ok(rest.push((cols.last().0, v))),
            },
        }
    }
}

/// Find the first cell of `cells` whose column name is `name`.
pub fn lookup<'a>(cells: &'a Vec<(String, Value)>, name: &String) -> (r: Option<&'a Value>)
    ensures
        (r matches Some(v) ==> spec_lookup(cells@, name@) == Some(*v)),
        (r is None ==> spec_lookup(cells@, name@) is None),
{
    let n = cells.len();
    let mut i: usize = 0;
    proof {
        assert(cells@.skip(0) =~= cells@);
    }
    while i < n
        invariant
            0 <= i <= n,
            n == cells@.len(),
            spec_lookup(cells@, name@) == spec_lookup(cells@.skip(i as int), name@),
        decreases n - i,
    {
        if cells[i].0 == *name {
            proof {
                assert(cells@.skip(i as int)[0] == cells@[i as int]);
            }
            return Some(&cells[i].1);
        }
        proof {
            assert(cells@.skip(i as int)[0] == cells@[i as int]);
            assert(cells@.skip(i as int).skip(1) =~= cells@.skip(i as int + 1));
        }
        i += 1;
    }
    proof {
        assert(cells@.skip(n as int).len() == 0);
    }
    None
}

/// If decoding a proper prefix of the requested columns already failed, the
/// whole request fails with that same leftmost error.
proof fn lemma_decode_row_error_extends(
    cells: Seq<(String, Value)>,
    cols: Seq<(String, ValueTag)>,
    k: int,
    e: DecodeError,
)
    requires
        0 <= k <= cols.len(),
        spec_decode_row(cells, cols.take(k)) == Err::<Seq<(String, Value)>, DecodeError>(e),
    ensures
        spec_decode_row(cells, cols) == Err::<Seq<(String, Value)>, DecodeError>(e),
    decreases cols.len() - k,
{
    if k == cols.len() {
        assert(cols.take(k) =~= cols);
    } else {
        assert(cols.take(k + 1).drop_last() =~= cols.take(k));
        assert(spec_decode_row(cells, cols.take(k + 1)) == Err::<Seq<(String, Value)>, DecodeError>(
            e,
        ));
        lemma_decode_row_error_extends(cells, cols, k + 1, e);
    }
}

/// A successfully decoded row holds exactly one entry per requested column,
/// in request order, each under the requested column's name.
pub proof fn lemma_decode_row_shape(cells: Seq<(String, Value)>, cols: Seq<(String, ValueTag)>)
    requires
        spec_decode_row(cells, cols) is Ok,
    ensures
        (spec_decode_row(cells, cols)->Ok_0).len() == cols.len(),
        forall|i: int|
            0 <= i < cols.len() ==> (#[trigger] (spec_decode_row(cells, cols)->Ok_0)[i]).0
                == cols[i].0,
    decreases cols.len(),
{
    if cols.len() == 0 {
    } else {
        lemma_decode_row_shape(cells, cols.drop_last());
    }
}

/// Decode one row under the caller's requested columns. On success the
/// mapping holds exactly the requested columns in request order; on failure
/// the error names the leftmost failing column and its tag.
pub fn decode(row: &Row, columns: &Vec<(String, ValueTag)>) -> (r: Result<RowMap, DecodeError>)
    ensures
        (r matches Ok(m) ==> spec_decode_row(row.cells@, columns@) == Ok::<_, DecodeError>(
            m.entries@,
        )),
        (r matches Err(e) ==> spec_decode_row(row.cells@, columns@) == Err::<
            Seq<(String, Value)>,
            _,
        >(e)),
        (r is Ok <==> spec_decode_row(row.cells@, columns@) is Ok),
{
    let n = columns.len();
    let mut entries: Vec<(String, Value)> = Vec::new();
    let mut i: usize = 0;
    while i < n
        invariant
            0 <= i <= n,
            n == columns@.len(),
            spec_decode_row(row.cells@, columns@.take(i as int)) == Ok::<_, DecodeError>(entries@),
        decreases n - i,
    {
        let name = &columns[i].0;
        let tag = columns[i].1;
        let outcome: Result<Value, DecodeFailure> = match lookup(&row.cells, name) {
            None => Err(DecodeFailure::MissingColumn),
            Some(stored) => decode_cell(stored, tag),
        };
        match outcome {
            Ok(v) => {
                proof {
                    assert(spec_decode_column(row.cells@, columns@[i as int]) == Ok::<
                        _,
                        DecodeError,
                    >(v));
                    assert(columns@.take(i as int + 1).drop_last() =~= columns@.take(i as int));
                    assert(columns@.take(i as int + 1).last() == columns@[i as int]);
                }
                entries.push((name.clone(), v));
                i += 1;
            },
            Err(f) => {
                let e = DecodeError { column: name.clone(), tag, cause: f };
                proof {
                    assert(spec_decode_column(row.cells@, columns@[i as int]) == Err::<Value, _>(
                        e,
                    ));
                    assert(columns@.take(i as int + 1).drop_last() =~= columns@.take(i as int));
                    assert(columns@.take(i as int + 1).last() == columns@[i as int]);
                    assert(spec_decode_row(row.cells@, columns@.take(i as int + 1)) == Err::<
                        Seq<(String, Value)>,
                        _,
                    >(e));
                    lemma_decode_row_error_extends(row.cells@, columns@, i as int + 1, e);
                }
                return Err(e);
            },
        }
    }
    proof {
        assert(columns@.take(n as int) =~= columns@);
    }
    Ok(RowMap { entries })
}

} // verus!
