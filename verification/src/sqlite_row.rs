//! Rows of a query's result as values of their own.

use vstd::prelude::*;
use vstd::utf8::*;
use crate::search;
use crate::sqlite_error::{SqliteDriverError, SqliteRuntimeError};
use crate::sqlite_plan::{SqliteRow, SqliteValue};
use crate::vectors::in_reverse;

verus! {

/// A column of a row as the driver gives it. A text is given by its bytes.
#[derive(Debug, PartialEq, Eq)]
pub enum SqliteColumn {
    Null,
    Integer(i64),
    Real(u64),
    Text(Vec<u8>),
    Blob(Vec<u8>),
}

impl SqliteColumn {
    /// Whether `value` holds the same as this column.
    pub open spec fn is_held_by(self, value: SqliteValue) -> bool {
        match self {
            SqliteColumn::Null => value == SqliteValue::Null,
            SqliteColumn::Integer(number) => value == SqliteValue::Integer(number),
            SqliteColumn::Real(bits) => value == SqliteValue::Real(bits),
            SqliteColumn::Text(bytes) => value matches SqliteValue::Text(text) && text@ == decode_utf8(
                bytes@,
            ),
            SqliteColumn::Blob(bytes) => value == SqliteValue::Blob(bytes),
        }
    }
}

/// `String::from_utf8`. Claimed: bytes that are UTF-8, and no others, are a text, and it is
/// the one that they encode.
#[verifier::external_body]
fn text_from_utf8(bytes: Vec<u8>) -> (text: Option<String>)
    ensures
        text is Some <==> valid_utf8(bytes@),
        text matches Some(text) ==> text@ == decode_utf8(bytes@),
{
    String::from_utf8(bytes).ok()
}

/// Why a column cannot be read.
pub open spec fn column_fault(
    column: Result<SqliteColumn, SqliteDriverError>,
    wait_cancelled: bool,
) -> Option<SqliteRuntimeError> {
    match column {
        Err(source) => Some(SqliteRuntimeError::of_driver("读取查询列", source, wait_cancelled)),
        Ok(SqliteColumn::Text(bytes)) => if valid_utf8(bytes@) {
            None
        } else {
            Some(SqliteRuntimeError::InvalidValue("TEXT 不是 UTF-8"))
        },
        Ok(_) => None,
    }
}

/// Whether the column could be read and `value` holds the same.
pub open spec fn is_read_as(column: Result<SqliteColumn, SqliteDriverError>, value: SqliteValue) -> bool {
    column matches Ok(read) && read.is_held_by(value)
}

fn own_column(column: Result<SqliteColumn, SqliteDriverError>, wait_cancelled: bool) -> (result: Result<
    SqliteValue,
    SqliteRuntimeError,
>)
    ensures
        match column_fault(column, wait_cancelled) {
            Some(error) => result == Err::<SqliteValue, SqliteRuntimeError>(error),
            None => result matches Ok(value) && is_read_as(column, value),
        },
{
    match column {
        Err(source) => Err(SqliteRuntimeError::driver("读取查询列", source, wait_cancelled)),
        Ok(SqliteColumn::Null) => Ok(SqliteValue::Null),
        Ok(SqliteColumn::Integer(number)) => Ok(SqliteValue::Integer(number)),
        Ok(SqliteColumn::Real(bits)) => Ok(SqliteValue::Real(bits)),
        Ok(SqliteColumn::Text(bytes)) => match text_from_utf8(bytes) {
            Some(text) => Ok(SqliteValue::Text(text)),
            None => Err(SqliteRuntimeError::InvalidValue("TEXT 不是 UTF-8")),
        },
        Ok(SqliteColumn::Blob(bytes)) => Ok(SqliteValue::Blob(bytes)),
    }
}

/// The columns that cannot be read.
pub open spec fn unreadable(
    columns: Seq<Result<SqliteColumn, SqliteDriverError>>,
    wait_cancelled: bool,
) -> spec_fn(int) -> bool {
    |i: int| column_fault(columns[i], wait_cancelled) is Some
}

/// Why a row cannot be read: its first column that cannot.
pub open spec fn row_fault(
    columns: Seq<Result<SqliteColumn, SqliteDriverError>>,
    wait_cancelled: bool,
) -> Option<SqliteRuntimeError> {
    match search::first_such(unreadable(columns, wait_cancelled), 0, columns.len() as int) {
        Some(i) => column_fault(columns[i], wait_cancelled),
        None => None,
    }
}

/// Whether the values hold the same as the columns.
pub open spec fn row_holds(
    columns: Seq<Result<SqliteColumn, SqliteDriverError>>,
    values: Seq<SqliteValue>,
) -> bool {
    &&& values.len() == columns.len()
    &&& forall|i: int|
        0 <= i < columns.len() ==> #[trigger] is_read_as(columns[i], values[i])
}

/// What reading a row gives.
pub open spec fn row_read(
    columns: Seq<Result<SqliteColumn, SqliteDriverError>>,
    wait_cancelled: bool,
    result: Result<SqliteRow, SqliteRuntimeError>,
) -> bool {
    match row_fault(columns, wait_cancelled) {
        Some(error) => result == Err::<SqliteRow, SqliteRuntimeError>(error),
        None => result matches Ok(row) && row_holds(columns, row.columns()),
    }
}

/// A row with values of its own.
pub fn own_sqlite_row(columns: Vec<Result<SqliteColumn, SqliteDriverError>>, wait_cancelled: bool) -> (result:
    Result<SqliteRow, SqliteRuntimeError>)
    ensures
        row_read(columns@, wait_cancelled, result),
{
    let ghost all = columns@;
    let ghost bad = unreadable(all, wait_cancelled);
    let mut waiting = in_reverse(columns);
    let mut values: Vec<SqliteValue> = Vec::new();
    while waiting.len() > 0
        invariant
            all == columns@,
            waiting.len() + values.len() == all.len(),
            bad == unreadable(all, wait_cancelled),
            forall|k: int|
                0 <= k < waiting.len() ==> (#[trigger] waiting@[k]) == all[all.len() - 1 - k],
            forall|k: int| 0 <= k < values.len() ==> !#[trigger] bad(k),
            forall|k: int|
                0 <= k < values.len() ==> #[trigger] is_read_as(all[k], values@[k]),
        decreases waiting.len(),
    {
        let ghost at = values.len() as int;
        if let Some(column) = waiting.pop() {
            assert(column == all[at]);
            match own_column(column, wait_cancelled) {
                Ok(value) => {
                    assert(!bad(at));
                    values.push(value);
                },
                Err(error) => {
                    proof {
                        assert(bad(at));
                        search::lemma_first_found(bad, 0, all.len() as int, at);
                    }
                    return Err(error);
                },
            }
        }
    }
    proof {
        search::lemma_first_absent(bad, 0, all.len() as int);
    }
    Ok(SqliteRow::new(values))
}

} // verus!
