//! The calls into SQLite, through `rusqlite`.
//!
//! The functions without a body that is checked hand their arguments to one
//! call of the driver and give back what the driver returned. What a
//! statement or a query gives depends on the database behind the
//! connection, so nothing is promised of it. What is read out of a row
//! depends on the row alone: a row is taken as the sequence of what its
//! columns hold, and each reading is stated over that.

use crate::models::Timestamp;
use rusqlite::types::FromSql;
use vstd::prelude::*;

verus! {

#[verifier::external_type_specification]
#[verifier::external_body]
pub struct ExConnection(rusqlite::Connection);

#[verifier::external_type_specification]
#[verifier::external_body]
pub struct ExStoreError(rusqlite::Error);

#[verifier::external_type_specification]
#[verifier::external_body]
pub struct ExRow<'a>(rusqlite::Row<'a>);

#[verifier::external_type_specification]
#[verifier::external_body]
pub struct ExStoreValue(rusqlite::types::Value);

/// What a call of the driver gives: a value, or the driver's failure.
pub type StoreResult<T> = Result<T, rusqlite::Error>;

/// A value bound to a placeholder of a statement.
#[derive(Debug, Clone)]
pub enum SqlValue {
    Integer(i64),
    Text(String),
}

/// A parameter with its text as a character sequence.
pub enum SqlValueView {
    Integer(i64),
    Text(Seq<char>),
}

impl View for SqlValue {
    type V = SqlValueView;

    open spec fn view(&self) -> SqlValueView {
        match *self {
            SqlValue::Integer(n) => SqlValueView::Integer(n),
            SqlValue::Text(t) => SqlValueView::Text(t@),
        }
    }
}

/// One statement as it is handed to the driver: its text, and the values
/// for its placeholders in order.
#[derive(Debug)]
pub struct Statement {
    pub sql: String,
    pub params: Vec<SqlValue>,
}

/// A statement with its texts as character sequences.
pub struct StatementView {
    pub sql: Seq<char>,
    pub params: Seq<SqlValueView>,
}

impl View for Statement {
    type V = StatementView;

    open spec fn view(&self) -> StatementView {
        StatementView { sql: self.sql@, params: self.params@.map_values(|v: SqlValue| v@) }
    }
}

/// Builds the driver's `Value` for a parameter: `Value::Integer` for an
/// integer, `Value::Text` for a text.
#[verifier::external_body]
fn store_value(value: &SqlValue) -> rusqlite::types::Value {
    match value {
        SqlValue::Integer(n) => rusqlite::types::Value::Integer(*n),
        SqlValue::Text(t) => rusqlite::types::Value::Text(t.clone()),
    }
}

/// `Connection::open`: opens the database file at `path`, creating it where
/// there is none.
#[verifier::external_body]
pub(crate) fn open_connection(path: &str) -> StoreResult<rusqlite::Connection> {
    rusqlite::Connection::open(std::path::Path::new(path))
}

/// `Connection::execute_batch`: runs the statements of `sql` one after the
/// other.
#[verifier::external_body]
pub(crate) fn run_batch(conn: &rusqlite::Connection, sql: &str) -> StoreResult<()> {
    conn.execute_batch(sql)
}

/// `Connection::execute`: runs one statement with `params` bound in order.
/// On success the driver reports how many rows were changed.
#[verifier::external_body]
pub(crate) fn run_statement(
    conn: &rusqlite::Connection,
    sql: &str,
    params: &Vec<SqlValue>,
) -> StoreResult<usize> {
    conn.execute(sql, rusqlite::params_from_iter(params.iter().map(store_value)))
}

/// `Connection::last_insert_rowid`: the row id of the latest insert made
/// over `conn`.
#[verifier::external_body]
pub(crate) fn last_row_id(conn: &rusqlite::Connection) -> i64 {
    conn.last_insert_rowid()
}

/// What one column of a row holds.
pub enum ColumnValue {
    /// No value.
    Null,
    /// A whole number.
    Integer(i64),
    /// A text that is valid UTF-8.
    Text(Seq<char>),
    /// Anything else: a floating point number, a blob, or bytes that are
    /// stored as text and are not valid UTF-8.
    Other,
}

/// What the columns of a row hold, from column 0 on.
pub uninterp spec fn row_values(row: rusqlite::Row<'_>) -> Seq<ColumnValue>;

/// The point in time that the driver reads out of a column value, where it
/// reads one: `FromSql` for `chrono::DateTime<Utc>`, taken as seconds and
/// nanoseconds since the Unix epoch.
pub uninterp spec fn time_of(value: ColumnValue) -> Option<Timestamp>;

/// The integer in column `index` of `row`, where that column holds one.
pub open spec fn integer_in(row: rusqlite::Row<'_>, index: int) -> Option<i64> {
    if 0 <= index < row_values(row).len() {
        match row_values(row)[index] {
            ColumnValue::Integer(n) => Some(n),
            _ => None,
        }
    } else {
        None
    }
}

/// The text in column `index` of `row`, where that column holds one.
pub open spec fn text_in(row: rusqlite::Row<'_>, index: int) -> Option<Seq<char>> {
    if 0 <= index < row_values(row).len() {
        match row_values(row)[index] {
            ColumnValue::Text(t) => Some(t),
            _ => None,
        }
    } else {
        None
    }
}

/// The text in column `index` of `row`, or `None` for a column without a
/// value, where that column holds either.
pub open spec fn optional_text_in(row: rusqlite::Row<'_>, index: int) -> Option<Option<Seq<char>>> {
    if 0 <= index < row_values(row).len() {
        match row_values(row)[index] {
            ColumnValue::Null => Some(None),
            ColumnValue::Text(t) => Some(Some(t)),
            _ => None,
        }
    } else {
        None
    }
}

/// The point in time in column `index` of `row`, where the driver reads one
/// out of that column.
pub open spec fn time_in(row: rusqlite::Row<'_>, index: int) -> Option<Timestamp> {
    if 0 <= index < row_values(row).len() {
        time_of(row_values(row)[index])
    } else {
        None
    }
}

/// `Row::get_ref`, then `FromSql::column_result` for `i64`. The driver
/// gives the number of a column that holds an integer, and fails for a
/// column that holds anything else and for an index beyond the last column.
/// A value that cannot be read is reported as the driver's
/// `Error::FromSqlConversionFailure`, with the index, the type of the value
/// and the reason; the name of the column is never looked up.
#[verifier::external_body]
pub(crate) fn row_integer(row: &rusqlite::Row<'_>, index: usize) -> (r: StoreResult<i64>)
    ensures
        r matches Ok(n) ==> index < row_values(*row).len() && row_values(*row)[index as int]
            == ColumnValue::Integer(n),
        r is Err ==> integer_in(*row, index as int) is None,
{
    let value = row.get_ref(index)?;
    i64::column_result(value).map_err(|e| {
        rusqlite::Error::FromSqlConversionFailure(index, value.data_type(), Box::new(e))
    })
}

/// `Row::get_ref`, then `FromSql::column_result` for `String`. The driver
/// gives the text of a column that holds valid UTF-8 text, and fails for a
/// column that holds anything else and for an index beyond the last column.
/// A value that cannot be read is reported as for `row_integer`.
#[verifier::external_body]
pub(crate) fn row_text(row: &rusqlite::Row<'_>, index: usize) -> (r: StoreResult<String>)
    ensures
        r matches Ok(t) ==> index < row_values(*row).len() && row_values(*row)[index as int]
            == ColumnValue::Text(t@),
        r is Err ==> text_in(*row, index as int) is None,
{
    let value = row.get_ref(index)?;
    String::column_result(value).map_err(|e| {
        rusqlite::Error::FromSqlConversionFailure(index, value.data_type(), Box::new(e))
    })
}

/// `Row::get_ref`, then `FromSql::column_result` for `Option<String>`. The
/// driver gives `None` for a column without a value and the text of a column
/// that holds valid UTF-8 text, and fails for a column that holds anything
/// else and for an index beyond the last column. A value that cannot be
/// read is reported as for `row_integer`.
#[verifier::external_body]
pub(crate) fn row_optional_text(row: &rusqlite::Row<'_>, index: usize) -> (r: StoreResult<Option<String>>)
    ensures
        r matches Ok(None) ==> index < row_values(*row).len() && row_values(*row)[index as int]
            == ColumnValue::Null,
        r matches Ok(Some(t)) ==> index < row_values(*row).len() && row_values(*row)[index as int]
            == ColumnValue::Text(t@),
        r is Err ==> optional_text_in(*row, index as int) is None,
{
    let value = row.get_ref(index)?;
    Option::<String>::column_result(value).map_err(|e| {
        rusqlite::Error::FromSqlConversionFailure(index, value.data_type(), Box::new(e))
    })
}

/// `Row::get_ref`, then `FromSql::column_result` for `chrono::DateTime<Utc>`,
/// kept as its seconds (`DateTime::timestamp`) and nanoseconds
/// (`DateTime::timestamp_subsec_nanos`). Which column values the driver reads
/// as a time, and as which, takes its parsing rules to say; it depends on
/// the value alone, and an index beyond the last column fails. A value that
/// cannot be read is reported as for `row_integer`.
#[verifier::external_body]
pub(crate) fn row_time(row: &rusqlite::Row<'_>, index: usize) -> (r: StoreResult<Timestamp>)
    ensures
        r matches Ok(t) ==> index < row_values(*row).len() && time_of(row_values(*row)[index as int])
            == Some(t),
        r is Err ==> time_in(*row, index as int) is None,
{
    let value = row.get_ref(index)?;
    let time = chrono::DateTime::<chrono::Utc>::column_result(value).map_err(|e| {
        rusqlite::Error::FromSqlConversionFailure(index, value.data_type(), Box::new(e))
    })?;
    Ok(Timestamp { seconds: time.timestamp(), nanos: time.timestamp_subsec_nanos() })
}

/// The integer in the first column of `row`: it is read where that column
/// holds an integer, and only there.
pub(crate) fn first_integer(row: &rusqlite::Row<'_>) -> (r: StoreResult<i64>)
    ensures
        r matches Ok(n) ==> integer_in(*row, 0) == Some(n),
        r is Err ==> integer_in(*row, 0) is None,
{
    row_integer(row, 0)
}

/// The text in the first column of `row`: it is read where that column
/// holds a text, and only there.
pub(crate) fn first_text(row: &rusqlite::Row<'_>) -> (r: StoreResult<String>)
    ensures
        r matches Ok(t) ==> text_in(*row, 0) == Some(t@),
        r is Err ==> text_in(*row, 0) is None,
{
    row_text(row, 0)
}

/// `value` is what `read` gives for some row.
pub open spec fn read_off_a_row<T, F: Fn(&rusqlite::Row<'_>) -> StoreResult<T>>(
    read: F,
    value: T,
) -> bool {
    exists|row: &rusqlite::Row<'_>| call_ensures(read, (row,), Ok::<T, rusqlite::Error>(value))
}

/// `Connection::query_row`: runs the query with `params` bound in order and
/// hands its first row to `read`. A success is what `read` gave for that
/// row. Without a row the driver fails with `Error::QueryReturnedNoRows`.
#[verifier::external_body]
pub(crate) fn fetch_row<T, F: Fn(&rusqlite::Row<'_>) -> StoreResult<T>>(
    conn: &rusqlite::Connection,
    sql: &str,
    params: &Vec<SqlValue>,
    read: F,
) -> (r: StoreResult<T>)
    requires
        forall|row: &rusqlite::Row<'_>| call_requires(read, (row,)),
    ensures
        r matches Ok(value) ==> read_off_a_row(read, value),
{
    conn.query_row(sql, rusqlite::params_from_iter(params.iter().map(store_value)), read)
}

/// `Connection::prepare` and `Statement::query_map`: runs the query with
/// `params` bound in order and hands every row to `read`, in the order in
/// which the database gives them. On success each item is what `read` gave
/// for one of the rows. The first row that cannot be read ends the call
/// with its error.
#[verifier::external_body]
pub(crate) fn fetch_rows<T, F: Fn(&rusqlite::Row<'_>) -> StoreResult<T>>(
    conn: &rusqlite::Connection,
    sql: &str,
    params: &Vec<SqlValue>,
    read: F,
) -> (r: StoreResult<Vec<T>>)
    requires
        forall|row: &rusqlite::Row<'_>| call_requires(read, (row,)),
    ensures
        r matches Ok(values) ==> forall|i: int|
            0 <= i < values@.len() ==> read_off_a_row(read, #[trigger] values@[i]),
{
    let mut statement = conn.prepare(sql)?;
    let bound = rusqlite::params_from_iter(params.iter().map(store_value));
    let rows = statement.query_map(bound, read)?;
    rows.collect()
}

/// `OptionalExtension::optional`: a result as it is, but for the failure
/// `Error::QueryReturnedNoRows`, which becomes the success `None`.
#[verifier::external_body]
pub(crate) fn optional_row<T>(found: StoreResult<T>) -> (r: StoreResult<Option<T>>)
    ensures
        found matches Ok(value) ==> r is Ok && r->Ok_0 == Some(value),
        found matches Err(error) ==> r matches Ok(None) || (r is Err && r->Err_0 == error),
{
    rusqlite::OptionalExtension::optional(found)
}

/// Whether `error` is the driver's `Error::QueryReturnedNoRows`, which
/// `Connection::query_row` gives for an empty result.
#[verifier::external_body]
pub(crate) fn is_no_rows(error: &rusqlite::Error) -> bool {
    match error {
        rusqlite::Error::QueryReturnedNoRows => true,
        _ => false,
    }
}

/// The driver's own text for `error`, by its `Display`.
#[verifier::external_body]
pub(crate) fn describe(error: &rusqlite::Error) -> String {
    format!("{}", error)
}

} // verus!
