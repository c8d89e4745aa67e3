use vstd::prelude::*;
use vstd::string::*;
use super::query_manager::Query;
use super::query_manager::Value;

verus! {

/// `sqlite::Connection`: an open SQLite database.
#[verifier::external_type_specification]
#[verifier::external_body]
pub struct ExConnection(sqlite::Connection);

/// `sqlite::Statement`: a statement that a connection has compiled.
#[verifier::external_type_specification]
#[verifier::external_body]
pub struct ExPrepared<'l>(sqlite::Statement<'l>);

/// `sqlite::Error`: what SQLite tells of a failure.
#[verifier::external_type_specification]
#[verifier::external_body]
pub struct ExFailure(sqlite::Error);

/// What SQLite told of a failure: its code and its message, as far as it gave
/// them.
#[derive(Clone, Debug)]
pub struct Fault {
    pub code: Option<isize>,
    pub message: Option<String>,
}

/// Why an operation on the catalog failed.
#[derive(Clone, Debug)]
pub enum StorageError {
    /// The operation needs a connection, and `connect` has not succeeded yet.
    NotConnected,
    /// The store could not be opened, or refused its schema.
    ConnectionFailed(Fault),
    /// The store refused a statement, or failed while it ran one.
    StatementFailed(Fault),
    /// The catalog has no such table, or the table no such column.
    UnknownColumn,
    /// The store gave no key where it was asked for one: no row, or a row
    /// that holds something else in the place of the key.
    NotAKey,
}

/// The type of what a column holds in the row at hand.
#[derive(Clone, Copy, Debug, PartialEq, Eq)]
pub enum ColumnType {
    Binary,
    Real,
    Integer,
    Text,
    Null,
}

/// The fields of an `sqlite::Error`, moved into a `Fault`.
#[verifier::external_body]
pub(crate) fn fault_of(error: sqlite::Error) -> (fault: Fault) {
    Fault { code: error.code, message: error.message }
}

/// `std::path::Path::exists`: whether something can be found at `path` now.
/// The answer depends on the file system, so nothing is claimed of it.
#[verifier::external_body]
pub(crate) fn path_exists(path: &str) -> (exists: bool) {
    std::path::Path::new(path).exists()
}

/// `sqlite::open`: opens the database at `path` for reading and writing, and
/// creates it where there is none.
#[verifier::external_body]
pub(crate) fn open_store(path: &str) -> (connection: Result<sqlite::Connection, sqlite::Error>) {
    sqlite::open(path)
}

/// `sqlite::Connection::execute`: runs the statements of `script`, and drops
/// whatever rows they give.
#[verifier::external_body]
pub(crate) fn run_script(connection: &sqlite::Connection, script: &str) -> (done: Result<
    (),
    sqlite::Error,
>) {
    connection.execute(script)
}

/// `sqlite::Connection::prepare`: compiles the first statement of `sql`. It
/// reads the names of the statement's columns as UTF-8, in which SQLite hands
/// them out.
#[verifier::external_body]
fn prepare<'l>(connection: &'l sqlite::Connection, sql: &str) -> (prepared: Result<
    sqlite::Statement<'l>,
    sqlite::Error,
>) {
    connection.prepare(sql)
}

/// `sqlite::Statement::bind` with an index and a value: binds `value` to the
/// placeholder at `index`, where the first placeholder has index 1.
#[verifier::external_body]
fn bind_value(prepared: &mut sqlite::Statement<'_>, index: usize, value: &Value) -> (done: Result<
    (),
    sqlite::Error,
>) {
    match value {
        Value::Null => prepared.bind((index, ())),
        Value::Integer(number) => prepared.bind((index, *number)),
        Value::Text(text) => prepared.bind((index, text.as_str())),
    }
}

/// `sqlite::Statement::next`: takes one step. `true` where a row is at hand,
/// `false` where the statement has run to its end.
#[verifier::external_body]
fn step(prepared: &mut sqlite::Statement<'_>) -> (row: Result<bool, sqlite::Error>) {
    match prepared.next() {
        Ok(sqlite::State::Row) => Ok(true),
        Ok(sqlite::State::Done) => Ok(false),
        Err(error) => Err(error),
    }
}

/// `sqlite::Statement::column_count`: the number of columns of each row that
/// the statement gives.
#[verifier::external_body]
fn column_count(prepared: &sqlite::Statement<'_>) -> (count: usize) {
    prepared.column_count()
}

/// `sqlite::Statement::column_type`: the type of what the row at hand holds
/// in `column`, where the first column has index 0.
#[verifier::external_body]
fn column_type(prepared: &sqlite::Statement<'_>, column: usize) -> (kind: Result<
    ColumnType,
    sqlite::Error,
>) {
    match prepared.column_type(column) {
        Ok(sqlite::Type::Binary) => Ok(ColumnType::Binary),
        Ok(sqlite::Type::Float) => Ok(ColumnType::Real),
        Ok(sqlite::Type::Integer) => Ok(ColumnType::Integer),
        Ok(sqlite::Type::String) => Ok(ColumnType::Text),
        Ok(sqlite::Type::Null) => Ok(ColumnType::Null),
        Err(error) => Err(error),
    }
}

/// `sqlite::Statement::read` of an `i64`: what the row at hand holds in
/// `column`, as SQLite turns it into an integer.
#[verifier::external_body]
fn read_integer(prepared: &sqlite::Statement<'_>, column: usize) -> (number: Result<
    i64,
    sqlite::Error,
>) {
    prepared.read::<i64, usize>(column)
}

/// `sqlite::Statement::read` of a `String`: what the row at hand holds in
/// `column`, as SQLite turns it into text.
#[verifier::external_body]
fn read_text(prepared: &sqlite::Statement<'_>, column: usize) -> (text: Result<
    String,
    sqlite::Error,
>) {
    prepared.read::<String, usize>(column)
}

/// Compiles `statement` on `connection` and binds its parameters, the first
/// to the first placeholder.
fn prepared_for<'l>(connection: &'l sqlite::Connection, statement: &Query) -> (prepared: Result<
    sqlite::Statement<'l>,
    StorageError,
>)
    ensures
        prepared matches Err(error) ==> error is StatementFailed,
{
    let mut prepared = match prepare(connection, statement.sql.as_str()) {
        Ok(prepared) => prepared,
        Err(error) => {
            return Err(StorageError::StatementFailed(fault_of(error)));
        },
    };
    let mut i: usize = 0;
    while i < statement.parameters.len()
        invariant
            i <= statement.parameters.len(),
        decreases statement.parameters.len() - i,
    {
        match bind_value(&mut prepared, i + 1, &statement.parameters[i]) {
            Ok(()) => {},
            Err(error) => {
                return Err(StorageError::StatementFailed(fault_of(error)));
            },
        }
        i += 1;
    }
    Ok(prepared)
}

/// Reads the row at hand: an integer where the column holds one, nothing
/// where it holds `NULL`, and text otherwise, as SQLite turns the column
/// into text.
fn read_row(prepared: &sqlite::Statement<'_>, columns: usize) -> (row: Result<
    Vec<Value>,
    StorageError,
>)
    ensures
        match row {
            Ok(row) => row@.len() == columns,
            Err(error) => error is StatementFailed,
        },
{
    let mut row: Vec<Value> = Vec::new();
    let mut column: usize = 0;
    while column < columns
        invariant
            column <= columns,
            row@.len() == column,
        decreases columns - column,
    {
        let kind = match column_type(prepared, column) {
            Ok(kind) => kind,
            Err(error) => {
                return Err(StorageError::StatementFailed(fault_of(error)));
            },
        };
        let value = match kind {
            ColumnType::Null => Value::Null,
            ColumnType::Integer => match read_integer(prepared, column) {
                Ok(number) => Value::Integer(number),
                Err(error) => {
                    return Err(StorageError::StatementFailed(fault_of(error)));
                },
            },
            _ => match read_text(prepared, column) {
                Ok(text) => Value::Text(text),
                Err(error) => {
                    return Err(StorageError::StatementFailed(fault_of(error)));
                },
            },
        };
        row.push(value);
        column += 1;
    }
    Ok(row)
}

/// Whether every row has `columns` values.
spec fn rows_of_width(rows: Seq<Vec<Value>>, columns: nat) -> bool {
    forall|i: int| 0 <= i < rows.len() ==> (#[trigger] rows[i])@.len() == columns
}

/// Whether all rows have the same number of values.
pub open spec fn rectangular(rows: Seq<Vec<Value>>) -> bool {
    forall|i: int, j: int|
        0 <= i < rows.len() && 0 <= j < rows.len() ==> (#[trigger] rows[i])@.len() == (
        #[trigger] rows[j])@.len()
}

/// Runs `statement` on `connection` and reads the rows that it gives.
pub(crate) fn rows_of(connection: &sqlite::Connection, statement: &Query) -> (rows: Result<
    Vec<Vec<Value>>,
    StorageError,
>)
    ensures
        match rows {
            Ok(rows) => rectangular(rows@),
            Err(error) => error is StatementFailed,
        },
{
    let mut prepared = prepared_for(connection, statement)?;
    let columns = column_count(&prepared);
    let mut rows: Vec<Vec<Value>> = Vec::new();
    while rows.len() < usize::MAX
        invariant
            rows_of_width(rows@, columns as nat),
        decreases usize::MAX - rows.len(),
    {
        match step(&mut prepared) {
            Ok(true) => {
                let row = read_row(&prepared, columns)?;
                rows.push(row);
            },
            Ok(false) => {
                return Ok(rows);
            },
            Err(error) => {
                return Err(StorageError::StatementFailed(fault_of(error)));
            },
        }
    }
    Ok(rows)
}

/// Runs `statement` on `connection` to its end, and drops the rows that it
/// gives.
pub(crate) fn run(connection: &sqlite::Connection, statement: &Query) -> (done: Result<
    (),
    StorageError,
>)
    ensures
        done matches Err(error) ==> error is StatementFailed,
{
    let mut prepared = prepared_for(connection, statement)?;
    let mut steps: u64 = 0;
    while steps < u64::MAX
        decreases u64::MAX - steps,
    {
        match step(&mut prepared) {
            Ok(true) => {
                steps += 1;
            },
            Ok(false) => {
                return Ok(());
            },
            Err(error) => {
                return Err(StorageError::StatementFailed(fault_of(error)));
            },
        }
    }
    Ok(())
}

} // verus!
