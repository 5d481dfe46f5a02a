//! The account store: one SQLite table of accounts, keyed by name.
//!
//! The database is reached through four small functions whose bodies Verus does not read. What
//! a statement finds or changes depends on the database file, so nothing is claimed of their
//! results: every function here that reads one is verified for all that may come back, and the
//! functions that interpret a result take it as an argument.

use crate::ledger::{registration, LedgerError};
use rusqlite::{Connection, OptionalExtension, ToSql};
use vstd::prelude::*;

verus! {

/// `rusqlite::Connection`, an open database. Opaque: it is only handed on.
#[verifier::external_type_specification]
#[verifier::external_body]
pub struct ExConnection(rusqlite::Connection);

/// `rusqlite::Error`. Opaque: every such error is reported as a storage failure.
#[verifier::external_type_specification]
#[verifier::external_body]
pub struct ExError(rusqlite::Error);

/// Calls `rusqlite::Connection::open`, which opens the database at `path` and creates the file
/// if there is none. Nothing is claimed of the result.
#[verifier::external_body]
fn open_connection(path: &str) -> (opened: Result<Connection, rusqlite::Error>) {
    Connection::open(path)
}

/// Calls `rusqlite::Connection::execute_batch`, which runs the statements of `sql`, which take
/// no parameters. Nothing is claimed of the result.
#[verifier::external_body]
fn run_batch(conn: &Connection, sql: &str) -> (done: Result<(), rusqlite::Error>) {
    conn.execute_batch(sql)
}

/// Calls `rusqlite::Connection::execute`, which runs the one statement `sql` with `name` bound
/// to its first parameter and `numbers` to the next ones, and returns how many rows it changed.
/// Nothing is claimed of the result.
#[verifier::external_body]
fn run_statement(conn: &Connection, sql: &str, name: &str, numbers: &Vec<i64>) -> (changed: Result<
    usize,
    rusqlite::Error,
>) {
    let mut params: Vec<&dyn ToSql> = vec![&name];
    params.extend(numbers.iter().map(|n| n as &dyn ToSql));
    conn.execute(sql, params.as_slice())
}

/// Calls `rusqlite::Connection::query_row` and, on its result,
/// `rusqlite::OptionalExtension::optional`: runs the query `sql` with `name` bound to its first
/// parameter and `numbers` to the next ones, reads the first column of the first row as an
/// integer, and returns `None` if there is no row. Nothing is claimed of the result.
#[verifier::external_body]
fn query_integer(conn: &Connection, sql: &str, name: &str, numbers: &Vec<i64>) -> (found: Result<
    Option<i64>,
    rusqlite::Error,
>) {
    let mut params: Vec<&dyn ToSql> = vec![&name];
    params.extend(numbers.iter().map(|n| n as &dyn ToSql));
    conn.query_row(sql, params.as_slice(), |row| row.get(0)).optional()
}

/// Whether `result` is a success or a storage failure: the only refusals of a store operation
/// that decides nothing itself.
pub open spec fn storage_result<T>(result: Result<T, LedgerError>) -> bool {
    result matches Err(e) ==> e == LedgerError::StorageFailure
}

/// What a statement without a result reports: done, or a storage failure.
pub fn completed(done: Result<(), rusqlite::Error>) -> (result: Result<(), LedgerError>)
    ensures
        done is Ok ==> result == Ok::<(), LedgerError>(()),
        done is Err ==> result == Err::<(), LedgerError>(LedgerError::StorageFailure),
{
    match done {
        Ok(()) => Ok(()),
        Err(_) => Err(LedgerError::StorageFailure),
    }
}

/// What a query that counts the accounts of a name reports: whether the name is free, which it
/// is if the count is zero or there is no count, or a storage failure.
pub fn found_free(found: Result<Option<i64>, rusqlite::Error>) -> (result: Result<bool, LedgerError>)
    ensures
        found matches Ok(Some(n)) ==> result == Ok::<bool, LedgerError>(n == 0),
        found matches Ok(None) ==> result == Ok::<bool, LedgerError>(true),
        found is Err ==> result == Err::<bool, LedgerError>(LedgerError::StorageFailure),
{
    match found {
        Ok(Some(n)) => Ok(n == 0),
        Ok(None) => Ok(true),
        Err(_) => Err(LedgerError::StorageFailure),
    }
}

/// What a query that counts the accounts of a name and a PIN reports: whether there is one,
/// which there is if the count is positive, or a storage failure.
pub fn found_match(found: Result<Option<i64>, rusqlite::Error>) -> (result: Result<
    bool,
    LedgerError,
>)
    ensures
        found matches Ok(Some(n)) ==> result == Ok::<bool, LedgerError>(n > 0),
        found matches Ok(None) ==> result == Ok::<bool, LedgerError>(false),
        found is Err ==> result == Err::<bool, LedgerError>(LedgerError::StorageFailure),
{
    match found {
        Ok(Some(n)) => Ok(n > 0),
        Ok(None) => Ok(false),
        Err(_) => Err(LedgerError::StorageFailure),
    }
}

/// What a balance query reports: the balance, `None` where no account has the name, or a
/// storage failure.
pub fn looked_up(found: Result<Option<i64>, rusqlite::Error>) -> (result: Result<
    Option<i64>,
    LedgerError,
>)
    ensures
        found matches Ok(stored) ==> result == Ok::<Option<i64>, LedgerError>(stored),
        found is Err ==> result == Err::<Option<i64>, LedgerError>(LedgerError::StorageFailure),
{
    match found {
        Ok(stored) => Ok(stored),
        Err(_) => Err(LedgerError::StorageFailure),
    }
}

/// What an update of one account reports: done if it changed a row, `AccountNotFound` if it
/// changed none, or a storage failure.
pub fn updated(changed: Result<usize, rusqlite::Error>) -> (result: Result<(), LedgerError>)
    ensures
        changed matches Ok(rows) ==> (rows > 0 ==> result == Ok::<(), LedgerError>(())) && (rows
            == 0 ==> result == Err::<(), LedgerError>(LedgerError::AccountNotFound)),
        changed is Err ==> result == Err::<(), LedgerError>(LedgerError::StorageFailure),
{
    match changed {
        Ok(rows) => if rows == 0 {
            Err(LedgerError::AccountNotFound)
        } else {
            Ok(())
        },
        Err(_) => Err(LedgerError::StorageFailure),
    }
}

/// What an insertion reports: done, or a storage failure.
pub fn inserted(changed: Result<usize, rusqlite::Error>) -> (result: Result<(), LedgerError>)
    ensures
        changed is Ok ==> result == Ok::<(), LedgerError>(()),
        changed is Err ==> result == Err::<(), LedgerError>(LedgerError::StorageFailure),
{
    match changed {
        Ok(_) => Ok(()),
        Err(_) => Err(LedgerError::StorageFailure),
    }
}

/// Opens the database at `path` and makes sure that it holds the table of accounts.
///
/// Safe to run at every start: an existing table is left as it is. The only refusal is a
/// storage failure.
pub fn initialize_database(path: &str) -> (result: Result<Connection, LedgerError>)
    ensures
        storage_result(result),
{
    match open_connection(path) {
        Err(_) => Err(LedgerError::StorageFailure),
        Ok(conn) => {
            let made = run_batch(
                &conn,
                "CREATE TABLE IF NOT EXISTS accounts (
            id INTEGER PRIMARY KEY,
            name TEXT NOT NULL UNIQUE,
            pin INTEGER NOT NULL,
            balance INTEGER NOT NULL
        )",
            );
            match completed(made) {
                Ok(()) => Ok(conn),
                Err(e) => Err(e),
            }
        },
    }
}

/// Begins a transaction that holds the write lock of the database, so that what is read in it
/// stays true until it is written.
pub fn begin(conn: &Connection) -> (result: Result<(), LedgerError>)
    ensures
        storage_result(result),
{
    completed(run_batch(conn, "BEGIN IMMEDIATE"))
}

/// Commits the open transaction.
pub fn commit(conn: &Connection) -> (result: Result<(), LedgerError>)
    ensures
        storage_result(result),
{
    completed(run_batch(conn, "COMMIT"))
}

/// Abandons the open transaction and what was written in it.
pub fn rollback(conn: &Connection) -> (result: Result<(), LedgerError>)
    ensures
        storage_result(result),
{
    completed(run_batch(conn, "ROLLBACK"))
}

/// Whether no account has the name `name` yet.
pub fn is_unique_account(conn: &Connection, name: &str) -> (result: Result<bool, LedgerError>)
    ensures
        storage_result(result),
{
    let numbers: Vec<i64> = Vec::new();
    found_free(query_integer(conn, "SELECT COUNT(*) FROM accounts WHERE name = ?1", name, &numbers))
}

/// Whether an account with exactly this name and PIN exists.
pub fn verify_account(conn: &Connection, name: &str, pin: i64) -> (result: Result<
    bool,
    LedgerError,
>)
    ensures
        storage_result(result),
{
    let numbers: Vec<i64> = vec![pin];
    found_match(
        query_integer(
            conn,
            "SELECT COUNT(*) FROM accounts WHERE name = ?1 AND pin = ?2",
            name,
            &numbers,
        ),
    )
}

/// The balance of the account `name`, or `None` if there is no such account.
pub fn get_balance_from_db(conn: &Connection, name: &str) -> (result: Result<
    Option<i64>,
    LedgerError,
>)
    ensures
        storage_result(result),
{
    let numbers: Vec<i64> = Vec::new();
    looked_up(query_integer(conn, "SELECT balance FROM accounts WHERE name = ?1", name, &numbers))
}

/// Overwrites the balance of the account `name`.
///
/// Refused with `AccountNotFound` if no row was changed, and with `StorageFailure` if the store
/// could not run the update.
pub fn update_balance_in_db(conn: &Connection, name: &str, new_balance: i64) -> (result: Result<
    (),
    LedgerError,
>)
    ensures
        result matches Err(e) ==> e == LedgerError::AccountNotFound || e
            == LedgerError::StorageFailure,
{
    let numbers: Vec<i64> = vec![new_balance];
    updated(
        run_statement(conn, "UPDATE accounts SET balance = ?2 WHERE name = ?1", name, &numbers),
    )
}

/// Creates the account `name` with the given PIN and balance, unless the name is taken.
///
/// The name is looked for and the account is inserted in one transaction. Refused with
/// `DuplicateAccount` if the store holds the name already, in which case nothing is written, and
/// with `StorageFailure` if the store could not complete a step.
pub fn create_account(conn: &Connection, name: &str, pin: i64, initial_balance: i64) -> (result:
    Result<(), LedgerError>)
    ensures
        result matches Err(e) ==> e == LedgerError::DuplicateAccount || e
            == LedgerError::StorageFailure,
{
    match begin(conn) {
        Err(e) => {
            return Err(e);
        },
        Ok(()) => {},
    }
    let outcome = match is_unique_account(conn, name) {
        Err(e) => Err(e),
        Ok(free) => match registration(!free) {
            Err(e) => Err(e),
            Ok(()) => {
                let numbers: Vec<i64> = vec![pin, initial_balance];
                inserted(
                    run_statement(
                        conn,
                        "INSERT INTO accounts (name, pin, balance) VALUES (?1, ?2, ?3)",
                        name,
                        &numbers,
                    ),
                )
            },
        },
    };
    finish(conn, outcome)
}

/// Ends the open transaction after `outcome`: commits a success and abandons a refusal.
///
/// Returns `outcome`, or a storage failure where a success could not be committed.
pub fn finish<T>(conn: &Connection, outcome: Result<T, LedgerError>) -> (result: Result<
    T,
    LedgerError,
>)
    ensures
        outcome is Err ==> result == outcome,
        outcome is Ok ==> result == outcome || result == Err::<T, LedgerError>(
            LedgerError::StorageFailure,
        ),
{
    match outcome {
        Ok(value) => match commit(conn) {
            Ok(()) => Ok(value),
            Err(e) => {
                let _ = rollback(conn);
                Err(e)
            },
        },
        Err(e) => {
            let _ = rollback(conn);
            Err(e)
        },
    }
}

} // verus!
