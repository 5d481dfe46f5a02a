//! The ledger at the terminal: registration, login, and deposits and withdrawals whose amount
//! comes as typed text and whose answer is a notice for the person at the keyboard.

use crate::codec::success_words;
use crate::dispatch::{possible_outcome, transact};
use crate::ledger::{authentication, LedgerError, Verb};
use crate::store::{create_account, verify_account};
use crate::number::{decimal, format_integer, integer_of, parse_integer};
use crate::text::{trim, trimmed};
use rusqlite::Connection;
use vstd::prelude::*;

verus! {

/// The amount that a typed line holds: the line without the whitespace around it, read as a
/// 64-bit decimal integer.
pub open spec fn typed_integer(input: Seq<char>) -> Option<i64> {
    match integer_of(trimmed(input)) {
        Some(n) => Some(n as i64),
        None => None,
    }
}

/// The words that say which operation was given up.
pub open spec fn canceled_words(verb: Verb) -> Seq<char> {
    match verb {
        Verb::Deposit => " Deposit canceled."@,
        Verb::Withdraw => " Withdrawal canceled."@,
    }
}

/// The words that name the refusal `e` at the terminal.
pub open spec fn refusal_words(e: LedgerError) -> Seq<char> {
    match e {
        LedgerError::MalformedRequest(_) => "Invalid option."@,
        LedgerError::InvalidAmount => "Invalid number format."@,
        LedgerError::AccountNotFound => "Account not found."@,
        LedgerError::DuplicateAccount => "Account with this name already exists!"@,
        LedgerError::InsufficientFunds { .. } => "Insufficient funds."@,
        LedgerError::AuthenticationFailed => "Invalid account name or PIN."@,
        LedgerError::StorageFailure => "Storage failure."@,
    }
}

/// The notice for the outcome of the operation `verb`: the new balance, the balance that did
/// not cover a withdrawal, or the refusal and the operation that was given up.
pub open spec fn notice_line(verb: Verb, outcome: Result<i64, LedgerError>) -> Seq<char> {
    match outcome {
        Ok(balance) => success_words(verb) + decimal(balance as int),
        Err(LedgerError::InsufficientFunds { balance }) => "Insufficient funds. Current balance: "@
            + decimal(balance as int),
        Err(e) => refusal_words(e) + canceled_words(verb),
    }
}

/// Whether `notice` can be the answer to the operation `verb` with the typed amount `input` on
/// some store.
///
/// Text that is no number has one answer, the notice of an invalid amount. A number is answered
/// with the notice of one of the possible outcomes of the operation.
pub open spec fn possible_notice(verb: Verb, input: Seq<char>, notice: Seq<char>) -> bool {
    match typed_integer(input) {
        None => notice == notice_line(verb, Err(LedgerError::InvalidAmount)),
        Some(amount) => exists|outcome: Result<i64, LedgerError>|
            possible_outcome(verb, amount, outcome) && notice == #[trigger] notice_line(
                verb,
                outcome,
            ),
    }
}

/// Whether `result` can be what a registration gives on some store: done, a duplicate, or a
/// storage failure.
pub open spec fn possible_registration(result: Result<(), LedgerError>) -> bool {
    result matches Err(e) ==> e == LedgerError::DuplicateAccount || e
        == LedgerError::StorageFailure
}

/// Whether `result` can be what a login gives on some store: done, a failed authentication, or
/// a storage failure.
pub open spec fn possible_login(result: Result<(), LedgerError>) -> bool {
    result matches Err(e) ==> e == LedgerError::AuthenticationFailed || e
        == LedgerError::StorageFailure
}

/// Registers the account `name` with the PIN `pin`: a new account holds nothing.
///
/// Refused with `DuplicateAccount` if the name is taken, in which case the account that has it
/// is left as it is.
pub fn register(conn: &Connection, name: &str, pin: i64) -> (result: Result<(), LedgerError>)
    ensures
        possible_registration(result),
{
    create_account(conn, name, pin, 0)
}

/// Logs in to the account `name`: succeeds if the store holds an account with exactly this name
/// and PIN, and is refused with `AuthenticationFailed` if it holds none.
pub fn authenticate(conn: &Connection, name: &str, pin: i64) -> (result: Result<(), LedgerError>)
    ensures
        possible_login(result),
{
    match verify_account(conn, name, pin) {
        Ok(verified) => authentication(verified),
        Err(e) => Err(e),
    }
}

/// Reads a typed line as a 64-bit decimal integer, without the whitespace around it.
pub fn parse_typed(input: &str) -> (result: Option<i64>)
    ensures
        result == typed_integer(input@),
{
    parse_integer(trim(input))
}

/// The words that name a refusal at the terminal.
pub fn refusal_text(e: LedgerError) -> (words: &'static str)
    ensures
        words@ == refusal_words(e),
{
    match e {
        LedgerError::MalformedRequest(_) => "Invalid option.",
        LedgerError::InvalidAmount => "Invalid number format.",
        LedgerError::AccountNotFound => "Account not found.",
        LedgerError::DuplicateAccount => "Account with this name already exists!",
        LedgerError::InsufficientFunds { .. } => "Insufficient funds.",
        LedgerError::AuthenticationFailed => "Invalid account name or PIN.",
        LedgerError::StorageFailure => "Storage failure.",
    }
}

/// Writes the notice for the outcome of the operation `verb`.
pub fn notice(verb: Verb, outcome: Result<i64, LedgerError>) -> (line: String)
    ensures
        line@ == notice_line(verb, outcome),
{
    match outcome {
        Ok(balance) => {
            let mut line = match verb {
                Verb::Deposit => String::from_str("Deposit successful. New balance: "),
                Verb::Withdraw => String::from_str("Withdrawal successful. Remaining balance: "),
            };
            let digits = format_integer(balance);
            line.append(digits.as_str());
            line
        },
        Err(LedgerError::InsufficientFunds { balance }) => {
            let mut line = String::from_str("Insufficient funds. Current balance: ");
            let digits = format_integer(balance);
            line.append(digits.as_str());
            line
        },
        Err(e) => {
            let mut line = String::from_str(refusal_text(e));
            match verb {
                Verb::Deposit => line.append(" Deposit canceled."),
                Verb::Withdraw => line.append(" Withdrawal canceled."),
            }
            line
        },
    }
}

/// Runs the operation `verb` on the account `name` with the amount typed as `input`, and
/// answers with a notice.
pub fn operate(conn: &Connection, verb: Verb, name: &str, input: &str) -> (line: String)
    ensures
        possible_notice(verb, input@, line@),
{
    match parse_typed(input) {
        None => notice(verb, Err(LedgerError::InvalidAmount)),
        Some(amount) => {
            let outcome = transact(conn, verb, name, amount);
            notice(verb, outcome)
        },
    }
}

/// Deposits the amount typed as `input` into the account `name`, and answers with a notice.
pub fn deposit(conn: &Connection, name: &str, input: &str) -> (line: String)
    ensures
        possible_notice(Verb::Deposit, input@, line@),
{
    operate(conn, Verb::Deposit, name, input)
}

/// Withdraws the amount typed as `input` from the account `name`, and answers with a notice.
pub fn withdrawal(conn: &Connection, name: &str, input: &str) -> (line: String)
    ensures
        possible_notice(Verb::Withdraw, input@, line@),
{
    operate(conn, Verb::Withdraw, name, input)
}

} // verus!
