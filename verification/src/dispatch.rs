//! The dispatcher: one request line in, one reply line out, against the account store.
//!
//! A request is self-describing: it carries its own account name, and nothing is kept between
//! two requests. The read of a balance, the decision and the write run in one transaction.

use crate::codec::{
    decode, decode_line, error_line, error_text, lemma_error_is_line, lemma_reply_is_line, reply,
    reply_line,
};
use crate::ledger::{settle, settle_rule, valid_amount, LedgerError, Verb};
use crate::store::{begin, finish, get_balance_from_db, update_balance_in_db};
use crate::text::is_line;
use rusqlite::Connection;
use vstd::prelude::*;

verus! {

/// Whether `outcome` can be what the operation `verb` of `amount` gives on some store.
///
/// An invalid amount is refused as such whatever the store holds. For a valid one the outcome
/// is what `settle_rule` decides on what the store held for the account, or a storage failure.
pub open spec fn possible_outcome(verb: Verb, amount: i64, outcome: Result<i64, LedgerError>) -> bool {
    if !valid_amount(amount) {
        outcome == Err::<i64, LedgerError>(LedgerError::InvalidAmount)
    } else {
        ||| outcome == Err::<i64, LedgerError>(LedgerError::StorageFailure)
        ||| exists|stored: Option<i64>| outcome == #[trigger] settle_rule(verb, amount, stored)
    }
}

/// Whether `response` can be the reply to `request` on some store.
///
/// A request that cannot be decoded has one reply, the line of its refusal. The reply to a
/// command is the line of one of its possible outcomes.
pub open spec fn possible_response(request: Seq<char>, response: Seq<char>) -> bool {
    match decode_line(request) {
        Err(e) => response == error_line(e),
        Ok(command) => exists|outcome: Result<i64, LedgerError>|
            possible_outcome(command.verb, command.amount, outcome) && response == #[trigger] reply_line(
                command.verb,
                outcome,
            ),
    }
}

/// Runs the operation `verb` of `amount` on the account `name`.
///
/// An amount that is not positive is refused before the store is touched. Else the balance is
/// read, the operation is decided by `settle`, and the new balance is written, all in one
/// transaction; a refusal writes nothing. Returns the new balance.
pub fn transact(conn: &Connection, verb: Verb, name: &str, amount: i64) -> (outcome: Result<
    i64,
    LedgerError,
>)
    ensures
        possible_outcome(verb, amount, outcome),
{
    if amount <= 0 {
        return Err(LedgerError::InvalidAmount);
    }
    match begin(conn) {
        Err(e) => {
            return Err(e);
        },
        Ok(()) => {},
    }
    let decided = match get_balance_from_db(conn, name) {
        Err(e) => Err(e),
        Ok(stored) => {
            let settled = settle(verb, amount, stored);
            match settled {
                Err(e) => Err(e),
                Ok(balance) => match update_balance_in_db(conn, name, balance) {
                    Ok(()) => Ok(balance),
                    Err(e) => {
                        assert(e == LedgerError::AccountNotFound ==> settle_rule(verb, amount, None)
                            == Err::<i64, LedgerError>(e));
                        Err(e)
                    },
                },
            }
        },
    };
    finish(conn, decided)
}

/// Answers one request line.
///
/// A line that cannot be decoded is answered with its refusal, and the store is not touched.
/// Else the command is run by `transact` and the reply reports its outcome. Every reply is one
/// line.
pub fn process_request(request: &str, conn: &Connection) -> (response: String)
    ensures
        possible_response(request@, response@),
        is_line(response@),
{
    match decode(request) {
        Err(e) => {
            proof {
                lemma_error_is_line(e);
            }
            String::from_str(error_text(e))
        },
        Ok(command) => {
            let outcome = transact(conn, command.verb, command.name.as_str(), command.amount);
            let response = reply(command.verb, outcome);
            proof {
                lemma_reply_is_line(command.verb, outcome);
            }
            response
        },
    }
}

/// What a read from a peer gave.
#[derive(Clone, Debug, PartialEq, Eq)]
pub enum Received {
    /// A line of input.
    Line(String),
    /// The peer closed the connection.
    Closed,
    /// The read failed.
    Failed,
}

/// Decides what a connection does after a read: `Some` carries the one reply to write before
/// the next read, `None` ends the connection.
///
/// The connection ends when the peer has closed it or a read has failed. A line is always
/// answered, whatever it holds: a bad request never ends a connection.
pub fn handle_client(received: &Received, conn: &Connection) -> (step: Option<String>)
    ensures
        match *received {
            Received::Line(line) => step matches Some(response) && possible_response(
                line@,
                response@,
            ) && is_line(response@),
            Received::Closed => step is None,
            Received::Failed => step is None,
        },
{
    match received {
        Received::Line(line) => Some(process_request(line.as_str(), conn)),
        Received::Closed => None,
        Received::Failed => None,
    }
}

} // verus!
