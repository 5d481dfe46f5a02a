//! The ledger engine: what a deposit, a withdrawal, a registration and a login decide.
//!
//! The rules are pure. They take what the store holds as plain values and say what the new
//! balance is, or why the operation is refused. A refused operation changes nothing.

use vstd::prelude::*;

verus! {

/// The two balance-affecting operations.
#[derive(Clone, Copy, Debug, PartialEq, Eq, Structural)]
pub enum Verb {
    Deposit,
    Withdraw,
}

/// What is wrong with a request line that cannot be read as a command.
#[derive(Clone, Copy, Debug, PartialEq, Eq, Structural)]
pub enum Malformed {
    /// The line holds no token.
    Empty,
    /// The first token is no known verb.
    UnknownCommand,
    /// The verb is known, but it does not come with exactly a name and an amount.
    WrongFieldCount(Verb),
}

/// Why an operation was refused.
#[derive(Clone, Copy, Debug, PartialEq, Eq, Structural)]
pub enum LedgerError {
    /// The request line cannot be read as a command.
    MalformedRequest(Malformed),
    /// The amount is not a number, is not positive, or would push the balance past `i64::MAX`.
    InvalidAmount,
    /// No account has the given name.
    AccountNotFound,
    /// An account with the given name exists already.
    DuplicateAccount,
    /// The withdrawal exceeds the balance, which is `balance`.
    InsufficientFunds { balance: i64 },
    /// Name and PIN do not match a stored account.
    AuthenticationFailed,
    /// The store could not complete the operation.
    StorageFailure,
}

/// Whether `amount` can be moved at all: it is positive.
pub open spec fn valid_amount(amount: i64) -> bool {
    amount > 0
}

/// The balance after depositing `amount` into an account that holds `balance`.
///
/// A deposit that would push the balance past `i64::MAX` is refused as an invalid amount.
pub open spec fn deposit_rule(balance: i64, amount: i64) -> Result<i64, LedgerError> {
    if !valid_amount(amount) || balance + amount > i64::MAX {
        Err(LedgerError::InvalidAmount)
    } else {
        Ok((balance + amount) as i64)
    }
}

/// The balance after withdrawing `amount` from an account that holds `balance`.
pub open spec fn withdraw_rule(balance: i64, amount: i64) -> Result<i64, LedgerError> {
    if !valid_amount(amount) {
        Err(LedgerError::InvalidAmount)
    } else if amount > balance {
        Err(LedgerError::InsufficientFunds { balance })
    } else {
        Ok((balance - amount) as i64)
    }
}

/// What the operation `verb` of `amount` decides, given what the store holds for the account:
/// `None` if it holds no such account, else the account's balance.
///
/// The amount is judged first, so an invalid amount is reported whether or not the account
/// exists.
pub open spec fn settle_rule(verb: Verb, amount: i64, stored: Option<i64>) -> Result<
    i64,
    LedgerError,
> {
    if !valid_amount(amount) {
        Err(LedgerError::InvalidAmount)
    } else {
        match stored {
            None => Err(LedgerError::AccountNotFound),
            Some(balance) => match verb {
                Verb::Deposit => deposit_rule(balance, amount),
                Verb::Withdraw => withdraw_rule(balance, amount),
            },
        }
    }
}

/// What a registration decides, given whether the name is taken.
pub open spec fn register_rule(name_taken: bool) -> Result<(), LedgerError> {
    if name_taken {
        Err(LedgerError::DuplicateAccount)
    } else {
        Ok(())
    }
}

/// What a login decides, given whether the store holds an account with this name and PIN.
pub open spec fn authenticate_rule(verified: bool) -> Result<(), LedgerError> {
    if verified {
        Ok(())
    } else {
        Err(LedgerError::AuthenticationFailed)
    }
}

/// Deposits `amount` into a balance and returns the new balance.
///
/// A positive amount is added. The deposit is refused with `InvalidAmount` if the amount is not
/// positive or the sum does not fit; an account that held no debt holds none afterwards.
pub fn deposit(balance: i64, amount: i64) -> (result: Result<i64, LedgerError>)
    ensures
        result == deposit_rule(balance, amount),
        amount > 0 && balance + amount <= i64::MAX ==> result == Ok::<i64, LedgerError>(
            (balance + amount) as i64,
        ),
        result matches Ok(after) ==> (balance >= 0 ==> after >= 0),
{
    if amount <= 0 {
        return Err(LedgerError::InvalidAmount);
    }
    match balance.checked_add(amount) {
        Some(after) => Ok(after),
        None => Err(LedgerError::InvalidAmount),
    }
}

/// Withdraws `amount` from a balance and returns the new balance.
///
/// The withdrawal is refused with `InvalidAmount` if the amount is not positive, and with
/// `InsufficientFunds` if it exceeds the balance; the balance never drops below zero.
pub fn withdraw(balance: i64, amount: i64) -> (result: Result<i64, LedgerError>)
    ensures
        result == withdraw_rule(balance, amount),
        0 < amount <= balance ==> result == Ok::<i64, LedgerError>((balance - amount) as i64),
        amount > balance && amount > 0 ==> result == Err::<i64, LedgerError>(
            LedgerError::InsufficientFunds { balance },
        ),
        result matches Ok(after) ==> after >= 0,
{
    if amount <= 0 {
        Err(LedgerError::InvalidAmount)
    } else if amount > balance {
        Err(LedgerError::InsufficientFunds { balance })
    } else {
        Ok(balance - amount)
    }
}

/// Decides the operation `verb` of `amount` on what the store holds for the account.
///
/// `Ok` carries the balance to write back. Every `Err` means that nothing is to be written.
pub fn settle(verb: Verb, amount: i64, stored: Option<i64>) -> (result: Result<i64, LedgerError>)
    ensures
        result == settle_rule(verb, amount, stored),
{
    if amount <= 0 {
        return Err(LedgerError::InvalidAmount);
    }
    match stored {
        None => Err(LedgerError::AccountNotFound),
        Some(balance) => match verb {
            Verb::Deposit => deposit(balance, amount),
            Verb::Withdraw => withdraw(balance, amount),
        },
    }
}

/// Decides a registration, given whether the store holds the name already: a taken name is
/// refused, and nothing is to be written.
pub fn registration(name_taken: bool) -> (result: Result<(), LedgerError>)
    ensures
        result == register_rule(name_taken),
{
    if name_taken {
        Err(LedgerError::DuplicateAccount)
    } else {
        Ok(())
    }
}

/// Decides a login, given whether the store holds an account with exactly this name and PIN.
pub fn authentication(verified: bool) -> (result: Result<(), LedgerError>)
    ensures
        result == authenticate_rule(verified),
{
    if verified {
        Ok(())
    } else {
        Err(LedgerError::AuthenticationFailed)
    }
}

} // verus!
