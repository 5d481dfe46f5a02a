use bank_ledger::ledger::{LedgerError, Verb};
use bank_ledger::store::{
    create_account, get_balance_from_db, initialize_database, update_balance_in_db, verify_account,
};
use bank_ledger::teller::{
    authenticate, deposit, notice, operate, parse_typed, refusal_text, register, withdrawal,
};
use rusqlite::Connection;

fn open_counter() -> Connection {
    let conn = initialize_database(":memory:").unwrap();
    create_account(&conn, "alice", 1234, 0).unwrap();
    conn
}

#[test]
fn typed_amounts_are_trimmed() {
    assert_eq!(parse_typed("100\n"), Some(100));
    assert_eq!(parse_typed("  42  "), Some(42));
    assert_eq!(parse_typed("-3\r\n"), Some(-3));
    assert_eq!(parse_typed(""), None);
    assert_eq!(parse_typed("\n"), None);
    assert_eq!(parse_typed("1 2"), None);
    assert_eq!(parse_typed("abc"), None);
}

#[test]
fn deposit_at_the_terminal() {
    let conn = open_counter();
    assert_eq!(deposit(&conn, "alice", "100\n"), "Deposit successful. New balance: 100");
    assert_eq!(get_balance_from_db(&conn, "alice"), Ok(Some(100)));
}

#[test]
fn withdrawal_at_the_terminal() {
    let conn = open_counter();
    deposit(&conn, "alice", "100\n");
    assert_eq!(withdrawal(&conn, "alice", "30\n"), "Withdrawal successful. Remaining balance: 70");
    assert_eq!(withdrawal(&conn, "alice", "1000\n"), "Insufficient funds. Current balance: 70");
    assert_eq!(get_balance_from_db(&conn, "alice"), Ok(Some(70)));
}

#[test]
fn text_that_is_no_number_cancels() {
    let conn = open_counter();
    assert_eq!(deposit(&conn, "alice", "ten\n"), "Invalid number format. Deposit canceled.");
    assert_eq!(withdrawal(&conn, "alice", "\n"), "Invalid number format. Withdrawal canceled.");
    assert_eq!(deposit(&conn, "alice", "0\n"), "Invalid number format. Deposit canceled.");
    assert_eq!(withdrawal(&conn, "alice", "-4\n"), "Invalid number format. Withdrawal canceled.");
    assert_eq!(get_balance_from_db(&conn, "alice"), Ok(Some(0)));
}

#[test]
fn an_unknown_account_cancels() {
    let conn = open_counter();
    assert_eq!(deposit(&conn, "bob", "5\n"), "Account not found. Deposit canceled.");
    assert_eq!(withdrawal(&conn, "bob", "5\n"), "Account not found. Withdrawal canceled.");
    assert_eq!(operate(&conn, Verb::Deposit, "bob", "5"), "Account not found. Deposit canceled.");
}

#[test]
fn a_failing_store_cancels() {
    let conn = Connection::open_in_memory().unwrap();
    assert_eq!(deposit(&conn, "alice", "5\n"), "Storage failure. Deposit canceled.");
    assert_eq!(withdrawal(&conn, "alice", "5\n"), "Storage failure. Withdrawal canceled.");
}

#[test]
fn notices_for_every_outcome() {
    assert_eq!(notice(Verb::Deposit, Ok(5)), "Deposit successful. New balance: 5");
    assert_eq!(notice(Verb::Withdraw, Ok(0)), "Withdrawal successful. Remaining balance: 0");
    assert_eq!(
        notice(Verb::Withdraw, Err(LedgerError::InsufficientFunds { balance: 12 })),
        "Insufficient funds. Current balance: 12"
    );
    assert_eq!(notice(Verb::Deposit, Err(LedgerError::InvalidAmount)), "Invalid number format. Deposit canceled.");
    assert_eq!(notice(Verb::Withdraw, Err(LedgerError::AccountNotFound)), "Account not found. Withdrawal canceled.");
    assert_eq!(notice(Verb::Withdraw, Err(LedgerError::StorageFailure)), "Storage failure. Withdrawal canceled.");
}

#[test]
fn words_of_every_refusal() {
    assert_eq!(refusal_text(LedgerError::InvalidAmount), "Invalid number format.");
    assert_eq!(refusal_text(LedgerError::AccountNotFound), "Account not found.");
    assert_eq!(refusal_text(LedgerError::DuplicateAccount), "Account with this name already exists!");
    assert_eq!(refusal_text(LedgerError::InsufficientFunds { balance: 0 }), "Insufficient funds.");
    assert_eq!(refusal_text(LedgerError::AuthenticationFailed), "Invalid account name or PIN.");
    assert_eq!(refusal_text(LedgerError::StorageFailure), "Storage failure.");
    assert_eq!(
        refusal_text(LedgerError::MalformedRequest(bank_ledger::ledger::Malformed::Empty)),
        "Invalid option."
    );
}

#[test]
fn a_registered_account_holds_nothing() {
    let conn = initialize_database(":memory:").unwrap();
    assert_eq!(register(&conn, "bob", 4321), Ok(()));
    assert_eq!(get_balance_from_db(&conn, "bob"), Ok(Some(0)));
    assert_eq!(verify_account(&conn, "bob", 4321), Ok(true));
}

#[test]
fn a_duplicate_registration_changes_nothing() {
    let conn = open_counter();
    update_balance_in_db(&conn, "alice", 70).unwrap();
    assert_eq!(register(&conn, "alice", 9999), Err(LedgerError::DuplicateAccount));
    assert_eq!(get_balance_from_db(&conn, "alice"), Ok(Some(70)));
    assert_eq!(verify_account(&conn, "alice", 1234), Ok(true));
    assert_eq!(verify_account(&conn, "alice", 9999), Ok(false));
}

#[test]
fn authentication_needs_the_exact_pin() {
    let conn = open_counter();
    assert_eq!(authenticate(&conn, "alice", 1234), Ok(()));
    assert_eq!(authenticate(&conn, "alice", 1233), Err(LedgerError::AuthenticationFailed));
    assert_eq!(authenticate(&conn, "alice", -1234), Err(LedgerError::AuthenticationFailed));
    assert_eq!(authenticate(&conn, "bob", 1234), Err(LedgerError::AuthenticationFailed));
    assert_eq!(authenticate(&conn, "", 1234), Err(LedgerError::AuthenticationFailed));
}

#[test]
fn a_failing_store_fails_registration_and_login() {
    let conn = Connection::open_in_memory().unwrap();
    assert_eq!(register(&conn, "alice", 1), Err(LedgerError::StorageFailure));
    assert_eq!(authenticate(&conn, "alice", 1), Err(LedgerError::StorageFailure));
}
