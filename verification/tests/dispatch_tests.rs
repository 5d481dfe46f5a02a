use bank_ledger::dispatch::{handle_client, process_request, transact, Received};
use bank_ledger::ledger::{LedgerError, Verb};
use bank_ledger::store::{create_account, get_balance_from_db, initialize_database, verify_account};
use rusqlite::Connection;

fn open_ledger() -> Connection {
    initialize_database(":memory:").unwrap()
}

#[test]
fn scenario_create_deposit_withdraw_overdraw() {
    let conn = open_ledger();
    assert_eq!(create_account(&conn, "alice", 1234, 0), Ok(()));
    assert_eq!(get_balance_from_db(&conn, "alice"), Ok(Some(0)));
    assert_eq!(process_request("DEPOSIT alice 100\n", &conn), "Deposit successful. New balance: 100\n");
    assert_eq!(process_request("WITHDRAW alice 30\n", &conn), "Withdrawal successful. Remaining balance: 70\n");
    assert_eq!(process_request("WITHDRAW alice 1000\n", &conn), "Insufficient funds.\n");
    assert_eq!(get_balance_from_db(&conn, "alice"), Ok(Some(70)));
}

#[test]
fn scenario_withdraw_from_an_account_that_was_never_created() {
    let conn = open_ledger();
    assert_eq!(process_request("WITHDRAW bob 10\n", &conn), "Account not found.\n");
    assert_eq!(get_balance_from_db(&conn, "bob"), Ok(None));
}

#[test]
fn scenario_unknown_command_then_a_valid_request() {
    let conn = open_ledger();
    create_account(&conn, "alice", 1234, 0).unwrap();
    let bad = Received::Line("FROBNICATE alice 10\n".to_string());
    assert_eq!(handle_client(&bad, &conn), Some("Unknown command.\n".to_string()));
    let good = Received::Line("DEPOSIT alice 10\n".to_string());
    assert_eq!(handle_client(&good, &conn), Some("Deposit successful. New balance: 10\n".to_string()));
    assert_eq!(get_balance_from_db(&conn, "alice"), Ok(Some(10)));
}

#[test]
fn a_connection_ends_when_the_peer_is_gone() {
    let conn = open_ledger();
    assert_eq!(handle_client(&Received::Closed, &conn), None);
    assert_eq!(handle_client(&Received::Failed, &conn), None);
}

#[test]
fn deposit_changes_only_the_balance_of_its_account() {
    let conn = open_ledger();
    create_account(&conn, "alice", 1234, 5).unwrap();
    create_account(&conn, "bob", 4321, 9).unwrap();
    assert_eq!(process_request("DEPOSIT alice 37", &conn), "Deposit successful. New balance: 42\n");
    assert_eq!(get_balance_from_db(&conn, "alice"), Ok(Some(42)));
    assert_eq!(get_balance_from_db(&conn, "bob"), Ok(Some(9)));
    assert_eq!(verify_account(&conn, "alice", 1234), Ok(true));
    assert_eq!(verify_account(&conn, "bob", 4321), Ok(true));
}

#[test]
fn withdrawal_of_the_whole_balance() {
    let conn = open_ledger();
    create_account(&conn, "alice", 1234, 50).unwrap();
    assert_eq!(process_request("WITHDRAW alice 50", &conn), "Withdrawal successful. Remaining balance: 0\n");
    assert_eq!(process_request("WITHDRAW alice 1", &conn), "Insufficient funds.\n");
    assert_eq!(get_balance_from_db(&conn, "alice"), Ok(Some(0)));
}

#[test]
fn amounts_that_are_not_positive_change_nothing() {
    let conn = open_ledger();
    create_account(&conn, "alice", 1234, 50).unwrap();
    assert_eq!(process_request("DEPOSIT alice 0", &conn), "Invalid amount format.\n");
    assert_eq!(process_request("DEPOSIT alice -5", &conn), "Invalid amount format.\n");
    assert_eq!(process_request("WITHDRAW alice 0", &conn), "Invalid amount format.\n");
    assert_eq!(process_request("WITHDRAW alice -5", &conn), "Invalid amount format.\n");
    assert_eq!(get_balance_from_db(&conn, "alice"), Ok(Some(50)));
}

#[test]
fn amounts_that_are_no_numbers_change_nothing() {
    let conn = open_ledger();
    create_account(&conn, "alice", 1234, 50).unwrap();
    assert_eq!(process_request("DEPOSIT alice ten", &conn), "Invalid amount format.\n");
    assert_eq!(process_request("WITHDRAW alice 1e3", &conn), "Invalid amount format.\n");
    assert_eq!(process_request("DEPOSIT alice 9223372036854775808", &conn), "Invalid amount format.\n");
    assert_eq!(get_balance_from_db(&conn, "alice"), Ok(Some(50)));
}

#[test]
fn an_invalid_amount_is_reported_before_a_missing_account() {
    let conn = open_ledger();
    assert_eq!(process_request("WITHDRAW bob 0", &conn), "Invalid amount format.\n");
    assert_eq!(process_request("DEPOSIT bob -1", &conn), "Invalid amount format.\n");
    assert_eq!(process_request("DEPOSIT bob 1", &conn), "Account not found.\n");
}

#[test]
fn a_deposit_past_the_largest_balance_is_refused() {
    let conn = open_ledger();
    create_account(&conn, "rich", 1, i64::MAX - 1).unwrap();
    assert_eq!(process_request("DEPOSIT rich 2", &conn), "Invalid amount format.\n");
    assert_eq!(get_balance_from_db(&conn, "rich"), Ok(Some(i64::MAX - 1)));
    assert_eq!(process_request("DEPOSIT rich 1", &conn), "Deposit successful. New balance: 9223372036854775807\n");
}

#[test]
fn malformed_requests_get_their_lines() {
    let conn = open_ledger();
    assert_eq!(process_request("", &conn), "Invalid request format.\n");
    assert_eq!(process_request(" \n", &conn), "Invalid request format.\n");
    assert_eq!(process_request("DEPOSIT alice", &conn), "Usage: DEPOSIT <account_name> <amount>\n");
    assert_eq!(process_request("WITHDRAW", &conn), "Usage: WITHDRAW <account_name> <amount>\n");
    assert_eq!(process_request("WITHDRAW a 1 2", &conn), "Usage: WITHDRAW <account_name> <amount>\n");
    assert_eq!(process_request("BALANCE alice", &conn), "Unknown command.\n");
}

#[test]
fn a_store_that_fails_is_reported() {
    let conn = Connection::open_in_memory().unwrap();
    assert_eq!(process_request("DEPOSIT alice 10", &conn), "Storage failure.\n");
    assert_eq!(transact(&conn, Verb::Deposit, "alice", 10), Err(LedgerError::StorageFailure));
    assert!(conn.is_autocommit());
}

#[test]
fn transact_returns_the_new_balance() {
    let conn = open_ledger();
    create_account(&conn, "alice", 1, 10).unwrap();
    assert_eq!(transact(&conn, Verb::Deposit, "alice", 5), Ok(15));
    assert_eq!(transact(&conn, Verb::Withdraw, "alice", 15), Ok(0));
    assert_eq!(transact(&conn, Verb::Withdraw, "alice", 1), Err(LedgerError::InsufficientFunds { balance: 0 }));
    assert_eq!(transact(&conn, Verb::Deposit, "bob", 1), Err(LedgerError::AccountNotFound));
    assert_eq!(transact(&conn, Verb::Deposit, "alice", 0), Err(LedgerError::InvalidAmount));
    assert!(conn.is_autocommit());
}

#[test]
fn many_deposits_lose_no_update() {
    let conn = open_ledger();
    create_account(&conn, "alice", 1, 0).unwrap();
    let mut sent: i64 = 0;
    while sent < 200 {
        process_request("DEPOSIT alice 3", &conn);
        sent += 1;
    }
    assert_eq!(get_balance_from_db(&conn, "alice"), Ok(Some(600)));
}

#[test]
fn deposits_over_two_connections_lose_no_update() {
    let path = "file:ledger_shared?mode=memory&cache=shared";
    let first = initialize_database(path).unwrap();
    let second = initialize_database(path).unwrap();
    create_account(&first, "alice", 1, 0).unwrap();
    let mut round: i64 = 0;
    while round < 50 {
        assert_eq!(transact(&first, Verb::Deposit, "alice", 4), Ok(8 * round + 4));
        assert_eq!(transact(&second, Verb::Deposit, "alice", 4), Ok(8 * round + 8));
        round += 1;
    }
    assert_eq!(get_balance_from_db(&first, "alice"), Ok(Some(400)));
}

#[test]
fn whitespace_around_a_request_does_not_matter() {
    let conn = open_ledger();
    create_account(&conn, "alice", 1234, 0).unwrap();
    assert_eq!(process_request("  DEPOSIT\talice   7 \r\n", &conn), "Deposit successful. New balance: 7\n");
    assert_eq!(process_request("\nWITHDRAW alice 7", &conn), "Withdrawal successful. Remaining balance: 0\n");
}

#[test]
fn every_reply_is_one_line() {
    let conn = open_ledger();
    create_account(&conn, "alice", 1234, 0).unwrap();
    let requests = [
        "", "DEPOSIT alice 5", "WITHDRAW alice 2", "WITHDRAW alice 100", "DEPOSIT bob 1", "DEPOSIT alice x",
        "DEPOSIT alice", "NOPE", "DEPOSIT alice -1", "a\nb\nc",
    ];
    for request in requests {
        let response = process_request(request, &conn);
        assert!(response.ends_with('\n'), "{:?}", response);
        assert_eq!(response.matches('\n').count(), 1, "{:?}", response);
    }
}

#[test]
fn operations_on_different_accounts_are_independent() {
    let one = open_ledger();
    create_account(&one, "alice", 1, 10).unwrap();
    create_account(&one, "bob", 2, 20).unwrap();
    process_request("DEPOSIT alice 5", &one);
    process_request("WITHDRAW bob 20", &one);
    let other = open_ledger();
    create_account(&other, "alice", 1, 10).unwrap();
    create_account(&other, "bob", 2, 20).unwrap();
    process_request("WITHDRAW bob 20", &other);
    process_request("DEPOSIT alice 5", &other);
    assert_eq!(get_balance_from_db(&one, "alice"), get_balance_from_db(&other, "alice"));
    assert_eq!(get_balance_from_db(&one, "bob"), get_balance_from_db(&other, "bob"));
    assert_eq!(get_balance_from_db(&one, "alice"), Ok(Some(15)));
    assert_eq!(get_balance_from_db(&one, "bob"), Ok(Some(0)));
}
