use bank_ledger::codec::{
    decode, encode, error_text, parse_verb, reply, word_of, write_request, Command,
};
use bank_ledger::ledger::{LedgerError, Malformed, Verb};

fn command(verb: Verb, name: &str, amount: i64) -> Command {
    Command { verb, name: name.to_string(), amount }
}

#[test]
fn decode_deposit() {
    assert_eq!(decode("DEPOSIT alice 100"), Ok(command(Verb::Deposit, "alice", 100)));
    assert_eq!(decode("DEPOSIT alice 100\n"), Ok(command(Verb::Deposit, "alice", 100)));
}

#[test]
fn decode_withdraw() {
    assert_eq!(decode("WITHDRAW bob 10\n"), Ok(command(Verb::Withdraw, "bob", 10)));
}

#[test]
fn decode_keeps_the_sign_of_the_amount() {
    assert_eq!(decode("DEPOSIT alice -5"), Ok(command(Verb::Deposit, "alice", -5)));
    assert_eq!(decode("WITHDRAW alice 0"), Ok(command(Verb::Withdraw, "alice", 0)));
    assert_eq!(decode("DEPOSIT alice +5"), Ok(command(Verb::Deposit, "alice", 5)));
}

#[test]
fn decode_empty_line() {
    assert_eq!(decode(""), Err(LedgerError::MalformedRequest(Malformed::Empty)));
    assert_eq!(decode("   \n"), Err(LedgerError::MalformedRequest(Malformed::Empty)));
}

#[test]
fn decode_unknown_verb() {
    assert_eq!(decode("FROBNICATE alice 10"), Err(LedgerError::MalformedRequest(Malformed::UnknownCommand)));
    assert_eq!(decode("deposit alice 10"), Err(LedgerError::MalformedRequest(Malformed::UnknownCommand)));
    assert_eq!(decode("hello"), Err(LedgerError::MalformedRequest(Malformed::UnknownCommand)));
}

#[test]
fn decode_wrong_field_count() {
    let deposit = Err(LedgerError::MalformedRequest(Malformed::WrongFieldCount(Verb::Deposit)));
    let withdraw = Err(LedgerError::MalformedRequest(Malformed::WrongFieldCount(Verb::Withdraw)));
    assert_eq!(decode("DEPOSIT"), deposit);
    assert_eq!(decode("DEPOSIT alice"), deposit);
    assert_eq!(decode("DEPOSIT alice 10 20"), deposit);
    assert_eq!(decode("WITHDRAW"), withdraw);
    assert_eq!(decode("WITHDRAW bob"), withdraw);
    assert_eq!(decode("WITHDRAW bob 1 2 3"), withdraw);
}

#[test]
fn decode_amount_that_is_no_number() {
    assert_eq!(decode("DEPOSIT alice ten"), Err(LedgerError::InvalidAmount));
    assert_eq!(decode("WITHDRAW alice 1.5"), Err(LedgerError::InvalidAmount));
    assert_eq!(decode("DEPOSIT alice 99999999999999999999"), Err(LedgerError::InvalidAmount));
    assert_eq!(decode("DEPOSIT alice 12x"), Err(LedgerError::InvalidAmount));
}

#[test]
fn verbs_and_their_words() {
    assert_eq!(word_of(Verb::Deposit), "DEPOSIT");
    assert_eq!(word_of(Verb::Withdraw), "WITHDRAW");
    assert_eq!(parse_verb("DEPOSIT"), Some(Verb::Deposit));
    assert_eq!(parse_verb("WITHDRAW"), Some(Verb::Withdraw));
    assert_eq!(parse_verb("Deposit"), None);
    assert_eq!(parse_verb(""), None);
}

#[test]
fn encode_writes_one_line() {
    assert_eq!(encode(&command(Verb::Deposit, "name", 50)), "DEPOSIT name 50\n");
    assert_eq!(encode(&command(Verb::Withdraw, "bob", 10)), "WITHDRAW bob 10\n");
    assert_eq!(encode(&command(Verb::Deposit, "x", -7)), "DEPOSIT x -7\n");
}

#[test]
fn write_request_takes_text_as_it_is() {
    assert_eq!(write_request(Verb::Deposit, "alice", "abc"), "DEPOSIT alice abc\n");
    assert_eq!(write_request(Verb::Withdraw, "", ""), "WITHDRAW  \n");
}

#[test]
fn round_trip_of_a_deposit() {
    let sent = command(Verb::Deposit, "name", 50);
    let line = encode(&sent);
    let back = decode(&line).unwrap();
    assert_eq!(back.verb, Verb::Deposit);
    assert_eq!(back.name, "name");
    assert_eq!(back.amount, 50);
}

#[test]
fn round_trip_of_many_commands() {
    let names = ["a", "alice", "bob_2", "Ünïcode", "x-y"];
    let amounts = [0i64, 1, -1, 50, 1000, i64::MAX, i64::MIN];
    for name in names {
        for amount in amounts {
            for verb in [Verb::Deposit, Verb::Withdraw] {
                let sent = command(verb, name, amount);
                assert_eq!(decode(&encode(&sent)), Ok(sent));
            }
        }
    }
}

#[test]
fn reply_to_a_settled_operation() {
    assert_eq!(reply(Verb::Deposit, Ok(100)), "Deposit successful. New balance: 100\n");
    assert_eq!(reply(Verb::Withdraw, Ok(70)), "Withdrawal successful. Remaining balance: 70\n");
    assert_eq!(reply(Verb::Withdraw, Ok(0)), "Withdrawal successful. Remaining balance: 0\n");
}

#[test]
fn reply_to_a_refusal() {
    assert_eq!(reply(Verb::Withdraw, Err(LedgerError::InsufficientFunds { balance: 70 })), "Insufficient funds.\n");
    assert_eq!(reply(Verb::Deposit, Err(LedgerError::AccountNotFound)), "Account not found.\n");
    assert_eq!(reply(Verb::Deposit, Err(LedgerError::InvalidAmount)), "Invalid amount format.\n");
    assert_eq!(reply(Verb::Deposit, Err(LedgerError::StorageFailure)), "Storage failure.\n");
}

#[test]
fn every_refusal_has_its_line() {
    assert_eq!(error_text(LedgerError::MalformedRequest(Malformed::Empty)), "Invalid request format.\n");
    assert_eq!(error_text(LedgerError::MalformedRequest(Malformed::UnknownCommand)), "Unknown command.\n");
    assert_eq!(
        error_text(LedgerError::MalformedRequest(Malformed::WrongFieldCount(Verb::Deposit))),
        "Usage: DEPOSIT <account_name> <amount>\n"
    );
    assert_eq!(
        error_text(LedgerError::MalformedRequest(Malformed::WrongFieldCount(Verb::Withdraw))),
        "Usage: WITHDRAW <account_name> <amount>\n"
    );
    assert_eq!(error_text(LedgerError::InvalidAmount), "Invalid amount format.\n");
    assert_eq!(error_text(LedgerError::AccountNotFound), "Account not found.\n");
    assert_eq!(error_text(LedgerError::DuplicateAccount), "Account already exists.\n");
    assert_eq!(error_text(LedgerError::InsufficientFunds { balance: 1 }), "Insufficient funds.\n");
    assert_eq!(error_text(LedgerError::AuthenticationFailed), "Authentication failed.\n");
    assert_eq!(error_text(LedgerError::StorageFailure), "Storage failure.\n");
}
