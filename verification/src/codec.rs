//! The line protocol: a request line is read as a command, an outcome is written as a reply.
//!
//! A request is one line of three tokens, `DEPOSIT <name> <amount>` or
//! `WITHDRAW <name> <amount>`, separated by whitespace. A reply is one line of text.

use crate::ledger::{LedgerError, Malformed, Verb};
use crate::number::{decimal, format_integer, integer_of, lemma_decimal_chars, parse_integer};
use crate::text::{is_line, same_text, split_whitespace, tokens};
use vstd::prelude::*;

verus! {

/// A decoded request: what to do, on which account, with what amount.
#[derive(Clone, Debug, PartialEq, Eq)]
pub struct Command {
    pub verb: Verb,
    pub name: String,
    pub amount: i64,
}

/// A command as a plain value.
pub struct CommandView {
    pub verb: Verb,
    pub name: Seq<char>,
    pub amount: i64,
}

impl View for Command {
    type V = CommandView;

    open spec fn view(&self) -> CommandView {
        CommandView { verb: self.verb, name: self.name@, amount: self.amount }
    }
}

/// The word that stands for `verb` on the wire.
pub open spec fn verb_word(verb: Verb) -> Seq<char> {
    match verb {
        Verb::Deposit => "DEPOSIT"@,
        Verb::Withdraw => "WITHDRAW"@,
    }
}

/// The verb that `word` stands for, if any. The words are case-sensitive.
pub open spec fn verb_of(word: Seq<char>) -> Option<Verb> {
    if word == verb_word(Verb::Deposit) {
        Some(Verb::Deposit)
    } else if word == verb_word(Verb::Withdraw) {
        Some(Verb::Withdraw)
    } else {
        None
    }
}

/// The command that `line` holds, or why it holds none.
///
/// The line is malformed if it has no token, if its first token is no verb, or if a verb does
/// not come with exactly two more tokens. An amount that is no 64-bit decimal integer is an
/// invalid amount. The sign of the amount is not judged here.
pub open spec fn decode_line(line: Seq<char>) -> Result<CommandView, LedgerError> {
    let parts = tokens(line);
    if parts.len() == 0 {
        Err(LedgerError::MalformedRequest(Malformed::Empty))
    } else {
        match verb_of(parts[0]) {
            None => Err(LedgerError::MalformedRequest(Malformed::UnknownCommand)),
            Some(verb) => if parts.len() != 3 {
                Err(LedgerError::MalformedRequest(Malformed::WrongFieldCount(verb)))
            } else {
                match integer_of(parts[2]) {
                    None => Err(LedgerError::InvalidAmount),
                    Some(amount) => Ok(
                        CommandView { verb, name: parts[1], amount: amount as i64 },
                    ),
                }
            },
        }
    }
}

/// The request line of a command whose name and amount are given as text.
pub open spec fn request_line(verb: Verb, name: Seq<char>, amount: Seq<char>) -> Seq<char> {
    verb_word(verb) + " "@ + name + " "@ + amount + "\n"@
}

/// The request line of `command`.
pub open spec fn encode_line(command: CommandView) -> Seq<char> {
    request_line(command.verb, command.name, decimal(command.amount as int))
}

/// A decoding result as a plain value.
pub open spec fn decoded(result: Result<Command, LedgerError>) -> Result<CommandView, LedgerError> {
    match result {
        Ok(command) => Ok(command@),
        Err(e) => Err(e),
    }
}

/// The reply line that reports the refusal `e`.
pub open spec fn error_line(e: LedgerError) -> Seq<char> {
    match e {
        LedgerError::MalformedRequest(Malformed::Empty) => "Invalid request format.\n"@,
        LedgerError::MalformedRequest(Malformed::UnknownCommand) => "Unknown command.\n"@,
        LedgerError::MalformedRequest(Malformed::WrongFieldCount(Verb::Deposit)) =>
            "Usage: DEPOSIT <account_name> <amount>\n"@,
        LedgerError::MalformedRequest(Malformed::WrongFieldCount(Verb::Withdraw)) =>
            "Usage: WITHDRAW <account_name> <amount>\n"@,
        LedgerError::InvalidAmount => "Invalid amount format.\n"@,
        LedgerError::AccountNotFound => "Account not found.\n"@,
        LedgerError::DuplicateAccount => "Account already exists.\n"@,
        LedgerError::InsufficientFunds { .. } => "Insufficient funds.\n"@,
        LedgerError::AuthenticationFailed => "Authentication failed.\n"@,
        LedgerError::StorageFailure => "Storage failure.\n"@,
    }
}

/// The words that open the reply to a settled operation, before the new balance.
pub open spec fn success_words(verb: Verb) -> Seq<char> {
    match verb {
        Verb::Deposit => "Deposit successful. New balance: "@,
        Verb::Withdraw => "Withdrawal successful. Remaining balance: "@,
    }
}

/// The reply line for the outcome of the operation `verb`.
pub open spec fn reply_line(verb: Verb, outcome: Result<i64, LedgerError>) -> Seq<char> {
    match outcome {
        Ok(balance) => success_words(verb) + decimal(balance as int) + "\n"@,
        Err(e) => error_line(e),
    }
}

/// Every reply is one line: it ends with a line feed and holds no other.
pub proof fn lemma_reply_is_line(verb: Verb, outcome: Result<i64, LedgerError>)
    ensures
        is_line(reply_line(verb, outcome)),
{
    reveal_strlit("\n");
    match outcome {
        Ok(balance) => {
            reveal_strlit("Deposit successful. New balance: ");
            reveal_strlit("Withdrawal successful. Remaining balance: ");
            lemma_decimal_chars(balance as int);
            let words = success_words(verb);
            let digits = decimal(balance as int);
            let line = reply_line(verb, outcome);
            assert forall|i: int| 0 <= i < line.len() - 1 implies #[trigger] line[i] != '\n' by {
                if i < words.len() {
                    assert(line[i] == words[i]);
                } else {
                    assert(line[i] == digits[i - words.len()]);
                }
            }
        },
        Err(e) => {
            lemma_error_is_line(e);
        },
    }
}

/// Every refusal is reported in one line.
pub proof fn lemma_error_is_line(e: LedgerError)
    ensures
        is_line(error_line(e)),
{
    reveal_strlit("Invalid request format.\n");
    reveal_strlit("Unknown command.\n");
    reveal_strlit("Usage: DEPOSIT <account_name> <amount>\n");
    reveal_strlit("Usage: WITHDRAW <account_name> <amount>\n");
    reveal_strlit("Invalid amount format.\n");
    reveal_strlit("Account not found.\n");
    reveal_strlit("Account already exists.\n");
    reveal_strlit("Insufficient funds.\n");
    reveal_strlit("Authentication failed.\n");
    reveal_strlit("Storage failure.\n");
}

/// The word that stands for `verb` on the wire.
pub fn word_of(verb: Verb) -> (word: &'static str)
    ensures
        word@ == verb_word(verb),
{
    match verb {
        Verb::Deposit => "DEPOSIT",
        Verb::Withdraw => "WITHDRAW",
    }
}

/// Reads the first token of a request as a verb.
pub fn parse_verb(word: &str) -> (verb: Option<Verb>)
    ensures
        verb == verb_of(word@),
{
    if same_text(word, "DEPOSIT") {
        Some(Verb::Deposit)
    } else if same_text(word, "WITHDRAW") {
        Some(Verb::Withdraw)
    } else {
        None
    }
}

/// Decodes a request line.
///
/// Returns the command if the line is a verb, a name and a 64-bit decimal amount, and else the
/// refusal that `decode_line` gives for it.
pub fn decode(line: &str) -> (result: Result<Command, LedgerError>)
    ensures
        decoded(result) == decode_line(line@),
{
    let parts = split_whitespace(line);
    if parts.len() == 0 {
        return Err(LedgerError::MalformedRequest(Malformed::Empty));
    }
    let verb = match parse_verb(parts[0].as_str()) {
        Some(verb) => verb,
        None => {
            return Err(LedgerError::MalformedRequest(Malformed::UnknownCommand));
        },
    };
    if parts.len() != 3 {
        return Err(LedgerError::MalformedRequest(Malformed::WrongFieldCount(verb)));
    }
    match parse_integer(parts[2].as_str()) {
        Some(amount) => Ok(Command { verb, name: parts[1].clone(), amount }),
        None => Err(LedgerError::InvalidAmount),
    }
}

/// Writes the request line of a command whose name and amount are given as text.
pub fn write_request(verb: Verb, name: &str, amount: &str) -> (line: String)
    ensures
        line@ == request_line(verb, name@, amount@),
{
    let mut line = String::from_str(word_of(verb));
    line.append(" ");
    line.append(name);
    line.append(" ");
    line.append(amount);
    line.append("\n");
    line
}

/// Encodes `command` as a request line.
pub fn encode(command: &Command) -> (line: String)
    ensures
        line@ == encode_line(command@),
{
    let amount = format_integer(command.amount);
    write_request(command.verb, command.name.as_str(), amount.as_str())
}

/// The reply line that reports a refusal.
pub fn error_text(e: LedgerError) -> (line: &'static str)
    ensures
        line@ == error_line(e),
{
    match e {
        LedgerError::MalformedRequest(Malformed::Empty) => "Invalid request format.\n",
        LedgerError::MalformedRequest(Malformed::UnknownCommand) => "Unknown command.\n",
        LedgerError::MalformedRequest(Malformed::WrongFieldCount(Verb::Deposit)) =>
            "Usage: DEPOSIT <account_name> <amount>\n",
        LedgerError::MalformedRequest(Malformed::WrongFieldCount(Verb::Withdraw)) =>
            "Usage: WITHDRAW <account_name> <amount>\n",
        LedgerError::InvalidAmount => "Invalid amount format.\n",
        LedgerError::AccountNotFound => "Account not found.\n",
        LedgerError::DuplicateAccount => "Account already exists.\n",
        LedgerError::InsufficientFunds { .. } => "Insufficient funds.\n",
        LedgerError::AuthenticationFailed => "Authentication failed.\n",
        LedgerError::StorageFailure => "Storage failure.\n",
    }
}

/// Writes the reply line for the outcome of the operation `verb`.
pub fn reply(verb: Verb, outcome: Result<i64, LedgerError>) -> (line: String)
    ensures
        line@ == reply_line(verb, outcome),
{
    match outcome {
        Ok(balance) => {
            let mut line = match verb {
                Verb::Deposit => String::from_str("Deposit successful. New balance: "),
                Verb::Withdraw => String::from_str("Withdrawal successful. Remaining balance: "),
            };
            let digits = format_integer(balance);
            line.append(digits.as_str());
            line.append("\n");
            line
        },
        Err(e) => String::from_str(error_text(e)),
    }
}

} // verus!
