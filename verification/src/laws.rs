//! What holds of the ledger as a whole, stated over a store seen as a map from names to records.
//!
//! The database itself is out of Verus's sight. The `Book` below says what it is meant to be,
//! a map keyed by account name, and the functions on it say what a request does to such a map
//! when the store returns what was last written. The laws are proved of that map and of the
//! same rules that the executable functions are proved against.

use crate::codec::{
    decode_line, encode_line, error_line, reply_line, request_line, verb_of, verb_word,
    CommandView,
};
use crate::dispatch::{possible_outcome, possible_response};
use crate::ledger::{register_rule, settle_rule, LedgerError, Malformed, Verb};
use crate::number::{
    decimal, integer_of, is_digit, lemma_decimal_chars, lemma_integer_of_decimal,
};
use crate::text::{
    is_space, is_word, lemma_tokens_after_word, lemma_tokens_are_words, lemma_tokens_of_spaces,
    lemma_tokens_trimmed, tokens, trimmed,
};
use vstd::prelude::*;

verus! {

/// What the store holds for one account, beside its name.
pub struct Record {
    pub pin: i64,
    pub balance: i64,
}

/// The accounts of a store, by name. A name occurs at most once, as it is the key.
pub type Book = Map<Seq<char>, Record>;

/// Whether every account of `book` keeps the invariant of a balance: it is not negative.
pub open spec fn solvent(book: Book) -> bool {
    forall|name: Seq<char>| book.dom().contains(name) ==> (#[trigger] book[name]).balance >= 0
}

/// What a balance query finds in `book`.
pub open spec fn stored_balance(book: Book, name: Seq<char>) -> Option<i64> {
    if book.dom().contains(name) {
        Some(book[name].balance)
    } else {
        None
    }
}

/// What the operation `verb` of `amount` on the account `name` decides on `book`.
pub open spec fn outcome_on(book: Book, verb: Verb, name: Seq<char>, amount: i64) -> Result<
    i64,
    LedgerError,
> {
    settle_rule(verb, amount, stored_balance(book, name))
}

/// `book` after the operation `verb` of `amount` on the account `name`: the new balance is
/// written where the operation is settled, and nothing is written where it is refused.
pub open spec fn book_after(book: Book, verb: Verb, name: Seq<char>, amount: i64) -> Book {
    match outcome_on(book, verb, name, amount) {
        Ok(balance) => book.insert(name, Record { pin: book[name].pin, balance }),
        Err(_) => book,
    }
}

/// `book` after the registration of `name`: a record is added where the name is free, and
/// nothing is written where it is taken.
pub open spec fn book_registered(book: Book, name: Seq<char>, pin: i64) -> Book {
    match register_rule(book.dom().contains(name)) {
        Ok(()) => book.insert(name, Record { pin, balance: 0 }),
        Err(_) => book,
    }
}

/// `book` after `count` deposits of `amount` into the account `name`, one after the other.
pub open spec fn book_after_deposits(book: Book, name: Seq<char>, amount: i64, count: nat) -> Book
    decreases count,
{
    if count == 0 {
        book
    } else {
        book_after(
            book_after_deposits(book, name, amount, (count - 1) as nat),
            Verb::Deposit,
            name,
            amount,
        )
    }
}

/// What an operation decides on a book is one of the outcomes that `transact` can give, and its
/// reply is one of the replies that `process_request` can give to the request of the command.
pub proof fn law_book_outcomes_are_possible(book: Book, command: CommandView)
    requires
        is_word(command.name),
    ensures
        possible_outcome(
            command.verb,
            command.amount,
            outcome_on(book, command.verb, command.name, command.amount),
        ),
        possible_response(
            encode_line(command),
            reply_line(
                command.verb,
                outcome_on(book, command.verb, command.name, command.amount),
            ),
        ),
{
    law_decode_encode(command);
}

/// A deposit of a positive amount adds the amount to the balance of the account and leaves
/// everything else as it was: the account's PIN, which accounts exist, and every other account.
///
/// The sum must fit a balance; a deposit that would exceed `i64::MAX` is refused.
pub proof fn law_deposit_adds(book: Book, name: Seq<char>, amount: i64)
    requires
        book.dom().contains(name),
        amount > 0,
        book[name].balance + amount <= i64::MAX,
    ensures
        outcome_on(book, Verb::Deposit, name, amount) == Ok::<i64, LedgerError>(
            (book[name].balance + amount) as i64,
        ),
        book_after(book, Verb::Deposit, name, amount)[name].balance == book[name].balance + amount,
        book_after(book, Verb::Deposit, name, amount)[name].pin == book[name].pin,
        book_after(book, Verb::Deposit, name, amount).dom() == book.dom(),
        forall|other: Seq<char>|
            book.dom().contains(other) && other != name ==> book_after(
                book,
                Verb::Deposit,
                name,
                amount,
            )[other] == book[other],
{
}

/// A withdrawal of a positive amount that the balance covers takes the amount off the balance
/// and leaves everything else as it was.
pub proof fn law_withdraw_takes(book: Book, name: Seq<char>, amount: i64)
    requires
        book.dom().contains(name),
        0 < amount <= book[name].balance,
    ensures
        outcome_on(book, Verb::Withdraw, name, amount) == Ok::<i64, LedgerError>(
            (book[name].balance - amount) as i64,
        ),
        book_after(book, Verb::Withdraw, name, amount)[name].balance == book[name].balance
            - amount,
        book_after(book, Verb::Withdraw, name, amount)[name].pin == book[name].pin,
        book_after(book, Verb::Withdraw, name, amount).dom() == book.dom(),
        forall|other: Seq<char>|
            book.dom().contains(other) && other != name ==> book_after(
                book,
                Verb::Withdraw,
                name,
                amount,
            )[other] == book[other],
{
}

/// A withdrawal that exceeds the balance of an account that holds no debt changes nothing, and
/// its reply says that the funds are insufficient.
pub proof fn law_withdraw_insufficient(book: Book, name: Seq<char>, amount: i64)
    requires
        book.dom().contains(name),
        book[name].balance >= 0,
        amount > book[name].balance,
    ensures
        outcome_on(book, Verb::Withdraw, name, amount) == Err::<i64, LedgerError>(
            LedgerError::InsufficientFunds { balance: book[name].balance },
        ),
        book_after(book, Verb::Withdraw, name, amount) == book,
        reply_line(Verb::Withdraw, outcome_on(book, Verb::Withdraw, name, amount))
            == "Insufficient funds.\n"@,
{
}

/// An operation with an amount that is not positive changes nothing, whether or not the account
/// exists, and its reply says that the amount is invalid.
pub proof fn law_invalid_amount(book: Book, verb: Verb, name: Seq<char>, amount: i64)
    requires
        amount <= 0,
    ensures
        outcome_on(book, verb, name, amount) == Err::<i64, LedgerError>(LedgerError::InvalidAmount),
        book_after(book, verb, name, amount) == book,
        reply_line(verb, outcome_on(book, verb, name, amount)) == "Invalid amount format.\n"@,
{
}

/// A request of a verb, a name and a third token that is no 64-bit decimal integer is refused
/// as an invalid amount, and no command comes of it.
pub proof fn law_amount_not_a_number(line: Seq<char>)
    requires
        tokens(line).len() == 3,
        verb_of(tokens(line)[0]) is Some,
        integer_of(tokens(line)[2]) is None,
    ensures
        decode_line(line) == Err::<CommandView, LedgerError>(LedgerError::InvalidAmount),
        error_line(LedgerError::InvalidAmount) == "Invalid amount format.\n"@,
{
}

/// An operation on a name that the store does not hold changes nothing.
pub proof fn law_unknown_account(book: Book, verb: Verb, name: Seq<char>, amount: i64)
    requires
        !book.dom().contains(name),
        amount > 0,
    ensures
        outcome_on(book, verb, name, amount) == Err::<i64, LedgerError>(
            LedgerError::AccountNotFound,
        ),
        book_after(book, verb, name, amount) == book,
        reply_line(verb, outcome_on(book, verb, name, amount)) == "Account not found.\n"@,
{
}

/// A refused operation writes nothing, whatever the reason.
pub proof fn law_refusal_changes_nothing(book: Book, verb: Verb, name: Seq<char>, amount: i64)
    requires
        outcome_on(book, verb, name, amount) is Err,
    ensures
        book_after(book, verb, name, amount) == book,
{
}

/// A registration under a name that exists already is refused as a duplicate, and leaves the
/// existing account, its PIN and its balance, and every other account as they were.
pub proof fn law_duplicate_registration(book: Book, name: Seq<char>, pin: i64)
    requires
        book.dom().contains(name),
    ensures
        register_rule(book.dom().contains(name)) == Err::<(), LedgerError>(
            LedgerError::DuplicateAccount,
        ),
        book_registered(book, name, pin) == book,
        book_registered(book, name, pin)[name] == book[name],
{
}

/// A registration under a free name adds an account that holds nothing, and leaves every other
/// account as it was.
pub proof fn law_registration(book: Book, name: Seq<char>, pin: i64)
    requires
        !book.dom().contains(name),
    ensures
        register_rule(book.dom().contains(name)) == Ok::<(), LedgerError>(()),
        book_registered(book, name, pin).dom() == book.dom().insert(name),
        book_registered(book, name, pin)[name] == (Record { pin, balance: 0 }),
        forall|other: Seq<char>|
            book.dom().contains(other) && other != name ==> book_registered(book, name, pin)[other]
                == book[other],
{
}

/// No operation and no registration drives a balance below zero.
pub proof fn law_balances_stay_non_negative(
    book: Book,
    verb: Verb,
    name: Seq<char>,
    amount: i64,
    pin: i64,
)
    requires
        solvent(book),
    ensures
        solvent(book_after(book, verb, name, amount)),
        solvent(book_registered(book, name, pin)),
{
    let after = book_after(book, verb, name, amount);
    assert forall|other: Seq<char>| after.dom().contains(other) implies (#[trigger] after[other]).balance
        >= 0 by {
        if other != name || outcome_on(book, verb, name, amount) is Err {
            assert(after[other] == book[other]);
        }
    }
    let registered = book_registered(book, name, pin);
    assert forall|other: Seq<char>| registered.dom().contains(other) implies (
    #[trigger] registered[other]).balance >= 0 by {
        if other != name || book.dom().contains(name) {
            assert(registered[other] == book[other]);
        }
    }
}

/// Deposits that follow one another add up: after `count` deposits of `amount` into an account
/// that held nothing, it holds `count * amount`, and nothing else has changed. As every deposit
/// runs in a transaction of its own, deposits that are made at the same time take effect one
/// after the other.
///
/// The total must fit a balance.
pub proof fn law_deposits_add_up(book: Book, name: Seq<char>, amount: i64, count: nat)
    requires
        book.dom().contains(name),
        book[name].balance == 0,
        amount > 0,
        count * amount <= i64::MAX,
    ensures
        book_after_deposits(book, name, amount, count).dom() == book.dom(),
        book_after_deposits(book, name, amount, count)[name].balance == count * amount,
        book_after_deposits(book, name, amount, count)[name].pin == book[name].pin,
        forall|other: Seq<char>|
            book.dom().contains(other) && other != name ==> book_after_deposits(
                book,
                name,
                amount,
                count,
            )[other] == book[other],
    decreases count,
{
    if count == 0 {
        assert(count * amount == 0) by (nonlinear_arith)
            requires
                count == 0,
        ;
    } else {
        let fewer = (count - 1) as nat;
        assert(fewer * amount == count * amount - amount) by (nonlinear_arith)
            requires
                fewer == count - 1,
        ;
        law_deposits_add_up(book, name, amount, fewer);
        let before = book_after_deposits(book, name, amount, fewer);
        law_deposit_adds(before, name, amount);
    }
}

/// Operations on different accounts are independent: in either order they leave the same
/// book, and each is decided as if the other had not happened.
pub proof fn law_accounts_are_independent(
    book: Book,
    first: (Verb, Seq<char>, i64),
    second: (Verb, Seq<char>, i64),
)
    requires
        first.1 != second.1,
    ensures
        book_after(book_after(book, first.0, first.1, first.2), second.0, second.1, second.2)
            == book_after(book_after(book, second.0, second.1, second.2), first.0, first.1, first.2),
        outcome_on(book_after(book, first.0, first.1, first.2), second.0, second.1, second.2)
            == outcome_on(book, second.0, second.1, second.2),
        outcome_on(book_after(book, second.0, second.1, second.2), first.0, first.1, first.2)
            == outcome_on(book, first.0, first.1, first.2),
{
    let one = book_after(book_after(book, first.0, first.1, first.2), second.0, second.1, second.2);
    let other = book_after(book_after(book, second.0, second.1, second.2), first.0, first.1, first.2);
    assert(one =~= other);
}

/// Two deposits into one account add up to the same balance in either order.
///
/// The total must fit a balance.
pub proof fn law_deposits_commute(book: Book, name: Seq<char>, first: i64, second: i64)
    requires
        book.dom().contains(name),
        first > 0,
        second > 0,
        book[name].balance + first + second <= i64::MAX,
    ensures
        book_after(book_after(book, Verb::Deposit, name, first), Verb::Deposit, name, second)
            == book_after(book_after(book, Verb::Deposit, name, second), Verb::Deposit, name, first),
        book_after(
            book_after(book, Verb::Deposit, name, first),
            Verb::Deposit,
            name,
            second,
        )[name].balance == book[name].balance + first + second,
{
    let one = book_after(book_after(book, Verb::Deposit, name, first), Verb::Deposit, name, second);
    let other = book_after(book_after(book, Verb::Deposit, name, second), Verb::Deposit, name, first);
    assert(one =~= other);
}

/// A line of whitespace alone, or of nothing, is refused as malformed.
pub proof fn law_blank_line(line: Seq<char>)
    requires
        forall|i: int| 0 <= i < line.len() ==> is_space(#[trigger] line[i]),
    ensures
        decode_line(line) == Err::<CommandView, LedgerError>(
            LedgerError::MalformedRequest(Malformed::Empty),
        ),
{
    lemma_tokens_of_spaces(line);
}

/// The whitespace around a request does not matter: a line is decoded as the line without it.
pub proof fn law_outer_whitespace_is_ignored(line: Seq<char>)
    ensures
        decode_line(trimmed(line)) == decode_line(line),
{
    lemma_tokens_trimmed(line);
}

/// The name of a decoded command is one token: it is not empty and holds no whitespace. So a
/// decoded command is encoded as a line that is decoded as the same command.
pub proof fn law_decoded_name_is_word(line: Seq<char>)
    requires
        decode_line(line) is Ok,
    ensures
        is_word(decode_line(line)->Ok_0.name),
        decode_line(encode_line(decode_line(line)->Ok_0)) == decode_line(line),
{
    lemma_tokens_are_words(line);
    assert(is_word(tokens(line)[1]));
    law_decode_encode(decode_line(line)->Ok_0);
}

/// Decoding the request line of a command gives the command back: the same verb, name and
/// amount.
///
/// The name must be able to stand as one token: it is not empty and holds no whitespace.
pub proof fn law_decode_encode(command: CommandView)
    requires
        is_word(command.name),
    ensures
        decode_line(encode_line(command)) == Ok::<CommandView, LedgerError>(command),
{
    let amount = decimal(command.amount as int);
    lemma_decimal_is_word(command.amount as int);
    lemma_request_tokens(command.verb, command.name, amount);
    lemma_integer_of_decimal(command.amount as int);
    lemma_verb_words();
}

/// The two verbs have different words, and each word is read as its verb.
pub proof fn lemma_verb_words()
    ensures
        verb_of(verb_word(Verb::Deposit)) == Some(Verb::Deposit),
        verb_of(verb_word(Verb::Withdraw)) == Some(Verb::Withdraw),
        is_word(verb_word(Verb::Deposit)),
        is_word(verb_word(Verb::Withdraw)),
{
    reveal_strlit("DEPOSIT");
    reveal_strlit("WITHDRAW");
    assert("WITHDRAW"@.len() == 8);
}

/// The decimal text of an integer can stand as one token.
pub proof fn lemma_decimal_is_word(n: int)
    ensures
        is_word(decimal(n)),
{
    lemma_decimal_chars(n);
    assert forall|i: int| 0 <= i < decimal(n).len() implies !is_space(#[trigger] decimal(n)[i]) by {
        assert(is_digit(decimal(n)[i]) || decimal(n)[i] == '-');
    }
}

/// A request line of three words holds exactly these three tokens.
pub proof fn lemma_request_tokens(verb: Verb, name: Seq<char>, amount: Seq<char>)
    requires
        is_word(name),
        is_word(amount),
    ensures
        tokens(request_line(verb, name, amount)) == seq![verb_word(verb), name, amount],
{
    reveal_strlit(" ");
    reveal_strlit("\n");
    lemma_verb_words();
    let space = seq![' '];
    let end = seq!['\n'];
    let word = verb_word(verb);
    let line = request_line(verb, name, amount);
    let after_amount = end;
    let from_amount = amount + after_amount;
    let before_amount = space + from_amount;
    let from_name = name + before_amount;
    let before_name = space + from_name;
    assert(line == word + before_name);
    assert(tokens(after_amount) == Seq::<Seq<char>>::empty()) by {
        assert(tokens(after_amount) == tokens(after_amount.skip(1)));
    }
    lemma_tokens_after_word(amount, after_amount);
    assert(tokens(before_amount) == tokens(from_amount)) by {
        assert(before_amount.skip(1) == from_amount);
    }
    lemma_tokens_after_word(name, before_amount);
    assert(tokens(before_name) == tokens(from_name)) by {
        assert(before_name.skip(1) == from_name);
    }
    lemma_tokens_after_word(word, before_name);
}

} // verus!
