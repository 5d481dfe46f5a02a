//! A session at the terminal: a state machine that takes one typed line at a time.
//!
//! A session starts unauthenticated. A login with a name and a PIN that the store verifies
//! leads to the menu of that account, from where deposits and withdrawals are made. The caller
//! shows the prompt of the state, reads a line, hands it to `advance`, and shows the answer.

use crate::ledger::{LedgerError, Verb};
use crate::menu::{choice, menu_choice};
use crate::store::{get_balance_from_db, storage_result};
use crate::teller::{
    authenticate, deposit, notice, notice_line, parse_typed, possible_login, possible_notice,
    possible_registration, refusal_text, refusal_words, register, typed_integer, withdrawal,
};
use crate::text::{trim, trimmed};
use rusqlite::Connection;
use vstd::prelude::*;

verus! {

/// Where a session stands.
#[derive(Clone, Debug, PartialEq, Eq)]
pub enum Session {
    /// Unauthenticated, at the first menu: log in, register or leave.
    Welcome,
    /// Logging in: the name is awaited.
    LoginName,
    /// Logging in: the PIN of `name` is awaited.
    LoginPin { name: String },
    /// Registering: the name is awaited.
    RegisterName,
    /// Registering: the PIN of `name` is awaited.
    RegisterPin { name: String },
    /// Authenticated as `name`, at the menu of the account.
    Menu { name: String },
    /// Authenticated as `name`: the amount of a deposit is awaited.
    Depositing { name: String },
    /// Authenticated as `name`: the amount of a withdrawal is awaited.
    Withdrawing { name: String },
    /// The session is over.
    Closed,
}

/// A session as a plain value.
pub enum SessionView {
    Welcome,
    LoginName,
    LoginPin { name: Seq<char> },
    RegisterName,
    RegisterPin { name: Seq<char> },
    Menu { name: Seq<char> },
    Depositing { name: Seq<char> },
    Withdrawing { name: Seq<char> },
    Closed,
}

impl View for Session {
    type V = SessionView;

    open spec fn view(&self) -> SessionView {
        match *self {
            Session::Welcome => SessionView::Welcome,
            Session::LoginName => SessionView::LoginName,
            Session::LoginPin { name } => SessionView::LoginPin { name: name@ },
            Session::RegisterName => SessionView::RegisterName,
            Session::RegisterPin { name } => SessionView::RegisterPin { name: name@ },
            Session::Menu { name } => SessionView::Menu { name: name@ },
            Session::Depositing { name } => SessionView::Depositing { name: name@ },
            Session::Withdrawing { name } => SessionView::Withdrawing { name: name@ },
            Session::Closed => SessionView::Closed,
        }
    }
}

/// Whether the session has passed a login and acts for an account.
pub open spec fn authenticated(session: SessionView) -> bool {
    session is Menu || session is Depositing || session is Withdrawing
}

/// What the first menu does with a typed line.
pub open spec fn welcome_step(line: Seq<char>) -> (SessionView, Seq<char>) {
    if menu_choice(line) == 1 {
        (SessionView::LoginName, Seq::empty())
    } else if menu_choice(line) == 2 {
        (SessionView::RegisterName, Seq::empty())
    } else if menu_choice(line) == 3 {
        (SessionView::Closed, "Exiting the system. Goodbye!"@)
    } else {
        (SessionView::Welcome, "Invalid option. Please try again."@)
    }
}

/// What a login leads to: the menu of the account if it succeeded, and else the first menu
/// again.
pub open spec fn login_step(name: Seq<char>, login: Result<(), LedgerError>) -> (
    SessionView,
    Seq<char>,
) {
    match login {
        Ok(()) => (SessionView::Menu { name }, "Account verified successfully!"@),
        Err(e) => (SessionView::Welcome, refusal_words(e) + " Returning to the main menu."@),
    }
}

/// What a registration answers.
pub open spec fn register_step(registered: Result<(), LedgerError>) -> (SessionView, Seq<char>) {
    match registered {
        Ok(()) => (SessionView::Welcome, "Account created successfully!"@),
        Err(e) => (SessionView::Welcome, refusal_words(e)),
    }
}

/// What the menu of the account `name` does with a typed line, given what the store holds for
/// the account: an operation is entered only if the account is there.
pub open spec fn menu_step(name: Seq<char>, line: Seq<char>, found: Result<Option<i64>, LedgerError>) -> (
    SessionView,
    Seq<char>,
) {
    if menu_choice(line) == 1 {
        operation_step(name, Verb::Deposit, found)
    } else if menu_choice(line) == 2 {
        operation_step(name, Verb::Withdraw, found)
    } else if menu_choice(line) == 3 {
        (SessionView::Welcome, "Exiting the system. Goodbye!"@)
    } else {
        (SessionView::Menu { name }, "Invalid option. Please try again."@)
    }
}

/// What the choice of the operation `verb` leads to, given what the store holds for the
/// account `name`.
pub open spec fn operation_step(name: Seq<char>, verb: Verb, found: Result<Option<i64>, LedgerError>) -> (
    SessionView,
    Seq<char>,
) {
    match found {
        Ok(Some(_)) => match verb {
            Verb::Deposit => (SessionView::Depositing { name }, Seq::empty()),
            Verb::Withdraw => (SessionView::Withdrawing { name }, Seq::empty()),
        },
        Ok(None) => (
            SessionView::Menu { name },
            notice_line(verb, Err(LedgerError::AccountNotFound)),
        ),
        Err(e) => (SessionView::Menu { name }, notice_line(verb, Err(e))),
    }
}

/// Whether a login with the PIN typed as `line` can lead to `next` with the answer `answer`.
///
/// A PIN that is no number ends the login. Else the login is tried, and the session goes on as
/// `login_step` says for one of the things that may come of it.
pub open spec fn login_steps(
    name: Seq<char>,
    line: Seq<char>,
    next: SessionView,
    answer: Seq<char>,
) -> bool {
    match typed_integer(line) {
        None => next == SessionView::Welcome && answer
            == "Invalid PIN format. Verification failed."@,
        Some(pin) => exists|login: Result<(), LedgerError>|
            possible_login(login) && (next, answer) == #[trigger] login_step(name, login),
    }
}

/// Whether a registration with the PIN typed as `line` can lead to `next` with the answer
/// `answer`.
pub open spec fn registration_steps(line: Seq<char>, next: SessionView, answer: Seq<char>) -> bool {
    match typed_integer(line) {
        None => next == SessionView::Welcome && answer
            == "Invalid PIN format. Account creation canceled."@,
        Some(pin) => exists|registered: Result<(), LedgerError>|
            possible_registration(registered) && (next, answer) == #[trigger] register_step(
                registered,
            ),
    }
}

/// Whether the menu of the account `name`, given `line`, can lead to `next` with the answer
/// `answer`. The store is asked only where an operation is chosen.
pub open spec fn menu_steps(
    name: Seq<char>,
    line: Seq<char>,
    next: SessionView,
    answer: Seq<char>,
) -> bool {
    if menu_choice(line) == 1 || menu_choice(line) == 2 {
        exists|found: Result<Option<i64>, LedgerError>|
            storage_result(found) && (next, answer) == #[trigger] menu_step(name, line, found)
    } else {
        (next, answer) == menu_step(name, line, Ok(None))
    }
}

/// Whether a session in `session` that is given `line` can go on in `next` with the answer
/// `answer`, on some store.
///
/// Where the store is not asked, there is one next state and one answer. Where it is asked,
/// they are those of the step function for one of the things that the store may say.
pub open spec fn possible_step(
    session: SessionView,
    line: Seq<char>,
    next: SessionView,
    answer: Seq<char>,
) -> bool {
    match session {
        SessionView::Welcome => (next, answer) == welcome_step(line),
        SessionView::LoginName => next == (SessionView::LoginPin { name: trimmed(line) })
            && answer.len() == 0,
        SessionView::LoginPin { name } => login_steps(name, line, next, answer),
        SessionView::RegisterName => next == (SessionView::RegisterPin { name: trimmed(line) })
            && answer.len() == 0,
        SessionView::RegisterPin { name } => registration_steps(line, next, answer),
        SessionView::Menu { name } => menu_steps(name, line, next, answer),
        SessionView::Depositing { name } => next == (SessionView::Menu { name })
            && possible_notice(Verb::Deposit, line, answer),
        SessionView::Withdrawing { name } => next == (SessionView::Menu { name })
            && possible_notice(Verb::Withdraw, line, answer),
        SessionView::Closed => next == SessionView::Closed && answer.len() == 0,
    }
}

/// What to show before the next line is read.
pub open spec fn prompt_line(session: SessionView) -> Seq<char> {
    match session {
        SessionView::Welcome =>
            "Welcome to the banking system!\nAre you a current user or would you like to register?\n1. Current User\n2. Register New Account\n3. Exit"@,
        SessionView::LoginName => "Enter your account name:"@,
        SessionView::LoginPin { .. } => "Enter your PIN:"@,
        SessionView::RegisterName => "Enter account name:"@,
        SessionView::RegisterPin { .. } => "Enter a 4-digit PIN:"@,
        SessionView::Menu { name } => "Welcome, "@ + name
            + "!\nPlease choose an option:\n1. Deposit\n2. Withdrawal\n3. Exit"@,
        SessionView::Depositing { .. } => "Enter the amount to deposit:"@,
        SessionView::Withdrawing { .. } => "Enter the amount to withdraw:"@,
        SessionView::Closed => Seq::empty(),
    }
}

/// Takes a line at the first menu.
pub fn at_welcome(line: &str) -> (step: (Session, String))
    ensures
        (step.0@, step.1@) == welcome_step(line@),
{
    let picked = choice(line);
    if picked == 1 {
        (Session::LoginName, String::new())
    } else if picked == 2 {
        (Session::RegisterName, String::new())
    } else if picked == 3 {
        (Session::Closed, String::from_str("Exiting the system. Goodbye!"))
    } else {
        (Session::Welcome, String::from_str("Invalid option. Please try again."))
    }
}

/// Ends a login: a login that succeeded leads to the menu of the account, any other to the
/// first menu.
pub fn after_login(name: String, login: Result<(), LedgerError>) -> (step: (Session, String))
    ensures
        (step.0@, step.1@) == login_step(name@, login),
        authenticated(step.0@) <==> login is Ok,
{
    match login {
        Ok(()) => (Session::Menu { name }, String::from_str("Account verified successfully!")),
        Err(e) => {
            let mut answer = String::from_str(refusal_text(e));
            answer.append(" Returning to the main menu.");
            (Session::Welcome, answer)
        },
    }
}

/// Ends a registration.
pub fn after_registration(registered: Result<(), LedgerError>) -> (step: (Session, String))
    ensures
        (step.0@, step.1@) == register_step(registered),
{
    match registered {
        Ok(()) => (Session::Welcome, String::from_str("Account created successfully!")),
        Err(e) => (Session::Welcome, String::from_str(refusal_text(e))),
    }
}

/// Enters the operation `verb` on the account `name` if the store holds the account, and
/// stays at the menu with a notice if it does not.
pub fn enter_operation(name: String, verb: Verb, found: Result<Option<i64>, LedgerError>) -> (step:
    (Session, String))
    ensures
        (step.0@, step.1@) == operation_step(name@, verb, found),
{
    match found {
        Ok(Some(_)) => match verb {
            Verb::Deposit => (Session::Depositing { name }, String::new()),
            Verb::Withdraw => (Session::Withdrawing { name }, String::new()),
        },
        Ok(None) => (Session::Menu { name }, notice(verb, Err(LedgerError::AccountNotFound))),
        Err(e) => (Session::Menu { name }, notice(verb, Err(e))),
    }
}

/// What to show before the next line is read.
pub fn prompt(session: &Session) -> (text: String)
    ensures
        text@ == prompt_line(session@),
{
    match session {
        Session::Welcome => String::from_str(
            "Welcome to the banking system!\nAre you a current user or would you like to register?\n1. Current User\n2. Register New Account\n3. Exit",
        ),
        Session::LoginName => String::from_str("Enter your account name:"),
        Session::LoginPin { .. } => String::from_str("Enter your PIN:"),
        Session::RegisterName => String::from_str("Enter account name:"),
        Session::RegisterPin { .. } => String::from_str("Enter a 4-digit PIN:"),
        Session::Menu { name } => {
            let mut text = String::from_str("Welcome, ");
            text.append(name.as_str());
            text.append("!\nPlease choose an option:\n1. Deposit\n2. Withdrawal\n3. Exit");
            text
        },
        Session::Depositing { .. } => String::from_str("Enter the amount to deposit:"),
        Session::Withdrawing { .. } => String::from_str("Enter the amount to withdraw:"),
        Session::Closed => String::new(),
    }
}

/// Takes one typed line: returns the state that the session goes on in, and the answer to
/// show, which may be empty.
///
/// Only a login leads from the unauthenticated states to the menu of an account, and an amount
/// is taken only from there. No refusal ends a session: it is over only when the user leaves
/// at the first menu.
pub fn advance(session: Session, line: &str, conn: &Connection) -> (step: (Session, String))
    ensures
        possible_step(session@, line@, step.0@, step.1@),
        authenticated(step.0@) ==> authenticated(session@) || session@ is LoginPin,
        step.0@ is Closed ==> session@ is Closed || (session@ is Welcome && menu_choice(line@)
            == 3),
{
    match session {
        Session::Welcome => at_welcome(line),
        Session::LoginName => (Session::LoginPin { name: trim(line).to_owned() }, String::new()),
        Session::LoginPin { name } => match parse_typed(line) {
            None => (
                Session::Welcome,
                String::from_str("Invalid PIN format. Verification failed."),
            ),
            Some(pin) => {
                let login = authenticate(conn, name.as_str(), pin);
                let ghost shown = name@;
                let step = after_login(name, login);
                assert(login_steps(shown, line@, step.0@, step.1@));
                step
            },
        },
        Session::RegisterName => (
            Session::RegisterPin { name: trim(line).to_owned() },
            String::new(),
        ),
        Session::RegisterPin { name } => match parse_typed(line) {
            None => (
                Session::Welcome,
                String::from_str("Invalid PIN format. Account creation canceled."),
            ),
            Some(pin) => {
                let registered = register(conn, name.as_str(), pin);
                let step = after_registration(registered);
                assert(registration_steps(line@, step.0@, step.1@));
                step
            },
        },
        Session::Menu { name } => {
            let picked = choice(line);
            if picked == 1 || picked == 2 {
                let verb = if picked == 1 {
                    Verb::Deposit
                } else {
                    Verb::Withdraw
                };
                let found = get_balance_from_db(conn, name.as_str());
                let ghost shown = name@;
                let step = enter_operation(name, verb, found);
                assert(menu_steps(shown, line@, step.0@, step.1@)) by {
                    assert((step.0@, step.1@) == menu_step(shown, line@, found));
                }
                step
            } else if picked == 3 {
                (Session::Welcome, String::from_str("Exiting the system. Goodbye!"))
            } else {
                (Session::Menu { name }, String::from_str("Invalid option. Please try again."))
            }
        },
        Session::Depositing { name } => {
            let answer = deposit(conn, name.as_str(), line);
            (Session::Menu { name }, answer)
        },
        Session::Withdrawing { name } => {
            let answer = withdrawal(conn, name.as_str(), line);
            (Session::Menu { name }, answer)
        },
        Session::Closed => (Session::Closed, String::new()),
    }
}

} // verus!
