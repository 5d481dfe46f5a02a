//! The client side of the line protocol: a menu that collects a name and an amount, and the
//! request line that is sent for them.
//!
//! The client judges nothing. Name and amount go out as they were typed, without the whitespace
//! around them, and the server answers for what they are worth.

use crate::codec::{request_line, write_request};
use crate::ledger::Verb;
use crate::menu::{choice, menu_choice};
use crate::text::{trim, trimmed};
use vstd::prelude::*;

verus! {

/// Where the client stands.
#[derive(Clone, Debug, PartialEq, Eq)]
pub enum Client {
    /// At the menu: deposit, withdraw or leave.
    Menu,
    /// The name of the account is awaited.
    Name { verb: Verb },
    /// The amount is awaited; `name` is the name as it was typed.
    Amount { verb: Verb, name: String },
    /// The client is done.
    Closed,
}

/// A client state as a plain value.
pub enum ClientView {
    Menu,
    Name { verb: Verb },
    Amount { verb: Verb, name: Seq<char> },
    Closed,
}

impl View for Client {
    type V = ClientView;

    open spec fn view(&self) -> ClientView {
        match *self {
            Client::Menu => ClientView::Menu,
            Client::Name { verb } => ClientView::Name { verb },
            Client::Amount { verb, name } => ClientView::Amount { verb, name: name@ },
            Client::Closed => ClientView::Closed,
        }
    }
}

/// What the client does after a typed line.
#[derive(Clone, Debug, PartialEq, Eq)]
pub enum Action {
    /// Nothing but to go on.
    Proceed,
    /// Show a notice.
    Say(String),
    /// Send a request line, and show the line of the reply.
    Send(String),
}

/// An action as a plain value.
pub enum ActionView {
    Proceed,
    Say(Seq<char>),
    Send(Seq<char>),
}

impl View for Action {
    type V = ActionView;

    open spec fn view(&self) -> ActionView {
        match *self {
            Action::Proceed => ActionView::Proceed,
            Action::Say(text) => ActionView::Say(text@),
            Action::Send(line) => ActionView::Send(line@),
        }
    }
}

/// The state and the action that follow the typed `line` in the state `client`.
///
/// The menu leads to the name, the name to the amount, and the amount to a request that is
/// sent, after which the menu is shown again.
pub open spec fn client_step(client: ClientView, line: Seq<char>) -> (ClientView, ActionView) {
    match client {
        ClientView::Menu => if menu_choice(line) == 1 {
            (ClientView::Name { verb: Verb::Deposit }, ActionView::Proceed)
        } else if menu_choice(line) == 2 {
            (ClientView::Name { verb: Verb::Withdraw }, ActionView::Proceed)
        } else if menu_choice(line) == 3 {
            (ClientView::Closed, ActionView::Say("Exiting the client. Goodbye!"@))
        } else {
            (ClientView::Menu, ActionView::Say("Invalid option. Please try again."@))
        },
        ClientView::Name { verb } => (ClientView::Amount { verb, name: line }, ActionView::Proceed),
        ClientView::Amount { verb, name } => (
            ClientView::Menu,
            ActionView::Send(request_line(verb, trimmed(name), trimmed(line))),
        ),
        ClientView::Closed => (ClientView::Closed, ActionView::Proceed),
    }
}

/// What the client shows before the next line is read.
pub open spec fn client_prompt_line(client: ClientView) -> Seq<char> {
    match client {
        ClientView::Menu => "Please choose an option:\n1. Deposit\n2. Withdrawal\n3. Exit"@,
        ClientView::Name { .. } => "Enter your account name:"@,
        ClientView::Amount { verb: Verb::Deposit, .. } => "Enter the amount to deposit:"@,
        ClientView::Amount { verb: Verb::Withdraw, .. } => "Enter the amount to withdraw:"@,
        ClientView::Closed => Seq::empty(),
    }
}

/// Writes the request line for an operation on the account typed as `name` with the amount
/// typed as `amount`.
pub fn typed_request(verb: Verb, name: &str, amount: &str) -> (line: String)
    ensures
        line@ == request_line(verb, trimmed(name@), trimmed(amount@)),
{
    write_request(verb, trim(name), trim(amount))
}

/// Writes the deposit request for a typed name and amount.
pub fn handle_deposit(name: &str, amount: &str) -> (line: String)
    ensures
        line@ == request_line(Verb::Deposit, trimmed(name@), trimmed(amount@)),
{
    typed_request(Verb::Deposit, name, amount)
}

/// Writes the withdrawal request for a typed name and amount.
pub fn handle_withdrawal(name: &str, amount: &str) -> (line: String)
    ensures
        line@ == request_line(Verb::Withdraw, trimmed(name@), trimmed(amount@)),
{
    typed_request(Verb::Withdraw, name, amount)
}

/// What to show for the reply line `response` of the server.
pub fn show_response(response: &str) -> (text: String)
    ensures
        text@ == "Server response: "@ + trimmed(response@),
{
    let mut text = String::from_str("Server response: ");
    text.append(trim(response));
    text
}

/// What the client shows before the next line is read.
pub fn client_prompt(client: &Client) -> (text: &'static str)
    ensures
        text@ == client_prompt_line(client@),
{
    match client {
        Client::Menu => "Please choose an option:\n1. Deposit\n2. Withdrawal\n3. Exit",
        Client::Name { .. } => "Enter your account name:",
        Client::Amount { verb: Verb::Deposit, .. } => "Enter the amount to deposit:",
        Client::Amount { verb: Verb::Withdraw, .. } => "Enter the amount to withdraw:",
        Client::Closed => {
            proof {
                reveal_strlit("");
            }
            ""
        },
    }
}

/// Takes one typed line: returns the state that the client goes on in, and what it does.
pub fn client_advance(client: Client, line: &str) -> (step: (Client, Action))
    ensures
        (step.0@, step.1@) == client_step(client@, line@),
{
    match client {
        Client::Menu => {
            let picked = choice(line);
            if picked == 1 {
                (Client::Name { verb: Verb::Deposit }, Action::Proceed)
            } else if picked == 2 {
                (Client::Name { verb: Verb::Withdraw }, Action::Proceed)
            } else if picked == 3 {
                (Client::Closed, Action::Say(String::from_str("Exiting the client. Goodbye!")))
            } else {
                (Client::Menu, Action::Say(String::from_str("Invalid option. Please try again.")))
            }
        },
        Client::Name { verb } => (Client::Amount { verb, name: line.to_owned() }, Action::Proceed),
        Client::Amount { verb, name } => {
            let request = match verb {
                Verb::Deposit => handle_deposit(name.as_str(), line),
                Verb::Withdraw => handle_withdrawal(name.as_str(), line),
            };
            (Client::Menu, Action::Send(request))
        },
        Client::Closed => (Client::Closed, Action::Proceed),
    }
}

} // verus!
