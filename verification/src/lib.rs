//! A small account ledger: named accounts with a PIN and a balance in a SQLite store, the
//! rules for deposits and withdrawals, and a line protocol to reach them over a connection.
//!
//! - `ledger`: the rules, as pure functions, and the refusals.
//! - `text`, `number`: tokens and trimming of a line; decimal text of 64-bit integers.
//! - `codec`: request lines to commands, outcomes to reply lines.
//! - `store`: the accounts in the database.
//! - `dispatch`: one request in, one reply out, in one transaction.
//! - `teller`, `menu`, `session`: the ledger at a terminal, as a state machine.
//! - `client`: the terminal side of the line protocol, as a state machine.
//! - `laws`: what holds of all of it, proved.

pub mod client;
pub mod codec;
pub mod dispatch;
pub mod laws;
pub mod ledger;
pub mod menu;
pub mod number;
pub mod session;
pub mod store;
pub mod teller;
pub mod text;
