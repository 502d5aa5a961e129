//! Looking up video games by name and measuring how alike two of them are.
//!
//! The crate holds the rules of an interactive lookup-and-compare client:
//! how the names that a game carries are compared ([`similarity`]), what a
//! catalogue answer holds ([`game`]), how a catalogue query is written
//! ([`query`]), how a typed line is read ([`text`]) and what the client does
//! next after each line and each answer ([`session`]). Reading lines, sending
//! requests and printing are left to the program that uses the crate.

pub mod game;
pub mod query;
pub mod session;
pub mod similarity;
pub mod text;
