//! A verified core for a chat bot that maintains a single shared counter.
//!
//! The library holds the bot's logic: the counter store, the command
//! parser, the decimal renderer, the inline-keyboard descriptor, and the
//! dispatch rules that turn an inbound update into at most one outbound
//! action.  The transport that carries updates and actions to and from the
//! chat platform lives outside the library.

pub mod command;
pub mod counter;
pub mod dispatch;
pub mod keyboard;
pub mod render;
