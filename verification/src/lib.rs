//! Host-side driver for the board 15 laboratory expansion board.
//!
//! The board speaks a compact binary command/response protocol over a serial
//! line. This crate holds the protocol engine: the request/response codec,
//! the discard/test/retry handshake state machine, and the typed command
//! layer. The raw serial line itself is reached through the [`usart::Transport`]
//! trait, so the engine can be exercised against any byte transport.

pub mod bounds;
pub mod atmega1284p;
pub mod b15f;
pub mod error;
pub mod handshake;
pub mod request;
pub mod sim;
pub mod usart;

pub use crate::b15f::B15F;
pub use crate::error::Error;
