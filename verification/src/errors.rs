//! The error taxonomy of the cache: transport, framing, decode and grammar
//! errors, all confined to the connection they arose on.

use vstd::prelude::*;

verus! {

/// std's I/O error type, declared so that transport failures can be carried
/// inside [`MyError`]; Verus sees nothing inside a value of it.
#[verifier::external_type_specification]
#[verifier::external_body]
pub struct ExIoError(std::io::Error);

/// Everything that can go wrong while serving one connection.
///
/// Grammar errors (`InvalidCommand`, `NotEnoughArgs`, `NoCommand`) are
/// request-level: they are reported back to the client as an `ERR` response.
/// The others end the connection.
#[derive(Debug)]
pub enum MyError {
    /// A read or write on the socket failed.
    Io(std::io::Error),
    /// The first token of the payload names no known command.
    InvalidCommand,
    /// The command requires more arguments than the payload holds.
    NotEnoughArgs,
    /// The payload held no command token at all.
    NoCommand,
    /// The declared frame length exceeds the receive buffer's capacity.
    MessageTooLong,
    /// The peer closed the connection in the middle of a frame.
    Disconnected,
    /// The peer closed the connection between frames.
    ConnectClosed,
    /// The payload is not valid UTF-8.
    NonUtf8,
}

impl From<std::io::Error> for MyError {
    fn from(e: std::io::Error) -> Self {
        MyError::Io(e)
    }
}

impl vstd::std_specs::convert::FromSpecImpl<std::io::Error> for MyError {
    open spec fn obeys_from_spec() -> bool {
        true
    }

    open spec fn from_spec(e: std::io::Error) -> Self {
        MyError::Io(e)
    }
}

} // verus!
