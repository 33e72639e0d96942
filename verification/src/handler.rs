//! The per-request step a connection task runs: parse the payload, execute
//! the command against the shared store, and build the response text.
//!
//! Grammar errors are answered with an `ERR` response and cost only the one
//! request; framing, decode and transport errors are the caller's signal to
//! close the connection.

use vstd::prelude::*;
use crate::errors::MyError;
use crate::protocol::{parse_command, response_text, Command, CommandView, Response, ResponseView};
use crate::store::Store;

verus! {

/// What one command does to the store, and what it answers.
pub open spec fn apply_command(m: Map<Seq<char>, Seq<char>>, c: CommandView) -> (Map<
    Seq<char>,
    Seq<char>,
>, ResponseView) {
    match c {
        CommandView::Ping => (m, ResponseView::Pong),
        CommandView::Echo(t) => (m, ResponseView::Echo(t)),
        CommandView::Get(k) => (
            m,
            ResponseView::Get(
                if m.contains_key(k) {
                    Some(m[k])
                } else {
                    None
                },
            ),
        ),
        CommandView::SetOp(k, v) => (
            m.insert(k, v),
            ResponseView::SetOp(
                if m.contains_key(k) {
                    Some(m[k])
                } else {
                    None
                },
            ),
        ),
        CommandView::Del(k) => (
            m.remove(k),
            ResponseView::Del(
                if m.contains_key(k) {
                    Some(m[k])
                } else {
                    None
                },
            ),
        ),
        CommandView::Clear => (Map::empty(), ResponseView::Clear),
    }
}

/// Dispatches one parsed command to the store and returns its response.
pub fn handle_command(store: &mut Store, cmd: Command) -> (resp: Response)
    ensures
        final(store)@ == apply_command(old(store)@, cmd@).0,
        resp@ == apply_command(old(store)@, cmd@).1,
{
    match cmd {
        Command::Ping => Response::Pong,
        Command::Echo(t) => Response::Echo(t),
        Command::Get(k) => Response::Get(store.get(&k)),
        Command::SetOp(k, v) => Response::SetOp(store.set(k, v)),
        Command::Del(k) => Response::Del(store.del(&k)),
        Command::Clear => {
            store.clear();
            Response::Clear
        },
    }
}

/// The text a request-level grammar error is answered with.
pub open spec fn error_text(e: MyError) -> Seq<char> {
    if e == MyError::NotEnoughArgs {
        "ERR not enough arguments"@
    } else {
        "ERR invalid command"@
    }
}

/// What one request payload does to the store and what text it is answered
/// with: a command is executed, a grammar error is reported and leaves the
/// store as it was.
pub open spec fn spec_respond(m: Map<Seq<char>, Seq<char>>, payload: Seq<char>) -> (Map<
    Seq<char>,
    Seq<char>,
>, Seq<char>) {
    match parse_command(payload) {
        Ok(c) => {
            let (m2, rv) = apply_command(m, c);
            (m2, response_text(rv))
        },
        Err(e) => (m, error_text(e)),
    }
}

/// Runs one request payload against the store and returns the response
/// payload, answering grammar errors with an `ERR` response rather than
/// tearing the connection down.
pub fn respond(store: &mut Store, payload: &str) -> (reply: String)
    ensures
        final(store)@ == spec_respond(old(store)@, payload@).0,
        reply@ == spec_respond(old(store)@, payload@).1,
{
    match Command::try_from(payload) {
        Ok(cmd) => {
            let resp = handle_command(store, cmd);
            resp.to_bytes()
        },
        Err(e) => match e {
            MyError::NotEnoughArgs => "ERR not enough arguments".to_owned(),
            _ => "ERR invalid command".to_owned(),
        },
    }
}

/// Whether an error ends the connection or is answered in the normal loop:
/// grammar errors cost only the request they arose on, everything else
/// (transport, framing, decode) abandons the byte stream.
pub open spec fn spec_closes_connection(e: MyError) -> bool {
    match e {
        MyError::InvalidCommand => false,
        MyError::NotEnoughArgs => false,
        MyError::NoCommand => false,
        MyError::Io(_) => true,
        MyError::MessageTooLong => true,
        MyError::Disconnected => true,
        MyError::ConnectClosed => true,
        MyError::NonUtf8 => true,
    }
}

/// Decides whether an error ends the connection, per the policy that
/// [`spec_closes_connection`] states.
pub fn closes_connection(e: &MyError) -> (r: bool)
    ensures
        r == spec_closes_connection(*e),
{
    match e {
        MyError::InvalidCommand => false,
        MyError::NotEnoughArgs => false,
        MyError::NoCommand => false,
        MyError::Io(_) => true,
        MyError::MessageTooLong => true,
        MyError::Disconnected => true,
        MyError::ConnectClosed => true,
        MyError::NonUtf8 => true,
    }
}

} // verus!
