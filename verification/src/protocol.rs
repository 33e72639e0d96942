//! The text grammar of requests and responses.
//!
//! A request payload is split on single spaces; the first token selects the
//! command, the following tokens are consumed positionally as its arguments.
//! Trailing tokens beyond the required arguments are not an error: they are
//! simply not consumed. A response is a tag, optionally followed by a space
//! and a value.

use vstd::prelude::*;
use vstd::string::StrSliceExecFns;
use vstd::string::StringExecFns;
use crate::errors::MyError;

verus! {

/// A parsed request, as the mathematical value a contract speaks of.
pub enum CommandView {
    Ping,
    Echo(Seq<char>),
    Get(Seq<char>),
    SetOp(Seq<char>, Seq<char>),
    Del(Seq<char>),
    Clear,
}

/// A parsed request.
pub enum Command {
    Ping,
    Echo(String),
    Get(String),
    SetOp(String, String),
    Del(String),
    Clear,
}

impl View for Command {
    type V = CommandView;

    open spec fn view(&self) -> CommandView {
        match self {
            Command::Ping => CommandView::Ping,
            Command::Echo(t) => CommandView::Echo(t@),
            Command::Get(k) => CommandView::Get(k@),
            Command::SetOp(k, v) => CommandView::SetOp(k@, v@),
            Command::Del(k) => CommandView::Del(k@),
            Command::Clear => CommandView::Clear,
        }
    }
}

/// Where the token that starts at `from` ends: at the first space at or
/// after `from`, or at the end of the payload.
pub open spec fn token_end(s: Seq<char>, from: int) -> int
    recommends
        0 <= from <= s.len(),
    decreases s.len() - from,
{
    if from >= s.len() {
        s.len() as int
    } else if s[from] == ' ' {
        from
    } else {
        token_end(s, from + 1)
    }
}

/// `token_end` lands between `from` and the payload's end, on a space if on
/// anything, and skips no space on the way.
pub proof fn lemma_token_end(s: Seq<char>, from: int)
    requires
        0 <= from <= s.len(),
    ensures
        from <= token_end(s, from) <= s.len(),
        forall|j: int| from <= j < token_end(s, from) ==> s[j] != ' ',
        token_end(s, from) < s.len() ==> s[token_end(s, from)] == ' ',
    decreases s.len() - from,
{
    if from < s.len() && s[from] != ' ' {
        lemma_token_end(s, from + 1);
    }
}

/// `token_end(s, from)` is the position `e` exactly when no space stands in
/// `[from, e)` and `e` is a space or the payload's end.
pub proof fn lemma_token_end_val(s: Seq<char>, from: int, e: int)
    requires
        0 <= from <= e <= s.len(),
        forall|j: int| from <= j < e ==> s[j] != ' ',
        e < s.len() ==> s[e] == ' ',
    ensures
        token_end(s, from) == e,
    decreases e - from,
{
    if from < e {
        lemma_token_end_val(s, from + 1, e);
    }
}

/// The argument token that follows a token ending at `prev_end`: splitting
/// yields a further token exactly when `prev_end` is not the payload's end.
pub open spec fn arg_token(s: Seq<char>, prev_end: int) -> Option<Seq<char>>
    recommends
        0 <= prev_end <= s.len(),
{
    if prev_end < s.len() {
        Some(s.subrange(prev_end + 1, token_end(s, prev_end + 1)))
    } else {
        None
    }
}

/// The request grammar: what payload text parses to which command, and which
/// grammar error a payload that parses to none is answered with.
pub open spec fn parse_command(s: Seq<char>) -> Result<CommandView, MyError> {
    let e1 = token_end(s, 0);
    let cmd = s.subrange(0, e1);
    if cmd == "PING"@ {
        Ok(CommandView::Ping)
    } else if cmd == "ECHO"@ {
        match arg_token(s, e1) {
            Some(t) => Ok(CommandView::Echo(t)),
            None => Err(MyError::NotEnoughArgs),
        }
    } else if cmd == "GET"@ {
        match arg_token(s, e1) {
            Some(k) => Ok(CommandView::Get(k)),
            None => Err(MyError::NotEnoughArgs),
        }
    } else if cmd == "SET"@ {
        match arg_token(s, e1) {
            Some(k) => match arg_token(s, token_end(s, e1 + 1)) {
                Some(v) => Ok(CommandView::SetOp(k, v)),
                None => Err(MyError::NotEnoughArgs),
            },
            None => Err(MyError::NotEnoughArgs),
        }
    } else if cmd == "DEL"@ {
        match arg_token(s, e1) {
            Some(k) => Ok(CommandView::Del(k)),
            None => Err(MyError::NotEnoughArgs),
        }
    } else if cmd == "CLR"@ {
        Ok(CommandView::Clear)
    } else {
        Err(MyError::InvalidCommand)
    }
}

/// Finds where the token that starts at `from` ends.
fn find_token_end(s: &str, from: usize) -> (e: usize)
    requires
        from <= s@.len(),
    ensures
        e == token_end(s@, from as int),
{
    let n = s.unicode_len();
    let mut i = from;
    while i < n
        invariant
            from <= i <= n,
            n == s@.len(),
            token_end(s@, from as int) == token_end(s@, i as int),
        decreases n - i,
    {
        if s.get_char(i) == ' ' {
            return i;
        }
        i = i + 1;
    }
    i
}

/// Character-for-character equality of two pieces of text.
fn str_eq(a: &str, b: &str) -> (r: bool)
    ensures
        r == (a@ == b@),
{
    let na = a.unicode_len();
    let nb = b.unicode_len();
    if na != nb {
        return false;
    }
    let mut i: usize = 0;
    while i < na
        invariant
            0 <= i <= na,
            na == a@.len(),
            na == b@.len(),
            forall|j: int| 0 <= j < i ==> a@[j] == b@[j],
        decreases na - i,
    {
        if a.get_char(i) != b.get_char(i) {
            return false;
        }
        i = i + 1;
    }
    proof {
        assert(a@ =~= b@);
    }
    true
}

/// Consumes the argument token that follows a token ending at `prev_end`,
/// or reports that the payload holds none.
fn next_arg(s: &str, prev_end: usize) -> (r: Result<(String, usize), MyError>)
    requires
        prev_end <= s@.len(),
    ensures
        match r {
            Ok(te) => {
                &&& arg_token(s@, prev_end as int) == Some(te.0@)
                &&& te.1 == token_end(s@, prev_end as int + 1)
                &&& te.1 <= s@.len()
            },
            Err(e) => e == MyError::NotEnoughArgs && arg_token(s@, prev_end as int) is None,
        },
{
    let n = s.unicode_len();
    if prev_end >= n {
        return Err(MyError::NotEnoughArgs);
    }
    let start = prev_end + 1;
    let e = find_token_end(s, start);
    proof {
        lemma_token_end(s@, start as int);
    }
    let t = s.substring_char(start, e).to_owned();
    Ok((t, e))
}

impl Command {
    /// Parses a request payload by the grammar that [`parse_command`] states.
    pub fn try_from(value: &str) -> (r: Result<Command, MyError>)
        ensures
            match parse_command(value@) {
                Ok(cv) => r matches Ok(c) && c@ == cv,
                Err(e) => r matches Err(e2) && e2 == e,
            },
    {
        let e1 = find_token_end(value, 0);
        proof {
            lemma_token_end(value@, 0);
        }
        let cmd = value.substring_char(0, e1);
        if str_eq(cmd, "PING") {
            Ok(Command::Ping)
        } else if str_eq(cmd, "ECHO") {
            match next_arg(value, e1) {
                Ok((t, _)) => Ok(Command::Echo(t)),
                Err(e) => Err(e),
            }
        } else if str_eq(cmd, "GET") {
            match next_arg(value, e1) {
                Ok((k, _)) => Ok(Command::Get(k)),
                Err(e) => Err(e),
            }
        } else if str_eq(cmd, "SET") {
            match next_arg(value, e1) {
                Ok((k, e2)) => match next_arg(value, e2) {
                    Ok((v, _)) => Ok(Command::SetOp(k, v)),
                    Err(e) => Err(e),
                },
                Err(e) => Err(e),
            }
        } else if str_eq(cmd, "DEL") {
            match next_arg(value, e1) {
                Ok((k, _)) => Ok(Command::Del(k)),
                Err(e) => Err(e),
            }
        } else if str_eq(cmd, "CLR") {
            Ok(Command::Clear)
        } else {
            Err(MyError::InvalidCommand)
        }
    }
}

/// A response, as the mathematical value a contract speaks of.
pub enum ResponseView {
    Pong,
    Echo(Seq<char>),
    Get(Option<Seq<char>>),
    SetOp(Option<Seq<char>>),
    Del(Option<Seq<char>>),
    Clear,
}

/// A response to one request.
pub enum Response {
    Pong,
    Echo(String),
    Get(Option<String>),
    SetOp(Option<String>),
    Del(Option<String>),
    Clear,
}

impl View for Response {
    type V = ResponseView;

    open spec fn view(&self) -> ResponseView {
        match self {
            Response::Pong => ResponseView::Pong,
            Response::Echo(t) => ResponseView::Echo(t@),
            Response::Get(v) => ResponseView::Get(
                match v {
                    Some(x) => Some(x@),
                    None => None,
                },
            ),
            Response::SetOp(v) => ResponseView::SetOp(
                match v {
                    Some(x) => Some(x@),
                    None => None,
                },
            ),
            Response::Del(v) => ResponseView::Del(
                match v {
                    Some(x) => Some(x@),
                    None => None,
                },
            ),
            Response::Clear => ResponseView::Clear,
        }
    }
}

/// The response grammar: the text each response is sent as.
pub open spec fn response_text(r: ResponseView) -> Seq<char> {
    match r {
        ResponseView::Pong => "PONG"@,
        ResponseView::Echo(t) => "ECHO "@ + t,
        ResponseView::Get(v) => match v {
            Some(x) => "GET "@ + x,
            None => "GET (nil)"@,
        },
        ResponseView::SetOp(v) => match v {
            Some(x) => "SET "@ + x,
            None => "SET (nil)"@,
        },
        ResponseView::Del(v) => match v {
            Some(x) => "DEL "@ + x,
            None => "DEL (nil)"@,
        },
        ResponseView::Clear => "CLR"@,
    }
}

impl Response {
    /// Builds the response payload that [`response_text`] states.
    pub fn to_bytes(&self) -> (r: String)
        ensures
            r@ == response_text(self@),
    {
        match self {
            Response::Pong => "PONG".to_owned(),
            Response::Echo(t) => {
                let mut r = "ECHO ".to_owned();
                r.append(t.as_str());
                r
            },
            Response::Get(v) => match v {
                Some(x) => {
                    let mut r = "GET ".to_owned();
                    r.append(x.as_str());
                    r
                },
                None => "GET (nil)".to_owned(),
            },
            Response::SetOp(v) => match v {
                Some(x) => {
                    let mut r = "SET ".to_owned();
                    r.append(x.as_str());
                    r
                },
                None => "SET (nil)".to_owned(),
            },
            Response::Del(v) => match v {
                Some(x) => {
                    let mut r = "DEL ".to_owned();
                    r.append(x.as_str());
                    r
                },
                None => "DEL (nil)".to_owned(),
            },
            Response::Clear => "CLR".to_owned(),
        }
    }
}

} // verus!
