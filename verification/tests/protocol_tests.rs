use kvcache::errors::MyError;
use kvcache::protocol::{Command, Response};

#[test]
fn parse_ping() {
    assert!(matches!(Command::try_from("PING"), Ok(Command::Ping)));
}

#[test]
fn parse_echo() {
    match Command::try_from("ECHO hello") {
        Ok(Command::Echo(t)) => assert_eq!(t, "hello"),
        _ => panic!("expected an echo command"),
    }
}

#[test]
fn parse_get() {
    match Command::try_from("GET somekey") {
        Ok(Command::Get(k)) => assert_eq!(k, "somekey"),
        _ => panic!("expected a get command"),
    }
}

#[test]
fn parse_set() {
    match Command::try_from("SET somekey somevalue") {
        Ok(Command::SetOp(k, v)) => {
            assert_eq!(k, "somekey");
            assert_eq!(v, "somevalue");
        }
        _ => panic!("expected a set command"),
    }
}

#[test]
fn parse_del() {
    match Command::try_from("DEL somekey") {
        Ok(Command::Del(k)) => assert_eq!(k, "somekey"),
        _ => panic!("expected a del command"),
    }
}

#[test]
fn parse_clr() {
    assert!(matches!(Command::try_from("CLR"), Ok(Command::Clear)));
}

#[test]
fn parse_unknown_command() {
    assert!(matches!(
        Command::try_from("BLORP x"),
        Err(MyError::InvalidCommand)
    ));
}

#[test]
fn parse_empty_payload() {
    assert!(matches!(Command::try_from(""), Err(MyError::InvalidCommand)));
}

#[test]
fn parse_missing_args() {
    assert!(matches!(Command::try_from("ECHO"), Err(MyError::NotEnoughArgs)));
    assert!(matches!(Command::try_from("GET"), Err(MyError::NotEnoughArgs)));
    assert!(matches!(Command::try_from("SET"), Err(MyError::NotEnoughArgs)));
    assert!(matches!(Command::try_from("SET onlykey"), Err(MyError::NotEnoughArgs)));
    assert!(matches!(Command::try_from("DEL"), Err(MyError::NotEnoughArgs)));
}

#[test]
fn parse_trailing_tokens_are_not_consumed() {
    match Command::try_from("GET somekey extra tokens") {
        Ok(Command::Get(k)) => assert_eq!(k, "somekey"),
        _ => panic!("expected a get command"),
    }
    match Command::try_from("SET k v trailing") {
        Ok(Command::SetOp(k, v)) => {
            assert_eq!(k, "k");
            assert_eq!(v, "v");
        }
        _ => panic!("expected a set command"),
    }
    assert!(matches!(Command::try_from("PING extra"), Ok(Command::Ping)));
}

#[test]
fn parse_echo_empty_argument_after_trailing_space() {
    match Command::try_from("ECHO ") {
        Ok(Command::Echo(t)) => assert_eq!(t, ""),
        _ => panic!("expected an echo command"),
    }
}

#[test]
fn parse_consecutive_spaces_yield_empty_tokens() {
    match Command::try_from("SET  v") {
        Ok(Command::SetOp(k, v)) => {
            assert_eq!(k, "");
            assert_eq!(v, "v");
        }
        _ => panic!("expected a set command with an empty key"),
    }
}

#[test]
fn parse_non_ascii_arguments() {
    match Command::try_from("SET caf\u{e9} na\u{ef}ve") {
        Ok(Command::SetOp(k, v)) => {
            assert_eq!(k, "caf\u{e9}");
            assert_eq!(v, "na\u{ef}ve");
        }
        _ => panic!("expected a set command"),
    }
}

#[test]
fn response_text_pong() {
    assert_eq!(Response::Pong.to_bytes(), "PONG");
}

#[test]
fn response_text_echo() {
    assert_eq!(Response::Echo(String::from("hi")).to_bytes(), "ECHO hi");
}

#[test]
fn response_text_get() {
    assert_eq!(Response::Get(Some(String::from("v"))).to_bytes(), "GET v");
    assert_eq!(Response::Get(None).to_bytes(), "GET (nil)");
}

#[test]
fn response_text_set() {
    assert_eq!(Response::SetOp(Some(String::from("prev"))).to_bytes(), "SET prev");
    assert_eq!(Response::SetOp(None).to_bytes(), "SET (nil)");
}

#[test]
fn response_text_del() {
    assert_eq!(Response::Del(Some(String::from("gone"))).to_bytes(), "DEL gone");
    assert_eq!(Response::Del(None).to_bytes(), "DEL (nil)");
}

#[test]
fn response_text_clear() {
    assert_eq!(Response::Clear.to_bytes(), "CLR");
}
