use kvcache::handler::{closes_connection, handle_command, respond};
use kvcache::protocol::{Command, Response};
use kvcache::store::Store;
use kvcache::errors::MyError;

#[test]
fn set_then_get_returns_the_value() {
    let mut store = Store::new();
    respond(&mut store, "SET k v");
    assert_eq!(respond(&mut store, "GET k"), "GET v");
}

#[test]
fn get_on_fresh_store_is_nil() {
    let mut store = Store::new();
    assert_eq!(respond(&mut store, "GET nothing"), "GET (nil)");
}

#[test]
fn del_without_prior_set_is_nil_and_idempotent() {
    let mut store = Store::new();
    assert_eq!(respond(&mut store, "DEL k"), "DEL (nil)");
    assert_eq!(respond(&mut store, "DEL k"), "DEL (nil)");
}

#[test]
fn clear_then_get_is_nil_for_every_previously_set_key() {
    let mut store = Store::new();
    respond(&mut store, "SET a 1");
    respond(&mut store, "SET b 2");
    respond(&mut store, "SET c 3");
    assert_eq!(respond(&mut store, "CLR"), "CLR");
    assert_eq!(respond(&mut store, "GET a"), "GET (nil)");
    assert_eq!(respond(&mut store, "GET b"), "GET (nil)");
    assert_eq!(respond(&mut store, "GET c"), "GET (nil)");
}

#[test]
fn set_twice_returns_previous_value_and_last_write_wins() {
    let mut store = Store::new();
    assert_eq!(respond(&mut store, "SET k v1"), "SET (nil)");
    assert_eq!(respond(&mut store, "SET k v2"), "SET v1");
    assert_eq!(respond(&mut store, "GET k"), "GET v2");
}

#[test]
fn echo_returns_the_text() {
    let mut store = Store::new();
    assert_eq!(respond(&mut store, "ECHO hello"), "ECHO hello");
}

#[test]
fn ping_returns_the_fixed_pong() {
    let mut store = Store::new();
    assert_eq!(respond(&mut store, "PING"), "PONG");
    assert_eq!(respond(&mut store, "PING"), "PONG");
}

#[test]
fn scenario_set_foo_bar_then_get_foo() {
    let mut store = Store::new();
    assert_eq!(respond(&mut store, "SET foo bar"), "SET (nil)");
    assert_eq!(respond(&mut store, "GET foo"), "GET bar");
}

#[test]
fn scenario_del_foo_then_get_foo() {
    let mut store = Store::new();
    respond(&mut store, "SET foo bar");
    assert_eq!(respond(&mut store, "DEL foo"), "DEL bar");
    assert_eq!(respond(&mut store, "GET foo"), "GET (nil)");
}

#[test]
fn grammar_errors_are_answered_in_the_loop() {
    let mut store = Store::new();
    assert_eq!(respond(&mut store, "NOPE"), "ERR invalid command");
    assert_eq!(respond(&mut store, ""), "ERR invalid command");
    assert_eq!(respond(&mut store, "SET lonely"), "ERR not enough arguments");
    assert_eq!(respond(&mut store, "PING"), "PONG");
}

#[test]
fn store_operations_through_handle_command() {
    let mut store = Store::new();
    let r = handle_command(&mut store, Command::SetOp(String::from("k"), String::from("v")));
    assert!(matches!(r, Response::SetOp(None)));
    let r = handle_command(&mut store, Command::Get(String::from("k")));
    match r {
        Response::Get(Some(v)) => assert_eq!(v, "v"),
        _ => panic!("expected the stored value"),
    }
    let r = handle_command(&mut store, Command::Del(String::from("k")));
    match r {
        Response::Del(Some(v)) => assert_eq!(v, "v"),
        _ => panic!("expected the removed value"),
    }
    let r = handle_command(&mut store, Command::Get(String::from("k")));
    assert!(matches!(r, Response::Get(None)));
}

#[test]
fn store_get_set_del_clear_directly() {
    let mut store = Store::new();
    assert!(store.get(&String::from("a")).is_none());
    assert!(store.set(String::from("a"), String::from("1")).is_none());
    assert_eq!(store.set(String::from("a"), String::from("2")).unwrap(), "1");
    assert_eq!(store.get(&String::from("a")).unwrap(), "2");
    assert!(store.set(String::from("b"), String::from("3")).is_none());
    store.clear();
    assert!(store.get(&String::from("a")).is_none());
    assert!(store.get(&String::from("b")).is_none());
    assert!(store.del(&String::from("a")).is_none());
}

#[test]
fn commands_on_disjoint_keys_commute() {
    let mut first = Store::new();
    respond(&mut first, "SET a 1");
    respond(&mut first, "SET b 2");
    let mut second = Store::new();
    respond(&mut second, "SET b 2");
    respond(&mut second, "SET a 1");
    assert_eq!(respond(&mut first, "GET a"), respond(&mut second, "GET a"));
    assert_eq!(respond(&mut first, "GET b"), respond(&mut second, "GET b"));
}

#[test]
fn racing_sets_leave_one_of_the_written_values() {
    let mut store = Store::new();
    respond(&mut store, "SET k aaaa");
    respond(&mut store, "SET k bbbb");
    let reply = respond(&mut store, "GET k");
    assert!(reply == "GET aaaa" || reply == "GET bbbb");
    assert_eq!(reply, "GET bbbb");
}

#[test]
fn error_policy_closes_only_on_stream_level_errors() {
    assert!(!closes_connection(&MyError::InvalidCommand));
    assert!(!closes_connection(&MyError::NotEnoughArgs));
    assert!(!closes_connection(&MyError::NoCommand));
    assert!(closes_connection(&MyError::MessageTooLong));
    assert!(closes_connection(&MyError::NonUtf8));
    assert!(closes_connection(&MyError::Disconnected));
    assert!(closes_connection(&MyError::ConnectClosed));
    assert!(closes_connection(&MyError::Io(std::io::Error::new(
        std::io::ErrorKind::Other,
        "boom"
    ))));
}

#[test]
fn boundary_frame_too_long_gets_no_response() {
    let oversized = kvcache::frame::BUFLEN as u32 + 1;
    let e = kvcache::frame::check_frame_len(oversized).unwrap_err();
    assert!(matches!(e, MyError::MessageTooLong));
    assert!(closes_connection(&e));
}
