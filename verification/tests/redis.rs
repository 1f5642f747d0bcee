use async_primer::redis::{new_sharded_db, unimplemented_reply, Command, Db, HandleError, RespFrame};

fn bulk(s: &str) -> RespFrame {
    RespFrame::Bulk(s.as_bytes().to_vec())
}

fn request(parts: &[&str]) -> RespFrame {
    RespFrame::Array(parts.iter().map(|p| bulk(p)).collect())
}

#[test]
fn first_server_rejects_every_frame() {
    assert_eq!(unimplemented_reply(), RespFrame::Error("unimplement".to_string()));
}

#[test]
fn set_then_get_returns_value() {
    let mut db = Db::new();
    assert_eq!(db.handle_frame(&request(&["set", "hello", "world"])), Ok(RespFrame::Simple("OK".to_string())));
    assert_eq!(db.handle_frame(&request(&["get", "hello"])), Ok(bulk("world")));
    assert_eq!(db.get("hello"), Some(b"world".to_vec()));
}

#[test]
fn get_missing_key_is_null() {
    let mut db = Db::new();
    assert_eq!(db.handle_frame(&request(&["get", "nothing"])), Ok(RespFrame::Null));
    assert_eq!(db.get("nothing"), None);
}

#[test]
fn command_names_are_case_insensitive() {
    let mut db = Db::new();
    assert_eq!(db.handle_frame(&request(&["SET", "k", "v"])), Ok(RespFrame::Simple("OK".to_string())));
    assert_eq!(db.handle_frame(&request(&["GeT", "k"])), Ok(bulk("v")));
}

#[test]
fn later_write_wins_and_other_keys_stay() {
    let mut db = Db::new();
    db.handle_frame(&request(&["set", "a", "1"])).unwrap();
    db.handle_frame(&request(&["set", "b", "2"])).unwrap();
    db.handle_frame(&request(&["set", "a", "3"])).unwrap();
    assert_eq!(db.handle_frame(&request(&["get", "a"])), Ok(bulk("3")));
    assert_eq!(db.handle_frame(&request(&["get", "b"])), Ok(bulk("2")));
}

#[test]
fn set_with_expiry_option_still_stores() {
    let mut db = Db::new();
    assert_eq!(db.handle_frame(&request(&["set", "k", "v", "EX", "10"])), Ok(RespFrame::Simple("OK".to_string())));
    assert_eq!(db.get("k"), Some(b"v".to_vec()));
}

#[test]
fn non_array_frame_is_a_parse_error() {
    let mut db = Db::new();
    assert_eq!(db.handle_frame(&RespFrame::Simple("get".to_string())), Err(HandleError::Parse));
    assert_eq!(db.handle_frame(&RespFrame::Null), Err(HandleError::Parse));
}

#[test]
fn malformed_commands_are_parse_errors() {
    let mut db = Db::new();
    // Missing key.
    assert_eq!(db.handle_frame(&request(&["get"])), Err(HandleError::Parse));
    // Extra argument.
    assert_eq!(db.handle_frame(&request(&["get", "a", "b"])), Err(HandleError::Parse));
    // A nested array where the key should be.
    let nested = RespFrame::Array(vec![bulk("get"), RespFrame::Array(vec![bulk("a")])]);
    assert_eq!(db.handle_frame(&nested), Err(HandleError::Parse));
    // An integer where the command name should be.
    assert_eq!(db.handle_frame(&RespFrame::Array(vec![RespFrame::Integer(7)])), Err(HandleError::Parse));
    assert_eq!(db.get("a"), None);
}

#[test]
fn other_commands_are_unimplemented() {
    let mut db = Db::new();
    assert_eq!(db.handle_frame(&request(&["ping"])), Err(HandleError::Unimplemented(Command::Unknown)));
    assert_eq!(db.handle_frame(&request(&["publish", "chan", "msg"])), Err(HandleError::Unimplemented(Command::Publish)));
    assert_eq!(db.handle_frame(&request(&["subscribe", "chan"])), Err(HandleError::Unimplemented(Command::Subscribe)));
    assert_eq!(db.handle_frame(&request(&["unsubscribe"])), Err(HandleError::Unimplemented(Command::Unsubscribe)));
}

#[test]
fn apply_get_and_put_directly() {
    let mut db = Db::new();
    let r = db.apply(Command::Put { key: "x".to_string(), value: vec![1, 2, 3] });
    assert_eq!(r, RespFrame::Simple("OK".to_string()));
    assert_eq!(db.apply(Command::Get { key: "x".to_string() }), RespFrame::Bulk(vec![1, 2, 3]));
    assert_eq!(db.apply(Command::Get { key: "y".to_string() }), RespFrame::Null);
}

#[test]
fn binary_values_survive() {
    let mut db = Db::new();
    db.set("bin".to_string(), vec![0, 255, 10, 13]);
    assert_eq!(db.get("bin"), Some(vec![0, 255, 10, 13]));
}

#[test]
fn sharded_db_has_empty_shards() {
    let shards = new_sharded_db(4);
    assert_eq!(shards.len(), 4);
    for s in &shards {
        assert_eq!(s.get("anything"), None);
    }
    assert_eq!(new_sharded_db(0).len(), 0);
}

#[test]
fn handle_command_covers_every_parse_outcome() {
    let mut db = Db::new();
    assert_eq!(db.handle_command(None), Err(HandleError::Parse));
    assert_eq!(db.handle_command(Some(Command::Unknown)), Err(HandleError::Unimplemented(Command::Unknown)));
    assert_eq!(
        db.handle_command(Some(Command::Put { key: "k".to_string(), value: b"v".to_vec() })),
        Ok(RespFrame::Simple("OK".to_string()))
    );
    assert_eq!(db.handle_command(Some(Command::Get { key: "k".to_string() })), Ok(bulk("v")));
    assert_eq!(db.handle_command(Some(Command::Publish)), Err(HandleError::Unimplemented(Command::Publish)));
    assert_eq!(db.get("k"), Some(b"v".to_vec()));
}
