//! The key-value server: request frames, commands, and the store they act on.
//!
//! A connection reads a frame, turns it into a command (mini-redis does the
//! parsing), applies `SET` and `GET` to a string-keyed store of byte
//! values and writes the reply frame back. Reading and writing the socket is the
//! caller's part.

use vstd::prelude::*;
use vstd::hash_map::StringHashMap;

verus! {

/// `mini_redis::Frame`, which the library only hands to the command parser.
#[verifier::external_type_specification]
#[verifier::external_body]
pub struct ExRedisFrame(mini_redis::Frame);

/// A frame of the Redis protocol, as plain values.
#[derive(Debug, PartialEq, Eq)]
pub enum RespFrame {
    Simple(String),
    Error(String),
    Integer(u64),
    Bulk(Vec<u8>),
    Null,
    Array(Vec<RespFrame>),
}

/// A command parsed from a frame; `Put` is `SET`. Only `GET` and `SET` carry
/// their arguments: the other commands are never executed by this server.
#[derive(Debug, PartialEq, Eq)]
pub enum Command {
    Get { key: String },
    Put { key: String, value: Vec<u8> },
    Publish,
    Subscribe,
    Unsubscribe,
    Unknown,
}

/// What `mini_redis::Command::from_frame` makes of a frame: `None` when it
/// reports an error.
pub uninterp spec fn command_from_frame(frame: RespFrame) -> Option<Command>;

impl RespFrame {
    /// The same frame as a `mini_redis::Frame`, variant for variant (array
    /// items in order, bulk bytes unchanged).
    #[verifier::external_body]
    fn to_outside(&self) -> mini_redis::Frame {
        match self {
            RespFrame::Simple(s) => mini_redis::Frame::Simple(s.clone()),
            RespFrame::Error(s) => mini_redis::Frame::Error(s.clone()),
            RespFrame::Integer(n) => mini_redis::Frame::Integer(*n),
            RespFrame::Bulk(b) => mini_redis::Frame::Bulk(bytes::Bytes::from(b.clone())),
            RespFrame::Null => mini_redis::Frame::Null,
            RespFrame::Array(items) => mini_redis::Frame::Array(items.iter().map(|f| f.to_outside()).collect()),
        }
    }
}

/// `mini_redis::Command::from_frame` on the frame. What it returns is named,
/// not stated: it is a function of the frame alone. Each command variant is
/// mapped to the variant of the same name (`Set` to `Put`), `GET` and `SET`
/// with their key and value; any error becomes `None`.
#[verifier::external_body]
fn parse_command(frame: &RespFrame) -> (cmd: Option<Command>)
    ensures
        cmd == command_from_frame(*frame),
{
    match mini_redis::Command::from_frame(frame.to_outside()) {
        Ok(mini_redis::Command::Get(c)) => Some(Command::Get { key: c.key().to_string() }),
        Ok(mini_redis::Command::Set(c)) => Some(Command::Put { key: c.key().to_string(), value: c.value().to_vec() }),
        Ok(mini_redis::Command::Publish(_)) => Some(Command::Publish),
        Ok(mini_redis::Command::Subscribe(_)) => Some(Command::Subscribe),
        Ok(mini_redis::Command::Unsubscribe(_)) => Some(Command::Unsubscribe),
        Ok(mini_redis::Command::Unknown(_)) => Some(Command::Unknown),
        Err(_) => None,
    }
}

/// The reply a command earns, as a value.
pub enum Reply {
    /// `+OK`
    Done,
    /// A bulk string holding the stored bytes.
    Value(Seq<u8>),
    /// `$-1`: no such key.
    Nil,
}

/// The store after `cmd` (a `GET` or a `SET`) and the reply it earns.
pub open spec fn execute(db: Map<Seq<char>, Seq<u8>>, cmd: Command) -> (Map<Seq<char>, Seq<u8>>, Reply) {
    match cmd {
        Command::Put { key, value } => (db.insert(key@, value@), Reply::Done),
        Command::Get { key } => (db, if db.contains_key(key@) { Reply::Value(db[key@]) } else { Reply::Nil }),
        _ => (db, Reply::Nil),
    }
}

/// Whether `f` is the frame that carries reply `r`.
pub open spec fn frame_carries(f: RespFrame, r: Reply) -> bool {
    match r {
        Reply::Done => f matches RespFrame::Simple(s) && s@ == "OK"@,
        Reply::Value(b) => f matches RespFrame::Bulk(v) && v@ == b,
        Reply::Nil => f == RespFrame::Null,
    }
}

/// Why a request frame was not answered (the connection handler panics on
/// either).
#[derive(Debug, PartialEq, Eq)]
pub enum HandleError {
    /// The frame is not a command.
    Parse,
    /// A command other than `GET` and `SET`.
    Unimplemented(Command),
}

/// The reply of the first server version to any frame: an error frame.
pub fn unimplemented_reply() -> (f: RespFrame)
    ensures
        (f matches RespFrame::Error(s) && s@ == "unimplement"@),
{
    RespFrame::Error("unimplement".to_owned())
}

/// A string-keyed store of byte values.
pub struct Db {
    entries: StringHashMap<Vec<u8>>,
}

impl View for Db {
    type V = Map<Seq<char>, Seq<u8>>;

    closed spec fn view(&self) -> Map<Seq<char>, Seq<u8>> {
        self.entries@.map_values(|v: Vec<u8>| v@)
    }
}

/// A copy of `v` with the same bytes.
fn copy_bytes(v: &Vec<u8>) -> (c: Vec<u8>)
    ensures
        c@ == v@,
{
    let c = v.clone();
    assert(c@ =~= v@);
    c
}

impl Db {
    /// An empty store.
    pub fn new() -> (db: Db)
        ensures
            db@ == Map::<Seq<char>, Seq<u8>>::empty(),
    {
        let db = Db { entries: StringHashMap::new() };
        assert(db@ =~= Map::<Seq<char>, Seq<u8>>::empty());
        db
    }

    /// Stores `value` under `key`, replacing what was there.
    pub fn set(&mut self, key: String, value: Vec<u8>)
        ensures
            final(self)@ == old(self)@.insert(key@, value@),
    {
        self.entries.insert(key, value);
        assert(self@ =~= old(self)@.insert(key@, value@));
    }

    /// A copy of the bytes stored under `key`, if any.
    pub fn get(&self, key: &str) -> (r: Option<Vec<u8>>)
        ensures
            self@.contains_key(key@) ==> (r matches Some(v) && v@ == self@[key@]),
            !self@.contains_key(key@) ==> r is None,
    {
        match self.entries.get(key) {
            Some(v) => Some(copy_bytes(v)),
            None => None,
        }
    }

    /// Executes a `GET` or `SET`: `SET` stores the value and replies `OK`;
    /// `GET` replies with the stored bytes, or with `Null` for a missing key.
    pub fn apply(&mut self, cmd: Command) -> (resp: RespFrame)
        requires
            cmd is Get || cmd is Put,
        ensures
            final(self)@ == execute(old(self)@, cmd).0,
            frame_carries(resp, execute(old(self)@, cmd).1),
    {
        match cmd {
            Command::Put { key, value } => {
                self.set(key, value);
                RespFrame::Simple("OK".to_owned())
            },
            Command::Get { key } => {
                match self.get(key.as_str()) {
                    Some(value) => RespFrame::Bulk(value),
                    None => RespFrame::Null,
                }
            },
            _ => RespFrame::Null,
        }
    }

    /// Answers the outcome of parsing a request: `None` (the frame did not
    /// parse) is refused as a parse error, a `GET` or `SET` is executed, and
    /// any other command is refused as unimplemented; refusals leave the
    /// store as it was.
    pub fn handle_command(&mut self, parsed: Option<Command>) -> (r: Result<RespFrame, HandleError>)
        ensures
            match parsed {
                None => r == Err::<RespFrame, HandleError>(HandleError::Parse) && final(self)@ == old(self)@,
                Some(cmd) => if cmd is Get || cmd is Put {
                    &&& r is Ok
                    &&& final(self)@ == execute(old(self)@, cmd).0
                    &&& frame_carries(r->Ok_0, execute(old(self)@, cmd).1)
                } else {
                    r == Err::<RespFrame, HandleError>(HandleError::Unimplemented(cmd)) && final(self)@ == old(self)@
                },
            },
    {
        match parsed {
            None => Err(HandleError::Parse),
            Some(cmd) => {
                if matches!(cmd, Command::Get { .. }) || matches!(cmd, Command::Put { .. }) {
                    Ok(self.apply(cmd))
                } else {
                    Err(HandleError::Unimplemented(cmd))
                }
            },
        }
    }

    /// Answers one request frame: parses it into a command (with
    /// mini-redis) and answers that as [`Db::handle_command`] does.
    pub fn handle_frame(&mut self, frame: &RespFrame) -> (r: Result<RespFrame, HandleError>)
        ensures
            match command_from_frame(*frame) {
                None => r == Err::<RespFrame, HandleError>(HandleError::Parse) && final(self)@ == old(self)@,
                Some(cmd) => if cmd is Get || cmd is Put {
                    &&& r is Ok
                    &&& final(self)@ == execute(old(self)@, cmd).0
                    &&& frame_carries(r->Ok_0, execute(old(self)@, cmd).1)
                } else {
                    r == Err::<RespFrame, HandleError>(HandleError::Unimplemented(cmd)) && final(self)@ == old(self)@
                },
            },
    {
        let parsed = parse_command(frame);
        self.handle_command(parsed)
    }
}

/// What a read gives back of a write. After `SET key value`, a `GET` of
/// the same key replies with `value`, and a `GET` of any other key replies
/// as it did before; a `GET` never changes the store; of two writes to the
/// same key the later one wins; a `SET` always replies `OK`.
pub proof fn lemma_read_after_write(
    db: Map<Seq<char>, Seq<u8>>,
    key: String,
    value: Vec<u8>,
    other: String,
    later: Vec<u8>,
)
    ensures
        execute(execute(db, Command::Put { key, value }).0, Command::Get { key }).1 == Reply::Value(value@),
        other@ != key@ ==> execute(execute(db, Command::Put { key, value }).0, Command::Get { key: other }).1
            == execute(db, Command::Get { key: other }).1,
        execute(db, Command::Get { key: other }).0 == db,
        other@ == key@ ==> execute(execute(db, Command::Put { key, value }).0, Command::Put { key: other, value: later }).0
            == execute(db, Command::Put { key: other, value: later }).0,
        execute(db, Command::Put { key, value }).1 == Reply::Done,
{
    let after = db.insert(key@, value@);
    if other@ == key@ {
        assert(after.insert(other@, later@) =~= db.insert(other@, later@));
    }
}

/// What each command does to the store and replies, for every store and
/// key: a `GET` of a stored key replies with its bytes, a `GET` of an absent
/// key replies nil, and neither changes the store; a `SET` stores the value
/// and replies `OK`. The reply frames are: `OK` a simple string `"OK"`, a
/// value a bulk string of exactly those bytes, nil the null frame.
pub proof fn lemma_command_answers(db: Map<Seq<char>, Seq<u8>>, key: String, value: Vec<u8>, f: RespFrame)
    ensures
        !db.contains_key(key@) ==> execute(db, Command::Get { key }) == (db, Reply::Nil),
        db.contains_key(key@) ==> execute(db, Command::Get { key }) == (db, Reply::Value(db[key@])),
        execute(db, Command::Put { key, value }) == (db.insert(key@, value@), Reply::Done),
        frame_carries(f, Reply::Nil) <==> f == RespFrame::Null,
        frame_carries(f, Reply::Done) <==> (f matches RespFrame::Simple(s) && s@ == "OK"@),
        frame_carries(f, Reply::Value(value@)) <==> (f matches RespFrame::Bulk(v) && v@ == value@),
{
}

/// A store split into `num_shards` empty shards.
pub fn new_sharded_db(num_shards: usize) -> (db: Vec<Db>)
    ensures
        db.len() == num_shards,
        forall|i: int| 0 <= i < num_shards ==> (#[trigger] db[i])@ == Map::<Seq<char>, Seq<u8>>::empty(),
{
    let mut db: Vec<Db> = Vec::with_capacity(num_shards);
    for _i in 0..num_shards
        invariant
            db.len() == _i,
            forall|i: int| 0 <= i < db.len() ==> (#[trigger] db[i])@ == Map::<Seq<char>, Seq<u8>>::empty(),
    {
        db.push(Db::new());
    }
    db
}

} // verus!
