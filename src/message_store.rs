use vstd::prelude::*;
use vstd::string::*;
use crate::message::MessageData;
use crate::stream_name::{head_of, view_of, Category, StreamName, ID_SEPARATOR};
use crate::text::{contains_text, has_infix};

verus! {

/// How many messages a read asks for when no batch size is set.
pub const DEFAULT_BATCH_SIZE: i64 = 1000;

/// The last position written to a stream; `-1` before the first write.
#[derive(Clone, Copy, Debug, PartialEq, Eq, Structural)]
pub struct Version(pub i64);

impl Version {
    pub fn initial() -> (r: Self)
        ensures
            r.0 == -1,
    {
        Version(-1)
    }

    /// The version for what `stream_version` returned: none for a stream never
    /// written to.
    pub fn from_stream_version(stream_version: Option<i64>) -> (r: Self)
        ensures
            r.0 == match stream_version {
                Some(v) => v,
                None => -1i64,
            },
    {
        match stream_version {
            Some(v) => Version(v),
            None => Version::initial(),
        }
    }
}

/// How a store call failed.
#[derive(Debug)]
pub enum Error {
    WrongExpectedVersion(String),
    Database(String),
    Pool(String),
    Other(String),
}

impl Error {
    /// Classifies a failed store call: a database error whose message holds
    /// "Wrong expected version" is an optimistic-concurrency violation, other
    /// database errors stay database errors, a closed or exhausted pool is a pool
    /// error, and the rest is other.
    pub fn classify(database_message: Option<&str>, pool_unavailable: bool, description: String) -> (r: Error)
        ensures
            match database_message {
                Some(m) => if has_infix(m@, "Wrong expected version"@) {
                    r matches Error::WrongExpectedVersion(t) && t@ == m@
                } else {
                    r == Error::Database(description)
                },
                None => if pool_unavailable {
                    r == Error::Pool(description)
                } else {
                    r == Error::Other(description)
                },
            },
    {
        match database_message {
            Some(m) => {
                if contains_text(m, "Wrong expected version") {
                    Error::WrongExpectedVersion(m.to_owned())
                } else {
                    Error::Database(description)
                }
            },
            None => {
                if pool_unavailable {
                    Error::Pool(description)
                } else {
                    Error::Other(description)
                }
            },
        }
    }

    /// The text that describes the failure.
    pub fn message(&self) -> (r: &String)
        ensures
            match self {
                Error::WrongExpectedVersion(t) => r == t,
                Error::Database(t) => r == t,
                Error::Pool(t) => r == t,
                Error::Other(t) => r == t,
            },
    {
        match self {
            Error::WrongExpectedVersion(t) => t,
            Error::Database(t) => t,
            Error::Pool(t) => t,
            Error::Other(t) => t,
        }
    }

    pub fn is_wrong_expected_version(&self) -> (r: bool)
        ensures
            r == (self is WrongExpectedVersion),
    {
        match self {
            Error::WrongExpectedVersion(_) => true,
            _ => false,
        }
    }
}

/// The position a read starts from where none is set.
pub open spec fn position_or_start(position: Option<i64>) -> i64 {
    match position {
        Some(p) => p,
        None => 0,
    }
}

/// The batch size a read asks for where none is set.
pub open spec fn batch_size_or_default(batch_size: Option<i64>) -> i64 {
    match batch_size {
        Some(b) => b,
        None => DEFAULT_BATCH_SIZE,
    }
}

/// A call of `stream_version`.
#[derive(Debug)]
pub struct GetStreamVersion<C> {
    pub connection: C,
}

impl<C> GetStreamVersion<C> {
    pub fn new(connection: C) -> (r: Self)
        ensures
            r.connection == connection,
    {
        GetStreamVersion { connection }
    }
}

/// A call of `get_last_stream_message`.
#[derive(Debug)]
pub struct GetLastStreamMessage<C> {
    pub connection: C,
    pub message_type: Option<String>,
}

impl<C> GetLastStreamMessage<C> {
    pub fn new(connection: C) -> (r: Self)
        ensures
            r.connection == connection,
            r.message_type is None,
    {
        GetLastStreamMessage { connection, message_type: None }
    }

    pub fn message_type(&mut self, message_type: &str) -> (r: &mut Self)
        ensures
            r.message_type matches Some(t) && t@ == message_type@,
            r.connection == old(self).connection,
            *final(self) == *final(r),
    {
        self.message_type = Some(message_type.to_owned());
        self
    }
}

/// A call of `get_stream_messages`.
#[derive(Debug)]
pub struct GetStreamMessages<C> {
    pub connection: C,
    pub position: Option<i64>,
    pub batch_size: Option<i64>,
    pub condition: Option<String>,
}

impl<C> GetStreamMessages<C> {
    pub fn new(connection: C) -> (r: Self)
        ensures
            r.connection == connection,
            r.position is None,
            r.batch_size is None,
            r.condition is None,
    {
        GetStreamMessages { connection, position: None, batch_size: None, condition: None }
    }

    pub fn position(&mut self, position: i64) -> (r: &mut Self)
        ensures
            *r == (GetStreamMessages { position: Some(position), ..*old(self) }),
            *final(self) == *final(r),
    {
        self.position = Some(position);
        self
    }

    pub fn batch_size(&mut self, batch_size: i64) -> (r: &mut Self)
        ensures
            *r == (GetStreamMessages { batch_size: Some(batch_size), ..*old(self) }),
            *final(self) == *final(r),
    {
        self.batch_size = Some(batch_size);
        self
    }

    pub fn condition(&mut self, condition: &str) -> (r: &mut Self)
        ensures
            r.condition matches Some(c) && c@ == condition@,
            *r == (GetStreamMessages { condition: r.condition, ..*old(self) }),
            *final(self) == *final(r),
    {
        self.condition = Some(condition.to_owned());
        self
    }

    /// The position and the batch size that the call passes.
    pub fn arguments(&self) -> (r: (i64, i64))
        ensures
            r == (position_or_start(self.position), batch_size_or_default(self.batch_size)),
    {
        (unwrap_position(self.position), unwrap_batch_size(self.batch_size))
    }
}

/// A call of `get_category_messages`.
#[derive(Debug)]
pub struct GetCategoryMessages<C> {
    pub connection: C,
    pub position: Option<i64>,
    pub batch_size: Option<i64>,
    pub correlation: Option<String>,
    pub consumer_group_member: Option<i64>,
    pub consumer_group_size: Option<i64>,
    pub condition: Option<String>,
}

impl<C> GetCategoryMessages<C> {
    pub fn new(connection: C) -> (r: Self)
        ensures
            r.connection == connection,
            r.position is None,
            r.batch_size is None,
            r.correlation is None,
            r.consumer_group_member is None,
            r.consumer_group_size is None,
            r.condition is None,
    {
        GetCategoryMessages {
            connection,
            position: None,
            batch_size: None,
            correlation: None,
            consumer_group_member: None,
            consumer_group_size: None,
            condition: None,
        }
    }

    pub fn position(&mut self, position: i64) -> (r: &mut Self)
        ensures
            *r == (GetCategoryMessages { position: Some(position), ..*old(self) }),
            *final(self) == *final(r),
    {
        self.position = Some(position);
        self
    }

    pub fn batch_size(&mut self, batch_size: i64) -> (r: &mut Self)
        ensures
            *r == (GetCategoryMessages { batch_size: Some(batch_size), ..*old(self) }),
            *final(self) == *final(r),
    {
        self.batch_size = Some(batch_size);
        self
    }

    pub fn correlation(&mut self, correlation: &str) -> (r: &mut Self)
        ensures
            r.correlation matches Some(c) && c@ == correlation@,
            *r == (GetCategoryMessages { correlation: r.correlation, ..*old(self) }),
            *final(self) == *final(r),
    {
        self.correlation = Some(correlation.to_owned());
        self
    }

    pub fn consumer_group_member(&mut self, consumer_group_member: i64) -> (r: &mut Self)
        ensures
            *r == (GetCategoryMessages {
                consumer_group_member: Some(consumer_group_member),
                ..*old(self)
            }),
            *final(self) == *final(r),
    {
        self.consumer_group_member = Some(consumer_group_member);
        self
    }

    pub fn consumer_group_size(&mut self, consumer_group_size: i64) -> (r: &mut Self)
        ensures
            *r == (GetCategoryMessages {
                consumer_group_size: Some(consumer_group_size),
                ..*old(self)
            }),
            *final(self) == *final(r),
    {
        self.consumer_group_size = Some(consumer_group_size);
        self
    }

    pub fn condition(&mut self, condition: &str) -> (r: &mut Self)
        ensures
            r.condition matches Some(c) && c@ == condition@,
            *r == (GetCategoryMessages { condition: r.condition, ..*old(self) }),
            *final(self) == *final(r),
    {
        self.condition = Some(condition.to_owned());
        self
    }

    /// The position and the batch size that the call passes.
    pub fn arguments(&self) -> (r: (i64, i64))
        ensures
            r == (position_or_start(self.position), batch_size_or_default(self.batch_size)),
    {
        (unwrap_position(self.position), unwrap_batch_size(self.batch_size))
    }
}

/// `get_stream_messages`, under its shorter name.
pub type GetStream<C> = GetStreamMessages<C>;

/// `get_category_messages`, under its shorter name.
pub type GetCategory<C> = GetCategoryMessages<C>;

/// `get_last_stream_message`, under its shorter name.
pub type GetLast<C> = GetLastStreamMessage<C>;

/// `stream_version`, under its shorter name.
pub type GetVersion<C> = GetStreamVersion<C>;

fn unwrap_position(position: Option<i64>) -> (r: i64)
    ensures
        r == position_or_start(position),
{
    match position {
        Some(p) => p,
        None => 0,
    }
}

fn unwrap_batch_size(batch_size: Option<i64>) -> (r: i64)
    ensures
        r == batch_size_or_default(batch_size),
{
    match batch_size {
        Some(b) => b,
        None => DEFAULT_BATCH_SIZE,
    }
}

/// The condition a read passes: the configured condition and the message type
/// joined by `AND`, either alone, or none.
pub open spec fn composed_condition(condition: Option<Seq<char>>, message_type: Option<Seq<char>>) -> Option<Seq<char>> {
    match (condition, message_type) {
        (Some(c), Some(t)) => Some(c + " AND type = "@ + t),
        (Some(c), None) => Some(c),
        (None, Some(t)) => Some("type = "@ + t),
        (None, None) => None,
    }
}

/// What a read is configured with.
#[derive(Debug)]
pub struct ReadOptions {
    pub position: Option<i64>,
    pub batch_size: Option<i64>,
    pub condition: Option<String>,
    pub message_type: Option<String>,
    pub stream_name: Option<StreamName>,
    pub last: bool,
}

fn copy_text(s: &Option<String>) -> (r: Option<String>)
    ensures
        r == *s,
{
    match s {
        Some(t) => Some(t.clone()),
        None => None,
    }
}

impl ReadOptions {
    /// Nothing is configured.
    pub open spec fn is_blank(&self) -> bool {
        &&& self.position is None
        &&& self.batch_size is None
        &&& self.condition is None
        &&& self.message_type is None
        &&& self.stream_name is None
        &&& !self.last
    }

    pub fn new() -> (r: Self)
        ensures
            r.is_blank(),
    {
        ReadOptions {
            position: None,
            batch_size: None,
            condition: None,
            message_type: None,
            stream_name: None,
            last: false,
        }
    }

    /// The condition the read passes to the store.
    pub fn condition(&self) -> (r: Option<String>)
        ensures
            view_of(r) == composed_condition(view_of(self.condition), view_of(self.message_type)),
    {
        match (&self.condition, &self.message_type) {
            (Some(c), Some(t)) => {
                let mut r = c.clone();
                r.append(" AND type = ");
                r.append(t.as_str());
                Some(r)
            },
            (Some(c), None) => Some(c.clone()),
            (None, Some(t)) => {
                let mut r = String::from_str("type = ");
                r.append(t.as_str());
                Some(r)
            },
            (None, None) => None,
        }
    }
}

impl Default for ReadOptions {
    fn default() -> (r: Self)
        ensures
            r.is_blank(),
    {
        ReadOptions::new()
    }
}

/// The store call that a read comes down to.
#[derive(Debug)]
pub enum ReadRequest<C> {
    Last(GetLastStreamMessage<C>, StreamName),
    Category(GetCategoryMessages<C>, Category),
    Stream(GetStreamMessages<C>, StreamName),
}

/// A read against the store: the last message of a stream, the messages of a
/// category, or the messages of a stream.
#[derive(Debug)]
pub struct ReadMessages<C> {
    pub connection: C,
    pub options: ReadOptions,
}

fn copy_name(s: &StreamName) -> (r: StreamName)
    ensures
        r == *s,
{
    StreamName(s.0.clone())
}

impl<C: Clone> ReadMessages<C> {
    pub fn build(connection: C) -> (r: Self)
        ensures
            r.connection == connection,
            r.options.is_blank(),
    {
        ReadMessages { connection, options: ReadOptions::new() }
    }

    /// Picks the store call for reading `stream_name`: the category where the name
    /// holds no id, else the last message where `last` is set, else the stream.
    pub fn execute(&mut self, stream_name: StreamName) -> (r: ReadRequest<C>)
        ensures
            final(self).connection == old(self).connection,
            (old(self).options.last && stream_name@.contains(ID_SEPARATOR)) ==> final(self).options
                == (ReadOptions { stream_name: None, ..old(self).options }),
            !(old(self).options.last && stream_name@.contains(ID_SEPARATOR)) ==> final(self).options
                == (ReadOptions { stream_name: Some(stream_name), ..old(self).options }),
            !stream_name@.contains(ID_SEPARATOR) ==> r is Category,
            stream_name@.contains(ID_SEPARATOR) && old(self).options.last ==> r is Last,
            stream_name@.contains(ID_SEPARATOR) && !old(self).options.last ==> r is Stream,
            match r {
                ReadRequest::Last(get, name) => {
                    &&& name == stream_name
                    &&& get.message_type == old(self).options.message_type
                },
                ReadRequest::Category(get, category) => {
                    &&& category@ == head_of(stream_name@, ID_SEPARATOR)
                    &&& get.position == old(self).options.position
                    &&& get.batch_size == old(self).options.batch_size
                    &&& view_of(get.condition) == composed_condition(
                        view_of(old(self).options.condition),
                        view_of(old(self).options.message_type),
                    )
                    &&& get.correlation is None
                    &&& get.consumer_group_member is None
                    &&& get.consumer_group_size is None
                },
                ReadRequest::Stream(get, name) => {
                    &&& name == stream_name
                    &&& get.position == old(self).options.position
                    &&& get.batch_size == old(self).options.batch_size
                    &&& view_of(get.condition) == composed_condition(
                        view_of(old(self).options.condition),
                        view_of(old(self).options.message_type),
                    )
                },
            },
    {
        if !stream_name.has_id() {
            self.options.stream_name = Some(copy_name(&stream_name));
            let mut get = GetCategoryMessages::new(self.connection.clone());
            get.position = self.options.position;
            get.batch_size = self.options.batch_size;
            get.condition = self.options.condition();
            return ReadRequest::Category(get, stream_name.category());
        }
        if self.options.last {
            self.options.stream_name = None;
            let mut get = GetLastStreamMessage::new(self.connection.clone());
            get.message_type = copy_text(&self.options.message_type);
            return ReadRequest::Last(get, stream_name);
        }
        self.options.stream_name = Some(copy_name(&stream_name));
        let mut get = GetStreamMessages::new(self.connection.clone());
        get.position = self.options.position;
        get.batch_size = self.options.batch_size;
        get.condition = self.options.condition();
        ReadRequest::Stream(get, stream_name)
    }
}

/// A read that answers from what a test configured.
#[derive(Debug)]
pub struct ReadSubstitute {
    pub error: Option<Error>,
    pub message_data: Option<MessageData>,
    pub options: ReadOptions,
}

impl ReadSubstitute {
    pub fn new() -> (r: Self)
        ensures
            r.error is None,
            r.message_data is None,
            r.options.is_blank(),
    {
        ReadSubstitute { error: None, message_data: None, options: ReadOptions::new() }
    }

    /// Records the stream read and answers once with the configured error, else
    /// with the configured message, else with nothing.
    pub fn execute(&mut self, stream_name: StreamName) -> (r: Result<Vec<MessageData>, Error>)
        ensures
            final(self).options == (ReadOptions {
                stream_name: Some(stream_name),
                ..old(self).options
            }),
            final(self).error is None,
            final(self).message_data is None,
            match old(self).error {
                Some(e) => r == Err::<Vec<MessageData>, Error>(e),
                None => r matches Ok(v) && match old(self).message_data {
                    Some(m) => v@ == seq![m],
                    None => v@.len() == 0,
                },
            },
    {
        self.options.stream_name = Some(stream_name);
        let error = self.error.take();
        let message_data = self.message_data.take();
        match error {
            Some(e) => Err(e),
            None => match message_data {
                Some(m) => {
                    let mut v = Vec::new();
                    v.push(m);
                    Ok(v)
                },
                None => Ok(Vec::new()),
            },
        }
    }
}

/// What `write_message` does to a stream at `version`: a write that expects
/// another version fails; any other takes the next position.
pub open spec fn write_outcome(version: int, expected: Option<int>) -> Option<int> {
    match expected {
        Some(e) => if e == version {
            Some(version + 1)
        } else {
            None
        },
        None => Some(version + 1),
    }
}

/// The positions that a run of `write_message` calls takes in a stream at
/// `version`, or none where one of them fails (the transaction then writes
/// nothing).
pub open spec fn batch_outcome(version: int, expected: Seq<Option<int>>) -> Option<Seq<int>>
    decreases expected.len(),
{
    if expected.len() == 0 {
        Some(Seq::empty())
    } else {
        match write_outcome(version, expected[0]) {
            Some(p) => match batch_outcome(p, expected.drop_first()) {
                Some(rest) => Some(seq![p] + rest),
                None => None,
            },
            None => None,
        }
    }
}

/// The expected versions that a write with `expected_version` passes for `n`
/// messages: one more for each message written before.
pub open spec fn expected_versions(expected_version: Option<Version>, n: nat) -> Seq<Option<int>> {
    Seq::new(
        n,
        |i: int|
            match expected_version {
                Some(v) => Some(v.0 + i),
                None => None,
            },
    )
}

/// Writing `n` messages that expect version `v` to a stream at version `v` gives
/// them the positions `v + 1` to `v + n`; the same write again, on the stream now
/// at `v + n`, fails when it holds a message.
pub proof fn lemma_expected_version_batch(v: Version, n: nat)
    ensures
        batch_outcome(v.0 as int, expected_versions(Some(v), n)) == Some(
            Seq::new(n, |i: int| v.0 + i + 1),
        ),
        n > 0 ==> batch_outcome(v.0 + n, expected_versions(Some(v), n)) is None,
{
    lemma_batch_from(v.0 as int, n);
    assert(expected_versions(Some(v), n) =~= Seq::new(n, |i: int| Some(v.0 + i)));
    if n > 0 {
        assert(expected_versions(Some(v), n)[0] == Some(v.0 as int));
    }
}

proof fn lemma_batch_from(v: int, n: nat)
    ensures
        batch_outcome(v, Seq::new(n, |i: int| Some(v + i))) == Some(Seq::new(n, |i: int| v + i + 1)),
    decreases n,
{
    let expected = Seq::new(n, |i: int| Some(v + i));
    if n > 0 {
        lemma_batch_from(v + 1, (n - 1) as nat);
        assert(expected.drop_first() =~= Seq::new((n - 1) as nat, |i: int| Some(v + 1 + i)));
        assert(seq![v + 1] + Seq::new((n - 1) as nat, |i: int| v + 1 + i + 1) =~= Seq::new(
            n,
            |i: int| v + i + 1,
        ));
    } else {
        assert(expected =~= Seq::<Option<int>>::empty());
        assert(Seq::new(n, |i: int| v + i + 1) =~= Seq::<int>::empty());
    }
}

/// An optional version as an optional integer.
pub open spec fn widen(v: Option<i64>) -> Option<int> {
    match v {
        Some(n) => Some(n as int),
        None => None,
    }
}

/// What a write is configured with.
#[derive(Debug)]
pub struct WriteOptions {
    pub expected_version: Option<Version>,
    pub messages: Vec<MessageData>,
    pub stream_name: Option<StreamName>,
}

impl WriteOptions {
    pub fn new() -> (r: Self)
        ensures
            r.expected_version is None,
            r.messages@.len() == 0,
            r.stream_name is None,
    {
        WriteOptions { expected_version: None, messages: Vec::new(), stream_name: None }
    }
}

/// One `write_message` call of a write: a fresh id, the message at `message` in
/// the buffer, the version it expects, and whether its metadata goes as JSON null.
#[derive(Debug)]
pub struct WriteCall {
    pub id: String,
    pub message: usize,
    pub expected_version: Option<i64>,
    pub null_metadata: bool,
}

/// Relies on `uuid::Uuid::new_v4` for a random message id, and on its `Display`
/// for the text.
#[verifier::external_body]
fn new_message_id() -> (r: String) {
    uuid::Uuid::new_v4().to_string()
}

/// A buffered write of messages to one stream in one transaction.
#[derive(Debug)]
pub struct WriteMessages<C> {
    pub connection: C,
    pub options: WriteOptions,
}

impl<C> WriteMessages<C> {
    pub fn build(connection: C) -> (r: Self)
        ensures
            r.connection == connection,
            r.options.expected_version is None,
            r.options.messages@.len() == 0,
            r.options.stream_name is None,
    {
        WriteMessages { connection, options: WriteOptions::new() }
    }

    pub fn expected_version(&mut self, expected_version: Version) -> (r: &mut Self)
        ensures
            r.connection == old(self).connection,
            r.options == (WriteOptions {
                expected_version: Some(expected_version),
                ..old(self).options
            }),
            *final(self) == *final(r),
    {
        self.options.expected_version = Some(expected_version);
        self
    }

    pub fn initial(&mut self) -> (r: &mut Self)
        ensures
            r.connection == old(self).connection,
            r.options == (WriteOptions {
                expected_version: Some(Version(-1i64)),
                ..old(self).options
            }),
            *final(self) == *final(r),
    {
        self.options.expected_version = Some(Version::initial());
        self
    }

    pub fn add_message(&mut self, message: MessageData) -> (r: &mut Self)
        ensures
            r.connection == old(self).connection,
            r.options.expected_version == old(self).options.expected_version,
            r.options.stream_name == old(self).options.stream_name,
            r.options.messages@ == old(self).options.messages@.push(message),
            *final(self) == *final(r),
    {
        self.options.messages.push(message);
        self
    }

    /// The `write_message` calls that executing the write makes, in order; the
    /// expected version moves past the messages, as after a committed write.
    pub fn calls(&mut self) -> (r: Vec<WriteCall>)
        requires
            old(self).options.expected_version matches Some(v) ==> v.0 + old(
                self,
            ).options.messages@.len() <= i64::MAX,
        ensures
            final(self).connection == old(self).connection,
            final(self).options.messages == old(self).options.messages,
            final(self).options.stream_name == old(self).options.stream_name,
            final(self).options.expected_version == match old(self).options.expected_version {
                Some(v) => Some(Version((v.0 + old(self).options.messages@.len()) as i64)),
                None => None,
            },
            r@.len() == old(self).options.messages@.len(),
            forall|i: int|
                0 <= i < r@.len() ==> {
                    &&& (#[trigger] r@[i]).message == i
                    &&& widen(r@[i].expected_version) == expected_versions(
                        old(self).options.expected_version,
                        r@.len(),
                    )[i]
                    &&& r@[i].null_metadata == old(self).options.messages@[i].metadata.is_blank()
                },
    {
        let n = self.options.messages.len();
        let ghost start = self.options.expected_version;
        let mut calls: Vec<WriteCall> = Vec::new();
        let mut i: usize = 0;
        while i < n
            invariant
                n == self.options.messages@.len(),
                i <= n,
                calls@.len() == i,
                start == old(self).options.expected_version,
                self.options.messages == old(self).options.messages,
                self.connection == old(self).connection,
                self.options.stream_name == old(self).options.stream_name,
                start matches Some(v) ==> v.0 + n <= i64::MAX,
                self.options.expected_version == match start {
                    Some(v) => Some(Version((v.0 + i) as i64)),
                    None => None,
                },
                forall|k: int|
                    0 <= k < i ==> {
                        &&& (#[trigger] calls@[k]).message == k
                        &&& widen(calls@[k].expected_version) == expected_versions(start, n as nat)[k]
                        &&& calls@[k].null_metadata == self.options.messages@[k].metadata.is_blank()
                    },
            decreases n - i,
        {
            let expected = match self.options.expected_version {
                Some(v) => Some(v.0),
                None => None,
            };
            let null_metadata = self.options.messages[i].metadata.is_empty();
            calls.push(WriteCall { id: new_message_id(), message: i, expected_version: expected, null_metadata });
            self.options.expected_version = match self.options.expected_version {
                Some(v) => Some(Version(v.0 + 1)),
                None => None,
            };
            i = i + 1;
        }
        calls
    }
}

/// A write that records what it was asked to write for a test to look at.
#[derive(Debug)]
pub struct WriteSubstitute {
    pub error: Option<Error>,
    pub options: WriteOptions,
}

impl WriteSubstitute {
    pub fn new() -> (r: Self)
        ensures
            r.error is None,
            r.options.expected_version is None,
            r.options.messages@.len() == 0,
            r.options.stream_name is None,
    {
        WriteSubstitute { error: None, options: WriteOptions::new() }
    }

    /// Records the stream written to and answers with the configured error, once,
    /// or with the position of the last message buffered.
    pub fn execute(&mut self, stream_name: StreamName) -> (r: Result<i64, Error>)
        requires
            old(self).options.messages@.len() <= i64::MAX,
        ensures
            final(self).error is None,
            final(self).options == (WriteOptions {
                stream_name: Some(stream_name),
                ..old(self).options
            }),
            match old(self).error {
                Some(e) => r == Err::<i64, Error>(e),
                None => r == Ok::<i64, Error>((old(self).options.messages@.len() - 1) as i64),
            },
    {
        let error = self.error.take();
        self.options.stream_name = Some(stream_name);
        match error {
            Some(e) => Err(e),
            None => Ok(self.options.messages.len() as i64 - 1),
        }
    }

    /// The first buffered message of the given type.
    pub fn find_message(&self, message_type: &str) -> (r: Option<&MessageData>)
        ensures
            match r {
                Some(m) => exists|i: int|
                    0 <= i < self.options.messages@.len() && self.options.messages@[i] == *m
                        && m.message_type@ == message_type@ && forall|j: int|
                        0 <= j < i ==> self.options.messages@[j].message_type@
                            != message_type@,
                None => forall|j: int|
                    0 <= j < self.options.messages@.len()
                        ==> self.options.messages@[j].message_type@ != message_type@,
            },
    {
        let mut i: usize = 0;
        while i < self.options.messages.len()
            invariant
                i <= self.options.messages@.len(),
                forall|j: int|
                    0 <= j < i ==> self.options.messages@[j].message_type@ != message_type@,
            decreases self.options.messages@.len() - i,
        {
            if self.options.messages[i].message_type == message_type.to_owned() {
                return Some(&self.options.messages[i]);
            }
            i = i + 1;
        }
        None
    }

    /// The buffered messages of the given type, in order.
    pub fn messages_of_type(&self, message_type: &str) -> (r: Vec<&MessageData>)
        ensures
            r@.map_values(|m: &MessageData| *m) == self.options.messages@.filter(
                |m: MessageData| m.message_type@ == message_type@,
            ),
    {
        let ghost all = self.options.messages@;
        let ghost keep = |m: MessageData| m.message_type@ == message_type@;
        let mut r: Vec<&MessageData> = Vec::new();
        let mut i: usize = 0;
        while i < self.options.messages.len()
            invariant
                i <= all.len(),
                all == self.options.messages@,
                keep == (|m: MessageData| m.message_type@ == message_type@),
                r@.map_values(|m: &MessageData| *m) == all.subrange(0, i as int).filter(keep),
            decreases all.len() - i,
        {
            proof {
                all.subrange(0, i as int).lemma_filter_push(all[i as int], keep);
            }
            if self.options.messages[i].message_type == message_type.to_owned() {
                r.push(&self.options.messages[i]);
            }
            assert(all.subrange(0, i + 1) =~= all.subrange(0, i as int).push(all[i as int]));
            assert(r@.map_values(|m: &MessageData| *m) =~= all.subrange(0, i + 1).filter(keep));
            i = i + 1;
        }
        assert(all.subrange(0, all.len() as int) =~= all);
        r
    }
}

} // verus!
