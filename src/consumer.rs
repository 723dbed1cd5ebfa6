use vstd::prelude::*;
use vstd::string::*;
use crate::handler::{first_clash, keys_of, DispatchStep, DuplicateHandlerError, HandlerCollection};
use crate::message::MessageData;
use crate::message_store::GetCategoryMessages;
use crate::stream_name::{view_of, with_part, Category, CategoryType, StreamName, CATEGORY_TYPE_SEPARATOR};

verus! {

/// How many messages a consumer reads at once by default.
pub const DEFAULT_CONSUMER_BATCH_SIZE: i64 = 1000;

/// How often a consumer polls the store by default, in milliseconds.
pub const DEFAULT_POLL_INTERVAL_MILLIS: u64 = 100;

/// After how many messages a consumer records its position by default.
pub const DEFAULT_POSITION_UPDATE_INTERVAL: u64 = 100;

/// The event a consumer writes to its position stream.
#[derive(Clone, Copy, Debug, PartialEq, Eq, Structural)]
pub struct Recorded {
    pub position: i64,
}

/// The name of the position stream of `category`, with its optional identifier.
pub open spec fn position_stream_of(category: Seq<char>, identifier: Option<Seq<char>>) -> Seq<char> {
    let with_position = with_part(category, CATEGORY_TYPE_SEPARATOR, "position"@);
    match identifier {
        Some(i) => with_part(with_position, CATEGORY_TYPE_SEPARATOR, i),
        None => with_position,
    }
}

/// Tails one category and hands each message to the handlers for its type.
#[derive(Debug)]
pub struct Consumer<H> {
    pub handlers: HandlerCollection<H>,
    pub category: Category,
    pub identifier: Option<CategoryType>,
    pub correlation: Option<String>,
    pub batch_size: i64,
    pub poll_interval_millis: u64,
    pub position_update_interval: u64,
    pub position_update_counter: u64,
    pub strict: bool,
    pub group: Option<(i64, i64)>,
}

impl<H> Consumer<H> {
    pub open spec fn wf(&self) -> bool {
        &&& self.handlers.wf()
        &&& self.position_update_counter < u64::MAX
    }

    /// `self` and `other` differ at most in their handlers.
    pub open spec fn same_settings(&self, other: &Consumer<H>) -> bool {
        &&& self.category == other.category
        &&& self.identifier == other.identifier
        &&& self.correlation == other.correlation
        &&& self.batch_size == other.batch_size
        &&& self.poll_interval_millis == other.poll_interval_millis
        &&& self.position_update_interval == other.position_update_interval
        &&& self.position_update_counter == other.position_update_counter
        &&& self.strict == other.strict
        &&& self.group == other.group
    }

    pub fn new(category: Category) -> (r: Self)
        ensures
            r.wf(),
            r.category == category,
            r.handlers.handlers@.len() == 0,
            r.handlers.catchall is None,
            r.identifier is None,
            r.correlation is None,
            r.batch_size == DEFAULT_CONSUMER_BATCH_SIZE,
            r.poll_interval_millis == DEFAULT_POLL_INTERVAL_MILLIS,
            r.position_update_interval == DEFAULT_POSITION_UPDATE_INTERVAL,
            r.position_update_counter == 0,
            !r.strict,
            r.group is None,
    {
        Consumer {
            handlers: HandlerCollection::new(),
            category,
            identifier: None,
            correlation: None,
            batch_size: DEFAULT_CONSUMER_BATCH_SIZE,
            poll_interval_millis: DEFAULT_POLL_INTERVAL_MILLIS,
            position_update_interval: DEFAULT_POSITION_UPDATE_INTERVAL,
            position_update_counter: 0,
            strict: false,
            group: None,
        }
    }

    /// Adds the handler for `message_type`; fails where that type has one already.
    pub fn insert_handler(self, message_type: String, handler: H) -> (r: Result<Self, DuplicateHandlerError>)
        requires
            self.wf(),
        ensures
            self.handlers.keys().contains(message_type@) <==> r is Err,
            r matches Err(e) ==> e.0@ == message_type@,
            r matches Ok(c) ==> c.wf() && c.same_settings(&self) && c.handlers.handlers@
                == self.handlers.handlers@.push((message_type, handler)) && c.handlers.catchall
                == self.handlers.catchall,
    {
        let mut consumer = self;
        match consumer.handlers.insert(message_type, handler) {
            Ok(()) => Ok(consumer),
            Err(e) => Err(e),
        }
    }

    /// Adds all of `handlers` or none; fails where a type has a handler already or
    /// comes twice among them.
    pub fn extend_handlers(self, handlers: Vec<(String, H)>) -> (r: Result<Self, DuplicateHandlerError>)
        requires
            self.wf(),
        ensures
            r is Ok <==> (keys_of(handlers@).no_duplicates() && forall|i: int|
                0 <= i < handlers@.len() ==> !self.handlers.keys().contains(
                    #[trigger] keys_of(handlers@)[i],
                )),
            r matches Err(e) ==> exists|i: int|
                first_clash(self.handlers.keys(), keys_of(handlers@), i) && #[trigger] keys_of(
                    handlers@,
                )[i] == e.0@,
            r matches Ok(c) ==> c.wf() && c.same_settings(&self) && c.handlers.handlers@
                == self.handlers.handlers@ + handlers@ && c.handlers.catchall
                == self.handlers.catchall,
    {
        let mut consumer = self;
        match consumer.handlers.extend(handlers) {
            Ok(()) => Ok(consumer),
            Err(e) => Err(e),
        }
    }

    pub fn catchall(self, catchall: H) -> (r: Self)
        requires
            self.wf(),
        ensures
            r.wf(),
            r.same_settings(&self),
            r.handlers.handlers == self.handlers.handlers,
            r.handlers.catchall == Some(catchall),
    {
        let mut consumer = self;
        consumer.handlers.set_catchall(catchall);
        consumer
    }

    pub fn batch_size(self, batch_size: i64) -> (r: Self)
        ensures
            r == (Consumer { batch_size, ..self }),
    {
        Consumer { batch_size, ..self }
    }

    pub fn identifier(self, identifier: CategoryType) -> (r: Self)
        ensures
            r == (Consumer { identifier: Some(identifier), ..self }),
    {
        Consumer { identifier: Some(identifier), ..self }
    }

    pub fn correlation(self, correlation: &str) -> (r: Self)
        ensures
            r.correlation matches Some(c) && c@ == correlation@,
            r == (Consumer { correlation: r.correlation, ..self }),
    {
        Consumer { correlation: Some(correlation.to_owned()), ..self }
    }

    pub fn poll_interval(self, poll_interval_millis: u64) -> (r: Self)
        ensures
            r == (Consumer { poll_interval_millis, ..self }),
    {
        Consumer { poll_interval_millis, ..self }
    }

    /// Makes a message that no handler takes an error.
    pub fn strict(self) -> (r: Self)
        ensures
            r == (Consumer { strict: true, ..self }),
    {
        Consumer { strict: true, ..self }
    }

    pub fn position_update_interval(self, interval: u64) -> (r: Self)
        ensures
            r == (Consumer { position_update_interval: interval, ..self }),
    {
        Consumer { position_update_interval: interval, ..self }
    }

    /// Reads only the messages of group member `member` of `size`.
    pub fn group(self, size: i64, member: i64) -> (r: Self)
        ensures
            r == (Consumer { group: Some((size, member)), ..self }),
    {
        Consumer { group: Some((size, member)), ..self }
    }

    /// `{category}:position`, with `+{identifier}` where one is set.
    pub fn position_stream_name(&self) -> (r: StreamName)
        ensures
            r@ == position_stream_of(self.category@, view_of(self.identifier)),
    {
        let position_type = CategoryType::new("position");
        let mut category = self.category.add_type(position_type);
        match &self.identifier {
            Some(identifier) => {
                category = category.add_type(CategoryType(identifier.0.clone()));
            },
            None => {},
        }
        StreamName(category.0)
    }

    /// The steps that handle a message of type `message_type`: its typed handler,
    /// if any, then the catchall, if any.
    pub fn dispatch_plan(&self, message_type: &str) -> (r: Vec<DispatchStep>)
        requires
            self.wf(),
        ensures
            r@ == self.handlers.steps_for(message_type@),
    {
        self.handlers.dispatch_plan(message_type)
    }

    /// Whether a message that was handled (`processed`) or not may pass: in strict
    /// mode one that no handler took may not.
    pub fn accepts(&self, processed: bool) -> (r: bool)
        ensures
            r == (processed || !self.strict),
    {
        processed || !self.strict
    }

    /// Counts one more dispatched message at global position `position`; every
    /// `position_update_interval` messages, the record of it to write to the
    /// position stream.
    pub fn update_position(&mut self, position: i64) -> (r: Option<Recorded>)
        requires
            old(self).wf(),
        ensures
            final(self).wf(),
            final(self).handlers == old(self).handlers,
            final(self).position_update_interval == old(self).position_update_interval,
            old(self).position_update_counter + 1 >= old(self).position_update_interval ==> {
                &&& r == Some(Recorded { position })
                &&& final(self).position_update_counter == 0
            },
            old(self).position_update_counter + 1 < old(self).position_update_interval ==> {
                &&& r is None
                &&& final(self).position_update_counter == old(self).position_update_counter + 1
            },
            final(self).same_settings(&Consumer {
                position_update_counter: final(self).position_update_counter,
                ..*old(self)
            }),
    {
        let counter = self.position_update_counter + 1;
        if counter >= self.position_update_interval {
            self.position_update_counter = 0;
            Some(Recorded { position })
        } else {
            self.position_update_counter = counter;
            None
        }
    }

    /// The first read of the category: from the recorded position where there is
    /// one, with the consumer's batch size, correlation and group.
    pub fn category_read<C>(&self, connection: C, position: Option<i64>) -> (r: GetCategoryMessages<C>)
        ensures
            r.connection == connection,
            r.position == position,
            r.batch_size == Some(self.batch_size),
            view_of(r.correlation) == view_of(self.correlation),
            r.consumer_group_size == match self.group {
                Some((size, _)) => Some(size),
                None => None::<i64>,
            },
            r.consumer_group_member == match self.group {
                Some((_, member)) => Some(member),
                None => None::<i64>,
            },
            r.condition is None,
    {
        let mut get = GetCategoryMessages::new(connection);
        match &self.correlation {
            Some(correlation) => {
                get.correlation(correlation.as_str());
            },
            None => {},
        }
        match position {
            Some(p) => {
                get.position(p);
            },
            None => {},
        }
        match self.group {
            Some((size, member)) => {
                get.consumer_group_size(size).consumer_group_member(member);
            },
            None => {},
        }
        get.batch_size(self.batch_size);
        get
    }
}

/// The larger of an optional bound and a position.
pub open spec fn raise(bound: Option<i64>, position: i64) -> Option<i64> {
    match bound {
        Some(p) => if p >= position {
            Some(p)
        } else {
            Some(position)
        },
        None => Some(position),
    }
}

/// The highest of `start` and `positions`.
pub open spec fn high(start: Option<i64>, positions: Seq<i64>) -> Option<i64>
    decreases positions.len(),
{
    if positions.len() == 0 {
        start
    } else {
        raise(high(start, positions.drop_last()), positions.last())
    }
}

/// A message at `position` passes a subscription that has seen up to `bound`.
pub open spec fn passes(bound: Option<i64>, position: i64) -> bool {
    match bound {
        Some(p) => position > p,
        None => true,
    }
}

/// Whether the message at index `i` of a batch passes, after a subscription that
/// had seen up to `start` saw the ones before it.
pub open spec fn sent_at(start: Option<i64>, positions: Seq<i64>, i: int) -> bool {
    passes(high(start, positions.subrange(0, i)), positions[i])
}

/// The global positions of a batch of messages read from the store.
pub open spec fn global_positions(batch: Seq<MessageData>) -> Seq<i64> {
    batch.map_values(|m: MessageData| m.metadata.global_position.unwrap())
}

/// Hands on the messages of a category in order of global position, each once.
#[derive(Debug)]
pub struct Subscription {
    pub position: Option<i64>,
    pub poll_interval_millis: u64,
}

impl Subscription {
    /// A subscription that has seen the messages up to `position`.
    pub fn new(poll_interval_millis: u64, position: Option<i64>) -> (r: Self)
        ensures
            r.position == position,
            r.poll_interval_millis == poll_interval_millis,
    {
        Subscription { position, poll_interval_millis }
    }

    /// The position to read from next: the last one handed on.
    pub fn read_position(&self) -> (r: Option<i64>)
        ensures
            r == self.position,
    {
        self.position
    }

    /// Which messages of a batch to hand on: those past every position seen
    /// before; each one handed on is then seen.
    pub fn select(&mut self, batch: &Vec<MessageData>) -> (r: Vec<bool>)
        requires
            forall|i: int| 0 <= i < batch@.len() ==> (#[trigger] batch@[i]).metadata.global_position is Some,
        ensures
            r@.len() == batch@.len(),
            forall|i: int|
                0 <= i < r@.len() ==> #[trigger] r@[i] == sent_at(
                    old(self).position,
                    global_positions(batch@),
                    i,
                ),
            final(self).position == high(old(self).position, global_positions(batch@)),
            final(self).poll_interval_millis == old(self).poll_interval_millis,
    {
        let ghost start = self.position;
        let ghost positions = global_positions(batch@);
        let mut sent: Vec<bool> = Vec::new();
        let mut i: usize = 0;
        assert(positions.subrange(0, 0) =~= Seq::<i64>::empty());
        while i < batch.len()
            invariant
                i <= batch@.len(),
                positions == global_positions(batch@),
                forall|k: int| 0 <= k < batch@.len() ==> (#[trigger] batch@[k]).metadata.global_position is Some,
                sent@.len() == i,
                self.position == high(start, positions.subrange(0, i as int)),
                self.poll_interval_millis == old(self).poll_interval_millis,
                forall|k: int| 0 <= k < i ==> #[trigger] sent@[k] == sent_at(start, positions, k),
            decreases batch@.len() - i,
        {
            let position = match batch[i].metadata.global_position {
                Some(p) => p,
                None => 0,
            };
            assert(position == positions[i as int]);
            let pass = match self.position {
                Some(p) => position > p,
                None => true,
            };
            sent.push(pass);
            if pass {
                self.position = Some(position);
            }
            assert(positions.subrange(0, i + 1).drop_last() =~= positions.subrange(0, i as int));
            i = i + 1;
        }
        assert(positions.subrange(0, batch@.len() as int) =~= positions);
        sent
    }
}

proof fn lemma_high_bounds(start: Option<i64>, positions: Seq<i64>)
    ensures
        start matches Some(s) ==> (high(start, positions) matches Some(h) && h >= s),
        forall|i: int|
            0 <= i < positions.len() ==> (high(start, positions) matches Some(h) && h >= #[trigger] positions[i]),
    decreases positions.len(),
{
    if positions.len() > 0 {
        let init = positions.drop_last();
        lemma_high_bounds(start, init);
        assert forall|i: int| 0 <= i < positions.len() implies (high(start, positions) matches Some(h)
            && h >= #[trigger] positions[i]) by {
            if i < positions.len() - 1 {
                assert(positions[i] == init[i]);
            }
        }
    }
}

/// A subscription that resumes after `start` hands on only messages past it, and
/// those it hands on from one batch come in strictly rising order.
pub proof fn lemma_resume_in_order(start: Option<i64>, positions: Seq<i64>, i: int, j: int)
    requires
        0 <= i < j < positions.len(),
        sent_at(start, positions, i),
        sent_at(start, positions, j),
    ensures
        positions[i] < positions[j],
        start matches Some(s) ==> positions[i] > s,
{
    let before_j = positions.subrange(0, j);
    lemma_high_bounds(start, before_j);
    assert(before_j[i] == positions[i]);
    lemma_high_bounds(start, positions.subrange(0, i));
}

/// Two batches read one after the other, overlapping or not: no message of the
/// second that is handed on was handed on from the first, as each comes past all
/// of those.
pub proof fn lemma_overlapping_batches(start: Option<i64>, first: Seq<i64>, second: Seq<i64>, i: int, j: int)
    requires
        0 <= i < first.len(),
        0 <= j < second.len(),
        sent_at(start, first, i),
        sent_at(high(start, first), second, j),
    ensures
        first[i] < second[j],
{
    lemma_high_bounds(start, first);
    lemma_high_bounds(high(start, first), second.subrange(0, j));
}

} // verus!
