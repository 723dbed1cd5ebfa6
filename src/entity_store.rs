use vstd::prelude::*;
use vstd::string::*;
use moka::sync::Cache;
use crate::handler::{first_clash, keys_of, DispatchStep, HandlerCollection};
use crate::message::MessageData;
use crate::message_store::Version;
use crate::stream_name::{compose, Category, StreamID, StreamName, ID_SEPARATOR};

verus! {

/// How many entities of one type the cache keeps.
pub const ENTITY_CACHE_CAPACITY: u64 = 10_000;

#[verifier::external_type_specification]
#[verifier::external_body]
#[verifier::reject_recursive_types(K)]
#[verifier::reject_recursive_types(V)]
#[verifier::reject_recursive_types(S)]
pub struct ExCache<K, V, S>(Cache<K, V, S>);

/// The cache of one entity type: the entity and its version, by stream name.
pub type EntityCache<Entity> = Cache<String, (Entity, Version)>;

/// Relies on `moka::sync::Cache::new`: an empty cache that keeps at most
/// `max_capacity` entries.
#[verifier::external_body]
fn new_entity_cache<Entity: Clone + Send + Sync + 'static>(max_capacity: u64) -> (r: EntityCache<Entity>) {
    Cache::new(max_capacity)
}

/// Relies on `moka::sync::Cache::get`: a copy of what was last stored under
/// `key`, unless it was evicted since.
#[verifier::external_body]
fn cache_get<Entity: Clone + Send + Sync + 'static>(cache: &EntityCache<Entity>, key: &String) -> (r: Option<(Entity, Version)>) {
    cache.get(key)
}

/// Relies on `moka::sync::Cache::insert`: stores `value` under `key`.
#[verifier::external_body]
fn cache_insert<Entity: Clone + Send + Sync + 'static>(cache: &EntityCache<Entity>, key: String, value: (Entity, Version)) {
    cache.insert(key, value)
}

/// A second projection for a message type that already has one.
#[derive(Debug)]
pub struct DuplicateProjectionError {
    pub message_type: String,
}

impl DuplicateProjectionError {
    pub fn new(message_type: String) -> (r: Self)
        ensures
            r.message_type == message_type,
    {
        DuplicateProjectionError { message_type }
    }

    /// The sentence that reports the error.
    pub fn description(&self) -> (r: String)
        ensures
            r@ == "A projection that recieves "@ + self.message_type@ + " already exists"@,
    {
        let mut r = String::from_str("A projection that recieves ");
        r.append(self.message_type.as_str());
        r.append(" already exists");
        r
    }
}

/// Folds one message into an entity.
pub trait Projection<Entity> {
    /// The entity after this projection took `message_data`. An implementation
    /// outside verified code defines it as `apply` on a copy of the entity.
    spec fn applied(&self, entity: Entity, message_data: MessageData) -> Entity;

    fn apply(&self, entity: &mut Entity, message_data: &MessageData)
        ensures
            *final(entity) == self.applied(*old(entity), *message_data),
    ;
}

/// The entity after one step of handling `message_data`: the typed projection at
/// an index, or the catchall.
pub open spec fn step_applied<Entity, P: Projection<Entity>>(
    projections: HandlerCollection<P>,
    step: DispatchStep,
    entity: Entity,
    message_data: MessageData,
) -> Entity {
    match step {
        DispatchStep::Handler(h) => if h < projections.handlers@.len() {
            projections.handlers@[h as int].1.applied(entity, message_data)
        } else {
            entity
        },
        DispatchStep::Catchall => match projections.catchall {
            Some(c) => c.applied(entity, message_data),
            None => entity,
        },
    }
}

/// The entity after the steps, in order.
pub open spec fn steps_applied<Entity, P: Projection<Entity>>(
    projections: HandlerCollection<P>,
    steps: Seq<DispatchStep>,
    entity: Entity,
    message_data: MessageData,
) -> Entity
    decreases steps.len(),
{
    if steps.len() == 0 {
        entity
    } else {
        step_applied(
            projections,
            steps.last(),
            steps_applied(projections, steps.drop_last(), entity, message_data),
            message_data,
        )
    }
}

/// The entity after `message_data`: its typed projection, if any, then the
/// catchall, if any.
pub open spec fn message_applied<Entity, P: Projection<Entity>>(
    projections: HandlerCollection<P>,
    entity: Entity,
    message_data: MessageData,
) -> Entity {
    steps_applied(projections, projections.steps_for(message_data.message_type@), entity, message_data)
}

/// The entity after `messages`, one after the other.
pub open spec fn folded<Entity, P: Projection<Entity>>(
    projections: HandlerCollection<P>,
    entity: Entity,
    messages: Seq<MessageData>,
) -> Entity
    decreases messages.len(),
{
    if messages.len() == 0 {
        entity
    } else {
        message_applied(projections, folded(projections, entity, messages.drop_last()), messages.last())
    }
}

/// Where to read a stream from to bring an entity cached at `cached` up to the
/// store's `current` version: nowhere when they agree.
pub open spec fn read_start(cached: Version, current: Version) -> Option<i64> {
    if cached == current {
        None
    } else {
        Some((cached.0 + 1) as i64)
    }
}

/// The version of an entity at `version` after the messages at `positions`.
pub open spec fn folded_version(version: Version, positions: Seq<i64>) -> Version {
    if positions.len() == 0 {
        version
    } else {
        Version(positions.last())
    }
}

/// The stream positions of messages read from the store.
pub open spec fn stream_positions(messages: Seq<MessageData>) -> Seq<i64> {
    messages.map_values(|m: MessageData| m.metadata.position.unwrap())
}

/// Builds entities of one category from their streams, through the projections
/// for each message type, and keeps them cached with their version.
#[verifier::reject_recursive_types(Entity)]
pub struct EntityStore<Entity, P> {
    pub projections: HandlerCollection<P>,
    pub category: Category,
    pub cache: EntityCache<Entity>,
}

impl<Entity: Clone + Send + Sync + Default + 'static, P: Projection<Entity>> EntityStore<Entity, P> {
    pub open spec fn wf(&self) -> bool {
        self.projections.wf()
    }

    /// A store for `category` on `cache`, with no projection yet.
    pub fn new(category: Category, cache: EntityCache<Entity>) -> (r: Self)
        ensures
            r.wf(),
            r.category == category,
            r.cache == cache,
            r.projections.handlers@.len() == 0,
            r.projections.catchall is None,
    {
        EntityStore { projections: HandlerCollection::new(), category, cache }
    }

    /// A store for `category` on a cache of its own, of the usual capacity, with no
    /// projection yet.
    pub fn build(category: Category) -> (r: Self)
        ensures
            r.wf(),
            r.category == category,
            r.projections.handlers@.len() == 0,
            r.projections.catchall is None,
    {
        Self::new(category, new_entity_cache(ENTITY_CACHE_CAPACITY))
    }

    /// Sets the projection that takes every message after the typed one.
    pub fn catchall(&mut self, catchall: P) -> (r: &mut Self)
        ensures
            r.category == old(self).category,
            r.cache == old(self).cache,
            r.projections.handlers == old(self).projections.handlers,
            r.projections.catchall == Some(catchall),
            *final(self) == *final(r),
    {
        self.projections.set_catchall(catchall);
        self
    }

    /// Adds the projection for `message_type`; where that type has one already,
    /// fails and leaves the store as it was.
    pub fn insert_projection(&mut self, message_type: String, projection: P) -> (r: Result<(), DuplicateProjectionError>)
        requires
            old(self).wf(),
        ensures
            final(self).wf(),
            final(self).category == old(self).category,
            final(self).cache == old(self).cache,
            old(self).projections.keys().contains(message_type@) <==> r is Err,
            r matches Err(e) ==> e.message_type@ == message_type@ && *final(self) == *old(self),
            r is Ok ==> final(self).projections.handlers@ == old(self).projections.handlers@.push(
                (message_type, projection),
            ) && final(self).projections.catchall == old(self).projections.catchall,
    {
        match self.projections.insert(message_type, projection) {
            Ok(()) => Ok(()),
            Err(e) => Err(DuplicateProjectionError::new(e.0)),
        }
    }

    /// Adds all of `projections` or none: fails where a type has a projection
    /// already or comes twice among them.
    pub fn extend_projections(&mut self, projections: Vec<(String, P)>) -> (r: Result<(), DuplicateProjectionError>)
        requires
            old(self).wf(),
        ensures
            final(self).wf(),
            final(self).category == old(self).category,
            final(self).cache == old(self).cache,
            r is Ok <==> (keys_of(projections@).no_duplicates() && forall|i: int|
                0 <= i < projections@.len() ==> !old(self).projections.keys().contains(
                    #[trigger] keys_of(projections@)[i],
                )),
            r matches Err(e) ==> *final(self) == *old(self) && exists|i: int|
                first_clash(old(self).projections.keys(), keys_of(projections@), i)
                    && #[trigger] keys_of(projections@)[i] == e.message_type@,
            r is Ok ==> final(self).projections.handlers@ == old(self).projections.handlers@
                + projections@ && final(self).projections.catchall
                == old(self).projections.catchall,
    {
        match self.projections.extend(projections) {
            Ok(()) => Ok(()),
            Err(e) => Err(DuplicateProjectionError::new(e.0)),
        }
    }

    /// The name of the stream of `stream_id`, and the entity cached for it with its
    /// version; a new entity at the initial version where none is cached.
    pub fn cached(&self, stream_id: StreamID) -> (r: (StreamName, Entity, Version))
        ensures
            r.0@ == compose(self.category@, ID_SEPARATOR, stream_id@),
    {
        let stream_name = self.category.stream_name(stream_id);
        match cache_get(&self.cache, &stream_name.0) {
            Some((entity, version)) => (stream_name, entity, version),
            None => (stream_name, Entity::default(), Version::initial()),
        }
    }

    /// Where to read the stream from, given the cached version and the store's.
    pub fn read_start(cached: Version, current: Version) -> (r: Option<i64>)
        requires
            cached.0 < i64::MAX,
        ensures
            r == read_start(cached, current),
    {
        if cached == current {
            None
        } else {
            Some(cached.0 + 1)
        }
    }

    /// Folds `messages`, read in stream order, into `entity`: each sets the version
    /// to its position, then goes through the projection for its type, if any, and
    /// then through the catchall, if any.
    pub fn project(&self, entity: &mut Entity, start: Version, messages: &Vec<MessageData>) -> (r: Version)
        requires
            self.wf(),
            forall|i: int| 0 <= i < messages@.len() ==> (#[trigger] messages@[i]).metadata.position is Some,
        ensures
            r == folded_version(start, stream_positions(messages@)),
            *final(entity) == folded(self.projections, *old(entity), messages@),
    {
        let ghost first = *entity;
        let mut version = start;
        let mut i: usize = 0;
        assert(messages@.subrange(0, 0) =~= Seq::<MessageData>::empty());
        while i < messages.len()
            invariant
                self.wf(),
                i <= messages@.len(),
                *entity == folded(self.projections, first, messages@.subrange(0, i as int)),
                forall|k: int| 0 <= k < messages@.len() ==> (#[trigger] messages@[k]).metadata.position is Some,
                i > 0 ==> version == Version(stream_positions(messages@)[i - 1]),
                i == 0 ==> version == start,
            decreases messages@.len() - i,
        {
            let message = &messages[i];
            version = Version(match message.metadata.position {
                Some(p) => p,
                None => 0,
            });
            let steps = self.projections.dispatch_plan(message.message_type.as_str());
            let ghost before = *entity;
            let mut k: usize = 0;
            assert(steps@.subrange(0, 0) =~= Seq::<DispatchStep>::empty());
            while k < steps.len()
                invariant
                    self.wf(),
                    k <= steps@.len(),
                    steps@ == self.projections.steps_for(message.message_type@),
                    *entity == steps_applied(self.projections, steps@.subrange(0, k as int), before, *message),
                decreases steps@.len() - k,
            {
                assert(steps@.subrange(0, k + 1).drop_last() =~= steps@.subrange(0, k as int));
                match steps[k] {
                    DispatchStep::Handler(h) => {
                        proof {
                            let keys = self.projections.keys();
                            let t = message.message_type@;
                            let j = keys.index_of(t);
                            assert(0 <= j < keys.len() && keys[j] == t);
                            assert(h == j as usize);
                        }
                        self.projections.handler(h).apply(entity, message);
                    },
                    DispatchStep::Catchall => {
                        match self.projections.catchall() {
                            Some(c) => c.apply(entity, message),
                            None => {},
                        }
                    },
                }
                k = k + 1;
            }
            assert(steps@.subrange(0, steps@.len() as int) =~= steps@);
            assert(messages@.subrange(0, i + 1).drop_last() =~= messages@.subrange(0, i as int));
            i = i + 1;
        }
        assert(messages@.subrange(0, messages@.len() as int) =~= messages@);
        version
    }

    /// Caches `entity` at `version` under `stream_name`.
    pub fn remember(&self, stream_name: StreamName, entity: Entity, version: Version) {
        cache_insert(&self.cache, stream_name.0, (entity, version));
    }
}

/// A message goes through the projection for its type and then through the
/// catchall: typed projections apply before the catchall, message by message.
pub proof fn lemma_typed_before_catchall<Entity, P: Projection<Entity>>(
    projections: HandlerCollection<P>,
    entity: Entity,
    message_data: MessageData,
    i: int,
)
    requires
        projections.wf(),
        0 <= i < projections.handlers@.len(),
        projections.keys()[i] == message_data.message_type@,
    ensures
        message_applied(projections, entity, message_data) == match projections.catchall {
            Some(c) => c.applied(projections.handlers@[i].1.applied(entity, message_data), message_data),
            None => projections.handlers@[i].1.applied(entity, message_data),
        },
{
    let keys = projections.keys();
    let t = message_data.message_type@;
    assert(keys.contains(t));
    let j = keys.index_of(t);
    assert(keys[j] == t);
    assert(j == i);
    let steps = projections.steps_for(t);
    let first = seq![DispatchStep::Handler(i as usize)];
    assert(first.drop_last() =~= Seq::<DispatchStep>::empty());
    assert((i as usize) as int == i);
    let typed = projections.handlers@[i].1.applied(entity, message_data);
    assert(steps_applied(projections, Seq::<DispatchStep>::empty(), entity, message_data) == entity);
    assert(steps_applied(projections, first, entity, message_data) == typed);
    if projections.catchall is Some {
        assert(steps =~= first.push(DispatchStep::Catchall));
        assert(steps.drop_last() =~= first);
    } else {
        assert(steps =~= first);
    }
}

/// Once an entity was folded up to the store's version, fetching it again before
/// anything new is written reads nothing past the version check.
pub proof fn lemma_fetch_idempotent(cached: Version, current: Version, positions: Seq<i64>)
    requires
        read_start(cached, current) is Some ==> positions.len() > 0 && positions.last() == current.0,
    ensures
        read_start(
            if read_start(cached, current) is Some { folded_version(cached, positions) } else { cached },
            current,
        ) is None,
{
}

} // verus!
