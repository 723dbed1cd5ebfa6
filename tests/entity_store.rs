use aqueous::entity_store::{EntityStore, Projection, DuplicateProjectionError};
use aqueous::message::{MessageData, Metadata};
use aqueous::message_store::Version;
use aqueous::stream_name::{Category, StreamID};

#[derive(Clone, Debug, Default, PartialEq)]
struct Log {
    applied: Vec<String>,
}

struct Apply(&'static str);

impl Projection<Log> for Apply {
    fn applied(&self, entity: Log, message_data: MessageData) -> Log {
        let mut entity = entity;
        self.apply(&mut entity, &message_data);
        entity
    }

    fn apply(&self, entity: &mut Log, message_data: &MessageData) {
        entity.applied.push(format!("{}:{}", self.0, message_data.message_type));
    }
}

fn at(message_type: &str, position: i64) -> MessageData {
    MessageData::new(String::from(message_type), String::from("{}"), Metadata::new().set_position(position))
}

fn store() -> EntityStore<Log, Apply> {
    let mut store = EntityStore::build(Category::new("log"));
    store
        .extend_projections(vec![(String::from("A"), Apply("a")), (String::from("B"), Apply("b"))])
        .unwrap();
    store
}

#[test]
fn typed_projection_applies_before_catchall() {
    let mut store = store();
    store.catchall(Apply("all"));
    let mut entity = Log::default();
    let version = store.project(&mut entity, Version::initial(), &vec![at("A", 0), at("C", 1), at("B", 2)]);
    assert_eq!(version, Version(2));
    assert_eq!(entity.applied, vec!["a:A", "all:A", "all:C", "b:B", "all:B"]);
}

#[test]
fn projecting_nothing_keeps_the_version() {
    let store = store();
    let mut entity = Log::default();
    assert_eq!(store.project(&mut entity, Version(4), &Vec::new()), Version(4));
    assert!(entity.applied.is_empty());
}

#[test]
fn duplicate_projection_is_rejected_and_store_kept() {
    let mut store = store();
    let e: DuplicateProjectionError = store.insert_projection(String::from("A"), Apply("again")).unwrap_err();
    assert_eq!(e.message_type, "A");
    assert_eq!(e.description(), "A projection that recieves A already exists");
    assert_eq!(store.projections.handlers.len(), 2);
    let e = store
        .extend_projections(vec![(String::from("C"), Apply("c")), (String::from("B"), Apply("b2"))])
        .unwrap_err();
    assert_eq!(e.message_type, "B");
    assert_eq!(store.projections.handlers.len(), 2);
    store.insert_projection(String::from("C"), Apply("c")).unwrap();
    assert_eq!(store.projections.handlers.len(), 3);
}

#[test]
fn read_start_after_cached_version() {
    assert_eq!(EntityStore::<Log, Apply>::read_start(Version(3), Version(3)), None);
    assert_eq!(EntityStore::<Log, Apply>::read_start(Version::initial(), Version(2)), Some(0));
    assert_eq!(EntityStore::<Log, Apply>::read_start(Version(1), Version(5)), Some(2));
}

#[test]
fn cache_keeps_remembered_entity() {
    let store = store();
    let (name, entity, version) = store.cached(StreamID::new("7"));
    assert_eq!(name.0, "log-7");
    assert_eq!(entity, Log::default());
    assert_eq!(version, Version::initial());
    let remembered = Log { applied: vec![String::from("a:A")] };
    store.remember(name, remembered.clone(), Version(0));
    let (_, entity, version) = store.cached(StreamID::new("7"));
    assert_eq!(entity, remembered);
    assert_eq!(version, Version(0));
    let (_, other, other_version) = store.cached(StreamID::new("8"));
    assert_eq!(other, Log::default());
    assert_eq!(other_version, Version::initial());
}
