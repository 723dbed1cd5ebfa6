use aqueous::consumer::{Consumer, Subscription};
use aqueous::entity_store::{EntityStore, Projection};
use aqueous::handler::DispatchStep;
use aqueous::message::{MessageData, Metadata};
use aqueous::message_store::{Error, Version, WriteMessages};
use aqueous::stream_name::{Category, StreamID, StreamName};
use serde_json::Value;

struct Stored {
    stream: String,
    message_type: String,
    data: String,
    position: i64,
    global_position: i64,
}

/// A message store kept in memory, with the semantics of its procedures.
#[derive(Default)]
struct MemoryStore {
    messages: Vec<Stored>,
    stream_reads: usize,
}

impl MemoryStore {
    fn stream_version(&self, stream: &str) -> Option<i64> {
        self.messages.iter().filter(|m| m.stream == stream).map(|m| m.position).max()
    }

    fn write(&mut self, stream: &StreamName, write: &mut WriteMessages<()>) -> Result<i64, Error> {
        let calls = write.calls();
        let mut version = Version::from_stream_version(self.stream_version(&stream.0)).0;
        let mut staged = Vec::new();
        for call in calls {
            if let Some(expected) = call.expected_version {
                if expected != version {
                    let m = format!(
                        "Wrong expected version: {} (Stream: {}, Stream Version: {})",
                        expected, stream.0, version
                    );
                    return Err(Error::classify(Some(&m), false, String::from("error returned from database")));
                }
            }
            version += 1;
            let message = &write.options.messages[call.message];
            staged.push((message.message_type.clone(), message.data.clone(), version));
        }
        for (message_type, data, position) in staged {
            let global_position = self.messages.len() as i64 + 1;
            self.messages.push(Stored { stream: stream.0.clone(), message_type, data, position, global_position });
        }
        Ok(version)
    }

    fn read(m: &Stored) -> MessageData {
        let metadata = Metadata::new()
            .set_stream_name(StreamName::new(&m.stream))
            .set_position(m.position)
            .set_global_position(m.global_position);
        MessageData::new(m.message_type.clone(), m.data.clone(), metadata)
    }

    fn get_stream(&mut self, stream: &str, from: i64) -> Vec<MessageData> {
        self.stream_reads += 1;
        self.messages.iter().filter(|m| m.stream == stream && m.position >= from).map(Self::read).collect()
    }

    fn get_category(&self, category: &str, from: i64, batch_size: i64) -> Vec<MessageData> {
        self.messages
            .iter()
            .filter(|m| StreamName::new(&m.stream).category().0 == category && m.global_position >= from)
            .take(batch_size as usize)
            .map(Self::read)
            .collect()
    }

    fn get_last(&self, stream: &str) -> Option<MessageData> {
        self.messages.iter().filter(|m| m.stream == stream).last().map(Self::read)
    }
}

#[derive(Clone, Debug, PartialEq)]
struct Account {
    id: String,
    customer_id: String,
    opened_time: Option<String>,
    balance: i64,
    sequence: i64,
}

impl Default for Account {
    fn default() -> Self {
        Account { id: String::new(), customer_id: String::new(), opened_time: None, balance: 0, sequence: -1 }
    }
}

struct AccountProjection(fn(&mut Account, &Value));

impl Projection<Account> for AccountProjection {
    fn applied(&self, entity: Account, message_data: MessageData) -> Account {
        let mut entity = entity;
        self.apply(&mut entity, &message_data);
        entity
    }

    fn apply(&self, entity: &mut Account, message_data: &MessageData) {
        let data: Value = serde_json::from_str(&message_data.data).unwrap();
        (self.0)(entity, &data)
    }
}

fn text(data: &Value, key: &str) -> String {
    data[key].as_str().unwrap().to_string()
}

fn number(data: &Value, key: &str) -> i64 {
    data[key].as_i64().unwrap()
}

fn apply_opened(account: &mut Account, data: &Value) {
    account.id = text(data, "account_id");
    account.customer_id = text(data, "customer_id");
    account.opened_time = Some(text(data, "time"));
}

fn apply_deposited(account: &mut Account, data: &Value) {
    account.id = text(data, "account_id");
    account.balance += number(data, "amount");
    account.sequence = number(data, "sequence");
}

fn apply_withdrawn(account: &mut Account, data: &Value) {
    account.id = text(data, "account_id");
    account.balance -= number(data, "amount");
    account.sequence = number(data, "sequence");
}

fn apply_rejected(account: &mut Account, data: &Value) {
    account.id = text(data, "account_id");
    account.sequence = number(data, "sequence");
}

struct World {
    store: MemoryStore,
    accounts: EntityStore<Account, AccountProjection>,
    recorded: Vec<i64>,
}

fn world() -> World {
    let mut accounts = EntityStore::build(Category::new("account"));
    accounts
        .extend_projections(vec![
            (String::from("Opened"), AccountProjection(apply_opened)),
            (String::from("Deposited"), AccountProjection(apply_deposited)),
            (String::from("Withdrawn"), AccountProjection(apply_withdrawn)),
            (String::from("WithdrawalRejected"), AccountProjection(apply_rejected)),
        ])
        .unwrap();
    World { store: MemoryStore::default(), accounts, recorded: Vec::new() }
}

fn fetch(world: &mut World, id: &str) -> (Account, Version) {
    let (stream_name, mut entity, version) = world.accounts.cached(StreamID::new(id));
    let current = Version::from_stream_version(world.store.stream_version(&stream_name.0));
    match EntityStore::<Account, AccountProjection>::read_start(version, current) {
        None => (entity, version),
        Some(from) => {
            let messages = world.store.get_stream(&stream_name.0, from);
            let version = world.accounts.project(&mut entity, version, &messages);
            world.accounts.remember(stream_name, entity.clone(), version);
            (entity, version)
        }
    }
}

fn write_one(world: &mut World, stream: &str, message_type: &str, data: String, expected: Option<Version>) -> Result<i64, Error> {
    let mut write = WriteMessages::build(());
    write.add_message(MessageData::new(String::from(message_type), data, Metadata::new()));
    if let Some(v) = expected {
        write.expected_version(v);
    }
    world.store.write(&StreamName::new(stream), &mut write)
}

type Handler = fn(&mut World, &MessageData);

fn handle_open(world: &mut World, m: &MessageData) {
    let data: Value = serde_json::from_str(&m.data).unwrap();
    let id = text(&data, "account_id");
    let (account, version) = fetch(world, &id);
    if account.opened_time.is_some() {
        return;
    }
    let opened = format!(
        "{{\"account_id\":\"{}\",\"customer_id\":\"{}\",\"time\":\"{}\",\"processed_time\":\"T2\"}}",
        id,
        text(&data, "customer_id"),
        text(&data, "time")
    );
    let stream = Category::new("account").stream_name(StreamID::new(&id));
    write_one(world, &stream.0, "Opened", opened, Some(version)).unwrap();
}

fn handle_transaction_command(world: &mut World, m: &MessageData) {
    let data: Value = serde_json::from_str(&m.data).unwrap();
    let stream = Category::new("accountTransaction").stream_name(StreamID::new(&text(&data, "transaction_id")));
    let result = write_one(world, &stream.0, &m.message_type, m.data.clone(), Some(Version::initial()));
    match result {
        Ok(_) | Err(Error::WrongExpectedVersion(_)) => {}
        Err(e) => panic!("{}", e.message()),
    }
}

fn handle_deposit(world: &mut World, m: &MessageData) {
    let data: Value = serde_json::from_str(&m.data).unwrap();
    let id = text(&data, "account_id");
    let (account, version) = fetch(world, &id);
    let sequence = m.metadata.global_position().unwrap();
    if account.sequence >= sequence {
        return;
    }
    let deposited = format!("{{\"account_id\":\"{}\",\"amount\":{},\"sequence\":{}}}", id, number(&data, "amount"), sequence);
    let stream = Category::new("account").stream_name(StreamID::new(&id));
    write_one(world, &stream.0, "Deposited", deposited, Some(version)).unwrap();
}

fn handle_withdraw(world: &mut World, m: &MessageData) {
    let data: Value = serde_json::from_str(&m.data).unwrap();
    let id = text(&data, "account_id");
    let (account, version) = fetch(world, &id);
    let sequence = m.metadata.global_position().unwrap();
    if account.sequence >= sequence {
        return;
    }
    let amount = number(&data, "amount");
    let event = format!("{{\"account_id\":\"{}\",\"amount\":{},\"sequence\":{}}}", id, amount, sequence);
    let message_type = if account.balance >= amount { "Withdrawn" } else { "WithdrawalRejected" };
    let stream = Category::new("account").stream_name(StreamID::new(&id));
    write_one(world, &stream.0, message_type, event, Some(version)).unwrap();
}

fn command_consumer() -> Consumer<Handler> {
    Consumer::new(Category::new_command("account"))
        .extend_handlers(vec![
            (String::from("Open"), handle_open as Handler),
            (String::from("Deposit"), handle_transaction_command as Handler),
            (String::from("Withdraw"), handle_transaction_command as Handler),
        ])
        .unwrap()
}

fn transaction_consumer() -> Consumer<Handler> {
    Consumer::new(Category::new("accountTransaction"))
        .extend_handlers(vec![
            (String::from("Deposit"), handle_deposit as Handler),
            (String::from("Withdraw"), handle_withdraw as Handler),
        ])
        .unwrap()
}

fn recorded_position(world: &World, consumer: &Consumer<Handler>) -> Option<i64> {
    let last = world.store.get_last(&consumer.position_stream_name().0)?;
    let data: Value = serde_json::from_str(&last.data).ok()?;
    data["position"].as_i64()
}

/// Polls once and dispatches what the subscription hands on; returns the global
/// positions dispatched.
fn poll(world: &mut World, consumer: &mut Consumer<Handler>, subscription: &mut Subscription) -> Vec<i64> {
    let get = consumer.category_read((), subscription.read_position());
    let (from, batch_size) = get.arguments();
    let batch = world.store.get_category(&consumer.category.0, from, batch_size);
    let mask = subscription.select(&batch);
    let mut dispatched = Vec::new();
    for (message, send) in batch.iter().zip(mask) {
        if !send {
            continue;
        }
        let global_position = message.metadata.global_position().unwrap();
        let plan = consumer.dispatch_plan(&message.message_type);
        for step in plan.iter() {
            match step {
                DispatchStep::Handler(i) => (consumer.handlers.handler(*i))(world, message),
                DispatchStep::Catchall => (consumer.handlers.catchall().unwrap())(world, message),
            }
        }
        assert!(consumer.accepts(!plan.is_empty()));
        dispatched.push(global_position);
        if let Some(recorded) = consumer.update_position(global_position) {
            let data = format!("{{\"position\":{}}}", recorded.position);
            write_one(world, &consumer.position_stream_name().0, "Recorded", data, None).unwrap();
            world.recorded.push(recorded.position);
        }
    }
    dispatched
}

fn command(world: &mut World, stream: &str, message_type: &str, data: &str) {
    write_one(world, stream, message_type, String::from(data), None).unwrap();
}

#[test]
fn account_open() {
    let mut w = world();
    command(&mut w, "account:command-A", "Open", "{\"account_id\":\"A\",\"customer_id\":\"C\",\"time\":\"T\"}");
    let mut consumer = command_consumer();
    let mut subscription = Subscription::new(100, None);
    poll(&mut w, &mut consumer, &mut subscription);
    let (account, version) = fetch(&mut w, "A");
    assert_eq!(
        account,
        Account {
            id: String::from("A"),
            customer_id: String::from("C"),
            opened_time: Some(String::from("T")),
            balance: 0,
            sequence: -1
        }
    );
    assert_eq!(version, Version(0));
}

#[test]
fn idempotent_deposit() {
    let mut w = world();
    let deposit = "{\"transaction_id\":\"D\",\"account_id\":\"A\",\"amount\":10}";
    command(&mut w, "account:command-A", "Deposit", deposit);
    command(&mut w, "account:command-A", "Deposit", deposit);
    let mut commands = command_consumer();
    let mut subscription = Subscription::new(100, None);
    poll(&mut w, &mut commands, &mut subscription);
    assert_eq!(w.store.stream_version("accountTransaction-D"), Some(0));
    let second = write_one(&mut w, "accountTransaction-D", "Deposit", String::from(deposit), Some(Version::initial()));
    assert!(matches!(second, Err(Error::WrongExpectedVersion(_))));
    let mut transactions = transaction_consumer();
    let mut transaction_subscription = Subscription::new(100, None);
    poll(&mut w, &mut transactions, &mut transaction_subscription);
    assert_eq!(fetch(&mut w, "A").0.balance, 10);
}

fn funded(amount: i64) -> World {
    let mut w = world();
    let deposit = format!("{{\"transaction_id\":\"D\",\"account_id\":\"A\",\"amount\":{}}}", amount);
    command(&mut w, "accountTransaction-D", "Deposit", &deposit);
    let mut transactions = transaction_consumer();
    let mut subscription = Subscription::new(100, None);
    poll(&mut w, &mut transactions, &mut subscription);
    w
}

#[test]
fn sufficient_funds_withdrawal() {
    let mut w = funded(10);
    command(&mut w, "accountTransaction-W", "Withdraw", "{\"transaction_id\":\"W\",\"account_id\":\"A\",\"amount\":7}");
    let g = w.store.messages.last().unwrap().global_position;
    let mut transactions = transaction_consumer();
    let mut subscription = Subscription::new(100, Some(g - 1));
    poll(&mut w, &mut transactions, &mut subscription);
    let last = w.store.get_last("account-A").unwrap();
    assert_eq!(last.message_type, "Withdrawn");
    let data: Value = serde_json::from_str(&last.data).unwrap();
    assert_eq!(number(&data, "sequence"), g);
    let (account, _) = fetch(&mut w, "A");
    assert_eq!(account.balance, 3);
    assert_eq!(account.sequence, g);
}

#[test]
fn insufficient_funds() {
    let mut w = funded(5);
    command(&mut w, "accountTransaction-W", "Withdraw", "{\"transaction_id\":\"W\",\"account_id\":\"A\",\"amount\":7}");
    let g = w.store.messages.last().unwrap().global_position;
    let mut transactions = transaction_consumer();
    let mut subscription = Subscription::new(100, Some(g - 1));
    poll(&mut w, &mut transactions, &mut subscription);
    assert_eq!(w.store.get_last("account-A").unwrap().message_type, "WithdrawalRejected");
    let (account, _) = fetch(&mut w, "A");
    assert_eq!(account.balance, 5);
    assert_eq!(account.sequence, g);
}

#[test]
fn duplicate_message_skipped() {
    let mut w = world();
    command(&mut w, "accountTransaction-D", "Deposit", "{\"transaction_id\":\"D\",\"account_id\":\"A\",\"amount\":10}");
    let message = w.store.get_last("accountTransaction-D").unwrap();
    handle_deposit(&mut w, &message);
    let written = w.store.messages.len();
    handle_deposit(&mut w, &message);
    assert_eq!(w.store.messages.len(), written);
    assert_eq!(fetch(&mut w, "A").0.balance, 10);
}

#[test]
fn position_persistence_and_restart() {
    let mut w = world();
    for i in 0..7 {
        let open = format!("{{\"account_id\":\"A{}\",\"customer_id\":\"C\",\"time\":\"T\"}}", i);
        command(&mut w, &format!("account:command-A{}", i), "Open", &open);
    }
    let command_globals: Vec<i64> = w.store.messages.iter().map(|m| m.global_position).collect();
    let mut consumer = command_consumer().position_update_interval(3);
    let mut subscription = Subscription::new(100, None);
    let dispatched = poll(&mut w, &mut consumer, &mut subscription);
    assert_eq!(dispatched, command_globals);
    assert_eq!(w.recorded, vec![command_globals[2], command_globals[5]]);
    let mut restarted = command_consumer().position_update_interval(3);
    let resume = recorded_position(&w, &restarted);
    assert_eq!(resume, Some(command_globals[5]));
    let mut resumed = Subscription::new(100, resume);
    let replayed = poll(&mut w, &mut restarted, &mut resumed);
    assert_eq!(replayed, vec![command_globals[6]]);
}

#[test]
fn batch_write_expects_consecutive_versions() {
    let mut w = world();
    let mut write = WriteMessages::build(());
    for i in 0..3 {
        write.add_message(MessageData::new(String::from("Deposited"), format!("{{\"n\":{}}}", i), Metadata::new()));
    }
    write.initial();
    assert_eq!(w.store.write(&StreamName::new("account-B"), &mut write).unwrap(), 2);
    let positions: Vec<i64> = w.store.messages.iter().map(|m| m.position).collect();
    assert_eq!(positions, vec![0, 1, 2]);
    let mut again = WriteMessages::build(());
    for i in 0..3 {
        again.add_message(MessageData::new(String::from("Deposited"), format!("{{\"n\":{}}}", i), Metadata::new()));
    }
    again.initial();
    assert!(matches!(w.store.write(&StreamName::new("account-B"), &mut again), Err(Error::WrongExpectedVersion(_))));
    assert_eq!(w.store.messages.len(), 3);
}

#[test]
fn fetch_twice_reads_once() {
    let mut w = world();
    write_one(&mut w, "account-A", "Opened", String::from("{\"account_id\":\"A\",\"customer_id\":\"C\",\"time\":\"T\"}"), None).unwrap();
    write_one(&mut w, "account-A", "Deposited", String::from("{\"account_id\":\"A\",\"amount\":4,\"sequence\":9}"), None).unwrap();
    let first = fetch(&mut w, "A");
    assert_eq!(w.store.stream_reads, 1);
    let second = fetch(&mut w, "A");
    assert_eq!(w.store.stream_reads, 1);
    assert_eq!(first, second);
    assert_eq!(second.1, Version(1));
    assert_eq!(second.0.balance, 4);
}

#[test]
fn fetch_of_unwritten_stream_reads_nothing() {
    let mut w = world();
    let (account, version) = fetch(&mut w, "Z");
    assert_eq!(account, Account::default());
    assert_eq!(version, Version::initial());
    assert_eq!(w.store.stream_reads, 0);
}
