use aqueous::message::{MessageData, Metadata};
use aqueous::stream_name::StreamName;

fn full_metadata() -> Metadata {
    Metadata::new()
        .set_stream_name(StreamName::new("account-1"))
        .set_position(3)
        .set_global_position(17)
        .set_time(String::from("2024-01-01T00:00:00"))
        .set_causation_message_stream_name("account:command-1")
        .set_causation_message_position(2)
        .set_causation_message_global_position(11)
        .set_correlation_stream_name("workflow-9")
        .set_reply_stream_name("reply-5")
        .set(String::from("schema"), String::from("\"v2\""))
}

#[test]
fn metadata_accessors_read_what_was_set() {
    let metadata = full_metadata();
    assert_eq!(metadata.position(), Some(3));
    assert_eq!(metadata.global_position(), Some(17));
    assert_eq!(metadata.stream_name().unwrap().0, "account-1");
    assert_eq!(metadata.time().unwrap(), "2024-01-01T00:00:00");
    assert_eq!(metadata.causation_message_stream_name().unwrap(), "account:command-1");
    assert_eq!(metadata.causation_message_position(), Some(2));
    assert_eq!(metadata.causation_message_global_position(), Some(11));
    assert_eq!(metadata.correlation_stream_name().unwrap(), "workflow-9");
    assert_eq!(metadata.reply_stream_name().unwrap(), "reply-5");
    assert_eq!(metadata.extra, vec![(String::from("schema"), String::from("\"v2\""))]);
    assert!(!metadata.is_empty());
}

#[test]
fn follow_drops_exactly_the_positional_keys() {
    let followed = Metadata::follow(full_metadata());
    assert!(followed.stream_name().is_none());
    assert!(followed.position().is_none());
    assert!(followed.global_position().is_none());
    assert!(followed.time().is_none());
    assert_eq!(followed.causation_message_stream_name().unwrap(), "account:command-1");
    assert_eq!(followed.causation_message_position(), Some(2));
    assert_eq!(followed.causation_message_global_position(), Some(11));
    assert_eq!(followed.correlation_stream_name().unwrap(), "workflow-9");
    assert_eq!(followed.reply_stream_name().unwrap(), "reply-5");
    assert_eq!(followed.extra.len(), 1);
}

#[test]
fn empty_metadata() {
    assert!(Metadata::new().is_empty());
    assert!(Metadata::default().is_empty());
    assert!(Metadata::follow(Metadata::new().set_position(1)).is_empty());
    assert!(!Metadata::new().set_global_position(1).is_empty());
}

#[test]
fn message_data_holds_its_parts() {
    let m = MessageData::new(String::from("Opened"), String::from("{}"), Metadata::new());
    assert_eq!(m.message_type, "Opened");
    assert_eq!(m.data, "{}");
    assert!(m.metadata.is_empty());
}

#[test]
fn set_replaces_an_extra_key() {
    let metadata = Metadata::new()
        .set(String::from("schema"), String::from("1"))
        .set(String::from("origin"), String::from("\"cli\""))
        .set(String::from("schema"), String::from("2"));
    assert_eq!(
        metadata.extra,
        vec![(String::from("schema"), String::from("2")), (String::from("origin"), String::from("\"cli\""))]
    );
}
