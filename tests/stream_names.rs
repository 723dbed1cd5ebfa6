use aqueous::stream_name::{Category, CategoryType, EntityID, StreamID, StreamName};

fn ids(v: &[StreamID]) -> Vec<String> {
    v.iter().map(|i| i.0.clone()).collect()
}

fn types(v: &[CategoryType]) -> Vec<String> {
    v.iter().map(|t| t.0.clone()).collect()
}

#[test]
fn split_stream_name_with_id() {
    let (category, id) = StreamName::new("account-123").split();
    assert_eq!(category.0, "account");
    assert_eq!(id.unwrap().0, "123");
}

#[test]
fn split_category_name() {
    let name = StreamName::new("account:command");
    let (category, id) = name.split();
    assert_eq!(category.0, "account:command");
    assert!(id.is_none());
    assert!(!name.has_id());
    assert!(name.ids().is_empty());
    assert!(name.cardinal_id().is_none());
}

#[test]
fn compound_ids() {
    let name = StreamName::new("account:command-A+B+C");
    assert!(name.has_id());
    assert_eq!(name.category().0, "account:command");
    assert_eq!(name.id().unwrap().0, "A+B+C");
    assert_eq!(ids(&name.ids()), vec!["A", "B", "C"]);
    assert_eq!(name.cardinal_id().unwrap().0, "A");
}

#[test]
fn later_id_separators_are_dropped() {
    let (category, id) = StreamName::new("a-b-c").split();
    assert_eq!(category.0, "a");
    assert_eq!(id.unwrap().0, "bc");
}

#[test]
fn empty_name_splits_into_empty_category() {
    let (category, id) = StreamName::new("").split();
    assert_eq!(category.0, "");
    assert!(id.is_none());
}

#[test]
fn from_parts_then_split_round_trip() {
    let cases = [("account", "1"), ("account:command", "A+B"), ("x", ""), ("", "id")];
    for (c, i) in cases {
        let name = StreamName::from_parts(Category::new(c), StreamID::new(i));
        assert_eq!(name.0, format!("{}-{}", c, i));
        let (category, id) = name.split();
        assert_eq!(category.0, c);
        assert_eq!(id.unwrap().0, i);
    }
}

#[test]
fn add_id_appends_to_compound_id() {
    let name = StreamName::new("account-A").add_id(StreamID::new("B"));
    assert_eq!(name.0, "account-A+B");
    assert_eq!(ids(&name.ids()), vec!["A", "B"]);
    let first = StreamName::new("account").add_id(StreamID::new("A"));
    assert_eq!(first.0, "account-A");
    assert_eq!(first.category().0, "account");
}

#[test]
fn stream_id_split_and_join() {
    let id = StreamID::new("a+b+c");
    let parts = id.split();
    assert_eq!(ids(&parts), vec!["a", "b", "c"]);
    assert_eq!(StreamID::join(&parts).0, "a+b+c");
    assert_eq!(StreamID::join(&Vec::new()).0, "");
    assert_eq!(ids(&StreamID::new("").split()), vec![""]);
    assert_eq!(ids(&StreamID::new("a++b").split()), vec!["a", "", "b"]);
}

#[test]
fn category_split_with_types() {
    let category = Category::new("account:command+position");
    let (entity_id, category_type) = category.split();
    assert_eq!(entity_id.0, "account");
    assert_eq!(category_type.unwrap().0, "command+position");
    assert_eq!(category.entity_id().0, "account");
    assert_eq!(types(&category.category_types()), vec!["command", "position"]);
    assert!(category.has_type());
}

#[test]
fn category_without_type() {
    let category = Category::new("account");
    assert!(!category.has_type());
    assert!(category.category_type().is_none());
    assert!(category.category_types().is_empty());
}

#[test]
fn add_type_to_category() {
    let category = Category::new("account").add_type(CategoryType::new("position"));
    assert_eq!(category.0, "account:position");
    let compound = Category::new("account:command").add_type(CategoryType::new("position"));
    assert_eq!(compound.0, "account:command+position");
    assert_eq!(types(&compound.category_types()), vec!["command", "position"]);
}

#[test]
fn new_command_category() {
    assert_eq!(Category::new_command("account").0, "account:command");
}

#[test]
fn category_from_parts_round_trip() {
    let category = Category::from_parts(EntityID::new("account"), CategoryType::new("command"));
    assert_eq!(category.0, "account:command");
    let (entity_id, category_type) = category.split();
    assert_eq!(entity_id.0, "account");
    assert_eq!(category_type.unwrap().0, "command");
}

#[test]
fn category_type_split_and_join() {
    let t = CategoryType::new("command+position");
    assert_eq!(types(&t.split()), vec!["command", "position"]);
    assert_eq!(CategoryType::join(&t.split()).0, "command+position");
}

#[test]
fn category_stream_name() {
    let name = Category::new("account").stream_name(StreamID::new("42"));
    assert_eq!(name.0, "account-42");
}

#[test]
fn non_ascii_names_split_by_characters() {
    let name = StreamName::new("konto:befehl-é+ü");
    assert_eq!(name.category().0, "konto:befehl");
    assert_eq!(ids(&name.ids()), vec!["é", "ü"]);
}

#[test]
fn equal_ids_are_kept_apart() {
    let name = StreamName::new("account-A+A").add_id(StreamID::new("A"));
    assert_eq!(ids(&name.ids()), vec!["A", "A", "A"]);
    assert_eq!(name.cardinal_id().unwrap().0, "A");
}

#[test]
fn empty_id_after_separator() {
    let name = StreamName::new("account-");
    assert!(name.has_id());
    assert_eq!(name.id().unwrap().0, "");
    assert_eq!(ids(&name.ids()), vec![""]);
    assert_eq!(name.add_id(StreamID::new("B")).0, "account-+B");
}
