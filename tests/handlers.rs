use aqueous::handler::{DispatchStep, DuplicateHandlerError, FunctionHandler, HandlerCollection};

fn collection() -> HandlerCollection<&'static str> {
    let mut c = HandlerCollection::new();
    c.insert(String::from("Opened"), "opened").unwrap();
    c.insert(String::from("Deposited"), "deposited").unwrap();
    c
}

#[test]
fn duplicate_handler_is_rejected_and_collection_kept() {
    let mut c = collection();
    let e = c.insert(String::from("Opened"), "again").unwrap_err();
    assert_eq!(e.message_type(), "Opened");
    assert_eq!(c.handlers.len(), 2);
    assert_eq!(c.handlers[0], (String::from("Opened"), "opened"));
    assert_eq!(c.handlers[1], (String::from("Deposited"), "deposited"));
}

#[test]
fn extend_is_all_or_nothing() {
    let mut c = collection();
    let e = c
        .extend(vec![(String::from("Closed"), "closed"), (String::from("Deposited"), "d2")])
        .unwrap_err();
    assert_eq!(e.0, "Deposited");
    assert_eq!(c.handlers.len(), 2);
    let e = c
        .extend(vec![(String::from("Closed"), "closed"), (String::from("Closed"), "c2")])
        .unwrap_err();
    assert_eq!(e.0, "Closed");
    assert_eq!(c.handlers.len(), 2);
    c.extend(vec![(String::from("Closed"), "closed"), (String::from("Withdrawn"), "w")]).unwrap();
    assert_eq!(c.handlers.len(), 4);
    assert!(c.contains("Withdrawn"));
    assert_eq!(c.find("Closed"), Some(2));
}

#[test]
fn typed_handler_runs_before_catchall() {
    let mut c = collection();
    c.set_catchall("all");
    assert_eq!(c.dispatch_plan("Deposited"), vec![DispatchStep::Handler(1), DispatchStep::Catchall]);
    assert_eq!(c.dispatch_plan("Closed"), vec![DispatchStep::Catchall]);
    assert_eq!(*c.handler(1), "deposited");
    assert_eq!(c.catchall(), Some(&"all"));
}

#[test]
fn message_without_handler_is_not_dispatched() {
    let c = collection();
    assert_eq!(c.dispatch_plan("Opened"), vec![DispatchStep::Handler(0)]);
    assert!(c.dispatch_plan("Closed").is_empty());
    assert!(c.catchall().is_none());
}

#[test]
fn function_handler_takes_only_its_type() {
    let handler: FunctionHandler<(), (), fn()> = FunctionHandler::new(|| {}, String::from("Deposited"));
    assert_eq!(handler.message_type(), "Deposited");
    assert!(handler.handles("Deposited"));
    assert!(!handler.handles("Withdrawn"));
    assert!(!handler.handles("deposited"));
}

#[test]
fn duplicate_handler_description() {
    let e = DuplicateHandlerError::new(String::from("Opened"));
    assert_eq!(e.description(), "A handler that recieves Opened already exists");
}
