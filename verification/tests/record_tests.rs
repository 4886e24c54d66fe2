use asynclog::{Configuration, Context, Level, Log, LogError, Payload, Timestamp};

fn context_named(name: &str) -> (Context, flume::Receiver<std::sync::Arc<Log>>) {
    let (sender, receiver) = flume::unbounded();
    let mut ctx = Context::new();
    ctx.enter_scope(Configuration::named(name, sender));
    (ctx, receiver)
}

fn entries_eq_without_timestamps(a: &Log, b: &Log) -> bool {
    a.level == b.level
        && a.process == b.process
        && a.message == b.message
        && payload_eq(&a.payload, &b.payload)
}

fn payload_eq(a: &Payload, b: &Payload) -> bool {
    if a.len() != b.len() {
        return false;
    }
    for entry in &a.entries {
        match b.get(&entry.key) {
            Some(v) => {
                if *v != entry.value {
                    return false;
                }
            }
            None => return false,
        }
    }
    true
}

fn expected(level: Level, process: &str, message: &str, payload: Payload) -> Log {
    Log {
        level,
        process: String::from(process),
        message: String::from(message),
        timestamp: Timestamp::new(0, 0).unwrap(),
        payload,
    }
}

fn string_value(s: &str) -> serde_json::Value {
    serde_json::Value::String(String::from(s))
}

fn payload_of(pairs: &[(&str, &str)]) -> Payload {
    let mut p = Payload::new();
    for (k, v) in pairs {
        p.entries.push(asynclog::PayloadEntry {
            key: String::from(*k),
            value: string_value(v),
        });
    }
    p
}

#[test]
fn entry_building_tests() {
    let (ctx, _receiver) = context_named("entry_building_tests");

    assert!(entries_eq_without_timestamps(
        &Log::debug(&ctx, String::from("A")).unwrap(),
        &expected(Level::Debug, "entry_building_tests", "A", Payload::new()),
    ));

    assert!(entries_eq_without_timestamps(
        &Log::info(&ctx, String::from("A")).unwrap(),
        &expected(Level::Info, "entry_building_tests", "A", Payload::new()),
    ));

    assert!(entries_eq_without_timestamps(
        &Log::warning(&ctx, String::from("B")).unwrap(),
        &expected(Level::Warning, "entry_building_tests", "B", Payload::new()),
    ));

    assert!(entries_eq_without_timestamps(
        &Log::error(&ctx, String::from("B"))
            .unwrap()
            .with(String::from("key"), string_value("value"))
            .unwrap(),
        &expected(
            Level::Error,
            "entry_building_tests",
            "B",
            payload_of(&[("key", "value")]),
        ),
    ));

    assert!(entries_eq_without_timestamps(
        &Log::trace(&ctx, String::from("B"))
            .unwrap()
            .with(String::from("key"), string_value("value"))
            .unwrap()
            .with(String::from("key2"), string_value("value2"))
            .unwrap(),
        &expected(
            Level::Trace,
            "entry_building_tests",
            "B",
            payload_of(&[("key", "value"), ("key2", "value2")]),
        ),
    ));

    assert!(Log::trace(&ctx, String::from("B"))
        .unwrap()
        .with(String::from("key"), string_value("value"))
        .unwrap()
        .with(String::from("key"), string_value("value"))
        .is_err());
}

#[test]
fn duplicate_key_leaves_payload_unchanged() {
    let (ctx, _receiver) = context_named("duplicate_key");
    let mut log = Log::info(&ctx, String::from("msg")).unwrap();
    assert!(log.add(String::from("key"), string_value("value")).is_ok());
    let second = log.add(String::from("key"), string_value("other"));
    assert_eq!(second, Err(LogError::DuplicateKey));
    assert_eq!(log.payload.len(), 1);
    assert_eq!(
        log.payload.get(&String::from("key")),
        Some(&string_value("value"))
    );
}

#[test]
fn constructor_without_configuration_fails() {
    let ctx = Context::new();
    assert!(Log::info(&ctx, String::from("A")).is_err());
    assert!(matches!(
        Log::new(&ctx, Level::Error, String::from("A")),
        Err(LogError::Unresolved)
    ));
}

#[test]
fn constructor_stamps_wall_clock() {
    let (ctx, _receiver) = context_named("clock");
    let log = Log::info(&ctx, String::from("A")).unwrap();
    assert!(log.is_wf());
    assert!(log.timestamp.secs > 1_000_000_000);
}

#[test]
fn timestamp_rejects_out_of_range_parts() {
    assert!(Timestamp::new(-1, 0).is_none());
    assert!(Timestamp::new(0, 1_000_000_000).is_none());
    assert!(Timestamp::new(asynclog::MAX_TIMESTAMP_SECS + 1, 0).is_none());
    let t = Timestamp::new(asynclog::MAX_TIMESTAMP_SECS, 999_999_999).unwrap();
    assert_eq!(t.secs, asynclog::MAX_TIMESTAMP_SECS);
    assert_eq!(t.nanos, 999_999_999);
}

#[test]
fn severity_order_is_preserved() {
    assert!(Level::Trace < Level::Debug);
    assert!(Level::Debug < Level::Info);
    assert!(Level::Info < Level::Warning);
    assert!(Level::Warning < Level::Error);
    assert!(Level::Error.at_least(Level::Warning));
    assert!(Level::Warning.at_least(Level::Warning));
    assert!(!Level::Info.at_least(Level::Warning));
}
