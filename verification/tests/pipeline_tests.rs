use asynclog::{
    fixed_width_level, Backend, BackendKind, Configuration, Context, Level, Log, LogError,
    Manager, Memory, Os, Payload, Timestamp,
};
use std::sync::Arc;

fn context_named(name: &str) -> (Context, flume::Receiver<Arc<Log>>) {
    let (sender, receiver) = flume::unbounded();
    let mut ctx = Context::new();
    ctx.enter_scope(Configuration::named(name, sender));
    (ctx, receiver)
}

fn record(level: Level, process: &str, message: &str, secs: i64) -> Arc<Log> {
    Arc::new(Log {
        level,
        process: String::from(process),
        message: String::from(message),
        timestamp: Timestamp::new(secs, 0).unwrap(),
        payload: Payload::new(),
    })
}

#[test]
fn send_test() {
    let test_backend = Memory::new(2);
    let (ctx, receiver) = context_named("send_test");

    Log::info(&ctx, String::from("A")).unwrap().submit(&ctx).unwrap();
    Log::info(&ctx, String::from("B")).unwrap().submit(&ctx).unwrap();
    Log::info(&ctx, String::from("A")).unwrap().submit(&ctx).unwrap();

    let batch: Vec<Arc<Log>> = receiver.try_iter().collect();
    let mut manager = Manager::new().with_backend(test_backend);
    manager.drain(&batch).unwrap();

    let entries = &manager.backends[0].entries;
    assert_eq!(entries.len(), 2);
    assert_eq!(entries[0].message, "A");
    assert_eq!(entries[1].message, "B");
}

#[test]
fn bounded_retention_keeps_most_recent_first() {
    let mut backend = Memory::new(3);
    for i in 0..7 {
        backend
            .process_log(&record(Level::Info, "p", &format!("m{i}"), 1))
            .unwrap();
    }
    assert_eq!(backend.entries.len(), 3);
    assert_eq!(backend.entries[0].message, "m6");
    assert_eq!(backend.entries[1].message, "m5");
    assert_eq!(backend.entries[2].message, "m4");
}

#[test]
fn submitted_records_reach_the_channel_in_order() {
    let (ctx, receiver) = context_named("fifo");
    Log::info(&ctx, String::from("first")).unwrap().submit(&ctx).unwrap();
    Log::warning(&ctx, String::from("second")).unwrap().submit(&ctx).unwrap();
    let first = receiver.try_recv().unwrap();
    let second = receiver.try_recv().unwrap();
    assert_eq!(first.message, "first");
    assert_eq!(first.process, "fifo");
    assert_eq!(second.message, "second");
    assert!(receiver.try_recv().is_err());
}

#[test]
fn submit_without_configuration_is_unresolved() {
    let ctx = Context::new();
    let (ctx_ok, _receiver) = context_named("tmp");
    let log = Log::info(&ctx_ok, String::from("A")).unwrap();
    assert_eq!(log.submit(&ctx), Err(LogError::Unresolved));
}

#[test]
fn submit_to_dropped_receiver_is_closed() {
    let (sender, receiver) = flume::unbounded();
    let mut ctx = Context::new();
    ctx.set_global(Configuration::named("closed", sender));
    drop(receiver);
    let log = Log {
        level: Level::Info,
        process: String::from("closed"),
        message: String::from("A"),
        timestamp: Timestamp::new(1, 0).unwrap(),
        payload: Payload::new(),
    };
    assert_eq!(log.submit(&ctx), Err(LogError::Closed));
}

#[test]
fn scoped_configuration_shadows_global() {
    let (global_sender, _g) = flume::unbounded();
    let (scoped_sender, _s) = flume::unbounded();
    let mut ctx = Context::new();
    assert!(ctx.current().is_none());
    ctx.set_global(Configuration::named("global", global_sender));
    assert_eq!(ctx.current().unwrap().process, "global");
    ctx.enter_scope(Configuration::named("scoped", scoped_sender));
    assert_eq!(ctx.current().unwrap().process, "scoped");
    ctx.exit_scope();
    assert_eq!(ctx.current().unwrap().process, "global");
}

#[test]
fn routing_sends_each_record_to_exactly_one_sink() {
    let mut os = Os::new();
    os.process_log(&record(Level::Info, "svc", "fine", 1)).unwrap();
    assert_eq!(os.default_sink.len(), 1);
    assert_eq!(os.elevated_sink.len(), 0);
    os.process_log(&record(Level::Error, "svc", "bad", 1)).unwrap();
    os.process_log(&record(Level::Warning, "svc", "hmm", 1)).unwrap();
    assert_eq!(os.default_sink.len(), 1);
    assert_eq!(os.elevated_sink.len(), 2);
    assert!(os.elevated_sink[0].contains("bad"));
    assert!(os.elevated_sink[1].contains("hmm"));
}

#[test]
fn warning_line_renders_on_the_elevated_sink() {
    let secs = 1_700_000_000;
    let mut os = Os::new();
    os.process_log(&record(Level::Warning, "svc", "disk low", secs)).unwrap();
    let ts = chrono::DateTime::<chrono::Utc>::from_timestamp(secs, 0)
        .unwrap()
        .to_rfc3339();
    assert_eq!(os.default_sink.len(), 0);
    assert_eq!(os.elevated_sink.len(), 1);
    assert_eq!(os.elevated_sink[0], format!("WARN  [{ts}] [svc]: disk low\n"));
}

#[test]
fn level_tokens_are_fixed_width() {
    assert_eq!(fixed_width_level(Level::Trace), "TRACE");
    assert_eq!(fixed_width_level(Level::Debug), "DEBUG");
    assert_eq!(fixed_width_level(Level::Info), "INFO ");
    assert_eq!(fixed_width_level(Level::Warning), "WARN ");
    assert_eq!(fixed_width_level(Level::Error), "ERROR");
}

#[test]
fn manager_delivers_to_every_backend_in_order() {
    let mut manager = Manager::new()
        .with_backend(BackendKind::Memory(Memory::new(10)))
        .with_backend(BackendKind::Stream(Os::new()));
    let batch = vec![
        record(Level::Info, "p", "one", 1),
        record(Level::Error, "p", "two", 2),
        record(Level::Info, "p", "three", 3),
    ];
    manager.drain(&batch).unwrap();
    match &manager.backends[0] {
        BackendKind::Memory(m) => {
            assert_eq!(m.entries.len(), 3);
            assert_eq!(m.entries[0].message, "three");
            assert_eq!(m.entries[1].message, "two");
            assert_eq!(m.entries[2].message, "one");
        }
        BackendKind::Stream(_) => panic!("wrong backend kind"),
    }
    match &manager.backends[1] {
        BackendKind::Stream(o) => {
            assert_eq!(o.default_sink.len(), 2);
            assert_eq!(o.elevated_sink.len(), 1);
            assert!(o.default_sink[0].contains("one"));
            assert!(o.default_sink[1].contains("three"));
            assert!(o.elevated_sink[0].contains("two"));
        }
        BackendKind::Memory(_) => panic!("wrong backend kind"),
    }
}

#[test]
fn cloned_configuration_delivers_to_the_same_channel() {
    let (sender, receiver) = flume::unbounded();
    let original = Configuration::named("clone", sender);
    let copy = original.clone();
    assert_eq!(copy.process, "clone");
    let mut ctx = Context::new();
    ctx.enter_scope(copy);
    Log::info(&ctx, String::from("via clone")).unwrap().submit(&ctx).unwrap();
    assert_eq!(receiver.try_recv().unwrap().message, "via clone");
}

#[test]
fn empty_manager_and_empty_batch_are_accepted() {
    let mut empty_manager: Manager<Memory> = Manager::new();
    let batch = vec![record(Level::Info, "p", "one", 1)];
    assert!(empty_manager.drain(&batch).is_ok());

    let mut manager = Manager::new().with_backend(Memory::new(1));
    let none: Vec<Arc<Log>> = Vec::new();
    assert!(manager.drain(&none).is_ok());
    assert!(manager.step(&batch[0]).is_ok());
    assert_eq!(manager.backends[0].entries.len(), 1);
}
