use avm_core::trace::{count_events, EventType, LogEntry};
use avm_core::types::{ControllerId, MachineId, ObjectId, TxId, Val};

#[test]
fn log_entry_display() {
    let entry = LogEntry::new(
        0,
        EventType::ObjectCreated { id: ObjectId(0), behavior_name: "ping".into() },
        None,
    );
    let msg = entry.event_type.display_string();
    assert!(msg.contains("created"));
    assert!(msg.contains("ping"));
}

#[test]
fn count_events_filters() {
    let trace = vec![
        LogEntry::new(0, EventType::TransactionStarted(TxId(0)), None),
        LogEntry::new(1, EventType::TransactionCommitted(TxId(0)), None),
        LogEntry::new(2, EventType::TransactionStarted(TxId(1)), None),
    ];
    let starts = count_events(&trace, |e| matches!(e, EventType::TransactionStarted(_)));
    assert_eq!(starts, 2);
}

#[test]
fn count_events_on_empty_and_full_matches() {
    let empty: Vec<LogEntry> = vec![];
    assert_eq!(count_events(&empty, |_| true), 0);
    let trace = vec![
        LogEntry::new(0, EventType::StateUpdated(ObjectId(1)), None),
        LogEntry::new(1, EventType::StateUpdated(ObjectId(2)), None),
    ];
    assert_eq!(count_events(&trace, |_| true), 2);
    assert_eq!(count_events(&trace, |_| false), 0);
}

#[test]
fn event_display_texts() {
    let cases = vec![
        (
            EventType::ObjectCreated { id: ObjectId(0), behavior_name: "ping".into() },
            "created obj:0 (behavior: ping)",
        ),
        (EventType::ObjectDestroyed(ObjectId(3)), "destroyed obj:3"),
        (
            EventType::ObjectCalled { id: ObjectId(1), input: Val::Nat(2), output: None },
            "called obj:1 with 2",
        ),
        (
            EventType::ObjectCalled {
                id: ObjectId(1),
                input: Val::Nat(2),
                output: Some(Val::str("ok")),
            },
            "called obj:1 with 2 -> \"ok\"",
        ),
        (
            EventType::MessageReceived { id: ObjectId(1), input: Val::Nothing },
            "obj:1 received nothing",
        ),
        (
            EventType::ObjectMoved {
                id: ObjectId(1),
                from: MachineId("a".into()),
                to: MachineId("b".into()),
            },
            "moved obj:1 from machine:a to machine:b",
        ),
        (
            EventType::ExecutionMoved { from: MachineId("a".into()), to: MachineId("b".into()) },
            "execution moved from machine:a to machine:b",
        ),
        (
            EventType::ObjectFetched { id: ObjectId(2), machine: MachineId("m".into()) },
            "fetched obj:2 to machine:m",
        ),
        (
            EventType::ObjectTransferred {
                id: ObjectId(2),
                from: ControllerId("x".into()),
                to: ControllerId("y".into()),
            },
            "transferred obj:2 from ctrl:x to ctrl:y",
        ),
        (
            EventType::ObjectFrozen { id: ObjectId(2), controller: ControllerId("x".into()) },
            "froze obj:2 via ctrl:x",
        ),
        (EventType::FunctionUpdated("f".into()), "updated function f"),
        (EventType::TransactionStarted(TxId(1)), "tx started: tx:1"),
        (EventType::TransactionCommitted(TxId(1)), "tx committed: tx:1"),
        (EventType::TransactionAborted(TxId(1)), "tx aborted: tx:1"),
        (EventType::StateUpdated(ObjectId(9)), "state updated: obj:9"),
        (EventType::ErrorOccurred("bad".into()), "error: bad"),
    ];
    for (event, text) in cases {
        assert_eq!(event.display_string(), text);
    }
}
