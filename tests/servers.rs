use code_cli::servers::{prune, ServerRecord, ServerRecordStore};

fn rec(name: &str, pid: Option<u32>) -> ServerRecord {
    ServerRecord { name: name.to_string(), pid }
}

#[test]
fn prune_deletes_unused_only() {
    let mut store = ServerRecordStore {
        records: vec![rec("A", Some(11)), rec("B", Some(22)), rec("C", None)],
    };
    let deleted = prune(&mut store, &vec![22, 33]);
    assert_eq!(deleted, vec!["A".to_string(), "C".to_string()]);
    assert_eq!(store.records.len(), 1);
    assert_eq!(store.records[0].name, "B");
}

#[test]
fn prune_twice_deletes_nothing_more() {
    let mut store = ServerRecordStore {
        records: vec![rec("A", None), rec("B", Some(5)), rec("C", Some(6))],
    };
    let live = vec![5];
    assert_eq!(prune(&mut store, &live).len(), 2);
    assert!(prune(&mut store, &live).is_empty());
    assert_eq!(store.records.len(), 1);
    assert_eq!(store.records[0].name, "B");
}

#[test]
fn prune_empty_store() {
    let mut store = ServerRecordStore { records: Vec::new() };
    assert!(store.prune(&Vec::new()).is_empty());
}
