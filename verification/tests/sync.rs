use jetstream_proto::keyed_map::KeyedMap;
use jetstream_proto::sync::conflict::{ConflictResolver, LWWResolver, ManualResolver};
use jetstream_proto::sync::crdt::{LWWRegister, ORSet, ORSetWithTombstones};
use jetstream_proto::sync::delta::{DeltaSync, State};
use jetstream_proto::sync::snapshot::SnapshotSync;

#[test]
fn test_lww_register() {
    let mut r1 = LWWRegister::new(10, 100, "A".to_string());
    let r2 = LWWRegister::new(20, 200, "B".to_string());

    r1.merge(r2.duplicate());
    assert_eq!(*r1.value(), 20);

    let r3 = LWWRegister::new(30, 50, "C".to_string());
    r1.merge(r3);
    assert_eq!(*r1.value(), 20); // Older timestamp ignored
}

#[test]
fn test_orset() {
    let mut s1 = ORSetWithTombstones::new();
    s1.add(String::from("A"), 100);
    s1.add(String::from("B"), 100);

    let mut s2 = ORSetWithTombstones::new();
    s2.remove(String::from("A"), 100);
    s2.add(String::from("C"), 200);

    s1.merge(s2);

    assert!(!s1.contains(&String::from("A"))); // Removed
    assert!(s1.contains(&String::from("B"))); // Kept
    assert!(s1.contains(&String::from("C"))); // Added
}

#[test]
fn lww_equal_timestamps_keep_greater_node() {
    let mut a = LWWRegister::new(1u64, 10, "node-a".to_string());
    let b = LWWRegister::new(2u64, 10, "node-b".to_string());
    a.merge(b);
    assert_eq!(*a.value(), 2);
    assert_eq!(a.timestamp(), 10);

    let mut c = LWWRegister::new(3u64, 10, "node-z".to_string());
    let d = LWWRegister::new(4u64, 10, "node-b".to_string());
    c.merge(d);
    assert_eq!(*c.value(), 3);
}

#[test]
fn lww_merge_is_commutative_on_values() {
    let x = LWWRegister::new(7u64, 5, "x".to_string());
    let y = LWWRegister::new(9u64, 6, "y".to_string());
    let mut xy = x.duplicate();
    xy.merge(y.duplicate());
    let mut yx = y.duplicate();
    yx.merge(x.duplicate());
    assert_eq!(*xy.value(), *yx.value());
    assert_eq!(xy.timestamp(), yx.timestamp());
    // merging with itself changes nothing
    let mut xx = x.duplicate();
    xx.merge(x.duplicate());
    assert_eq!(*xx.value(), 7);
    assert_eq!(xx.timestamp(), 5);
}

#[test]
fn orset_add_remove_tags() {
    let mut s: ORSet<u64> = ORSet::new();
    s.add(1, "t1".to_string());
    s.add(1, "t2".to_string());
    s.add(2, "t3".to_string());
    assert!(s.contains(&1));
    s.remove(&1, vec!["t1".to_string()]);
    assert!(s.contains(&1)); // still tagged t2
    s.remove(&1, vec!["t2".to_string()]);
    assert!(!s.contains(&1));
    assert!(s.contains(&2));
    let els = s.elements();
    assert_eq!(els, vec![2]);
}

#[test]
fn orset_merge_unions() {
    let mut a: ORSet<u64> = ORSet::new();
    a.add(1, "a".to_string());
    let mut b: ORSet<u64> = ORSet::new();
    b.add(2, "b".to_string());
    a.merge(b);
    assert!(a.contains(&1));
    assert!(a.contains(&2));
    let mut els = a.elements();
    els.sort();
    assert_eq!(els, vec![1, 2]);
}

#[test]
fn tombstone_later_add_survives_earlier_remove() {
    let mut s = ORSetWithTombstones::new();
    s.remove(5u64, 10);
    s.add(5u64, 20);
    assert!(s.contains(&5));
    let mut t = ORSetWithTombstones::new();
    t.add(6u64, 10);
    t.remove(6u64, 10);
    assert!(!t.contains(&6)); // a removal at the same time wins
}

#[test]
fn delta_sync_exchanges_changes() {
    let mut a = DeltaSync::new();
    a.update("k1".to_string(), vec![1], 10, "a".to_string());
    a.update("k2".to_string(), vec![2], 20, "a".to_string());

    let d = a.get_delta(15);
    assert_eq!(d.changes.len(), 1);
    assert!(d.changes.get("k2").is_some());
    assert!(d.changes.get("k1").is_none());

    let mut b = DeltaSync::new();
    b.apply_delta(a.get_delta(0));
    let all = b.get_delta(0);
    assert_eq!(all.changes.len(), 2);
    assert_eq!(*all.changes.get("k1").unwrap().value(), vec![1u8]);
}

#[test]
fn delta_apply_keeps_newer_local_write() {
    let mut a = DeltaSync::new();
    a.update("k".to_string(), vec![9], 50, "a".to_string());
    let mut b = DeltaSync::new();
    b.update("k".to_string(), vec![1], 10, "b".to_string());
    a.apply_delta(b.get_delta(0));
    let all = a.get_delta(0);
    assert_eq!(*all.changes.get("k").unwrap().value(), vec![9u8]);
}

#[test]
fn snapshot_roundtrip() {
    let mut regs = KeyedMap::new();
    regs.insert("x".to_string(), LWWRegister::new(vec![1u8], 5, "n".to_string()));
    let state = State { registers: regs, last_modified: 5 };
    let snap = SnapshotSync::create_snapshot(&state);
    assert_eq!(snap.version, 5);

    let mut other = State { registers: KeyedMap::new(), last_modified: 1 };
    SnapshotSync::apply_snapshot(&mut other, snap);
    assert_eq!(other.last_modified, 5);
    assert_eq!(*other.registers.get("x").unwrap().value(), vec![1u8]);
}

#[test]
fn resolvers() {
    let local = LWWRegister::new("old".to_string(), 1, "a".to_string());
    let remote = LWWRegister::new("new".to_string(), 2, "b".to_string());
    let r = LWWResolver.resolve(&local, &remote);
    assert_eq!(r.value(), "new");

    let manual = ManualResolver::new(|l: &LWWRegister<String>, _r: &LWWRegister<String>| l.duplicate());
    let kept = manual.resolve(&local, &remote);
    assert_eq!(kept.value(), "old");
}
