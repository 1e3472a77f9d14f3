use faster_api::replay::{replay_positions, visible_after, Op};

fn up(key: &[u8], value: &[u8], serial: u64) -> Op {
    Op::Upsert { key: key.to_vec(), value: value.to_vec(), serial }
}

fn del(key: &[u8], serial: u64) -> Op {
    Op::Delete { key: key.to_vec(), serial }
}

#[test]
fn last_upsert_of_a_key_wins() {
    let ops = vec![up(b"k", b"one", 1), up(b"k", b"two", 2), del(b"k", 3), up(b"k", b"four", 4)];
    assert_eq!(visible_after(&ops, &b"k".to_vec()), Some(b"four".to_vec()));
}

#[test]
fn trailing_delete_hides_the_key() {
    let ops = vec![up(b"k", b"one", 1), del(b"k", 2)];
    assert_eq!(visible_after(&ops, &b"k".to_vec()), None);
}

#[test]
fn round_trip_keeps_bytes_exactly() {
    let empty = vec![up(b"e", b"", 1)];
    assert_eq!(visible_after(&empty, &b"e".to_vec()), Some(Vec::new()));
    let big: Vec<u8> = (0..100_000u32).map(|i| (i % 251) as u8).collect();
    let ops = vec![up(b"big", &big, 1)];
    assert_eq!(visible_after(&ops, &b"big".to_vec()), Some(big));
}

#[test]
fn never_written_key_is_absent() {
    let ops = vec![up(b"a", b"1", 1)];
    assert_eq!(visible_after(&ops, &b"b".to_vec()), None);
    assert_eq!(visible_after(&Vec::new(), &b"a".to_vec()), None);
}

#[test]
fn keys_compare_byte_for_byte() {
    let ops = vec![up(b"ab", b"1", 1), up(b"a", b"2", 2), up(b"abc", b"3", 3)];
    assert_eq!(visible_after(&ops, &b"ab".to_vec()), Some(b"1".to_vec()));
    assert_eq!(visible_after(&ops, &b"a".to_vec()), Some(b"2".to_vec()));
}

#[test]
fn disjoint_workloads_see_their_own_writes() {
    let mut ops = Vec::new();
    for m in 0..50u64 {
        ops.push(up(format!("a{}", m % 5).as_bytes(), format!("a-{}", m).as_bytes(), m));
        ops.push(up(format!("b{}", m % 5).as_bytes(), format!("b-{}", m).as_bytes(), m));
    }
    for k in 0..5u64 {
        let last = 45 + k;
        assert_eq!(
            visible_after(&ops, &format!("a{}", k).into_bytes()),
            Some(format!("a-{}", last).into_bytes())
        );
        assert_eq!(
            visible_after(&ops, &format!("b{}", k).into_bytes()),
            Some(format!("b-{}", last).into_bytes())
        );
    }
}

#[test]
fn recovery_from_checkpoint_matches_live_state() {
    let ops = vec![up(b"x", b"1", 1), up(b"y", b"2", 2), del(b"x", 3), up(b"y", b"4", 4), up(b"x", b"5", 5)];
    let cursor = 3;
    let mut recovered: Vec<Op> = Vec::new();
    for op in ops.iter().filter(|o| o.serial() <= cursor) {
        recovered.push(copy(op));
    }
    for p in replay_positions(&ops, cursor) {
        recovered.push(copy(&ops[p]));
    }
    for key in [b"x".to_vec(), b"y".to_vec(), b"z".to_vec()] {
        assert_eq!(visible_after(&recovered, &key), visible_after(&ops, &key));
    }
}

#[test]
fn replayed_checkpointed_upsert_changes_nothing() {
    let ops = vec![up(b"k", b"v", 1), up(b"k", b"w", 2)];
    let cursor = 2;
    let mut replayed = vec![up(b"k", b"v", 1), up(b"k", b"w", 2)];
    let again = vec![up(b"k", b"v", 1)];
    assert!(replay_positions(&again, cursor).is_empty());
    for p in replay_positions(&again, cursor) {
        replayed.push(copy(&again[p]));
    }
    assert_eq!(visible_after(&replayed, &b"k".to_vec()), visible_after(&ops, &b"k".to_vec()));
    assert_eq!(replayed.len(), ops.len());
}

fn copy(op: &Op) -> Op {
    match op {
        Op::Upsert { key, value, serial } => up(key, value, *serial),
        Op::Delete { key, serial } => del(key, *serial),
    }
}
