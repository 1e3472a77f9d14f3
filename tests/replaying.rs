use faster_api::replay::{replay_positions, Op};

fn up(key: &[u8], value: &[u8], serial: u64) -> Op {
    Op::Upsert { key: key.to_vec(), value: value.to_vec(), serial }
}

fn del(key: &[u8], serial: u64) -> Op {
    Op::Delete { key: key.to_vec(), serial }
}

#[test]
fn replays_only_after_the_cursor() {
    let ops = vec![up(b"a", b"1", 1), up(b"b", b"2", 2), del(b"a", 3), up(b"a", b"4", 4)];
    assert_eq!(replay_positions(&ops, 2), vec![2, 3]);
    assert_eq!(replay_positions(&ops, 0), vec![0, 1, 2, 3]);
    assert_eq!(replay_positions(&ops, 4), Vec::<usize>::new());
    assert_eq!(replay_positions(&ops, u64::MAX), Vec::<usize>::new());
}

#[test]
fn replayed_duplicate_of_checkpointed_upsert_is_skipped() {
    let ops = vec![up(b"k", b"v", 5), up(b"k", b"w", 6), up(b"k", b"v", 5)];
    assert_eq!(replay_positions(&ops, 5), vec![1]);
}

#[test]
fn empty_log_replays_nothing() {
    let ops: Vec<Op> = Vec::new();
    assert!(replay_positions(&ops, 0).is_empty());
}

#[test]
fn serial_of_each_kind() {
    assert_eq!(up(b"", b"", 9).serial(), 9);
    assert_eq!(del(b"x", 11).serial(), 11);
}
