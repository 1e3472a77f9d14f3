use vstd::prelude::*;

verus! {

/// One logged store operation of a session, with the serial number that the
/// caller gave it.
#[derive(Debug)]
pub enum Op {
    Upsert { key: Vec<u8>, value: Vec<u8>, serial: u64 },
    Delete { key: Vec<u8>, serial: u64 },
}

impl Op {
    pub open spec fn spec_serial(self) -> u64 {
        match self {
            Op::Upsert { serial, .. } => serial,
            Op::Delete { serial, .. } => serial,
        }
    }

    pub open spec fn spec_key(self) -> Seq<u8> {
        match self {
            Op::Upsert { key, .. } => key@,
            Op::Delete { key, .. } => key@,
        }
    }

    /// The serial number of this operation.
    pub fn serial(&self) -> (r: u64)
        ensures
            r == self.spec_serial(),
    {
        match self {
            Op::Upsert { serial, .. } => *serial,
            Op::Delete { serial, .. } => *serial,
        }
    }
}

/// What a read of `key` sees in the key-value mapping `m`: the value, or
/// nothing for an absent or deleted key.
pub open spec fn read_of(m: Map<Seq<u8>, Seq<u8>>, key: Seq<u8>) -> Option<Seq<u8>> {
    if m.contains_key(key) {
        Some(m[key])
    } else {
        None
    }
}

/// The mapping after one operation: an upsert binds the key, a delete
/// (a tombstone) removes it.
pub open spec fn apply_op(m: Map<Seq<u8>, Seq<u8>>, op: Op) -> Map<Seq<u8>, Seq<u8>> {
    match op {
        Op::Upsert { key, value, .. } => m.insert(key@, value@),
        Op::Delete { key, .. } => m.remove(key@),
    }
}

/// The mapping after the operations `ops`, in order.
pub open spec fn apply_ops(m: Map<Seq<u8>, Seq<u8>>, ops: Seq<Op>) -> Map<Seq<u8>, Seq<u8>>
    decreases ops.len(),
{
    if ops.len() == 0 {
        m
    } else {
        apply_op(apply_ops(m, ops.drop_last()), ops.last())
    }
}

/// The operations whose serial number lies after the checkpointed cursor:
/// the ones that recovery applies again.
pub open spec fn after_cursor(ops: Seq<Op>, cursor: u64) -> Seq<Op>
    decreases ops.len(),
{
    if ops.len() == 0 {
        Seq::empty()
    } else if ops.last().spec_serial() > cursor {
        after_cursor(ops.drop_last(), cursor).push(ops.last())
    } else {
        after_cursor(ops.drop_last(), cursor)
    }
}

/// The operations that a checkpoint taken at `cursor` already holds.
pub open spec fn up_to_cursor(ops: Seq<Op>, cursor: u64) -> Seq<Op>
    decreases ops.len(),
{
    if ops.len() == 0 {
        Seq::empty()
    } else if ops.last().spec_serial() <= cursor {
        up_to_cursor(ops.drop_last(), cursor).push(ops.last())
    } else {
        up_to_cursor(ops.drop_last(), cursor)
    }
}

/// Serial numbers never decrease along a session's operations.
pub open spec fn serials_ordered(ops: Seq<Op>) -> bool {
    forall|i: int, j: int| 0 <= i <= j < ops.len() ==> ops[i].spec_serial() <= ops[j].spec_serial()
}

/// The positions in `ops` of the operations that recovery from a checkpoint
/// taken at `cursor` applies again, in order.
pub fn replay_positions(ops: &Vec<Op>, cursor: u64) -> (r: Vec<usize>)
    ensures
        forall|i: int| 0 <= i < r@.len() ==> r@[i] < ops@.len(),
        r@.map_values(|p: usize| ops@[p as int]) == after_cursor(ops@, cursor),
{
    let mut r: Vec<usize> = Vec::new();
    let mut i: usize = 0;
    while i < ops.len()
        invariant
            i <= ops@.len(),
            forall|j: int| 0 <= j < r@.len() ==> r@[j] < i,
            r@.map_values(|p: usize| ops@[p as int]) == after_cursor(ops@.take(i as int), cursor),
        decreases ops@.len() - i,
    {
        let ghost before = r@;
        assert(ops@.take(i + 1).drop_last() =~= ops@.take(i as int));
        if ops[i].serial() > cursor {
            r.push(i);
            assert(r@.map_values(|p: usize| ops@[p as int]) =~= before.map_values(
                |p: usize| ops@[p as int],
            ).push(ops@[i as int]));
        }
        i = i + 1;
    }
    assert(ops@.take(ops@.len() as int) =~= ops@);
    r
}

/// The bytes of an optional value, as a read reports them.
pub open spec fn bytes_of(v: Option<Vec<u8>>) -> Option<Seq<u8>> {
    match v {
        Some(b) => Some(b@),
        None => None,
    }
}

fn same_bytes(a: &Vec<u8>, b: &Vec<u8>) -> (r: bool)
    ensures
        r == (a@ == b@),
{
    if a.len() != b.len() {
        return false;
    }
    let mut i: usize = 0;
    while i < a.len()
        invariant
            a@.len() == b@.len(),
            i <= a@.len(),
            forall|j: int| 0 <= j < i ==> a@[j] == b@[j],
        decreases a@.len() - i,
    {
        if a[i] != b[i] {
            return false;
        }
        i = i + 1;
    }
    assert(a@ =~= b@);
    true
}

/// What a read of `key` sees once the operations `ops` have been applied, in
/// order, to an empty store.
pub fn visible_after(ops: &Vec<Op>, key: &Vec<u8>) -> (r: Option<Vec<u8>>)
    ensures
        bytes_of(r) == read_of(apply_ops(Map::empty(), ops@), key@),
{
    let mut cur: Option<Vec<u8>> = None;
    let mut i: usize = 0;
    while i < ops.len()
        invariant
            i <= ops@.len(),
            bytes_of(cur) == read_of(apply_ops(Map::empty(), ops@.take(i as int)), key@),
        decreases ops@.len() - i,
    {
        assert(ops@.take(i + 1).drop_last() =~= ops@.take(i as int));
        assert(ops@.take(i + 1).last() == ops@[i as int]);
        match &ops[i] {
            Op::Upsert { key: k, value, .. } => {
                if same_bytes(k, key) {
                    cur = Some(value.clone());
                }
            },
            Op::Delete { key: k, .. } => {
                if same_bytes(k, key) {
                    cur = None;
                }
            },
        }
        i = i + 1;
    }
    assert(ops@.take(ops@.len() as int) =~= ops@);
    cur
}

/// Applying `a` and then `b` is applying `a + b`.
pub proof fn lemma_apply_concat(m: Map<Seq<u8>, Seq<u8>>, a: Seq<Op>, b: Seq<Op>)
    ensures
        apply_ops(apply_ops(m, a), b) == apply_ops(m, a + b),
    decreases b.len(),
{
    if b.len() == 0 {
        assert(a + b =~= a);
    } else {
        lemma_apply_concat(m, a, b.drop_last());
        assert((a + b).drop_last() =~= a + b.drop_last());
        assert((a + b).last() == b.last());
    }
}

/// After a run of upserts and deletes of one key, a read of that key sees the
/// value of the last operation if it is an upsert, and nothing if it is a
/// delete.
pub proof fn lemma_last_write_wins(m: Map<Seq<u8>, Seq<u8>>, ops: Seq<Op>, key: Seq<u8>)
    requires
        ops.len() > 0,
        forall|i: int| 0 <= i < ops.len() ==> ops[i].spec_key() == key,
    ensures
        read_of(apply_ops(m, ops), key) == (match ops.last() {
            Op::Upsert { value, .. } => Some(value@),
            Op::Delete { .. } => None::<Seq<u8>>,
        }),
{
    assert(ops.last().spec_key() == key);
}

/// A read that follows an upsert of `key` to `value` sees exactly `value`.
pub proof fn lemma_round_trip(m: Map<Seq<u8>, Seq<u8>>, key: Seq<u8>, value: Seq<u8>)
    ensures
        read_of(m.insert(key, value), key) == Some(value),
{
}

/// Operations on other keys leave what a read of `key` sees unchanged.
pub proof fn lemma_other_keys_untouched(m: Map<Seq<u8>, Seq<u8>>, ops: Seq<Op>, key: Seq<u8>)
    requires
        forall|i: int| 0 <= i < ops.len() ==> ops[i].spec_key() != key,
    ensures
        read_of(apply_ops(m, ops), key) == read_of(m, key),
    decreases ops.len(),
{
    if ops.len() > 0 {
        lemma_other_keys_untouched(m, ops.drop_last(), key);
        assert(ops.last().spec_key() != key);
    }
}

/// Two workloads on disjoint keys do not see each other: after `mine` and then
/// `theirs`, a read of a key that `theirs` never touches sees what `mine`
/// left there.
pub proof fn lemma_disjoint_workloads(
    m: Map<Seq<u8>, Seq<u8>>,
    mine: Seq<Op>,
    theirs: Seq<Op>,
    key: Seq<u8>,
)
    requires
        forall|i: int| 0 <= i < theirs.len() ==> theirs[i].spec_key() != key,
    ensures
        read_of(apply_ops(m, mine + theirs), key) == read_of(apply_ops(m, mine), key),
{
    lemma_apply_concat(m, mine, theirs);
    lemma_other_keys_untouched(apply_ops(m, mine), theirs, key);
}

proof fn lemma_all_checkpointed(ops: Seq<Op>, cursor: u64)
    requires
        forall|i: int| 0 <= i < ops.len() ==> ops[i].spec_serial() <= cursor,
    ensures
        after_cursor(ops, cursor) == Seq::<Op>::empty(),
        up_to_cursor(ops, cursor) == ops,
    decreases ops.len(),
{
    if ops.len() > 0 {
        lemma_all_checkpointed(ops.drop_last(), cursor);
        assert(ops.drop_last().push(ops.last()) =~= ops);
    }
}

/// Recovery is exact: from the mapping that a checkpoint at `cursor` holds,
/// replaying only the operations after the cursor gives the mapping of the
/// live store.
pub proof fn lemma_checkpoint_replay(m: Map<Seq<u8>, Seq<u8>>, ops: Seq<Op>, cursor: u64)
    requires
        serials_ordered(ops),
    ensures
        apply_ops(apply_ops(m, up_to_cursor(ops, cursor)), after_cursor(ops, cursor))
            == apply_ops(m, ops),
    decreases ops.len(),
{
    if ops.len() > 0 {
        let p = ops.drop_last();
        assert(serials_ordered(p)) by {
            assert forall|i: int, j: int| 0 <= i <= j < p.len() implies p[i].spec_serial()
                <= p[j].spec_serial() by {
                assert(p[i] == ops[i] && p[j] == ops[j]);
            }
        }
        if ops.last().spec_serial() > cursor {
            lemma_checkpoint_replay(m, p, cursor);
            assert(after_cursor(p, cursor).push(ops.last()).drop_last() =~= after_cursor(
                p,
                cursor,
            ));
        } else {
            assert forall|i: int| 0 <= i < ops.len() implies ops[i].spec_serial() <= cursor by {
                assert(ops[i].spec_serial() <= ops[ops.len() - 1].spec_serial());
            }
            lemma_all_checkpointed(ops, cursor);
        }
    }
}

/// Replaying again an operation that the checkpoint already holds changes
/// nothing: recovery skips it, so it is neither duplicated nor does it alter
/// the final mapping.
pub proof fn lemma_replay_skips_checkpointed(
    m: Map<Seq<u8>, Seq<u8>>,
    ops: Seq<Op>,
    op: Op,
    cursor: u64,
)
    requires
        op.spec_serial() <= cursor,
    ensures
        after_cursor(ops.push(op), cursor) == after_cursor(ops, cursor),
        apply_ops(m, after_cursor(ops.push(op), cursor)) == apply_ops(m, after_cursor(ops, cursor)),
{
    assert(ops.push(op).drop_last() =~= ops);
}

/// Applying the same operation twice is applying it once.
pub proof fn lemma_op_idempotent(m: Map<Seq<u8>, Seq<u8>>, op: Op)
    ensures
        apply_op(apply_op(m, op), op) == apply_op(m, op),
{
    match op {
        Op::Upsert { key, value, .. } => {
            assert(m.insert(key@, value@).insert(key@, value@) =~= m.insert(key@, value@));
        },
        Op::Delete { key, .. } => {
            assert(m.remove(key@).remove(key@) =~= m.remove(key@));
        },
    }
}

} // verus!
