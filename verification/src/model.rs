//! The abstract state machine of the supervisor.
//!
//! The observable state is the content of the single slot: `None` when no
//! process is owned, `Some(pid)` when one is. The state lock of the
//! embedding application serializes the calls, so a history is a sequence of
//! operations folded over the state, and the laws of the supervisor are
//! statements about that fold.

use vstd::prelude::*;

verus! {

/// One serialized supervisor operation: a start whose spawn succeeded and
/// returned this process identifier, a start whose spawn failed, or a stop.
pub enum Op {
    StartOk(u32),
    StartFail,
    Stop,
}

/// The state after one operation. A successful start fills an empty slot and
/// leaves an occupied one untouched; a failed start changes nothing; a stop
/// always empties the slot, whatever came of the terminate request.
pub open spec fn step(st: Option<u32>, op: Op) -> Option<u32> {
    match op {
        Op::StartOk(pid) => if st is Some {
            st
        } else {
            Some(pid)
        },
        Op::StartFail => st,
        Op::Stop => None,
    }
}

/// The state after a whole sequence of operations, applied oldest first.
pub open spec fn run_ops(st: Option<u32>, ops: Seq<Op>) -> Option<u32>
    decreases ops.len(),
{
    if ops.len() == 0 {
        st
    } else {
        step(run_ops(st, ops.drop_last()), ops.last())
    }
}

/// A sequence of operations leaves the supervisor running exactly when it
/// holds a successful start that no stop follows.
pub open spec fn ends_running(ops: Seq<Op>) -> bool {
    exists|i: int|
        0 <= i < ops.len() && ops[i] is StartOk && (forall|j: int|
            i < j < ops.len() ==> !(ops[j] is Stop))
}

/// Law: starting is idempotent. A start against a running supervisor changes
/// nothing, and after one successful start the slot holds exactly one
/// process, however many further starts follow.
pub proof fn lemma_start_idempotent(st: Option<u32>, first: u32, second: u32)
    ensures
        step(st, Op::StartOk(first)) is Some,
        step(step(st, Op::StartOk(first)), Op::StartOk(second)) == step(st, Op::StartOk(first)),
{
}

/// Law: stopping is idempotent and total. A stop empties the slot from every
/// state — in particular a stop against an empty supervisor leaves it empty,
/// and a stop whose terminate request failed still leaves it empty.
pub proof fn lemma_stop_clears(st: Option<u32>)
    ensures
        step(st, Op::Stop) is None,
{
}

/// Folding a concatenation folds the two parts in turn.
pub proof fn lemma_run_ops_app(st: Option<u32>, a: Seq<Op>, b: Seq<Op>)
    ensures
        run_ops(st, a + b) == run_ops(run_ops(st, a), b),
    decreases b.len(),
{
    if b.len() == 0 {
        assert(a + b =~= a);
    } else {
        lemma_run_ops_app(st, a, b.drop_last());
        assert((a + b).drop_last() =~= a + b.drop_last());
        assert((a + b).last() == b.last());
    }
}

/// A running supervisor that sees no stop keeps its state unchanged.
pub proof fn lemma_no_stop_keeps_running(st: Option<u32>, ops: Seq<Op>)
    requires
        st is Some,
        forall|i: int| 0 <= i < ops.len() ==> !(ops[i] is Stop),
    ensures
        run_ops(st, ops) == st,
    decreases ops.len(),
{
    if ops.len() > 0 {
        lemma_no_stop_keeps_running(st, ops.drop_last());
    }
}

/// Law: the observable state is a pure fold of the call sequence. From the
/// empty state, the supervisor is running after a sequence exactly when some
/// start succeeded and no stop follows it; in every other case — the sequence
/// ends with a stop, or no start ever succeeded — the state is empty. This is
/// also when a status call after the sequence returns true, since status
/// reports exactly whether the slot is occupied.
pub proof fn lemma_fold_characterizes_state(ops: Seq<Op>)
    ensures
        run_ops(None, ops) is Some <==> ends_running(ops),
    decreases ops.len(),
{
    if ops.len() == 0 {
    } else {
        let prefix = ops.drop_last();
        let last_at = ops.len() - 1;
        lemma_fold_characterizes_state(prefix);
        match ops.last() {
            Op::Stop => {
                assert(!ends_running(ops)) by {
                    if ends_running(ops) {
                        let i = choose|i: int|
                            0 <= i < ops.len() && ops[i] is StartOk && (forall|j: int|
                                i < j < ops.len() ==> !(ops[j] is Stop));
                        assert(ops[last_at] is Stop);
                        assert(i < last_at);
                        assert(!(ops[last_at] is Stop));
                    }
                };
            },
            Op::StartOk(pid) => {
                assert(ops[last_at] is StartOk && (forall|j: int|
                    last_at < j < ops.len() ==> !(ops[j] is Stop)));
            },
            Op::StartFail => {
                if ends_running(prefix) {
                    let i = choose|i: int|
                        0 <= i < prefix.len() && prefix[i] is StartOk && (forall|j: int|
                            i < j < prefix.len() ==> !(prefix[j] is Stop));
                    assert(ops[i] is StartOk);
                    assert(forall|j: int| i < j < ops.len() ==> !(ops[j] is Stop)) by {
                        assert(forall|j: int| i < j < prefix.len() ==> !(prefix[j] is Stop));
                        assert(forall|j: int| i < j < last_at ==> ops[j] == prefix[j]);
                    };
                    assert(ends_running(ops));
                }
                if ends_running(ops) {
                    let i = choose|i: int|
                        0 <= i < ops.len() && ops[i] is StartOk && (forall|j: int|
                            i < j < ops.len() ==> !(ops[j] is Stop));
                    assert(i < last_at);
                    assert(prefix[i] is StartOk);
                    assert(forall|j: int| i < j < prefix.len() ==> !(prefix[j] is Stop)) by {
                        assert(forall|j: int| i < j < prefix.len() ==> prefix[j] == ops[j]);
                    };
                    assert(ends_running(prefix));
                }
            },
        }
    }
}

/// Law: against an empty supervisor, serialized start calls spawn exactly
/// once. After a first start whose spawn succeeded, every later start in a
/// stop-free run finds the slot occupied, so it answers "already running" and
/// spawns nothing: `k` calls make one process and `k - 1` such answers.
pub proof fn lemma_single_spawn(ops: Seq<Op>, k: int)
    requires
        ops.len() > 0,
        ops[0] is StartOk,
        forall|i: int| 0 <= i < ops.len() ==> !(ops[i] is Stop),
        1 <= k <= ops.len(),
    ensures
        run_ops(None, ops.take(k)) is Some,
{
    let head = ops.take(1);
    let rest = ops.subrange(1, k);
    assert(head.last() == ops[0]);
    assert(head.drop_last() =~= Seq::<Op>::empty());
    assert(run_ops(None, head) is Some);
    assert(ops.take(k) =~= head + rest);
    lemma_run_ops_app(None, head, rest);
    assert(forall|i: int| 0 <= i < rest.len() ==> !(rest[i] is Stop)) by {
        assert(forall|i: int| 0 <= i < rest.len() ==> rest[i] == ops[i + 1]);
    };
    lemma_no_stop_keeps_running(run_ops(None, head), rest);
}

} // verus!
