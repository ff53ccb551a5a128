//! Properties of applying operation logs, stated over [`replay`] and
//! [`phased`], the order in which the reconciler applies a log.
//!
//! They hold for both categories: with attribute values as payloads the map
//! is the element's attributes, with event bindings it is the set of
//! installed listeners.

use vstd::prelude::*;
use crate::operation::{
    addition_phase, apply_operation, lemma_phased_replay, lemma_replay_push, mentions,
    phased, replay, Operation,
};
use crate::reconciler::skip_absent;
use crate::listener_holder::EventBinding;

verus! {

/// A log that never touches `k` leaves the entry under `k` as it was.
proof fn lemma_untouched<P>(m: Map<Seq<char>, P>, ops: Seq<Operation<P>>, k: Seq<char>)
    requires
        !mentions(ops, k),
    ensures
        replay(m, ops).contains_key(k) == m.contains_key(k),
        m.contains_key(k) ==> replay(m, ops)[k] == m[k],
    decreases ops.len(),
{
    if ops.len() > 0 {
        assert(ops[0].key_view() != k);
        assert forall|i: int| 0 <= i < ops.drop_first().len() implies #[trigger] ops.drop_first()[i].key_view() != k by {
            assert(ops[i + 1].key_view() != k);
        }
        lemma_untouched(apply_operation(m, ops[0]), ops.drop_first(), k);
    }
}

/// The last operation on a key decides the entry under it.
proof fn lemma_last_operation_decides<P>(m: Map<Seq<char>, P>, ops: Seq<Operation<P>>, j: int)
    requires
        0 <= j < ops.len(),
        !mentions(ops.subrange(j + 1, ops.len() as int), ops[j].key_view()),
    ensures
        ops[j] is Add ==> replay(m, ops).contains_key(ops[j].key_view())
            && replay(m, ops)[ops[j].key_view()] == ops[j]->payload,
        ops[j] is Remove ==> !replay(m, ops).contains_key(ops[j].key_view()),
    decreases ops.len(),
{
    let k = ops[j].key_view();
    if j == 0 {
        assert(ops.subrange(1, ops.len() as int) =~= ops.drop_first());
        lemma_untouched(apply_operation(m, ops[0]), ops.drop_first(), k);
    } else {
        assert(ops.drop_first().subrange(j, ops.len() - 1) =~= ops.subrange(j + 1, ops.len() as int));
        lemma_last_operation_decides(apply_operation(m, ops[0]), ops.drop_first(), j - 1);
    }
}

/// Every key of the addition phase is a key of the log.
proof fn lemma_addition_keys<P>(ops: Seq<Operation<P>>, i: int)
    requires
        0 <= i < addition_phase(ops).len(),
    ensures
        mentions(ops, addition_phase(ops)[i].key_view()),
    decreases ops.len(),
{
    let rest = ops.drop_first();
    if ops[0] is Add && !mentions(rest, ops[0].key_view()) {
        if i == 0 {
            assert(ops[0].key_view() == addition_phase(ops)[0].key_view());
        } else {
            assert(addition_phase(ops)[i] == addition_phase(rest)[i - 1]);
            lemma_addition_keys(rest, i - 1);
            let j = choose|j: int| 0 <= j < rest.len() && #[trigger] rest[j].key_view() == addition_phase(rest)[i - 1].key_view();
            assert(ops[j + 1] == rest[j]);
        }
    } else {
        lemma_addition_keys(rest, i);
        let j = choose|j: int| 0 <= j < rest.len() && #[trigger] rest[j].key_view() == addition_phase(rest)[i].key_view();
        assert(ops[j + 1] == rest[j]);
    }
}

/// The addition phase holds at most one operation per key.
proof fn lemma_addition_phase_distinct<P>(ops: Seq<Operation<P>>)
    ensures
        forall|a: int, b: int|
            0 <= a < b < addition_phase(ops).len() ==> #[trigger] addition_phase(ops)[a].key_view()
                != #[trigger] addition_phase(ops)[b].key_view(),
    decreases ops.len(),
{
    if ops.len() > 0 {
        let rest = ops.drop_first();
        lemma_addition_phase_distinct(rest);
        if ops[0] is Add && !mentions(rest, ops[0].key_view()) {
            let ap = addition_phase(ops);
            assert forall|a: int, b: int| 0 <= a < b < ap.len() implies #[trigger] ap[a].key_view() != #[trigger] ap[b].key_view() by {
                assert(ap[b] == addition_phase(rest)[b - 1]);
                if a == 0 {
                    lemma_addition_keys(rest, b - 1);
                } else {
                    assert(ap[a] == addition_phase(rest)[a - 1]);
                }
            }
        }
    }
}

/// Idempotent removal: removing a key that is not present changes nothing,
/// and the reconciler makes no native call for it.
pub proof fn lemma_absent_removal_is_noop<P, C>(
    m: Map<Seq<char>, P>,
    key: String,
    steps: Seq<Operation<EventBinding<C>>>,
    ids: Set<Seq<char>>,
)
    requires
        !m.contains_key(key@),
        !ids.contains(key@),
    ensures
        replay(m, phased(seq![Operation::Remove { key }])) == m,
        skip_absent(seq![Operation::Remove { key }] + steps, ids) == skip_absent(steps, ids),
{
    let op = Operation::<P>::Remove { key };
    lemma_phased_replay(m, seq![op]);
    assert(seq![op].drop_first() =~= Seq::<Operation<P>>::empty());
    assert(apply_operation(m, op) =~= m);
    assert(replay(apply_operation(m, op), Seq::<Operation<P>>::empty()) == apply_operation(m, op));
    assert(seq![op][0] == op);
    let l = seq![Operation::<EventBinding<C>>::Remove { key }] + steps;
    assert(l.drop_first() =~= steps);
}

/// Replace semantics: when the last operation on `key` in the log is an
/// addition, the key ends bound to that addition's payload, and the
/// reconciler installs exactly that one addition for the key.
pub proof fn lemma_last_addition_wins<P>(m: Map<Seq<char>, P>, ops: Seq<Operation<P>>, j: int)
    requires
        0 <= j < ops.len(),
        ops[j] is Add,
        !mentions(ops.subrange(j + 1, ops.len() as int), ops[j].key_view()),
    ensures
        replay(m, phased(ops)).contains_key(ops[j].key_view()),
        replay(m, phased(ops))[ops[j].key_view()] == ops[j]->payload,
        forall|i: int|
            0 <= i < addition_phase(ops).len() && #[trigger] addition_phase(ops)[i].key_view()
                == ops[j].key_view() ==> addition_phase(ops)[i] == ops[j],
{
    lemma_phased_replay(m, ops);
    lemma_last_operation_decides(m, ops, j);
    assert forall|i: int|
        0 <= i < addition_phase(ops).len() && #[trigger] addition_phase(ops)[i].key_view()
            == ops[j].key_view() implies addition_phase(ops)[i] == ops[j] by {
        lemma_addition_phase_member(ops, i);
        let t = choose|t: int| 0 <= t < ops.len() && ops[t] == addition_phase(ops)[i]
            && !mentions(ops.subrange(t + 1, ops.len() as int), ops[t].key_view());
        if t < j {
            assert(ops.subrange(t + 1, ops.len() as int)[j - t - 1] == ops[j]);
        } else if t > j {
            assert(ops.subrange(j + 1, ops.len() as int)[t - j - 1] == ops[t]);
        }
    }
}

/// Each operation of the addition phase is an operation of the log that no
/// later operation on its key follows.
proof fn lemma_addition_phase_member<P>(ops: Seq<Operation<P>>, i: int)
    requires
        0 <= i < addition_phase(ops).len(),
    ensures
        exists|t: int| 0 <= t < ops.len() && ops[t] == addition_phase(ops)[i]
            && !mentions(ops.subrange(t + 1, ops.len() as int), ops[t].key_view()),
    decreases ops.len(),
{
    let rest = ops.drop_first();
    if ops[0] is Add && !mentions(rest, ops[0].key_view()) && i == 0 {
        assert(ops.subrange(1, ops.len() as int) =~= rest);
        assert(ops[0] == addition_phase(ops)[0]);
    } else {
        let i2 = if ops[0] is Add && !mentions(rest, ops[0].key_view()) { i - 1 } else { i };
        assert(addition_phase(ops)[i] == addition_phase(rest)[i2]);
        lemma_addition_phase_member(rest, i2);
        let t = choose|t: int| 0 <= t < rest.len() && rest[t] == addition_phase(rest)[i2]
            && !mentions(rest.subrange(t + 1, rest.len() as int), rest[t].key_view());
        assert(ops.subrange(t + 2, ops.len() as int) =~= rest.subrange(t + 1, rest.len() as int));
        assert(ops[t + 1] == rest[t]);
    }
}

/// Order within a batch: a removal followed by an addition of the same key
/// leaves the key bound to the addition.
pub proof fn lemma_remove_then_add<P>(m: Map<Seq<char>, P>, key: String, payload: P)
    ensures
        replay(m, phased(seq![Operation::Remove { key }, Operation::Add { key, payload }]))
            == m.insert(key@, payload),
{
    let r = Operation::<P>::Remove { key };
    let a = Operation::Add { key, payload };
    let ops = seq![r, a];
    lemma_phased_replay(m, ops);
    lemma_replay_push(m, seq![r], a);
    lemma_replay_push(m, Seq::empty(), r);
    assert(seq![r] =~= Seq::<Operation<P>>::empty().push(r));
    assert(ops =~= seq![r].push(a));
    assert(m.remove(key@).insert(key@, payload) =~= m.insert(key@, payload));
}

/// Order within a batch: an addition followed by a removal of the same key
/// leaves the key absent.
pub proof fn lemma_add_then_remove<P>(m: Map<Seq<char>, P>, key: String, payload: P)
    ensures
        replay(m, phased(seq![Operation::Add { key, payload }, Operation::Remove { key }])) == m.remove(key@),
{
    let r = Operation::<P>::Remove { key };
    let a = Operation::Add { key, payload };
    let ops = seq![a, r];
    lemma_phased_replay(m, ops);
    lemma_replay_push(m, seq![a], r);
    lemma_replay_push(m, Seq::empty(), a);
    assert(seq![a] =~= Seq::<Operation<P>>::empty().push(a));
    assert(ops =~= seq![a].push(r));
    assert(m.insert(key@, payload).remove(key@) =~= m.remove(key@));
}

/// Round trip: adding an attribute and then removing its key, after whatever
/// the log held before, leaves the same element as removing the key without
/// the addition: the key is absent and nothing else differs.
pub proof fn lemma_add_remove_round_trip<P>(m: Map<Seq<char>, P>, ops: Seq<Operation<P>>, key: String, payload: P)
    ensures
        replay(m, phased(ops.push(Operation::Add { key, payload }).push(Operation::Remove { key })))
            == replay(m, phased(ops.push(Operation::Remove { key }))),
        replay(m, phased(ops.push(Operation::Add { key, payload }).push(Operation::Remove { key })))
            == replay(m, ops).remove(key@),
{
    let a = Operation::Add { key, payload };
    let r = Operation::<P>::Remove { key };
    let with_add = ops.push(a).push(r);
    lemma_phased_replay(m, with_add);
    lemma_phased_replay(m, ops.push(r));
    lemma_replay_push(m, ops.push(a), r);
    lemma_replay_push(m, ops, a);
    lemma_replay_push(m, ops, r);
    assert(replay(m, ops).insert(key@, payload).remove(key@) =~= replay(m, ops).remove(key@));
}

} // verus!
