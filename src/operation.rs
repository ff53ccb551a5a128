//! Operation logs: ordered, drainable lists of pending add / remove mutations.
//!
//! The meaning of a log is its sequential replay on a map from keys to
//! payloads ([`replay`]). The reconciler applies a log in phases (every
//! removal first, then the additions that no later operation overrides);
//! [`lemma_phased_replay`] shows that this gives the same map as replay.

use vstd::prelude::*;

verus! {

/// Whether an operation installs or removes its key.
#[derive(Debug, Clone, Copy, PartialEq, Eq, Structural)]
pub enum ProcessAction {
    Add,
    Remove,
}

/// One pending mutation of the entry stored under `key`.
///
/// A removal never carries a payload; an addition always carries one (for
/// attributes the payload is the optional value, for listeners the binding).
pub enum Operation<P> {
    Add { key: String, payload: P },
    Remove { key: String },
}

impl<P> Operation<P> {
    /// The key that this operation touches.
    pub open spec fn key_view(&self) -> Seq<char> {
        match self {
            Operation::Add { key, .. } => key@,
            Operation::Remove { key } => key@,
        }
    }

    pub fn key(&self) -> (r: &String)
        ensures
            r@ == self.key_view(),
    {
        match self {
            Operation::Add { key, .. } => key,
            Operation::Remove { key } => key,
        }
    }

    pub fn action(&self) -> (r: ProcessAction)
        ensures
            r == (if self is Add {
                ProcessAction::Add
            } else {
                ProcessAction::Remove
            }),
    {
        match self {
            Operation::Add { .. } => ProcessAction::Add,
            Operation::Remove { .. } => ProcessAction::Remove,
        }
    }

    pub fn is_removal(&self) -> (r: bool)
        ensures
            r == self is Remove,
    {
        match self {
            Operation::Add { .. } => false,
            Operation::Remove { .. } => true,
        }
    }
}

/// The effect of one operation on a map from keys to payloads.
pub open spec fn apply_operation<P>(m: Map<Seq<char>, P>, op: Operation<P>) -> Map<Seq<char>, P> {
    match op {
        Operation::Add { key, payload } => m.insert(key@, payload),
        Operation::Remove { key } => m.remove(key@),
    }
}

/// Sequential replay of `ops` on `m`, first operation first.
pub open spec fn replay<P>(m: Map<Seq<char>, P>, ops: Seq<Operation<P>>) -> Map<Seq<char>, P>
    decreases ops.len(),
{
    if ops.len() == 0 {
        m
    } else {
        replay(apply_operation(m, ops[0]), ops.drop_first())
    }
}

/// Some operation of `ops` touches key `k`.
pub open spec fn mentions<P>(ops: Seq<Operation<P>>, k: Seq<char>) -> bool {
    exists|i: int| 0 <= i < ops.len() && #[trigger] ops[i].key_view() == k
}

/// The removals of `ops`, in log order.
pub open spec fn removal_phase<P>(ops: Seq<Operation<P>>) -> Seq<Operation<P>>
    decreases ops.len(),
{
    if ops.len() == 0 {
        Seq::empty()
    } else if ops[0] is Remove {
        seq![ops[0]] + removal_phase(ops.drop_first())
    } else {
        removal_phase(ops.drop_first())
    }
}

/// The additions of `ops` that no later operation on the same key overrides,
/// in log order.
pub open spec fn addition_phase<P>(ops: Seq<Operation<P>>) -> Seq<Operation<P>>
    decreases ops.len(),
{
    if ops.len() == 0 {
        Seq::empty()
    } else if ops[0] is Add && !mentions(ops.drop_first(), ops[0].key_view()) {
        seq![ops[0]] + addition_phase(ops.drop_first())
    } else {
        addition_phase(ops.drop_first())
    }
}

/// The order in which the reconciler applies a log: removals, then additions.
pub open spec fn phased<P>(ops: Seq<Operation<P>>) -> Seq<Operation<P>> {
    removal_phase(ops) + addition_phase(ops)
}


/// Replay distributes over concatenation.
pub proof fn lemma_replay_concat<P>(m: Map<Seq<char>, P>, s1: Seq<Operation<P>>, s2: Seq<Operation<P>>)
    ensures
        replay(m, s1 + s2) == replay(replay(m, s1), s2),
    decreases s1.len(),
{
    if s1.len() > 0 {
        assert((s1 + s2).drop_first() =~= s1.drop_first() + s2);
        lemma_replay_concat(apply_operation(m, s1[0]), s1.drop_first(), s2);
    } else {
        assert(s1 + s2 =~= s2);
    }
}

/// Replaying one more operation at the end applies it to the replayed map.
pub proof fn lemma_replay_push<P>(m: Map<Seq<char>, P>, ops: Seq<Operation<P>>, op: Operation<P>)
    ensures
        replay(m, ops.push(op)) == apply_operation(replay(m, ops), op),
{
    lemma_replay_concat(m, ops, seq![op]);
    assert(ops.push(op) =~= ops + seq![op]);
    let x = replay(m, ops);
    assert(seq![op].drop_first() =~= Seq::<Operation<P>>::empty());
    assert(replay(apply_operation(x, op), Seq::<Operation<P>>::empty()) == apply_operation(x, op));
    assert(seq![op][0] == op);
}

/// A value stored under a key that the log touches later does not show
/// in the replayed map.
proof fn lemma_replay_overwritten<P>(m: Map<Seq<char>, P>, k: Seq<char>, v: P, ops: Seq<Operation<P>>)
    requires
        mentions(ops, k),
    ensures
        replay(m.insert(k, v), ops) == replay(m, ops),
    decreases ops.len(),
{
    let o = ops[0];
    if o.key_view() == k {
        assert(apply_operation(m.insert(k, v), o) =~= apply_operation(m, o));
    } else {
        let i = choose|i: int| 0 <= i < ops.len() && #[trigger] ops[i].key_view() == k;
        assert(ops.drop_first()[i - 1].key_view() == k);
        assert(apply_operation(m.insert(k, v), o) =~= apply_operation(m, o).insert(k, v));
        lemma_replay_overwritten(apply_operation(m, o), k, v, ops.drop_first());
    }
}

/// Removals of other keys commute with storing a value under `k`.
proof fn lemma_removals_commute<P>(m: Map<Seq<char>, P>, k: Seq<char>, v: P, ops: Seq<Operation<P>>)
    requires
        !mentions(ops, k),
    ensures
        replay(m.insert(k, v), removal_phase(ops)) == replay(m, removal_phase(ops)).insert(k, v),
    decreases ops.len(),
{
    if ops.len() > 0 {
        let o = ops[0];
        let rest = ops.drop_first();
        assert forall|i: int| 0 <= i < rest.len() implies #[trigger] rest[i].key_view() != k by {
            assert(ops[i + 1].key_view() != k);
        }
        assert(o.key_view() != k);
        if o is Remove {
            let r = removal_phase(rest);
            assert((seq![o] + r)[0] == o);
            assert((seq![o] + r).drop_first() =~= r);
            assert(apply_operation(m.insert(k, v), o) =~= apply_operation(m, o).insert(k, v));
            lemma_removals_commute(apply_operation(m, o), k, v, rest);
        } else {
            lemma_removals_commute(m, k, v, rest);
        }
    }
}

/// Applying the removals first and then the surviving additions leaves the
/// same map as replaying the log in order: the last operation on each key
/// decides it, whatever the phases reorder.
pub proof fn lemma_phased_replay<P>(m: Map<Seq<char>, P>, ops: Seq<Operation<P>>)
    ensures
        replay(m, phased(ops)) == replay(m, ops),
    decreases ops.len(),
{
    if ops.len() > 0 {
        let o = ops[0];
        let rest = ops.drop_first();
        let rp = removal_phase(rest);
        let ap = addition_phase(rest);
        match o {
            Operation::Remove { key } => {
                assert(phased(ops) =~= seq![o] + (rp + ap));
                assert((seq![o] + (rp + ap))[0] == o);
                assert((seq![o] + (rp + ap)).drop_first() =~= rp + ap);
                lemma_phased_replay(apply_operation(m, o), rest);
            },
            Operation::Add { key, payload } => {
                if mentions(rest, key@) {
                    assert(phased(ops) =~= phased(rest));
                    lemma_phased_replay(m, rest);
                    lemma_replay_overwritten(m, key@, payload, rest);
                } else {
                    assert(phased(ops) =~= rp + (seq![o] + ap));
                    lemma_replay_concat(m, rp, seq![o] + ap);
                    assert((seq![o] + ap)[0] == o);
                    assert((seq![o] + ap).drop_first() =~= ap);
                    lemma_removals_commute(m, key@, payload, rest);
                    lemma_replay_concat(m.insert(key@, payload), rp, ap);
                    lemma_phased_replay(m.insert(key@, payload), rest);
                }
            },
        }
    }
}

/// Whether some operation of `ops` touches `key`.
pub fn log_mentions<P>(ops: &Vec<Operation<P>>, key: &String) -> (r: bool)
    ensures
        r == mentions(ops@, key@),
{
    let mut i: usize = 0;
    while i < ops.len()
        invariant
            i <= ops@.len(),
            forall|j: int| 0 <= j < i ==> #[trigger] ops@[j].key_view() != key@,
        decreases ops.len() - i,
    {
        if *ops[i].key() == *key {
            return true;
        }
        i = i + 1;
    }
    false
}

/// Reorders a log into the order in which it is applied: all removals in log
/// order, then the additions that no later operation overrides, in log order.
pub fn into_phases<P>(ops: Vec<Operation<P>>) -> (r: Vec<Operation<P>>)
    ensures
        r@ == phased(ops@),
{
    let ghost all = ops@;
    let mut rest = ops;
    let mut removals: Vec<Operation<P>> = Vec::new();
    let mut additions: Vec<Operation<P>> = Vec::new();
    while rest.len() > 0
        invariant
            removal_phase(all) == removals@ + removal_phase(rest@),
            addition_phase(all) == additions@ + addition_phase(rest@),
        decreases rest.len(),
    {
        let ghost before = rest@;
        let op = rest.remove(0);
        assert(rest@ =~= before.drop_first());
        if op.is_removal() {
            assert(removals@.push(op) + removal_phase(rest@) =~= removals@ + (seq![op] + removal_phase(rest@)));
            removals.push(op);
        } else if !log_mentions(&rest, op.key()) {
            assert(additions@.push(op) + addition_phase(rest@) =~= additions@ + (seq![op] + addition_phase(rest@)));
            additions.push(op);
        }
    }
    assert(removals@ + removal_phase(rest@) =~= removals@);
    assert(additions@ + addition_phase(rest@) =~= additions@);
    removals.append(&mut additions);
    removals
}


/// An ordered, drainable list of pending operations.
pub struct OperationLog<P> {
    ops: Vec<Operation<P>>,
}

impl<P> View for OperationLog<P> {
    type V = Seq<Operation<P>>;

    closed spec fn view(&self) -> Seq<Operation<P>> {
        self.ops@
    }
}

impl<P> OperationLog<P> {
    pub fn new() -> (r: Self)
        ensures
            r@ == Seq::<Operation<P>>::empty(),
    {
        OperationLog { ops: Vec::new() }
    }

    /// Appends an addition of `payload` under `key`.
    pub fn push_add(&mut self, key: String, payload: P)
        ensures
            final(self)@ == old(self)@.push(Operation::Add { key, payload }),
    {
        self.ops.push(Operation::Add { key, payload });
    }

    /// Appends a removal of `key`.
    pub fn push_remove(&mut self, key: String)
        ensures
            final(self)@ == old(self)@.push(Operation::Remove { key }),
    {
        self.ops.push(Operation::Remove { key });
    }

    pub fn len(&self) -> (r: usize)
        ensures
            r == self@.len(),
    {
        self.ops.len()
    }

    pub fn is_empty(&self) -> (r: bool)
        ensures
            r == (self@.len() == 0),
    {
        self.ops.len() == 0
    }

    /// Takes every pending operation out, in log order; the log is empty after.
    pub fn drain(&mut self) -> (r: Vec<Operation<P>>)
        ensures
            r@ == old(self)@,
            final(self)@ == Seq::<Operation<P>>::empty(),
    {
        let mut taken: Vec<Operation<P>> = Vec::new();
        std::mem::swap(&mut taken, &mut self.ops);
        taken
    }
}

} // verus!
