//! Turn sequencing: a strict round-robin rotation over unit handles.
//!
//! The queue never reorders on speed or initiative. One handle at a time is
//! "current": advancing a turn re-enqueues the outgoing current at the back
//! and dequeues the front as the incoming current. Dead units are excised by
//! the orchestration layer, never by the queue itself.

use vstd::prelude::*;
use crate::removal::{remove_all_in, remove_desc, valid_removal};

verus! {

/// The queue a rotation steps through: the waiting handles, with the
/// current one (if any) re-enqueued at the back.
pub open spec fn spec_effective(queue: Seq<usize>, current: Option<usize>) -> Seq<usize> {
    match current {
        Some(u) => queue.push(u),
        None => queue,
    }
}

/// One turn advance: the current handle goes to the back, the front becomes
/// current. Meaningful only when the effective queue is non-empty.
pub open spec fn spec_rotate(
    queue: Seq<usize>,
    current: Option<usize>,
) -> (Seq<usize>, Option<usize>) {
    let q = spec_effective(queue, current);
    (q.drop_first(), Some(q[0]))
}

/// The state after `k` turn advances.
pub open spec fn spec_rotate_n(
    queue: Seq<usize>,
    current: Option<usize>,
    k: nat,
) -> (Seq<usize>, Option<usize>)
    decreases k,
{
    if k == 0 {
        (queue, current)
    } else {
        let prev = spec_rotate_n(queue, current, (k - 1) as nat);
        spec_rotate(prev.0, prev.1)
    }
}

/// The handles whose start-phase ran during the first `k` advances, in
/// order: advance `i` starts the handle that becomes current on it.
pub open spec fn spec_starts(queue: Seq<usize>, current: Option<usize>, k: nat) -> Seq<usize>
    decreases k,
{
    if k == 0 {
        Seq::empty()
    } else {
        let prev = spec_rotate_n(queue, current, (k - 1) as nat);
        spec_starts(queue, current, (k - 1) as nat).push(
            spec_effective(prev.0, prev.1)[0] as usize,
        )
    }
}

/// The handles whose end-phase ran during the first `k` advances, in order:
/// advance `i` ends the handle that was current before it, when there was
/// one.
pub open spec fn spec_ends(queue: Seq<usize>, current: Option<usize>, k: nat) -> Seq<usize>
    decreases k,
{
    if k == 0 {
        Seq::empty()
    } else {
        let prev = spec_rotate_n(queue, current, (k - 1) as nat);
        let sofar = spec_ends(queue, current, (k - 1) as nat);
        match prev.1 {
            Some(u) => sofar.push(u),
            None => sofar,
        }
    }
}

/// After `k` advances from a fresh queue, the current holder is the `k`-th
/// unit, the queue holds the waiting tail followed by the already-played
/// prefix, the units started so far are exactly the first `k`, and the
/// units ended so far are exactly the first `k - 1`.
proof fn lemma_rotation_shape(q: Seq<usize>, k: nat)
    requires
        0 < k <= q.len(),
    ensures
        spec_rotate_n(q, None, k).0 == q.skip(k as int) + q.take(k - 1),
        spec_rotate_n(q, None, k).1 == Some(q[k - 1] as usize),
        spec_starts(q, None, k) == q.take(k as int),
        spec_ends(q, None, k) == q.take(k - 1),
    decreases k,
{
    if k == 1 {
        assert(spec_effective(q, None) == q);
        assert(spec_rotate_n(q, None, 0) == (q, Option::<usize>::None));
        assert(spec_rotate_n(q, None, 1) == spec_rotate(q, None));
        assert(spec_starts(q, None, 0) == Seq::<usize>::empty());
        assert(spec_ends(q, None, 0) == Seq::<usize>::empty());
        assert(spec_rotate_n(q, None, 1).0 =~= q.skip(1) + q.take(0));
        assert(spec_starts(q, None, 1) =~= q.take(1));
        assert(spec_ends(q, None, 1) =~= q.take(0));
    } else {
        lemma_rotation_shape(q, (k - 1) as nat);
        let prev = spec_rotate_n(q, None, (k - 1) as nat);
        let eff = spec_effective(prev.0, prev.1);
        assert(eff =~= q.skip(k - 1) + q.take(k - 2) + seq![q[k - 2]]);
        assert(eff[0] == q[k - 1]);
        assert(spec_rotate_n(q, None, k).0 =~= q.skip(k as int) + q.take(k - 1));
        assert(spec_starts(q, None, k) =~= q.take(k as int));
        assert(spec_ends(q, None, k) =~= q.take(k - 1));
    }
}

/// Turn rotation: over one full cycle of a fresh queue of `n` distinct
/// units with no deaths, every unit's start-phase runs exactly once, and
/// every unit's end-phase runs exactly once except the unit started last,
/// whose first end is still ahead (the very first start had no preceding
/// end).
pub proof fn lemma_turn_rotation(q: Seq<usize>)
    requires
        q.len() > 0,
        q.no_duplicates(),
    ensures
        spec_starts(q, None, q.len()) == q,
        spec_ends(q, None, q.len()) == q.drop_last(),
        spec_starts(q, None, q.len()).no_duplicates(),
        spec_ends(q, None, q.len()).no_duplicates(),
        forall|u: usize| q.contains(u) ==> spec_starts(q, None, q.len()).contains(u),
{
    lemma_rotation_shape(q, q.len());
    assert(q.take(q.len() as int) =~= q);
    assert(q.take(q.len() - 1) =~= q.drop_last());
    assert(q.drop_last().no_duplicates());
    assert forall|u: usize| q.contains(u) implies spec_starts(q, None, q.len()).contains(
        u,
    ) by {
        let i = choose|i: int| 0 <= i < q.len() && q[i] == u;
        assert(spec_starts(q, None, q.len())[i] == u);
    }
}

/// The rotation of unit handles; exactly one handle is current at a time
/// once the first turn has started.
pub struct TurnHandler {
    pub object_list: Vec<usize>,
    pub current: Option<usize>,
}

impl TurnHandler {
    pub fn new() -> (r: TurnHandler)
        ensures
            r.object_list@ == Seq::<usize>::empty(),
            r.current is None,
    {
        TurnHandler { object_list: Vec::new(), current: None }
    }

    /// Advance the rotation: the outgoing current (returned first, for its
    /// end-phase) is re-enqueued at the back, and the front of the queue
    /// (returned second, for its start-phase) becomes current.
    pub fn next_turn(&mut self) -> (r: (Option<usize>, usize))
        requires
            old(self).object_list@.len() > 0 || old(self).current is Some,
        ensures
            r.0 == old(self).current,
            final(self).object_list@ == spec_rotate(
                old(self).object_list@,
                old(self).current,
            ).0,
            final(self).current == spec_rotate(old(self).object_list@, old(self).current).1,
            final(self).current == Some(r.1),
    {
        let ending = self.current;
        match ending {
            Some(val) => {
                self.add(val);
            },
            None => {},
        }
        let starting = self.object_list.remove(0);
        self.current = Some(starting);
        (ending, starting)
    }

    /// Enqueue a handle at the back of the rotation.
    pub fn add(&mut self, obj: usize)
        ensures
            final(self).object_list@ == old(self).object_list@.push(obj),
            final(self).current == old(self).current,
    {
        self.object_list.push(obj);
    }

    /// Excise the handle at one queue position.
    pub fn remove(&mut self, index: usize)
        requires
            index < old(self).object_list@.len(),
        ensures
            final(self).object_list@ == old(self).object_list@.remove(index as int),
            final(self).current == old(self).current,
    {
        self.object_list.remove(index);
    }

    /// Excise the handles at the listed ascending queue positions in one
    /// shift-compensated pass.
    pub fn remove_all(&mut self, indexes: &[usize])
        requires
            valid_removal(
                indexes@.map_values(|u: usize| u as int),
                old(self).object_list@.len() as int,
            ),
        ensures
            final(self).object_list@ == remove_desc(
                old(self).object_list@,
                indexes@.map_values(|u: usize| u as int),
            ),
            final(self).current == old(self).current,
    {
        remove_all_in(&mut self.object_list, indexes);
    }

    /// Forget the current holder without re-enqueueing it: the orchestration
    /// layer's excision of a unit that died on its own turn.
    pub fn drop_current(&mut self)
        ensures
            final(self).object_list@ == old(self).object_list@,
            final(self).current is None,
    {
        self.current = None;
    }
}

} // verus!
