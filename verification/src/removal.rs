//! Index-shift-compensated batch removal.
//!
//! Scene entities and their collision-registry entries are removed by index
//! lists computed during an update pass. Removing several indices in one
//! pass must offset each later target by the number of removals already
//! applied, or the wrong elements go. The specification `remove_desc` is the
//! unambiguous form — remove the listed positions one by one from the
//! highest down, where no shifting occurs — and the one-pass routine is
//! proved equal to it.

use vstd::prelude::*;

verus! {

/// The list after removing the listed positions one element at a time, from
/// the highest position down to the lowest. `idxs` must be strictly
/// increasing positions within the list.
pub open spec fn remove_desc<T>(s: Seq<T>, idxs: Seq<int>) -> Seq<T>
    decreases idxs.len(),
{
    if idxs.len() == 0 {
        s
    } else {
        remove_desc(s.remove(idxs.last()), idxs.drop_last())
    }
}

/// An index list fit for batch removal from a list of length `len`:
/// strictly increasing, all within bounds.
pub open spec fn valid_removal(idxs: Seq<int>, len: int) -> bool {
    &&& forall|i: int| 0 <= i < idxs.len() ==> 0 <= #[trigger] idxs[i] < len
    &&& forall|i: int, j: int| 0 <= i < j < idxs.len() ==> idxs[i] < idxs[j]
}

/// A strictly increasing list of non-negative integers grows at least as
/// fast as its positions: the entry at position `k` is at least `k`.
proof fn lemma_increasing_lower_bound(idxs: Seq<int>, k: int)
    requires
        forall|a: int| 0 <= a < idxs.len() ==> 0 <= #[trigger] idxs[a],
        forall|a: int, b: int| 0 <= a < b < idxs.len() ==> idxs[a] < idxs[b],
        0 <= k < idxs.len(),
    ensures
        idxs[k] >= k,
    decreases k,
{
    if k > 0 {
        lemma_increasing_lower_bound(idxs, k - 1);
        assert(idxs[k - 1] < idxs[k]);
    }
}

/// Removing position `i` and then position `j` is removing `j + 1` and then
/// `i`, when `i <= j`: the first removal shifts the later positions down.
proof fn lemma_remove_swap<T>(s: Seq<T>, i: int, j: int)
    requires
        0 <= i <= j,
        j + 1 < s.len(),
    ensures
        s.remove(j + 1).remove(i) == s.remove(i).remove(j),
{
    assert(s.remove(j + 1).remove(i) =~= s.remove(i).remove(j));
}

/// Unfolding `remove_desc` from the low end: removing all listed positions
/// from the top down equals removing the lowest first and then the rest,
/// each shifted down by one.
proof fn lemma_remove_desc_step<T>(s: Seq<T>, idxs: Seq<int>)
    requires
        idxs.len() > 0,
        valid_removal(idxs, s.len() as int),
    ensures
        remove_desc(s, idxs) == remove_desc(
            s.remove(idxs[0]),
            idxs.subrange(1, idxs.len() as int).map_values(|x: int| x - 1),
        ),
    decreases idxs.len(),
{
    let rest = idxs.subrange(1, idxs.len() as int).map_values(|x: int| x - 1);
    if idxs.len() == 1 {
        assert(rest =~= Seq::<int>::empty());
        assert(idxs.last() == idxs[0]);
        assert(remove_desc(s, idxs) == remove_desc(s.remove(idxs[0]), idxs.drop_last()));
        assert(remove_desc(s.remove(idxs[0]), idxs.drop_last()) == s.remove(idxs[0]));
        assert(remove_desc(s.remove(idxs[0]), rest) == s.remove(idxs[0]));
    } else {
        let l = idxs.last();
        let s1 = s.remove(l);
        let front = idxs.drop_last();
        let front_rest = front.subrange(1, front.len() as int).map_values(|x: int| x - 1);
        assert forall|a: int| 0 <= a < front.len() implies 0 <= #[trigger] front[a]
            < s1.len() by {
            assert(front[a] == idxs[a]);
            assert(idxs[a] < l);
        }
        assert(valid_removal(front, s1.len() as int));
        assert(remove_desc(s, idxs) == remove_desc(s1, front));
        assert(front[0] == idxs[0]);
        lemma_remove_desc_step(s1, front);
        assert(remove_desc(s1, front) == remove_desc(s1.remove(idxs[0]), front_rest));
        lemma_remove_swap(s, idxs[0], l - 1);
        assert(s1.remove(idxs[0]) == s.remove(idxs[0]).remove(l - 1));
        // The other branch: peel the top index off the shifted remainder.
        assert(rest.last() == l - 1);
        assert(rest.drop_last() =~= front_rest);
        assert(remove_desc(s.remove(idxs[0]), rest) == remove_desc(
            s.remove(idxs[0]).remove(l - 1),
            front_rest,
        ));
    }
}

/// Remove the listed indices from `v` in one left-to-right pass, offsetting
/// each target by the count of removals already applied. The result is
/// exactly the descending one-at-a-time removal of the same indices.
pub fn remove_all_in<T>(v: &mut Vec<T>, indexes: &[usize])
    requires
        valid_removal(
            indexes@.map_values(|u: usize| u as int),
            old(v)@.len() as int,
        ),
    ensures
        final(v)@ == remove_desc(old(v)@, indexes@.map_values(|u: usize| u as int)),
{
    let ghost all = indexes@.map_values(|u: usize| u as int);
    let ghost orig = v@;
    proof {
        assert(all.subrange(0, all.len() as int).map_values(|x: int| x - 0) =~= all);
    }
    let mut i: usize = 0;
    while i < indexes.len()
        invariant
            i <= indexes@.len(),
            all == indexes@.map_values(|u: usize| u as int),
            valid_removal(all, orig.len() as int),
            v@.len() == orig.len() - i,
            remove_desc(orig, all) == remove_desc(
                v@,
                all.subrange(i as int, all.len() as int).map_values(|x: int| x - i),
            ),
        decreases indexes@.len() - i,
    {
        let ghost pending = all.subrange(i as int, all.len() as int).map_values(
            |x: int| x - i,
        );
        proof {
            assert(all.subrange(i as int, all.len() as int)[0] == all[i as int]);
            assert(pending[0] == all[i as int] - i);
            assert(all[i as int] == indexes@[i as int] as int);
            lemma_increasing_lower_bound(all, i as int);
            // Every pending target is in bounds of the shrunken list, and the
            // pending targets still increase strictly.
            assert forall|a: int| 0 <= a < pending.len() implies 0 <= #[trigger] pending[a]
                < v@.len() by {
                assert(pending[a] == all[i + a] - i);
                lemma_increasing_lower_bound(all, i + a);
                assert(all[i + a] < orig.len());
            }
            assert forall|a: int, b: int| 0 <= a < b < pending.len() implies
                #[trigger] pending[a] < #[trigger] pending[b] by {
                assert(all[i + a] < all[i + b]);
            }
            assert(valid_removal(pending, v@.len() as int));
        }
        let target = indexes[i] - i;
        proof {
            lemma_remove_desc_step(v@, pending);
            let next = all.subrange(i + 1, all.len() as int).map_values(|x: int| x - (i + 1));
            assert(pending.subrange(1, pending.len() as int).map_values(|x: int| x - 1)
                =~= next);
        }
        v.remove(target);
        i = i + 1;
    }
    proof {
        assert(all.subrange(all.len() as int, all.len() as int).map_values(|x: int| x - i)
            =~= Seq::<int>::empty());
    }
}

} // verus!
