//! Masked removal from sequences: the collision resolver decides which
//! entities a tick dooms as a mask over the start-of-tick sequence, then
//! sweeps once, so every overlapping pair is processed and nothing is
//! removed twice.

use vstd::prelude::*;

verus! {

/// The elements of `s` whose mask entry is true, in order.
pub open spec fn keep_mask<T>(s: Seq<T>, m: Seq<bool>) -> Seq<T>
    recommends
        s.len() == m.len(),
    decreases s.len(),
{
    if s.len() == 0 {
        Seq::empty()
    } else {
        let pre = keep_mask(s.drop_last(), m.drop_last());
        if m[s.len() - 1] {
            pre.push(s.last())
        } else {
            pre
        }
    }
}

/// How many entries of `m` are true.
pub open spec fn count_true(m: Seq<bool>) -> int
    decreases m.len(),
{
    if m.len() == 0 {
        0
    } else {
        count_true(m.drop_last()) + if m.last() {
            1int
        } else {
            0int
        }
    }
}

/// Appending one element and one mask entry extends the kept sequence by
/// that element exactly when the entry is true.
pub proof fn lemma_keep_mask_push<T>(s: Seq<T>, m: Seq<bool>, e: T, b: bool)
    requires
        s.len() == m.len(),
    ensures
        keep_mask(s.push(e), m.push(b)) == if b {
            keep_mask(s, m).push(e)
        } else {
            keep_mask(s, m)
        },
{
    assert(s.push(e).drop_last() =~= s);
    assert(m.push(b).drop_last() =~= m);
    assert(s.push(e).last() == e);
}

/// Appending one mask entry raises the count exactly when it is true.
pub proof fn lemma_count_true_push(m: Seq<bool>, b: bool)
    ensures
        count_true(m.push(b)) == count_true(m) + if b {
            1int
        } else {
            0int
        },
{
    assert(m.push(b).drop_last() =~= m);
    assert(m.push(b).last() == b);
}

/// The kept sequence has as many elements as the mask has true entries.
pub proof fn lemma_keep_mask_len<T>(s: Seq<T>, m: Seq<bool>)
    requires
        s.len() == m.len(),
    ensures
        keep_mask(s, m).len() == count_true(m),
    decreases s.len(),
{
    if s.len() > 0 {
        lemma_keep_mask_len(s.drop_last(), m.drop_last());
        assert(m.last() == m[s.len() - 1]);
    }
}

/// The count of true entries never exceeds the length, and a false entry
/// keeps it strictly below.
pub proof fn lemma_count_true_bound(m: Seq<bool>)
    ensures
        0 <= count_true(m) <= m.len(),
        (exists|j: int| 0 <= j < m.len() && !m[j]) ==> count_true(m) < m.len(),
    decreases m.len(),
{
    if m.len() > 0 {
        lemma_count_true_bound(m.drop_last());
        if exists|j: int| 0 <= j < m.len() && !m[j] {
            let j = choose|j: int| 0 <= j < m.len() && !m[j];
            if j < m.len() - 1 {
                assert(!m.drop_last()[j]);
            }
        }
    }
}

} // verus!
