//! Ordering a room's history by creation instant.
use vstd::prelude::*;
use crate::model::HistoryMessage;

verus! {

broadcast use vstd::seq_lib::group_to_multiset_ensures;

/// The entries' instants never decrease along the sequence.
pub open spec fn time_ordered(s: Seq<HistoryMessage>) -> bool {
    forall|i: int, j: int|
        0 <= i <= j < s.len() ==> s[i].created_at.micros <= s[j].created_at.micros
}

/// Where an entry created at `t` goes in `s`: just after the last entry,
/// scanning from the back, that was not created later than `t`.
pub open spec fn insertion_point(s: Seq<HistoryMessage>, t: i64) -> int
    decreases s.len(),
{
    if s.len() == 0 {
        0
    } else if s.last().created_at.micros > t {
        insertion_point(s.drop_last(), t)
    } else {
        s.len() as int
    }
}

/// The entries ordered by creation instant; entries created at the same
/// instant keep their given order.
pub open spec fn by_time(s: Seq<HistoryMessage>) -> Seq<HistoryMessage>
    decreases s.len(),
{
    if s.len() == 0 {
        s
    } else {
        let rest = by_time(s.drop_last());
        rest.insert(insertion_point(rest, s.last().created_at.micros), s.last())
    }
}

proof fn lemma_insertion_point(s: Seq<HistoryMessage>, t: i64)
    ensures
        0 <= insertion_point(s, t) <= s.len(),
        forall|k: int|
            insertion_point(s, t) <= k < s.len() ==> s[k].created_at.micros > t,
        time_ordered(s) ==> forall|k: int|
            0 <= k < insertion_point(s, t) ==> s[k].created_at.micros <= t,
    decreases s.len(),
{
    if s.len() > 0 {
        let d = s.drop_last();
        lemma_insertion_point(d, t);
        let p = insertion_point(s, t);
        if s.last().created_at.micros > t {
            assert forall|k: int| p <= k < s.len() implies s[k].created_at.micros > t by {
                if k < s.len() - 1 {
                    assert(s[k] == d[k]);
                }
            }
        }
        if time_ordered(s) {
            assert(time_ordered(d));
            if s.last().created_at.micros <= t {
                assert forall|k: int| 0 <= k < s.len() implies s[k].created_at.micros <= t by {
                    assert(s[k].created_at.micros <= s[s.len() - 1].created_at.micros);
                }
            } else {
                assert forall|k: int| 0 <= k < p implies s[k].created_at.micros <= t by {
                    assert(s[k] == d[k]);
                }
            }
        }
    }
}

proof fn lemma_insert_keeps_order(s: Seq<HistoryMessage>, x: HistoryMessage)
    requires
        time_ordered(s),
    ensures
        time_ordered(s.insert(insertion_point(s, x.created_at.micros), x)),
{
    lemma_insertion_point(s, x.created_at.micros);
}

/// Ordering by instant yields an ordered sequence holding exactly the given entries.
pub proof fn lemma_by_time(s: Seq<HistoryMessage>)
    ensures
        time_ordered(by_time(s)),
        by_time(s).to_multiset() == s.to_multiset(),
        by_time(s).len() == s.len(),
    decreases s.len(),
{
    if s.len() > 0 {
        let rest = by_time(s.drop_last());
        lemma_by_time(s.drop_last());
        lemma_insertion_point(rest, s.last().created_at.micros);
        lemma_insert_keeps_order(rest, s.last());
        vstd::seq_lib::to_multiset_insert(
            rest,
            insertion_point(rest, s.last().created_at.micros),
            s.last(),
        );
        vstd::seq_lib::to_multiset_build(s.drop_last(), s.last());
        assert(s.drop_last().push(s.last()) =~= s);
    }
}

/// The history entries ordered by creation instant, ties in their given order.
pub fn order_history(messages: Vec<HistoryMessage>) -> (r: Vec<HistoryMessage>)
    ensures
        r@ == by_time(messages@),
{
    let ghost given = messages@;
    let total = messages.len();
    assert(given.len() == total);
    let mut rest = messages;
    let mut out: Vec<HistoryMessage> = Vec::new();
    let mut taken: usize = 0;
    while rest.len() > 0
        invariant
            taken <= given.len() <= usize::MAX,
            rest@ == given.subrange(taken as int, given.len() as int),
            out@ == by_time(given.take(taken as int)),
        decreases rest.len(),
    {
        assert(taken < given.len());
        let m = rest.remove(0);
        let t = m.created_at.micros;
        let mut k: usize = out.len();
        assert(out@.take(k as int) =~= out@);
        while k > 0 && out[k - 1].created_at.micros > t
            invariant
                k <= out.len(),
                taken < given.len() <= usize::MAX,
                insertion_point(out@, t) == insertion_point(out@.take(k as int), t),
            decreases k,
        {
            assert(out@.take(k as int).drop_last() =~= out@.take(k - 1));
            k = k - 1;
        }
        proof {
            if k > 0 {
                assert(out@.take(k as int).last() == out@[k - 1]);
            }
        }
        assert(insertion_point(out@, t) == k);
        out.insert(k, m);
        taken = taken + 1;
        assert(given.take(taken as int).drop_last() =~= given.take(taken - 1));
        assert(given.take(taken as int).last() == m);
    }
    assert(given.take(given.len() as int) =~= given);
    out
}

} // verus!
