//! The order in which nodes are updated.

use vstd::prelude::*;

use crate::controller::sorting::{
    crash_rank, first_named, of_rank, ranked, ranking_is_stable, ranking_sorts, update_order,
    update_order_keeps_nodes,
};
use crate::models::node::crd::v2::ShadowView;

verus! {

/// Whether an object may stand before another one: it has crashed no more often, and one without a
/// status stands behind those with one.
pub open spec fn may_precede(a: ShadowView, b: ShadowView) -> bool {
    b.status is Some ==> a.status is Some && a.status->0.crash_count <= b.status->0.crash_count
}

proof fn lemma_rank(a: ShadowView, b: ShadowView)
    ensures
        crash_rank(a) <= crash_rank(b) <==> may_precede(a, b),
{
}

/// Nodes that crashed less often are updated first, and those of which nothing is known last. The
/// one exception is the node that hosts the controller: it is updated at the very end.
pub proof fn fewer_crashes_come_first(s: Seq<ShadowView>, associated: Seq<char>, i: int, j: int)
    requires
        0 <= i < j < s.len(),
        j < s.len() - 1 || (forall|k: int|
            0 <= k < s.len() ==> (#[trigger] s[k]).metadata.name != Some(associated)),
    ensures
        update_order(s, associated).len() == s.len(),
        may_precede(update_order(s, associated)[i], update_order(s, associated)[j]),
{
    let r = ranked(s);
    let u = update_order(s, associated);
    ranking_sorts(s);
    update_order_keeps_nodes(s, associated);
    if exists|p: int| first_named(r, associated, p) {
        let p = choose|p: int| first_named(r, associated, p);
        assert(r.contains(r[p]));
        assert(s.to_multiset().count(r[p]) > 0) by {
            broadcast use vstd::seq_lib::group_to_multiset_ensures;

            assert(r.to_multiset().count(r[p]) > 0);
        }
        assert(s.contains(r[p])) by {
            broadcast use vstd::seq_lib::group_to_multiset_ensures;

        }
        let k = choose|k: int| 0 <= k < s.len() && s[k] == r[p];
        assert(s[k].metadata.name == Some(associated));
        let i0: int = if i < p {
            i
        } else {
            i + 1
        };
        let j0: int = if j < p {
            j
        } else {
            j + 1
        };
        assert(u[i] == r[i0]);
        assert(u[j] == r[j0]);
        assert(crash_rank(r[i0]) <= crash_rank(r[j0]));
    } else {
        assert(crash_rank(r[i]) <= crash_rank(r[j]));
    }
    lemma_rank(u[i], u[j]);
}

/// The node that hosts the controller is updated last, where it is known; of several of its name it
/// is the one that crashed least.
pub proof fn controller_node_comes_last(s: Seq<ShadowView>, associated: Seq<char>, k: int)
    requires
        0 <= k < s.len(),
        s[k].metadata.name == Some(associated),
    ensures
        update_order(s, associated).len() == s.len(),
        update_order(s, associated).last().metadata.name == Some(associated),
        may_precede(update_order(s, associated).last(), s[k]),
{
    broadcast use vstd::seq_lib::group_to_multiset_ensures;

    update_order_keeps_nodes(s, associated);
    ranking_sorts(s);
    let r = ranked(s);
    assert(s.contains(s[k]));
    assert(r.to_multiset().count(s[k]) > 0);
    assert(r.contains(s[k]));
    let q = choose|q: int| 0 <= q < r.len() && r[q] == s[k];
    lemma_some_first(r, associated, q);
    let p = choose|p: int| first_named(r, associated, p);
    if q < p {
        assert(r[q].metadata.name != Some(associated));
    }
    assert(crash_rank(r[p]) <= crash_rank(r[q]));
    lemma_rank(r[p], s[k]);
}

proof fn lemma_some_first(r: Seq<ShadowView>, name: Seq<char>, q: int)
    requires
        0 <= q < r.len(),
        r[q].metadata.name == Some(name),
    ensures
        exists|p: int| first_named(r, name, p),
    decreases q,
{
    if exists|i: int| 0 <= i < q && (#[trigger] r[i]).metadata.name == Some(name) {
        let i = choose|i: int| 0 <= i < q && (#[trigger] r[i]).metadata.name == Some(name);
        lemma_some_first(r, name, i);
    } else {
        assert(first_named(r, name, q));
    }
}

proof fn lemma_filter_twice(
    s: Seq<ShadowView>,
    p: spec_fn(ShadowView) -> bool,
    q: spec_fn(ShadowView) -> bool,
    both: spec_fn(ShadowView) -> bool,
)
    requires
        forall|x: ShadowView| #[trigger] both(x) == (p(x) && q(x)),
    ensures
        s.filter(both) == s.filter(p).filter(q),
    decreases s.len(),
{
    reveal(Seq::filter);
    if s.len() > 0 {
        lemma_filter_twice(s.drop_last(), p, q, both);
        assert(both(s.last()) == (p(s.last()) && q(s.last())));
        let shorter = s.drop_last().filter(p);
        assert(shorter.push(s.last()).drop_last() =~= shorter);
    }
}

proof fn lemma_filter_moved(s: Seq<ShadowView>, p: int, keep: spec_fn(ShadowView) -> bool)
    requires
        0 <= p < s.len(),
        !keep(s[p]),
    ensures
        s.remove(p).push(s[p]).filter(keep) == s.filter(keep),
{
    let head = s.take(p);
    let tail = s.skip(p + 1);
    let one = seq![s[p]];
    assert(s =~= head + one + tail);
    assert(s.remove(p).push(s[p]) =~= head + tail + one);
    Seq::filter_distributes_over_add(head + one, tail, keep);
    Seq::filter_distributes_over_add(head, one, keep);
    Seq::filter_distributes_over_add(head + tail, one, keep);
    Seq::filter_distributes_over_add(head, tail, keep);
    assert(one.filter(keep) =~= Seq::<ShadowView>::empty()) by {
        reveal(Seq::filter);
        assert(one.drop_last() =~= Seq::<ShadowView>::empty());
        assert(one.drop_last().filter(keep) =~= Seq::<ShadowView>::empty());
        assert(one.last() == s[p]);
    }
    assert(head.filter(keep) + one.filter(keep) + tail.filter(keep) =~= head.filter(keep)
        + tail.filter(keep) + one.filter(keep));
}

/// Nodes that crashed equally often stay in the order that they were in, and so do those of which
/// nothing is known. (The node that hosts the controller is left out.)
pub proof fn equal_nodes_keep_their_order(
    s: Seq<ShadowView>,
    associated: Seq<char>,
    crash_count: Option<u32>,
    alike: spec_fn(ShadowView) -> bool,
)
    requires
        forall|x: ShadowView| #[trigger]
            alike(x) == (x.metadata.name != Some(associated) && match crash_count {
                Some(c) => x.status is Some && x.status->0.crash_count == c,
                None => x.status is None,
            }),
    ensures
        update_order(s, associated).filter(alike) == s.filter(alike),
{
    let rank = match crash_count {
        Some(c) => c as int,
        None => 0x1_0000_0000,
    };
    let r = ranked(s);
    let of = |x: ShadowView| crash_rank(x) == rank;
    let other = |x: ShadowView| x.metadata.name != Some(associated);
    ranking_is_stable(s, rank);
    assert(of_rank(r, rank) == r.filter(of));
    assert(of_rank(s, rank) == s.filter(of));
    assert forall|x: ShadowView| #[trigger] alike(x) == (of(x) && other(x)) by {}
    lemma_filter_twice(s, of, other, alike);
    lemma_filter_twice(r, of, other, alike);
    if exists|p: int| first_named(r, associated, p) {
        let p = choose|p: int| first_named(r, associated, p);
        lemma_filter_moved(r, p, alike);
    }
}

} // verus!
