//! The order in which nodes are updated.

use vstd::multiset::Multiset;
use vstd::prelude::*;
use vstd::seq_lib::*;
use vstd::string::*;

use super::metrics::shadow_views;
use crate::models::node::crd::v2::ShadowView;
use crate::models::node::crd::BottlerocketShadow;
use crate::text::str_eq;

verus! {

/// The rank of an object by its crashes; one without a status comes last.
pub open spec fn crash_rank(s: ShadowView) -> int {
    match s.status {
        Some(status) => status.crash_count as int,
        None => 0x1_0000_0000,
    }
}

/// The rank agrees with the order of objects by their crash counts.
pub proof fn rank_agrees_with_order(a: ShadowView, b: ShadowView)
    ensures
        a.crash_order(b) == std::cmp::Ordering::Less <==> crash_rank(a) < crash_rank(b),
        a.crash_order(b) == std::cmp::Ordering::Equal <==> crash_rank(a) == crash_rank(b),
        a.crash_order(b) == std::cmp::Ordering::Greater <==> crash_rank(a) > crash_rank(b),
{
}

/// A sequence with one more object, which is put behind all that rank no higher.
pub open spec fn insert_ranked(sorted: Seq<ShadowView>, x: ShadowView) -> Seq<ShadowView>
    decreases sorted.len(),
{
    if sorted.len() == 0 || crash_rank(sorted.last()) <= crash_rank(x) {
        sorted.push(x)
    } else {
        insert_ranked(sorted.drop_last(), x).push(sorted.last())
    }
}

/// The objects by rank; those of one rank in the order that they were in.
pub open spec fn ranked(s: Seq<ShadowView>) -> Seq<ShadowView>
    decreases s.len(),
{
    if s.len() == 0 {
        Seq::empty()
    } else {
        insert_ranked(ranked(s.drop_last()), s.last())
    }
}

/// Whether an object is at a place and no object before it has its name.
pub open spec fn first_named(s: Seq<ShadowView>, name: Seq<char>, p: int) -> bool {
    &&& 0 <= p < s.len()
    &&& s[p].metadata.name == Some(name)
    &&& forall|i: int| 0 <= i < p ==> (#[trigger] s[i]).metadata.name != Some(name)
}

/// The objects with the first one of a name moved to the end, if there is one.
pub open spec fn moved_last(s: Seq<ShadowView>, name: Seq<char>) -> Seq<ShadowView> {
    if exists|p: int| first_named(s, name, p) {
        let p = choose|p: int| first_named(s, name, p);
        s.remove(p).push(s[p])
    } else {
        s
    }
}

/// The order in which nodes are updated: by crashes, and the node that hosts the controller at
/// the end.
pub open spec fn update_order(s: Seq<ShadowView>, associated: Seq<char>) -> Seq<ShadowView> {
    moved_last(ranked(s), associated)
}

fn rank(s: &BottlerocketShadow) -> (r: u64)
    ensures
        r == crash_rank(s@),
{
    match &s.status {
        Some(status) => status.crash_count as u64,
        None => 0x1_0000_0000,
    }
}

/// Where an object goes in a sorted prefix.
proof fn lemma_insert_at(sorted: Seq<ShadowView>, x: ShadowView, p: int)
    requires
        0 <= p <= sorted.len(),
        p == 0 || crash_rank(sorted[p - 1]) <= crash_rank(x),
        forall|i: int| p <= i < sorted.len() ==> crash_rank(#[trigger] sorted[i]) > crash_rank(x),
    ensures
        insert_ranked(sorted, x) == sorted.insert(p, x),
    decreases sorted.len(),
{
    if sorted.len() == 0 || crash_rank(sorted.last()) <= crash_rank(x) {
        if p < sorted.len() {
            assert(crash_rank(sorted[sorted.len() - 1]) > crash_rank(x));
        }
        assert(sorted.push(x) =~= sorted.insert(p, x));
    } else {
        let shorter = sorted.drop_last();
        if p == sorted.len() {
            assert(sorted[p - 1] == sorted.last());
        }
        lemma_insert_at(shorter, x, p);
        assert(insert_ranked(sorted, x) =~= sorted.insert(p, x));
    }
}

/// sort shadows list which uses to determine the order of node update
/// logic1: sort shadows by crash count
/// logic2: move the shadow which associated bottlerocketshadow node hosts controller pod to the last
pub fn sort_shadows(shadows: &mut Vec<BottlerocketShadow>, associated_brs_name: &str)
    ensures
        shadow_views(final(shadows)@) == update_order(
            shadow_views(old(shadows)@),
            associated_brs_name@,
        ),
{
    // sort shadows by crash count
    let ghost start = shadow_views(shadows@);
    let mut i: usize = 0;
    while i < shadows.len()
        invariant
            i <= shadows@.len(),
            start.len() == shadows@.len(),
            shadow_views(shadows@).take(i as int) == ranked(start.take(i as int)),
            shadow_views(shadows@).skip(i as int) == start.skip(i as int),
        decreases shadows@.len() - i,
    {
        let ghost before = shadow_views(shadows@);
        let ghost x = before[i as int];
        let own: u64 = rank(&shadows[i]);
        let mut p: usize = i;
        while p > 0 && rank(&shadows[p - 1]) > own
            invariant
                p <= i,
                i < shadows@.len(),
                before == shadow_views(shadows@),
                own == crash_rank(x),
                forall|j: int| p <= j < i ==> crash_rank(#[trigger] before[j]) > crash_rank(x),
            decreases p,
        {
            assert(before[p - 1] == shadows@[p - 1]@);
            p = p - 1;
        }
        let ghost held = shadows@;
        proof {
            if p > 0 {
                assert(before[p - 1] == shadows@[p - 1]@);
            }
            let sorted = before.take(i as int);
            assert forall|j: int| p <= j < sorted.len() implies crash_rank(#[trigger] sorted[j])
                > crash_rank(x) by {
                assert(sorted[j] == before[j]);
            }
            lemma_insert_at(sorted, x, p as int);
            assert(start.take(i + 1).drop_last() =~= start.take(i as int));
            assert(start.take(i + 1).last() == x) by {
                assert(before.skip(i as int)[0] == start.skip(i as int)[0]);
            }
        }
        let brs = shadows.remove(i);
        shadows.insert(p, brs);
        proof {
            let after = shadow_views(shadows@);
            assert(after =~= before.remove(i as int).insert(p as int, x));
            assert(after.take(i + 1) =~= before.take(i as int).insert(p as int, x));
            assert(after.skip(i + 1) =~= before.skip(i + 1));
            assert(before.skip(i + 1) =~= before.skip(i as int).skip(1));
            assert(start.skip(i + 1) =~= start.skip(i as int).skip(1));
        }
        i = i + 1;
    }
    proof {
        assert(shadow_views(shadows@).take(i as int) =~= shadow_views(shadows@));
        assert(start.take(i as int) =~= start);
    }
    // move the shadow which associated bottlerocketshadow node hosts controller pod to the last
    let ghost sorted = shadow_views(shadows@);
    let mut position: usize = 0;
    while position < shadows.len() && !named(&shadows[position], associated_brs_name)
        invariant
            position <= shadows@.len(),
            sorted == shadow_views(shadows@),
            forall|j: int|
                0 <= j < position ==> (#[trigger] sorted[j]).metadata.name != Some(
                    associated_brs_name@,
                ),
        decreases shadows@.len() - position,
    {
        assert(sorted[position as int] == shadows@[position as int]@);
        position = position + 1;
    }
    // if it doesn't find the brs, it means some brss aren't ready and the program should skip sort.
    if position < shadows.len() {
        proof {
            assert(sorted[position as int] == shadows@[position as int]@);
            assert(first_named(sorted, associated_brs_name@, position as int));
            let p = choose|p: int| first_named(sorted, associated_brs_name@, p);
            assert(p == position) by {
                if p < position {
                    assert(sorted[p].metadata.name != Some(associated_brs_name@));
                }
                if position < p {
                    assert(sorted[position as int].metadata.name != Some(associated_brs_name@));
                }
            }
        }
        let last_brs = shadows.remove(position);
        shadows.push(last_brs);
        assert(shadow_views(shadows@) =~= sorted.remove(position as int).push(
            sorted[position as int],
        ));
    } else {
        proof {
            assert forall|p: int| !first_named(sorted, associated_brs_name@, p) by {
                if first_named(sorted, associated_brs_name@, p) {
                    assert(sorted[p].metadata.name != Some(associated_brs_name@));
                }
            }
        }
    }
}

fn named(brs: &BottlerocketShadow, name: &str) -> (r: bool)
    ensures
        r == (brs@.metadata.name == Some(name@)),
{
    match &brs.metadata.name {
        Some(n) => str_eq(n.as_str(), name),
        None => false,
    }
}

proof fn lemma_insert_ranked(sorted: Seq<ShadowView>, x: ShadowView)
    requires
        forall|i: int, j: int|
            0 <= i <= j < sorted.len() ==> crash_rank(sorted[i]) <= crash_rank(sorted[j]),
    ensures
        ({
            let r = insert_ranked(sorted, x);
            &&& r.len() == sorted.len() + 1
            &&& r.to_multiset() == sorted.to_multiset().insert(x)
            &&& forall|i: int, j: int| 0 <= i <= j < r.len() ==> crash_rank(r[i]) <= crash_rank(r[j])
            &&& crash_rank(r.last()) <= crash_rank(x) || (sorted.len() > 0 && crash_rank(r.last())
                == crash_rank(sorted.last()))
        }),
    decreases sorted.len(),
{
    broadcast use group_to_multiset_ensures;

    if sorted.len() == 0 || crash_rank(sorted.last()) <= crash_rank(x) {
        let r = sorted.push(x);
        assert forall|i: int, j: int| 0 <= i <= j < r.len() implies crash_rank(r[i]) <= crash_rank(
            r[j],
        ) by {
            if j == sorted.len() && i < sorted.len() {
                assert(crash_rank(sorted[i]) <= crash_rank(sorted[sorted.len() - 1]));
            }
        }
    } else {
        let shorter = sorted.drop_last();
        lemma_insert_ranked(shorter, x);
        let sub = insert_ranked(shorter, x);
        let r = sub.push(sorted.last());
        assert(sorted =~= shorter.push(sorted.last()));
        assert(sub.push(sorted.last()).to_multiset() == sub.to_multiset().insert(sorted.last()));
        assert(r.to_multiset() =~= sorted.to_multiset().insert(x));
        if shorter.len() > 0 {
            assert(crash_rank(sorted[sorted.len() - 2]) <= crash_rank(sorted[sorted.len() - 1]));
        }
        assert forall|i: int, j: int| 0 <= i <= j < r.len() implies crash_rank(r[i]) <= crash_rank(
            r[j],
        ) by {
            if j == sub.len() && i < sub.len() {
                assert(crash_rank(sub[i]) <= crash_rank(sub[sub.len() - 1]));
            }
        }
    }
}

/// Ranking objects keeps them all and puts fewer crashes before more.
pub proof fn ranking_sorts(s: Seq<ShadowView>)
    ensures
        ranked(s).len() == s.len(),
        ranked(s).to_multiset() == s.to_multiset(),
        forall|i: int, j: int|
            0 <= i <= j < s.len() ==> crash_rank(ranked(s)[i]) <= crash_rank(ranked(s)[j]),
    decreases s.len(),
{
    broadcast use group_to_multiset_ensures;

    if s.len() == 0 {
        assert(ranked(s) =~= s);
    } else {
        ranking_sorts(s.drop_last());
        lemma_insert_ranked(ranked(s.drop_last()), s.last());
        assert(s =~= s.drop_last().push(s.last()));
    }
}

/// The objects of one rank.
pub open spec fn of_rank(s: Seq<ShadowView>, rank: int) -> Seq<ShadowView> {
    s.filter(|x: ShadowView| crash_rank(x) == rank)
}

proof fn lemma_of_rank_push(s: Seq<ShadowView>, x: ShadowView, rank: int)
    ensures
        of_rank(s.push(x), rank) == if crash_rank(x) == rank {
            of_rank(s, rank).push(x)
        } else {
            of_rank(s, rank)
        },
{
    reveal(Seq::filter);
    assert(s.push(x).drop_last() =~= s);
}

proof fn lemma_insert_keeps_order(sorted: Seq<ShadowView>, x: ShadowView, rank: int)
    ensures
        of_rank(insert_ranked(sorted, x), rank) == of_rank(sorted.push(x), rank),
    decreases sorted.len(),
{
    if !(sorted.len() == 0 || crash_rank(sorted.last()) <= crash_rank(x)) {
        let shorter = sorted.drop_last();
        lemma_insert_keeps_order(shorter, x, rank);
        let sub = insert_ranked(shorter, x);
        lemma_of_rank_push(sub, sorted.last(), rank);
        lemma_of_rank_push(shorter, x, rank);
        lemma_of_rank_push(sorted, x, rank);
        lemma_of_rank_push(shorter, sorted.last(), rank);
        assert(sorted =~= shorter.push(sorted.last()));
    }
}

/// Ranking is stable: objects of one rank stay in the order that they were in.
pub proof fn ranking_is_stable(s: Seq<ShadowView>, rank: int)
    ensures
        of_rank(ranked(s), rank) == of_rank(s, rank),
    decreases s.len(),
{
    if s.len() > 0 {
        let shorter = s.drop_last();
        ranking_is_stable(shorter, rank);
        lemma_insert_keeps_order(ranked(shorter), s.last(), rank);
        lemma_of_rank_push(ranked(shorter), s.last(), rank);
        lemma_of_rank_push(shorter, s.last(), rank);
        assert(s =~= shorter.push(s.last()));
    }
}

/// The order of updates loses no node and adds none, and the node that hosts the controller, if
/// it is known, comes last.
pub proof fn update_order_keeps_nodes(s: Seq<ShadowView>, associated: Seq<char>)
    ensures
        update_order(s, associated).len() == s.len(),
        update_order(s, associated).to_multiset() == s.to_multiset(),
        (exists|i: int| 0 <= i < s.len() && (#[trigger] s[i]).metadata.name == Some(associated))
            ==> update_order(s, associated).len() > 0 && update_order(
            s,
            associated,
        ).last().metadata.name == Some(associated),
{
    broadcast use group_to_multiset_ensures;

    ranking_sorts(s);
    let r = ranked(s);
    if exists|p: int| first_named(r, associated, p) {
        let p = choose|p: int| first_named(r, associated, p);
        assert(r.remove(p).to_multiset() =~= r.to_multiset().remove(r[p]));
        assert(r.contains(r[p]));
        assert(update_order(s, associated).to_multiset() =~= r.to_multiset());
    }
    if exists|i: int| 0 <= i < s.len() && (#[trigger] s[i]).metadata.name == Some(associated) {
        let i = choose|i: int|
            0 <= i < s.len() && (#[trigger] s[i]).metadata.name == Some(associated);
        assert(s.contains(s[i]));
        assert(s.to_multiset().count(s[i]) > 0);
        assert(r.contains(s[i]));
        let q = choose|q: int| 0 <= q < r.len() && r[q] == s[i];
        lemma_first_named(r, associated, q);
    }
}

proof fn lemma_first_named(r: Seq<ShadowView>, name: Seq<char>, q: int)
    requires
        0 <= q < r.len(),
        r[q].metadata.name == Some(name),
    ensures
        exists|p: int| first_named(r, name, p),
    decreases q,
{
    if exists|i: int| 0 <= i < q && (#[trigger] r[i]).metadata.name == Some(name) {
        let i = choose|i: int| 0 <= i < q && (#[trigger] r[i]).metadata.name == Some(name);
        lemma_first_named(r, name, i);
    } else {
        assert(first_named(r, name, q));
    }
}

} // verus!
