//! The loop of the controller: what it does next, and to which nodes.

use vstd::prelude::*;
use vstd::string::*;

use super::controllerclient_error::Error;
use super::metrics::shadow_views;
use super::scheduler::{outside_window, BrupopCronScheduler};
use super::sorting::{sort_shadows, update_order};
use super::statemachine::{
    determine_next_node_spec_at, next_node_spec_is_known, next_spec, next_spec_is_known,
};
use crate::models::constants::{BRUPOP_INTERFACE_VERSION, LABEL_BRUPOP_INTERFACE_NAME};
use crate::models::meta::{ObjectMeta, ObjectMetaView};
use crate::models::node::crd::selector::{brs_name, selects};
use crate::models::node::crd::v2::ShadowView;
use crate::models::node::crd::{
    brs_name_from_node_name, BottlerocketShadow, BottlerocketShadowSelector, BottlerocketShadowSpec,
    BottlerocketShadowState, Selector,
};
use crate::text::{
    contains_text, lowercase, parse_unsigned, parsed_unsigned, str_before, str_eq, text_before,
    text_order_is_total, texts, to_lower, usize_error, usize_error_text,
};
use crate::time::{Instant, Timestamp};

verus! {

/// The seconds after which the controller will take actions.
pub const ACTION_INTERVAL: u64 = 2;

/// The seconds between control loop polls if no nodes are detected.
pub const CANNOT_FIND_ANY_NODES_WAIT_INTERVAL: u64 = 10;

/// Environment variable name used to fetch max concurrent update number.
pub const MAX_CONCURRENT_UPDATE_ENV_VAR: &'static str = "MAX_CONCURRENT_UPDATE";

/// Environment variable that holds the name of the node that hosts the controller.
pub const MY_NODE_NAME_ENV_VAR: &'static str = "MY_NODE_NAME";

/// Whether a node is being acted upon: it is not idle, or its desired state is not its current
/// state.
pub open spec fn is_active(brs: ShadowView) -> bool {
    brs.status is Some && (brs.status->0.current_state != BottlerocketShadowState::Idle
        || brs.status->0.current_state != brs.spec.state)
}

/// The objects that are being acted upon, by name. Of objects of one name the last counts.
pub open spec fn active_map(brss: Seq<ShadowView>) -> Map<Seq<char>, ShadowView>
    decreases brss.len(),
{
    if brss.len() == 0 {
        Map::empty()
    } else {
        let rest = active_map(brss.drop_last());
        if is_active(brss.last()) {
            rest.insert(brss.last().metadata.any_name(), brss.last())
        } else {
            rest
        }
    }
}

/// Whether a list holds the entries of a map in the order of their names.
pub open spec fn lists_in_order(
    list: Seq<(String, BottlerocketShadow)>,
    m: Map<Seq<char>, ShadowView>,
) -> bool {
    &&& forall|i: int|
        0 <= i < list.len() ==> m.contains_key((#[trigger] list[i]).0@) && m[list[i].0@]
            == list[i].1@
    &&& forall|k: Seq<char>| #[trigger]
        m.contains_key(k) ==> exists|i: int| 0 <= i < list.len() && (#[trigger] list[i]).0@ == k
    &&& forall|i: int, j: int|
        0 <= i < j < list.len() ==> text_before((#[trigger] list[i]).0@, (#[trigger] list[j]).0@)
}

/// Returns the set of BottlerocketShadow objects which is currently being acted upon.
///
/// Nodes are being acted upon if they are not in the `WaitingForUpdate` state, or if their desired state does
/// not match their current state.
pub fn active_brs_set(all_brss: &Vec<BottlerocketShadow>) -> (r: Vec<(String, BottlerocketShadow)>)
    ensures
        lists_in_order(r@, active_map(shadow_views(all_brss@))),
{
    let mut active: Vec<(String, BottlerocketShadow)> = Vec::new();
    let ghost all = shadow_views(all_brss@);
    let mut i: usize = 0;
    while i < all_brss.len()
        invariant
            i <= all_brss@.len(),
            all == shadow_views(all_brss@),
            lists_in_order(active@, active_map(all.take(i as int))),
        decreases all_brss@.len() - i,
    {
        proof {
            assert(all.take(i + 1).drop_last() =~= all.take(i as int));
            assert(all.take(i + 1).last() == all[i as int]);
            assert(all[i as int] == all_brss@[i as int]@);
        }
        if brs_is_active(&all_brss[i]) {
            let name = all_brss[i].metadata.name_any();
            insert_in_order(
                &mut active,
                name,
                all_brss[i].copy(),
                Ghost(active_map(all.take(i as int))),
            );
        }
        i = i + 1;
    }
    assert(all.take(i as int) =~= all);
    active
}

fn brs_is_active(brs: &BottlerocketShadow) -> (r: bool)
    ensures
        r == is_active(brs@),
{
    match &brs.status {
        None => false,
        Some(status) => status.current_state != BottlerocketShadowState::Idle
            || !brs.has_reached_desired_state(),
    }
}

fn insert_in_order(
    list: &mut Vec<(String, BottlerocketShadow)>,
    name: String,
    brs: BottlerocketShadow,
    Ghost(m): Ghost<Map<Seq<char>, ShadowView>>,
)
    requires
        lists_in_order(old(list)@, m),
    ensures
        lists_in_order(final(list)@, m.insert(name@, brs@)),
{
    let mut p: usize = 0;
    while p < list.len() && str_before(list[p].0.as_str(), name.as_str())
        invariant
            p <= list@.len(),
            forall|j: int| 0 <= j < p ==> text_before((#[trigger] list@[j]).0@, name@),
        decreases list@.len() - p,
    {
        p = p + 1;
    }
    let ghost before = list@;
    let ghost key = name@;
    let ghost value = brs@;
    if p < list.len() && str_eq(list[p].0.as_str(), name.as_str()) {
        list.set(p, (name, brs));
        proof {
            lemma_replaced(before, list@, m, key, value, p as int);
        }
    } else {
        list.insert(p, (name, brs));
        proof {
            lemma_inserted(before, list@, m, key, value, p as int);
        }
    }
}

proof fn lemma_replaced(
    before: Seq<(String, BottlerocketShadow)>,
    after: Seq<(String, BottlerocketShadow)>,
    m: Map<Seq<char>, ShadowView>,
    key: Seq<char>,
    value: ShadowView,
    p: int,
)
    requires
        lists_in_order(before, m),
        0 <= p < before.len(),
        before[p].0@ == key,
        after.len() == before.len(),
        after[p].0@ == key,
        after[p].1@ == value,
        forall|j: int| 0 <= j < before.len() && j != p ==> #[trigger] after[j] == before[j],
    ensures
        lists_in_order(after, m.insert(key, value)),
{
    let n = m.insert(key, value);
    assert forall|i: int| 0 <= i < after.len() implies n.contains_key((#[trigger] after[i]).0@)
        && n[after[i].0@] == after[i].1@ by {
        if i != p {
            assert(after[i] == before[i]);
            assert(before[i].0@ != key) by {
                if i < p {
                    text_order_is_total(before[i].0@, before[p].0@, key);
                } else {
                    text_order_is_total(before[p].0@, before[i].0@, key);
                }
            }
        }
    }
    assert forall|k: Seq<char>| #[trigger] n.contains_key(k) implies exists|i: int|
        0 <= i < after.len() && (#[trigger] after[i]).0@ == k by {
        if k == key {
            assert(after[p].0@ == k);
        } else {
            assert(m.contains_key(k));
            let i = choose|i: int| 0 <= i < before.len() && (#[trigger] before[i]).0@ == k;
            assert(after[i].0@ == k);
        }
    }
    assert forall|i: int, j: int| 0 <= i < j < after.len() implies text_before(
        (#[trigger] after[i]).0@,
        (#[trigger] after[j]).0@,
    ) by {
        assert(after[i].0@ == before[i].0@);
        assert(after[j].0@ == before[j].0@);
    }
}

proof fn lemma_inserted(
    before: Seq<(String, BottlerocketShadow)>,
    after: Seq<(String, BottlerocketShadow)>,
    m: Map<Seq<char>, ShadowView>,
    key: Seq<char>,
    value: ShadowView,
    p: int,
)
    requires
        lists_in_order(before, m),
        0 <= p <= before.len(),
        forall|j: int| 0 <= j < p ==> text_before((#[trigger] before[j]).0@, key),
        p < before.len() ==> !text_before(before[p].0@, key) && before[p].0@ != key,
        after.len() == before.len() + 1,
        after[p].0@ == key,
        after[p].1@ == value,
        after == before.insert(p, after[p]),
    ensures
        lists_in_order(after, m.insert(key, value)),
{
    let n = m.insert(key, value);
    assert forall|i: int| p <= i < before.len() implies text_before(
        key,
        (#[trigger] before[i]).0@,
    ) by {
        text_order_is_total(key, before[p].0@, before[i].0@);
        if i > p {
            assert(text_before(before[p].0@, before[i].0@));
        }
    }
    assert forall|i: int| 0 <= i < before.len() implies (#[trigger] before[i]).0@ != key by {
        text_order_is_total(before[i].0@, key, key);
        if i < p {
            assert(text_before(before[i].0@, key));
        } else {
            assert(text_before(key, before[i].0@));
        }
    }
    assert forall|i: int| 0 <= i < after.len() implies n.contains_key((#[trigger] after[i]).0@)
        && n[after[i].0@] == after[i].1@ by {
        if i < p {
            assert(after[i] == before[i]);
        } else if i > p {
            assert(after[i] == before[i - 1]);
        }
    }
    assert forall|k: Seq<char>| #[trigger] n.contains_key(k) implies exists|i: int|
        0 <= i < after.len() && (#[trigger] after[i]).0@ == k by {
        if k == key {
            assert(after[p].0@ == k);
        } else {
            assert(m.contains_key(k));
            let i = choose|i: int| 0 <= i < before.len() && (#[trigger] before[i]).0@ == k;
            if i < p {
                assert(after[i].0@ == k);
            } else {
                assert(after[i + 1].0@ == k);
            }
        }
    }
    assert forall|i: int, j: int| 0 <= i < j < after.len() implies text_before(
        (#[trigger] after[i]).0@,
        (#[trigger] after[j]).0@,
    ) by {
        if i < p {
            assert(after[i] == before[i]);
        } else if i > p {
            assert(after[i] == before[i - 1]);
        }
        if j < p {
            assert(after[j] == before[j]);
        } else if j > p {
            assert(after[j] == before[j - 1]);
        }
    }
}

/// Whether a node can be progressed: it has reached its desired state or has crashed.
pub open spec fn can_progress(brs: ShadowView) -> bool {
    brs.status is Some && (brs.status->0.current_state == brs.spec.state
        || brs.status->0.current_state == BottlerocketShadowState::ErrorReset)
}

/// Determines next actions for a BottlerocketShadow: the node and the spec that it is given, or
/// nothing while the node is still making progress towards its current spec.
pub fn progress_node(node: &BottlerocketShadow, now: Timestamp) -> (r: Result<
    Option<(BottlerocketShadowSelector, BottlerocketShadowSpec)>,
    Error,
>)
    requires
        can_progress(node@) ==> next_spec_is_known(node@),
    ensures
        !can_progress(node@) ==> r is Ok && r->Ok_0 is None,
        can_progress(node@) ==> match r {
            Ok(Some((selector, spec))) => selects(node@.metadata, Ok(selector)) && spec@
                == next_spec(node@, now@),
            Ok(None) => false,
            Err(e) => e is NodeSelectorCreation && selects(
                node@.metadata,
                Err(e->NodeSelectorCreation_source),
            ),
        },
{
    if node.has_reached_desired_state() || node.has_crashed() {
        let desired_spec = determine_next_node_spec_at(node, now);
        match node.selector() {
            Ok(selector) => Ok(Some((selector, desired_spec))),
            Err(source) => Err(Error::NodeSelectorCreation { source }),
        }
    } else {
        // Node is still making progress towards its current spec.
        Ok(None)
    }
}

/// Determines next actions for a BottlerocketShadow, or none where the object cannot be read.
pub fn checked_progress_node(node: &BottlerocketShadow, now: Timestamp) -> (r: Option<
    Result<Option<(BottlerocketShadowSelector, BottlerocketShadowSpec)>, Error>,
>)
    ensures
        match r {
            None => can_progress(node@) && !next_spec_is_known(node@),
            Some(Ok(None)) => !can_progress(node@),
            Some(Ok(Some(p))) => {
                &&& can_progress(node@)
                &&& selects(node@.metadata, Ok(p.0))
                &&& p.1@ == next_spec(node@, now@)
            },
            Some(Err(e)) => {
                &&& can_progress(node@)
                &&& e is NodeSelectorCreation
                &&& selects(node@.metadata, Err(e->NodeSelectorCreation_source))
            },
        },
        r is None <==> can_progress(node@) && !next_spec_is_known(node@),
{
    if (node.has_reached_desired_state() || node.has_crashed()) && !next_node_spec_is_known(node) {
        None
    } else {
        Some(progress_node(node, now))
    }
}

/// Whether an update can begin on a node: it is in its initial state, and its spec should change.
pub open spec fn is_ready(brs: ShadowView, now: Instant) -> bool {
    next_spec(brs, now) != brs.spec && in_initial_state(brs)
}

/// Whether a node has no status or is idle.
pub open spec fn in_initial_state(brs: ShadowView) -> bool {
    brs.status is Some ==> brs.status->0.current_state == BottlerocketShadowState::Idle
}

/// Whether the first node that is ready from a place on, and all before it, can be read.
pub open spec fn known_until_ready(brss: Seq<ShadowView>, from: int, now: Instant) -> bool {
    forall|i: int|
        from <= i < brss.len() && (forall|j: int| from <= j < i ==> !is_ready(brss[j], now))
            ==> next_spec_is_known(#[trigger] brss[i])
}

/// The place of the first node, from a place on, that can be transitioned from initial state to a
/// new state. The nodes are given in the order in which they are updated.
pub fn find_ready_brs(shadows: &Vec<BottlerocketShadow>, from: usize, now: Timestamp) -> (r: Option<
    usize,
>)
    requires
        known_until_ready(shadow_views(shadows@), from as int, now@),
    ensures
        match r {
            Some(p) => {
                &&& from <= p < shadows@.len()
                &&& is_ready(shadows@[p as int]@, now@)
                &&& forall|i: int| from <= i < p ==> !is_ready((#[trigger] shadows@[i])@, now@)
            },
            None => forall|i: int|
                from <= i < shadows@.len() ==> !is_ready((#[trigger] shadows@[i])@, now@),
        },
{
    let ghost all = shadow_views(shadows@);
    let mut i: usize = from;
    while i < shadows.len()
        invariant
            from <= i,
            all == shadow_views(shadows@),
            known_until_ready(all, from as int, now@),
            forall|j: int| from <= j < i && j < shadows@.len() ==> !is_ready((#[trigger] shadows@[j])@, now@),
        decreases shadows@.len() - i,
    {
        proof {
            assert forall|j: int| from <= j < i implies !is_ready(all[j], now@) by {
                assert(all[j] == shadows@[j]@);
            }
            assert(next_spec_is_known(all[i as int]));
            assert(all[i as int] == shadows@[i as int]@);
        }
        // If we determine that the spec should change, this node is a candidate to begin updating.
        let next = determine_next_node_spec_at(&shadows[i], now);
        if !next.same(&shadows[i].spec) && is_initial_state(&shadows[i]) {
            return Some(i);
        }
        i = i + 1;
    }
    None
}

/// The place of the first node, from a place on, on which an update can begin. The search ends
/// without a result at a node that cannot be read; its place is then in the error.
pub fn checked_find_ready_brs(shadows: &Vec<BottlerocketShadow>, from: usize, now: Timestamp) -> (r:
    Result<Option<usize>, usize>)
    ensures
        match r {
            Ok(Some(p)) => {
                &&& from <= p < shadows@.len()
                &&& is_ready(shadows@[p as int]@, now@)
                &&& forall|i: int| from <= i < p ==> !is_ready((#[trigger] shadows@[i])@, now@)
            },
            Ok(None) => forall|i: int|
                from <= i < shadows@.len() ==> !is_ready((#[trigger] shadows@[i])@, now@),
            Err(p) => {
                &&& from <= p < shadows@.len()
                &&& !next_spec_is_known(shadows@[p as int]@)
                &&& forall|i: int| from <= i < p ==> !is_ready((#[trigger] shadows@[i])@, now@)
            },
        },
        r is Ok <==> known_until_ready(shadow_views(shadows@), from as int, now@),
{
    let ghost all = shadow_views(shadows@);
    let mut i: usize = from;
    while i < shadows.len()
        invariant
            from <= i,
            all == shadow_views(shadows@),
            forall|j: int|
                from <= j < i && j < shadows@.len() ==> next_spec_is_known(
                    (#[trigger] shadows@[j])@,
                ) && !is_ready(shadows@[j]@, now@),
        decreases shadows@.len() - i,
    {
        if !next_node_spec_is_known(&shadows[i]) {
            proof {
                assert(all[i as int] == shadows@[i as int]@);
                assert forall|j: int| from <= j < i implies !is_ready(all[j], now@) by {
                    assert(all[j] == shadows@[j]@);
                }
                assert(!next_spec_is_known(all[i as int]));
            }
            return Err(i);
        }
        let next = determine_next_node_spec_at(&shadows[i], now);
        if !next.same(&shadows[i].spec) && is_initial_state(&shadows[i]) {
            proof {
                assert forall|k: int|
                    from <= k < all.len() && (forall|j: int|
                        from <= j < k ==> !is_ready(all[j], now@)) implies next_spec_is_known(
                    #[trigger] all[k],
                ) by {
                    assert(all[k] == shadows@[k]@);
                    if k > i {
                        assert(all[i as int] == shadows@[i as int]@);
                        assert(!is_ready(all[i as int], now@));
                    }
                }
            }
            return Ok(find_ready_brs(shadows, from, now));
        }
        i = i + 1;
    }
    proof {
        assert forall|k: int| from <= k < all.len() implies next_spec_is_known(
            #[trigger] all[k],
        ) by {
            assert(all[k] == shadows@[k]@);
        }
    }
    Ok(None)
}

/// Whether an update can begin on any of some nodes.
pub open spec fn some_ready(brss: Seq<ShadowView>, now: Instant) -> bool {
    exists|i: int| 0 <= i < brss.len() && is_ready(#[trigger] brss[i], now)
}

/// Whether an update can begin on any node.
pub fn nodes_ready_to_update(all_brss: &Vec<BottlerocketShadow>, now: Timestamp) -> (r: bool)
    requires
        known_until_ready(shadow_views(all_brss@), 0, now@),
    ensures
        r == exists|i: int| 0 <= i < all_brss@.len() && is_ready((#[trigger] all_brss@[i])@, now@),
        r == some_ready(shadow_views(all_brss@), now@),
{
    proof {
        lemma_some_ready(all_brss@, now@);
    }
    match find_ready_brs(all_brss, 0, now) {
        Some(p) => {
            assert(is_ready(all_brss@[p as int]@, now@));
            true
        },
        None => false,
    }
}

proof fn lemma_some_ready(all_brss: Seq<BottlerocketShadow>, now: Instant)
    ensures
        some_ready(shadow_views(all_brss), now) == exists|i: int|
            0 <= i < all_brss.len() && is_ready((#[trigger] all_brss[i])@, now),
{
    let all = shadow_views(all_brss);
    if some_ready(all, now) {
        let i = choose|i: int| 0 <= i < all.len() && is_ready(#[trigger] all[i], now);
        assert(is_ready(all_brss[i]@, now));
    }
    if exists|i: int| 0 <= i < all_brss.len() && is_ready((#[trigger] all_brss[i])@, now) {
        let i = choose|i: int|
            0 <= i < all_brss.len() && is_ready((#[trigger] all_brss[i])@, now);
        assert(is_ready(all[i], now));
    }
}

/// Whether an update can begin on any node; none where a node cannot be read before one is found.
pub fn checked_nodes_ready_to_update(all_brss: &Vec<BottlerocketShadow>, now: Timestamp) -> (r:
    Option<bool>)
    ensures
        match r {
            Some(b) => b == exists|i: int|
                0 <= i < all_brss@.len() && is_ready((#[trigger] all_brss@[i])@, now@),
            None => exists|i: int|
                0 <= i < all_brss@.len() && !next_spec_is_known((#[trigger] all_brss@[i])@),
        },
        r is Some ==> r->0 == some_ready(shadow_views(all_brss@), now@),
        r is Some <==> known_until_ready(shadow_views(all_brss@), 0, now@),
{
    let ghost all = shadow_views(all_brss@);
    proof {
        lemma_some_ready(all_brss@, now@);
    }
    match checked_find_ready_brs(all_brss, 0, now) {
        Ok(Some(p)) => {
            assert(is_ready(all_brss@[p as int]@, now@));
            Some(true)
        },
        Ok(None) => {
            Some(false)
        },
        Err(p) => {
            assert(!next_spec_is_known(all_brss@[p as int]@));
            None
        },
    }
}

/// Puts the nodes in the order in which they are updated. The name of the node that hosts the
/// controller is given, or the reason why it is not known.
pub fn order_for_update(
    shadows: &mut Vec<BottlerocketShadow>,
    node_name: Result<String, String>,
) -> (r: Result<(), Error>)
    ensures
        match node_name {
            Ok(n) => r is Ok && shadow_views(final(shadows)@) == update_order(
                shadow_views(old(shadows)@),
                brs_name(n@),
            ),
            Err(e) => {
                &&& r is Err
                &&& is_missing_variable(r->Err_0, MY_NODE_NAME_ENV_VAR@, e@)
                &&& *final(shadows) == *old(shadows)
            },
        },
{
    match get_associated_bottlerocketshadow_name(node_name) {
        Ok(associated) => {
            sort_shadows(shadows, associated.as_str());
            Ok(())
        },
        Err(e) => Err(e),
    }
}

/// What the search for a node on which an update can begin does next.
#[derive(Clone, Copy, Debug, PartialEq, Eq, Structural)]
pub enum SearchStep {
    /// Push the node at a place forward.
    Progress(usize),
    /// The search is over: an update began on the node at a place, or on none.
    Finish(Option<usize>),
    /// The node at a place cannot be read.
    Unreadable(usize),
}

/// The place from which the search goes on, given the node that was pushed forward last and
/// whether that succeeded.
pub open spec fn search_from(last: Option<(usize, bool)>) -> int {
    match last {
        Some((p, _)) => p + 1,
        None => 0,
    }
}

/// Whether a step of the search is the one that follows the node that was pushed forward last.
pub open spec fn is_search_step(
    brss: Seq<ShadowView>,
    last: Option<(usize, bool)>,
    now: Instant,
    step: SearchStep,
) -> bool {
    match last {
        Some((p, true)) => step == SearchStep::Finish(Some(p)),
        _ => match step {
            SearchStep::Progress(p) => {
                &&& search_from(last) <= p < brss.len()
                &&& is_ready(brss[p as int], now)
                &&& forall|i: int| search_from(last) <= i < p ==> !is_ready(#[trigger] brss[i], now)
            },
            SearchStep::Finish(begun) => {
                &&& begun is None
                &&& forall|i: int|
                    search_from(last) <= i < brss.len() ==> !is_ready(#[trigger] brss[i], now)
            },
            SearchStep::Unreadable(p) => {
                &&& search_from(last) <= p < brss.len()
                &&& !next_spec_is_known(brss[p as int])
                &&& forall|i: int| search_from(last) <= i < p ==> !is_ready(#[trigger] brss[i], now)
            },
        },
    }
}

/// This function searches all `BottlerocketShadow`s, in the order in which they are updated, for those
/// which can be transitioned from initial state to a new state.
/// The state transition is then attempted: `last` is the place of the node of the last attempt, and
/// whether it succeeded. Where it failed, the search moves on to a different node. If successful,
/// this node should be detected as part of the active set during the next iteration of the
/// controller's event loop.
pub fn find_and_update_ready_brs(
    shadows: &Vec<BottlerocketShadow>,
    last: Option<(usize, bool)>,
    now: Timestamp,
) -> (r: SearchStep)
    ensures
        match last {
            Some((p, true)) => r == SearchStep::Finish(Some(p)),
            _ => match r {
                SearchStep::Progress(p) => {
                    &&& search_from(last) <= p < shadows@.len()
                    &&& is_ready(shadows@[p as int]@, now@)
                    &&& forall|i: int|
                        search_from(last) <= i < p ==> !is_ready((#[trigger] shadows@[i])@, now@)
                },
                SearchStep::Finish(begun) => {
                    &&& begun is None
                    &&& forall|i: int|
                        search_from(last) <= i < shadows@.len() ==> !is_ready(
                            (#[trigger] shadows@[i])@,
                            now@,
                        )
                },
                SearchStep::Unreadable(p) => {
                    &&& search_from(last) <= p < shadows@.len()
                    &&& !next_spec_is_known(shadows@[p as int]@)
                    &&& forall|i: int|
                        search_from(last) <= i < p ==> !is_ready((#[trigger] shadows@[i])@, now@)
                },
            },
        },
        is_search_step(shadow_views(shadows@), last, now@, r),
        (last is None || !(last->0).1) ==> (r is Unreadable <==> !known_until_ready(
            shadow_views(shadows@),
            search_from(last),
            now@,
        )),
{
    let from: usize = match last {
        Some((p, true)) => {
            return SearchStep::Finish(Some(p));
        },
        // Errors connecting to the k8s API are ignored.
        // We'll just move on and try a different node.
        Some((p, false)) => {
            if p < shadows.len() {
                p + 1
            } else {
                shadows.len()
            }
        },
        None => 0,
    };
    match checked_find_ready_brs(shadows, from, now) {
        Ok(Some(p)) => SearchStep::Progress(p),
        Ok(None) => SearchStep::Finish(None),
        Err(p) => SearchStep::Unreadable(p),
    }
}

/// Whether a maintenance window goes on: we end it if it's unable to find ready node, or the time
/// window has ended. None where the window has not ended and a node cannot be read before one is
/// found.
pub fn window_continues(
    scheduler: &BrupopCronScheduler,
    all_brss: &Vec<BottlerocketShadow>,
    now: Timestamp,
) -> (r: Option<bool>)
    ensures
        match r {
            Some(b) => b == (!outside_window(scheduler@, now@) && exists|i: int|
                0 <= i < all_brss@.len() && is_ready((#[trigger] all_brss@[i])@, now@)),
            None => !outside_window(scheduler@, now@) && exists|i: int|
                0 <= i < all_brss@.len() && !next_spec_is_known((#[trigger] all_brss@[i])@),
        },
        r is Some ==> r->0 == (!outside_window(scheduler@, now@) && some_ready(
            shadow_views(all_brss@),
            now@,
        )),
        r is Some <==> outside_window(scheduler@, now@) || known_until_ready(
            shadow_views(all_brss@),
            0,
            now@,
        ),
{
    proof {
        lemma_some_ready(all_brss@, now@);
    }
    if scheduler.should_discontinue_updates_impl(now) {
        Some(false)
    } else {
        checked_nodes_ready_to_update(all_brss, now)
    }
}

/// Determine if a BottlerocketShadow is in default or None status.
pub fn is_initial_state(brs: &BottlerocketShadow) -> (r: bool)
    ensures
        r == in_initial_state(brs@),
{
    match &brs.status {
        None => true,
        Some(status) => status.current_state == BottlerocketShadowState::Idle,
    }
}

/// Whether a node carries the label of this version of the interface.
pub open spec fn is_labeled(node: ObjectMetaView) -> bool {
    &&& node.labels is Some
    &&& node.labels->0.contains_key(LABEL_BRUPOP_INTERFACE_NAME@)
    &&& node.labels->0[LABEL_BRUPOP_INTERFACE_NAME@] == BRUPOP_INTERFACE_VERSION@
}

/// Whether a node carries the label of this version of the interface.
pub fn node_has_label(node: &ObjectMeta) -> (r: bool)
    ensures
        r == is_labeled(node@),
{
    match &node.labels {
        None => false,
        Some(labels) => match labels.get(LABEL_BRUPOP_INTERFACE_NAME) {
            None => false,
            Some(version) => str_eq(version.as_str(), BRUPOP_INTERFACE_VERSION),
        },
    }
}

/// The metadata of nodes.
pub open spec fn meta_views(nodes: Seq<ObjectMeta>) -> Seq<ObjectMetaView> {
    nodes.map_values(|n: ObjectMeta| n@)
}

/// The names of the nodes that do not carry the label, in their order.
pub open spec fn unlabeled_names(nodes: Seq<ObjectMetaView>) -> Seq<Seq<char>>
    decreases nodes.len(),
{
    if nodes.len() == 0 {
        Seq::empty()
    } else if is_labeled(nodes.last()) {
        unlabeled_names(nodes.drop_last())
    } else {
        unlabeled_names(nodes.drop_last()).push(nodes.last().any_name())
    }
}

/// The names of the nodes that do not carry the label.
pub fn find_unlabeled_nodes(nodes: &Vec<ObjectMeta>) -> (r: Vec<String>)
    ensures
        texts(r@) == unlabeled_names(meta_views(nodes@)),
{
    let mut unlabeled_nodes: Vec<String> = Vec::new();
    let ghost all = meta_views(nodes@);
    let mut i: usize = 0;
    assert(texts(unlabeled_nodes@) =~= Seq::<Seq<char>>::empty());
    while i < nodes.len()
        invariant
            i <= nodes@.len(),
            all == meta_views(nodes@),
            texts(unlabeled_nodes@) == unlabeled_names(all.take(i as int)),
        decreases nodes@.len() - i,
    {
        proof {
            assert(all.take(i + 1).drop_last() =~= all.take(i as int));
            assert(all.take(i + 1).last() == all[i as int]);
            assert(all[i as int] == nodes@[i as int]@);
        }
        let ghost was = unlabeled_nodes@;
        if !node_has_label(&nodes[i]) {
            unlabeled_nodes.push(nodes[i].name_any());
            assert(texts(unlabeled_nodes@) =~= texts(was).push(nodes@[i as int]@.any_name()));
        }
        i = i + 1;
    }
    assert(all.take(i as int) =~= all);
    unlabeled_nodes
}

/// The names of the objects whose nodes are among the given ones, in the order of the nodes.
pub open spec fn objects_of(nodes: Seq<Seq<char>>, brss_name: Seq<Seq<char>>) -> Seq<Seq<char>>
    decreases nodes.len(),
{
    if nodes.len() == 0 {
        Seq::empty()
    } else {
        let rest = objects_of(nodes.drop_last(), brss_name);
        if brss_name.contains(brs_name(nodes.last())) {
            rest.push(brs_name(nodes.last()))
        } else {
            rest
        }
    }
}

/// The names of the objects to delete: those of nodes from which the operator was removed.
pub fn bottlerocketshadows_cleanup(nodes: &Vec<ObjectMeta>, brss_name: &Vec<String>) -> (r: Vec<
    String,
>)
    ensures
        texts(r@) == objects_of(unlabeled_names(meta_views(nodes@)), texts(brss_name@)),
{
    let unlabeled_nodes = find_unlabeled_nodes(nodes);
    let mut doomed: Vec<String> = Vec::new();
    let ghost all = texts(unlabeled_nodes@);
    let mut i: usize = 0;
    assert(texts(doomed@) =~= Seq::<Seq<char>>::empty());
    while i < unlabeled_nodes.len()
        invariant
            i <= unlabeled_nodes@.len(),
            all == texts(unlabeled_nodes@),
            texts(doomed@) == objects_of(all.take(i as int), texts(brss_name@)),
        decreases unlabeled_nodes@.len() - i,
    {
        proof {
            assert(all.take(i + 1).drop_last() =~= all.take(i as int));
            assert(all.take(i + 1).last() == all[i as int]);
        }
        let associated_bottlerocketshadow = brs_name_from_node_name(unlabeled_nodes[i].as_str());
        let ghost was = doomed@;
        if contains_text(brss_name, associated_bottlerocketshadow.as_str()) {
            let ghost name = associated_bottlerocketshadow@;
            doomed.push(associated_bottlerocketshadow);
            assert(texts(doomed@) =~= texts(was).push(name));
        }
        i = i + 1;
    }
    assert(all.take(i as int) =~= all);
    doomed
}

/// Whether an error tells that an environment variable cannot be had, and why.
pub open spec fn is_missing_variable(e: Error, variable: Seq<char>, source: Seq<char>) -> bool {
    &&& e is MissingEnvVariable
    &&& e->MissingEnvVariable_variable@ == variable
    &&& e->MissingEnvVariable_source@ == source
}

/// Reads an environment variable: its value is given, or the reason why there is none.
pub fn read_env_var(env_var: &str, value: Result<String, String>) -> (r: Result<String, Error>)
    ensures
        match value {
            Ok(v) => r is Ok && r->Ok_0@ == v@,
            Err(e) => r is Err && is_missing_variable(r->Err_0, env_var@, e@),
        },
{
    match value {
        Ok(v) => Ok(v),
        Err(source) => Err(
            Error::MissingEnvVariable { source, variable: String::from_str(env_var) },
        ),
    }
}

/// The name of the object of the node that hosts the controller, from the name of that node.
pub fn get_associated_bottlerocketshadow_name(node_name: Result<String, String>) -> (r: Result<
    String,
    Error,
>)
    ensures
        match node_name {
            Ok(n) => r is Ok && r->Ok_0@ == brs_name(n@),
            Err(e) => r is Err && is_missing_variable(r->Err_0, MY_NODE_NAME_ENV_VAR@, e@),
        },
{
    match read_env_var(MY_NODE_NAME_ENV_VAR, node_name) {
        Ok(associated_node_name) => Ok(brs_name_from_node_name(associated_node_name.as_str())),
        Err(e) => Err(e),
    }
}

/// The number of concurrent updates that a setting in lower case allows: any number, a given
/// one, or none where the setting is no number.
pub open spec fn allowed_updates(lower: Seq<char>) -> Option<nat> {
    if lower == "unlimited"@ {
        Some(usize::MAX as nat)
    } else {
        parsed_unsigned(lower, usize::MAX as nat)
    }
}

/// The number of concurrent updates that a setting allows. Upper and lower case are the same.
pub open spec fn concurrent_updates(setting: Seq<char>) -> Option<nat> {
    allowed_updates(lowercase(setting))
}

/// Whether an error tells why a setting in lower case is no number.
pub open spec fn is_no_number(e: Error, lower: Seq<char>) -> bool {
    &&& e is MaxConcurrentUpdateParseError
    &&& e->MaxConcurrentUpdateParseError_source@ == usize_error(lower, usize::BITS)
}

/// The max concurrent update nodes number, from a setting in lower case.
pub fn parse_max_concurrent_update(lower: &str) -> (r: Result<usize, Error>)
    ensures
        match allowed_updates(lower@) {
            Some(n) => r is Ok && r->Ok_0 == n,
            None => r is Err && is_no_number(r->Err_0, lower@),
        },
{
    if str_eq(lower, "unlimited") {
        Ok(usize::MAX)
    } else {
        match parse_unsigned(lower, usize::MAX as u64) {
            Some(n) => Ok(n as usize),
            None => Err(Error::MaxConcurrentUpdateParseError { source: usize_error_text(lower) }),
        }
    }
}

/// The max concurrent update nodes number, from the environment variable that sets it.
pub fn get_max_concurrent_update(setting: Result<String, String>) -> (r: Result<usize, Error>)
    ensures
        match setting {
            Ok(s) => match concurrent_updates(s@) {
                Some(n) => r is Ok && r->Ok_0 == n,
                None => r is Err && is_no_number(r->Err_0, lowercase(s@)),
            },
            Err(e) => r is Err && is_missing_variable(
                r->Err_0,
                MAX_CONCURRENT_UPDATE_ENV_VAR@,
                e@,
            ),
        },
{
    match read_env_var(MAX_CONCURRENT_UPDATE_ENV_VAR, setting) {
        Err(e) => Err(e),
        Ok(setting) => {
            let max_concurrent_update = to_lower(setting.as_str());
            parse_max_concurrent_update(max_concurrent_update.as_str())
        },
    }
}

/// Where the loop of the controller stands: what it waits for. The number in a phase is that of
/// the nodes that are being acted upon.
#[derive(Clone, Copy, Debug, PartialEq, Eq, Structural)]
pub enum Phase {
    /// It looks at the nodes outside of a maintenance window.
    Observing,
    /// It pushes ongoing updates forward outside of a maintenance window.
    Finishing,
    Pausing,
    AwaitingWindow,
    /// It looks at the nodes in a maintenance window.
    WindowObserving,
    WindowProgressing(usize),
    WindowReadingLimit(usize),
    WindowSearching,
    WindowCleaning,
    WindowEmitting,
    WindowPausing,
    WindowDeciding,
    Stopped,
}

/// What the controller has to do.
#[derive(Clone, Copy, Debug, PartialEq, Eq, Structural)]
pub enum Action {
    /// Count the objects, and those that are being acted upon.
    Observe,
    ProgressActiveSet,
    /// Sleep for a number of seconds.
    Sleep(u64),
    WaitUntilNextMaintenanceWindow,
    ReadMaxConcurrentUpdate,
    /// Begin an update on the first node that is ready.
    FindAndUpdateReady,
    CleanUp,
    EmitMetrics,
    /// Find out whether updates go on: the schedule does not discontinue them, and a node is
    /// ready.
    DecideWindow,
    Stop,
}

/// How an action went.
#[derive(Clone, Copy, Debug, PartialEq, Eq, Structural)]
pub enum Outcome {
    Done,
    /// The number of all objects, and of those that are being acted upon.
    Observed { all: usize, active: usize },
    MaxConcurrentUpdate(usize),
    /// Whether the window goes on.
    WindowContinues(bool),
    Failed,
}

/// Whether an outcome is one that the action of a phase can have.
pub open spec fn outcome_fits(phase: Phase, outcome: Outcome) -> bool {
    outcome is Failed || match phase {
        Phase::Observing => outcome is Observed,
        Phase::WindowObserving => outcome is Observed,
        Phase::WindowReadingLimit(_) => outcome is MaxConcurrentUpdate,
        Phase::WindowDeciding => outcome is WindowContinues,
        _ => outcome is Done,
    }
}

/// What the controller does next, given where it stands and how the last action went.
pub open spec fn controller_step(phase: Phase, outcome: Outcome) -> (Phase, Action) {
    match (phase, outcome) {
        (_, Outcome::Failed) => (Phase::Stopped, Action::Stop),
        (Phase::Observing, Outcome::Observed { all, active }) => if all == 0 {
            (Phase::Pausing, Action::Sleep(CANNOT_FIND_ANY_NODES_WAIT_INTERVAL))
        } else if active == 0 {
            (Phase::AwaitingWindow, Action::WaitUntilNextMaintenanceWindow)
        } else {
            (Phase::Finishing, Action::ProgressActiveSet)
        },
        (Phase::Finishing, _) => (Phase::Pausing, Action::Sleep(ACTION_INTERVAL)),
        (Phase::Pausing, _) => (Phase::Observing, Action::Observe),
        (Phase::AwaitingWindow, _) => (Phase::WindowObserving, Action::Observe),
        (Phase::WindowObserving, Outcome::Observed { all: _, active }) => if active > 0 {
            (Phase::WindowProgressing(active), Action::ProgressActiveSet)
        } else {
            (Phase::WindowReadingLimit(0), Action::ReadMaxConcurrentUpdate)
        },
        (Phase::WindowProgressing(active), _) => (
            Phase::WindowReadingLimit(active),
            Action::ReadMaxConcurrentUpdate,
        ),
        (Phase::WindowReadingLimit(active), Outcome::MaxConcurrentUpdate(max)) => if active < max {
            (Phase::WindowSearching, Action::FindAndUpdateReady)
        } else {
            (Phase::WindowCleaning, Action::CleanUp)
        },
        (Phase::WindowSearching, _) => (Phase::WindowCleaning, Action::CleanUp),
        (Phase::WindowCleaning, _) => (Phase::WindowEmitting, Action::EmitMetrics),
        (Phase::WindowEmitting, _) => (Phase::WindowPausing, Action::Sleep(ACTION_INTERVAL)),
        (Phase::WindowPausing, _) => (Phase::WindowDeciding, Action::DecideWindow),
        (Phase::WindowDeciding, Outcome::WindowContinues(true)) => (
            Phase::WindowObserving,
            Action::Observe,
        ),
        (Phase::WindowDeciding, Outcome::WindowContinues(false)) => (
            Phase::Observing,
            Action::Observe,
        ),
        _ => (Phase::Stopped, Action::Stop),
    }
}

/// The first thing that the controller does.
pub fn first_action() -> (r: (Phase, Action))
    ensures
        r == (Phase::Observing, Action::Observe),
{
    (Phase::Observing, Action::Observe)
}

/// What the controller does next, given where it stands and how the last action went.
///
/// Because the controller wants to gate the number of simultaneously updating nodes, we can't allow the update state machine
/// of each individual bottlerocket node to run concurrently and in an event-driven fashion, as is typically done with controllers.
/// Instead, we will keep an updated store of `BottlerocketShadow` objects based on cluster events, and then periodically make
/// scheduling decisions based on that store.
pub fn next_action(phase: Phase, outcome: Outcome) -> (r: (Phase, Action))
    requires
        outcome_fits(phase, outcome),
    ensures
        r == controller_step(phase, outcome),
{
    match (phase, outcome) {
        (_, Outcome::Failed) => (Phase::Stopped, Action::Stop),
        (Phase::Observing, Outcome::Observed { all, active }) => {
            if all == 0 {
                // The operator is not aware of any BottlerocketShadow objects.
                (Phase::Pausing, Action::Sleep(CANNOT_FIND_ANY_NODES_WAIT_INTERVAL))
            } else if active == 0 {
                // If there are no more active nodes and current is outside of the maintenance window, brupop controller
                // will sleep until next scheduled time.
                (Phase::AwaitingWindow, Action::WaitUntilNextMaintenanceWindow)
            } else {
                // Any ongoing updates are completed even outside of the maintenance window
                (Phase::Finishing, Action::ProgressActiveSet)
            }
        },
        (Phase::Finishing, _) => (Phase::Pausing, Action::Sleep(ACTION_INTERVAL)),
        (Phase::Pausing, _) => (Phase::Observing, Action::Observe),
        (Phase::AwaitingWindow, _) => (Phase::WindowObserving, Action::Observe),
        (Phase::WindowObserving, Outcome::Observed { all: _, active }) => {
            if active > 0 {
                (Phase::WindowProgressing(active), Action::ProgressActiveSet)
            } else {
                (Phase::WindowReadingLimit(0), Action::ReadMaxConcurrentUpdate)
            }
        },
        (Phase::WindowProgressing(active), _) => (
            Phase::WindowReadingLimit(active),
            Action::ReadMaxConcurrentUpdate,
        ),
        // Bring one more node each time if the active nodes size is less than MAX_CONCURRENT_UPDATE setting.
        (Phase::WindowReadingLimit(active), Outcome::MaxConcurrentUpdate(max)) => {
            if active < max {
                (Phase::WindowSearching, Action::FindAndUpdateReady)
            } else {
                (Phase::WindowCleaning, Action::CleanUp)
            }
        },
        // Cleanup BRS when the operator is removed from a node
        (Phase::WindowSearching, _) => (Phase::WindowCleaning, Action::CleanUp),
        // Emit metrics at the end of the loop in case the loop didn't progress any nodes.
        (Phase::WindowCleaning, _) => (Phase::WindowEmitting, Action::EmitMetrics),
        (Phase::WindowEmitting, _) => (Phase::WindowPausing, Action::Sleep(ACTION_INTERVAL)),
        // We end the maintenance window if it's unable to find ready node, or the time window has ended.
        (Phase::WindowPausing, _) => (Phase::WindowDeciding, Action::DecideWindow),
        (Phase::WindowDeciding, Outcome::WindowContinues(true)) => (
            Phase::WindowObserving,
            Action::Observe,
        ),
        (Phase::WindowDeciding, Outcome::WindowContinues(false)) => (
            Phase::Observing,
            Action::Observe,
        ),
        _ => (Phase::Stopped, Action::Stop),
    }
}

/// Whether a phase belongs to a maintenance window.
pub open spec fn in_window(phase: Phase) -> bool {
    phase is WindowObserving || phase is WindowProgressing || phase is WindowReadingLimit
        || phase is WindowSearching || phase is WindowCleaning || phase is WindowEmitting
        || phase is WindowPausing || phase is WindowDeciding
}

/// An update begins on a further node only while fewer nodes are being acted upon than the
/// setting allows, and only in a maintenance window.
pub proof fn concurrency_is_limited(phase: Phase, outcome: Outcome)
    requires
        outcome_fits(phase, outcome),
        controller_step(phase, outcome).1 == Action::FindAndUpdateReady,
    ensures
        in_window(phase),
        phase is WindowReadingLimit,
        outcome is MaxConcurrentUpdate,
        phase->WindowReadingLimit_0 + 1 <= outcome->MaxConcurrentUpdate_0,
{
}

/// A maintenance window is entered only by waiting for the schedule while no node is being acted
/// upon, and left only once the window does not go on or something fails.
pub proof fn window_follows_schedule(phase: Phase, outcome: Outcome)
    requires
        outcome_fits(phase, outcome),
    ensures
        in_window(controller_step(phase, outcome).0) && !in_window(phase) ==> phase
            == Phase::AwaitingWindow && outcome == Outcome::Done,
        in_window(phase) && !in_window(controller_step(phase, outcome).0) ==> outcome
            == Outcome::Failed || (phase == Phase::WindowDeciding && outcome
            == Outcome::WindowContinues(false)),
        controller_step(phase, outcome).0 == Phase::AwaitingWindow ==> outcome is Observed
            && outcome->active == 0,
{
}

/// Ongoing updates are pushed forward outside of a maintenance window too.
pub proof fn ongoing_updates_are_finished(all: usize, active: usize)
    requires
        0 < active <= all,
    ensures
        controller_step(Phase::Observing, Outcome::Observed { all, active }).1
            == Action::ProgressActiveSet,
        controller_step(Phase::WindowObserving, Outcome::Observed { all, active }).1
            == Action::ProgressActiveSet,
{
}

/// The controller stops only where something fails.
pub proof fn controller_stops_on_failure_only(phase: Phase, outcome: Outcome)
    requires
        outcome_fits(phase, outcome),
        phase != Phase::Stopped,
    ensures
        controller_step(phase, outcome).0 == Phase::Stopped <==> outcome == Outcome::Failed,
{
}

/// Only objects of nodes without the label are deleted, and only objects that exist.
pub proof fn cleanup_deletes_unlabeled_only(
    nodes: Seq<ObjectMetaView>,
    brss_name: Seq<Seq<char>>,
    i: int,
)
    requires
        0 <= i < objects_of(unlabeled_names(nodes), brss_name).len(),
    ensures
        ({
            let doomed = objects_of(unlabeled_names(nodes), brss_name)[i];
            &&& brss_name.contains(doomed)
            &&& exists|j: int|
                0 <= j < nodes.len() && !is_labeled(#[trigger] nodes[j]) && doomed == brs_name(
                    nodes[j].any_name(),
                )
        }),
{
    lemma_objects_of(unlabeled_names(nodes), brss_name, i);
    let doomed = objects_of(unlabeled_names(nodes), brss_name)[i];
    let k = choose|k: int|
        0 <= k < unlabeled_names(nodes).len() && doomed == brs_name(
            #[trigger] unlabeled_names(nodes)[k],
        );
    lemma_unlabeled_names(nodes, k);
}

proof fn lemma_objects_of(names: Seq<Seq<char>>, brss_name: Seq<Seq<char>>, i: int)
    requires
        0 <= i < objects_of(names, brss_name).len(),
    ensures
        brss_name.contains(objects_of(names, brss_name)[i]),
        exists|k: int|
            0 <= k < names.len() && objects_of(names, brss_name)[i] == brs_name(
                #[trigger] names[k],
            ),
    decreases names.len(),
{
    let rest = objects_of(names.drop_last(), brss_name);
    if i < rest.len() {
        lemma_objects_of(names.drop_last(), brss_name, i);
        let k = choose|k: int|
            0 <= k < names.drop_last().len() && rest[i] == brs_name(
                #[trigger] names.drop_last()[k],
            );
        assert(names[k] == names.drop_last()[k]);
    } else {
        assert(names[names.len() - 1] == names.last());
    }
}

proof fn lemma_unlabeled_names(nodes: Seq<ObjectMetaView>, k: int)
    requires
        0 <= k < unlabeled_names(nodes).len(),
    ensures
        exists|j: int|
            0 <= j < nodes.len() && !is_labeled(#[trigger] nodes[j]) && unlabeled_names(nodes)[k]
                == nodes[j].any_name(),
    decreases nodes.len(),
{
    let rest = unlabeled_names(nodes.drop_last());
    if k < rest.len() {
        lemma_unlabeled_names(nodes.drop_last(), k);
        let j = choose|j: int|
            0 <= j < nodes.drop_last().len() && !is_labeled(#[trigger] nodes.drop_last()[j])
                && rest[k] == nodes.drop_last()[j].any_name();
        assert(nodes[j] == nodes.drop_last()[j]);
    } else {
        assert(nodes[nodes.len() - 1] == nodes.last());
    }
}

} // verus!
