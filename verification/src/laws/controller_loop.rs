//! The loop of the controller: what it does when, and on which nodes.

use vstd::prelude::*;

use crate::controller::controller::{
    active_map, allowed_updates, concurrent_updates, controller_step, find_and_update_ready_brs,
    first_action, get_associated_bottlerocketshadow_name, get_max_concurrent_update, in_window,
    is_active, is_labeled, is_ready, is_search_step, known_until_ready, objects_of, outcome_fits,
    progress_node, search_from, some_ready, unlabeled_names, window_continues, Action, Outcome,
    Phase, SearchStep,
};
use crate::controller::controllerclient_error::Error;
use crate::controller::metrics::shadow_views;
use crate::controller::scheduler::{cron_includes, BrupopCronScheduler};
use crate::controller::statemachine::{next_spec, next_spec_is_known};
use crate::models::meta::ObjectMetaView;
use crate::models::node::crd::selector::brs_name;
use crate::models::node::crd::v2::ShadowView;
use crate::models::node::crd::{
    BottlerocketShadow, BottlerocketShadowSelector, BottlerocketShadowSpec, BottlerocketShadowState,
};
use crate::text::{all_digits, digits_value, is_digit, lowercase, unsigned_digits};
use crate::time::{Instant, Timestamp};

verus! {

/// As long as fewer nodes are being acted upon than the setting allows, be it none at all, an update
/// begins on a further node; otherwise none does, and the round goes on with the cleanup.
pub proof fn spare_capacity_is_used(active: usize, max: usize)
    ensures
        active < max ==> controller_step(
            Phase::WindowReadingLimit(active),
            Outcome::MaxConcurrentUpdate(max),
        ) == (Phase::WindowSearching, Action::FindAndUpdateReady),
        active >= max ==> controller_step(
            Phase::WindowReadingLimit(active),
            Outcome::MaxConcurrentUpdate(max),
        ) == (Phase::WindowCleaning, Action::CleanUp),
{
}

/// An idle cluster starts an update in its window whatever positive number of updates is allowed,
/// and a busy one does so after it has pushed its ongoing updates forward.
pub proof fn window_starts_updates(all: usize, active: usize, max: usize)
    requires
        active < max,
    ensures
        ({
            let (seen, first) = controller_step(
                Phase::WindowObserving,
                Outcome::Observed { all, active },
            );
            let (ready, second) = if active > 0 {
                controller_step(seen, Outcome::Done)
            } else {
                (seen, first)
            };
            let (searching, third) = controller_step(ready, Outcome::MaxConcurrentUpdate(max));
            &&& active > 0 <==> first == Action::ProgressActiveSet
            &&& second == Action::ReadMaxConcurrentUpdate
            &&& third == Action::FindAndUpdateReady
            &&& controller_step(searching, Outcome::Done).1 == Action::CleanUp
        }),
{
}

/// With as many nodes being acted upon as the setting allows, the ongoing updates are pushed forward
/// and no further one begins.
pub proof fn full_window_starts_no_update(all: usize, active: usize, max: usize)
    requires
        active >= max,
    ensures
        ({
            let (seen, first) = controller_step(
                Phase::WindowObserving,
                Outcome::Observed { all, active },
            );
            let (ready, second) = if active > 0 {
                controller_step(seen, Outcome::Done)
            } else {
                (seen, first)
            };
            &&& active > 0 <==> first == Action::ProgressActiveSet
            &&& second == Action::ReadMaxConcurrentUpdate
            &&& controller_step(ready, Outcome::MaxConcurrentUpdate(max)).1 == Action::CleanUp
        }),
{
}

/// Each round in a window ends in the same way: objects are cleaned up, metrics are emitted, the
/// controller sleeps for two seconds and asks whether the window goes on. If so it looks at the nodes
/// again in the window, else outside of it.
pub proof fn window_round_ends(cleaning: Phase, outcome: Outcome, goes_on: bool)
    requires
        controller_step(cleaning, outcome).1 == Action::CleanUp,
    ensures
        ({
            let (p1, _) = controller_step(cleaning, outcome);
            let (p2, a2) = controller_step(p1, Outcome::Done);
            let (p3, a3) = controller_step(p2, Outcome::Done);
            let (p4, a4) = controller_step(p3, Outcome::Done);
            let (p5, a5) = controller_step(p4, Outcome::WindowContinues(goes_on));
            &&& a2 == Action::EmitMetrics
            &&& a3 == Action::Sleep(2)
            &&& a4 == Action::DecideWindow
            &&& a5 == Action::Observe
            &&& p5 == if goes_on {
                Phase::WindowObserving
            } else {
                Phase::Observing
            }
        }),
{
}

/// Outside of a window the controller looks for nodes every ten seconds while there are none. It
/// pushes ongoing updates forward every two seconds while there are any. With neither it waits for
/// the next window, and then looks at the nodes in it.
pub proof fn rounds_outside_of_a_window(all: usize, active: usize)
    ensures
        ({
            let (p1, a1) = controller_step(Phase::Observing, Outcome::Observed { all, active });
            let (p2, a2) = controller_step(p1, Outcome::Done);
            let (p3, a3) = controller_step(p2, Outcome::Done);
            if all == 0 {
                a1 == Action::Sleep(10) && a2 == Action::Observe && p2 == Phase::Observing
            } else if active == 0 {
                &&& a1 == Action::WaitUntilNextMaintenanceWindow
                &&& a2 == Action::Observe
                &&& p2 == Phase::WindowObserving
            } else {
                &&& a1 == Action::ProgressActiveSet
                &&& a2 == Action::Sleep(2)
                &&& a3 == Action::Observe
                &&& p3 == Phase::Observing
            }
        }),
{
}

/// When each action is due, after an action that did not fail.
pub proof fn each_action_has_its_time(phase: Phase, outcome: Outcome)
    requires
        outcome_fits(phase, outcome),
        outcome != Outcome::Failed,
        phase != Phase::Stopped,
    ensures
        ({
            let action = controller_step(phase, outcome).1;
            &&& action == Action::Observe <==> phase == Phase::Pausing || phase
                == Phase::AwaitingWindow || phase == Phase::WindowDeciding
            &&& action == Action::ProgressActiveSet <==> (phase == Phase::WindowObserving && outcome->active
                > 0) || (phase == Phase::Observing && outcome->active > 0 && outcome->all > 0)
            &&& action == Action::Sleep(10) <==> phase == Phase::Observing && outcome->all == 0
            &&& action == Action::Sleep(2) <==> phase == Phase::Finishing || phase
                == Phase::WindowEmitting
            &&& action == Action::WaitUntilNextMaintenanceWindow <==> phase == Phase::Observing
                && outcome->all > 0 && outcome->active == 0
            &&& action == Action::ReadMaxConcurrentUpdate <==> (phase == Phase::WindowObserving
                && outcome->active == 0) || phase is WindowProgressing
            &&& action == Action::FindAndUpdateReady <==> phase is WindowReadingLimit
                && phase->WindowReadingLimit_0 < outcome->MaxConcurrentUpdate_0
            &&& action == Action::CleanUp <==> phase == Phase::WindowSearching || (
            phase is WindowReadingLimit && phase->WindowReadingLimit_0
                >= outcome->MaxConcurrentUpdate_0)
            &&& action == Action::EmitMetrics <==> phase == Phase::WindowCleaning
            &&& action == Action::DecideWindow <==> phase == Phase::WindowPausing
            &&& action is Sleep ==> action == Action::Sleep(2) || action == Action::Sleep(10)
            &&& action != Action::Stop
        }),
{
}

/// A failure stops the controller wherever it stands, and it stays so.
pub proof fn failure_stops_the_controller(phase: Phase, outcome: Outcome)
    ensures
        controller_step(phase, Outcome::Failed) == (Phase::Stopped, Action::Stop),
        controller_step(Phase::Stopped, outcome) == (Phase::Stopped, Action::Stop),
{
}

/// The controller can take in what each action that it asks for comes to, and nothing else: counts
/// for a look at the nodes, a number for the limit, a yes or no for the window, and otherwise that
/// the action is done. Any action may fail.
pub proof fn each_action_has_its_outcome(phase: Phase, outcome: Outcome, next: Outcome)
    requires
        outcome_fits(phase, outcome),
    ensures
        ({
            let (p, action) = controller_step(phase, outcome);
            outcome_fits(p, next) <==> (next == Outcome::Failed || if action == Action::Observe {
                next is Observed
            } else if action == Action::ReadMaxConcurrentUpdate {
                next is MaxConcurrentUpdate
            } else if action == Action::DecideWindow {
                next is WindowContinues
            } else {
                next == Outcome::Done
            })
        }),
{
}

/// Updates begin, objects are deleted and metrics are emitted in a window only, and a window is
/// entered only from the wait for it.
pub proof fn window_bounds_its_actions(phase: Phase, outcome: Outcome)
    requires
        outcome_fits(phase, outcome),
    ensures
        ({
            let (next, action) = controller_step(phase, outcome);
            &&& action == Action::FindAndUpdateReady || action == Action::CleanUp || action
                == Action::EmitMetrics || action == Action::DecideWindow || action
                == Action::ReadMaxConcurrentUpdate ==> in_window(phase) && in_window(next)
            &&& in_window(next) ==> in_window(phase) || (phase == Phase::AwaitingWindow && action
                == Action::Observe)
            &&& !in_window(Phase::Observing) && !in_window(Phase::Finishing) && !in_window(
                Phase::Pausing,
            ) && !in_window(Phase::AwaitingWindow) && !in_window(Phase::Stopped)
        }),
{
}

/// A node is being acted upon unless it has no status, or is idle and should be.
pub proof fn nodes_at_rest(brs: ShadowView)
    ensures
        !is_active(brs) <==> brs.status is None || (brs.status->0.current_state
            == BottlerocketShadowState::Idle && brs.spec.state == BottlerocketShadowState::Idle),
{
}

/// The active set holds each node that is being acted upon under its name, and nothing else.
pub proof fn active_set_holds_busy_nodes(brss: Seq<ShadowView>, name: Seq<char>)
    ensures
        active_map(brss).contains_key(name) <==> exists|i: int|
            0 <= i < brss.len() && #[trigger] brss[i].metadata.any_name() == name
                && brss[i].status is Some && !(brss[i].status->0.current_state
                == BottlerocketShadowState::Idle && brss[i].spec.state
                == BottlerocketShadowState::Idle),
    decreases brss.len(),
{
    if brss.len() > 0 {
        let rest = brss.drop_last();
        active_set_holds_busy_nodes(rest, name);
        if active_map(rest).contains_key(name) {
            let i = choose|i: int|
                0 <= i < rest.len() && #[trigger] rest[i].metadata.any_name() == name
                    && rest[i].status is Some && !(rest[i].status->0.current_state
                    == BottlerocketShadowState::Idle && rest[i].spec.state
                    == BottlerocketShadowState::Idle);
            assert(brss[i].metadata.any_name() == name);
        }
        if active_map(brss).contains_key(name) && !active_map(rest).contains_key(name) {
            assert(brss[brss.len() - 1].metadata.any_name() == name);
        }
        assert forall|i: int|
            0 <= i < brss.len() && #[trigger] brss[i].metadata.any_name() == name
                && brss[i].status is Some && !(brss[i].status->0.current_state
                == BottlerocketShadowState::Idle && brss[i].spec.state
                == BottlerocketShadowState::Idle) implies active_map(brss).contains_key(name) by {
            if i < rest.len() {
                assert(rest[i].metadata.any_name() == name);
            }
        }
    }
}

/// A busy node stands in the active set as it is, unless one of the same name follows it.
pub proof fn active_set_holds_the_last_of_a_name(brss: Seq<ShadowView>, i: int)
    requires
        0 <= i < brss.len(),
        brss[i].status is Some,
        brss[i].status->0.current_state != BottlerocketShadowState::Idle || brss[i].spec.state
            != BottlerocketShadowState::Idle,
        forall|j: int|
            i < j < brss.len() ==> #[trigger] brss[j].metadata.any_name()
                != brss[i].metadata.any_name(),
    ensures
        active_map(brss).contains_key(brss[i].metadata.any_name()),
        active_map(brss)[brss[i].metadata.any_name()] == brss[i],
    decreases brss.len(),
{
    if i < brss.len() - 1 {
        let rest = brss.drop_last();
        assert forall|j: int| i < j < rest.len() implies #[trigger] rest[j].metadata.any_name()
            != rest[i].metadata.any_name() by {
            assert(brss[j].metadata.any_name() != brss[i].metadata.any_name());
        }
        active_set_holds_the_last_of_a_name(rest, i);
        assert(brss[brss.len() - 1].metadata.any_name() != brss[i].metadata.any_name());
    }
}

/// The name of an object is its name, else the prefix from which its name is generated, else empty.
pub proof fn names_of_objects(meta: ObjectMetaView)
    ensures
        meta.name is Some ==> meta.any_name() == meta.name->0,
        meta.name is None && meta.generate_name is Some ==> meta.any_name() == meta.generate_name->0,
        meta.name is None && meta.generate_name is None ==> meta.any_name().len() == 0,
{
}

/// The object of a node is named after it.
pub proof fn objects_are_named_after_nodes(node: Seq<char>, other: Seq<char>)
    ensures
        brs_name(node) == "brs-"@ + node,
        brs_name(node) == brs_name(other) ==> node == other,
{
    if brs_name(node) == brs_name(other) {
        let n = "brs-"@.len();
        assert(node =~= brs_name(node).skip(n as int));
        assert(other =~= brs_name(other).skip(n as int));
    }
}

/// A node carries the label where the key has the value of this version, and only there.
pub proof fn label_of_the_interface(node: ObjectMetaView)
    ensures
        is_labeled(node) <==> node.labels is Some && node.labels->0.contains_pair(
            "bottlerocket.aws/updater-interface-version"@,
            "2.0.0"@,
        ),
{
}

/// The nodes without the label are found one by one, in their order.
pub proof fn unlabeled_nodes_are_found_one_by_one(
    first: Seq<ObjectMetaView>,
    second: Seq<ObjectMetaView>,
    node: ObjectMetaView,
)
    ensures
        unlabeled_names(first + second) == unlabeled_names(first) + unlabeled_names(second),
        unlabeled_names(seq![node]) == if node.labels is Some && node.labels->0.contains_pair(
            "bottlerocket.aws/updater-interface-version"@,
            "2.0.0"@,
        ) {
            Seq::empty()
        } else {
            seq![node.any_name()]
        },
    decreases second.len(),
{
    reveal_with_fuel(unlabeled_names, 2);
    assert(seq![node].drop_last() =~= Seq::<ObjectMetaView>::empty());
    assert(unlabeled_names(seq![node]) =~= if is_labeled(node) {
        Seq::empty()
    } else {
        seq![node.any_name()]
    });
    if second.len() == 0 {
        assert(first + second =~= first);
        assert(unlabeled_names(first) + unlabeled_names(second) =~= unlabeled_names(first));
    } else {
        unlabeled_nodes_are_found_one_by_one(first, second.drop_last(), node);
        assert((first + second).drop_last() =~= first + second.drop_last());
        assert(unlabeled_names(first + second) =~= unlabeled_names(first) + unlabeled_names(
            second,
        ));
    }
}

/// Of given nodes the objects that exist are found one by one, in the order of the nodes.
pub proof fn objects_are_found_one_by_one(
    first: Seq<Seq<char>>,
    second: Seq<Seq<char>>,
    node: Seq<char>,
    existing: Seq<Seq<char>>,
)
    ensures
        objects_of(first + second, existing) == objects_of(first, existing) + objects_of(
            second,
            existing,
        ),
        objects_of(seq![node], existing) == if existing.contains("brs-"@ + node) {
            seq!["brs-"@ + node]
        } else {
            Seq::empty()
        },
    decreases second.len(),
{
    reveal_with_fuel(objects_of, 2);
    assert(seq![node].drop_last() =~= Seq::<Seq<char>>::empty());
    assert(objects_of(seq![node], existing) =~= if existing.contains("brs-"@ + node) {
        seq!["brs-"@ + node]
    } else {
        Seq::empty()
    });
    if second.len() == 0 {
        assert(first + second =~= first);
        assert(objects_of(first, existing) + objects_of(second, existing) =~= objects_of(
            first,
            existing,
        ));
    } else {
        objects_are_found_one_by_one(first, second.drop_last(), node, existing);
        assert((first + second).drop_last() =~= first + second.drop_last());
        assert(objects_of(first + second, existing) =~= objects_of(first, existing) + objects_of(
            second,
            existing,
        ));
    }
}

proof fn lemma_unlabeled_is_listed(nodes: Seq<ObjectMetaView>, i: int)
    requires
        0 <= i < nodes.len(),
        !is_labeled(nodes[i]),
    ensures
        unlabeled_names(nodes).contains(nodes[i].any_name()),
    decreases nodes.len(),
{
    let rest = unlabeled_names(nodes.drop_last());
    if i < nodes.len() - 1 {
        lemma_unlabeled_is_listed(nodes.drop_last(), i);
        let k = choose|k: int| 0 <= k < rest.len() && rest[k] == nodes[i].any_name();
        assert(unlabeled_names(nodes)[k] == nodes[i].any_name());
    } else {
        assert(unlabeled_names(nodes)[rest.len() as int] == nodes[i].any_name());
    }
}

proof fn lemma_object_is_listed(names: Seq<Seq<char>>, existing: Seq<Seq<char>>, name: Seq<char>)
    requires
        names.contains(name),
        existing.contains(brs_name(name)),
    ensures
        objects_of(names, existing).contains(brs_name(name)),
    decreases names.len(),
{
    let i = choose|i: int| 0 <= i < names.len() && names[i] == name;
    let rest = objects_of(names.drop_last(), existing);
    if i < names.len() - 1 {
        assert(names.drop_last()[i] == name);
        lemma_object_is_listed(names.drop_last(), existing, name);
        let k = choose|k: int| 0 <= k < rest.len() && rest[k] == brs_name(name);
        assert(objects_of(names, existing)[k] == brs_name(name));
    } else {
        assert(objects_of(names, existing)[rest.len() as int] == brs_name(name));
    }
}

/// Every object whose node lacks the label is deleted.
pub proof fn cleanup_misses_no_object(
    nodes: Seq<ObjectMetaView>,
    existing: Seq<Seq<char>>,
    i: int,
)
    requires
        0 <= i < nodes.len(),
        nodes[i].labels is None || !nodes[i].labels->0.contains_pair(
            "bottlerocket.aws/updater-interface-version"@,
            "2.0.0"@,
        ),
        existing.contains("brs-"@ + nodes[i].any_name()),
    ensures
        objects_of(unlabeled_names(nodes), existing).contains("brs-"@ + nodes[i].any_name()),
{
    lemma_unlabeled_is_listed(nodes, i);
    lemma_object_is_listed(unlabeled_names(nodes), existing, nodes[i].any_name());
}

/// The search for a ready node can be made where every node can be read; and where it can be made
/// and no node before one is ready, that one can be read.
pub proof fn search_reads_until_ready(brss: Seq<ShadowView>, from: int, i: int, now: Instant)
    requires
        0 <= from <= i < brss.len(),
    ensures
        (forall|j: int| from <= j < brss.len() ==> next_spec_is_known(#[trigger] brss[j]))
            ==> known_until_ready(brss, from, now),
        known_until_ready(brss, from, now) && (forall|j: int|
            from <= j < i ==> !is_ready(#[trigger] brss[j], now)) ==> next_spec_is_known(brss[i]),
{
}

/// The search begins at the first node, and goes on behind the node that was tried last.
pub proof fn search_moves_on(last: Option<(usize, bool)>)
    ensures
        last is None ==> search_from(last) == 0,
        last is Some ==> search_from(last) == (last->0).0 + 1,
{
}

/// The setting "unlimited" allows any number of updates, and the case of its letters does not
/// matter.
pub proof fn unlimited_updates(setting: Seq<char>)
    ensures
        lowercase(setting) == "unlimited"@ ==> concurrent_updates(setting) == Some(
            usize::MAX as nat,
        ),
        concurrent_updates(setting) == allowed_updates(lowercase(setting)),
{
}

/// A setting of digits, with or without a `+`, allows as many updates as it says, up to what can be
/// counted.
pub proof fn limited_updates(digits: Seq<char>)
    requires
        digits.len() > 0,
        forall|i: int| 0 <= i < digits.len() ==> '0' <= #[trigger] digits[i] <= '9',
    ensures
        digits_value(digits) <= usize::MAX ==> allowed_updates(digits) == Some(
            digits_value(digits),
        ),
        digits_value(digits) > usize::MAX ==> allowed_updates(digits) is None,
        allowed_updates(seq!['+'] + digits) == allowed_updates(digits),
{
    reveal_strlit("unlimited");
    let signed = seq!['+'] + digits;
    assert(digits[0] != "unlimited"@[0]);
    assert(signed[0] != "unlimited"@[0]);
    assert(signed.subrange(1, signed.len() as int) =~= digits);
    assert(all_digits(digits));
}

/// A setting without a digit, or with anything but digits behind a first `+`, is none.
pub proof fn no_setting_for_concurrency(lower: Seq<char>, i: int)
    requires
        lower != "unlimited"@,
        lower.len() == 0 || lower == seq!['+'] || (0 <= i < lower.len() && !('0' <= lower[i] <= '9')
            && !(i == 0 && lower[i] == '+')),
    ensures
        allowed_updates(lower) is None,
{
    let digits = unsigned_digits(lower);
    if all_digits(digits) && lower.len() > 0 && lower != seq!['+'] {
        if digits == lower {
            assert(is_digit(digits[i]));
        } else {
            assert(is_digit(digits[i - 1]));
        }
    }
}

/// The loop begins with a look at the nodes outside of a window.
pub proof fn loop_begins_with_a_look(r: (Phase, Action))
    requires
        call_ensures(first_action, (), r),
    ensures
        r.0 is Observing,
        r.1 is Observe,
{
}

/// A search ends with the node on which an update has begun. Until then it goes on behind the node
/// that was tried last, and tries the first one that is ready: it does not end while one is.
pub proof fn search_tries_ready_nodes_in_order(
    brss: Seq<ShadowView>,
    last: Option<(usize, bool)>,
    now: Instant,
    step: SearchStep,
    i: int,
)
    requires
        is_search_step(brss, last, now, step),
        0 <= i < brss.len(),
        last is Some ==> (last->0).0 < i,
        is_ready(brss[i], now),
    ensures
        last is Some && (last->0).1 ==> step == SearchStep::Finish(Some((last->0).0)),
        last is None || !(last->0).1 ==> match step {
            SearchStep::Progress(p) => p <= i && is_ready(brss[p as int], now) && (last is Some ==> p
                > (last->0).0),
            SearchStep::Finish(_) => false,
            SearchStep::Unreadable(p) => p <= i && !next_spec_is_known(brss[p as int]) && (
            last is Some ==> p > (last->0).0),
        },
{
}

/// A search that finds nothing ends without a node.
pub proof fn search_ends_without_ready_nodes(
    brss: Seq<ShadowView>,
    last: Option<(usize, bool)>,
    now: Instant,
    step: SearchStep,
)
    requires
        is_search_step(brss, last, now, step),
        last is None || !(last->0).1,
        forall|i: int|
            0 <= i < brss.len() && (last is Some ==> i > (last->0).0) ==> !is_ready(
                #[trigger] brss[i],
                now,
            ) && next_spec_is_known(brss[i]),
    ensures
        step == SearchStep::Finish(None),
{
}

/// The step of a search is the one that follows the last try.
pub proof fn search_steps_follow_the_last_try(
    shadows: &Vec<BottlerocketShadow>,
    last: Option<(usize, bool)>,
    now: Timestamp,
    r: SearchStep,
)
    requires
        call_ensures(find_and_update_ready_brs, (shadows, last, now), r),
    ensures
        is_search_step(shadow_views(shadows@), last, now@, r),
        last is None ==> (r is Unreadable <==> !known_until_ready(
            shadow_views(shadows@),
            0,
            now@,
        )),
        last is Some && !(last->0).1 ==> (r is Unreadable <==> !known_until_ready(
            shadow_views(shadows@),
            (last->0).0 + 1,
            now@,
        )),
{
}

/// Some node is ready exactly where one of them is.
pub proof fn some_node_is_ready(brss: Seq<ShadowView>, i: int, now: Instant)
    ensures
        0 <= i < brss.len() && is_ready(brss[i], now) ==> some_ready(brss, now),
        (forall|j: int| 0 <= j < brss.len() ==> !is_ready(#[trigger] brss[j], now)) ==> !some_ready(
            brss,
            now,
        ),
{
}

/// A window goes on where the schedule does not discontinue updates and a node is ready.
pub proof fn window_goes_on_for_ready_nodes(
    scheduler: &BrupopCronScheduler,
    all: &Vec<BottlerocketShadow>,
    now: Timestamp,
    r: Option<bool>,
)
    requires
        call_ensures(window_continues, (scheduler, all, now), r),
    ensures
        ({
            let ended = scheduler@.schedule_type is Windowed && !cron_includes(
                scheduler@.cron_expression,
                now@.0,
                now@.1,
            );
            &&& r is Some <==> ended || known_until_ready(shadow_views(all@), 0, now@)
            &&& r is Some ==> (r->0 <==> !ended && some_ready(shadow_views(all@), now@))
            &&& ended ==> r == Some(false)
        }),
{
}

/// A node that has reached its state or has crashed is given its next spec, as the node that owns its
/// object; any other one is left alone.
pub proof fn nodes_are_pushed_forward(
    node: &BottlerocketShadow,
    now: Timestamp,
    r: Result<Option<(BottlerocketShadowSelector, BottlerocketShadowSpec)>, Error>,
)
    requires
        call_ensures(progress_node, (node, now), r),
        next_spec_is_known(node@),
    ensures
        ({
            let moves = node@.status is Some && (node@.status->0.current_state == node@.spec.state
                || node@.status->0.current_state == BottlerocketShadowState::ErrorReset);
            let owners = node@.metadata.owner_references;
            &&& !moves <==> r is Ok && r->Ok_0 is None
            &&& moves && owners is Some && owners->0.len() > 0 ==> {
                &&& r is Ok
                &&& (r->Ok_0->0).0@.node_name == owners->0[0].name
                &&& (r->Ok_0->0).0@.node_uid == owners->0[0].uid
                &&& (r->Ok_0->0).1@ == next_spec(node@, now@)
            }
            &&& moves && (owners is None || owners->0.len() == 0) ==> r is Err
                && r->Err_0 is NodeSelectorCreation
        }),
{
}

/// The limit is read from its variable: a missing variable is told with its name, and a setting that
/// is no number is refused.
pub proof fn limit_is_read_from_its_variable(
    setting: Result<String, String>,
    r: Result<usize, Error>,
)
    requires
        call_ensures(get_max_concurrent_update, (setting,), r),
    ensures
        setting is Err ==> r is Err && r->Err_0 is MissingEnvVariable
            && r->Err_0->MissingEnvVariable_variable@ == "MAX_CONCURRENT_UPDATE"@
            && r->Err_0->MissingEnvVariable_source@ == setting->Err_0@,
        setting is Ok && allowed_updates(lowercase(setting->Ok_0@)) is Some ==> r is Ok && r->Ok_0
            == allowed_updates(lowercase(setting->Ok_0@))->0,
        setting is Ok && allowed_updates(lowercase(setting->Ok_0@)) is None ==> r is Err
            && r->Err_0 is MaxConcurrentUpdateParseError,
{
}

/// The object of the node that hosts the controller is named after that node, whose name is read from
/// its variable.
pub proof fn own_object_is_named_after_own_node(
    node_name: Result<String, String>,
    r: Result<String, Error>,
)
    requires
        call_ensures(get_associated_bottlerocketshadow_name, (node_name,), r),
    ensures
        node_name is Ok ==> r is Ok && r->Ok_0@ == "brs-"@ + node_name->Ok_0@,
        node_name is Err ==> r is Err && r->Err_0 is MissingEnvVariable
            && r->Err_0->MissingEnvVariable_variable@ == "MY_NODE_NAME"@
            && r->Err_0->MissingEnvVariable_source@ == node_name->Err_0@,
{
}

} // verus!
