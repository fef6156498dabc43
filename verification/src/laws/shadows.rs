//! The objects that stand for nodes: their states, their two versions, and how they are made.

use vstd::prelude::*;

use crate::models::meta::ObjectMetaView;
use crate::models::node::client::{initial_shadow, shadow_patch};
use crate::models::node::crd::error::Error;
use crate::models::node::crd::fields::{
    instant_field, instant_reads, instant_text, is_format_error, version_field, version_option_text,
    version_reads,
};
use crate::models::node::crd::selector::{selects, BottlerocketShadowSelector, SelectorView};
use crate::models::node::crd::{v1, v2};
use crate::text::decimal;
use crate::time::{rfc3339_read, rfc3339_text, Instant, Timestamp};
use crate::version::{semver_parts, version_text, Version};

verus! {

/// The state that follows each state, and the seconds after which a state times out.
pub proof fn states_of_a_node(s: v2::BottlerocketShadowState)
    ensures
        s == v2::BottlerocketShadowState::Idle <==> s.next()
            == v2::BottlerocketShadowState::StagedAndPerformedUpdate,
        s == v2::BottlerocketShadowState::StagedAndPerformedUpdate <==> s.next()
            == v2::BottlerocketShadowState::RebootedIntoUpdate,
        s == v2::BottlerocketShadowState::RebootedIntoUpdate <==> s.next()
            == v2::BottlerocketShadowState::MonitoringUpdate,
        s == v2::BottlerocketShadowState::MonitoringUpdate || s
            == v2::BottlerocketShadowState::ErrorReset <==> s.next()
            == v2::BottlerocketShadowState::Idle,
        s == v2::BottlerocketShadowState::Idle <==> s.timeout() == Some(120u64),
        s == v2::BottlerocketShadowState::StagedAndPerformedUpdate <==> s.timeout() == Some(720u64),
        s == v2::BottlerocketShadowState::RebootedIntoUpdate <==> s.timeout() == Some(600u64),
        s == v2::BottlerocketShadowState::MonitoringUpdate <==> s.timeout() == Some(300u64),
        s == v2::BottlerocketShadowState::ErrorReset <==> s.timeout() == Some(u64::MAX),
{
}

/// Each state is written as its own name, so two states are never written alike.
pub proof fn names_of_states(s: v2::BottlerocketShadowState, other: v2::BottlerocketShadowState)
    ensures
        s == v2::BottlerocketShadowState::Idle ==> s.name_text() == "Idle"@,
        s == v2::BottlerocketShadowState::StagedAndPerformedUpdate ==> s.name_text()
            == "StagedAndPerformedUpdate"@,
        s == v2::BottlerocketShadowState::RebootedIntoUpdate ==> s.name_text()
            == "RebootedIntoUpdate"@,
        s == v2::BottlerocketShadowState::MonitoringUpdate ==> s.name_text() == "MonitoringUpdate"@,
        s == v2::BottlerocketShadowState::ErrorReset ==> s.name_text() == "ErrorReset"@,
        s.name_text() == other.name_text() ==> s == other,
{
    reveal_strlit("Idle");
    reveal_strlit("StagedAndPerformedUpdate");
    reveal_strlit("RebootedIntoUpdate");
    reveal_strlit("MonitoringUpdate");
    reveal_strlit("ErrorReset");
    assert("Idle"@.len() == 4);
    assert("StagedAndPerformedUpdate"@.len() == 24);
    assert("RebootedIntoUpdate"@.len() == 18);
    assert("MonitoringUpdate"@.len() == 16);
    assert("ErrorReset"@.len() == 10);
}

/// The first version of the states: the state that follows each, the seconds after which it times
/// out, and its name.
pub proof fn first_states_of_a_node(s: v1::BottlerocketShadowState)
    ensures
        s == v1::BottlerocketShadowState::Idle <==> s.next()
            == v1::BottlerocketShadowState::StagedUpdate,
        s == v1::BottlerocketShadowState::StagedUpdate <==> s.next()
            == v1::BottlerocketShadowState::PerformedUpdate,
        s == v1::BottlerocketShadowState::PerformedUpdate <==> s.next()
            == v1::BottlerocketShadowState::RebootedIntoUpdate,
        s == v1::BottlerocketShadowState::RebootedIntoUpdate <==> s.next()
            == v1::BottlerocketShadowState::MonitoringUpdate,
        s == v1::BottlerocketShadowState::MonitoringUpdate <==> s.next()
            == v1::BottlerocketShadowState::Idle,
        s == v1::BottlerocketShadowState::Idle || s == v1::BottlerocketShadowState::PerformedUpdate
            <==> s.timeout() == Some(120u64),
        s == v1::BottlerocketShadowState::StagedUpdate || s
            == v1::BottlerocketShadowState::RebootedIntoUpdate <==> s.timeout() == Some(600u64),
        s == v1::BottlerocketShadowState::MonitoringUpdate <==> s.timeout() == Some(300u64),
        s == v1::BottlerocketShadowState::Idle ==> s.name_text() == "Idle"@,
        s == v1::BottlerocketShadowState::StagedUpdate ==> s.name_text() == "StagedUpdate"@,
        s == v1::BottlerocketShadowState::PerformedUpdate ==> s.name_text() == "PerformedUpdate"@,
        s == v1::BottlerocketShadowState::RebootedIntoUpdate ==> s.name_text()
            == "RebootedIntoUpdate"@,
        s == v1::BottlerocketShadowState::MonitoringUpdate ==> s.name_text() == "MonitoringUpdate"@,
{
}

/// Both steps of an update become one, and every other state keeps its name; the other way one step
/// becomes the first, and a crashed node one that is monitored.
pub proof fn states_are_converted(old: v1::BottlerocketShadowState, new: v2::BottlerocketShadowState)
    ensures
        ({
            let up = v2::BottlerocketShadowState::upgraded(old);
            let down = v1::BottlerocketShadowState::downgraded(new);
            &&& up == v2::BottlerocketShadowState::StagedAndPerformedUpdate <==> old
                == v1::BottlerocketShadowState::StagedUpdate || old
                == v1::BottlerocketShadowState::PerformedUpdate
            &&& up == v2::BottlerocketShadowState::Idle <==> old
                == v1::BottlerocketShadowState::Idle
            &&& up == v2::BottlerocketShadowState::RebootedIntoUpdate <==> old
                == v1::BottlerocketShadowState::RebootedIntoUpdate
            &&& up == v2::BottlerocketShadowState::MonitoringUpdate <==> old
                == v1::BottlerocketShadowState::MonitoringUpdate
            &&& down == v1::BottlerocketShadowState::StagedUpdate <==> new
                == v2::BottlerocketShadowState::StagedAndPerformedUpdate
            &&& down == v1::BottlerocketShadowState::Idle <==> new
                == v2::BottlerocketShadowState::Idle
            &&& down == v1::BottlerocketShadowState::RebootedIntoUpdate <==> new
                == v2::BottlerocketShadowState::RebootedIntoUpdate
            &&& down == v1::BottlerocketShadowState::MonitoringUpdate <==> new
                == v2::BottlerocketShadowState::MonitoringUpdate || new
                == v2::BottlerocketShadowState::ErrorReset
        }),
{
}

/// Whether a converted time is the old one, written anew.
pub open spec fn is_time_anew(old: Option<Seq<char>>, new: Option<Seq<char>>) -> bool {
    &&& old is None ==> new is None
    &&& old is Some ==> match rfc3339_read(old->0) {
        Ok(i) => new == Some(rfc3339_text(i.0, i.1)),
        Err(_) => new is None,
    }
}

/// Whether converted metadata are the old ones: what tells the object is kept, and nothing else.
pub open spec fn is_metadata_anew(old: ObjectMetaView, new: ObjectMetaView) -> bool {
    &&& new.name == old.name
    &&& new.namespace == old.namespace
    &&& new.uid == old.uid
    &&& new.owner_references == old.owner_references
    &&& new.generate_name is None
    &&& new.labels is None
    &&& new.annotations is None
}

/// An object of the first version becomes one of the second with the same name, owners, versions and
/// times. It has the state that stands for its own, and no crashes.
pub proof fn upgrade_keeps_the_node(old: v1::ShadowView, new: v2::ShadowView)
    ensures
        v2::shadow_upgrade(old, new) ==> {
            &&& is_metadata_anew(old.metadata, new.metadata)
            &&& new.spec.state == v2::BottlerocketShadowState::upgraded(old.spec.state)
            &&& new.spec.version == old.spec.version
            &&& is_time_anew(
                old.spec.state_transition_timestamp,
                new.spec.state_transition_timestamp,
            )
            &&& old.status is Some <==> new.status is Some
            &&& old.status is Some ==> {
                &&& new.status->0.current_version == old.status->0.current_version
                &&& new.status->0.target_version == old.status->0.target_version
                &&& new.status->0.current_state == v2::BottlerocketShadowState::upgraded(
                    old.status->0.current_state,
                )
                &&& new.status->0.crash_count == 0
                &&& new.status->0.state_transition_failure_timestamp is None
            }
        },
{
}

/// An object of the second version becomes one of the first with the same name, owners, versions and
/// times. It has the state that stands for its own.
pub proof fn downgrade_keeps_the_node(old: v2::ShadowView, new: v1::ShadowView)
    ensures
        v1::shadow_downgrade(old, new) ==> {
            &&& is_metadata_anew(old.metadata, new.metadata)
            &&& new.spec.state == v1::BottlerocketShadowState::downgraded(old.spec.state)
            &&& new.spec.version == old.spec.version
            &&& is_time_anew(
                old.spec.state_transition_timestamp,
                new.spec.state_transition_timestamp,
            )
            &&& old.status is Some <==> new.status is Some
            &&& old.status is Some ==> {
                &&& new.status->0.current_version == old.status->0.current_version
                &&& new.status->0.target_version == old.status->0.target_version
                &&& new.status->0.current_state == v1::BottlerocketShadowState::downgraded(
                    old.status->0.current_state,
                )
            }
        },
{
}

/// Whether a version, where there is one, can be read, and whether a time can.
pub open spec fn can_be_read(version: Option<Seq<char>>, time: Option<Seq<char>>) -> bool {
    &&& version is Some ==> semver_parts(version->0) is Some
    &&& time is Some ==> rfc3339_read(time->0) is Ok
}

/// An object can be converted exactly where the versions and the time of its spec and the versions
/// of its status can be read.
pub proof fn readable_objects_can_be_converted(old: v1::ShadowView, new: v2::ShadowView)
    ensures
        old.convertible() <==> can_be_read(old.spec.version, old.spec.state_transition_timestamp)
            && (old.status is Some ==> semver_parts(old.status->0.current_version) is Some
            && semver_parts(old.status->0.target_version) is Some),
        new.convertible() <==> can_be_read(new.spec.version, new.spec.state_transition_timestamp)
            && (new.status is Some ==> semver_parts(new.status->0.current_version) is Some
            && semver_parts(new.status->0.target_version) is Some),
{
}

/// A node has crashed where it is in the state for that. Nodes are ordered by how often they crashed,
/// and those without a status come last.
pub proof fn crashes_of_a_node(a: v2::ShadowView, b: v2::ShadowView)
    ensures
        a.crashed() <==> a.status is Some && a.status->0.current_state
            == v2::BottlerocketShadowState::ErrorReset,
        a.crash_order(b) == std::cmp::Ordering::Less <==> a.status is Some && (b.status is None
            || a.status->0.crash_count < b.status->0.crash_count),
        a.crash_order(b) == std::cmp::Ordering::Greater <==> b.status is Some && (a.status is None
            || a.status->0.crash_count > b.status->0.crash_count),
{
}

/// A field that holds a text is what the text is read as; one without a text is nothing.
pub proof fn fields_are_read_from_texts(t: Seq<char>)
    ensures
        version_reads(Some(t)) <==> semver_parts(t) is Some,
        version_field(Some(t)) == semver_parts(t),
        instant_reads(Some(t)) <==> rfc3339_read(t) is Ok,
        rfc3339_read(t) is Ok ==> instant_field(Some(t)) == Some(rfc3339_read(t)->Ok_0),
        rfc3339_read(t) is Err ==> instant_field(Some(t)) is None,
        version_reads(None),
        version_field(None) is None,
        instant_reads(None),
        instant_field(None) is None,
{
}

/// A field is written as the text of its value, and without a value it holds none.
pub proof fn fields_are_written_as_texts(i: Instant, v: (u64, u64, u64, Seq<char>, Seq<char>))
    ensures
        instant_text(Some(i)) == Some(rfc3339_text(i.0, i.1)),
        instant_text(None) is None,
        version_option_text(Some(v)) == Some(version_text(v)),
        version_option_text(None) is None,
{
}

/// A time that cannot be read is told with the reason.
pub proof fn unreadable_times_are_told(e: Error, field: Option<Seq<char>>)
    ensures
        is_format_error(e, field) ==> field is Some && e is TimestampFormat && rfc3339_read(field->0)
            is Err && rfc3339_read(field->0)->Err_0 == e->TimestampFormat_source@,
        field is None ==> !is_format_error(e, field),
{
}

/// A version is written as its three numbers with points between them, then what comes before the
/// release behind a minus, and then the build behind a plus, where there are any.
pub proof fn versions_are_written_with_points(
    major: u64,
    minor: u64,
    patch: u64,
    pre: Seq<char>,
    build: Seq<char>,
)
    ensures
        ({
            let numbers = decimal(major as nat) + "."@ + decimal(minor as nat) + "."@ + decimal(
                patch as nat,
            );
            let none = Seq::<char>::empty();
            &&& version_text((major, minor, patch, none, none)) == numbers
            &&& pre.len() > 0 ==> version_text((major, minor, patch, pre, none)) == numbers + "-"@
                + pre
            &&& build.len() > 0 ==> version_text((major, minor, patch, none, build)) == numbers
                + "+"@ + build
            &&& pre.len() > 0 && build.len() > 0 ==> version_text((major, minor, patch, pre, build))
                == numbers + "-"@ + pre + "+"@ + build
        }),
{
    let none = Seq::<char>::empty();
    let numbers = decimal(major as nat) + "."@ + decimal(minor as nat) + "."@ + decimal(
        patch as nat,
    );
    assert(numbers + none + none =~= numbers);
    assert(numbers + ("-"@ + pre) + none =~= numbers + "-"@ + pre);
    assert(numbers + none + ("+"@ + build) =~= numbers + "+"@ + build);
    assert(numbers + ("-"@ + pre) + ("+"@ + build) =~= numbers + "-"@ + pre + "+"@ + build);
}

/// The node of an object is its first owner. Without an owner it is not known, and the object is
/// named.
pub proof fn first_owner_is_the_node(
    meta: ObjectMetaView,
    r: Result<BottlerocketShadowSelector, Error>,
)
    requires
        selects(meta, r),
    ensures
        r is Ok <==> meta.owner_references is Some && meta.owner_references->0.len() > 0,
        r is Ok ==> r->Ok_0@.node_name == meta.owner_references->0[0].name && r->Ok_0@.node_uid
            == meta.owner_references->0[0].uid,
        r is Err ==> r->Err_0 is MissingOwnerReference && r->Err_0->name@ == meta.any_name(),
{
}

/// A new object is named after its node, is owned by it alone, should be idle and has no status.
pub proof fn new_objects_belong_to_their_node(selector: SelectorView)
    ensures
        ({
            let brs = initial_shadow(selector);
            let owners = brs.metadata.owner_references->0;
            &&& brs.metadata.name == Some("brs-"@ + selector.node_name)
            &&& brs.metadata.owner_references is Some
            &&& owners.len() == 1
            &&& owners[0].api_version == "v1"@
            &&& owners[0].kind == "Node"@
            &&& owners[0].name == selector.node_name
            &&& owners[0].uid == selector.node_uid
            &&& owners[0].controller is None
            &&& owners[0].block_owner_deletion is None
            &&& brs.metadata.namespace is None && brs.metadata.uid is None
                && brs.metadata.generate_name is None && brs.metadata.labels is None
                && brs.metadata.annotations is None
            &&& brs.spec.state == v2::BottlerocketShadowState::Idle
            &&& brs.spec.version is None
            &&& brs.spec.state_transition_timestamp is None
            &&& brs.status is None
        }),
{
}

/// A patch of an object says which kind of object it is for, and holds the value.
pub proof fn patches_say_what_they_are_for<T>(value: T)
    ensures
        shadow_patch(value).api_version == "brupop.bottlerocket.aws/v2"@,
        shadow_patch(value).kind == "BottlerocketShadow"@,
        shadow_patch(value).value == value,
{
}

/// A new spec and a new status hold what they are made of.
pub proof fn specs_and_statuses_are_made(
    state: v2::BottlerocketShadowState,
    time: Option<Timestamp>,
    version: Option<Version>,
    spec: v2::BottlerocketShadowSpec,
    current: Version,
    target: Version,
    crash_count: u32,
    status: v2::BottlerocketShadowStatus,
)
    requires
        call_ensures(v2::BottlerocketShadowSpec::new, (state, time, version), spec),
        call_ensures(
            v2::BottlerocketShadowStatus::new,
            (current, target, state, crash_count, time),
            status,
        ),
    ensures
        spec@.state == state,
        version is None <==> spec@.version is None,
        version is Some ==> spec@.version == Some(version_text(version->0@)),
        time is None <==> spec@.state_transition_timestamp is None,
        time is Some ==> spec@.state_transition_timestamp == Some(
            rfc3339_text(time->0@.0, time->0@.1),
        ),
        status@.current_version == version_text(current@),
        status@.target_version == version_text(target@),
        status@.current_state == state,
        status@.crash_count == crash_count,
        status@.state_transition_failure_timestamp == spec@.state_transition_timestamp,
{
}

/// The versions and times of an object are read from its texts.
pub proof fn specs_and_statuses_are_read(
    spec: &v2::BottlerocketShadowSpec,
    version: Option<Version>,
    time: Result<Option<Timestamp>, Error>,
    status: &v2::BottlerocketShadowStatus,
    current: Version,
    target: Version,
    failure: Result<Option<Timestamp>, Error>,
)
    requires
        version_reads(spec@.version),
        call_ensures(v2::BottlerocketShadowSpec::version, (spec,), version),
        call_ensures(v2::BottlerocketShadowSpec::state_timestamp, (spec,), time),
        semver_parts(status@.current_version) is Some,
        semver_parts(status@.target_version) is Some,
        call_ensures(v2::BottlerocketShadowStatus::current_version, (status,), current),
        call_ensures(v2::BottlerocketShadowStatus::target_version, (status,), target),
        call_ensures(v2::BottlerocketShadowStatus::failure_timestamp, (status,), failure),
    ensures
        version is Some <==> spec@.version is Some,
        version is Some ==> Some(version->0@) == semver_parts(spec@.version->0),
        Some(current@) == semver_parts(status@.current_version),
        Some(target@) == semver_parts(status@.target_version),
        ({
            let t = spec@.state_transition_timestamp;
            &&& t is None ==> time is Ok && time->Ok_0 is None
            &&& t is Some && rfc3339_read(t->0) is Ok ==> time is Ok && time->Ok_0 is Some
                && time->Ok_0->0@ == rfc3339_read(t->0)->Ok_0
            &&& t is Some && rfc3339_read(t->0) is Err ==> time is Err
        }),
        ({
            let t = status@.state_transition_failure_timestamp;
            &&& t is None ==> failure is Ok && failure->Ok_0 is None
            &&& t is Some && rfc3339_read(t->0) is Ok ==> failure is Ok && failure->Ok_0 is Some
                && failure->Ok_0->0@ == rfc3339_read(t->0)->Ok_0
            &&& t is Some && rfc3339_read(t->0) is Err ==> failure is Err
        }),
{
}

/// The node of an object is told by its selector, as its name is.
pub proof fn selectors_tell_nodes(
    node: &BottlerocketShadowSelector,
    name: String,
    text: String,
)
    requires
        call_ensures(BottlerocketShadowSelector::brs_resource_name, (node,), name),
        call_ensures(BottlerocketShadowSelector::to_text, (node,), text),
    ensures
        name@ == "brs-"@ + node.node_name@,
        text@ == "("@ + node.node_name@ + ", "@ + node.node_uid@ + ")"@,
{
}

} // verus!
