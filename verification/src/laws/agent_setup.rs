//! How the agent starts, what it learns of its node, and how it ends.

use vstd::prelude::*;
use vstd::string::*;

use super::draining::delays_are_powers_up_to_a_limit;
use crate::agent::agentclient::{
    check_node_shadow_exists, checked_running_desired_version, fetch_shadow, first_action,
    get_node_selector, retry_strategy, update_status_in_shadow, Action, Phase, ShadowLookup,
};
use crate::agent::agentclient_error::{BottlerocketShadowRWError, Error};
use crate::agent::apiclient::OsInfo;
use crate::agent::run::{agent_ended, agent_setup, run_agent, AgentError, AgentSetup, Ended};
use crate::models::node::crd::{
    BottlerocketShadow, BottlerocketShadowSelector, BottlerocketShadowSpec,
    BottlerocketShadowStatus,
};
use crate::retry::backoff;
use crate::version::semver_parts;

verus! {

/// The agent watches its node and the object of that node, each alone, and calls the server with the
/// token that is mounted for it.
pub proof fn agent_watches_its_own_node(node: Seq<char>)
    ensures
        ({
            let setup = agent_setup(node);
            &&& setup.associated_node_name == node
            &&& setup.associated_bottlerocketshadow_name == "brs-"@ + node
            &&& setup.brs_fields == "metadata.name="@ + ("brs-"@ + node)
            &&& setup.node_fields == "metadata.name="@ + node
            &&& setup.token_path == "/var/run/secrets/tokens"@ + "/"@
                + "bottlerocket-agent-service-account-token"@
        }),
{
}

/// The agent starts where the name of its node is known, and else fails with the reason.
pub proof fn agent_starts_on_its_node(
    node_name: Result<String, String>,
    r: Result<AgentSetup, AgentError>,
)
    requires
        call_ensures(run_agent, (node_name,), r),
    ensures
        node_name is Ok ==> r is Ok && r->Ok_0@ == agent_setup(node_name->Ok_0@),
        node_name is Err ==> r is Err && r->Err_0 is GetNodeName && r->Err_0->GetNodeName_source@
            == node_name->Err_0@,
{
}

/// The agent fails where one of its watches ends, which is named, or where its loop fails.
pub proof fn agent_ends(ended: Ended, r: Result<(), AgentError>)
    requires
        call_ensures(agent_ended, (ended,), r),
    ensures
        r is Ok <==> ended is Loop && ended->Loop_0 is Ok,
        ended is BrsWatch ==> r->Err_0 is KubernetesWatcherFailed && r->Err_0->object@ == "brs"@,
        ended is NodeWatch ==> r->Err_0 is KubernetesWatcherFailed && r->Err_0->object@ == "node"@,
        ended is Loop && ended->Loop_0 is Err ==> r->Err_0 is AgentError
            && r->Err_0->AgentError_source == ended->Loop_0->Err_0,
{
}

/// The loop begins with the question whether the object exists.
pub proof fn agent_begins_with_the_object(r: (Phase, Action))
    requires
        call_ensures(first_action, (), r),
    ensures
        r.0@ is CheckingExistence,
        r.1@ is CheckNodeShadowExists,
{
}

/// The object of the node exists where the store holds one or the API finds it, and does not where the
/// API answers 404. Anything else is an error.
pub proof fn existence_of_the_object(
    stored: usize,
    lookup: ShadowLookup,
    name: &str,
    r: Result<bool, BottlerocketShadowRWError>,
)
    requires
        call_ensures(check_node_shadow_exists, (stored, lookup, name), r),
    ensures
        r == Ok::<bool, BottlerocketShadowRWError>(true) <==> stored > 0 || lookup is Found,
        r == Ok::<bool, BottlerocketShadowRWError>(false) <==> stored == 0 && lookup is ErrorCode
            && lookup->ErrorCode_0 == 404,
        stored == 0 && lookup is ErrorCode && lookup->ErrorCode_0 != 404 ==> r is Err
            && r->Err_0 is FetchBottlerocketShadowErrorCode && r->Err_0->code
            == lookup->ErrorCode_0,
        stored == 0 && lookup is Unreachable ==> r is Err && r->Err_0 is UnableFetchBottlerocketShadow
            && r->Err_0->node_name@ == name@ && r->Err_0->UnableFetchBottlerocketShadow_source@
            == lookup->Unreachable_0@,
{
}

/// The node of the agent is the one that the store holds, with its uid.
pub proof fn node_of_the_agent(
    name: &str,
    uids: &Vec<Option<String>>,
    r: Result<BottlerocketShadowSelector, Error>,
)
    requires
        call_ensures(get_node_selector, (name, uids), r),
    ensures
        r is Ok <==> uids@.len() > 0 && uids@[0] is Some,
        r is Ok ==> r->Ok_0@.node_name == name@ && r->Ok_0@.node_uid == uids@[0]->0@,
        uids@.len() == 0 ==> r->Err_0 is ReflectorUnavailable && r->Err_0->object@ == "Node"@,
        uids@.len() > 0 && uids@[0] is None ==> r->Err_0 is MissingNodeUid,
{
}

/// The object of the node is the one that the store holds.
pub proof fn object_of_the_agent(
    stored: Vec<BottlerocketShadow>,
    r: Result<BottlerocketShadow, Error>,
)
    requires
        call_ensures(fetch_shadow, (stored,), r),
    ensures
        stored@.len() > 0 ==> r is Ok && r->Ok_0 == stored@[0],
        stored@.len() == 0 ==> r is Err && r->Err_0 is ReflectorUnavailable && r->Err_0->object@
            == "BottlerocketShadow"@,
{
}

/// A status is written exactly where it differs from the one that the object has.
pub proof fn changed_statuses_are_written(
    brs: &BottlerocketShadow,
    status: &BottlerocketShadowStatus,
    r: Result<bool, BottlerocketShadowRWError>,
)
    requires
        call_ensures(update_status_in_shadow, (brs, status), r),
    ensures
        brs@.status is None ==> r is Err && r->Err_0 is MissingBottlerocketShadowStatus,
        brs@.status is Some ==> r is Ok && (r->Ok_0 <==> status@ != brs@.status->0),
{
}

/// The node runs the desired version where one is asked for, and it is the one that runs. No answer is
/// given where it cannot be read.
pub proof fn running_version_is_compared(
    spec: &BottlerocketShadowSpec,
    os_info: &OsInfo,
    r: Option<bool>,
)
    requires
        call_ensures(checked_running_desired_version, (spec, os_info), r),
    ensures
        spec@.version is None ==> r == Some(false),
        spec@.version is Some && semver_parts(spec@.version->0) is None ==> r is None,
        spec@.version is Some && semver_parts(spec@.version->0) is Some ==> r == Some(
            semver_parts(spec@.version->0) == Some(os_info.version_id@),
        ),
{
}

proof fn lemma_seconds(retries: nat)
    ensures
        backoff(1_000, 10_000, retries) == if retries == 0 {
            1_000int
        } else {
            10_000
        },
    decreases retries,
{
    if retries == 0 {
        delays_are_powers_up_to_a_limit(1_000, 10_000, 0);
    } else {
        lemma_seconds((retries - 1) as nat);
        delays_are_powers_up_to_a_limit(1_000, 10_000, (retries - 1) as nat);
    }
}

/// A store is looked into again five times: after one second, and then every ten.
pub proof fn waits_between_looks(delays: Vec<u64>, i: int)
    requires
        call_ensures(retry_strategy, (), delays),
        0 <= i < 5,
    ensures
        delays@.len() == 5,
        delays@[i] == if i == 0 {
            1_000u64
        } else {
            10_000
        },
{
    lemma_seconds(i as nat);
}

} // verus!
