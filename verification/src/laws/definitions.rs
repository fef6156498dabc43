//! The definition of the resource: how its versions are put together.

use vstd::prelude::*;

use crate::models::node::crd::definition::{
    add_webhook_setting, ca_annotations, combine_version_in_crds, combined, definition_views,
    not_stored, old_versions, remove_empty_categories, webhook_conversion, CustomResourceDefinition,
    DefinitionView, VersionEntryView,
};

verus! {

/// Older versions are kept as they are, but that objects are not stored in them.
pub proof fn older_versions_are_not_stored(v: Seq<VersionEntryView>, i: int)
    requires
        0 <= i < v.len(),
    ensures
        not_stored(v).len() == v.len(),
        not_stored(v)[i].name == v[i].name,
        not_stored(v)[i].document == v[i].document,
        !not_stored(v)[i].storage,
{
}

/// Older definitions give their versions one after the other, in their order.
pub proof fn older_versions_are_listed_in_order(
    first: Seq<DefinitionView>,
    second: Seq<DefinitionView>,
    one: DefinitionView,
)
    ensures
        old_versions(first + second) == old_versions(first) + old_versions(second),
        old_versions(seq![one]).len() == one.versions.len(),
        forall|i: int|
            0 <= i < one.versions.len() ==> {
                &&& (#[trigger] old_versions(seq![one])[i]).name == one.versions[i].name
                &&& old_versions(seq![one])[i].document == one.versions[i].document
                &&& !old_versions(seq![one])[i].storage
            },
    decreases second.len(),
{
    reveal_with_fuel(old_versions, 2);
    assert(seq![one].drop_last() =~= Seq::<DefinitionView>::empty());
    assert(old_versions(seq![one]) =~= not_stored(one.versions));
    if second.len() == 0 {
        assert(first + second =~= first);
        assert(old_versions(first) + old_versions(second) =~= old_versions(first));
    } else {
        older_versions_are_listed_in_order(first, second.drop_last(), one);
        assert((first + second).drop_last() =~= first + second.drop_last());
        assert(old_versions(first + second) =~= old_versions(first) + old_versions(second));
    }
}

/// The latest definition comes first with its versions as they are, and those of the older ones
/// follow. The rest of the definition is that of the latest, without categories.
pub proof fn latest_definition_leads(older: Seq<DefinitionView>, latest: DefinitionView)
    ensures
        ({
            let all = combined(older.push(latest));
            &&& all.versions == latest.versions + old_versions(older)
            &&& all.document == latest.document
            &&& all.categories is None
            &&& all.annotations is Some
            &&& all.annotations->0 == ca_annotations()
            &&& all.conversion == Some(webhook_conversion())
        }),
{
    assert(older.push(latest).drop_last() =~= older);
}

/// Objects are converted by the webhook of the apiserver, whose certificate is injected.
pub proof fn objects_are_converted_by_the_webhook()
    ensures
        ({
            let conversion = webhook_conversion();
            let webhook = conversion.webhook->0;
            let service = webhook.client_config->0.service->0;
            &&& conversion.strategy == "Webhook"@
            &&& conversion.webhook is Some
            &&& webhook.client_config is Some
            &&& webhook.client_config->0.service is Some
            &&& service.name == "brupop-apiserver"@
            &&& service.namespace == "brupop-bottlerocket-aws"@
            &&& service.path == Some("/crdconvert"@)
            &&& service.port == Some(443i32)
            &&& webhook.conversion_review_versions == seq!["v1"@, "v2"@]
        }),
        ca_annotations().dom() =~= set!["cert-manager.io/inject-ca-from"@],
        ca_annotations()["cert-manager.io/inject-ca-from"@] == "brupop-bottlerocket-aws"@ + "/"@
            + "root-certificate"@,
{
}

/// Each step of the combination changes what it is about, and nothing else.
pub proof fn definitions_are_combined_step_by_step(
    latest: CustomResourceDefinition,
    older: Vec<CustomResourceDefinition>,
    joined: CustomResourceDefinition,
    with_webhook: CustomResourceDefinition,
    without_categories: CustomResourceDefinition,
)
    requires
        call_ensures(combine_version_in_crds, (latest, older), joined),
        call_ensures(add_webhook_setting, (latest,), with_webhook),
        call_ensures(remove_empty_categories, (latest,), without_categories),
    ensures
        joined@.versions == latest@.versions + old_versions(definition_views(older@)),
        joined@.annotations == latest@.annotations && joined@.conversion == latest@.conversion,
        joined@.categories == latest@.categories && joined@.document == latest@.document,
        with_webhook@.conversion == Some(webhook_conversion()),
        with_webhook@.annotations == Some(ca_annotations()),
        with_webhook@.versions == latest@.versions,
        with_webhook@.categories == latest@.categories && with_webhook@.document == latest@.document,
        without_categories@.categories is None,
        without_categories@.versions == latest@.versions,
        without_categories@.annotations == latest@.annotations,
        without_categories@.conversion == latest@.conversion,
        without_categories@.document == latest@.document,
{
}

} // verus!
