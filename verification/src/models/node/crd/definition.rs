//! The `CustomResourceDefinition` that installs all versions of the `BottlerocketShadow`
//! resource. Schemas are carried through as documents.

use vstd::prelude::*;
use vstd::string::*;

use crate::models::constants::{
    APISERVER_CRD_CONVERT_ENDPOINT, APISERVER_SERVICE_NAME, APISERVER_SERVICE_PORT, NAMESPACE,
    ROOT_CERTIFICATE_NAME,
};
use crate::models::meta::{map_option, text_option};
use crate::string_map::StringMap;
use crate::text::concat3;

verus! {

/// A version in a definition.
#[derive(Clone, Debug, PartialEq, Eq)]
pub struct CustomResourceDefinitionVersion {
    pub name: String,
    /// Whether objects are stored in this version.
    pub storage: bool,
    /// The rest of the version: its schema, columns and subresources.
    pub document: String,
}

/// The contents of a version.
pub struct VersionEntryView {
    pub name: Seq<char>,
    pub storage: bool,
    pub document: Seq<char>,
}

impl View for CustomResourceDefinitionVersion {
    type V = VersionEntryView;

    open spec fn view(&self) -> VersionEntryView {
        VersionEntryView {
            name: self.name@,
            storage: self.storage,
            document: self.document@,
        }
    }
}

/// A list of versions as their contents.
pub open spec fn version_entries(v: Seq<CustomResourceDefinitionVersion>) -> Seq<
    VersionEntryView,
> {
    v.map_values(|e: CustomResourceDefinitionVersion| e@)
}

/// A reference to a service.
#[derive(Clone, Debug, PartialEq, Eq)]
pub struct ServiceReference {
    pub name: String,
    pub namespace: String,
    pub path: Option<String>,
    pub port: Option<i32>,
}

/// How the webhook is reached.
#[derive(Clone, Debug, PartialEq, Eq)]
pub struct WebhookClientConfig {
    pub service: Option<ServiceReference>,
}

/// A conversion by webhook.
#[derive(Clone, Debug, PartialEq, Eq)]
pub struct WebhookConversion {
    pub client_config: Option<WebhookClientConfig>,
    pub conversion_review_versions: Vec<String>,
}

/// How objects are converted between versions.
#[derive(Clone, Debug, PartialEq, Eq)]
pub struct CustomResourceConversion {
    pub strategy: String,
    pub webhook: Option<WebhookConversion>,
}

/// The contents of a `CustomResourceConversion`.
pub struct ConversionView {
    pub strategy: Seq<char>,
    pub webhook: Option<WebhookView>,
}

/// The contents of a `WebhookConversion`.
pub struct WebhookView {
    pub client_config: Option<ClientConfigView>,
    pub conversion_review_versions: Seq<Seq<char>>,
}

/// The contents of a `WebhookClientConfig`.
pub struct ClientConfigView {
    pub service: Option<ServiceView>,
}

/// The contents of a `ServiceReference`.
pub struct ServiceView {
    pub name: Seq<char>,
    pub namespace: Seq<char>,
    pub path: Option<Seq<char>>,
    pub port: Option<i32>,
}

impl View for ServiceReference {
    type V = ServiceView;

    open spec fn view(&self) -> ServiceView {
        ServiceView {
            name: self.name@,
            namespace: self.namespace@,
            path: text_option(self.path),
            port: self.port,
        }
    }
}

impl View for WebhookClientConfig {
    type V = ClientConfigView;

    open spec fn view(&self) -> ClientConfigView {
        ClientConfigView {
            service: match self.service {
                Some(s) => Some(s@),
                None => None,
            },
        }
    }
}

impl View for WebhookConversion {
    type V = WebhookView;

    open spec fn view(&self) -> WebhookView {
        WebhookView {
            client_config: match self.client_config {
                Some(c) => Some(c@),
                None => None,
            },
            conversion_review_versions: self.conversion_review_versions@.map_values(
                |s: String| s@,
            ),
        }
    }
}

impl View for CustomResourceConversion {
    type V = ConversionView;

    open spec fn view(&self) -> ConversionView {
        ConversionView {
            strategy: self.strategy@,
            webhook: match self.webhook {
                Some(w) => Some(w@),
                None => None,
            },
        }
    }
}

/// A definition of a custom resource.
#[derive(Debug)]
pub struct CustomResourceDefinition {
    pub annotations: Option<StringMap>,
    pub conversion: Option<CustomResourceConversion>,
    pub categories: Option<Vec<String>>,
    pub versions: Vec<CustomResourceDefinitionVersion>,
    /// The rest of the definition: its names, group and scope.
    pub document: String,
}

/// The contents of a `CustomResourceDefinition`.
pub struct DefinitionView {
    pub annotations: Option<Map<Seq<char>, Seq<char>>>,
    pub conversion: Option<ConversionView>,
    pub categories: Option<Seq<Seq<char>>>,
    pub versions: Seq<VersionEntryView>,
    pub document: Seq<char>,
}

impl View for CustomResourceDefinition {
    type V = DefinitionView;

    open spec fn view(&self) -> DefinitionView {
        DefinitionView {
            annotations: map_option(self.annotations),
            conversion: match self.conversion {
                Some(c) => Some(c@),
                None => None,
            },
            categories: match self.categories {
                Some(c) => Some(c@.map_values(|s: String| s@)),
                None => None,
            },
            versions: version_entries(self.versions@),
            document: self.document@,
        }
    }
}

/// The versions of an older definition, none of them stored.
pub open spec fn not_stored(v: Seq<VersionEntryView>) -> Seq<VersionEntryView> {
    v.map_values(|e: VersionEntryView| VersionEntryView { storage: false, ..e })
}

/// The versions of all older definitions, in order, none of them stored.
pub open spec fn old_versions(old_crds: Seq<DefinitionView>) -> Seq<VersionEntryView>
    decreases old_crds.len(),
{
    if old_crds.len() == 0 {
        Seq::empty()
    } else {
        old_versions(old_crds.drop_last()) + not_stored(old_crds.last().versions)
    }
}

/// The definitions as their contents.
pub open spec fn definition_views(crds: Seq<CustomResourceDefinition>) -> Seq<DefinitionView> {
    crds.map_values(|c: CustomResourceDefinition| c@)
}

/// Combine all different versions of custom resources into one definition.
/// In the combination, this method will keep all settings in the latest definition,
/// and add the versions of each old definition to its versions.
/// When adding those old versions, the storage value is set to false,
/// since only one storage true is allowed among all versions.
pub fn combine_version_in_crds(
    latest_crd: CustomResourceDefinition,
    old_crds: Vec<CustomResourceDefinition>,
) -> (r: CustomResourceDefinition)
    ensures
        r@ == (DefinitionView {
            versions: latest_crd@.versions + old_versions(definition_views(old_crds@)),
            ..latest_crd@
        }),
{
    let mut versions: Vec<CustomResourceDefinitionVersion> = latest_crd.versions;
    let ghost first = version_entries(versions@);
    let ghost olds = definition_views(old_crds@);
    let mut i: usize = 0;
    while i < old_crds.len()
        invariant
            i <= old_crds@.len(),
            olds == definition_views(old_crds@),
            version_entries(versions@) == first + old_versions(olds.take(i as int)),
        decreases old_crds@.len() - i,
    {
        let ghost so_far = version_entries(versions@);
        let old = &old_crds[i].versions;
        let mut j: usize = 0;
        while j < old.len()
            invariant
                j <= old@.len(),
                version_entries(versions@) == so_far + not_stored(version_entries(old@)).take(
                    j as int,
                ),
            decreases old@.len() - j,
        {
            let ghost was = versions@;
            versions.push(
                CustomResourceDefinitionVersion {
                    name: old[j].name.clone(),
                    storage: false,
                    document: old[j].document.clone(),
                },
            );
            proof {
                let ns = not_stored(version_entries(old@));
                assert(version_entries(versions@) =~= version_entries(was).push(ns[j as int]));
                assert(ns.take(j + 1) =~= ns.take(j as int).push(ns[j as int]));
                assert(so_far + ns.take(j + 1) =~= (so_far + ns.take(j as int)).push(ns[j as int]));
            }
            j = j + 1;
        }
        proof {
            let ns = not_stored(version_entries(old@));
            assert(ns.take(old@.len() as int) =~= ns);
            assert(olds.take(i + 1).drop_last() =~= olds.take(i as int));
            assert(olds.take(i + 1).last() == olds[i as int]);
            assert(olds[i as int].versions == version_entries(old@));
            assert(version_entries(versions@) =~= first + old_versions(olds.take(i + 1)));
        }
        i = i + 1;
    }
    assert(olds.take(i as int) =~= olds);
    CustomResourceDefinition {
        annotations: latest_crd.annotations,
        conversion: latest_crd.conversion,
        categories: latest_crd.categories,
        versions,
        document: latest_crd.document,
    }
}

/// The conversion of `BottlerocketShadow` objects: by the webhook of the apiserver, with reviews
/// of versions `v1` and `v2`.
pub open spec fn webhook_conversion() -> ConversionView {
    ConversionView {
        strategy: "Webhook"@,
        webhook: Some(
            WebhookView {
                client_config: Some(
                    ClientConfigView {
                        service: Some(
                            ServiceView {
                                name: APISERVER_SERVICE_NAME@,
                                namespace: NAMESPACE@,
                                path: Some(APISERVER_CRD_CONVERT_ENDPOINT@),
                                port: Some(APISERVER_SERVICE_PORT),
                            },
                        ),
                    },
                ),
                conversion_review_versions: seq!["v1"@, "v2"@],
            },
        ),
    }
}

/// Generate webhook conversion.
///
/// Sample generated config:
/// conversion:
///   strategy: Webhook
///   webhook:
///     clientConfig:
///       service:
///         name: brupop-apiserver
///         namespace: brupop-bottlerocket-aws
///         path: /crdconvert
///         port: 443
///     conversionReviewVersions:
///       - v1
///       - v2
pub fn generate_webhook_conversion() -> (r: CustomResourceConversion)
    ensures
        r@ == webhook_conversion(),
{
    let mut versions: Vec<String> = Vec::new();
    versions.push(String::from_str("v1"));
    versions.push(String::from_str("v2"));
    assert(versions@.map_values(|s: String| s@) =~= seq!["v1"@, "v2"@]);
    CustomResourceConversion {
        strategy: String::from_str("Webhook"),
        webhook: Some(
            WebhookConversion {
                client_config: Some(
                    WebhookClientConfig {
                        service: Some(
                            ServiceReference {
                                name: String::from_str(APISERVER_SERVICE_NAME),
                                namespace: String::from_str(NAMESPACE),
                                path: Some(String::from_str(APISERVER_CRD_CONVERT_ENDPOINT)),
                                port: Some(APISERVER_SERVICE_PORT),
                            },
                        ),
                    },
                ),
                conversion_review_versions: versions,
            },
        ),
    }
}

/// The annotation that tells cert-manager which certificate to inject.
pub open spec fn ca_annotations() -> Map<Seq<char>, Seq<char>> {
    map!["cert-manager.io/inject-ca-from"@ => NAMESPACE@ + "/"@ + ROOT_CERTIFICATE_NAME@]
}

/// Generate cert-manager annotations to help inject caBundle for webhook
/// https://cert-manager.io/docs/concepts/ca-injector/#injecting-ca-data-from-a-certificate-resource
pub fn generate_ca_annotations() -> (r: StringMap)
    ensures
        r@ == ca_annotations(),
{
    StringMap::new().with(
        String::from_str("cert-manager.io/inject-ca-from"),
        concat3(NAMESPACE, "/", ROOT_CERTIFICATE_NAME),
    )
}

/// Setup webhook conversion and add caBundle
pub fn add_webhook_setting(combined_version_crds: CustomResourceDefinition) -> (r:
    CustomResourceDefinition)
    ensures
        r@ == (DefinitionView {
            conversion: Some(webhook_conversion()),
            annotations: Some(ca_annotations()),
            ..combined_version_crds@
        }),
{
    CustomResourceDefinition {
        annotations: Some(generate_ca_annotations()),
        conversion: Some(generate_webhook_conversion()),
        categories: combined_version_crds.categories,
        versions: combined_version_crds.versions,
        document: combined_version_crds.document,
    }
}

/// An empty list of categories causes mismatch in Kubernetes's object and YAML manifest file,
/// further causes ArgoCD/FluxCD constantly reapply defined manifest.
pub fn remove_empty_categories(crds: CustomResourceDefinition) -> (r: CustomResourceDefinition)
    ensures
        r@ == (DefinitionView { categories: None, ..crds@ }),
{
    CustomResourceDefinition {
        annotations: crds.annotations,
        conversion: crds.conversion,
        categories: None,
        versions: crds.versions,
        document: crds.document,
    }
}

/// The definition that combines a list of definitions, of which the last is the latest.
pub open spec fn combined(crds: Seq<DefinitionView>) -> DefinitionView {
    DefinitionView {
        annotations: Some(ca_annotations()),
        conversion: Some(webhook_conversion()),
        categories: None,
        versions: crds.last().versions + old_versions(crds.drop_last()),
        document: crds.last().document,
    }
}

/// Combines the definitions of all versions, of which the last is the latest, and sets up the
/// conversion between them.
pub fn combined_crds(crds: Vec<CustomResourceDefinition>) -> (r: CustomResourceDefinition)
    requires
        crds@.len() > 0,
    ensures
        r@ == combined(definition_views(crds@)),
{
    let mut crds = crds;
    let ghost all = crds@;
    let latest_crd = crds.pop().unwrap();
    assert(definition_views(crds@) =~= definition_views(all).drop_last());
    assert(latest_crd@ == definition_views(all).last());
    let combined_version_crds = combine_version_in_crds(latest_crd, crds);
    let crds_with_webhook = add_webhook_setting(combined_version_crds);
    remove_empty_categories(crds_with_webhook)
}

/// The number of versions in which objects are stored.
pub open spec fn stored_count(v: Seq<VersionEntryView>) -> nat
    decreases v.len(),
{
    if v.len() == 0 {
        0
    } else {
        stored_count(v.drop_last()) + if v.last().storage {
            1nat
        } else {
            0nat
        }
    }
}

proof fn lemma_stored_count_concat(a: Seq<VersionEntryView>, b: Seq<VersionEntryView>)
    ensures
        stored_count(a + b) == stored_count(a) + stored_count(b),
    decreases b.len(),
{
    if b.len() == 0 {
        assert(a + b =~= a);
    } else {
        assert((a + b).drop_last() =~= a + b.drop_last());
        lemma_stored_count_concat(a, b.drop_last());
    }
}

proof fn lemma_not_stored(v: Seq<VersionEntryView>)
    ensures
        stored_count(not_stored(v)) == 0,
    decreases v.len(),
{
    if v.len() > 0 {
        assert(not_stored(v).drop_last() =~= not_stored(v.drop_last()));
        lemma_not_stored(v.drop_last());
    }
}

proof fn lemma_old_versions_not_stored(old_crds: Seq<DefinitionView>)
    ensures
        stored_count(old_versions(old_crds)) == 0,
    decreases old_crds.len(),
{
    if old_crds.len() > 0 {
        lemma_old_versions_not_stored(old_crds.drop_last());
        lemma_not_stored(old_crds.last().versions);
        lemma_stored_count_concat(
            old_versions(old_crds.drop_last()),
            not_stored(old_crds.last().versions),
        );
    }
}

/// Combining definitions stores objects in as many versions as the latest definition does: one
/// stored version there is the only one in the combination.
pub proof fn combination_stores_latest_only(crds: Seq<DefinitionView>)
    requires
        crds.len() > 0,
    ensures
        stored_count(combined(crds).versions) == stored_count(crds.last().versions),
{
    lemma_old_versions_not_stored(crds.drop_last());
    lemma_stored_count_concat(crds.last().versions, old_versions(crds.drop_last()));
}

/// The number of versions in all definitions.
pub open spec fn version_count(crds: Seq<DefinitionView>) -> nat
    decreases crds.len(),
{
    if crds.len() == 0 {
        0
    } else {
        version_count(crds.drop_last()) + crds.last().versions.len()
    }
}

proof fn lemma_old_versions_len(crds: Seq<DefinitionView>)
    ensures
        old_versions(crds).len() == version_count(crds),
    decreases crds.len(),
{
    if crds.len() > 0 {
        lemma_old_versions_len(crds.drop_last());
    }
}

proof fn lemma_old_versions_contains(crds: Seq<DefinitionView>, i: int, j: int)
    requires
        0 <= i < crds.len(),
        0 <= j < crds[i].versions.len(),
    ensures
        exists|k: int|
            0 <= k < old_versions(crds).len() && (#[trigger] old_versions(crds)[k]).name
                == crds[i].versions[j].name && old_versions(crds)[k].document
                == crds[i].versions[j].document,
    decreases crds.len(),
{
    let rest = old_versions(crds.drop_last());
    if i == crds.len() - 1 {
        let k = rest.len() + j;
        assert(old_versions(crds)[k] == not_stored(crds.last().versions)[j]);
    } else {
        assert(crds.drop_last()[i] == crds[i]);
        lemma_old_versions_contains(crds.drop_last(), i, j);
        let k = choose|k: int|
            0 <= k < rest.len() && (#[trigger] rest[k]).name == crds[i].versions[j].name
                && rest[k].document == crds[i].versions[j].document;
        assert(old_versions(crds)[k] == rest[k]);
    }
}

/// Combining definitions loses no version and adds none: there are as many versions as in all
/// definitions together, and each keeps its name and its schema.
pub proof fn combination_keeps_versions(crds: Seq<DefinitionView>, i: int, j: int)
    requires
        0 <= i < crds.len(),
        0 <= j < crds[i].versions.len(),
    ensures
        combined(crds).versions.len() == version_count(crds),
        exists|k: int|
            0 <= k < combined(crds).versions.len() && (#[trigger] combined(crds).versions[k]).name
                == crds[i].versions[j].name && combined(crds).versions[k].document
                == crds[i].versions[j].document,
{
    lemma_old_versions_len(crds.drop_last());
    let latest = crds.last().versions;
    if i == crds.len() - 1 {
        assert(combined(crds).versions[j] == latest[j]);
    } else {
        assert(crds.drop_last()[i] == crds[i]);
        lemma_old_versions_contains(crds.drop_last(), i, j);
        let olds = old_versions(crds.drop_last());
        let k = choose|k: int|
            0 <= k < olds.len() && (#[trigger] olds[k]).name == crds[i].versions[j].name
                && olds[k].document == crds[i].versions[j].document;
        assert(combined(crds).versions[latest.len() + k] == olds[k]);
    }
}

} // verus!
