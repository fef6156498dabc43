//! What is sent to the cluster when the `BottlerocketShadow` of a node is created or changed.

use vstd::prelude::*;
use vstd::string::*;

use super::crd::selector::{brs_name, selects, BottlerocketShadowSelector, SelectorView};
use super::crd::v2::{
    BottlerocketShadow, BottlerocketShadowSpec, BottlerocketShadowState, BottlerocketShadowStatus,
    ShadowView, SpecView, StatusView,
};
use crate::models::constants::{API_VERSION, K8S_NODE_KIND};
use crate::models::manifest::{list1, views};
use crate::models::meta::{ObjectMeta, ObjectMetaView, OwnerReference, OwnerReferenceView};

verus! {

/// The `BottlerocketShadow` that a node starts with: idle, without a status, and owned by the
/// node.
pub open spec fn initial_shadow(selector: SelectorView) -> ShadowView {
    ShadowView {
        metadata: ObjectMetaView {
            name: Some(brs_name(selector.node_name)),
            owner_references: Some(
                seq![
                    OwnerReferenceView {
                        api_version: "v1"@,
                        kind: "Node"@,
                        name: selector.node_name,
                        uid: selector.node_uid,
                        controller: None,
                        block_owner_deletion: None,
                    },
                ],
            ),
            ..ObjectMetaView::unset()
        },
        spec: SpecView {
            state: BottlerocketShadowState::Idle,
            state_transition_timestamp: None,
            version: None,
        },
        status: None,
    }
}

/// The object that is created for a node.
pub fn create_node(selector: &BottlerocketShadowSelector) -> (r: BottlerocketShadow)
    ensures
        r@ == initial_shadow(selector@),
{
    let owners = list1(
        OwnerReference {
            api_version: String::from_str("v1"),
            kind: String::from_str("Node"),
            name: selector.node_name.clone(),
            uid: selector.node_uid.clone(),
            controller: None,
            block_owner_deletion: None,
        },
    );
    proof {
        assert(owners@.map_values(|o: OwnerReference| o@) =~= views(owners@));
    }
    BottlerocketShadow {
        metadata: ObjectMeta {
            name: Some(selector.brs_resource_name()),
            generate_name: None,
            namespace: None,
            uid: None,
            owner_references: Some(owners),
            labels: None,
            annotations: None,
        },
        spec: BottlerocketShadowSpec::default(),
        status: None,
    }
}

/// A patch that replaces the status of a `BottlerocketShadow`.
#[derive(Debug)]
pub struct BottlerocketShadowStatusPatch {
    pub api_version: String,
    pub kind: String,
    pub status: BottlerocketShadowStatus,
}

/// A patch that replaces the spec of a `BottlerocketShadow`.
#[derive(Debug)]
pub struct BottlerocketShadowSpecPatch {
    pub api_version: String,
    pub kind: String,
    pub spec: BottlerocketShadowSpec,
}

/// The contents of a patch: the version and kind of the object, and what is replaced.
pub struct PatchView<T> {
    pub api_version: Seq<char>,
    pub kind: Seq<char>,
    pub value: T,
}

impl View for BottlerocketShadowStatusPatch {
    type V = PatchView<StatusView>;

    open spec fn view(&self) -> PatchView<StatusView> {
        PatchView { api_version: self.api_version@, kind: self.kind@, value: self.status@ }
    }
}

impl View for BottlerocketShadowSpecPatch {
    type V = PatchView<SpecView>;

    open spec fn view(&self) -> PatchView<SpecView> {
        PatchView { api_version: self.api_version@, kind: self.kind@, value: self.spec@ }
    }
}

/// The patch that replaces a part of a `BottlerocketShadow`.
pub open spec fn shadow_patch<T>(value: T) -> PatchView<T> {
    PatchView { api_version: API_VERSION@, kind: K8S_NODE_KIND@, value }
}

/// The name of the object of a node, and the patch that overwrites its status.
pub fn update_node_status(
    selector: &BottlerocketShadowSelector,
    status: &BottlerocketShadowStatus,
) -> (r: (String, BottlerocketShadowStatusPatch))
    ensures
        r.0@ == brs_name(selector@.node_name),
        r.1@ == shadow_patch(status@),
{
    (
        selector.brs_resource_name(),
        BottlerocketShadowStatusPatch {
            api_version: String::from_str(API_VERSION),
            kind: String::from_str(K8S_NODE_KIND),
            status: status.copy(),
        },
    )
}

/// The name of the object of a node, and the patch that overwrites its spec.
pub fn update_node_spec(
    selector: &BottlerocketShadowSelector,
    spec: &BottlerocketShadowSpec,
) -> (r: (String, BottlerocketShadowSpecPatch))
    ensures
        r.0@ == brs_name(selector@.node_name),
        r.1@ == shadow_patch(spec@),
{
    (
        selector.brs_resource_name(),
        BottlerocketShadowSpecPatch {
            api_version: String::from_str(API_VERSION),
            kind: String::from_str(K8S_NODE_KIND),
            spec: spec.copy(),
        },
    )
}

/// The object that is created for a node is found again by the same selector: its owner is that
/// node.
pub proof fn created_node_is_selected(
    selector: SelectorView,
    found: Result<BottlerocketShadowSelector, super::crd::error::Error>,
)
    requires
        selects(initial_shadow(selector).metadata, found),
    ensures
        found is Ok,
        found->Ok_0@ == selector,
{
}

} // verus!
