//! The namespace of the operator.

use vstd::prelude::*;
use vstd::string::*;

use crate::models::constants::NAMESPACE;
use crate::models::manifest::{entry, Namespace, NamespaceView};
use crate::models::meta::{ObjectMeta, ObjectMetaView};

verus! {

/// The namespace of the operator, with its label.
pub open spec fn namespace_manifest() -> NamespaceView {
    NamespaceView {
        metadata: ObjectMetaView {
            name: Some(NAMESPACE@),
            labels: Some(map!["name"@ => "brupop"@]),
            ..ObjectMetaView::unset()
        },
    }
}

/// Defines the brupop namespace
pub fn brupop_namespace() -> (r: Namespace)
    ensures
        r@ == namespace_manifest(),
{
    Namespace {
        metadata: ObjectMeta {
            name: Some(String::from_str(NAMESPACE)),
            generate_name: None,
            namespace: None,
            uid: None,
            owner_references: None,
            labels: Some(entry("name", "brupop")),
            annotations: None,
        },
    }
}

} // verus!
