//! Which k8s node a `BottlerocketShadow` belongs to.

use vstd::prelude::*;
use vstd::string::*;

use super::error::Error;
use super::{v1, v2};
use crate::models::meta::{ObjectMeta, ObjectMetaView};
use crate::text::{concat2, concat5};

verus! {

/// A version of the `BottlerocketShadow` resource, which has metadata.
pub trait BottlerocketShadowResource {
    /// The contents of the metadata.
    spec fn meta_view(&self) -> ObjectMetaView;

    /// The metadata of the object.
    fn meta(&self) -> (r: &ObjectMeta)
        ensures
            r@ == self.meta_view(),
    ;
}

impl BottlerocketShadowResource for v1::BottlerocketShadow {
    open spec fn meta_view(&self) -> ObjectMetaView {
        self@.metadata
    }

    fn meta(&self) -> (r: &ObjectMeta) {
        &self.metadata
    }
}

impl BottlerocketShadowResource for v2::BottlerocketShadow {
    open spec fn meta_view(&self) -> ObjectMetaView {
        self@.metadata
    }

    fn meta(&self) -> (r: &ObjectMeta) {
        &self.metadata
    }
}

/// Whether a selector, or the lack of one, is what the metadata of an object gives: the name
/// and uid of its first owner. Without an owner the error names the object.
pub open spec fn selects(
    meta: ObjectMetaView,
    r: Result<BottlerocketShadowSelector, Error>,
) -> bool {
    if meta.owner_references is Some && meta.owner_references->0.len() > 0 {
        &&& r is Ok
        &&& r->Ok_0@ == (SelectorView {
            node_name: meta.owner_references->0[0].name,
            node_uid: meta.owner_references->0[0].uid,
        })
    } else {
        &&& r is Err
        &&& r->Err_0 is MissingOwnerReference
        &&& r->Err_0->name@ == meta.any_name()
    }
}

/// Finds the node of an object.
pub trait Selector {
    /// The metadata of the object.
    spec fn owned_meta(&self) -> ObjectMetaView;

    /// The node that owns the object.
    fn selector(&self) -> (r: Result<BottlerocketShadowSelector, Error>)
        ensures
            selects(self.owned_meta(), r),
    ;
}

impl<T: BottlerocketShadowResource> Selector for T {
    open spec fn owned_meta(&self) -> ObjectMetaView {
        self.meta_view()
    }

    fn selector(&self) -> (r: Result<BottlerocketShadowSelector, Error>) {
        let meta = self.meta();
        match &meta.owner_references {
            None => Err(Error::MissingOwnerReference { name: meta.name_any() }),
            Some(owners) => {
                if owners.len() == 0 {
                    Err(Error::MissingOwnerReference { name: meta.name_any() })
                } else {
                    Ok(
                        BottlerocketShadowSelector {
                            node_name: owners[0].name.clone(),
                            node_uid: owners[0].uid.clone(),
                        },
                    )
                }
            },
        }
    }
}

/// Indicates the specific k8s node that BottlerocketShadow object is associated with.
#[derive(Debug, Clone, PartialEq, Eq)]
pub struct BottlerocketShadowSelector {
    pub node_name: String,
    pub node_uid: String,
}

/// The contents of a `BottlerocketShadowSelector`.
pub struct SelectorView {
    pub node_name: Seq<char>,
    pub node_uid: Seq<char>,
}

impl View for BottlerocketShadowSelector {
    type V = SelectorView;

    open spec fn view(&self) -> SelectorView {
        SelectorView { node_name: self.node_name@, node_uid: self.node_uid@ }
    }
}

impl BottlerocketShadowSelector {
    /// The name of the `BottlerocketShadow` of the node.
    pub fn brs_resource_name(&self) -> (r: String)
        ensures
            r@ == brs_name(self@.node_name),
    {
        brs_name_from_node_name(self.node_name.as_str())
    }

    /// The selector as text.
    pub fn to_text(&self) -> (r: String)
        ensures
            r@ == "("@ + self@.node_name + ", "@ + self@.node_uid + ")"@,
    {
        concat5("(", self.node_name.as_str(), ", ", self.node_uid.as_str(), ")")
    }

    /// A copy of the selector.
    pub fn copy(&self) -> (r: BottlerocketShadowSelector)
        ensures
            r@ == self@,
    {
        BottlerocketShadowSelector {
            node_name: self.node_name.clone(),
            node_uid: self.node_uid.clone(),
        }
    }
}

/// The name of the `BottlerocketShadow` of a node.
pub open spec fn brs_name(node_name: Seq<char>) -> Seq<char> {
    "brs-"@ + node_name
}

/// The name of the `BottlerocketShadow` of a node.
pub fn brs_name_from_node_name(node_name: &str) -> (r: String)
    ensures
        r@ == brs_name(node_name@),
{
    concat2("brs-", node_name)
}

/// Different nodes have `BottlerocketShadow` objects of different names.
pub proof fn brs_name_is_injective(a: Seq<char>, b: Seq<char>)
    requires
        brs_name(a) == brs_name(b),
    ensures
        a == b,
{
    let n = "brs-"@.len() as int;
    assert(brs_name(a).subrange(n, brs_name(a).len() as int) =~= a);
    assert(brs_name(b).subrange(n, brs_name(b).len() as int) =~= b);
}

} // verus!
