//! The metadata of a Kubernetes object, as far as the components read it.

use vstd::prelude::*;

use crate::string_map::StringMap;

verus! {

/// An optional text as a sequence of characters.
pub open spec fn text_option(o: Option<String>) -> Option<Seq<char>> {
    match o {
        Some(s) => Some(s@),
        None => None,
    }
}

/// A copy of an optional text.
pub fn copy_option(o: &Option<String>) -> (r: Option<String>)
    ensures
        text_option(r) == text_option(*o),
{
    match o {
        Some(s) => Some(s.clone()),
        None => None,
    }
}

/// Whether two optional texts are the same.
pub fn same_option(a: &Option<String>, b: &Option<String>) -> (r: bool)
    ensures
        r == (text_option(*a) == text_option(*b)),
{
    match (a, b) {
        (Some(x), Some(y)) => *x == *y,
        (None, None) => true,
        _ => false,
    }
}

/// A reference to the object that owns another one.
#[derive(Clone, Debug, PartialEq, Eq)]
pub struct OwnerReference {
    pub api_version: String,
    pub kind: String,
    pub name: String,
    pub uid: String,
    pub controller: Option<bool>,
    pub block_owner_deletion: Option<bool>,
}

/// The contents of an `OwnerReference`.
pub struct OwnerReferenceView {
    pub api_version: Seq<char>,
    pub kind: Seq<char>,
    pub name: Seq<char>,
    pub uid: Seq<char>,
    pub controller: Option<bool>,
    pub block_owner_deletion: Option<bool>,
}

impl View for OwnerReference {
    type V = OwnerReferenceView;

    open spec fn view(&self) -> OwnerReferenceView {
        OwnerReferenceView {
            api_version: self.api_version@,
            kind: self.kind@,
            name: self.name@,
            uid: self.uid@,
            controller: self.controller,
            block_owner_deletion: self.block_owner_deletion,
        }
    }
}

/// A list of owner references as their contents.
pub open spec fn owners_option(o: Option<Vec<OwnerReference>>) -> Option<Seq<OwnerReferenceView>> {
    match o {
        Some(v) => Some(v@.map_values(|r: OwnerReference| r@)),
        None => None,
    }
}

/// An optional map as its contents.
pub open spec fn map_option(o: Option<StringMap>) -> Option<Map<Seq<char>, Seq<char>>> {
    match o {
        Some(m) => Some(m@),
        None => None,
    }
}

/// The metadata of an object.
#[derive(Debug)]
pub struct ObjectMeta {
    pub name: Option<String>,
    pub generate_name: Option<String>,
    pub namespace: Option<String>,
    pub uid: Option<String>,
    pub owner_references: Option<Vec<OwnerReference>>,
    pub labels: Option<StringMap>,
    pub annotations: Option<StringMap>,
}

/// The contents of an `ObjectMeta`.
pub struct ObjectMetaView {
    pub name: Option<Seq<char>>,
    pub generate_name: Option<Seq<char>>,
    pub namespace: Option<Seq<char>>,
    pub uid: Option<Seq<char>>,
    pub owner_references: Option<Seq<OwnerReferenceView>>,
    pub labels: Option<Map<Seq<char>, Seq<char>>>,
    pub annotations: Option<Map<Seq<char>, Seq<char>>>,
}

impl View for ObjectMeta {
    type V = ObjectMetaView;

    open spec fn view(&self) -> ObjectMetaView {
        ObjectMetaView {
            name: text_option(self.name),
            generate_name: text_option(self.generate_name),
            namespace: text_option(self.namespace),
            uid: text_option(self.uid),
            owner_references: owners_option(self.owner_references),
            labels: map_option(self.labels),
            annotations: map_option(self.annotations),
        }
    }
}

impl ObjectMetaView {
    /// The metadata in which nothing is set.
    pub open spec fn unset() -> ObjectMetaView {
        ObjectMetaView {
            name: None,
            generate_name: None,
            namespace: None,
            uid: None,
            owner_references: None,
            labels: None,
            annotations: None,
        }
    }

    /// The name of the object, else the prefix of its generated name, else the empty text.
    pub open spec fn any_name(self) -> Seq<char> {
        match self.name {
            Some(n) => n,
            None => match self.generate_name {
                Some(g) => g,
                None => Seq::empty(),
            },
        }
    }
}

impl Default for ObjectMeta {
    fn default() -> (r: Self)
        ensures
            r@ == ObjectMetaView::unset(),
    {
        ObjectMeta {
            name: None,
            generate_name: None,
            namespace: None,
            uid: None,
            owner_references: None,
            labels: None,
            annotations: None,
        }
    }
}

impl ObjectMeta {
    /// The name of the object, else the prefix of its generated name, else the empty text.
    pub fn name_any(&self) -> (r: String)
        ensures
            r@ == self@.any_name(),
    {
        match &self.name {
            Some(n) => n.clone(),
            None => match &self.generate_name {
                Some(g) => g.clone(),
                None => String::new(),
            },
        }
    }

    /// A copy of the metadata.
    pub fn copy(&self) -> (r: ObjectMeta)
        ensures
            r@ == self@,
    {
        ObjectMeta {
            name: copy_option(&self.name),
            generate_name: copy_option(&self.generate_name),
            namespace: copy_option(&self.namespace),
            uid: copy_option(&self.uid),
            owner_references: copy_owners(&self.owner_references),
            labels: match &self.labels {
                Some(m) => Some(m.copy()),
                None => None,
            },
            annotations: match &self.annotations {
                Some(m) => Some(m.copy()),
                None => None,
            },
        }
    }
}

impl OwnerReference {
    /// A copy of the reference.
    pub fn copy(&self) -> (r: OwnerReference)
        ensures
            r@ == self@,
    {
        OwnerReference {
            api_version: self.api_version.clone(),
            kind: self.kind.clone(),
            name: self.name.clone(),
            uid: self.uid.clone(),
            controller: self.controller,
            block_owner_deletion: self.block_owner_deletion,
        }
    }
}

/// A copy of a list of owner references.
pub fn copy_owners(o: &Option<Vec<OwnerReference>>) -> (r: Option<Vec<OwnerReference>>)
    ensures
        owners_option(r) == owners_option(*o),
{
    match o {
        None => None,
        Some(v) => {
            let mut out: Vec<OwnerReference> = Vec::new();
            let mut i: usize = 0;
            while i < v.len()
                invariant
                    i <= v@.len(),
                    out@.len() == i,
                    forall|j: int| 0 <= j < i ==> (#[trigger] out@[j])@ == v@[j]@,
                decreases v@.len() - i,
            {
                out.push(v[i].copy());
                i = i + 1;
            }
            assert(out@.map_values(|x: OwnerReference| x@) =~= v@.map_values(
                |x: OwnerReference| x@,
            ));
            Some(out)
        },
    }
}

} // verus!
