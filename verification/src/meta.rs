//! Object metadata and ownership.

use crate::string_map::StringMap;
use crate::text::{copy_all, copy_opt_text, same_all, same_opt_text};
use vstd::prelude::*;
use vstd::std_specs::cmp::PartialEqSpecImpl;

verus! {

/// A reference from an owned object to the object that owns it.
#[derive(Debug)]
pub struct OwnerReference {
    /// API group and version of the owner.
    pub api_version: String,
    /// Kind of the owner.
    pub kind: String,
    /// Name of the owner.
    pub name: String,
    /// Unique identifier of the owner.
    pub uid: String,
    /// Whether the owner is the managing controller.
    pub controller: Option<bool>,
    /// Whether the owner cannot be deleted before this object is.
    pub block_owner_deletion: Option<bool>,
}

/// The mathematical view of [`OwnerReference`].
pub struct OwnerReferenceView {
    pub api_version: Seq<char>,
    pub kind: Seq<char>,
    pub name: Seq<char>,
    pub uid: Seq<char>,
    pub controller: Option<bool>,
    pub block_owner_deletion: Option<bool>,
}

impl OwnerReferenceView {
    /// The view of the value that `OwnerReference::default()` builds.
    pub open spec fn default() -> OwnerReferenceView {
        OwnerReferenceView {
            api_version: Seq::empty(),
            kind: Seq::empty(),
            name: Seq::empty(),
            uid: Seq::empty(),
            controller: None,
            block_owner_deletion: None,
        }
    }
}

impl DeepView for OwnerReference {
    type V = OwnerReferenceView;

    open spec fn deep_view(&self) -> OwnerReferenceView {
        OwnerReferenceView {
            api_version: self.api_version@,
            kind: self.kind@,
            name: self.name@,
            uid: self.uid@,
            controller: self.controller,
            block_owner_deletion: self.block_owner_deletion,
        }
    }
}

impl View for OwnerReference {
    type V = OwnerReferenceView;

    open spec fn view(&self) -> OwnerReferenceView {
        self.deep_view()
    }
}

impl Default for OwnerReference {
    fn default() -> (r: OwnerReference)
        ensures
            r@ == OwnerReferenceView::default(),
    {
        let r = OwnerReference {
            api_version: String::new(),
            kind: String::new(),
            name: String::new(),
            uid: String::new(),
            controller: None,
            block_owner_deletion: None,
        };
        r
    }
}

impl Clone for OwnerReference {
    fn clone(&self) -> (r: OwnerReference)
        ensures
            r@ == self@,
    {
        OwnerReference {
            api_version: self.api_version.clone(),
            kind: self.kind.clone(),
            name: self.name.clone(),
            uid: self.uid.clone(),
            controller: self.controller,
            block_owner_deletion: self.block_owner_deletion,
        }
    }
}

impl PartialEq for OwnerReference {
    fn eq(&self, other: &OwnerReference) -> (r: bool) {
        self.api_version == other.api_version
            && self.kind == other.kind
            && self.name == other.name
            && self.uid == other.uid
            && self.controller == other.controller
            && self.block_owner_deletion == other.block_owner_deletion
    }
}

impl PartialEqSpecImpl for OwnerReference {
    open spec fn obeys_eq_spec() -> bool {
        true
    }

    open spec fn eq_spec(&self, other: &OwnerReference) -> bool {
        self@ == other@
    }
}

/// The metadata that every object carries.
#[derive(Debug)]
pub struct ObjectMeta {
    /// Name of the object, unique in its namespace.
    pub name: Option<String>,
    /// Namespace that holds the object.
    pub namespace: Option<String>,
    /// Unique identifier, set once the object is persisted.
    pub uid: Option<String>,
    /// Labels by which selectors find the object.
    pub labels: StringMap,
    /// Free-form annotations.
    pub annotations: StringMap,
    /// The owners of the object.
    pub owner_references: Vec<OwnerReference>,
}

/// The mathematical view of [`ObjectMeta`].
pub struct ObjectMetaView {
    pub name: Option<Seq<char>>,
    pub namespace: Option<Seq<char>>,
    pub uid: Option<Seq<char>>,
    pub labels: Map<Seq<char>, Seq<char>>,
    pub annotations: Map<Seq<char>, Seq<char>>,
    pub owner_references: Seq<OwnerReferenceView>,
}

impl ObjectMetaView {
    /// The view of the value that `ObjectMeta::default()` builds.
    pub open spec fn default() -> ObjectMetaView {
        ObjectMetaView {
            name: None,
            namespace: None,
            uid: None,
            labels: Map::empty(),
            annotations: Map::empty(),
            owner_references: Seq::empty(),
        }
    }
}

impl DeepView for ObjectMeta {
    type V = ObjectMetaView;

    open spec fn deep_view(&self) -> ObjectMetaView {
        ObjectMetaView {
            name: self.name.deep_view(),
            namespace: self.namespace.deep_view(),
            uid: self.uid.deep_view(),
            labels: self.labels@,
            annotations: self.annotations@,
            owner_references: self.owner_references.deep_view(),
        }
    }
}

impl View for ObjectMeta {
    type V = ObjectMetaView;

    open spec fn view(&self) -> ObjectMetaView {
        self.deep_view()
    }
}

impl Default for ObjectMeta {
    fn default() -> (r: ObjectMeta)
        ensures
            r@ == ObjectMetaView::default(),
    {
        let r = ObjectMeta {
            name: None,
            namespace: None,
            uid: None,
            labels: StringMap::new(),
            annotations: StringMap::new(),
            owner_references: Vec::new(),
        };
        proof {
            assert(r.owner_references.deep_view() =~= Seq::empty());
        }
        r
    }
}

impl Clone for ObjectMeta {
    fn clone(&self) -> (r: ObjectMeta)
        ensures
            r@ == self@,
    {
        ObjectMeta {
            name: copy_opt_text(&self.name),
            namespace: copy_opt_text(&self.namespace),
            uid: copy_opt_text(&self.uid),
            labels: self.labels.clone(),
            annotations: self.annotations.clone(),
            owner_references: copy_all(&self.owner_references),
        }
    }
}

impl PartialEq for ObjectMeta {
    fn eq(&self, other: &ObjectMeta) -> (r: bool) {
        same_opt_text(&self.name, &other.name)
            && same_opt_text(&self.namespace, &other.namespace)
            && same_opt_text(&self.uid, &other.uid)
            && self.labels == other.labels
            && self.annotations == other.annotations
            && same_all(&self.owner_references, &other.owner_references)
    }
}

impl PartialEqSpecImpl for ObjectMeta {
    open spec fn obeys_eq_spec() -> bool {
        true
    }

    open spec fn eq_spec(&self, other: &ObjectMeta) -> bool {
        self@ == other@
    }
}

} // verus!
