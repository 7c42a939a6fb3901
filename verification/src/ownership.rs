//! Ownership of child objects.
//!
//! Every child names the parent resource as its one owner, so that deleting the
//! parent lets the cluster's garbage collector delete the children.

use crate::crd::{Minecraft, MinecraftView};
use crate::error::{ReconcileError, ReconcileErrorView};
use crate::meta::{ObjectMeta, ObjectMetaView, OwnerReference, OwnerReferenceView};
use crate::text::text;
use vstd::prelude::*;

verus! {

/// The reference by which a child names `parent` as its controlling owner.
pub open spec fn owner_of(parent: MinecraftView) -> OwnerReferenceView
    recommends
        parent.metadata.name is Some,
        parent.metadata.uid is Some,
{
    OwnerReferenceView {
        api_version: Minecraft::API_VERSION@,
        kind: Minecraft::KIND@,
        name: parent.metadata.name->0,
        uid: parent.metadata.uid->0,
        controller: Some(true),
        block_owner_deletion: Some(true),
    }
}

/// The child's metadata once `parent` is its one owner: an error where the
/// parent has no unique identifier, else the metadata with exactly one owner
/// reference.
pub open spec fn stamped(child: ObjectMetaView, parent: MinecraftView) -> Result<
    ObjectMetaView,
    ReconcileErrorView,
> {
    if parent.metadata.uid is None {
        Err(ReconcileErrorView::MissingUid)
    } else {
        Ok(ObjectMetaView { owner_references: seq![owner_of(parent)], ..child })
    }
}

/// Makes `parent` the one owner of the object that `child` belongs to.
///
/// Fails, and leaves `child` as it was, where the parent has no unique
/// identifier.
pub fn stamp_owner(child: &mut ObjectMeta, parent: &Minecraft) -> (r: Result<(), ReconcileError>)
    requires
        parent@.metadata.name is Some,
    ensures
        match stamped(old(child)@, parent@) {
            Ok(meta) => r is Ok && final(child)@ == meta,
            Err(error) => r is Err && r->Err_0@ == error && final(child)@ == old(child)@,
        },
{
    let name = match &parent.metadata.name {
        Some(name) => name.clone(),
        None => String::new(),
    };
    match &parent.metadata.uid {
        None => Err(ReconcileError::MissingUid),
        Some(uid) => {
            let owner = OwnerReference {
                api_version: text(Minecraft::API_VERSION),
                kind: text(Minecraft::KIND),
                name,
                uid: uid.clone(),
                controller: Some(true),
                block_owner_deletion: Some(true),
            };
            child.owner_references = vec![owner];
            assert(child.owner_references.deep_view() =~= seq![owner_of(parent@)]);
            Ok(())
        },
    }
}

} // verus!
