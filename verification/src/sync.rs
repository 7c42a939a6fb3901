//! Bringing one child object of the cluster to its desired state.
//!
//! A child is read first. What was found, or a blank object where nothing was,
//! is brought to its desired state; the result is created where nothing was
//! found, replaces what was found where it differs from it, and is left alone
//! where it does not. So at most one write is made for a child, and none where
//! the cluster already holds the desired state.

use crate::crd::{Minecraft, MinecraftView};
use crate::error::{outcome, ReconcileError, ReconcileErrorView};
use crate::resources::{ChildKind, ChildObject, ChildObjectView};
use crate::topology::{
    child_name, desired_persistent_volume_claim, desired_route, desired_service,
    desired_service_account, persistent_volume_claim, resource_name, route, service,
    service_account, ROLE_DATA, ROLE_SERVER, ROLE_SERVICE, ROLE_TLS_SECRET,
};
use crate::workload::{deploy_server, desired_deployment};
use vstd::prelude::*;

verus! {

/// What to do about a child once its desired state is known.
#[derive(Debug)]
pub enum Plan {
    /// The cluster holds no such child: create this one.
    Create(ChildObject),
    /// The cluster holds another state of the child: replace it by this one.
    Replace(ChildObject),
    /// The cluster holds the desired state already: write nothing.
    Unchanged(ChildObject),
}

/// The mathematical view of [`Plan`].
pub enum PlanView {
    Create(ChildObjectView),
    Replace(ChildObjectView),
    Unchanged(ChildObjectView),
}

impl DeepView for Plan {
    type V = PlanView;

    open spec fn deep_view(&self) -> PlanView {
        match self {
            Plan::Create(object) => PlanView::Create(object@),
            Plan::Replace(object) => PlanView::Replace(object@),
            Plan::Unchanged(object) => PlanView::Unchanged(object@),
        }
    }
}

impl View for Plan {
    type V = PlanView;

    open spec fn view(&self) -> PlanView {
        self.deep_view()
    }
}

impl PlanView {
    /// The child as the cluster holds it once the plan is carried out.
    pub open spec fn resource(self) -> ChildObjectView {
        match self {
            PlanView::Create(object) => object,
            PlanView::Replace(object) => object,
            PlanView::Unchanged(object) => object,
        }
    }

    /// Whether carrying out the plan writes to the cluster.
    pub open spec fn writes(self) -> bool {
        !(self is Unchanged)
    }
}

impl Plan {
    /// The child as the cluster holds it once the plan is carried out.
    pub fn resource(self) -> (r: ChildObject)
        ensures
            r@ == self@.resource(),
    {
        match self {
            Plan::Create(object) => object,
            Plan::Replace(object) => object,
            Plan::Unchanged(object) => object,
        }
    }
}

/// The role that a kind of child plays, which is the end of its name.
pub open spec fn role_of(kind: ChildKind) -> Seq<char> {
    match kind {
        ChildKind::ServiceAccount => ROLE_SERVER@,
        ChildKind::PersistentVolumeClaim => ROLE_DATA@,
        ChildKind::Deployment => ROLE_SERVER@,
        ChildKind::Service => ROLE_SERVICE@,
        ChildKind::Route => ROLE_SERVICE@,
    }
}

/// The name of the parent's child of the given kind.
pub open spec fn name_of(parent: MinecraftView, kind: ChildKind) -> Seq<char>
    recommends
        parent.metadata.name is Some,
{
    child_name(parent.name(), role_of(kind))
}

/// The desired state of a child, given the state it was found in.
pub open spec fn desired(parent: MinecraftView, base: ChildObjectView) -> Result<
    ChildObjectView,
    ReconcileErrorView,
>
    recommends
        parent.metadata.name is Some,
{
    let name = parent.name();
    match base {
        ChildObjectView::ServiceAccount(base) => match desired_service_account(parent, base) {
            Ok(object) => Ok(ChildObjectView::ServiceAccount(object)),
            Err(error) => Err(error),
        },
        ChildObjectView::PersistentVolumeClaim(base) => match desired_persistent_volume_claim(
            parent,
            base,
        ) {
            Ok(object) => Ok(ChildObjectView::PersistentVolumeClaim(object)),
            Err(error) => Err(error),
        },
        ChildObjectView::Deployment(base) => match desired_deployment(
            parent,
            child_name(name, ROLE_SERVER@),
            child_name(name, ROLE_TLS_SECRET@),
            child_name(name, ROLE_DATA@),
            base,
        ) {
            Ok(object) => Ok(ChildObjectView::Deployment(object)),
            Err(error) => Err(error),
        },
        ChildObjectView::Service(base) => match desired_service(
            parent,
            child_name(name, ROLE_TLS_SECRET@),
            base,
        ) {
            Ok(object) => Ok(ChildObjectView::Service(object)),
            Err(error) => Err(error),
        },
        ChildObjectView::Route(base) => match desired_route(
            parent,
            child_name(name, ROLE_SERVICE@),
            base,
        ) {
            Ok(object) => Ok(ChildObjectView::Route(object)),
            Err(error) => Err(error),
        },
    }
}

/// The state that the desired state of the parent's child of the given kind is
/// derived from: what was found, or a blank object of that name in the parent's
/// namespace.
pub open spec fn base_of(
    parent: MinecraftView,
    kind: ChildKind,
    existing: Option<ChildObjectView>,
) -> ChildObjectView
    recommends
        parent.metadata.name is Some,
{
    match existing {
        Some(object) => object,
        None => ChildObjectView::blank(kind, parent.metadata.namespace, name_of(parent, kind)),
    }
}

/// What to do about the parent's child of the given kind, which the cluster
/// holds as `existing`: an error where what was found is of another kind or
/// where its desired state cannot be built, else the plan.
pub open spec fn planned(
    parent: MinecraftView,
    kind: ChildKind,
    existing: Option<ChildObjectView>,
) -> Result<PlanView, ReconcileErrorView>
    recommends
        parent.metadata.name is Some,
{
    if existing is Some && existing->0.kind() != kind {
        Err(ReconcileErrorView::UnexpectedEvent)
    } else {
        match desired(parent, base_of(parent, kind, existing)) {
            Err(error) => Err(error),
            Ok(object) => Ok(
                match existing {
                    None => PlanView::Create(object),
                    Some(found) => if found == object {
                        PlanView::Unchanged(object)
                    } else {
                        PlanView::Replace(object)
                    },
                },
            ),
        }
    }
}

/// The role that a kind of child plays.
pub fn role(kind: ChildKind) -> (r: &'static str)
    ensures
        r@ == role_of(kind),
{
    match kind {
        ChildKind::ServiceAccount => ROLE_SERVER,
        ChildKind::PersistentVolumeClaim => ROLE_DATA,
        ChildKind::Deployment => ROLE_SERVER,
        ChildKind::Service => ROLE_SERVICE,
        ChildKind::Route => ROLE_SERVICE,
    }
}

/// Brings a child to its desired state, starting from the state it was found in.
pub fn mutate(minecraft: &Minecraft, base: ChildObject) -> (r: Result<ChildObject, ReconcileError>)
    requires
        minecraft@.metadata.name is Some,
    ensures
        outcome(r) == desired(minecraft@, base@),
{
    match base {
        ChildObject::ServiceAccount(base) => {
            Ok(ChildObject::ServiceAccount(service_account(minecraft, base)?))
        },
        ChildObject::PersistentVolumeClaim(base) => {
            Ok(ChildObject::PersistentVolumeClaim(persistent_volume_claim(minecraft, base)?))
        },
        ChildObject::Deployment(base) => {
            let service_account = resource_name(minecraft, ROLE_SERVER);
            let tls_secret = resource_name(minecraft, ROLE_TLS_SECRET);
            let pvc = resource_name(minecraft, ROLE_DATA);
            Ok(
                ChildObject::Deployment(
                    deploy_server(minecraft, service_account, tls_secret, pvc, base)?,
                ),
            )
        },
        ChildObject::Service(base) => {
            let tls_secret = resource_name(minecraft, ROLE_TLS_SECRET);
            Ok(ChildObject::Service(service(minecraft, tls_secret.as_str(), base)?))
        },
        ChildObject::Route(base) => {
            let service = resource_name(minecraft, ROLE_SERVICE);
            Ok(ChildObject::Route(route(minecraft, service.as_str(), base)?))
        },
    }
}

/// Decides what to do about the parent's child of the given kind, which the
/// cluster holds as `existing`.
///
/// Fails where what was found is of another kind, and where the desired state
/// cannot be built because the parent has no unique identifier.
pub fn create_or_update(minecraft: &Minecraft, kind: ChildKind, existing: Option<ChildObject>) -> (r:
    Result<Plan, ReconcileError>)
    requires
        minecraft@.well_formed(),
    ensures
        outcome(r) == planned(minecraft@, kind, existing.deep_view()),
{
    match existing {
        None => {
            let name = resource_name(minecraft, role(kind));
            let base = ChildObject::blank(kind, minecraft.metadata.namespace.clone(), name);
            let object = mutate(minecraft, base)?;
            Ok(Plan::Create(object))
        },
        Some(found) => {
            if found.kind() != kind {
                return Err(ReconcileError::UnexpectedEvent);
            }
            let object = mutate(minecraft, found.clone())?;
            // a child that is as it should be is not written
            if found == object {
                Ok(Plan::Unchanged(object))
            } else {
                Ok(Plan::Replace(object))
            }
        },
    }
}

} // verus!
