//! The reconciliation of one Minecraft server.
//!
//! A reconciliation alternates calls to the cluster with decisions. The calls
//! are made by whoever drives the controller; the decisions are made here, one
//! step at a time: [`MinecraftController::reconcile`] takes the phase the
//! reconciliation is in and the event that answers the last action, and returns
//! the next phase and the next action.
//!
//! The children are applied in a fixed order, each read before it is written.
//! The first failure ends the sequence; what was applied before stays applied.
//! Whatever the outcome, it is recorded in the parent's status, and that write
//! alone decides the result of the reconciliation.

use crate::crd::{Minecraft, MinecraftView};
use crate::error::{ReconcileError, ReconcileErrorView};
use crate::resources::{ChildKind, ChildObject, ChildObjectView};
use crate::status::{conclude, report, reported, with_outcome};
use crate::sync::{create_or_update, name_of, planned, role, Plan, PlanView};
use crate::text::text;
use crate::topology::resource_name;
use vstd::prelude::*;

verus! {

/// Where a reconciliation stands.
#[derive(Clone, Copy, Debug, PartialEq, Eq, Structural)]
pub enum Phase {
    /// Nothing was asked for yet.
    Idle,
    /// The child of this kind was asked for and the answer is awaited.
    Reading(ChildKind),
    /// The child of this kind is being written and the answer is awaited.
    Writing(ChildKind),
    /// The parent's status is being written and the answer is awaited.
    Reporting,
    /// The reconciliation has ended.
    Done,
}

/// What happened in the cluster in answer to the last action.
#[derive(Debug)]
pub enum Event {
    /// The reconciliation is to begin.
    Start,
    /// The child that was asked for exists, in this state.
    Found(ChildObject),
    /// The child that was asked for does not exist.
    Missing,
    /// The write was accepted.
    Written,
    /// The call failed; the text is what the cluster's client reported.
    Failed(String),
}

/// The mathematical view of [`Event`].
pub enum EventView {
    Start,
    Found(ChildObjectView),
    Missing,
    Written,
    Failed(Seq<char>),
}

impl DeepView for Event {
    type V = EventView;

    open spec fn deep_view(&self) -> EventView {
        match self {
            Event::Start => EventView::Start,
            Event::Found(object) => EventView::Found(object@),
            Event::Missing => EventView::Missing,
            Event::Written => EventView::Written,
            Event::Failed(message) => EventView::Failed(message@),
        }
    }
}

impl View for Event {
    type V = EventView;

    open spec fn view(&self) -> EventView {
        self.deep_view()
    }
}

/// What the driver of the controller has to do next.
#[derive(Debug)]
pub enum Action {
    /// Read the child of this kind and name.
    Get { kind: ChildKind, name: String },
    /// Create this child.
    Create(ChildObject),
    /// Replace the child of this object's kind and name by this object.
    Replace(ChildObject),
    /// Write the status of this parent.
    ReplaceStatus(Minecraft),
    /// Stop: the reconciliation has ended with this result.
    Finish(Result<(), ReconcileError>),
}

/// The mathematical view of [`Action`].
pub enum ActionView {
    Get { kind: ChildKind, name: Seq<char> },
    Create(ChildObjectView),
    Replace(ChildObjectView),
    ReplaceStatus(MinecraftView),
    Finish(Result<(), ReconcileErrorView>),
}

impl DeepView for Action {
    type V = ActionView;

    open spec fn deep_view(&self) -> ActionView {
        match self {
            Action::Get { kind, name } => ActionView::Get { kind: *kind, name: name@ },
            Action::Create(object) => ActionView::Create(object@),
            Action::Replace(object) => ActionView::Replace(object@),
            Action::ReplaceStatus(parent) => ActionView::ReplaceStatus(parent@),
            Action::Finish(result) => ActionView::Finish(
                match result {
                    Ok(_) => Ok(()),
                    Err(error) => Err(error@),
                },
            ),
        }
    }
}

impl View for Action {
    type V = ActionView;

    open spec fn view(&self) -> ActionView {
        self.deep_view()
    }
}

impl ActionView {
    /// Whether the action reads, creates or replaces a child of the given kind.
    pub open spec fn touches(self, kind: ChildKind) -> bool {
        match self {
            ActionView::Get { kind: k, name } => k == kind,
            ActionView::Create(object) => object.kind() == kind,
            ActionView::Replace(object) => object.kind() == kind,
            _ => false,
        }
    }

    /// Whether the action creates or replaces a child.
    pub open spec fn writes_child(self) -> bool {
        self is Create || self is Replace
    }
}

/// The first kind of child to apply.
pub open spec fn first_kind() -> ChildKind {
    ChildKind::ServiceAccount
}

/// The kind of child to apply after `kind`, if any. The route comes last, and
/// only where the platform has routes.
pub open spec fn kind_after(has_openshift: bool, kind: ChildKind) -> Option<ChildKind> {
    match kind {
        ChildKind::ServiceAccount => Some(ChildKind::PersistentVolumeClaim),
        ChildKind::PersistentVolumeClaim => Some(ChildKind::Deployment),
        ChildKind::Deployment => Some(ChildKind::Service),
        ChildKind::Service => if has_openshift {
            Some(ChildKind::Route)
        } else {
            None
        },
        ChildKind::Route => None,
    }
}

/// Whether children of the given kind are applied at all.
pub open spec fn applies(has_openshift: bool, kind: ChildKind) -> bool {
    kind != ChildKind::Route || has_openshift
}

/// The step that ends the sequence of children: the outcome is recorded in the
/// parent's status where that changes the parent, else the reconciliation is
/// over.
pub open spec fn wrap_up(original: MinecraftView, failure: Option<Seq<char>>) -> (
    Phase,
    ActionView,
) {
    match reported(original, with_outcome(original, failure)) {
        Some(computed) => (Phase::Reporting, ActionView::ReplaceStatus(computed)),
        None => (Phase::Done, ActionView::Finish(Ok(()))),
    }
}

/// The step that asks for the child of the given kind.
pub open spec fn read(original: MinecraftView, kind: ChildKind) -> (Phase, ActionView) {
    (Phase::Reading(kind), ActionView::Get { kind, name: name_of(original, kind) })
}

/// The step after the child of the given kind is in its desired state: on to
/// the next child, or to the status where that was the last one.
pub open spec fn proceed(has_openshift: bool, original: MinecraftView, kind: ChildKind) -> (
    Phase,
    ActionView,
) {
    match kind_after(has_openshift, kind) {
        Some(next) => read(original, next),
        None => wrap_up(original, None),
    }
}

/// The step after the cluster has answered the read of a child: the write that
/// the plan asks for, the next child where it asks for none, and the status
/// where the desired state cannot be built.
pub open spec fn answer_read(
    has_openshift: bool,
    original: MinecraftView,
    kind: ChildKind,
    existing: Option<ChildObjectView>,
) -> (Phase, ActionView) {
    match planned(original, kind, existing) {
        Err(error) => wrap_up(original, Some(error.message())),
        Ok(PlanView::Create(object)) => (Phase::Writing(kind), ActionView::Create(object)),
        Ok(PlanView::Replace(object)) => (Phase::Writing(kind), ActionView::Replace(object)),
        Ok(PlanView::Unchanged(_)) => proceed(has_openshift, original, kind),
    }
}

/// The step that ends a reconciliation whose driver sent an event that does not
/// answer the last action.
pub open spec fn refuse() -> (Phase, ActionView) {
    (Phase::Done, ActionView::Finish(Err(ReconcileErrorView::UnexpectedEvent)))
}

/// One step of a reconciliation: the next phase and the next action, given the
/// phase it is in and the event that answers the last action.
pub open spec fn step(
    has_openshift: bool,
    original: MinecraftView,
    phase: Phase,
    event: EventView,
) -> (Phase, ActionView) {
    match phase {
        Phase::Idle => match event {
            EventView::Start => read(original, first_kind()),
            _ => refuse(),
        },
        Phase::Reading(kind) => if !applies(has_openshift, kind) {
            refuse()
        } else {
            match event {
                EventView::Found(object) => if object.kind() == kind {
                    answer_read(has_openshift, original, kind, Some(object))
                } else {
                    refuse()
                },
                EventView::Missing => answer_read(has_openshift, original, kind, None),
                EventView::Failed(message) => wrap_up(original, Some(message)),
                _ => refuse(),
            }
        },
        Phase::Writing(kind) => if !applies(has_openshift, kind) {
            refuse()
        } else {
            match event {
                EventView::Written => proceed(has_openshift, original, kind),
                EventView::Failed(message) => wrap_up(original, Some(message)),
                _ => refuse(),
            }
        },
        Phase::Reporting => match event {
            EventView::Written => (Phase::Done, ActionView::Finish(Ok(()))),
            EventView::Failed(message) => (
                Phase::Done,
                ActionView::Finish(Err(ReconcileErrorView::Api(message))),
            ),
            _ => refuse(),
        },
        Phase::Done => refuse(),
    }
}

/// The controller of the Minecraft servers of one namespace.
#[derive(Debug)]
pub struct MinecraftController {
    namespace: String,
    has_openshift: bool,
}

/// The mathematical view of [`MinecraftController`].
pub struct MinecraftControllerView {
    pub namespace: Seq<char>,
    pub has_openshift: bool,
}

impl View for MinecraftController {
    type V = MinecraftControllerView;

    closed spec fn view(&self) -> MinecraftControllerView {
        MinecraftControllerView { namespace: self.namespace@, has_openshift: self.has_openshift }
    }
}

impl MinecraftController {
    /// A controller for the namespace `namespace`. `has_openshift` tells
    /// whether the platform has routes; without them no route is ever applied.
    pub fn new(namespace: &str, has_openshift: bool) -> (r: MinecraftController)
        ensures
            r@ == (MinecraftControllerView { namespace: namespace@, has_openshift }),
    {
        MinecraftController { namespace: text(namespace), has_openshift }
    }

    /// The namespace that the controller works in.
    pub fn namespace(&self) -> (r: &str)
        ensures
            r@ == self@.namespace,
    {
        self.namespace.as_str()
    }

    /// Whether the controller applies routes.
    pub fn has_openshift(&self) -> (r: bool)
        ensures
            r == self@.has_openshift,
    {
        self.has_openshift
    }

    /// The step that ends the sequence of children.
    fn finish(original: &Minecraft, failure: Option<String>) -> (r: (Phase, Action))
        ensures
            (r.0, r.1@) == wrap_up(original@, failure.deep_view()),
    {
        match report(original, conclude(original, failure)) {
            Some(computed) => (Phase::Reporting, Action::ReplaceStatus(computed)),
            None => (Phase::Done, Action::Finish(Ok(()))),
        }
    }

    /// The step that asks for the child of the given kind.
    fn get(original: &Minecraft, kind: ChildKind) -> (r: (Phase, Action))
        requires
            original@.well_formed(),
        ensures
            (r.0, r.1@) == read(original@, kind),
    {
        (Phase::Reading(kind), Action::Get { kind, name: resource_name(original, role(kind)) })
    }

    /// The step after the child of the given kind is in its desired state.
    fn next(&self, original: &Minecraft, kind: ChildKind) -> (r: (Phase, Action))
        requires
            original@.well_formed(),
        ensures
            (r.0, r.1@) == proceed(self@.has_openshift, original@, kind),
    {
        match kind {
            ChildKind::ServiceAccount => Self::get(original, ChildKind::PersistentVolumeClaim),
            ChildKind::PersistentVolumeClaim => Self::get(original, ChildKind::Deployment),
            ChildKind::Deployment => Self::get(original, ChildKind::Service),
            ChildKind::Service => if self.has_openshift {
                Self::get(original, ChildKind::Route)
            } else {
                Self::finish(original, None)
            },
            ChildKind::Route => Self::finish(original, None),
        }
    }

    /// Applies the children of `minecraft`, one step at a time: handles the
    /// answer to the read of the child of the given kind.
    fn do_reconcile(&self, minecraft: &Minecraft, kind: ChildKind, existing: Option<ChildObject>) -> (r:
        (Phase, Action))
        requires
            minecraft@.well_formed(),
        ensures
            (r.0, r.1@) == answer_read(
                self@.has_openshift,
                minecraft@,
                kind,
                existing.deep_view(),
            ),
    {
        match create_or_update(minecraft, kind, existing) {
            Err(error) => Self::finish(minecraft, Some(error.message())),
            Ok(Plan::Create(object)) => (Phase::Writing(kind), Action::Create(object)),
            Ok(Plan::Replace(object)) => (Phase::Writing(kind), Action::Replace(object)),
            Ok(Plan::Unchanged(_)) => self.next(minecraft, kind),
        }
    }

    /// Makes one step of the reconciliation of `original`.
    ///
    /// `phase` is the phase that the last step returned, [`Phase::Idle`] at the
    /// beginning; `event` is what the cluster answered to the action that the
    /// last step returned, [`Event::Start`] at the beginning. The driver carries
    /// out the action that is returned and comes back with the answer, until the
    /// action is [`Action::Finish`]. An event that does not answer the last
    /// action ends the reconciliation with an error.
    ///
    /// Without routes on the platform no action ever touches a route, and a
    /// parent whose status already records the outcome is not written again.
    pub fn reconcile(&self, original: &Minecraft, phase: Phase, event: Event) -> (r: (Phase, Action))
        requires
            original@.well_formed(),
        ensures
            (r.0, r.1@) == step(self@.has_openshift, original@, phase, event@),
            !self@.has_openshift ==> !r.1@.touches(ChildKind::Route),
            r.1@ is ReplaceStatus ==> r.1@->ReplaceStatus_0 != original@,
    {
        let refused = (Phase::Done, Action::Finish(Err(ReconcileError::UnexpectedEvent)));
        let r = match phase {
            Phase::Idle => match event {
                Event::Start => Self::get(original, ChildKind::ServiceAccount),
                _ => refused,
            },
            Phase::Reading(kind) => {
                if kind == ChildKind::Route && !self.has_openshift {
                    refused
                } else {
                    match event {
                        Event::Found(object) => {
                            if object.kind() == kind {
                                self.do_reconcile(original, kind, Some(object))
                            } else {
                                refused
                            }
                        },
                        Event::Missing => self.do_reconcile(original, kind, None),
                        Event::Failed(message) => Self::finish(original, Some(message)),
                        _ => refused,
                    }
                }
            },
            Phase::Writing(kind) => {
                if kind == ChildKind::Route && !self.has_openshift {
                    refused
                } else {
                    match event {
                        Event::Written => self.next(original, kind),
                        Event::Failed(message) => Self::finish(original, Some(message)),
                        _ => refused,
                    }
                }
            },
            Phase::Reporting => match event {
                Event::Written => (Phase::Done, Action::Finish(Ok(()))),
                Event::Failed(message) => (
                    Phase::Done,
                    Action::Finish(Err(ReconcileError::Api(message))),
                ),
                _ => refused,
            },
            Phase::Done => refused,
        };
        proof {
            lemma_step_spares_routes(original@, phase, event@);
        }
        r
    }
}

/// Without routes on the platform, no step reads, creates or replaces a route.
pub proof fn lemma_step_spares_routes(original: MinecraftView, phase: Phase, event: EventView)
    ensures
        !step(false, original, phase, event).1.touches(ChildKind::Route),
{
    lemma_plan_keeps_kind(original);
}

/// What a plan writes is of the kind that the plan was made for.
pub proof fn lemma_plan_keeps_kind(original: MinecraftView)
    ensures
        forall|kind: ChildKind, existing: Option<ChildObjectView>|
            #![trigger planned(original, kind, existing)]
            planned(original, kind, existing) is Ok ==> planned(
                original,
                kind,
                existing,
            )->Ok_0.resource().kind() == kind,
{
}

} // verus!
