//! A model of the cluster, and of a whole reconciliation against it.
//!
//! The controller decides one step at a time and never sees the cluster. To say
//! what a whole reconciliation does, this module describes a cluster that holds
//! children by kind and name and answers each action as a cluster without
//! interference would, but for one call that may be made to fail. A run feeds
//! the controller's steps with those answers until the controller stops.
//!
//! Nothing here is executable: it is the ground on which the laws of a whole
//! reconciliation are stated.

use crate::controller::{step, ActionView, EventView, Phase};
use crate::crd::MinecraftView;
use crate::error::ReconcileErrorView;
use crate::resources::{ChildKind, ChildObjectView};
use crate::sync::{desired, name_of};
use vstd::prelude::*;

verus! {

/// The children that a cluster holds, by kind and name.
pub type Children = Map<(ChildKind, Seq<char>), ChildObjectView>;

/// The call that fails, if any does.
pub enum FaultPoint {
    /// No call fails.
    Never,
    /// Reading the child of this kind fails.
    Read(ChildKind),
    /// Creating or replacing the child of this kind fails.
    Write(ChildKind),
    /// Writing the parent's status fails.
    Status,
}

/// The one failure that a cluster may answer with.
pub struct Fault {
    /// The call that fails.
    pub at: FaultPoint,
    /// The text that the failing call reports.
    pub message: Seq<char>,
}

/// Every child is held under its own kind and name.
pub open spec fn valid(children: Children) -> bool {
    forall|key: (ChildKind, Seq<char>)| #[trigger]
        children.contains_key(key) ==> children[key].kind() == key.0
            && children[key].metadata().name == Some(key.1)
}

/// What the cluster holds after an action, and the event it answers with.
pub open spec fn answer(children: Children, fault: Fault, action: ActionView) -> (
    Children,
    EventView,
) {
    match action {
        ActionView::Get { kind, name } => if fault.at == FaultPoint::Read(kind) {
            (children, EventView::Failed(fault.message))
        } else if children.contains_key((kind, name)) {
            (children, EventView::Found(children[(kind, name)]))
        } else {
            (children, EventView::Missing)
        },
        ActionView::Create(object) => if fault.at == FaultPoint::Write(object.kind()) {
            (children, EventView::Failed(fault.message))
        } else {
            (
                children.insert((object.kind(), object.metadata().name->0), object),
                EventView::Written,
            )
        },
        ActionView::Replace(object) => if fault.at == FaultPoint::Write(object.kind()) {
            (children, EventView::Failed(fault.message))
        } else {
            (
                children.insert((object.kind(), object.metadata().name->0), object),
                EventView::Written,
            )
        },
        ActionView::ReplaceStatus(_) => if fault.at == FaultPoint::Status {
            (children, EventView::Failed(fault.message))
        } else {
            (children, EventView::Written)
        },
        ActionView::Finish(_) => (children, EventView::Start),
    }
}

/// What a reconciliation did.
pub struct Run {
    /// The children that the cluster holds in the end.
    pub children: Children,
    /// The parent whose status the cluster accepted, if a status was written.
    pub status: Option<MinecraftView>,
    /// The actions that the controller asked for, in order.
    pub actions: Seq<ActionView>,
    /// The result that the controller stopped with.
    pub result: Result<(), ReconcileErrorView>,
}

/// The rest of a reconciliation, from the given phase and event, in at most
/// `fuel` steps.
pub open spec fn run_from(
    has_openshift: bool,
    original: MinecraftView,
    children: Children,
    fault: Fault,
    phase: Phase,
    event: EventView,
    fuel: nat,
) -> Run
    decreases fuel,
{
    if fuel == 0 {
        Run {
            children,
            status: None,
            actions: Seq::empty(),
            result: Err(ReconcileErrorView::UnexpectedEvent),
        }
    } else {
        let (next, action) = step(has_openshift, original, phase, event);
        match action {
            ActionView::Finish(result) => Run {
                children,
                status: None,
                actions: seq![action],
                result,
            },
            _ => {
                let (held, answered) = answer(children, fault, action);
                let rest = run_from(
                    has_openshift,
                    original,
                    held,
                    fault,
                    next,
                    answered,
                    (fuel - 1) as nat,
                );
                Run {
                    children: rest.children,
                    status: if action is ReplaceStatus && answered is Written {
                        Some(action->ReplaceStatus_0)
                    } else {
                        rest.status
                    },
                    actions: seq![action] + rest.actions,
                    result: rest.result,
                }
            },
        }
    }
}

/// A whole reconciliation of `original` against a cluster that holds
/// `children` and fails as `fault` says. Twelve steps are the most that a
/// reconciliation takes.
pub open spec fn run(
    has_openshift: bool,
    original: MinecraftView,
    children: Children,
    fault: Fault,
) -> Run {
    run_from(has_openshift, original, children, fault, Phase::Idle, EventView::Start, 12)
}

/// The parent as the cluster holds it after a run.
pub open spec fn parent_after(original: MinecraftView, run: Run) -> MinecraftView {
    match run.status {
        Some(written) => written,
        None => original,
    }
}

/// The place of a kind in the order in which children are applied.
pub open spec fn rank(kind: ChildKind) -> nat {
    match kind {
        ChildKind::ServiceAccount => 0,
        ChildKind::PersistentVolumeClaim => 1,
        ChildKind::Deployment => 2,
        ChildKind::Service => 3,
        ChildKind::Route => 4,
    }
}

/// The key under which the cluster holds the parent's child of the given kind.
pub open spec fn key_of(parent: MinecraftView, kind: ChildKind) -> (ChildKind, Seq<char>) {
    (kind, name_of(parent, kind))
}

/// The cluster holds the parent's child of the given kind, in its desired
/// state.
pub open spec fn settled(children: Children, parent: MinecraftView, kind: ChildKind) -> bool {
    &&& children.contains_key(key_of(parent, kind))
    &&& children[key_of(parent, kind)].kind() == kind
    &&& desired(parent, children[key_of(parent, kind)]) == Ok::<
        ChildObjectView,
        ReconcileErrorView,
    >(children[key_of(parent, kind)])
}

/// Whether some action of the list creates or replaces a child of the given
/// kind.
pub open spec fn writes(actions: Seq<ActionView>, kind: ChildKind) -> bool {
    exists|i: int|
        0 <= i < actions.len() && (#[trigger] actions[i]).writes_child() && actions[i].touches(
            kind,
        )
}

/// Whether some action of the list reads, creates or replaces a child of the
/// given kind.
pub open spec fn touches(actions: Seq<ActionView>, kind: ChildKind) -> bool {
    exists|i: int| 0 <= i < actions.len() && (#[trigger] actions[i]).touches(kind)
}

/// Whether some action of the list writes the parent's status.
pub open spec fn writes_status(actions: Seq<ActionView>) -> bool {
    exists|i: int| 0 <= i < actions.len() && (#[trigger] actions[i]) is ReplaceStatus
}

} // verus!
