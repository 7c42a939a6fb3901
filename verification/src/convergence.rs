//! What a whole reconciliation does to the cluster.
//!
//! The laws here are stated of [`run`](crate::cluster::run) and proved from the
//! contract of a single step. They hold of every cluster that holds its
//! children under their own kind and name, and of every parent that has a name,
//! a namespace and a unique identifier.

use crate::cluster::{
    answer, key_of, parent_after, rank, run, run_from, settled, touches, valid, writes,
    writes_status, Children, Fault, FaultPoint, Run,
};
use crate::controller::{
    applies, kind_after, lemma_step_spares_routes, proceed, step, wrap_up, ActionView, EventView,
    Phase,
};
use crate::crd::MinecraftView;
use crate::error::ReconcileErrorView;
use crate::idempotence::lemma_desired_twice;
use crate::laws::lemma_ownership;
use crate::resources::{ChildKind, ChildObjectView};
use crate::status::{status_of, with_outcome, PHASE_FAILED};
use crate::sync::{base_of, desired, name_of, planned};
use vstd::prelude::*;

verus! {

/// A parent that can own children: it has a name, a namespace and a unique
/// identifier.
pub open spec fn persisted(parent: MinecraftView) -> bool {
    parent.well_formed() && parent.metadata.uid is Some
}

/// The most steps that the rest of a reconciliation takes.
pub open spec fn budget(phase: Phase) -> nat {
    match phase {
        Phase::Idle => 12,
        Phase::Reading(kind) => (2 * (5 - rank(kind)) + 1) as nat,
        Phase::Writing(kind) => (2 * (5 - rank(kind))) as nat,
        Phase::Reporting => 1,
        Phase::Done => 1,
    }
}

/// Whether the child of the given kind is still to be handled, the one that is
/// being handled included.
pub open spec fn ahead(has_openshift: bool, phase: Phase, kind: ChildKind) -> bool {
    applies(has_openshift, kind) && match phase {
        Phase::Idle => true,
        Phase::Reading(current) => rank(kind) >= rank(current),
        Phase::Writing(current) => rank(kind) >= rank(current),
        Phase::Reporting => false,
        Phase::Done => false,
    }
}

/// Whether the fault will strike at the child of the given kind: that child is
/// still to be handled, and the call that fails will be made for it. A write is
/// made only for a child that is not yet in its desired state.
pub open spec fn strikes(
    has_openshift: bool,
    parent: MinecraftView,
    children: Children,
    fault: Fault,
    phase: Phase,
    kind: ChildKind,
) -> bool {
    ahead(has_openshift, phase, kind) && (fault.at == FaultPoint::Read(kind) || (fault.at
        == FaultPoint::Write(kind) && !settled(children, parent, kind)))
}

/// Whether the fault will strike at some child.
pub open spec fn struck(
    has_openshift: bool,
    parent: MinecraftView,
    children: Children,
    fault: Fault,
    phase: Phase,
) -> bool {
    exists|kind: ChildKind| strikes(has_openshift, parent, children, fault, phase, kind)
}

/// Whether the child of the given kind will be brought to its desired state:
/// it is still to be handled, and the fault strikes neither at it nor at a
/// child that is handled before it.
pub open spec fn reached(
    has_openshift: bool,
    parent: MinecraftView,
    children: Children,
    fault: Fault,
    phase: Phase,
    kind: ChildKind,
) -> bool {
    ahead(has_openshift, phase, kind) && forall|earlier: ChildKind|
        rank(earlier) <= rank(kind) ==> !#[trigger] strikes(
            has_openshift,
            parent,
            children,
            fault,
            phase,
            earlier,
        )
}

/// The failure that the parent's status will record, if any.
pub open spec fn failure(
    has_openshift: bool,
    parent: MinecraftView,
    children: Children,
    fault: Fault,
    phase: Phase,
) -> Option<Seq<char>> {
    if struck(has_openshift, parent, children, fault, phase) {
        Some(fault.message)
    } else {
        None
    }
}

/// The phase and the event fit the cluster: the event is the cluster's answer
/// to the action that led to the phase.
pub open spec fn coherent(
    has_openshift: bool,
    parent: MinecraftView,
    children: Children,
    fault: Fault,
    phase: Phase,
    event: EventView,
) -> bool {
    match phase {
        Phase::Idle => event is Start,
        Phase::Reading(kind) => {
            &&& applies(has_openshift, kind)
            &&& event == answer(
                children,
                fault,
                ActionView::Get { kind, name: name_of(parent, kind) },
            ).1
        },
        Phase::Writing(kind) => {
            &&& applies(has_openshift, kind)
            &&& fault.at != FaultPoint::Read(kind)
            &&& {
                ||| event is Written && settled(children, parent, kind)
                ||| event == EventView::Failed(fault.message) && fault.at == FaultPoint::Write(kind)
                    && !settled(children, parent, kind)
            }
        },
        Phase::Reporting => {
            ||| event is Written && fault.at != FaultPoint::Status
            ||| event == EventView::Failed(fault.message) && fault.at == FaultPoint::Status
        },
        Phase::Done => false,
    }
}

/// Whether the cluster holds under `key` after what it held before.
pub open spec fn kept(before: Children, after: Children, key: (ChildKind, Seq<char>)) -> bool {
    &&& after.contains_key(key) == before.contains_key(key)
    &&& before.contains_key(key) ==> after[key] == before[key]
}

/// What the rest of a reconciliation leaves of the cluster: the children that
/// were in their desired state are as they were and were not written; the
/// children that the reconciliation reaches are in their desired state; and
/// nothing else has changed.
pub open spec fn leaves(
    has_openshift: bool,
    parent: MinecraftView,
    children: Children,
    fault: Fault,
    phase: Phase,
    r: Run,
) -> bool {
    &&& valid(r.children)
    &&& forall|kind: ChildKind| #[trigger]
        settled(children, parent, kind) ==> {
            &&& settled(r.children, parent, kind)
            &&& r.children[key_of(parent, kind)] == children[key_of(parent, kind)]
            &&& !writes(r.actions, kind)
        }
    &&& forall|kind: ChildKind| #[trigger]
        reached(has_openshift, parent, children, fault, phase, kind) ==> settled(
            r.children,
            parent,
            kind,
        )
    &&& forall|key: (ChildKind, Seq<char>)|
        #![trigger kept(children, r.children, key)]
        kept(children, r.children, key) || (reached(
            has_openshift,
            parent,
            children,
            fault,
            phase,
            key.0,
        ) && key.1 == name_of(parent, key.0))
}

/// How the rest of a reconciliation ends.
pub open spec fn ends(
    has_openshift: bool,
    parent: MinecraftView,
    children: Children,
    fault: Fault,
    phase: Phase,
    event: EventView,
    r: Run,
) -> bool {
    if phase is Reporting {
        &&& r.status is None
        &&& !writes_status(r.actions)
        &&& r.result == (if event is Written {
            Ok::<(), ReconcileErrorView>(())
        } else {
            Err::<(), ReconcileErrorView>(ReconcileErrorView::Api(fault.message))
        })
    } else {
        let computed = with_outcome(
            parent,
            failure(has_openshift, parent, children, fault, phase),
        );
        if computed == parent {
            &&& r.status is None
            &&& !writes_status(r.actions)
            &&& r.result == Ok::<(), ReconcileErrorView>(())
        } else if fault.at == FaultPoint::Status {
            &&& r.status is None
            &&& r.result == Err::<(), ReconcileErrorView>(ReconcileErrorView::Api(fault.message))
        } else {
            &&& r.status == Some(computed)
            &&& r.result == Ok::<(), ReconcileErrorView>(())
        }
    }
}

/// What a list of actions writes is what its first action and the rest write.
pub proof fn lemma_writes_cons(action: ActionView, rest: Seq<ActionView>)
    ensures
        forall|kind: ChildKind| #[trigger]
            writes(seq![action] + rest, kind) == ((action.writes_child() && action.touches(kind))
                || writes(rest, kind)),
        forall|kind: ChildKind| #[trigger]
            touches(seq![action] + rest, kind) == (action.touches(kind) || touches(rest, kind)),
        writes_status(seq![action] + rest) == (action is ReplaceStatus || writes_status(rest)),
{
    let all = seq![action] + rest;
    assert(all[0] == action);
    assert forall|kind: ChildKind| #[trigger]
        writes(all, kind) == ((action.writes_child() && action.touches(kind)) || writes(
            rest,
            kind,
        )) by {
        if writes(all, kind) {
            let i = choose|i: int|
                0 <= i < all.len() && (#[trigger] all[i]).writes_child() && all[i].touches(kind);
            if i > 0 {
                assert(rest[i - 1] == all[i]);
            }
        }
        if writes(rest, kind) {
            let i = choose|i: int|
                0 <= i < rest.len() && (#[trigger] rest[i]).writes_child() && rest[i].touches(
                    kind,
                );
            assert(all[i + 1] == rest[i]);
        }
    }
    assert forall|kind: ChildKind| #[trigger]
        touches(all, kind) == (action.touches(kind) || touches(rest, kind)) by {
        if touches(all, kind) {
            let i = choose|i: int| 0 <= i < all.len() && (#[trigger] all[i]).touches(kind);
            if i > 0 {
                assert(rest[i - 1] == all[i]);
            }
        }
        if touches(rest, kind) {
            let i = choose|i: int| 0 <= i < rest.len() && (#[trigger] rest[i]).touches(kind);
            assert(all[i + 1] == rest[i]);
        }
    }
    if writes_status(all) {
        let i = choose|i: int| 0 <= i < all.len() && (#[trigger] all[i]) is ReplaceStatus;
        if i > 0 {
            assert(rest[i - 1] == all[i]);
        }
    }
    if writes_status(rest) {
        let i = choose|i: int| 0 <= i < rest.len() && (#[trigger] rest[i]) is ReplaceStatus;
        assert(all[i + 1] == rest[i]);
    }
}

/// The plan for a child of a persisted parent, read from a valid cluster: it
/// can always be made; it writes nothing exactly where the child is in its
/// desired state; and what it writes is the child's desired state, of the
/// child's kind and name.
pub proof fn lemma_plan(parent: MinecraftView, children: Children, kind: ChildKind)
    requires
        persisted(parent),
        valid(children),
    ensures
        ({
            let key = key_of(parent, kind);
            let existing = if children.contains_key(key) {
                Some(children[key])
            } else {
                None
            };
            &&& planned(parent, kind, existing) matches Ok(plan)
            &&& plan is Unchanged <==> settled(children, parent, kind)
            &&& plan.resource().kind() == kind
            &&& plan.resource().metadata().name == Some(name_of(parent, kind))
            &&& desired(parent, plan.resource()) == Ok::<ChildObjectView, ReconcileErrorView>(
                plan.resource(),
            )
            &&& plan is Create <==> !children.contains_key(key)
        }),
{
    let key = key_of(parent, kind);
    let existing = if children.contains_key(key) {
        Some(children[key])
    } else {
        None
    };
    if children.contains_key(key) {
        assert(children[key].kind() == key.0);
    }
    let base = base_of(parent, kind, existing);
    lemma_ownership(parent, base);
    lemma_desired_twice(parent, base);
}

/// The end of a reconciliation from a step that ends the sequence of
/// children: no child is touched any more, and the outcome is recorded in the
/// parent's status where that changes the parent.
pub proof fn lemma_wrap_up(
    has_openshift: bool,
    parent: MinecraftView,
    children: Children,
    fault: Fault,
    phase: Phase,
    event: EventView,
    fuel: nat,
    outcome: Option<Seq<char>>,
)
    requires
        fuel >= 2,
        step(has_openshift, parent, phase, event) == wrap_up(parent, outcome),
    ensures
        ({
            let r = run_from(has_openshift, parent, children, fault, phase, event, fuel);
            let computed = with_outcome(parent, outcome);
            &&& r.children == children
            &&& forall|kind: ChildKind| !#[trigger] writes(r.actions, kind)
            &&& if computed == parent {
                &&& r.status is None
                &&& !writes_status(r.actions)
                &&& r.result == Ok::<(), ReconcileErrorView>(())
            } else if fault.at == FaultPoint::Status {
                &&& r.status is None
                &&& r.result == Err::<(), ReconcileErrorView>(
                    ReconcileErrorView::Api(fault.message),
                )
            } else {
                &&& r.status == Some(computed)
                &&& r.result == Ok::<(), ReconcileErrorView>(())
            }
        }),
{
    reveal_with_fuel(run_from, 3);
    let r = run_from(has_openshift, parent, children, fault, phase, event, fuel);
    let (next, action) = step(has_openshift, parent, phase, event);
    let computed = with_outcome(parent, outcome);
    if computed == parent {
        assert(r.actions == seq![action]);
        assert(r.actions[0] == action);
        assert forall|kind: ChildKind| !#[trigger] writes(r.actions, kind) by {
            if writes(r.actions, kind) {
                let i = choose|i: int|
                    0 <= i < r.actions.len() && (#[trigger] r.actions[i]).writes_child();
            }
        }
        if writes_status(r.actions) {
            let i = choose|i: int|
                0 <= i < r.actions.len() && (#[trigger] r.actions[i]) is ReplaceStatus;
        }
    } else {
        let (held, answered) = answer(children, fault, action);
        let rest = run_from(has_openshift, parent, held, fault, next, answered, (fuel - 1) as nat);
        let (last, finish) = step(has_openshift, parent, next, answered);
        assert(rest.actions == seq![finish]);
        assert(rest.actions[0] == finish);
        lemma_writes_cons(action, rest.actions);
        assert forall|kind: ChildKind| !#[trigger] writes(rest.actions, kind) by {
            if writes(rest.actions, kind) {
                let i = choose|i: int|
                    0 <= i < rest.actions.len() && (#[trigger] rest.actions[i]).writes_child();
            }
        }
    }
}

/// The rest of a reconciliation, from any phase and event that fit the
/// cluster: children in their desired state stay as they are and are not
/// written; children that the fault does not keep the reconciliation from are
/// brought to their desired state; nothing else changes; and the outcome is
/// recorded in the parent's status where that changes the parent.
pub proof fn lemma_run_from(
    has_openshift: bool,
    parent: MinecraftView,
    children: Children,
    fault: Fault,
    phase: Phase,
    event: EventView,
    fuel: nat,
)
    requires
        persisted(parent),
        valid(children),
        coherent(has_openshift, parent, children, fault, phase, event),
        fuel >= budget(phase),
    ensures
        leaves(
            has_openshift,
            parent,
            children,
            fault,
            phase,
            run_from(has_openshift, parent, children, fault, phase, event, fuel),
        ),
        ends(
            has_openshift,
            parent,
            children,
            fault,
            phase,
            event,
            run_from(has_openshift, parent, children, fault, phase, event, fuel),
        ),
    decreases fuel, 1nat,
{
    let r = run_from(has_openshift, parent, children, fault, phase, event, fuel);
    let (next, action) = step(has_openshift, parent, phase, event);
    match phase {
        Phase::Idle => {
            let (held, answered) = answer(children, fault, action);
            let rest = run_from(
                has_openshift,
                parent,
                held,
                fault,
                next,
                answered,
                (fuel - 1) as nat,
            );
            lemma_run_from(has_openshift, parent, held, fault, next, answered, (fuel - 1) as nat);
            lemma_writes_cons(action, rest.actions);
            lemma_same_strikes(has_openshift, parent, children, fault, phase, next);
            assert(held == children);
            assert(r.actions == seq![action] + rest.actions);
            assert forall|key2: (ChildKind, Seq<char>)|
                #![trigger kept(children, r.children, key2)]
                kept(children, r.children, key2) || (reached(
                    has_openshift,
                    parent,
                    children,
                    fault,
                    phase,
                    key2.0,
                ) && key2.1 == name_of(parent, key2.0)) by {
                assert(kept(held, rest.children, key2) || (reached(
                    has_openshift,
                    parent,
                    held,
                    fault,
                    next,
                    key2.0,
                ) && key2.1 == name_of(parent, key2.0)));
            }
        },
        Phase::Reading(kind) => {
            lemma_plan(parent, children, kind);
            if fault.at == FaultPoint::Read(kind) {
                lemma_struck_blocks(has_openshift, parent, children, fault, phase, kind);
                lemma_wrap_up(
                    has_openshift,
                    parent,
                    children,
                    fault,
                    phase,
                    event,
                    fuel,
                    Some(fault.message),
                );
            } else if settled(children, parent, kind) {
                lemma_proceed(has_openshift, parent, children, fault, phase, event, fuel);
            } else {
                lemma_write(has_openshift, parent, children, fault, kind, event, fuel);
            }
        },
        Phase::Writing(kind) => {
            if event is Written {
                lemma_proceed(has_openshift, parent, children, fault, phase, event, fuel);
            } else {
                lemma_struck_blocks(has_openshift, parent, children, fault, phase, kind);
                lemma_wrap_up(
                    has_openshift,
                    parent,
                    children,
                    fault,
                    phase,
                    event,
                    fuel,
                    Some(fault.message),
                );
            }
        },
        Phase::Reporting => {
            assert(r.actions == seq![action]);
            assert(r.actions[0] == action);
            assert forall|kind: ChildKind| !#[trigger] writes(r.actions, kind) by {
                if writes(r.actions, kind) {
                    let i = choose|i: int|
                        0 <= i < r.actions.len() && (#[trigger] r.actions[i]).writes_child();
                }
            }
            if writes_status(r.actions) {
                let i = choose|i: int|
                    0 <= i < r.actions.len() && (#[trigger] r.actions[i]) is ReplaceStatus;
            }
        },
        Phase::Done => {},
    }
}

/// After the fault has struck at the child that is being handled, no child
/// will be reached.
proof fn lemma_struck_blocks(
    has_openshift: bool,
    parent: MinecraftView,
    children: Children,
    fault: Fault,
    phase: Phase,
    at: ChildKind,
)
    requires
        strikes(has_openshift, parent, children, fault, phase, at),
        phase == Phase::Reading(at) || phase == Phase::Writing(at),
    ensures
        struck(has_openshift, parent, children, fault, phase),
        failure(has_openshift, parent, children, fault, phase) == Some(fault.message),
        forall|kind: ChildKind| !#[trigger] reached(
            has_openshift,
            parent,
            children,
            fault,
            phase,
            kind,
        ),
{
    assert forall|kind: ChildKind| !#[trigger] reached(
        has_openshift,
        parent,
        children,
        fault,
        phase,
        kind,
    ) by {
        if ahead(has_openshift, phase, kind) {
            assert(rank(at) <= rank(kind));
        }
    }
}

/// Whether the fault strikes, and which children are reached, depends on the
/// phase only through the children that are still ahead.
proof fn lemma_same_strikes(
    has_openshift: bool,
    parent: MinecraftView,
    children: Children,
    fault: Fault,
    phase: Phase,
    next: Phase,
)
    requires
        forall|kind: ChildKind|
            ahead(has_openshift, phase, kind) == ahead(has_openshift, next, kind),
    ensures
        struck(has_openshift, parent, children, fault, phase) == struck(
            has_openshift,
            parent,
            children,
            fault,
            next,
        ),
        forall|kind: ChildKind|
            reached(has_openshift, parent, children, fault, phase, kind) == reached(
                has_openshift,
                parent,
                children,
                fault,
                next,
                kind,
            ),
{
    assert forall|kind: ChildKind|
        strikes(has_openshift, parent, children, fault, phase, kind) == strikes(
            has_openshift,
            parent,
            children,
            fault,
            next,
            kind,
        ) by {}
    if struck(has_openshift, parent, children, fault, phase) {
        let k = choose|k: ChildKind| strikes(has_openshift, parent, children, fault, phase, k);
        assert(strikes(has_openshift, parent, children, fault, next, k));
    }
    if struck(has_openshift, parent, children, fault, next) {
        let k = choose|k: ChildKind| strikes(has_openshift, parent, children, fault, next, k);
        assert(strikes(has_openshift, parent, children, fault, phase, k));
    }
}

/// The rest of a reconciliation from the read of a child that is not in its
/// desired state and whose read did not fail.
proof fn lemma_write(
    has_openshift: bool,
    parent: MinecraftView,
    children: Children,
    fault: Fault,
    kind: ChildKind,
    event: EventView,
    fuel: nat,
)
    requires
        persisted(parent),
        valid(children),
        coherent(has_openshift, parent, children, fault, Phase::Reading(kind), event),
        fuel >= budget(Phase::Reading(kind)),
        fault.at != FaultPoint::Read(kind),
        !settled(children, parent, kind),
    ensures
        leaves(
            has_openshift,
            parent,
            children,
            fault,
            Phase::Reading(kind),
            run_from(has_openshift, parent, children, fault, Phase::Reading(kind), event, fuel),
        ),
        ends(
            has_openshift,
            parent,
            children,
            fault,
            Phase::Reading(kind),
            event,
            run_from(has_openshift, parent, children, fault, Phase::Reading(kind), event, fuel),
        ),
    decreases fuel, 0nat,
{
    let phase = Phase::Reading(kind);
    let r = run_from(has_openshift, parent, children, fault, phase, event, fuel);
    let (next, action) = step(has_openshift, parent, phase, event);
    lemma_plan(parent, children, kind);
    let key = key_of(parent, kind);
    let existing = if children.contains_key(key) {
        Some(children[key])
    } else {
        None
    };
    let plan = planned(parent, kind, existing)->Ok_0;
    let object = plan.resource();
    assert(next == Phase::Writing(kind));
    assert(action == ActionView::Create(object) || action == ActionView::Replace(object));
    let (held, answered) = answer(children, fault, action);
    let rest = run_from(has_openshift, parent, held, fault, next, answered, (fuel - 1) as nat);
    assert(r.actions == seq![action] + rest.actions);
    lemma_writes_cons(action, rest.actions);
    if fault.at == FaultPoint::Write(kind) {
        assert(held == children);
        lemma_struck_blocks(has_openshift, parent, children, fault, phase, kind);
        lemma_struck_blocks(has_openshift, parent, held, fault, next, kind);
        lemma_run_from(has_openshift, parent, held, fault, next, answered, (fuel - 1) as nat);
        assert forall|key2: (ChildKind, Seq<char>)|
            #![trigger kept(children, r.children, key2)]
            kept(children, r.children, key2) by {
            assert(kept(held, rest.children, key2) || (reached(
                has_openshift,
                parent,
                held,
                fault,
                next,
                key2.0,
            ) && key2.1 == name_of(parent, key2.0)));
        }
    } else {
        assert(held == children.insert(key, object));
        assert(valid(held)) by {
            assert forall|k: (ChildKind, Seq<char>)| #[trigger] held.contains_key(k) implies held[k].kind()
                == k.0 && held[k].metadata().name == Some(k.1) by {
                if k != key {
                    assert(children.contains_key(k));
                }
            }
        }
        assert(settled(held, parent, kind));
        assert forall|other: ChildKind| other != kind implies settled(held, parent, other)
            == settled(children, parent, other) by {
            assert(key_of(parent, other) != key);
        }
        assert forall|k: ChildKind|
            strikes(has_openshift, parent, children, fault, phase, k) == strikes(
                has_openshift,
                parent,
                held,
                fault,
                next,
                k,
            ) by {}
        if struck(has_openshift, parent, children, fault, phase) {
            let k = choose|k: ChildKind| strikes(has_openshift, parent, children, fault, phase, k);
            assert(strikes(has_openshift, parent, held, fault, next, k));
        }
        if struck(has_openshift, parent, held, fault, next) {
            let k = choose|k: ChildKind| strikes(has_openshift, parent, held, fault, next, k);
            assert(strikes(has_openshift, parent, children, fault, phase, k));
        }
        assert forall|k: ChildKind|
            reached(has_openshift, parent, children, fault, phase, k) == reached(
                has_openshift,
                parent,
                held,
                fault,
                next,
                k,
            ) by {}
        lemma_run_from(has_openshift, parent, held, fault, next, answered, (fuel - 1) as nat);
        assert(reached(has_openshift, parent, children, fault, phase, kind));
        assert forall|other: ChildKind| #[trigger]
            settled(children, parent, other) implies settled(r.children, parent, other)
            && r.children[key_of(parent, other)] == children[key_of(parent, other)] && !writes(
            r.actions,
            other,
        ) by {
            assert(other != kind);
            assert(settled(held, parent, other));
            assert(key_of(parent, other) != key);
        }
        assert forall|key2: (ChildKind, Seq<char>)|
            #![trigger kept(children, r.children, key2)]
            kept(children, r.children, key2) || (reached(
                has_openshift,
                parent,
                children,
                fault,
                phase,
                key2.0,
            ) && key2.1 == name_of(parent, key2.0)) by {
            assert(kept(held, rest.children, key2) || (reached(
                has_openshift,
                parent,
                held,
                fault,
                next,
                key2.0,
            ) && key2.1 == name_of(parent, key2.0)));
            if key2 == key {
                assert(key2.0 == kind);
            }
        }
    }
}

/// The rest of a reconciliation after the child that is being handled is in
/// its desired state.
proof fn lemma_proceed(
    has_openshift: bool,
    parent: MinecraftView,
    children: Children,
    fault: Fault,
    phase: Phase,
    event: EventView,
    fuel: nat,
)
    requires
        persisted(parent),
        valid(children),
        coherent(has_openshift, parent, children, fault, phase, event),
        fuel >= budget(phase),
        match phase {
            Phase::Reading(kind) => fault.at != FaultPoint::Read(kind) && settled(
                children,
                parent,
                kind,
            ),
            Phase::Writing(kind) => event is Written,
            _ => false,
        },
    ensures
        leaves(
            has_openshift,
            parent,
            children,
            fault,
            phase,
            run_from(has_openshift, parent, children, fault, phase, event, fuel),
        ),
        ends(
            has_openshift,
            parent,
            children,
            fault,
            phase,
            event,
            run_from(has_openshift, parent, children, fault, phase, event, fuel),
        ),
    decreases fuel, 0nat,
{
    let kind = match phase {
        Phase::Reading(kind) => kind,
        Phase::Writing(kind) => kind,
        _ => ChildKind::ServiceAccount,
    };
    let r = run_from(has_openshift, parent, children, fault, phase, event, fuel);
    let (next, action) = step(has_openshift, parent, phase, event);
    lemma_plan(parent, children, kind);
    assert((next, action) == proceed(has_openshift, parent, kind));
    assert(settled(children, parent, kind));
    assert(!strikes(has_openshift, parent, children, fault, phase, kind));
    assert(reached(has_openshift, parent, children, fault, phase, kind)) by {
        assert forall|earlier: ChildKind| rank(earlier) <= rank(kind) implies !#[trigger] strikes(
            has_openshift,
            parent,
            children,
            fault,
            phase,
            earlier,
        ) by {
            if earlier != kind {
                assert(rank(earlier) < rank(kind));
            }
        }
    }
    match kind_after(has_openshift, kind) {
        None => {
            assert forall|k: ChildKind| !strikes(
                has_openshift,
                parent,
                children,
                fault,
                phase,
                k,
            ) by {}
            assert(!struck(has_openshift, parent, children, fault, phase));
            lemma_wrap_up(has_openshift, parent, children, fault, phase, event, fuel, None);
            assert forall|k: ChildKind| #[trigger]
                reached(has_openshift, parent, children, fault, phase, k) implies settled(
                r.children,
                parent,
                k,
            ) by {
                assert(k == kind);
            }
        },
        Some(following) => {
            assert(next == Phase::Reading(following));
            assert(rank(following) == rank(kind) + 1);
            let (held, answered) = answer(children, fault, action);
            assert(held == children);
            let rest = run_from(
                has_openshift,
                parent,
                held,
                fault,
                next,
                answered,
                (fuel - 1) as nat,
            );
            assert(r.actions == seq![action] + rest.actions);
            lemma_writes_cons(action, rest.actions);
            lemma_run_from(has_openshift, parent, held, fault, next, answered, (fuel - 1) as nat);
            assert forall|k: ChildKind|
                strikes(has_openshift, parent, children, fault, phase, k) == strikes(
                    has_openshift,
                    parent,
                    children,
                    fault,
                    next,
                    k,
                ) by {
                if k != kind {
                    assert(rank(k) != rank(kind));
                }
            }
            if struck(has_openshift, parent, children, fault, phase) {
                let k = choose|k: ChildKind|
                    strikes(has_openshift, parent, children, fault, phase, k);
                assert(strikes(has_openshift, parent, children, fault, next, k));
            }
            if struck(has_openshift, parent, children, fault, next) {
                let k = choose|k: ChildKind| strikes(has_openshift, parent, children, fault, next, k);
                assert(strikes(has_openshift, parent, children, fault, phase, k));
            }
            assert forall|k: ChildKind| k != kind implies reached(
                has_openshift,
                parent,
                children,
                fault,
                phase,
                k,
            ) == reached(has_openshift, parent, children, fault, next, k) by {
                assert(rank(k) != rank(kind));
            }
            assert forall|key2: (ChildKind, Seq<char>)|
                #![trigger kept(children, r.children, key2)]
                kept(children, r.children, key2) || (reached(
                    has_openshift,
                    parent,
                    children,
                    fault,
                    phase,
                    key2.0,
                ) && key2.1 == name_of(parent, key2.0)) by {
                assert(kept(held, rest.children, key2) || (reached(
                    has_openshift,
                    parent,
                    held,
                    fault,
                    next,
                    key2.0,
                ) && key2.1 == name_of(parent, key2.0)));
                if key2.0 == kind {
                    assert(reached(has_openshift, parent, children, fault, phase, kind));
                }
            }
        },
    }
}

/// The fault of a cluster in which no call fails.
pub open spec fn no_fault() -> Fault {
    Fault { at: FaultPoint::Never, message: Seq::empty() }
}

/// Whether a child is in its desired state depends on the parent's metadata
/// alone.
pub proof fn lemma_settled_by_metadata(
    children: Children,
    parent: MinecraftView,
    other: MinecraftView,
    kind: ChildKind,
)
    requires
        parent.metadata == other.metadata,
    ensures
        settled(children, parent, kind) == settled(children, other, kind),
{
    assert(key_of(parent, kind) == key_of(other, kind));
    if children.contains_key(key_of(parent, kind)) {
        let child = children[key_of(parent, kind)];
        assert(desired(parent, child) == desired(other, child));
    }
}

/// Without routes on the platform, no reconciliation ever reads, creates or
/// replaces a route, from whatever phase and event, whatever the cluster holds
/// and whichever call fails.
pub proof fn lemma_routes_are_spared(
    parent: MinecraftView,
    children: Children,
    fault: Fault,
    phase: Phase,
    event: EventView,
    fuel: nat,
)
    ensures
        !touches(
            run_from(false, parent, children, fault, phase, event, fuel).actions,
            ChildKind::Route,
        ),
    decreases fuel,
{
    let r = run_from(false, parent, children, fault, phase, event, fuel);
    if fuel == 0 {
        if touches(r.actions, ChildKind::Route) {
            let i = choose|i: int|
                0 <= i < r.actions.len() && (#[trigger] r.actions[i]).touches(ChildKind::Route);
        }
    } else {
        let (next, action) = step(false, parent, phase, event);
        lemma_step_spares_routes(parent, phase, event);
        match action {
            ActionView::Finish(_) => {
                assert(r.actions == seq![action]);
                if touches(r.actions, ChildKind::Route) {
                    let i = choose|i: int|
                        0 <= i < r.actions.len() && (#[trigger] r.actions[i]).touches(
                            ChildKind::Route,
                        );
                    assert(r.actions[0] == action);
                }
            },
            _ => {
                let (held, answered) = answer(children, fault, action);
                let rest = run_from(false, parent, held, fault, next, answered, (fuel - 1) as nat);
                lemma_routes_are_spared(parent, held, fault, next, answered, (fuel - 1) as nat);
                lemma_writes_cons(action, rest.actions);
                assert(r.actions == seq![action] + rest.actions);
            },
        }
    }
}

/// With the capability for routes switched off, a reconciliation issues no
/// read, create or replace of a route, whatever the cluster holds and whichever
/// call fails; and where no call fails it ends well all the same.
pub proof fn route_conditionality(parent: MinecraftView, children: Children, fault: Fault)
    ensures
        !touches(run(false, parent, children, fault).actions, ChildKind::Route),
        !writes(run(false, parent, children, fault).actions, ChildKind::Route),
        persisted(parent) && valid(children) ==> run(false, parent, children, no_fault()).result
            == Ok::<(), ReconcileErrorView>(()),
{
    let r = run(false, parent, children, fault);
    lemma_routes_are_spared(parent, children, fault, Phase::Idle, EventView::Start, 12);
    if writes(r.actions, ChildKind::Route) {
        let i = choose|i: int|
            0 <= i < r.actions.len() && (#[trigger] r.actions[i]).writes_child()
                && r.actions[i].touches(ChildKind::Route);
        assert(r.actions[i].touches(ChildKind::Route));
    }
    if persisted(parent) && valid(children) {
        convergence(false, parent, children);
    }
}

/// A reconciliation in which no call fails brings every child that is applied
/// to its desired state, whatever the cluster held before, and leaves the
/// parent active with no message. Children that were in their desired state
/// already are not written; the status is not written where the parent was
/// active with no message already; and nothing changes in the cluster but the
/// children of this parent.
pub proof fn convergence(has_openshift: bool, parent: MinecraftView, children: Children)
    requires
        persisted(parent),
        valid(children),
    ensures
        ({
            let r = run(has_openshift, parent, children, no_fault());
            &&& r.result == Ok::<(), ReconcileErrorView>(())
            &&& valid(r.children)
            &&& parent_after(parent, r) == with_outcome(parent, None)
            &&& parent_after(parent, r).status == Some(status_of(None))
            &&& parent.status == Some(status_of(None)) ==> r.status is None && !writes_status(
                r.actions,
            )
            &&& forall|kind: ChildKind|
                applies(has_openshift, kind) ==> #[trigger] settled(r.children, parent, kind)
            &&& forall|kind: ChildKind| #[trigger]
                settled(children, parent, kind) ==> !writes(r.actions, kind) && r.children[key_of(
                    parent,
                    kind,
                )] == children[key_of(parent, kind)]
            &&& forall|key: (ChildKind, Seq<char>)|
                #![trigger kept(children, r.children, key)]
                kept(children, r.children, key) || (applies(has_openshift, key.0) && key.1
                    == name_of(parent, key.0))
        }),
{
    let fault = no_fault();
    let r = run(has_openshift, parent, children, fault);
    lemma_run_from(has_openshift, parent, children, fault, Phase::Idle, EventView::Start, 12);
    assert forall|kind: ChildKind| !strikes(
        has_openshift,
        parent,
        children,
        fault,
        Phase::Idle,
        kind,
    ) by {}
    assert forall|kind: ChildKind| applies(has_openshift, kind) implies #[trigger] settled(
        r.children,
        parent,
        kind,
    ) by {
        assert(reached(has_openshift, parent, children, fault, Phase::Idle, kind));
    }
    if parent.status == Some(status_of(None)) {
        assert(with_outcome(parent, None) == parent);
    }
}

/// Reconciling the same parent twice in a row, with no call failing and
/// nothing else touching the cluster, writes nothing the second time: no child
/// is created or replaced, the status is not written, and the cluster holds
/// what it held after the first time.
pub proof fn idempotence(has_openshift: bool, parent: MinecraftView, children: Children)
    requires
        persisted(parent),
        valid(children),
    ensures
        ({
            let first = run(has_openshift, parent, children, no_fault());
            let second = run(
                has_openshift,
                parent_after(parent, first),
                first.children,
                no_fault(),
            );
            &&& first.result == Ok::<(), ReconcileErrorView>(())
            &&& second.result == Ok::<(), ReconcileErrorView>(())
            &&& forall|kind: ChildKind| !#[trigger] writes(second.actions, kind)
            &&& !writes_status(second.actions)
            &&& second.children == first.children
            &&& parent_after(parent_after(parent, first), second) == parent_after(parent, first)
        }),
{
    let first = run(has_openshift, parent, children, no_fault());
    let again = parent_after(parent, first);
    let second = run(has_openshift, again, first.children, no_fault());
    convergence(has_openshift, parent, children);
    assert(again.metadata == parent.metadata);
    convergence(has_openshift, again, first.children);
    assert forall|kind: ChildKind| applies(has_openshift, kind) implies settled(
        first.children,
        again,
        kind,
    ) by {
        assert(settled(first.children, parent, kind));
        lemma_settled_by_metadata(first.children, parent, again, kind);
    }
    assert forall|kind: ChildKind| !#[trigger] writes(second.actions, kind) by {
        if !applies(has_openshift, kind) {
            route_conditionality(again, first.children, no_fault());
        }
    }
    assert(second.children =~= first.children) by {
        assert forall|key: (ChildKind, Seq<char>)|
            second.children.contains_key(key) == first.children.contains_key(key) && (
            first.children.contains_key(key) ==> second.children[key] == first.children[key]) by {
            assert(kept(first.children, second.children, key) || (applies(has_openshift, key.0)
                && key.1 == name_of(again, key.0)));
            if applies(has_openshift, key.0) && key.1 == name_of(again, key.0) {
                assert(key == key_of(again, key.0));
                assert(settled(first.children, again, key.0));
                assert(settled(second.children, again, key.0));
            }
        }
    }
}

/// Where the read or the write of a child fails, the children that are applied
/// before it are in their desired state afterwards, that child and the ones
/// after it are as they were, and the parent is left failed with the text of
/// the failure as its message. A later reconciliation in which no call fails
/// then leaves the parent active, with every child in its desired state, and
/// writes none of the children that were applied before the failure.
pub proof fn failure_isolation(
    has_openshift: bool,
    parent: MinecraftView,
    children: Children,
    fault: Fault,
    kind: ChildKind,
)
    requires
        persisted(parent),
        valid(children),
        applies(has_openshift, kind),
        fault.at == FaultPoint::Read(kind) || (fault.at == FaultPoint::Write(kind) && !settled(
            children,
            parent,
            kind,
        )),
    ensures
        ({
            let failed = run(has_openshift, parent, children, fault);
            let after = parent_after(parent, failed);
            let retried = run(has_openshift, after, failed.children, no_fault());
            &&& failed.result == Ok::<(), ReconcileErrorView>(())
            &&& valid(failed.children)
            &&& after == with_outcome(parent, Some(fault.message))
            &&& after.status == Some(status_of(Some(fault.message)))
            &&& after.status->0.phase == PHASE_FAILED@
            &&& after.status->0.message == Some(fault.message)
            &&& forall|earlier: ChildKind|
                applies(has_openshift, earlier) && rank(earlier) < rank(kind) ==> #[trigger] settled(
                    failed.children,
                    parent,
                    earlier,
                )
            &&& forall|later: ChildKind|
                rank(later) >= rank(kind) ==> #[trigger] kept(
                    children,
                    failed.children,
                    key_of(parent, later),
                )
            &&& retried.result == Ok::<(), ReconcileErrorView>(())
            &&& parent_after(after, retried).status == Some(status_of(None))
            &&& forall|any: ChildKind|
                applies(has_openshift, any) ==> #[trigger] settled(retried.children, parent, any)
            &&& forall|earlier: ChildKind|
                applies(has_openshift, earlier) && rank(earlier) < rank(kind) ==> !#[trigger] writes(
                    retried.actions,
                    earlier,
                )
        }),
{
    let failed = run(has_openshift, parent, children, fault);
    let after = parent_after(parent, failed);
    let retried = run(has_openshift, after, failed.children, no_fault());
    lemma_run_from(has_openshift, parent, children, fault, Phase::Idle, EventView::Start, 12);
    assert(strikes(has_openshift, parent, children, fault, Phase::Idle, kind));
    assert(struck(has_openshift, parent, children, fault, Phase::Idle));
    assert forall|earlier: ChildKind|
        applies(has_openshift, earlier) && rank(earlier) < rank(kind) implies #[trigger] settled(
        failed.children,
        parent,
        earlier,
    ) by {
        assert(reached(has_openshift, parent, children, fault, Phase::Idle, earlier)) by {
            assert forall|k: ChildKind| rank(k) <= rank(earlier) implies !#[trigger] strikes(
                has_openshift,
                parent,
                children,
                fault,
                Phase::Idle,
                k,
            ) by {
                assert(k != kind);
            }
        }
    }
    assert forall|later: ChildKind| rank(later) >= rank(kind) implies #[trigger] kept(
        children,
        failed.children,
        key_of(parent, later),
    ) by {
        let key = key_of(parent, later);
        assert(kept(children, failed.children, key) || (reached(
            has_openshift,
            parent,
            children,
            fault,
            Phase::Idle,
            key.0,
        ) && key.1 == name_of(parent, key.0)));
        assert(rank(kind) <= rank(later));
        assert(!reached(has_openshift, parent, children, fault, Phase::Idle, later));
    }
    assert(after.metadata == parent.metadata);
    convergence(has_openshift, after, failed.children);
    assert forall|any: ChildKind| applies(has_openshift, any) implies #[trigger] settled(
        retried.children,
        parent,
        any,
    ) by {
        assert(settled(retried.children, after, any));
        lemma_settled_by_metadata(retried.children, parent, after, any);
    }
    assert forall|earlier: ChildKind|
        applies(has_openshift, earlier) && rank(earlier) < rank(kind) implies !#[trigger] writes(
        retried.actions,
        earlier,
    ) by {
        assert(settled(failed.children, parent, earlier));
        lemma_settled_by_metadata(failed.children, parent, after, earlier);
    }
}

/// The status of the parent is written only where the outcome changes what the
/// parent records: a reconciliation in which no call fails does not write the
/// status of a parent that is active with no message already.
pub proof fn status_write_minimization(
    has_openshift: bool,
    parent: MinecraftView,
    children: Children,
)
    requires
        persisted(parent),
        valid(children),
        parent.status == Some(status_of(None)),
    ensures
        !writes_status(run(has_openshift, parent, children, no_fault()).actions),
        run(has_openshift, parent, children, no_fault()).status is None,
        run(has_openshift, parent, children, no_fault()).result == Ok::<(), ReconcileErrorView>(
            (),
        ),
{
    convergence(has_openshift, parent, children);
}

} // verus!
