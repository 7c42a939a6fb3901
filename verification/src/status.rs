//! Recording the outcome of a reconciliation on the parent resource.
//!
//! The status is the only part of the parent that is ever written, and it is
//! written only where it differs from what the parent already records.

use crate::crd::{Minecraft, MinecraftStatus, MinecraftStatusView, MinecraftView};
use crate::text::text;
use vstd::prelude::*;

verus! {

/// Phase of a parent whose children are all in their desired state.
pub const PHASE_ACTIVE: &'static str = "Active";

/// Phase of a parent whose last reconciliation failed.
pub const PHASE_FAILED: &'static str = "Failed";

/// The status that records an outcome: active with no message, or failed with
/// the text of the failure.
pub open spec fn status_of(failure: Option<Seq<char>>) -> MinecraftStatusView {
    match failure {
        None => MinecraftStatusView { phase: PHASE_ACTIVE@, message: None },
        Some(message) => MinecraftStatusView { phase: PHASE_FAILED@, message: Some(message) },
    }
}

/// The parent as it was before the reconciliation, but for its status, which
/// records the outcome.
pub open spec fn with_outcome(original: MinecraftView, failure: Option<Seq<char>>) -> MinecraftView {
    MinecraftView { status: Some(status_of(failure)), ..original }
}

/// The parent to write back: none where the computed parent equals the
/// original one.
pub open spec fn reported(original: MinecraftView, computed: MinecraftView) -> Option<
    MinecraftView,
> {
    if computed == original {
        None
    } else {
        Some(computed)
    }
}

/// The two phases are two different texts, so a failed parent is never taken
/// for an active one.
pub proof fn lemma_phases_differ()
    ensures
        PHASE_ACTIVE@ != PHASE_FAILED@,
        forall|original: MinecraftView, message: Seq<char>|
            original.status == Some(status_of(None)) ==> #[trigger] with_outcome(
                original,
                Some(message),
            ) != original,
{
    reveal_strlit("Active");
    reveal_strlit("Failed");
    assert(PHASE_ACTIVE@[0] == 'A');
    assert(PHASE_FAILED@[0] == 'F');
}

/// The parent with the outcome of a reconciliation recorded in its status.
/// Name, namespace and spec are those of `original`.
pub fn conclude(original: &Minecraft, failure: Option<String>) -> (r: Minecraft)
    ensures
        r@ == with_outcome(original@, failure.deep_view()),
{
    let mut computed = original.clone();
    computed.status = Some(
        match failure {
            None => MinecraftStatus { phase: text(PHASE_ACTIVE), message: None },
            Some(message) => MinecraftStatus { phase: text(PHASE_FAILED), message: Some(message) },
        },
    );
    computed
}

/// Decides whether the computed parent has to be written back: it has to be
/// exactly where it differs from the original one.
pub fn report(original: &Minecraft, computed: Minecraft) -> (r: Option<Minecraft>)
    ensures
        r.deep_view() == reported(original@, computed@),
{
    if computed == *original {
        None
    } else {
        Some(computed)
    }
}

} // verus!
