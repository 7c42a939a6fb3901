//! The ways in which a reconciliation fails.

use vstd::prelude::*;
use vstd::std_specs::cmp::PartialEqSpecImpl;

verus! {

/// Why a reconciliation, or one step of it, failed.
#[derive(Debug)]
pub enum ReconcileError {
    /// The parent resource has no unique identifier, so nothing can be owned by it.
    MissingUid,
    /// A call to the cluster failed; the text is what the cluster's client reported.
    Api(String),
    /// An event arrived that does not answer the action that was asked for.
    UnexpectedEvent,
}

/// The mathematical view of [`ReconcileError`].
pub enum ReconcileErrorView {
    MissingUid,
    Api(Seq<char>),
    UnexpectedEvent,
}

impl ReconcileErrorView {
    /// The text that describes the error to an operator.
    pub open spec fn message(self) -> Seq<char> {
        match self {
            ReconcileErrorView::MissingUid => "Missing UID"@,
            ReconcileErrorView::Api(text) => text,
            ReconcileErrorView::UnexpectedEvent => "Unexpected event"@,
        }
    }
}

impl DeepView for ReconcileError {
    type V = ReconcileErrorView;

    open spec fn deep_view(&self) -> ReconcileErrorView {
        match self {
            ReconcileError::MissingUid => ReconcileErrorView::MissingUid,
            ReconcileError::Api(text) => ReconcileErrorView::Api(text@),
            ReconcileError::UnexpectedEvent => ReconcileErrorView::UnexpectedEvent,
        }
    }
}

impl View for ReconcileError {
    type V = ReconcileErrorView;

    open spec fn view(&self) -> ReconcileErrorView {
        self.deep_view()
    }
}

impl Clone for ReconcileError {
    fn clone(&self) -> (r: ReconcileError)
        ensures
            r@ == self@,
    {
        match self {
            ReconcileError::MissingUid => ReconcileError::MissingUid,
            ReconcileError::Api(text) => ReconcileError::Api(text.clone()),
            ReconcileError::UnexpectedEvent => ReconcileError::UnexpectedEvent,
        }
    }
}

impl PartialEq for ReconcileError {
    fn eq(&self, other: &ReconcileError) -> (r: bool) {
        match (self, other) {
            (ReconcileError::MissingUid, ReconcileError::MissingUid) => true,
            (ReconcileError::Api(a), ReconcileError::Api(b)) => *a == *b,
            (ReconcileError::UnexpectedEvent, ReconcileError::UnexpectedEvent) => true,
            _ => false,
        }
    }
}

impl PartialEqSpecImpl for ReconcileError {
    open spec fn obeys_eq_spec() -> bool {
        true
    }

    open spec fn eq_spec(&self, other: &ReconcileError) -> bool {
        self@ == other@
    }
}

impl ReconcileError {
    /// The text that describes the error to an operator.
    pub fn message(&self) -> (r: String)
        ensures
            r@ == self@.message(),
    {
        match self {
            ReconcileError::MissingUid => "Missing UID".to_string(),
            ReconcileError::Api(text) => text.clone(),
            ReconcileError::UnexpectedEvent => "Unexpected event".to_string(),
        }
    }
}

/// The view of a result that is either a value or an error.
pub open spec fn outcome<T: DeepView>(r: Result<T, ReconcileError>) -> Result<
    T::V,
    ReconcileErrorView,
> {
    match r {
        Ok(value) => Ok(value.deep_view()),
        Err(error) => Err(error@),
    }
}

} // verus!
