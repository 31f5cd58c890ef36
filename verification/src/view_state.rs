//! The four states every surface renders, behind one seam.
//!
//! Every surface designs its loading, empty, error, and success states. The
//! mapping from a fetch outcome to a rendered state lives here, as a pure
//! function over plain data, so no surface can silently forget one. A
//! permanent (non-retryable) error is the one state a surface states
//! explicitly, via [`ViewState::permanent_error`].

use vstd::prelude::*;
use crate::strs;

verus! {

/// What a surface renders right now.
#[derive(Debug, Clone, PartialEq)]
pub enum ViewState<T> {
    /// The engine fetch is in flight — render a skeleton.
    Loading,
    /// The fetch succeeded but there is nothing to show — render a designed
    /// empty state carrying a hint about what would appear here.
    Empty { hint: String },
    /// The fetch failed — render a designed error state; `retryable` says
    /// whether a Retry affordance applies.
    Error { message: String, retryable: bool },
    /// The fetch succeeded and there is something to show.
    Ready(T),
}

impl<T> ViewState<T> {
    /// An error the surface should offer to retry — a transient failure such as
    /// the engine being briefly unreachable. This is what [`Load::into_view`]
    /// produces for any failed fetch.
    pub fn retryable_error(message: &str) -> (r: Self)
        ensures
            r matches ViewState::Error { message: m, retryable } && m@ == message@ && retryable,
    {
        ViewState::Error { message: strs::own(message), retryable: true }
    }

    /// An error retrying cannot fix, such as an unsupported platform.
    pub fn permanent_error(message: &str) -> (r: Self)
        ensures
            r matches ViewState::Error { message: m, retryable } && m@ == message@ && !retryable,
    {
        ViewState::Error { message: strs::own(message), retryable: false }
    }

    /// Whether the surface should offer a Retry affordance — true only for a
    /// retryable error.
    pub fn should_retry(&self) -> (r: bool)
        ensures
            r == (*self matches ViewState::Error { retryable, .. } && retryable),
    {
        match self {
            ViewState::Error { retryable, .. } => *retryable,
            _ => false,
        }
    }
}

/// The outcome of an engine fetch, before it is mapped to a [`ViewState`].
#[derive(Debug, Clone, PartialEq)]
pub enum Load<T> {
    /// The fetch is still running.
    Pending,
    /// The fetch errored, carrying the message to show.
    Failed(String),
    /// The fetch returned a value (which may still be "empty").
    Done(T),
}

impl<T> Load<T> {
    /// Map a fetch outcome to the state a surface should render. `is_empty`
    /// decides whether a successful payload is "empty"; `empty_hint` is shown in
    /// that case. A failed fetch always maps to a retryable error.
    pub fn into_view<F: FnOnce(&T) -> bool>(self, is_empty: F, empty_hint: &str) -> (r: ViewState<T>)
        requires
            self matches Load::Done(v) ==> call_requires(is_empty, (&v,)),
        ensures
            self is Pending ==> r is Loading,
            self matches Load::Failed(m) ==> (r matches ViewState::Error { message, retryable } && message@ == m@
                && retryable),
            self matches Load::Done(v) ==> {
                ||| (r matches ViewState::Empty { hint } && hint@ == empty_hint@ && call_ensures(is_empty, (&v,), true))
                ||| (r == ViewState::Ready(v) && call_ensures(is_empty, (&v,), false))
            },
    {
        match self {
            Load::Pending => ViewState::Loading,
            Load::Failed(message) => ViewState::Error { message, retryable: true },
            Load::Done(value) => {
                if is_empty(&value) {
                    ViewState::Empty { hint: strs::own(empty_hint) }
                } else {
                    ViewState::Ready(value)
                }
            },
        }
    }
}

impl<T> Load<Vec<T>> {
    /// Convenience for the common list/feed surfaces: an empty `Vec` is the
    /// empty state.
    pub fn into_list_view(self, empty_hint: &str) -> (r: ViewState<Vec<T>>)
        ensures
            self is Pending ==> r is Loading,
            self matches Load::Failed(m) ==> (r matches ViewState::Error { message, retryable } && message@ == m@
                && retryable),
            self matches Load::Done(v) ==> (v@.len() == 0 ==> (r matches ViewState::Empty { hint } && hint@ == empty_hint@)),
            self matches Load::Done(v) ==> (v@.len() > 0 ==> r == ViewState::Ready(v)),
    {
        let is_empty = |v: &Vec<T>| -> (b: bool)
            ensures
                b == (v@.len() == 0),
            { v.len() == 0 };
        self.into_view(is_empty, empty_hint)
    }
}

} // verus!
