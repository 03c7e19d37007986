//! Handler outcomes, handlers bound to their state, and the dispatch rule of
//! a handler chain.

use std::sync::Arc;

use tokio::sync::RwLock;
use vstd::prelude::*;

use crate::state::State;

verus! {

/// What a handler asks for after handling an event.
#[derive(Debug, Clone)]
pub enum Action {
    /// Continue to the next handler.
    Next,
    /// Stop: no further handler of the chain runs for this event.
    Done,
    /// Reply with the given text, then continue to the next handler.
    ReplyText(String),
    /// Reply with the given MarkdownV2 text, then continue to the next
    /// handler. User input in it must be escaped.
    ReplyMarkdown(String),
    /// Reply with the sticker of the given file id, then continue to the
    /// next handler.
    ReplySticker(String),
}

impl Action {
    /// Whether the chain goes on after this action.
    pub fn continues(&self) -> (r: bool)
        ensures
            r == !(*self is Done),
    {
        !matches!(self, Action::Done)
    }

    /// Whether this action asks for a reply to be sent.
    pub fn is_reply(&self) -> (r: bool)
        ensures
            r == (*self is ReplyText || *self is ReplyMarkdown || *self is ReplySticker),
    {
        matches!(self, Action::ReplyText(_) | Action::ReplyMarkdown(_) | Action::ReplySticker(_))
    }
}

/// A handler function `f` bound to the state container it is invoked with.
#[verifier::reject_recursive_types(S)]
pub struct Handler<S, F> {
    pub f: F,
    pub state: State<S>,
}

impl<S: Default, F> Handler<S, F> {
    /// Binds `f` to a fresh container that holds the default state.
    pub fn new(f: F) -> (r: Self)
        ensures
            r.f == f,
            r.state.created_with() is Some,
    {
        Handler { f, state: State::new(S::default()) }
    }

    /// The same function, bound to a fresh container that holds `state`.
    pub fn with_state(self, state: S) -> (r: Self)
        ensures
            r.f == self.f,
            r.state.created_with() == Some(state),
    {
        Handler { f: self.f, state: State::new(state) }
    }

    /// Rebinds this handler to a container owned by others too.
    pub fn set_state(&mut self, state: Arc<RwLock<S>>)
        ensures
            final(self).f == old(self).f,
            final(self).state.handle() == state,
            final(self).state.created_with() is None,
    {
        self.state = State::shared(state);
    }
}

impl<S: Default, F> From<F> for Handler<S, F> {
    /// The same as `Handler::new`.
    fn from(f: F) -> (r: Self)
        ensures
            r.f == f,
            r.state.created_with() is Some,
    {
        Handler::new(f)
    }
}

impl<S: Default, F> vstd::std_specs::convert::FromSpecImpl<F> for Handler<S, F> {
    /// Each conversion makes a new lock, so no spec function gives its result.
    open spec fn obeys_from_spec() -> bool {
        false
    }

    open spec fn from_spec(f: F) -> Self {
        vstd::pervasive::arbitrary()
    }
}

} // verus!
