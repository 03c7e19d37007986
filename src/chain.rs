//! The dispatch rule of a handler chain, as a state machine: the caller asks
//! which handler to invoke next, invokes it, and reports its outcome.
//! Handlers run strictly in order; `Done` stops the chain, every other action
//! lets it go on, and a failing handler aborts the rest of the chain for that
//! event. A reply action goes on too: one action cannot both reply and stop.

use vstd::prelude::*;

use crate::handler::Action;

verus! {

/// The abstract state of one event's run through a chain of `handlers`
/// handlers: the actions returned so far, and whether a handler failed.
pub struct ChainView {
    pub handlers: nat,
    pub actions: Seq<Action>,
    pub failed: bool,
}

impl ChainView {
    pub open spec fn start(handlers: nat) -> ChainView {
        ChainView { handlers, actions: Seq::empty(), failed: false }
    }

    /// A handler failed, or the last one returned `Done`.
    pub open spec fn halted(self) -> bool {
        self.failed || (self.actions.len() > 0 && self.actions.last() is Done)
    }

    /// Whether another handler is to be invoked.
    pub open spec fn accepts(self) -> bool {
        !self.halted() && self.actions.len() < self.handlers
    }

    pub open spec fn step(self, a: Action) -> ChainView {
        ChainView { actions: self.actions.push(a), ..self }
    }

    pub open spec fn fail(self) -> ChainView {
        ChainView { failed: true, ..self }
    }
}

/// The state a run reaches when its handlers would return `outs`, in order,
/// each time the run asks for one.
pub open spec fn feed(v: ChainView, outs: Seq<Action>) -> ChainView
    decreases outs.len(),
{
    if outs.len() == 0 || !v.accepts() {
        v
    } else {
        feed(v.step(outs[0]), outs.drop_first())
    }
}

/// One event's run through a chain of handlers.
pub struct ChainRun {
    handlers: usize,
    actions: Vec<Action>,
    failed: bool,
}

impl View for ChainRun {
    type V = ChainView;

    closed spec fn view(&self) -> ChainView {
        ChainView { handlers: self.handlers as nat, actions: self.actions@, failed: self.failed }
    }
}

impl ChainRun {
    /// A run over a chain of `handlers` handlers, before the first is invoked.
    pub fn start(handlers: usize) -> (r: Self)
        ensures
            r@ == ChainView::start(handlers as nat),
    {
        ChainRun { handlers, actions: Vec::new(), failed: false }
    }

    /// The position of the handler to invoke next, or `None` when the run is
    /// over.
    pub fn next_handler(&self) -> (r: Option<usize>)
        ensures
            r == (if self@.accepts() {
                Some(self@.actions.len() as usize)
            } else {
                None::<usize>
            }),
    {
        let done = match self.actions.last() {
            Some(a) => !a.continues(),
            None => false,
        };
        if self.failed || done || self.actions.len() >= self.handlers {
            None
        } else {
            Some(self.actions.len())
        }
    }

    /// Reports the action the invoked handler returned; the result tells
    /// whether another handler is to be invoked.
    pub fn record(&mut self, a: Action) -> (r: bool)
        requires
            old(self)@.accepts(),
        ensures
            final(self)@ == old(self)@.step(a),
            r == final(self)@.accepts(),
    {
        let go_on = a.continues();
        self.actions.push(a);
        go_on && self.actions.len() < self.handlers
    }

    /// Reports that the invoked handler failed: the run is over.
    pub fn fail(&mut self)
        requires
            old(self)@.accepts(),
        ensures
            final(self)@ == old(self)@.fail(),
    {
        self.failed = true;
    }

    /// Whether a handler failed.
    pub fn failed(&self) -> (r: bool)
        ensures
            r == self@.failed,
    {
        self.failed
    }

    /// The actions returned so far, in the order of the handlers.
    pub fn actions(&self) -> (r: &Vec<Action>)
        ensures
            r@ == self@.actions,
    {
        &self.actions
    }

    /// The actions returned, in the order of the handlers.
    pub fn into_actions(self) -> (r: Vec<Action>)
        ensures
            r@ == self@.actions,
    {
        self.actions
    }
}

proof fn lemma_feed_until_done(handlers: nat, outs: Seq<Action>, k: int, i: int)
    requires
        0 <= i <= k < outs.len(),
        k < handlers,
        (outs[k] is Done),
        forall|j: int| 0 <= j < k ==> !(#[trigger] outs[j] is Done),
    ensures
        feed((ChainView { handlers, actions: outs.take(i), failed: false }), outs.skip(i))
            == (ChainView { handlers, actions: outs.take(k + 1), failed: false }),
    decreases k - i,
{
    let v = ChainView { handlers, actions: outs.take(i), failed: false };
    if i > 0 {
        assert(v.actions.last() == outs[i - 1]);
    }
    assert(v.accepts());
    let w = v.step(outs.skip(i)[0]);
    assert(w.actions =~= outs.take(i + 1));
    assert(outs.skip(i).drop_first() =~= outs.skip(i + 1));
    assert(feed(v, outs.skip(i)) == feed(w, outs.skip(i + 1)));
    assert(w == (ChainView { handlers, actions: outs.take(i + 1), failed: false }));
    if i < k {
        lemma_feed_until_done(handlers, outs, k, i + 1);
    } else {
        assert(w.actions.last() == outs[k]);
        assert(feed(w, outs.skip(i + 1)) == w);
    }
}

/// A chain stops at the first `Done`: when the handlers would return `outs`
/// and the first `Done` among them comes from handler `k`, handlers `0..=k`
/// are invoked and no further one, and the actions handed back are exactly
/// those of handlers `0..=k`.
pub proof fn lemma_chain_short_circuit(handlers: nat, outs: Seq<Action>, k: int)
    requires
        0 <= k < outs.len(),
        k < handlers,
        (outs[k] is Done),
        forall|j: int| 0 <= j < k ==> !(#[trigger] outs[j] is Done),
    ensures
        feed(ChainView::start(handlers), outs).actions == outs.take(k + 1),
        !feed(ChainView::start(handlers), outs).accepts(),
{
    lemma_feed_until_done(handlers, outs, k, 0);
    assert(outs.take(0) =~= Seq::<Action>::empty());
    assert(outs.skip(0) =~= outs);
}

} // verus!
