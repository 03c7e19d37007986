//! State containers: a value behind a shared read-write lock, handed to the
//! handlers of one scope, with snapshots that are owned independently.

use std::sync::Arc;

use tokio::sync::RwLock;
use vstd::prelude::*;

verus! {

#[verifier::external_type_specification]
#[verifier::external_body]
#[verifier::reject_recursive_types(T)]
pub struct ExRwLock<T: ?Sized>(tokio::sync::RwLock<T>);

/// Relies on tokio's `RwLock::new`: a fresh, unlocked lock around the value.
#[verifier::external_body]
fn new_lock<T>(value: T) -> (r: RwLock<T>) {
    RwLock::new(value)
}

/// Relies on tokio's `RwLock::try_read`: takes a read lock if no writer holds
/// it and clones the value under it; `None` while a writer holds the lock.
/// Nothing is stated of the value: other holders of the lock may change it.
#[verifier::external_body]
fn try_snapshot<T: Clone>(lock: &RwLock<T>) -> (r: Option<T>) {
    match lock.try_read() {
        Ok(guard) => Some(T::clone(&guard)),
        Err(_) => None,
    }
}

/// A named handle on a value that any number of readers, or one writer at a
/// time, can reach. Clones of a `State` share the one value.
#[derive(Clone)]
#[verifier::reject_recursive_types(T)]
pub struct State<T> {
    state: Arc<RwLock<T>>,
    init: Ghost<Option<T>>,
}

impl<T> State<T> {
    /// The lock this container wraps.
    pub closed spec fn handle(&self) -> Arc<RwLock<T>> {
        self.state
    }

    /// The value this container's lock was made around, where the container
    /// made the lock itself; `None` for a container over a lock handed in.
    pub closed spec fn created_with(&self) -> Option<T> {
        self.init@
    }

    /// A fresh container, owned by the caller alone, holding `value`.
    pub fn new(value: T) -> (r: Self)
        ensures
            r.created_with() == Some(value),
    {
        let ghost init = Some(value);
        State { state: Arc::new(new_lock(value)), init: Ghost(init) }
    }

    /// A container over a lock that others may hold too: the value is shared
    /// with them.
    pub fn shared(handle: Arc<RwLock<T>>) -> (r: Self)
        ensures
            r.handle() == handle,
            r.created_with() is None,
    {
        State { state: handle, init: Ghost(None) }
    }

    /// The raw lock, to share mutation rights with another component.
    pub fn get(&self) -> (r: &Arc<RwLock<T>>)
        ensures
            *r == self.handle(),
    {
        &self.state
    }
}

impl<T: Clone> State<T> {
    /// A new container that holds a copy of the current value and shares
    /// nothing with this one; `None` while a writer holds the lock.
    pub fn try_derive(&self) -> (r: Option<Self>)
        ensures
            r is Some ==> r->0.created_with() is Some,
    {
        match try_snapshot(&*self.state) {
            Some(value) => Some(State::new(value)),
            None => None,
        }
    }
}

} // verus!
