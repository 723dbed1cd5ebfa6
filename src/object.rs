use vstd::prelude::*;
use std::sync::{Arc, Mutex};

verus! {

#[verifier::external_type_specification]
#[verifier::external_body]
#[verifier::reject_recursive_types(T)]
pub struct ExMutex<T: ?Sized>(Mutex<T>);

/// Relies on `std::sync::Mutex::new`: a lock around `value`.
#[verifier::external_body]
fn new_mutex<S>(value: S) -> (r: Mutex<S>) {
    Mutex::new(value)
}

/// Relies on `std::sync::Arc::try_unwrap`: the value where this is its only
/// handle, none while others are left.
#[verifier::external_body]
fn unwrap_sole<S>(shared: Arc<Mutex<S>>) -> (r: Option<Mutex<S>>) {
    Arc::try_unwrap(shared).ok()
}

/// Relies on `std::sync::Mutex::into_inner`: the value, none where a holder of
/// the lock panicked.
#[verifier::external_body]
fn into_inner<S>(mutex: Mutex<S>) -> (r: Option<S>) {
    mutex.into_inner().ok()
}

/// A gateway that either acts on the store or stands in for it in a test, shared
/// so that the test can look at it afterwards.
#[derive(Clone, Debug)]
#[verifier::reject_recursive_types(S)]
pub enum Object<A, S> {
    Actuator(A),
    Substitute(Arc<Mutex<S>>),
}

impl<A, S> Object<A, S> {
    pub fn substitute(substitute: S) -> (r: Self)
        ensures
            r is Substitute,
    {
        let substitute_mutex = new_mutex(substitute);
        let substitute_arc = Arc::new(substitute_mutex);
        Object::Substitute(substitute_arc)
    }

    /// The substitute, once no other handle to it is left; none for an actuator.
    pub fn unwrap_substitute(self) -> (r: Option<S>)
        ensures
            self is Actuator ==> r is None,
    {
        match self {
            Object::Actuator(_) => None,
            Object::Substitute(shared) => match unwrap_sole(shared) {
                Some(mutex) => into_inner(mutex),
                None => None,
            },
        }
    }
}

impl<A, S: Default> Default for Object<A, S> {
    fn default() -> (r: Self)
        ensures
            r is Substitute,
    {
        Self::substitute(S::default())
    }
}

/// The same as [`Object`], for gateways of the earlier kind.
#[derive(Clone)]
#[verifier::reject_recursive_types(S)]
pub enum UsefulObject<A, S> {
    Actuator(A),
    Substitute(Arc<Mutex<S>>),
}

impl<A, S> UsefulObject<A, S> {
    pub fn substitute(substitute: S) -> (r: Self)
        ensures
            r is Substitute,
    {
        let substitute_cell = new_mutex(substitute);
        let substitute_rc = Arc::new(substitute_cell);
        UsefulObject::Substitute(substitute_rc)
    }

    /// The substitute, once no other handle to it is left; none for an actuator.
    pub fn unwrap_substitute(self) -> (r: Option<S>)
        ensures
            self is Actuator ==> r is None,
    {
        match self {
            UsefulObject::Actuator(_) => None,
            UsefulObject::Substitute(shared) => match unwrap_sole(shared) {
                Some(mutex) => into_inner(mutex),
                None => None,
            },
        }
    }
}

} // verus!
