use vstd::prelude::*;

use crate::runtime::RuntimeState;

verus! {

/// One initialized instance of the engine's global context. A marker token:
/// all real state lives inside the native engine, and is reachable only
/// through the handle that owns this token.
#[derive(Debug, PartialEq, Eq, Structural)]
pub struct Environment {}

/// Sole ownership of one live engine environment.
///
/// A handle passes through three states: unborn (before
/// [`Environment::new_sys`]), live (while the `EnvHandle` value exists) and
/// reclaimed (after [`Environment::consume_sys`], terminal). Owning the
/// `EnvHandle` is the evidence of the live state: borrowing the environment
/// takes the handle, and reclaiming consumes it, so a handle can be
/// reclaimed at most once and neither borrowed nor reclaimed again
/// afterwards. The embedding glue erases the handle to the engine's raw
/// environment pointer only at the literal boundary crossing.
#[derive(Debug)]
pub struct EnvHandle {
    env: Box<Environment>,
}

impl EnvHandle {
    /// The environment this handle owns.
    pub closed spec fn env(&self) -> Environment {
        *self.env
    }
}

impl Environment {
    /// Allocates a fresh engine environment on the heap and hands the caller
    /// sole ownership of it. Never fails: allocation failure is fatal by the
    /// boundary's contract, not a recoverable error.
    ///
    /// An environment is only meaningful once the runtime initializer has
    /// succeeded in this process, so that ordering is a precondition here.
    pub fn new_sys(state: &RuntimeState) -> (h: EnvHandle)
        requires
            state.is_initialized(),
        ensures
            h.env() == (Environment {}),
    {
        EnvHandle { env: Box::new(Environment {}) }
    }

    /// Reinterprets a live handle as a shared reference to its environment,
    /// without transferring ownership. Every borrow of a live handle
    /// observes that handle's one environment, so repeated borrows observe
    /// the same underlying object; see [`lemma_borrow_identity_stable`].
    pub fn cast_from_sys(h: &EnvHandle) -> (e: &Environment)
        ensures
            *e == h.env(),
    {
        &*h.env
    }

    /// Takes a live handle back, returning the owned environment to the
    /// caller's management; its deallocation is due when that owned value's
    /// scope ends. The handle is consumed, so exactly one reclamation can
    /// ever happen per [`Environment::new_sys`] call: a second reclamation,
    /// or a borrow after this one, no longer type-checks.
    pub fn consume_sys(h: EnvHandle) -> (e: Box<Environment>)
        ensures
            *e == h.env(),
    {
        h.env
    }
}

/// Borrow stability: any two values meeting the contract of
/// [`Environment::cast_from_sys`] for the same live handle are the same,
/// since each equals the handle's one environment.
pub proof fn lemma_borrow_identity_stable(h: &EnvHandle, e1: Environment, e2: Environment)
    requires
        e1 == h.env(),
        e2 == h.env(),
    ensures
        e1 == e2,
{
}

} // verus!
