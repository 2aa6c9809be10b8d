//! Function adapter for [`Handler`]: wraps a plain fallible function into a
//! terminal pipeline stage.
//!
//! A function of shape `Fn(M) -> Result<(), E>` is the natural unit of
//! terminal business logic; [`fn_handler`] turns one into a [`Handler`] whose
//! `call` simply invokes it.  The adapter's contract is exact: the wrapped
//! handler accepts precisely the messages the function accepts, and admits
//! precisely the results the function admits.

use vstd::prelude::*;

use crate::handler::{Handler, IntoHandler};

verus! {

/// A [`Handler`] backed by a plain function `Fn(M) -> Result<(), E>`.
#[verifier::reject_recursive_types(M)]
#[verifier::reject_recursive_types(E)]
pub struct FnHandler<F, M, E> where F: Fn(M) -> Result<(), E> {
    /// The wrapped function; `call` invokes it on the message.
    pub f: F,
    /// Records the message type, which only the bound on `f` mentions.
    pub marker: core::marker::PhantomData<(M, E)>,
}

impl<F, M, E> FnHandler<F, M, E> where F: Fn(M) -> Result<(), E> {
    /// Wrap `f`.
    fn new(f: F) -> (h: Self)
        ensures
            h.f == f,
    {
        FnHandler { f, marker: core::marker::PhantomData }
    }
}

/// Calling the adapter simply calls the wrapped function.
impl<F, M, E> Handler<M> for FnHandler<F, M, E> where F: Fn(M) -> Result<(), E> {
    type Error = E;

    /// The adapter accepts exactly the messages the function accepts.
    open spec fn ready(&self, msg: M) -> bool {
        call_requires(self.f, (msg,))
    }

    /// The adapter admits exactly the results the function admits.
    open spec fn outcome(&self, msg: M, r: Result<(), E>) -> bool {
        call_ensures(self.f, (msg,), r)
    }

    fn call(&self, msg: M) -> (r: Result<(), E>) {
        (self.f)(msg)
    }
}

impl<F, M, E> IntoHandler<FnHandler<F, M, E>, M> for F where F: Fn(M) -> Result<(), E> {
    /// A function converts into the adapter that wraps it.
    open spec fn to_handler(self, h: FnHandler<F, M, E>) -> bool {
        h.f == self
    }

    fn into_handler(self) -> (h: FnHandler<F, M, E>) {
        FnHandler::new(self)
    }
}

/// Wrap a plain function `Fn(M) -> Result<(), E>` into a [`Handler`].
pub fn fn_handler<F, M, E>(f: F) -> (h: FnHandler<F, M, E>) where
    F: Fn(M) -> Result<(), E>,

    ensures
        h.f == f,
{
    FnHandler::new(f)
}

} // verus!
