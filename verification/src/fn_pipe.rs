//! Function adapters for [`Pipe`] and [`PipeFactory`], the pipe-shaped
//! counterparts of [`crate::fn_handler`] and [`crate::fn_layer`].
//!
//! [`fn_pipe`] wraps a terminal function `Fn(M) -> Result<(), E>` into a
//! [`Pipe`]; [`fn_pipe_factory`] wraps a transform function
//! `Fn(M1) -> Result<M2, E>` into a [`PipeFactory`] whose built pipe
//! performs the short-circuit protocol: transform, then on success forward
//! downstream, on failure return the error at once.

use vstd::prelude::*;

use crate::fn_layer::arc_clone;
use crate::pipe::{IntoPipe, IntoPipeFactory, Pipe, PipeFactory};

verus! {

/// A [`Pipe`] backed by a plain function `Fn(M) -> Result<(), E>`.
#[verifier::reject_recursive_types(M)]
#[verifier::reject_recursive_types(E)]
pub struct FnPipe<F, M, E> where F: Fn(M) -> Result<(), E> {
    /// The wrapped function; `call` invokes it on the message.
    pub f: F,
    /// Records the message type, which only the bound on `f` mentions.
    pub marker: core::marker::PhantomData<(M, E)>,
}

impl<F, M, E> FnPipe<F, M, E> where F: Fn(M) -> Result<(), E> {
    /// Wrap `f`.
    fn new(f: F) -> (p: Self)
        ensures
            p.f == f,
    {
        FnPipe { f, marker: core::marker::PhantomData }
    }
}

/// Calling the adapter simply calls the wrapped function.
impl<F, M, E> Pipe<M> for FnPipe<F, M, E> where F: Fn(M) -> Result<(), E> {
    type Error = E;

    /// The adapter accepts exactly the messages the function accepts.
    open spec fn ready(&self, msg: M) -> bool {
        call_requires(self.f, (msg,))
    }

    /// The adapter admits exactly the results the function admits.
    open spec fn outcome(&self, msg: M, r: Result<(), E>) -> bool {
        call_ensures(self.f, (msg,), r)
    }

    fn call(&self, msg: M) -> (r: Result<(), E>) {
        (self.f)(msg)
    }
}

impl<F, M, E> IntoPipe<FnPipe<F, M, E>, M> for F where F: Fn(M) -> Result<(), E> {
    /// A function converts into the adapter that wraps it.
    open spec fn to_pipe(self, p: FnPipe<F, M, E>) -> bool {
        p.f == self
    }

    fn into_pipe(self) -> (p: FnPipe<F, M, E>) {
        FnPipe::new(self)
    }
}

/// Wrap a plain function `Fn(M) -> Result<(), E>` into a [`Pipe`].
pub fn fn_pipe<F, M, E>(f: F) -> (p: FnPipe<F, M, E>) where
    F: Fn(M) -> Result<(), E>,

    ensures
        p.f == f,
{
    FnPipe::new(f)
}

/// A [`PipeFactory`] backed by a plain transform function
/// `Fn(M1) -> Result<M2, E>`.
#[verifier::reject_recursive_types(M1)]
#[verifier::reject_recursive_types(M2)]
#[verifier::reject_recursive_types(E)]
pub struct FnPipeFactory<F, M1, M2, E> where F: Fn(M1) -> Result<M2, E> {
    /// The transform, shared so that every pipe built from this factory
    /// carries the same function while the factory stays usable.
    pub f: std::sync::Arc<F>,
    /// Records the message types, which only the bound on `f` mentions.
    pub marker: core::marker::PhantomData<(M1, M2, E)>,
}

impl<F, M1, M2, E> FnPipeFactory<F, M1, M2, E> where F: Fn(M1) -> Result<M2, E> {
    /// Wrap `f`.
    fn new(f: F) -> (pf: Self)
        ensures
            pf.f == f,
    {
        FnPipeFactory { f: std::sync::Arc::new(f), marker: core::marker::PhantomData }
    }
}

/// The pipe a [`FnPipeFactory`] builds: one transform step in front of a
/// downstream pipe.
#[verifier::reject_recursive_types(M1)]
#[verifier::reject_recursive_types(M2)]
#[verifier::reject_recursive_types(E)]
pub struct FnFactoryPipe<F, M1, M2, E, P> where
    F: Fn(M1) -> Result<M2, E>,
    P: Pipe<M2, Error = E>,
 {
    /// The transform applied to each incoming message.
    pub f: std::sync::Arc<F>,
    /// The downstream pipe, invoked only on transformed values.
    pub prev: P,
    /// Records the upstream message type, which only the bound on `f`
    /// mentions.
    pub marker: core::marker::PhantomData<M1>,
}

impl<F, M1, M2, E, P> Pipe<M1> for FnFactoryPipe<F, M1, M2, E, P> where
    F: Fn(M1) -> Result<M2, E>,
    P: Pipe<M2, Error = E>,
 {
    type Error = E;

    /// The transform accepts the message, and whatever value it may produce
    /// the downstream pipe accepts in turn.
    open spec fn ready(&self, msg: M1) -> bool {
        &&& call_requires(*self.f, (msg,))
        &&& forall|mid: M2| #[trigger] call_ensures(*self.f, (msg,), Ok(mid))
            ==> self.prev.ready(mid)
    }

    /// Either the transform failed and its error is returned verbatim, the
    /// downstream pipe never running; or the transform produced some value
    /// and the result is an outcome of the downstream pipe on that value.
    open spec fn outcome(&self, msg: M1, r: Result<(), E>) -> bool {
        ||| (r matches Err(e) && call_ensures(*self.f, (msg,), Result::<M2, E>::Err(e)))
        ||| (exists|mid: M2| #[trigger] call_ensures(*self.f, (msg,), Ok(mid))
            && self.prev.outcome(mid, r))
    }

    /// The short-circuit protocol: transform, then either forward or fail.
    fn call(&self, msg: M1) -> (r: Result<(), E>) {
        match (*self.f)(msg) {
            Ok(mid) => self.prev.call(mid),
            Err(e) => Err(e),
        }
    }
}

impl<F, M1, M2, E, P> PipeFactory<M1, P> for FnPipeFactory<F, M1, M2, E> where
    F: Fn(M1) -> Result<M2, E>,
    P: Pipe<M2, Error = E>,
 {
    type Next = M2;

    type Error = E;

    type Pipe = FnFactoryPipe<F, M1, M2, E, P>;

    type InitError = E;

    /// A function factory can wrap any downstream pipe.
    open spec fn buildable(&self, prev: P) -> bool {
        true
    }

    /// Building never fails and yields exactly the transform step over
    /// `prev`, with this factory's own transform.
    open spec fn built(&self, prev: P, r: Result<Self::Pipe, E>) -> bool {
        r matches Ok(p) && p.f == self.f && p.prev == prev
    }

    fn new_pipe(&self, prev: P) -> (r: Result<FnFactoryPipe<F, M1, M2, E, P>, E>) {
        Ok(FnFactoryPipe { f: arc_clone(&self.f), prev, marker: core::marker::PhantomData })
    }
}

impl<F, M1, M2, E, P> IntoPipeFactory<FnPipeFactory<F, M1, M2, E>, M1, P> for F where
    F: Fn(M1) -> Result<M2, E>,
    P: Pipe<M2, Error = E>,
 {
    /// A function converts into the factory that wraps it.
    open spec fn to_pipe_factory(self, pf: FnPipeFactory<F, M1, M2, E>) -> bool {
        pf.f == self
    }

    fn into_pipe_factory(self) -> (pf: FnPipeFactory<F, M1, M2, E>) {
        FnPipeFactory::new(self)
    }
}

/// Wrap a plain transform function `Fn(M1) -> Result<M2, E>` into a
/// [`PipeFactory`].
pub fn fn_pipe_factory<F, M1, M2, E>(f: F) -> (pf: FnPipeFactory<F, M1, M2, E>) where
    F: Fn(M1) -> Result<M2, E>,

    ensures
        pf.f == f,
{
    FnPipeFactory::new(f)
}

} // verus!
