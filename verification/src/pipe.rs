//! The pipe shape of the pipeline: an earlier spelling of the same
//! abstraction as [`crate::handler`] and [`crate::layer`], kept alongside
//! it.
//!
//! A [`Pipe`] consumes one typed message, a [`PipeFactory`] builds a pipe by
//! wrapping a downstream pipe with a transform step, and [`connect`]
//! composes one factory with one pipe.  The contracts mirror the handler
//! family exactly: a pipe carries a relation describing the results a call
//! may produce, and a factory a relation describing the pipes a build may
//! produce.

use vstd::prelude::*;

verus! {

/// A terminal, callable consumer of one typed message.
pub trait Pipe<M>: Sized {
    /// The failure type a call may report.
    type Error;

    /// The messages this pipe accepts.
    spec fn ready(&self, msg: M) -> bool;

    /// The results a call on `msg` may produce.
    spec fn outcome(&self, msg: M, r: Result<(), Self::Error>) -> bool;

    /// Consume one message, reporting success or this pipe's error.
    fn call(&self, msg: M) -> (r: Result<(), Self::Error>)
        requires
            self.ready(msg),
        ensures
            self.outcome(msg, r),
    ;
}

/// A factory for [`Pipe`]s.  Since a chain is built bottom-up, the
/// downstream pipe is handed to the factory, which wraps it.
pub trait PipeFactory<M, P>: Sized where P: Pipe<Self::Next> {
    /// The message type handed to the downstream pipe.
    type Next;

    /// The failure type of the built pipe; every stage of one chain shares
    /// it.
    type Error;

    /// The pipe type this factory builds.
    type Pipe: Pipe<M, Error = Self::Error>;

    /// The failure type of building itself, never seen by a call.
    type InitError;

    /// The downstream pipes this factory can be built on.
    spec fn buildable(&self, prev: P) -> bool;

    /// The build results this factory may produce on `prev`.
    spec fn built(&self, prev: P, r: Result<Self::Pipe, Self::InitError>) -> bool;

    /// Build a pipe that wraps `prev`.  The factory is not consumed: one
    /// factory may build many independent pipes.
    fn new_pipe(&self, prev: P) -> (r: Result<Self::Pipe, Self::InitError>)
        requires
            self.buildable(prev),
        ensures
            self.built(prev, r),
    ;
}

/// A value that can be turned into a [`Pipe`].
pub trait IntoPipe<P, M>: Sized where P: Pipe<M> {
    /// Holds when `p` is the pipe this value converts into.
    spec fn to_pipe(self, p: P) -> bool;

    /// Perform the conversion.
    fn into_pipe(self) -> (p: P)
        ensures
            self.to_pipe(p),
    ;
}

impl<P, M> IntoPipe<P, M> for P where P: Pipe<M> {
    /// A pipe converts into itself.
    open spec fn to_pipe(self, p: P) -> bool {
        p == self
    }

    fn into_pipe(self) -> (p: P) {
        self
    }
}

/// A value that can be turned into a [`PipeFactory`].
pub trait IntoPipeFactory<PF, M, P>: Sized where PF: PipeFactory<M, P>, P: Pipe<PF::Next> {
    /// Holds when `pf` is the factory this value converts into.
    spec fn to_pipe_factory(self, pf: PF) -> bool;

    /// Perform the conversion.
    fn into_pipe_factory(self) -> (pf: PF)
        ensures
            self.to_pipe_factory(pf),
    ;
}

impl<PF, M, P> IntoPipeFactory<PF, M, P> for PF where PF: PipeFactory<M, P>, P: Pipe<PF::Next> {
    /// A factory converts into itself.
    open spec fn to_pipe_factory(self, pf: PF) -> bool {
        pf == self
    }

    fn into_pipe_factory(self) -> (pf: PF) {
        self
    }
}

/// Compose one pipe factory with one downstream pipe, yielding the combined
/// pipe.  Nested right-associatively this wires a whole chain, the first
/// factory producing the outermost pipe.
///
/// The result is a build result of the factory the first argument converts
/// into, on the pipe the second argument converts into.
pub fn connect<IPF, PF, M, IP, P>(fac: IPF, pipe: IP) -> (r: Result<PF::Pipe, PF::InitError>) where
    IPF: IntoPipeFactory<PF, M, P>,
    PF: PipeFactory<M, P>,
    P: Pipe<PF::Next>,
    IP: IntoPipe<P, PF::Next>,

    requires
        forall|pf: PF, p: P|
            #![trigger pf.buildable(p)]
            fac.to_pipe_factory(pf) && pipe.to_pipe(p) ==> pf.buildable(p),
    ensures
        exists|pf: PF, p: P|
            #![trigger pf.built(p, r)]
            fac.to_pipe_factory(pf) && pipe.to_pipe(p) && pf.built(p, r),
{
    let pf = fac.into_pipe_factory();
    let p = pipe.into_pipe();
    let r = pf.new_pipe(p);
    proof {
        assert(pf.built(p, r));
    }
    r
}

} // verus!
