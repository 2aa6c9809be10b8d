//! The forwarding stage of a pipeline: a factory that wraps a downstream
//! [`Handler`] with one transform step.
//!
//! A [`Layer`] does not itself process messages; given the handler for the
//! rest of the chain it builds a new handler that accepts the upstream
//! message type.  Building is fallible with an initialization error distinct
//! from the per-message error, and a layer is reusable: building takes
//! `&self`, so one layer instance can wrap any number of independent
//! downstream handlers.  [`connect`] composes one layer with one handler;
//! nesting `connect` calls wires a whole chain bottom-up.

use vstd::prelude::*;

use crate::handler::{Handler, IntoHandler};

verus! {

/// A factory for [`Handler`]s.  Since a chain is built bottom-up, the
/// downstream handler is handed to the factory, which wraps it.
pub trait Layer<T, H>: Sized where H: Handler<Self::Next> {
    /// The message type handed to the downstream handler.
    type Next;

    /// The failure type of the built handler; every stage of one chain
    /// shares it.
    type Error;

    /// The handler type this layer builds.
    type Handler: Handler<T, Error = Self::Error>;

    /// The failure type of building itself, never seen by a call.
    type InitError;

    /// The downstream handlers this layer can be built on.
    spec fn buildable(&self, prev: H) -> bool;

    /// The build results this layer may produce on `prev`.
    spec fn built(&self, prev: H, r: Result<Self::Handler, Self::InitError>) -> bool;

    /// Build a handler that wraps `prev`.  The layer is not consumed: one
    /// layer may build many independent handlers.
    fn new_handler(&self, prev: H) -> (r: Result<Self::Handler, Self::InitError>)
        requires
            self.buildable(prev),
        ensures
            self.built(prev, r),
    ;
}

/// A value that can be turned into a [`Layer`], analogous to
/// [`IntoHandler`].
pub trait IntoLayer<L, T, H>: Sized where L: Layer<T, H>, H: Handler<L::Next> {
    /// Holds when `l` is the layer this value converts into.
    spec fn to_layer(self, l: L) -> bool;

    /// Perform the conversion.
    fn into_layer(self) -> (l: L)
        ensures
            self.to_layer(l),
    ;
}

impl<L, T, H> IntoLayer<L, T, H> for L where L: Layer<T, H>, H: Handler<L::Next> {
    /// A layer converts into itself.
    open spec fn to_layer(self, l: L) -> bool {
        l == self
    }

    fn into_layer(self) -> (l: L) {
        self
    }
}

/// Compose one layer with one downstream handler, yielding the combined
/// handler.  Nested right-associatively this wires a whole chain: the last
/// layer wraps the terminal handler first, and the first layer produces the
/// outermost handler, the one callers invoke.
///
/// The result is a build result of the layer the first argument converts
/// into, on the handler the second argument converts into.
pub fn connect<IL, L, T, IH, H>(layer: IL, handler: IH) -> (r: Result<L::Handler, L::InitError>) where
    IL: IntoLayer<L, T, H>,
    L: Layer<T, H>,
    H: Handler<L::Next>,
    IH: IntoHandler<H, L::Next>,

    requires
        forall|l: L, h: H|
            #![trigger l.buildable(h)]
            layer.to_layer(l) && handler.to_handler(h) ==> l.buildable(h),
    ensures
        exists|l: L, h: H|
            #![trigger l.built(h, r)]
            layer.to_layer(l) && handler.to_handler(h) && l.built(h, r),
{
    let l = layer.into_layer();
    let h = handler.into_handler();
    let r = l.new_handler(h);
    proof {
        assert(l.built(h, r));
    }
    r
}

} // verus!
