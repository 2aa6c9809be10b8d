//! Function adapter for [`Layer`]: wraps a plain transform function into a
//! forwarding pipeline stage.
//!
//! A function of shape `Fn(M1) -> Result<M2, E>` is the natural unit of
//! transforming business logic; [`fn_layer`] turns one into a [`Layer`].  The
//! handler such a layer builds performs the short-circuit protocol that is
//! the central contract of the whole pipeline: apply the transform, and on
//! success forward the transformed value downstream, while on failure return
//! the error at once, never invoking the downstream handler.
//!
//! The transform is held under shared, thread-safe ownership so that one
//! layer can hand it to any number of built handlers without being consumed.

use vstd::prelude::*;

use crate::fn_handler::FnHandler;
use crate::handler::Handler;
use crate::layer::{IntoLayer, Layer};

verus! {

/// Relies on alloc::sync::Arc::clone: the clone is a new handle on the same
/// allocation, so it carries the same value as the original.
#[verifier::external_body]
pub(crate) fn arc_clone<T>(a: &std::sync::Arc<T>) -> (r: std::sync::Arc<T>)
    ensures
        r == *a,
{
    std::sync::Arc::clone(a)
}

/// A [`Layer`] backed by a plain transform function
/// `Fn(M1) -> Result<M2, E>`.
#[verifier::reject_recursive_types(M1)]
#[verifier::reject_recursive_types(M2)]
#[verifier::reject_recursive_types(E)]
pub struct FnLayer<F, M1, M2, E> where F: Fn(M1) -> Result<M2, E> {
    /// The transform, shared so that every handler built from this layer
    /// carries the same function while the layer stays usable.
    pub f: std::sync::Arc<F>,
    /// Records the message types, which only the bound on `f` mentions.
    pub marker: core::marker::PhantomData<(M1, M2, E)>,
}

impl<F, M1, M2, E> FnLayer<F, M1, M2, E> where F: Fn(M1) -> Result<M2, E> {
    /// Wrap `f`.
    fn new(f: F) -> (l: Self)
        ensures
            l.f == f,
    {
        FnLayer { f: std::sync::Arc::new(f), marker: core::marker::PhantomData }
    }
}

/// The handler a [`FnLayer`] builds: one transform step in front of a
/// downstream handler.
#[verifier::reject_recursive_types(M1)]
#[verifier::reject_recursive_types(M2)]
#[verifier::reject_recursive_types(E)]
pub struct FnLayerHandler<F, M1, M2, E, H> where
    F: Fn(M1) -> Result<M2, E>,
    H: Handler<M2, Error = E>,
 {
    /// The transform applied to each incoming message.
    pub f: std::sync::Arc<F>,
    /// The downstream handler, invoked only on transformed values.
    pub prev: H,
    /// Records the upstream message type, which only the bound on `f`
    /// mentions.
    pub marker: core::marker::PhantomData<M1>,
}

/// The messages a transform step in front of `prev` accepts: the transform
/// accepts the message, and whatever value it may transform the message
/// into, `prev` accepts in turn.
pub open spec fn step_ready<F, M1, M2, E, H>(f: F, prev: H, msg: M1) -> bool where
    F: Fn(M1) -> Result<M2, E>,
    H: Handler<M2, Error = E>,
 {
    &&& call_requires(f, (msg,))
    &&& forall|mid: M2| #[trigger] call_ensures(f, (msg,), Ok(mid)) ==> prev.ready(mid)
}

/// The results a transform step in front of `prev` may produce on `msg`:
/// either the transform failed and its error is returned verbatim, the
/// downstream handler never running; or the transform produced some value
/// and the result is an outcome of `prev` on that value.
pub open spec fn step_outcome<F, M1, M2, E, H>(f: F, prev: H, msg: M1, r: Result<(), E>) -> bool where
    F: Fn(M1) -> Result<M2, E>,
    H: Handler<M2, Error = E>,
 {
    ||| (r matches Err(e) && call_ensures(f, (msg,), Result::<M2, E>::Err(e)))
    ||| (exists|mid: M2| #[trigger] call_ensures(f, (msg,), Ok(mid)) && prev.outcome(mid, r))
}

impl<F, M1, M2, E, H> Handler<M1> for FnLayerHandler<F, M1, M2, E, H> where
    F: Fn(M1) -> Result<M2, E>,
    H: Handler<M2, Error = E>,
 {
    type Error = E;

    open spec fn ready(&self, msg: M1) -> bool {
        step_ready(*self.f, self.prev, msg)
    }

    open spec fn outcome(&self, msg: M1, r: Result<(), E>) -> bool {
        step_outcome(*self.f, self.prev, msg, r)
    }

    /// The short-circuit protocol: transform, then either forward or fail.
    fn call(&self, msg: M1) -> (r: Result<(), E>) {
        match (*self.f)(msg) {
            Ok(mid) => self.prev.call(mid),
            Err(e) => Err(e),
        }
    }
}

impl<F, M1, M2, E, H> Layer<M1, H> for FnLayer<F, M1, M2, E> where
    F: Fn(M1) -> Result<M2, E>,
    H: Handler<M2, Error = E>,
 {
    type Next = M2;

    type Error = E;

    type Handler = FnLayerHandler<F, M1, M2, E, H>;

    type InitError = E;

    /// A function layer can wrap any downstream handler.
    open spec fn buildable(&self, prev: H) -> bool {
        true
    }

    /// Building never fails and yields exactly the transform step over
    /// `prev`, with this layer's own transform.
    open spec fn built(&self, prev: H, r: Result<Self::Handler, E>) -> bool {
        r matches Ok(h) && h.f == self.f && h.prev == prev
    }

    fn new_handler(&self, prev: H) -> (r: Result<FnLayerHandler<F, M1, M2, E, H>, E>) {
        Ok(FnLayerHandler { f: arc_clone(&self.f), prev, marker: core::marker::PhantomData })
    }
}

impl<F, M1, M2, E, H> IntoLayer<FnLayer<F, M1, M2, E>, M1, H> for F where
    F: Fn(M1) -> Result<M2, E>,
    H: Handler<M2, Error = E>,
 {
    /// A function converts into the layer that wraps it.
    open spec fn to_layer(self, l: FnLayer<F, M1, M2, E>) -> bool {
        l.f == self
    }

    fn into_layer(self) -> (l: FnLayer<F, M1, M2, E>) {
        FnLayer::new(self)
    }
}

/// Wrap a plain transform function `Fn(M1) -> Result<M2, E>` into a
/// [`Layer`].
pub fn fn_layer<F, M1, M2, E>(f: F) -> (l: FnLayer<F, M1, M2, E>) where
    F: Fn(M1) -> Result<M2, E>,

    ensures
        l.f == f,
{
    FnLayer::new(f)
}

/// Short-circuit, failing half: when the transform of the front stage can
/// only fail on `msg`, every result of the wired handler is exactly an error
/// the transform produced on `msg` — the downstream handler is never
/// consulted and contributes nothing to the result.
pub proof fn lemma_short_circuit<F, M1, M2, E, H>(
    w: FnLayerHandler<F, M1, M2, E, H>,
    msg: M1,
    r: Result<(), E>,
) where F: Fn(M1) -> Result<M2, E>, H: Handler<M2, Error = E>
    requires
        w.outcome(msg, r),
        forall|out: Result<M2, E>| #[trigger] call_ensures(*w.f, (msg,), out) ==> out is Err,
    ensures
        r matches Err(e) && call_ensures(*w.f, (msg,), Result::<M2, E>::Err(e)),
{
    assert(step_outcome(*w.f, w.prev, msg, r));
}

/// Short-circuit, succeeding half: when the transform of the front stage can
/// only produce `mid` on `msg`, the wired handler's results on `msg` are
/// results of the downstream handler on `mid` — the transformed value is
/// forwarded unchanged.
pub proof fn lemma_forward<F, M1, M2, E, H>(
    w: FnLayerHandler<F, M1, M2, E, H>,
    msg: M1,
    mid: M2,
    r: Result<(), E>,
) where F: Fn(M1) -> Result<M2, E>, H: Handler<M2, Error = E>
    requires
        w.outcome(msg, r),
        forall|out: Result<M2, E>| #[trigger] call_ensures(*w.f, (msg,), out) ==> out == Ok::<
            M2,
            E,
        >(mid),
    ensures
        w.prev.outcome(mid, r),
{
    assert(step_outcome(*w.f, w.prev, msg, r));
}

/// Short-circuit in the middle of a chain: when the front transform can
/// only turn `msg` into `mid`, and the second transform can only fail on
/// `mid`, every result of the two-stage chain is exactly an error the
/// second transform produced on `mid` — the failure passes the outer stage
/// unchanged and nothing behind the failing stage contributes.
pub proof fn lemma_middle_failure<F1, F2, M1, M2, M3, E, H>(
    w: FnLayerHandler<F1, M1, M2, E, FnLayerHandler<F2, M2, M3, E, H>>,
    msg: M1,
    mid: M2,
    r: Result<(), E>,
) where
    F1: Fn(M1) -> Result<M2, E>,
    F2: Fn(M2) -> Result<M3, E>,
    H: Handler<M3, Error = E>,

    requires
        w.outcome(msg, r),
        forall|out: Result<M2, E>| #[trigger] call_ensures(*w.f, (msg,), out) ==> out == Ok::<
            M2,
            E,
        >(mid),
        forall|out: Result<M3, E>| #[trigger] call_ensures(*w.prev.f, (mid,), out) ==> out is Err,
    ensures
        r matches Err(e) && call_ensures(*w.prev.f, (mid,), Result::<M3, E>::Err(e)),
{
    lemma_forward(w, msg, mid, r);
    lemma_short_circuit(w.prev, mid, r);
}

/// Holds when `h` succeeds exactly on the message `v`: every result of a
/// call is success precisely when the message equals `v`.
pub open spec fn succeeds_only_on<H, E>(h: H, v: u64) -> bool where H: Handler<u64, Error = E> {
    forall|m: u64, r: Result<(), E>| #[trigger] h.outcome(m, r) ==> (r is Ok <==> m == v)
}

/// A terminal adapter over a function that succeeds exactly on `v` is a
/// handler that succeeds exactly on `v`.
pub proof fn lemma_terminal_target<G, E>(h: FnHandler<G, u64, E>, v: u64) where
    G: Fn(u64) -> Result<(), E>,

    requires
        forall|m: u64, out: Result<(), E>| #[trigger] call_ensures(h.f, (m,), out) ==> (out is Ok
            <==> m == v),
    ensures
        succeeds_only_on::<FnHandler<G, u64, E>, E>(h, v),
{
}

/// One increment stage shifts the message a chain succeeds on down by one:
/// in front of a handler that succeeds exactly on `v`, a stage whose
/// transform can only turn `x` into `x + 1` yields a handler that succeeds
/// exactly on `v - 1`.  Applied once per stage, starting from the terminal
/// adapter, this gives the behaviour of any number of increment stages: a
/// chain of `n` of them succeeds exactly on `v - n`.
pub proof fn lemma_increment_step<F, E, H>(w: FnLayerHandler<F, u64, u64, E, H>, v: u64) where
    F: Fn(u64) -> Result<u64, E>,
    H: Handler<u64, Error = E>,

    requires
        1 <= v,
        succeeds_only_on::<H, E>(w.prev, v),
        forall|x: u64, out: Result<u64, E>| #[trigger] call_ensures(*w.f, (x,), out)
            ==> (out matches Ok(y) && y == x + 1),
    ensures
        succeeds_only_on::<FnLayerHandler<F, u64, u64, E, H>, E>(w, (v - 1) as u64),
{
    assert forall|m: u64, r: Result<(), E>| #[trigger] w.outcome(m, r) implies (r is Ok <==> m == v
        - 1) by {
        assert(step_outcome(*w.f, w.prev, m, r));
    }
}

/// Three increment stages in front of a terminal that succeeds exactly on
/// `v` form a chain that succeeds exactly on `v - 3`: each stage shifts the
/// accepted message down by one, so the terminal receives the initial value
/// plus three.  Chains of any other length follow the same way, one
/// [`lemma_increment_step`] per stage.
pub proof fn lemma_three_increments<F1, F2, F3, G, E>(
    w: FnLayerHandler<
        F1,
        u64,
        u64,
        E,
        FnLayerHandler<F2, u64, u64, E, FnLayerHandler<F3, u64, u64, E, FnHandler<G, u64, E>>>,
    >,
    v: u64,
) where
    F1: Fn(u64) -> Result<u64, E>,
    F2: Fn(u64) -> Result<u64, E>,
    F3: Fn(u64) -> Result<u64, E>,
    G: Fn(u64) -> Result<(), E>,

    requires
        3 <= v,
        forall|m: u64, out: Result<(), E>| #[trigger] call_ensures(w.prev.prev.prev.f, (m,), out)
            ==> (out is Ok <==> m == v),
        forall|x: u64, out: Result<u64, E>| #[trigger] call_ensures(*w.f, (x,), out)
            ==> (out matches Ok(y) && y == x + 1),
        forall|x: u64, out: Result<u64, E>| #[trigger] call_ensures(*w.prev.f, (x,), out)
            ==> (out matches Ok(y) && y == x + 1),
        forall|x: u64, out: Result<u64, E>| #[trigger] call_ensures(*w.prev.prev.f, (x,), out)
            ==> (out matches Ok(y) && y == x + 1),
    ensures
        succeeds_only_on::<
            FnLayerHandler<
                F1,
                u64,
                u64,
                E,
                FnLayerHandler<
                    F2,
                    u64,
                    u64,
                    E,
                    FnLayerHandler<F3, u64, u64, E, FnHandler<G, u64, E>>,
                >,
            >,
            E,
        >(w, (v - 3) as u64),
{
    lemma_terminal_target(w.prev.prev.prev, v);
    lemma_increment_step(w.prev.prev, v);
    lemma_increment_step(w.prev, (v - 1) as u64);
    lemma_increment_step(w, (v - 2) as u64);
}

/// Reusability: one layer, built on two different downstream handlers,
/// yields two independent handlers.  Each carries the layer's transform and
/// its own downstream handler, and the results each may produce are fixed by
/// those two values alone, so the two chains share nothing that an
/// invocation could leak through.
pub proof fn lemma_layer_reuse<F, M1, M2, E, H1, H2>(
    l: FnLayer<F, M1, M2, E>,
    prev1: H1,
    prev2: H2,
    r1: Result<FnLayerHandler<F, M1, M2, E, H1>, E>,
    r2: Result<FnLayerHandler<F, M1, M2, E, H2>, E>,
) where
    F: Fn(M1) -> Result<M2, E>,
    H1: Handler<M2, Error = E>,
    H2: Handler<M2, Error = E>,

    requires
        l.built(prev1, r1),
        l.built(prev2, r2),
    ensures
        r1 matches Ok(w1) && w1.f == l.f && w1.prev == prev1,
        r2 matches Ok(w2) && w2.f == l.f && w2.prev == prev2,
        forall|msg: M1, r: Result<(), E>| #[trigger] (r1->Ok_0).outcome(msg, r)
            <==> step_outcome::<F, M1, M2, E, H1>(*l.f, prev1, msg, r),
        forall|msg: M1, r: Result<(), E>| #[trigger] (r2->Ok_0).outcome(msg, r)
            <==> step_outcome::<F, M1, M2, E, H2>(*l.f, prev2, msg, r),
{
}

} // verus!
