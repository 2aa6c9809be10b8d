//! Variadic chain building: wire an ordered list of layers and one terminal
//! handler into a single handler with one call.
//!
//! A chain is written as nested links ending in [`To`], mirroring the order
//! in which the stages process a message:
//! `apply(link(first, link(second, To(terminal))))`.  Wiring is
//! right-associative, exactly as if [`connect`](crate::layer::connect) had
//! been nested by hand: the last layer wraps the terminal handler first, and
//! the first layer produces the outermost handler.

use vstd::prelude::*;

use crate::handler::Handler;
use crate::layer::Layer;

verus! {

/// Marks the terminal handler of a chain.
pub struct To<H>(pub H);

/// One layer in front of the rest of a chain.  `N` is the message type the
/// layer hands downstream, which the rest of the chain consumes.
pub struct Link<N, L, C> {
    /// The stage wired outermost in this part of the chain.
    pub layer: L,
    /// The stages after it, ending in the terminal handler.
    pub rest: C,
    /// Records the intermediate message type, which only the bounds on the
    /// wiring mention.
    pub marker: core::marker::PhantomData<N>,
}

/// Put `layer` in front of the chain `rest`.
pub fn link<N, L, C>(layer: L, rest: C) -> (k: Link<N, L, C>)
    ensures
        k.layer == layer,
        k.rest == rest,
{
    Link { layer, rest, marker: core::marker::PhantomData }
}

/// An ordered list of layers ending in a terminal handler, wirable into one
/// combined handler.  `E` is the initialization error type shared by every
/// layer of the chain.
pub trait Chain<T, E>: Sized {
    /// The handler type wiring produces.
    type Handler: Handler<T>;

    /// The chains that can be wired: every stage can be built on whatever
    /// the stages after it may produce.
    spec fn wirable(&self) -> bool;

    /// The results wiring may produce.
    spec fn wired(&self, r: Result<Self::Handler, E>) -> bool;

    /// Wire the chain bottom-up into one handler.
    fn wire(self) -> (r: Result<Self::Handler, E>)
        requires
            self.wirable(),
        ensures
            self.wired(r),
    ;
}

/// The terminal handler alone is a chain: wiring it is trivial and cannot
/// fail.
impl<T, E, H> Chain<T, E> for To<H> where H: Handler<T> {
    type Handler = H;

    open spec fn wirable(&self) -> bool {
        true
    }

    open spec fn wired(&self, r: Result<H, E>) -> bool {
        r matches Ok(h) && h == self.0
    }

    fn wire(self) -> (r: Result<H, E>) {
        Ok(self.0)
    }
}

/// A layer in front of a chain is a chain: wire the rest, then build the
/// layer on the result; an initialization error anywhere aborts the wiring
/// and is returned unchanged.
impl<T, N, E, L, C> Chain<T, E> for Link<N, L, C> where
    C: Chain<N, E>,
    L: Layer<T, C::Handler, Next = N, InitError = E>,
 {
    type Handler = L::Handler;

    open spec fn wirable(&self) -> bool {
        &&& self.rest.wirable()
        &&& forall|h: C::Handler| #[trigger] self.rest.wired(Ok(h)) ==> self.layer.buildable(h)
    }

    open spec fn wired(&self, r: Result<L::Handler, E>) -> bool {
        ||| (exists|h: C::Handler| #[trigger] self.rest.wired(Ok(h)) && self.layer.built(h, r))
        ||| (r matches Err(e) && self.rest.wired(Err(e)))
    }

    fn wire(self) -> (r: Result<L::Handler, E>) {
        let rest = self.rest;
        let layer = self.layer;
        match rest.wire() {
            Ok(h) => layer.new_handler(h),
            Err(e) => Err(e),
        }
    }
}

/// Wire a whole chain of layers and one terminal handler in one call:
/// `apply(link(l1, link(l2, link(l3, To(h)))))` builds the same handler as
/// `connect(l1, connect(l2, connect(l3, h)))`, with each intermediate
/// initialization error returned unchanged.
pub fn apply<T, E, C>(stages: C) -> (r: Result<C::Handler, E>) where C: Chain<T, E>
    requires
        stages.wirable(),
    ensures
        stages.wired(r),
{
    stages.wire()
}

/// The build results of `connect(l1, connect(l2, connect(l3, h)))`, where an
/// initialization error of an inner `connect` aborts the outer ones and is
/// returned unchanged: either every stage built and the result is a build
/// result of the first layer on the nested handlers, or some stage failed
/// and the result is its error.
pub open spec fn connect3_rel<T1, N1, N2, N3, E, L1, L2, L3, H>(
    l1: L1,
    l2: L2,
    l3: L3,
    h: H,
    r: Result<L1::Handler, E>,
) -> bool where
    H: Handler<N3>,
    L3: Layer<N2, H, Next = N3, InitError = E>,
    L2: Layer<N1, L3::Handler, Next = N2, InitError = E>,
    L1: Layer<T1, L2::Handler, Next = N1, InitError = E>,
 {
    ||| (exists|h3: L3::Handler, h2: L2::Handler|
        #![trigger l3.built(h, Ok(h3)), l2.built(h3, Ok(h2))]
        l3.built(h, Ok(h3)) && l2.built(h3, Ok(h2)) && l1.built(h2, r))
    ||| (r matches Err(e) && l3.built(h, Result::<L3::Handler, E>::Err(e)))
    ||| (r matches Err(e) && exists|h3: L3::Handler| #[trigger] l3.built(h, Ok(h3)) && l2.built(
        h3,
        Result::<L2::Handler, E>::Err(e),
    ))
}

/// The precondition of `connect(l1, connect(l2, connect(l3, h)))`: each
/// layer can be built on whatever the stages after it may successfully
/// produce.
pub open spec fn connect3_pre<T1, N1, N2, N3, E, L1, L2, L3, H>(
    l1: L1,
    l2: L2,
    l3: L3,
    h: H,
) -> bool where
    H: Handler<N3>,
    L3: Layer<N2, H, Next = N3, InitError = E>,
    L2: Layer<N1, L3::Handler, Next = N2, InitError = E>,
    L1: Layer<T1, L2::Handler, Next = N1, InitError = E>,
 {
    &&& l3.buildable(h)
    &&& forall|h3: L3::Handler| #[trigger] l3.built(h, Ok(h3)) ==> l2.buildable(h3)
    &&& forall|h3: L3::Handler, h2: L2::Handler|
        #![trigger l3.built(h, Ok(h3)), l2.built(h3, Ok(h2))]
        l3.built(h, Ok(h3)) && l2.built(h3, Ok(h2)) ==> l1.buildable(h2)
}

/// Associativity of composition: wiring three layers and a terminal handler
/// through the variadic chain builder asks exactly the preconditions of,
/// and admits exactly the results of, the hand-nested right-associative
/// `connect` calls on the same stages, in the same order.
pub proof fn lemma_apply_matches_connect<T1, N1, N2, N3, E, L1, L2, L3, H>(
    c: Link<N1, L1, Link<N2, L2, Link<N3, L3, To<H>>>>,
    r: Result<L1::Handler, E>,
) where
    H: Handler<N3>,
    L3: Layer<N2, H, Next = N3, InitError = E>,
    L2: Layer<N1, L3::Handler, Next = N2, InitError = E>,
    L1: Layer<T1, L2::Handler, Next = N1, InitError = E>,

    ensures
        c.wirable() <==> connect3_pre::<T1, N1, N2, N3, E, L1, L2, L3, H>(
            c.layer,
            c.rest.layer,
            c.rest.rest.layer,
            c.rest.rest.rest.0,
        ),
        c.wired(r) <==> connect3_rel::<T1, N1, N2, N3, E, L1, L2, L3, H>(
            c.layer,
            c.rest.layer,
            c.rest.rest.layer,
            c.rest.rest.rest.0,
            r,
        ),
{
    let l1 = c.layer;
    let l2 = c.rest.layer;
    let l3 = c.rest.rest.layer;
    let h = c.rest.rest.rest.0;
    let rest = c.rest;
    let rest2 = c.rest.rest;
    let term = c.rest.rest.rest;

    assert(term.wired(Ok::<H, E>(h)));
    if c.wirable() {
        assert(l3.buildable(h));
        assert forall|h3: L3::Handler| #[trigger] l3.built(h, Ok(h3)) implies l2.buildable(
            h3,
        ) by {
            assert(rest2.wired(Ok::<L3::Handler, E>(h3)));
        }
        assert forall|h3: L3::Handler, h2: L2::Handler|
            #![trigger l3.built(h, Ok(h3)), l2.built(h3, Ok(h2))]
            l3.built(h, Ok(h3)) && l2.built(h3, Ok(h2)) implies l1.buildable(h2) by {
            assert(rest2.wired(Ok::<L3::Handler, E>(h3)));
            assert(rest.wired(Ok::<L2::Handler, E>(h2)));
        }
    }
    if connect3_pre::<T1, N1, N2, N3, E, L1, L2, L3, H>(l1, l2, l3, h) {
        assert forall|t: H| #[trigger] term.wired(Ok::<H, E>(t)) implies l3.buildable(t) by {
            assert(t == h);
        }
        assert forall|h3: L3::Handler| #[trigger] rest2.wired(Ok(h3)) implies l2.buildable(
            h3,
        ) by {
            let t = choose|t: H| #[trigger] term.wired(Ok::<H, E>(t)) && l3.built(t, Ok(h3));
            assert(t == h);
            assert(l3.built(h, Ok(h3)));
        }
        assert forall|hh: L2::Handler| #[trigger] rest.wired(Ok(hh)) implies l1.buildable(hh) by {
            let h3 = choose|h3: L3::Handler| #[trigger] rest2.wired(Ok(h3)) && l2.built(
                h3,
                Ok(hh),
            );
            let t = choose|t: H| #[trigger] term.wired(Ok::<H, E>(t)) && l3.built(t, Ok(h3));
            assert(t == h);
            assert(l3.built(h, Ok(h3)) && l2.built(h3, Ok(hh)));
        }
        assert(c.wirable());
    }
    if c.wired(r) {
        if exists|hh: L2::Handler| #[trigger] rest.wired(Ok(hh)) && l1.built(hh, r) {
            let hh = choose|hh: L2::Handler| #[trigger] rest.wired(Ok(hh)) && l1.built(hh, r);
            let h3 = choose|h3: L3::Handler| #[trigger] rest2.wired(Ok(h3)) && l2.built(
                h3,
                Ok(hh),
            );
            let t = choose|t: H| #[trigger] term.wired(Ok::<H, E>(t)) && l3.built(t, Ok(h3));
            assert(t == h);
            assert(l3.built(h, Ok(h3)) && l2.built(h3, Ok(hh)) && l1.built(hh, r));
        } else {
            let e = r->Err_0;
            assert(rest.wired(Result::<L2::Handler, E>::Err(e)));
            if exists|h3: L3::Handler| #[trigger] rest2.wired(Ok(h3)) && l2.built(
                h3,
                Result::<L2::Handler, E>::Err(e),
            ) {
                let h3 = choose|h3: L3::Handler| #[trigger] rest2.wired(Ok(h3)) && l2.built(
                    h3,
                    Result::<L2::Handler, E>::Err(e),
                );
                let t = choose|t: H| #[trigger] term.wired(Ok::<H, E>(t)) && l3.built(t, Ok(h3));
                assert(t == h);
                assert(l3.built(h, Ok(h3)) && l2.built(h3, Result::<L2::Handler, E>::Err(e)));
            } else {
                assert(rest2.wired(Result::<L3::Handler, E>::Err(e)));
                let t = choose|t: H| #[trigger] term.wired(Ok::<H, E>(t)) && l3.built(
                    t,
                    Result::<L3::Handler, E>::Err(e),
                );
                assert(t == h);
                assert(l3.built(h, Result::<L3::Handler, E>::Err(e)));
            }
        }
    }
    if connect3_rel::<T1, N1, N2, N3, E, L1, L2, L3, H>(l1, l2, l3, h, r) {
        assert(term.wired(Ok::<H, E>(h)));
        if exists|h3: L3::Handler, h2: L2::Handler|
            #![trigger l3.built(h, Ok(h3)), l2.built(h3, Ok(h2))]
            l3.built(h, Ok(h3)) && l2.built(h3, Ok(h2)) && l1.built(h2, r) {
            let (h3, hh) = choose|h3: L3::Handler, hh: L2::Handler|
                #![trigger l3.built(h, Ok(h3)), l2.built(h3, Ok(hh))]
                l3.built(h, Ok(h3)) && l2.built(h3, Ok(hh)) && l1.built(hh, r);
            assert(rest2.wired(Ok::<L3::Handler, E>(h3)));
            assert(rest.wired(Ok::<L2::Handler, E>(hh)));
            assert(c.wired(r));
        } else if r matches Err(e) && l3.built(h, Result::<L3::Handler, E>::Err(e)) {
            let e = r->Err_0;
            assert(rest2.wired(Result::<L3::Handler, E>::Err(e)));
            assert(rest.wired(Result::<L2::Handler, E>::Err(e)));
            assert(c.wired(r));
        } else {
            let e = r->Err_0;
            let h3 = choose|h3: L3::Handler| #[trigger] l3.built(h, Ok(h3)) && l2.built(
                h3,
                Result::<L2::Handler, E>::Err(e),
            );
            assert(rest2.wired(Ok::<L3::Handler, E>(h3)));
            assert(rest.wired(Result::<L2::Handler, E>::Err(e)));
            assert(c.wired(r));
        }
    }
}

} // verus!
