//! The terminal stage of a pipeline: a callable consumer of one typed
//! message.
//!
//! A [`Handler`] is constructed once (directly, or by a layer's build step),
//! invoked zero or more times through [`Handler::call`], and owns whatever
//! state its construction captured.  Its behaviour is specified by two
//! relations: [`Handler::ready`] says which messages a call may be given, and
//! [`Handler::outcome`] says which results a call on a given message may
//! produce.  `call` is total on `ready` messages and never panics.

use vstd::prelude::*;

verus! {

/// A terminal, callable consumer of one typed message.
///
/// Calling is fallible: a call returns either success (no payload) or the
/// chain's error value, and the caller decides what to do with a failure; the
/// handler itself never retries or classifies it.
pub trait Handler<T>: Sized {
    /// The failure type a call may report.
    type Error;

    /// The messages this handler accepts.
    spec fn ready(&self, msg: T) -> bool;

    /// The results a call on `msg` may produce.
    spec fn outcome(&self, msg: T, r: Result<(), Self::Error>) -> bool;

    /// Consume one message, reporting success or this handler's error.
    ///
    /// Calling borrows the handler immutably, so one handler may serve any
    /// number of callers, sequential or concurrent; the results a call may
    /// produce depend on the handler value and that call's message alone.
    fn call(&self, msg: T) -> (r: Result<(), Self::Error>)
        requires
            self.ready(msg),
        ensures
            self.outcome(msg, r),
    ;
}

/// A value that can be turned into a [`Handler`].
///
/// The conversion is deterministic: [`IntoHandler::to_handler`] holds of
/// exactly one handler for a given value, so composition operators can state
/// through it which handler they build from.
pub trait IntoHandler<H, T>: Sized where H: Handler<T> {
    /// Holds when `h` is the handler this value converts into.
    spec fn to_handler(self, h: H) -> bool;

    /// Perform the conversion.
    fn into_handler(self) -> (h: H)
        ensures
            self.to_handler(h),
    ;
}

impl<H, T> IntoHandler<H, T> for H where H: Handler<T> {
    /// A handler converts into itself.
    open spec fn to_handler(self, h: H) -> bool {
        h == self
    }

    fn into_handler(self) -> (h: H) {
        self
    }
}

} // verus!
