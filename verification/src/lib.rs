//! Composable message-processing pipelines.
//!
//! A pipeline is assembled from small, independently testable stages: a
//! sequence of [`layer::Layer`]s that each transform an in-flight message and
//! forward it downstream, terminated by a [`handler::Handler`] that consumes
//! the final value.  Ordinary transform functions become stages through the
//! adapters in [`fn_handler`] and [`fn_layer`], chains are wired with
//! [`layer::connect`] or the variadic builder in [`chain`], and every stage of
//! a chain shares one error type that is propagated verbatim: when a stage
//! fails, no stage after it runs.
//!
//! The contracts of the traits pin this behaviour down: each handler carries a
//! relation describing the results a call may produce, each layer a relation
//! describing the handlers a build may produce, and the composition operators
//! state their results in terms of those relations.
//!
//! The [`pipe`] and [`fn_pipe`] modules keep the pipe-shaped spelling of the
//! same abstraction, and [`config`] holds the connection configuration with
//! its builders.

pub use chain::apply;

pub mod chain;
pub mod config;
pub mod fn_handler;
pub mod fn_layer;
pub mod fn_pipe;
pub mod handler;
pub mod layer;
pub mod pipe;
