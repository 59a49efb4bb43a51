//! A scope-and-handle core for embedding native code in a JavaScript host.
//!
//! The crate models the value-handle and context system of a native-addon
//! framework: scope-bounded handles over engine-managed values, a context
//! token that gates every engine operation, a static type hierarchy with
//! infallible upcasts and checked downcasts, a unified exception-propagation
//! discipline, and a fluent builder for function calls.
//!
//! The engine itself is a deterministic in-process host model (see [`host`]):
//! a slot store of JavaScript values together with the pending-exception
//! state and a log of function invocations. Every operation of the public
//! API carries a contract over that model, and the invariants of the
//! handle system are proved against it.

pub mod host;

pub mod numbits;

pub mod text;

pub mod kinds;

pub mod result;

pub mod handle;

pub mod context;

pub mod types;

pub mod laws;
