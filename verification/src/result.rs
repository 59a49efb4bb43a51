//! The unified failure type of every throwing operation, and the adapter
//! trait that lifts foreign fallible outcomes into it.

use vstd::prelude::*;
use crate::context::{Context, ContextV};
use crate::handle::Handle;
use crate::host::{env_with_pending, local_valid, EnvV, ExceptionV};
use crate::types::Value;

verus! {

/// A unit marker indicating that the host is in a pending-exception state.
///
/// A `Throw` carries no payload — the exception value lives in the host —
/// and is deliberately not composable with other error types: holding one
/// means engine operations are forbidden until it propagates out to a
/// context boundary that can clear or surface it. Every constructor in this
/// crate pins that down: a function returns `Err(Throw)` exactly when its
/// contract says the host's pending-exception state was entered.
#[derive(Debug)]
pub struct Throw;

impl Throw {
    pub(crate) fn new() -> Throw {
        Throw
    }
}

/// The result type for throwing operations.
pub type NeonResult<T> = Result<T, Throw>;

/// Shorthand for a [`NeonResult`] that produces a handle.
pub type JsResult<T> = NeonResult<Handle<T>>;

/// Converts a foreign fallible outcome into a [`NeonResult`] by throwing the
/// exception the outcome stands for.
///
/// Each implementation names, at the specification level, the successful
/// value it carries ([`ResultExt::ok_part`]) and the exception it throws
/// otherwise ([`ResultExt::thrown`]); `or_throw` either returns the value
/// with the context untouched or enters exactly that pending-exception state.
pub trait ResultExt<T>: Sized {
    /// The successful value this outcome carries, if any.
    spec fn ok_part(self) -> Option<T>;

    /// The exception thrown when there is no successful value.
    spec fn thrown(self) -> ExceptionV;

    /// Every engine reference this outcome carries points into the store.
    spec fn res_wf(self, e: EnvV) -> bool;

    fn or_throw(self, cx: &mut Context) -> (r: NeonResult<T>)
        requires
            old(cx).wf(),
            old(cx).ok(),
            self.res_wf(old(cx)@.env),
        ensures
            match self.ok_part() {
                Some(v) => r == Ok::<T, Throw>(v) && *final(cx) == *old(cx),
                None => r is Err && final(cx).wf() && final(cx)@ == (ContextV {
                    env: env_with_pending(old(cx)@.env, self.thrown()),
                    args: old(cx)@.args,
                }),
            },
    ;
}

impl<T: Value, E: Value> ResultExt<Handle<T>> for Result<Handle<T>, Handle<E>> {
    open spec fn ok_part(self) -> Option<Handle<T>> {
        match self {
            Ok(h) => Some(h),
            Err(_) => None,
        }
    }

    open spec fn thrown(self) -> ExceptionV {
        match self {
            Ok(_) => ExceptionV::Thrown(local_at_dummy()),
            Err(h) => ExceptionV::Thrown(h.spec_local()),
        }
    }

    open spec fn res_wf(self, e: EnvV) -> bool {
        match self {
            Ok(_) => true,
            Err(h) => local_valid(e, h.spec_local()),
        }
    }

    fn or_throw(self, cx: &mut Context) -> (r: NeonResult<Handle<T>>) {
        match self {
            Ok(v) => Ok(v),
            Err(err) => cx.throw(err),
        }
    }
}

/// An arbitrary reference, standing in where no exception is thrown.
pub open spec fn local_at_dummy() -> crate::host::Local {
    crate::host::local_at(0)
}

} // verus!
