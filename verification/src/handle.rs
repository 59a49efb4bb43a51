//! Scope-bounded references to engine-managed values.
//!
//! A [`Handle`] wraps an engine reference and is statically tagged with the
//! kind of value it is known to point at. Handles are byte-copy-cheap, carry
//! nothing beyond their underlying [`Local`], and every operation on them is
//! gated by the issuing [`Context`]. Well-formedness of a handle under an
//! engine state — the reference points into the store and the kind's runtime
//! test accepts the slot's data — is this module's central invariant; it is
//! preserved by every engine operation because the store only grows.

use core::marker::PhantomData;
use vstd::prelude::*;
use crate::context::Context;
use crate::host::{data_at, local_valid, strict_eq, EnvV, ExceptionV, Local};
use crate::kinds::{downcast_msg, downcast_ok, kind_accepts, kind_test};
use crate::result::{JsResult, NeonResult, ResultExt};
use crate::types::{SuperType, Value};
use crate::context::ContextV;
use crate::host::env_with_pending;

verus! {

/// A handle to a value owned by the engine, known to be of kind `T`.
#[derive(Clone, Copy)]
pub struct Handle<T: Value> {
    value: T,
}

/// An error representing a failed downcast. It formally retains the source
/// and target kinds — they name themselves in the error message — but
/// carries no runtime data.
pub struct DowncastError<F: Value, T: Value> {
    phantom_from: PhantomData<F>,
    phantom_to: PhantomData<T>,
}

impl<F: Value, T: Value> DowncastError<F, T> {
    pub(crate) fn new() -> Self {
        DowncastError { phantom_from: PhantomData, phantom_to: PhantomData }
    }

    /// The error's message: `failed to downcast <source> to <target>`,
    /// naming the static source and target kinds.
    pub fn message(&self) -> (r: String)
        ensures
            r@ == downcast_msg(F::spec_kind(), T::spec_kind()),
    {
        crate::kinds::format_downcast_msg(F::kind(), T::kind())
    }
}

/// The result of a fallible downcast.
pub type DowncastResult<F, T> = Result<Handle<T>, DowncastError<F, T>>;

impl<F: Value, U: Value> ResultExt<Handle<U>> for DowncastResult<F, U> {
    open spec fn ok_part(self) -> Option<Handle<U>> {
        match self {
            Ok(h) => Some(h),
            Err(_) => None,
        }
    }

    open spec fn thrown(self) -> ExceptionV {
        ExceptionV::TypeError(downcast_msg(F::spec_kind(), U::spec_kind()))
    }

    open spec fn res_wf(self, e: EnvV) -> bool {
        true
    }

    fn or_throw(self, cx: &mut Context) -> (r: NeonResult<Handle<U>>) {
        match self {
            Ok(v) => Ok(v),
            Err(e) => cx.throw_type_error(e.message().as_str()),
        }
    }
}

impl<T: Value> Handle<T> {
    /// The underlying engine reference.
    pub closed spec fn spec_local(self) -> Local {
        self.value.spec_local()
    }

    /// The handle is valid under engine state `e`: it points into the store
    /// and the kind's runtime test accepts the slot's data.
    pub open spec fn wf(self, e: EnvV) -> bool {
        &&& local_valid(e, self.spec_local())
        &&& kind_accepts(T::spec_kind(), data_at(e, self.spec_local()))
    }

    pub(crate) fn new_internal(value: T) -> (h: Handle<T>)
        ensures
            h.spec_local() == value.spec_local(),
    {
        Handle { value }
    }

    /// The wrapped value, exposing the kind's own operations.
    pub fn deref(&self) -> (v: &T)
        ensures
            v.spec_local() == self.spec_local(),
    {
        &self.value
    }

    /// The underlying engine reference, as a value.
    pub fn local(&self) -> (l: Local)
        ensures
            l == self.spec_local(),
    {
        self.value.to_local()
    }

    /// Safely upcast to a supertype.
    ///
    /// This is a pure compile-time conversion: it needs no context, consults
    /// the engine for nothing, and the result wraps the identical `Local`.
    pub fn upcast<U: Value + SuperType<T>>(&self) -> (r: Handle<U>)
        ensures
            r.spec_local() == self.spec_local(),
            forall|e: EnvV| self.wf(e) ==> #[trigger] r.wf(e),
    {
        let r = Handle::new_internal(U::from_local(self.value.to_local()));
        proof {
            assert forall|e: EnvV| self.wf(e) implies #[trigger] r.wf(e) by {
                U::lemma_subsumes(data_at(e, self.spec_local()));
            };
        }
        r
    }

    /// Tests whether this value is an instance of the kind `U`, by
    /// dispatching `U`'s runtime type test; the engine state is untouched.
    pub fn is_a<U: Value>(&self, cx: &mut Context) -> (r: bool)
        requires
            old(cx).wf(),
            old(cx).ok(),
            self.wf(old(cx)@.env),
        ensures
            *final(cx) == *old(cx),
            r == kind_accepts(U::spec_kind(), data_at(old(cx)@.env, self.spec_local())),
    {
        kind_test(U::kind(), cx.env_ref().data_ref(self.local()))
    }

    /// Attempts to downcast to kind `U`. A failed downcast does **not**
    /// throw: the engine's exception state is never perturbed, so the caller
    /// may keep interacting with the engine after an `Err`.
    pub fn downcast<U: Value>(&self, cx: &mut Context) -> (r: DowncastResult<T, U>)
        requires
            old(cx).wf(),
            old(cx).ok(),
            self.wf(old(cx)@.env),
        ensures
            *final(cx) == *old(cx),
            match r {
                Ok(h) => downcast_ok(U::spec_kind(), data_at(old(cx)@.env, self.spec_local()))
                    && h.spec_local() == self.spec_local() && h.wf(old(cx)@.env),
                Err(_) => !downcast_ok(U::spec_kind(), data_at(old(cx)@.env, self.spec_local())),
            },
    {
        if self.is_a::<U>(cx) {
            Ok(Handle::new_internal(U::from_local(self.value.to_local())))
        } else {
            Err(DowncastError::new())
        }
    }

    /// Downcasts to kind `U`, throwing a `TypeError` on mismatch; shorthand
    /// for `downcast` followed by `or_throw`.
    pub fn downcast_or_throw<U: Value>(&self, cx: &mut Context) -> (r: JsResult<U>)
        requires
            old(cx).wf(),
            old(cx).ok(),
            self.wf(old(cx)@.env),
        ensures
            final(cx).wf(),
            if downcast_ok(U::spec_kind(), data_at(old(cx)@.env, self.spec_local())) {
                *final(cx) == *old(cx) && r is Ok && r->Ok_0.spec_local() == self.spec_local()
                    && r->Ok_0.wf(final(cx)@.env)
            } else {
                r is Err && final(cx)@ == (ContextV {
                    env: env_with_pending(
                        old(cx)@.env,
                        ExceptionV::TypeError(downcast_msg(T::spec_kind(), U::spec_kind())),
                    ),
                    args: old(cx)@.args,
                })
            },
    {
        self.downcast(cx).or_throw(cx)
    }

    /// Converts the value to a string through the host's to-string
    /// conversion, as JavaScript `String(v)` does.
    pub fn to_string(&self, cx: &mut Context) -> (r: JsResult<crate::types::JsString>)
        requires
            old(cx).wf(),
            old(cx).ok(),
            local_valid(old(cx)@.env, self.spec_local()),
        ensures
            final(cx).wf(),
            final(cx).ok(),
            final(cx)@ == crate::context::cx_push(
                old(cx)@,
                crate::host::ValueDataV::Str(
                    crate::host::spec_to_string(data_at(old(cx)@.env, self.spec_local())),
                ),
            ),
            r is Ok,
            r->Ok_0.spec_local() == crate::host::local_at(old(cx)@.env.values.len()),
            r->Ok_0.wf(final(cx)@.env),
    {
        let l = cx.raw_convert_to_string(self.local());
        Ok(Handle::new_internal(crate::types::JsString::from_local(l)))
    }

    /// Whether the engine's strict-equality predicate relates the two
    /// underlying values.
    pub fn strict_equals<U: Value>(&self, cx: &mut Context, other: Handle<U>) -> (r: bool)
        requires
            old(cx).wf(),
            old(cx).ok(),
            local_valid(old(cx)@.env, self.spec_local()),
            local_valid(old(cx)@.env, other.spec_local()),
        ensures
            *final(cx) == *old(cx),
            r == strict_eq(old(cx)@.env, self.spec_local(), other.spec_local()),
    {
        cx.env_ref().strict_equals_raw(self.local(), other.local())
    }
}

/// Two handles of one kind wrapping the same engine reference are equal:
/// a handle carries nothing besides its `Local`.
pub proof fn lemma_handle_eq<T: Value>(a: Handle<T>, b: Handle<T>)
    requires
        a.spec_local() == b.spec_local(),
    ensures
        a == b,
{
    T::lemma_transparent(a.value, b.value);
}

/// A handle stays well formed when the store grows: slots are never mutated
/// or removed, so whatever an extension of the state says about new slots,
/// the handle's slot and data are unchanged.
pub proof fn lemma_handle_wf_mono<T: Value>(h: Handle<T>, e: EnvV, e2: EnvV)
    requires
        h.wf(e),
        crate::host::env_extends(e2, e),
    ensures
        h.wf(e2),
{
}

} // verus!
