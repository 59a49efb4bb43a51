//! The context: the entry token through which every engine operation flows.
//!
//! A [`Context`] owns the host engine state for the duration of one
//! invocation from the host, together with the argument list of that
//! invocation. Every operation that may allocate, invoke, throw or observe
//! values takes the context by exclusive reference, and no operation is
//! permitted while the host is in a pending-exception state.

use vstd::prelude::*;
use vstd::string::StringExecFns;
use crate::handle::Handle;
use crate::host::{
    data_at, data_wf, env_extends, env_push, env_with_pending, local_at, local_valid,
    spec_array_new, spec_fun_call, spec_fun_construct, spec_to_string, string_fits, CallRecord,
    Env, EnvV, Exception, ExceptionV, Local, ValueData, ValueDataV,
};
use crate::result::{ResultExt, Throw};
use crate::types::{JsArray, JsObject, JsString, JsUndefined, JsValue, StringOverflow, Value};
use crate::kinds::overflow_msg;

verus! {

/// The mathematical state of a context: the engine state and the caller's
/// argument list.
#[verifier::ext_equal]
pub struct ContextV {
    pub env: EnvV,
    pub args: Seq<Local>,
}

/// The state after the engine allocates one slot; the argument list is
/// untouched.
pub open spec fn cx_push(c: ContextV, d: ValueDataV) -> ContextV {
    ContextV { env: env_push(c.env, d), args: c.args }
}

/// The state after the engine enters a pending-exception state.
pub open spec fn cx_throw(c: ContextV, x: ExceptionV) -> ContextV {
    ContextV { env: env_with_pending(c.env, x), args: c.args }
}

/// The token granting permission to invoke engine operations. It owns the
/// host engine state and the argument list of the current invocation.
pub struct Context {
    env: Env,
    args: Vec<Local>,
}

impl View for Context {
    type V = ContextV;

    closed spec fn view(&self) -> ContextV {
        ContextV { env: self.env@, args: self.args@ }
    }
}

impl Context {
    /// The engine state is well formed and every staged argument points into
    /// the store.
    pub open spec fn wf(self) -> bool {
        &&& self@.env.wf()
        &&& forall|i: int|
            0 <= i < self@.args.len() ==> local_valid(self@.env, #[trigger] self@.args[i])
    }

    /// No exception is pending: engine operations are allowed.
    pub open spec fn ok(self) -> bool {
        self@.env.ok()
    }

    /// A fresh context over an empty engine state, as the host constructs it
    /// before entering an addon.
    pub fn new() -> (cx: Context)
        ensures
            cx.wf(),
            cx.ok(),
            cx@.env.values.len() == 0,
            cx@.env.calls.len() == 0,
            cx@.args.len() == 0,
    {
        Context { env: Env::new(), args: Vec::new() }
    }

    /// Host-side: appends a value to the argument list of the staged
    /// invocation, so that the addon can read it back with [`Context::argument`].
    pub fn stage_argument(&mut self, v: Handle<JsValue>)
        requires
            old(self).wf(),
            v.wf(old(self)@.env),
        ensures
            final(self).wf(),
            final(self)@ == (ContextV {
                env: old(self)@.env,
                args: old(self)@.args.push(v.spec_local()),
            }),
            final(self).ok() == old(self).ok(),
    {
        let l = v.local();
        self.args.push(l);
        proof {
            assert(self@.args =~= old(self)@.args.push(v.spec_local()));
            assert(self@ == (ContextV {
                env: old(self)@.env,
                args: old(self)@.args.push(v.spec_local()),
            }));
        }
    }

    pub(crate) fn env_ref(&self) -> (e: &Env)
        ensures
            e@ == self@.env,
    {
        &self.env
    }

    /// Allocates one slot; the engine operation behind every primitive
    /// constructor.
    pub(crate) fn alloc_value(&mut self, d: ValueData) -> (l: Local)
        requires
            old(self).wf(),
            old(self).ok(),
            data_wf(old(self)@.env, d@),
        ensures
            final(self)@ == cx_push(old(self)@, d@),
            final(self).wf(),
            final(self).ok(),
            l == local_at(old(self)@.env.values.len()),
            local_valid(final(self)@.env, l),
            data_at(final(self)@.env, l) == d@,
            env_extends(final(self)@.env, old(self)@.env),
    {
        let l = self.env.push_value(d);
        proof {
            assert(self@ == cx_push(old(self)@, d@));
        }
        l
    }

    /// Allocates a string slot, or reports (with the engine untouched) that
    /// the host's maximum string size is exceeded.
    pub(crate) fn raw_string_new(&mut self, s: &str) -> (r: Option<Local>)
        requires
            old(self).wf(),
            old(self).ok(),
        ensures
            final(self).wf(),
            final(self).ok(),
            final(self)@.args == old(self)@.args,
            match r {
                Some(l) => string_fits(s@) && final(self)@ == cx_push(
                    old(self)@,
                    ValueDataV::Str(s@),
                ) && l == local_at(old(self)@.env.values.len()) && local_valid(
                    final(self)@.env,
                    l,
                ) && data_at(final(self)@.env, l) == ValueDataV::Str(s@),
                None => !string_fits(s@) && *final(self) == *old(self),
            },
    {
        let r = self.env.string_new(s);
        proof {
            if r is Some {
                assert(self@ == cx_push(old(self)@, ValueDataV::Str(s@)));
            }
        }
        r
    }

    /// Allocates an array of `len` undefined elements.
    pub(crate) fn raw_array_new(&mut self, len: u32) -> (r: Local)
        requires
            old(self).wf(),
            old(self).ok(),
        ensures
            final(self)@.env == spec_array_new(old(self)@.env, len as nat).0,
            r == spec_array_new(old(self)@.env, len as nat).1,
            final(self)@.args == old(self)@.args,
            final(self).wf(),
            final(self).ok(),
            local_valid(final(self)@.env, r),
            data_at(final(self)@.env, r) is Array,
            env_extends(final(self)@.env, old(self)@.env),
    {
        let r = self.env.array_new(len);
        proof {
            assert forall|i: int|
                0 <= i < self@.args.len() implies local_valid(
                self@.env,
                #[trigger] self@.args[i],
            ) by {
                assert(local_valid(old(self)@.env, old(self)@.args[i]));
            };
        }
        r
    }

    /// Invokes a function value.
    pub(crate) fn raw_fun_call(&mut self, callee: Local, this_arg: Local, args: &Vec<Local>) -> (r:
        Option<Local>)
        requires
            old(self).wf(),
            old(self).ok(),
            local_valid(old(self)@.env, callee),
            data_at(old(self)@.env, callee) is Function,
            local_valid(old(self)@.env, this_arg),
            forall|i: int| 0 <= i < args@.len() ==> local_valid(old(self)@.env, #[trigger] args@[i]),
            args@.len() <= 65535,
        ensures
            final(self)@.env == spec_fun_call(old(self)@.env, callee, this_arg, args@).0,
            r == spec_fun_call(old(self)@.env, callee, this_arg, args@).1,
            final(self)@.args == old(self)@.args,
            final(self).wf(),
            env_extends(final(self)@.env, old(self)@.env),
            match r {
                Some(l) => final(self).ok() && local_valid(final(self)@.env, l),
                None => !final(self).ok(),
            },
    {
        let r = self.env.fun_call(callee, this_arg, args);
        proof {
            assert forall|i: int|
                0 <= i < self@.args.len() implies local_valid(
                self@.env,
                #[trigger] self@.args[i],
            ) by {
                assert(local_valid(old(self)@.env, old(self)@.args[i]));
            };
        }
        r
    }

    /// Invokes a function value as a constructor.
    pub(crate) fn raw_fun_construct(&mut self, callee: Local, args: &Vec<Local>) -> (r: Option<
        Local,
    >)
        requires
            old(self).wf(),
            old(self).ok(),
            local_valid(old(self)@.env, callee),
            data_at(old(self)@.env, callee) is Function,
            forall|i: int| 0 <= i < args@.len() ==> local_valid(old(self)@.env, #[trigger] args@[i]),
            args@.len() <= 65535,
        ensures
            final(self)@.env == spec_fun_construct(old(self)@.env, callee, args@).0,
            r == spec_fun_construct(old(self)@.env, callee, args@).1,
            final(self)@.args == old(self)@.args,
            final(self).wf(),
            env_extends(final(self)@.env, old(self)@.env),
            match r {
                Some(l) => final(self).ok() && local_valid(final(self)@.env, l) && (data_at(
                    final(self)@.env,
                    l,
                ) is Object || data_at(final(self)@.env, l) is Array),
                None => !final(self).ok(),
            },
    {
        let r = self.env.fun_construct(callee, args);
        proof {
            assert forall|i: int|
                0 <= i < self@.args.len() implies local_valid(
                self@.env,
                #[trigger] self@.args[i],
            ) by {
                assert(local_valid(old(self)@.env, old(self)@.args[i]));
            };
        }
        r
    }

    /// Converts the value in a slot to a string, allocating the result.
    pub(crate) fn raw_convert_to_string(&mut self, l: Local) -> (r: Local)
        requires
            old(self).wf(),
            old(self).ok(),
            local_valid(old(self)@.env, l),
        ensures
            final(self)@ == cx_push(
                old(self)@,
                ValueDataV::Str(spec_to_string(data_at(old(self)@.env, l))),
            ),
            final(self).wf(),
            final(self).ok(),
            r == local_at(old(self)@.env.values.len()),
            local_valid(final(self)@.env, r),
            data_at(final(self)@.env, r) == ValueDataV::Str(
                spec_to_string(data_at(old(self)@.env, l)),
            ),
    {
        let r = self.env.convert_to_string(l);
        proof {
            assert(self@ == cx_push(
                old(self)@,
                ValueDataV::Str(spec_to_string(data_at(old(self)@.env, l))),
            ));
        }
        r
    }

    /// Sets the host's exception state to a `TypeError` carrying `msg` and
    /// returns the unified failure marker.
    pub fn throw_type_error<T>(&mut self, msg: &str) -> (r: Result<T, Throw>)
        requires
            old(self).wf(),
            old(self).ok(),
        ensures
            r is Err,
            final(self)@ == cx_throw(old(self)@, ExceptionV::TypeError(msg@)),
            final(self).wf(),
    {
        self.env.set_pending(Exception::TypeError(String::from_str(msg)));
        proof {
            assert(self@ == cx_throw(old(self)@, ExceptionV::TypeError(msg@)));
        }
        Err(Throw::new())
    }

    /// Sets the host's exception state to a `RangeError` carrying `msg` and
    /// returns the unified failure marker.
    pub fn throw_range_error<T>(&mut self, msg: &str) -> (r: Result<T, Throw>)
        requires
            old(self).wf(),
            old(self).ok(),
        ensures
            r is Err,
            final(self)@ == cx_throw(old(self)@, ExceptionV::RangeError(msg@)),
            final(self).wf(),
    {
        self.env.set_pending(Exception::RangeError(String::from_str(msg)));
        proof {
            assert(self@ == cx_throw(old(self)@, ExceptionV::RangeError(msg@)));
        }
        Err(Throw::new())
    }

    /// Throws an arbitrary value: the host's exception state now holds it.
    pub fn throw<T, E: Value>(&mut self, v: Handle<E>) -> (r: Result<T, Throw>)
        requires
            old(self).wf(),
            old(self).ok(),
            local_valid(old(self)@.env, v.spec_local()),
        ensures
            r is Err,
            final(self)@ == cx_throw(old(self)@, ExceptionV::Thrown(v.spec_local())),
            final(self).wf(),
    {
        self.env.set_pending(Exception::Thrown(v.local()));
        proof {
            assert(self@ == cx_throw(old(self)@, ExceptionV::Thrown(v.spec_local())));
        }
        Err(Throw::new())
    }

    /// Whether the host is in a pending-exception state.
    pub fn has_pending_exception(&self) -> (r: bool)
        ensures
            r == !self.ok(),
    {
        self.env.is_pending()
    }

    /// Host-side: leaves the pending-exception state and surfaces the
    /// exception, as the host does when the addon's invocation returns.
    pub fn take_pending_exception(&mut self) -> (r: Option<Exception>)
        requires
            old(self).wf(),
        ensures
            final(self).wf(),
            final(self).ok(),
            final(self)@ == (ContextV {
                env: EnvV { pending: None, ..old(self)@.env },
                args: old(self)@.args,
            }),
            match r {
                Some(x) => old(self)@.env.pending == Some(x@),
                None => old(self)@.env.pending is None,
            },
    {
        let r = self.env.take_pending();
        proof {
            assert(self@ == (ContextV {
                env: EnvV { pending: None, ..old(self)@.env },
                args: old(self)@.args,
            }));
        }
        r
    }

    /// How many function invocations the host has performed.
    pub fn host_call_count(&self) -> (n: usize)
        ensures
            n == self@.env.calls.len(),
    {
        self.env.call_count()
    }

    /// One entry of the host's invocation log, oldest first.
    pub fn host_call(&self, i: usize) -> (c: &CallRecord)
        requires
            i < self@.env.calls.len(),
        ensures
            c@ == self@.env.calls[i as int],
    {
        self.env.call_ref(i)
    }

    /// Reads the `i`-th argument of the current invocation, throwing when
    /// the index is beyond the caller's arity.
    pub fn argument(&mut self, i: usize) -> (r: Result<Handle<JsValue>, Throw>)
        requires
            old(self).wf(),
            old(self).ok(),
        ensures
            final(self).wf(),
            match r {
                Ok(h) => i < old(self)@.args.len() && *final(self) == *old(self) && h.spec_local()
                    == old(self)@.args[i as int] && h.wf(final(self)@.env),
                Err(_) => i >= old(self)@.args.len() && final(self)@ == cx_throw(
                    old(self)@,
                    ExceptionV::TypeError("not enough arguments"@),
                ),
            },
    {
        if i < self.args.len() {
            let l = self.args[i];
            Ok(Handle::new_internal(JsValue::from_local(l)))
        } else {
            self.throw_type_error("not enough arguments")
        }
    }

    /// Materializes `undefined`.
    pub fn undefined(&mut self) -> (h: Handle<JsUndefined>)
        requires
            old(self).wf(),
            old(self).ok(),
        ensures
            final(self)@ == cx_push(old(self)@, ValueDataV::Undefined),
            final(self).wf(),
            final(self).ok(),
            h.spec_local() == local_at(old(self)@.env.values.len()),
            h.wf(final(self)@.env),
            data_at(final(self)@.env, h.spec_local()) == ValueDataV::Undefined,
    {
        JsUndefined::new(self)
    }

    /// Materializes `null`.
    pub fn null(&mut self) -> (h: Handle<crate::types::JsNull>)
        requires
            old(self).wf(),
            old(self).ok(),
        ensures
            final(self)@ == cx_push(old(self)@, ValueDataV::Null),
            final(self).wf(),
            final(self).ok(),
            h.spec_local() == local_at(old(self)@.env.values.len()),
            h.wf(final(self)@.env),
            data_at(final(self)@.env, h.spec_local()) == ValueDataV::Null,
    {
        crate::types::JsNull::new(self)
    }

    /// Materializes a boolean.
    pub fn boolean(&mut self, b: bool) -> (h: Handle<crate::types::JsBoolean>)
        requires
            old(self).wf(),
            old(self).ok(),
        ensures
            final(self)@ == cx_push(old(self)@, ValueDataV::Boolean(b)),
            final(self).wf(),
            final(self).ok(),
            h.spec_local() == local_at(old(self)@.env.values.len()),
            h.wf(final(self)@.env),
            data_at(final(self)@.env, h.spec_local()) == ValueDataV::Boolean(b),
    {
        crate::types::JsBoolean::new(self, b)
    }

    /// Materializes a number from the bit pattern of an IEEE-754 double.
    pub fn number(&mut self, bits: u64) -> (h: Handle<crate::types::JsNumber>)
        requires
            old(self).wf(),
            old(self).ok(),
        ensures
            final(self)@ == cx_push(old(self)@, ValueDataV::Number(bits)),
            final(self).wf(),
            final(self).ok(),
            h.spec_local() == local_at(old(self)@.env.values.len()),
            h.wf(final(self)@.env),
            data_at(final(self)@.env, h.spec_local()) == ValueDataV::Number(bits),
    {
        crate::types::JsNumber::new(self, bits)
    }

    /// Materializes a string, throwing a `RangeError` when its size exceeds
    /// the host's maximum.
    pub fn string(&mut self, s: &str) -> (r: Result<Handle<JsString>, Throw>)
        requires
            old(self).wf(),
            old(self).ok(),
        ensures
            final(self).wf(),
            match r {
                Ok(h) => string_fits(s@) && final(self)@ == cx_push(old(self)@, ValueDataV::Str(s@))
                    && h.spec_local() == local_at(old(self)@.env.values.len()) && h.wf(
                    final(self)@.env,
                ) && final(self).ok() && data_at(final(self)@.env, h.spec_local())
                    == ValueDataV::Str(s@),
                Err(_) => !string_fits(s@) && final(self)@ == cx_throw(
                    old(self)@,
                    ExceptionV::RangeError(overflow_msg(vstd::utf8::encode_utf8(s@).len())),
                ),
            },
    {
        let r = self.try_string(s);
        r.or_throw(self)
    }

    /// Attempts to materialize a string, reporting an oversize string as a
    /// plain [`StringOverflow`] value without touching the engine.
    pub fn try_string(&mut self, s: &str) -> (r: Result<Handle<JsString>, StringOverflow>)
        requires
            old(self).wf(),
            old(self).ok(),
        ensures
            final(self).wf(),
            match r {
                Ok(h) => string_fits(s@) && final(self)@ == cx_push(old(self)@, ValueDataV::Str(s@))
                    && h.spec_local() == local_at(old(self)@.env.values.len()) && h.wf(
                    final(self)@.env,
                ) && final(self).ok() && data_at(final(self)@.env, h.spec_local())
                    == ValueDataV::Str(s@),
                Err(o) => !string_fits(s@) && *final(self) == *old(self) && o.0
                    == vstd::utf8::encode_utf8(s@).len(),
            },
    {
        JsString::try_new(self, s)
    }

    /// Materializes an empty object.
    pub fn empty_object(&mut self) -> (h: Handle<JsObject>)
        requires
            old(self).wf(),
            old(self).ok(),
        ensures
            final(self)@ == cx_push(old(self)@, ValueDataV::Object),
            final(self).wf(),
            final(self).ok(),
            h.spec_local() == local_at(old(self)@.env.values.len()),
            h.wf(final(self)@.env),
            data_at(final(self)@.env, h.spec_local()) == ValueDataV::Object,
    {
        JsObject::new(self)
    }

    /// Materializes an array of `len` elements, each initially `undefined`.
    pub fn empty_array(&mut self, len: u32) -> (h: Handle<JsArray>)
        requires
            old(self).wf(),
            old(self).ok(),
        ensures
            final(self)@.env == spec_array_new(old(self)@.env, len as nat).0,
            final(self)@.args == old(self)@.args,
            final(self).wf(),
            final(self).ok(),
            h.spec_local() == spec_array_new(old(self)@.env, len as nat).1,
            h.wf(final(self)@.env),
    {
        JsArray::new(self, len)
    }
}

} // verus!
