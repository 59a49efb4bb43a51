//! The JavaScript value types, the static type hierarchy over them, and the
//! function-call builder protocol.

use vstd::prelude::*;
use crate::context::{cx_push, cx_throw, Context};
use crate::handle::Handle;
use crate::host::{
    data_at, data_wf, env_push, env_with_pending, local_at, local_valid, spec_array_new, spec_fun_call,
    spec_fun_construct, string_fits, Env, EnvV, ExceptionV, Local, NativeFn, ValueData, ValueDataV,
};
use crate::kinds::{
    data_kind, data_kind_of, downcast_msg, format_downcast_msg, format_overflow_msg, kind_accepts, kind_name,
    object_shaped, overflow_msg, spec_kind_name, Kind,
};
use crate::result::{JsResult, NeonResult, ResultExt, Throw};

verus! {

/// Maximum number of positional arguments the host accepts for one call.
pub const V8_ARGC_LIMIT: usize = 65535;

/// The trait shared by all JavaScript value types: a kind tag, and a
/// one-to-one correspondence with the engine reference the value wraps.
pub trait Value: Sized + Copy {
    /// The kind tag of this value type.
    spec fn spec_kind() -> Kind;

    /// The underlying engine reference.
    spec fn spec_local(self) -> Local;

    /// The kind tag, at runtime.
    fn kind() -> (k: Kind)
        ensures
            k == Self::spec_kind(),
    ;

    fn to_local(self) -> (l: Local)
        ensures
            l == self.spec_local(),
    ;

    fn from_local(l: Local) -> (v: Self)
        ensures
            v.spec_local() == l,
    ;

    /// ABI transparency: a value of this type carries nothing beyond its
    /// engine reference, so the reference determines the value.
    proof fn lemma_transparent(a: Self, b: Self)
        requires
            a.spec_local() == b.spec_local(),
        ensures
            a == b,
    ;

    /// The kind's display name, as used in error messages.
    fn name() -> (r: &'static str)
        ensures
            r@ == spec_kind_name(Self::spec_kind()),
    {
        kind_name(Self::kind())
    }

}

/// The trait of object-shaped value types: everything their kinds accept is
/// accepted by the `Object` kind too.
pub trait Object: Value {
    proof fn lemma_object_shaped(d: ValueDataV)
        ensures
            kind_accepts(Self::spec_kind(), d) ==> object_shaped(d),
    ;
}

/// The static supertype relation: `Self` is a supertype of `T`, so an upcast
/// from `T` to `Self` is infallible. The obligation carried by an
/// implementation is that `Self`'s runtime type test accepts everything
/// `T`'s accepts.
pub trait SuperType<T: Value>: Value {
    proof fn lemma_subsumes(d: ValueDataV)
        ensures
            kind_accepts(T::spec_kind(), d) ==> kind_accepts(Self::spec_kind(), d),
    ;
}

/// A JavaScript value of any type: the top of the hierarchy.
#[derive(Clone, Copy)]
pub struct JsValue {
    raw: Local,
}

impl Value for JsValue {
    open spec fn spec_kind() -> Kind {
        Kind::Any
    }

    closed spec fn spec_local(self) -> Local {
        self.raw
    }

    fn kind() -> Kind {
        Kind::Any
    }

    fn to_local(self) -> Local {
        self.raw
    }

    fn from_local(l: Local) -> Self {
        JsValue { raw: l }
    }

    proof fn lemma_transparent(a: Self, b: Self) {
    }
}

/// Every kind upcasts to `Any`.
impl<T: Value> SuperType<T> for JsValue {
    proof fn lemma_subsumes(d: ValueDataV) {
    }
}

/// The JavaScript `undefined` value.
#[derive(Clone, Copy)]
pub struct JsUndefined {
    raw: Local,
}

impl Value for JsUndefined {
    open spec fn spec_kind() -> Kind {
        Kind::Undefined
    }

    closed spec fn spec_local(self) -> Local {
        self.raw
    }

    fn kind() -> Kind {
        Kind::Undefined
    }

    fn to_local(self) -> Local {
        self.raw
    }

    fn from_local(l: Local) -> Self {
        JsUndefined { raw: l }
    }

    proof fn lemma_transparent(a: Self, b: Self) {
    }
}

impl JsUndefined {
    /// Materializes `undefined`.
    pub fn new(cx: &mut Context) -> (h: Handle<JsUndefined>)
        requires
            old(cx).wf(),
            old(cx).ok(),
        ensures
            final(cx)@ == cx_push(old(cx)@, ValueDataV::Undefined),
            final(cx).wf(),
            final(cx).ok(),
            h.spec_local() == local_at(old(cx)@.env.values.len()),
            h.wf(final(cx)@.env),
            data_at(final(cx)@.env, h.spec_local()) == ValueDataV::Undefined,
    {
        let l = cx.alloc_value(ValueData::Undefined);
        Handle::new_internal(JsUndefined::from_local(l))
    }
}

/// The JavaScript `null` value.
#[derive(Clone, Copy)]
pub struct JsNull {
    raw: Local,
}

impl Value for JsNull {
    open spec fn spec_kind() -> Kind {
        Kind::Null
    }

    closed spec fn spec_local(self) -> Local {
        self.raw
    }

    fn kind() -> Kind {
        Kind::Null
    }

    fn to_local(self) -> Local {
        self.raw
    }

    fn from_local(l: Local) -> Self {
        JsNull { raw: l }
    }

    proof fn lemma_transparent(a: Self, b: Self) {
    }
}

impl JsNull {
    /// Materializes `null`.
    pub fn new(cx: &mut Context) -> (h: Handle<JsNull>)
        requires
            old(cx).wf(),
            old(cx).ok(),
        ensures
            final(cx)@ == cx_push(old(cx)@, ValueDataV::Null),
            final(cx).wf(),
            final(cx).ok(),
            h.spec_local() == local_at(old(cx)@.env.values.len()),
            h.wf(final(cx)@.env),
            data_at(final(cx)@.env, h.spec_local()) == ValueDataV::Null,
    {
        let l = cx.alloc_value(ValueData::Null);
        Handle::new_internal(JsNull::from_local(l))
    }
}

/// A JavaScript boolean primitive value.
#[derive(Clone, Copy)]
pub struct JsBoolean {
    raw: Local,
}

impl Value for JsBoolean {
    open spec fn spec_kind() -> Kind {
        Kind::Boolean
    }

    closed spec fn spec_local(self) -> Local {
        self.raw
    }

    fn kind() -> Kind {
        Kind::Boolean
    }

    fn to_local(self) -> Local {
        self.raw
    }

    fn from_local(l: Local) -> Self {
        JsBoolean { raw: l }
    }

    proof fn lemma_transparent(a: Self, b: Self) {
    }
}

impl JsBoolean {
    /// Materializes a boolean.
    pub fn new(cx: &mut Context, b: bool) -> (h: Handle<JsBoolean>)
        requires
            old(cx).wf(),
            old(cx).ok(),
        ensures
            final(cx)@ == cx_push(old(cx)@, ValueDataV::Boolean(b)),
            final(cx).wf(),
            final(cx).ok(),
            h.spec_local() == local_at(old(cx)@.env.values.len()),
            h.wf(final(cx)@.env),
            data_at(final(cx)@.env, h.spec_local()) == ValueDataV::Boolean(b),
    {
        let l = cx.alloc_value(ValueData::Boolean(b));
        Handle::new_internal(JsBoolean::from_local(l))
    }

    /// Reads the boolean back from the engine.
    pub fn value(self, cx: &mut Context) -> (b: bool)
        requires
            old(cx).wf(),
            old(cx).ok(),
            local_valid(old(cx)@.env, self.spec_local()),
            data_at(old(cx)@.env, self.spec_local()) is Boolean,
        ensures
            *final(cx) == *old(cx),
            b == data_at(old(cx)@.env, self.spec_local())->Boolean_0,
    {
        match cx.env_ref().data_ref(self.to_local()) {
            ValueData::Boolean(b) => *b,
            _ => {
                proof {
                    assert(false);
                }
                false
            },
        }
    }
}

/// An error produced when constructing a string that exceeds the host's
/// maximum string size; it carries the offending size in bytes.
#[derive(Clone, PartialEq, Eq, Structural, Debug)]
pub struct StringOverflow(pub usize);

impl StringOverflow {
    /// The error's message: `string size out of range: <size>`.
    pub fn message(&self) -> (r: String)
        ensures
            r@ == overflow_msg(self.0 as nat),
    {
        format_overflow_msg(self.0)
    }
}

/// The result of constructing a new string.
pub type StringResult = Result<Handle<JsString>, StringOverflow>;

impl ResultExt<Handle<JsString>> for StringResult {
    open spec fn ok_part(self) -> Option<Handle<JsString>> {
        match self {
            Ok(h) => Some(h),
            Err(_) => None,
        }
    }

    open spec fn thrown(self) -> ExceptionV {
        match self {
            Ok(_) => ExceptionV::RangeError(overflow_msg(0)),
            Err(o) => ExceptionV::RangeError(overflow_msg(o.0 as nat)),
        }
    }

    open spec fn res_wf(self, e: EnvV) -> bool {
        true
    }

    fn or_throw(self, cx: &mut Context) -> (r: NeonResult<Handle<JsString>>) {
        match self {
            Ok(v) => Ok(v),
            Err(o) => cx.throw_range_error(o.message().as_str()),
        }
    }
}

/// A JavaScript string primitive value.
#[derive(Clone, Copy)]
pub struct JsString {
    raw: Local,
}

impl Value for JsString {
    open spec fn spec_kind() -> Kind {
        Kind::Str
    }

    closed spec fn spec_local(self) -> Local {
        self.raw
    }

    fn kind() -> Kind {
        Kind::Str
    }

    fn to_local(self) -> Local {
        self.raw
    }

    fn from_local(l: Local) -> Self {
        JsString { raw: l }
    }

    proof fn lemma_transparent(a: Self, b: Self) {
    }
}

impl JsString {
    /// Materializes a string whose size the host accepts.
    pub fn new(cx: &mut Context, s: &str) -> (h: Handle<JsString>)
        requires
            old(cx).wf(),
            old(cx).ok(),
            string_fits(s@),
        ensures
            final(cx)@ == cx_push(old(cx)@, ValueDataV::Str(s@)),
            final(cx).wf(),
            final(cx).ok(),
            h.spec_local() == local_at(old(cx)@.env.values.len()),
            h.wf(final(cx)@.env),
            data_at(final(cx)@.env, h.spec_local()) == ValueDataV::Str(s@),
    {
        let r = JsString::try_new(cx, s);
        match r {
            Ok(h) => h,
            Err(_) => {
                proof {
                    assert(false);
                }
                let l = cx.alloc_value(ValueData::Undefined);
                Handle::new_internal(JsString::from_local(l))
            },
        }
    }

    /// Attempts to materialize a string; an oversize string is reported as a
    /// plain value, with the engine untouched.
    pub fn try_new(cx: &mut Context, s: &str) -> (r: StringResult)
        requires
            old(cx).wf(),
            old(cx).ok(),
        ensures
            final(cx).wf(),
            match r {
                Ok(h) => string_fits(s@) && final(cx)@ == cx_push(old(cx)@, ValueDataV::Str(s@))
                    && h.spec_local() == local_at(old(cx)@.env.values.len()) && h.wf(
                    final(cx)@.env,
                ) && final(cx).ok() && data_at(final(cx)@.env, h.spec_local())
                    == ValueDataV::Str(s@),
                Err(o) => !string_fits(s@) && *final(cx) == *old(cx) && o.0
                    == vstd::utf8::encode_utf8(s@).len(),
            },
    {
        match cx.raw_string_new(s) {
            Some(l) => Ok(Handle::new_internal(JsString::from_local(l))),
            None => Err(StringOverflow(s.as_bytes().len())),
        }
    }

    /// The string's size in UTF-8 bytes.
    pub fn size(self, cx: &mut Context) -> (n: usize)
        requires
            old(cx).wf(),
            old(cx).ok(),
            local_valid(old(cx)@.env, self.spec_local()),
            data_at(old(cx)@.env, self.spec_local()) is Str,
        ensures
            *final(cx) == *old(cx),
            n == vstd::utf8::encode_utf8(data_at(old(cx)@.env, self.spec_local())->Str_0).len(),
    {
        match cx.env_ref().data_ref(self.to_local()) {
            ValueData::Str(s) => s.as_str().as_bytes().len(),
            _ => {
                proof {
                    assert(false);
                }
                0
            },
        }
    }

    /// Reads the string back from the engine.
    pub fn value(self, cx: &mut Context) -> (s: String)
        requires
            old(cx).wf(),
            old(cx).ok(),
            local_valid(old(cx)@.env, self.spec_local()),
            data_at(old(cx)@.env, self.spec_local()) is Str,
        ensures
            *final(cx) == *old(cx),
            s@ == data_at(old(cx)@.env, self.spec_local())->Str_0,
    {
        match cx.env_ref().data_ref(self.to_local()) {
            ValueData::Str(s) => s.clone(),
            _ => {
                proof {
                    assert(false);
                }
                String::new()
            },
        }
    }
}

/// A JavaScript number value, carried as the bit pattern of an IEEE-754
/// double.
#[derive(Clone, Copy)]
pub struct JsNumber {
    raw: Local,
}

impl Value for JsNumber {
    open spec fn spec_kind() -> Kind {
        Kind::Number
    }

    closed spec fn spec_local(self) -> Local {
        self.raw
    }

    fn kind() -> Kind {
        Kind::Number
    }

    fn to_local(self) -> Local {
        self.raw
    }

    fn from_local(l: Local) -> Self {
        JsNumber { raw: l }
    }

    proof fn lemma_transparent(a: Self, b: Self) {
    }
}

impl JsNumber {
    /// Materializes a number from the bit pattern of a double.
    pub fn new(cx: &mut Context, bits: u64) -> (h: Handle<JsNumber>)
        requires
            old(cx).wf(),
            old(cx).ok(),
        ensures
            final(cx)@ == cx_push(old(cx)@, ValueDataV::Number(bits)),
            final(cx).wf(),
            final(cx).ok(),
            h.spec_local() == local_at(old(cx)@.env.values.len()),
            h.wf(final(cx)@.env),
            data_at(final(cx)@.env, h.spec_local()) == ValueDataV::Number(bits),
    {
        let l = cx.alloc_value(ValueData::Number(bits));
        Handle::new_internal(JsNumber::from_local(l))
    }

    /// Reads the number's bit pattern back from the engine.
    pub fn value(self, cx: &mut Context) -> (bits: u64)
        requires
            old(cx).wf(),
            old(cx).ok(),
            local_valid(old(cx)@.env, self.spec_local()),
            data_at(old(cx)@.env, self.spec_local()) is Number,
        ensures
            *final(cx) == *old(cx),
            bits == data_at(old(cx)@.env, self.spec_local())->Number_0,
    {
        match cx.env_ref().data_ref(self.to_local()) {
            ValueData::Number(b) => *b,
            _ => {
                proof {
                    assert(false);
                }
                0
            },
        }
    }
}

/// A JavaScript object.
#[derive(Clone, Copy)]
pub struct JsObject {
    raw: Local,
}

impl Value for JsObject {
    open spec fn spec_kind() -> Kind {
        Kind::Object
    }

    closed spec fn spec_local(self) -> Local {
        self.raw
    }

    fn kind() -> Kind {
        Kind::Object
    }

    fn to_local(self) -> Local {
        self.raw
    }

    fn from_local(l: Local) -> Self {
        JsObject { raw: l }
    }

    proof fn lemma_transparent(a: Self, b: Self) {
    }
}

impl Object for JsObject {
    proof fn lemma_object_shaped(d: ValueDataV) {
    }
}

/// Every object-shaped kind upcasts to `Object`.
impl<T: Object> SuperType<T> for JsObject {
    proof fn lemma_subsumes(d: ValueDataV) {
        T::lemma_object_shaped(d);
    }
}

impl JsObject {
    /// Materializes an empty object.
    pub fn new(cx: &mut Context) -> (h: Handle<JsObject>)
        requires
            old(cx).wf(),
            old(cx).ok(),
        ensures
            final(cx)@ == cx_push(old(cx)@, ValueDataV::Object),
            final(cx).wf(),
            final(cx).ok(),
            h.spec_local() == local_at(old(cx)@.env.values.len()),
            h.wf(final(cx)@.env),
            data_at(final(cx)@.env, h.spec_local()) == ValueDataV::Object,
    {
        let l = cx.alloc_value(ValueData::Object);
        Handle::new_internal(JsObject::from_local(l))
    }
}

/// A JavaScript array object.
#[derive(Clone, Copy)]
pub struct JsArray {
    raw: Local,
}

impl Value for JsArray {
    open spec fn spec_kind() -> Kind {
        Kind::Array
    }

    closed spec fn spec_local(self) -> Local {
        self.raw
    }

    fn kind() -> Kind {
        Kind::Array
    }

    fn to_local(self) -> Local {
        self.raw
    }

    fn from_local(l: Local) -> Self {
        JsArray { raw: l }
    }

    proof fn lemma_transparent(a: Self, b: Self) {
    }
}

impl Object for JsArray {
    proof fn lemma_object_shaped(d: ValueDataV) {
    }
}

/// A JavaScript function object.
#[derive(Clone, Copy)]
pub struct JsFunction {
    raw: Local,
}

impl Value for JsFunction {
    open spec fn spec_kind() -> Kind {
        Kind::Function
    }

    closed spec fn spec_local(self) -> Local {
        self.raw
    }

    fn kind() -> Kind {
        Kind::Function
    }

    fn to_local(self) -> Local {
        self.raw
    }

    fn from_local(l: Local) -> Self {
        JsFunction { raw: l }
    }

    proof fn lemma_transparent(a: Self, b: Self) {
    }
}

impl Object for JsFunction {
    proof fn lemma_object_shaped(d: ValueDataV) {
    }
}

/// Translates a raw host outcome into the unified result protocol: a missing
/// value means the host entered a pending-exception state, which the caller
/// surfaces as a [`Throw`].
pub(crate) fn build<T: Value>(outcome: Option<Local>) -> (r: JsResult<T>)
    ensures
        match outcome {
            Some(l) => r is Ok && r->Ok_0.spec_local() == l,
            None => r is Err,
        },
{
    match outcome {
        Some(l) => Ok(Handle::new_internal(T::from_local(l))),
        None => Err(Throw::new()),
    }
}


impl JsArray {
    /// Materializes an array of `len` elements, each initially `undefined`.
    pub fn new(cx: &mut Context, len: u32) -> (h: Handle<JsArray>)
        requires
            old(cx).wf(),
            old(cx).ok(),
        ensures
            final(cx)@.env == spec_array_new(old(cx)@.env, len as nat).0,
            final(cx)@.args == old(cx)@.args,
            final(cx).wf(),
            final(cx).ok(),
            h.spec_local() == spec_array_new(old(cx)@.env, len as nat).1,
            h.wf(final(cx)@.env),
    {
        let l = cx.raw_array_new(len);
        Handle::new_internal(JsArray::from_local(l))
    }

    pub(crate) fn len_inner(self, e: &Env) -> (n: usize)
        requires
            local_valid(e@, self.spec_local()),
            data_at(e@, self.spec_local()) is Array,
        ensures
            n == data_at(e@, self.spec_local())->Array_0.len(),
    {
        e.array_len(self.to_local())
    }

    /// The array's length.
    pub fn len(self, cx: &mut Context) -> (n: u32)
        requires
            old(cx).wf(),
            old(cx).ok(),
            local_valid(old(cx)@.env, self.spec_local()),
            data_at(old(cx)@.env, self.spec_local()) is Array,
        ensures
            *final(cx) == *old(cx),
            n == data_at(old(cx)@.env, self.spec_local())->Array_0.len(),
    {
        let n = self.len_inner(cx.env_ref());
        proof {
            assert(data_wf(
                old(cx)@.env,
                old(cx)@.env.values[self.spec_local().spec_ix() as int],
            ));
        }
        n as u32
    }

    /// Whether the array has no elements.
    pub fn is_empty(self, cx: &mut Context) -> (r: bool)
        requires
            old(cx).wf(),
            old(cx).ok(),
            local_valid(old(cx)@.env, self.spec_local()),
            data_at(old(cx)@.env, self.spec_local()) is Array,
        ensures
            *final(cx) == *old(cx),
            r == (data_at(old(cx)@.env, self.spec_local())->Array_0.len() == 0),
    {
        self.len(cx) == 0
    }

    /// Reads an element. An index beyond the current length reads as a fresh
    /// `undefined`, as JavaScript property access does.
    pub fn get(self, cx: &mut Context, i: u32) -> (r: JsResult<JsValue>)
        requires
            old(cx).wf(),
            old(cx).ok(),
            local_valid(old(cx)@.env, self.spec_local()),
            data_at(old(cx)@.env, self.spec_local()) is Array,
        ensures
            final(cx).wf(),
            final(cx).ok(),
            final(cx)@.args == old(cx)@.args,
            r is Ok,
            ({
                let els = data_at(old(cx)@.env, self.spec_local())->Array_0;
                if (i as nat) < els.len() {
                    *final(cx) == *old(cx) && r->Ok_0.spec_local() == els[i as int]
                        && r->Ok_0.wf(final(cx)@.env)
                } else {
                    final(cx)@ == cx_push(old(cx)@, ValueDataV::Undefined)
                        && r->Ok_0.spec_local() == local_at(old(cx)@.env.values.len())
                        && r->Ok_0.wf(final(cx)@.env)
                }
            }),
    {
        let n = self.len_inner(cx.env_ref());
        proof {
            assert(data_wf(
                old(cx)@.env,
                old(cx)@.env.values[self.spec_local().spec_ix() as int],
            ));
        }
        if (i as usize) < n {
            let l = cx.env_ref().array_get(self.to_local(), i as usize);
            Ok(Handle::new_internal(JsValue::from_local(l)))
        } else {
            let l = cx.alloc_value(ValueData::Undefined);
            Ok(Handle::new_internal(JsValue::from_local(l)))
        }
    }

    /// Reads the whole array into a vector of handles. The length is re-read
    /// on every step: with a real engine, reading a property can run
    /// arbitrary code, so the loop defends against the length changing under
    /// it.
    pub fn to_vec(self, cx: &mut Context) -> (r: NeonResult<Vec<Handle<JsValue>>>)
        requires
            old(cx).wf(),
            old(cx).ok(),
            local_valid(old(cx)@.env, self.spec_local()),
            data_at(old(cx)@.env, self.spec_local()) is Array,
        ensures
            *final(cx) == *old(cx),
            match r {
                Ok(v) => ({
                    let els = data_at(old(cx)@.env, self.spec_local())->Array_0;
                    &&& v@.len() == els.len()
                    &&& forall|k: int|
                        0 <= k < els.len() ==> (#[trigger] v@[k]).spec_local() == els[k]
                    &&& handles_wf(v@, old(cx)@.env)
                }),
                Err(_) => false,
            },
    {
        let ghost els = data_at(old(cx)@.env, self.spec_local())->Array_0;
        let mut result: Vec<Handle<JsValue>> = Vec::new();
        let mut i: u32 = 0;
        proof {
            assert(data_wf(
                old(cx)@.env,
                old(cx)@.env.values[self.spec_local().spec_ix() as int],
            ));
        }
        while (i as usize) < self.len_inner(cx.env_ref())
            invariant
                old(cx).wf(),
                old(cx).ok(),
                local_valid(old(cx)@.env, self.spec_local()),
                data_at(old(cx)@.env, self.spec_local()) is Array,
                els == data_at(old(cx)@.env, self.spec_local())->Array_0,
                els.len() <= 0xFFFFFFFF,
                *cx == *old(cx),
                i as nat <= els.len(),
                result@.len() == i as nat,
                forall|k: int| 0 <= k < i as int ==> (#[trigger] result@[k]).spec_local() == els[k],
                handles_wf(result@, old(cx)@.env),
            decreases els.len() - i as nat,
        {
            let h = match self.get(cx, i) {
                Ok(h) => h,
                Err(t) => {
                    return Err(t);
                },
            };
            result.push(h);
            proof {
                assert(handles_wf(result@, old(cx)@.env));
            }
            i = i + 1;
        }
        Ok(result)
    }
}

/// The engine references of a vector of handles, in order.
pub open spec fn locals_of(s: Seq<Handle<JsValue>>) -> Seq<Local> {
    s.map_values(|h: Handle<JsValue>| h.spec_local())
}

/// Every handle of the vector is valid under `e`.
pub open spec fn handles_wf(s: Seq<Handle<JsValue>>, e: EnvV) -> bool {
    forall|i: int| 0 <= i < s.len() ==> (#[trigger] s[i]).wf(e)
}

/// The outcome of a call with an explicit `this` binding: the argument-count
/// cap is enforced before the host is touched.
pub open spec fn spec_bound_call(e: EnvV, callee: Local, this_arg: Local, args: Seq<Local>) -> (
    EnvV,
    Option<Local>,
) {
    if args.len() > V8_ARGC_LIMIT {
        (env_with_pending(e, ExceptionV::RangeError("too many arguments"@)), None)
    } else {
        spec_fun_call(e, callee, this_arg, args)
    }
}

/// The outcome of an unbound call: `undefined` is materialized to stand as
/// `this`, then the call proceeds as a bound call.
pub open spec fn spec_unbound_call(e: EnvV, callee: Local, args: Seq<Local>) -> (
    EnvV,
    Option<Local>,
) {
    spec_bound_call(env_push(e, ValueDataV::Undefined), callee, local_at(e.values.len()), args)
}

/// The outcome of a constructor call.
pub open spec fn spec_new_call(e: EnvV, callee: Local, args: Seq<Local>) -> (EnvV, Option<Local>) {
    if args.len() > V8_ARGC_LIMIT {
        (env_with_pending(e, ExceptionV::RangeError("too many arguments"@)), None)
    } else {
        spec_fun_construct(e, callee, args)
    }
}

/// Extracts the engine references of an argument vector.
fn to_locals(v: &Vec<Handle<JsValue>>) -> (r: Vec<Local>)
    ensures
        r@ == locals_of(v@),
{
    let mut r: Vec<Local> = Vec::new();
    let mut i: usize = 0;
    while i < v.len()
        invariant
            i <= v.len(),
            r@.len() == i as nat,
            forall|k: int| 0 <= k < i as int ==> (#[trigger] r@[k]) == v@[k].spec_local(),
        decreases v.len() - i,
    {
        let l = v[i].local();
        r.push(l);
        i = i + 1;
    }
    proof {
        assert(r@ =~= locals_of(v@));
    }
    r
}

/// Asserts the argument-count cap before the host is touched, throwing a
/// `RangeError` when it is exceeded.
pub(crate) fn prepare_call(cx: &mut Context, args: &Vec<Handle<JsValue>>) -> (r: NeonResult<usize>)
    requires
        old(cx).wf(),
        old(cx).ok(),
    ensures
        match r {
            Ok(n) => args@.len() <= V8_ARGC_LIMIT && n == args@.len() && *final(cx) == *old(cx),
            Err(_) => args@.len() > V8_ARGC_LIMIT && final(cx).wf() && final(cx)@ == cx_throw(
                old(cx)@,
                ExceptionV::RangeError("too many arguments"@),
            ),
        },
{
    if args.len() > V8_ARGC_LIMIT {
        cx.throw_range_error("too many arguments")
    } else {
        Ok(args.len())
    }
}

/// Downcasts a call's result to `V`. Unlike a plain downcast, a mismatch
/// here throws a `TypeError` whose message names the result value's runtime
/// kind, since the static source kind of a call result is always `Any`.
pub(crate) fn cast_call_result<V: Value>(cx: &mut Context, v: Handle<JsValue>) -> (r: JsResult<V>)
    requires
        old(cx).wf(),
        old(cx).ok(),
        v.wf(old(cx)@.env),
    ensures
        final(cx).wf(),
        final(cx)@.args == old(cx)@.args,
        if kind_accepts(V::spec_kind(), data_at(old(cx)@.env, v.spec_local())) {
            *final(cx) == *old(cx) && r is Ok && r->Ok_0.spec_local() == v.spec_local()
                && r->Ok_0.wf(final(cx)@.env)
        } else {
            r is Err && final(cx)@.env == env_with_pending(
                old(cx)@.env,
                ExceptionV::TypeError(
                    downcast_msg(
                        data_kind(data_at(old(cx)@.env, v.spec_local())),
                        V::spec_kind(),
                    ),
                ),
            )
        },
{
    if v.is_a::<V>(cx) {
        Ok(Handle::new_internal(V::from_local(v.local())))
    } else {
        let dk = data_kind_of(cx.env_ref().data_ref(v.local()));
        let msg = format_downcast_msg(dk, V::kind());
        cx.throw_type_error(msg.as_str())
    }
}

impl JsFunction {
    /// Materializes a function value carrying a native behavior of the host.
    pub fn new(cx: &mut Context, f: NativeFn) -> (r: JsResult<JsFunction>)
        requires
            old(cx).wf(),
            old(cx).ok(),
        ensures
            final(cx)@ == cx_push(old(cx)@, ValueDataV::Function(f)),
            final(cx).wf(),
            final(cx).ok(),
            r is Ok,
            r->Ok_0.spec_local() == local_at(old(cx)@.env.values.len()),
            r->Ok_0.wf(final(cx)@.env),
            data_at(final(cx)@.env, r->Ok_0.spec_local()) == ValueDataV::Function(f),
    {
        let l = cx.alloc_value(ValueData::Function(f));
        build::<JsFunction>(Some(l))
    }

    /// Invokes the function with an explicit `this` binding.
    pub fn call<T: Value>(
        self,
        cx: &mut Context,
        this: Handle<T>,
        args: Vec<Handle<JsValue>>,
    ) -> (r: JsResult<JsValue>)
        requires
            old(cx).wf(),
            old(cx).ok(),
            local_valid(old(cx)@.env, self.spec_local()),
            data_at(old(cx)@.env, self.spec_local()) is Function,
            local_valid(old(cx)@.env, this.spec_local()),
            handles_wf(args@, old(cx)@.env),
        ensures
            final(cx).wf(),
            final(cx)@.args == old(cx)@.args,
            ({
                let out = spec_bound_call(
                    old(cx)@.env,
                    self.spec_local(),
                    this.spec_local(),
                    locals_of(args@),
                );
                &&& final(cx)@.env == out.0
                &&& match out.1 {
                    Some(l) => r is Ok && r->Ok_0.spec_local() == l && final(cx).ok()
                        && r->Ok_0.wf(final(cx)@.env),
                    None => r is Err && !final(cx).ok(),
                }
            }),
    {
        prepare_call(cx, &args)?;
        let locals = to_locals(&args);
        proof {
            assert forall|i: int| 0 <= i < locals@.len() implies local_valid(
                old(cx)@.env,
                #[trigger] locals@[i],
            ) by {
                assert(args@[i].wf(old(cx)@.env));
            };
        }
        let outcome = cx.raw_fun_call(self.to_local(), this.local(), &locals);
        build::<JsValue>(outcome)
    }

    /// Invokes the function as a constructor.
    pub fn construct(self, cx: &mut Context, args: Vec<Handle<JsValue>>) -> (r: JsResult<JsObject>)
        requires
            old(cx).wf(),
            old(cx).ok(),
            local_valid(old(cx)@.env, self.spec_local()),
            data_at(old(cx)@.env, self.spec_local()) is Function,
            handles_wf(args@, old(cx)@.env),
        ensures
            final(cx).wf(),
            final(cx)@.args == old(cx)@.args,
            ({
                let out = spec_new_call(old(cx)@.env, self.spec_local(), locals_of(args@));
                &&& final(cx)@.env == out.0
                &&& match out.1 {
                    Some(l) => r is Ok && r->Ok_0.spec_local() == l && final(cx).ok()
                        && r->Ok_0.wf(final(cx)@.env),
                    None => r is Err && !final(cx).ok(),
                }
            }),
    {
        prepare_call(cx, &args)?;
        let locals = to_locals(&args);
        proof {
            assert forall|i: int| 0 <= i < locals@.len() implies local_valid(
                old(cx)@.env,
                #[trigger] locals@[i],
            ) by {
                assert(args@[i].wf(old(cx)@.env));
            };
        }
        let outcome = cx.raw_fun_construct(self.to_local(), &locals);
        build::<JsObject>(outcome)
    }

    /// Builds an unbound call with an initial argument list.
    pub fn args<A: Arguments>(self, args: A) -> (b: Call)
        ensures
            b.spec_callee() == self.spec_local(),
            b.spec_args() == args.spec_locals(),
            forall|e: EnvV|
                (local_valid(e, self.spec_local()) && data_at(e, self.spec_local()) is Function
                    && args.args_wf(e)) ==> #[trigger] b.wf(e),
    {
        let builder = Call { callee: Handle::new_internal(self), args: Vec::new() };
        proof {
            assert(builder.spec_args() =~= Seq::<Local>::empty());
        }
        let b = builder.args(args);
        proof {
            assert(b.spec_args() =~= args.spec_locals());
        }
        b
    }

    /// Builds an unbound call with an initial single argument.
    pub fn arg<V: Value>(self, v: Handle<V>) -> (b: Call)
        ensures
            b.spec_callee() == self.spec_local(),
            b.spec_args() == seq![v.spec_local()],
            forall|e: EnvV|
                (local_valid(e, self.spec_local()) && data_at(e, self.spec_local()) is Function
                    && v.wf(e)) ==> #[trigger] b.wf(e),
    {
        let builder = Call { callee: Handle::new_internal(self), args: Vec::new() };
        proof {
            assert(builder.spec_args() =~= Seq::<Local>::empty());
        }
        let b = builder.arg(v);
        proof {
            assert(b.spec_args() =~= seq![v.spec_local()]);
        }
        b
    }

    /// Builds a bound call with a `this` binding.
    pub fn this<V: Value>(self, this: Handle<V>) -> (b: FunctionCall)
        ensures
            b.spec_callee() == self.spec_local(),
            b.spec_this() == this.spec_local(),
            b.spec_args() == Seq::<Local>::empty(),
            forall|e: EnvV|
                (local_valid(e, self.spec_local()) && data_at(e, self.spec_local()) is Function
                    && this.wf(e)) ==> #[trigger] b.wf(e),
    {
        let b = FunctionCall {
            callee: Handle::new_internal(self),
            this: this.upcast(),
            args: Vec::new(),
        };
        proof {
            assert(b.spec_args() =~= Seq::<Local>::empty());
        }
        b
    }
}

/// A builder for a function call with a chosen `this` binding. Terminal
/// operations: `call` and `exec`; a bound call cannot be used as a
/// constructor.
pub struct FunctionCall {
    callee: Handle<JsFunction>,
    this: Handle<JsValue>,
    args: Vec<Handle<JsValue>>,
}

/// A builder for a function call with no `this` binding chosen yet — the
/// call will pass `undefined` — or for a constructor call. Terminal
/// operations: `call`, `exec` and `new`.
pub struct Call {
    callee: Handle<JsFunction>,
    args: Vec<Handle<JsValue>>,
}

impl Call {
    /// The callee's engine reference.
    pub closed spec fn spec_callee(self) -> Local {
        self.callee.spec_local()
    }

    /// The engine references of the argument list, in order.
    pub closed spec fn spec_args(self) -> Seq<Local> {
        locals_of(self.args@)
    }

    /// The builder's references are valid under `e` and the callee is a
    /// function value.
    pub open spec fn wf(self, e: EnvV) -> bool {
        &&& local_valid(e, self.spec_callee())
        &&& data_at(e, self.spec_callee()) is Function
        &&& forall|i: int|
            0 <= i < self.spec_args().len() ==> local_valid(e, #[trigger] self.spec_args()[i])
    }

    /// Chooses the `this` binding; the builder becomes a bound call.
    pub fn this<V: Value>(self, this: Handle<V>) -> (b: FunctionCall)
        ensures
            b.spec_callee() == self.spec_callee(),
            b.spec_this() == this.spec_local(),
            b.spec_args() == self.spec_args(),
            forall|e: EnvV| (self.wf(e) && this.wf(e)) ==> #[trigger] b.wf(e),
    {
        FunctionCall { callee: self.callee, this: this.upcast(), args: self.args }
    }

    /// Appends one argument, upcast to `Any`.
    pub fn arg<V: Value>(self, v: Handle<V>) -> (b: Call)
        ensures
            b.spec_callee() == self.spec_callee(),
            b.spec_args() == self.spec_args().push(v.spec_local()),
            forall|e: EnvV| (self.wf(e) && v.wf(e)) ==> #[trigger] b.wf(e),
    {
        let Call { callee, args: mut a } = self;
        push_arg(&mut a, v);
        let b = Call { callee, args: a };
        proof {
            assert(b.spec_args() =~= self.spec_args().push(v.spec_local()));
            assert forall|e: EnvV| (self.wf(e) && v.wf(e)) implies #[trigger] b.wf(e) by {
                assert forall|i: int|
                    0 <= i < b.spec_args().len() implies local_valid(
                    e,
                    #[trigger] b.spec_args()[i],
                ) by {
                    if i < self.spec_args().len() {
                        assert(local_valid(e, self.spec_args()[i]));
                    }
                };
            };
        }
        b
    }

    /// Appends several arguments, each upcast to `Any`.
    pub fn args<A: Arguments>(self, args: A) -> (b: Call)
        ensures
            b.spec_callee() == self.spec_callee(),
            b.spec_args() == self.spec_args() + args.spec_locals(),
            forall|e: EnvV| (self.wf(e) && args.args_wf(e)) ==> #[trigger] b.wf(e),
    {
        let ghost pre = self;
        let Call { callee, args: mut a } = self;
        proof {
            assert forall|e: EnvV| pre.wf(e) implies handles_wf(a@, e) by {
                assert forall|i: int| 0 <= i < a@.len() implies (#[trigger] a@[i]).wf(e) by {
                    assert(local_valid(e, pre.spec_args()[i]));
                };
            };
        }
        args.append(&mut a);
        let b = Call { callee, args: a };
        proof {
            assert(b.spec_args() =~= pre.spec_args() + args.spec_locals());
            assert forall|e: EnvV| (pre.wf(e) && args.args_wf(e)) implies #[trigger] b.wf(e) by {
                assert(handles_wf(a@, e));
                assert forall|i: int|
                    0 <= i < b.spec_args().len() implies local_valid(
                    e,
                    #[trigger] b.spec_args()[i],
                ) by {
                    assert(a@[i].wf(e));
                };
            };
        }
        b
    }

    /// Makes the call with `undefined` as `this`. On success the result is
    /// downcast to `V`; a mismatch throws a `TypeError` naming the result's
    /// runtime kind.
    pub fn call<V: Value>(self, cx: &mut Context) -> (r: JsResult<V>)
        requires
            old(cx).wf(),
            old(cx).ok(),
            self.wf(old(cx)@.env),
        ensures
            final(cx).wf(),
            final(cx)@.args == old(cx)@.args,
            ({
                let out = spec_unbound_call(old(cx)@.env, self.spec_callee(), self.spec_args());
                match out.1 {
                    Some(l) => if kind_accepts(V::spec_kind(), data_at(out.0, l)) {
                        r is Ok && r->Ok_0.spec_local() == l && final(cx)@.env == out.0
                            && final(cx).ok() && r->Ok_0.wf(final(cx)@.env)
                    } else {
                        r is Err && final(cx)@.env == env_with_pending(
                            out.0,
                            ExceptionV::TypeError(
                                downcast_msg(data_kind(data_at(out.0, l)), V::spec_kind()),
                            ),
                        )
                    },
                    None => r is Err && final(cx)@.env == out.0 && !final(cx).ok(),
                }
            }),
    {
        let ghost pre = self;
        let undef: Handle<JsValue> = cx.undefined().upcast();
        let Call { callee, args } = self;
        let f = *callee.deref();
        proof {
            assert(data_at(cx@.env, pre.spec_callee()) == data_at(old(cx)@.env, pre.spec_callee()));
            assert forall|i: int| 0 <= i < args@.len() implies (#[trigger] args@[i]).wf(cx@.env) by {
                assert(local_valid(old(cx)@.env, pre.spec_args()[i]));
            };
            assert(handles_wf(args@, cx@.env));
        }
        let v = f.call(cx, undef, args)?;
        cast_call_result::<V>(cx, v)
    }

    /// Makes the call for side effect, discarding the result value.
    pub fn exec(self, cx: &mut Context) -> (r: NeonResult<()>)
        requires
            old(cx).wf(),
            old(cx).ok(),
            self.wf(old(cx)@.env),
        ensures
            final(cx).wf(),
            final(cx)@.args == old(cx)@.args,
            ({
                let out = spec_unbound_call(old(cx)@.env, self.spec_callee(), self.spec_args());
                &&& final(cx)@.env == out.0
                &&& match out.1 {
                    Some(_) => r is Ok && final(cx).ok(),
                    None => r is Err && !final(cx).ok(),
                }
            }),
    {
        let ghost pre = self;
        let undef: Handle<JsValue> = cx.undefined().upcast();
        let Call { callee, args } = self;
        let f = *callee.deref();
        proof {
            assert(data_at(cx@.env, pre.spec_callee()) == data_at(old(cx)@.env, pre.spec_callee()));
            assert forall|i: int| 0 <= i < args@.len() implies (#[trigger] args@[i]).wf(cx@.env) by {
                assert(local_valid(old(cx)@.env, pre.spec_args()[i]));
            };
            assert(handles_wf(args@, cx@.env));
        }
        let _ = f.call(cx, undef, args)?;
        Ok(())
    }

    /// Calls the function as a constructor; on success, the resulting
    /// object.
    pub fn new(self, cx: &mut Context) -> (r: JsResult<JsObject>)
        requires
            old(cx).wf(),
            old(cx).ok(),
            self.wf(old(cx)@.env),
        ensures
            final(cx).wf(),
            final(cx)@.args == old(cx)@.args,
            ({
                let out = spec_new_call(old(cx)@.env, self.spec_callee(), self.spec_args());
                &&& final(cx)@.env == out.0
                &&& match out.1 {
                    Some(l) => r is Ok && r->Ok_0.spec_local() == l && final(cx).ok()
                        && r->Ok_0.wf(final(cx)@.env),
                    None => r is Err && !final(cx).ok(),
                }
            }),
    {
        let ghost pre = self;
        let Call { callee, args } = self;
        let f = *callee.deref();
        proof {
            assert forall|i: int|
                0 <= i < args@.len() implies (#[trigger] args@[i]).wf(old(cx)@.env) by {
                assert(local_valid(old(cx)@.env, pre.spec_args()[i]));
            };
            assert(handles_wf(args@, old(cx)@.env));
        }
        f.construct(cx, args)
    }
}

impl FunctionCall {
    /// The callee's engine reference.
    pub closed spec fn spec_callee(self) -> Local {
        self.callee.spec_local()
    }

    /// The `this` binding's engine reference.
    pub closed spec fn spec_this(self) -> Local {
        self.this.spec_local()
    }

    /// The engine references of the argument list, in order.
    pub closed spec fn spec_args(self) -> Seq<Local> {
        locals_of(self.args@)
    }

    /// The builder's references are valid under `e` and the callee is a
    /// function value.
    pub open spec fn wf(self, e: EnvV) -> bool {
        &&& local_valid(e, self.spec_callee())
        &&& data_at(e, self.spec_callee()) is Function
        &&& local_valid(e, self.spec_this())
        &&& forall|i: int|
            0 <= i < self.spec_args().len() ==> local_valid(e, #[trigger] self.spec_args()[i])
    }

    /// Replaces the `this` binding.
    pub fn this<V: Value>(self, this: Handle<V>) -> (b: FunctionCall)
        ensures
            b.spec_callee() == self.spec_callee(),
            b.spec_this() == this.spec_local(),
            b.spec_args() == self.spec_args(),
            forall|e: EnvV| (self.wf(e) && this.wf(e)) ==> #[trigger] b.wf(e),
    {
        FunctionCall { callee: self.callee, this: this.upcast(), args: self.args }
    }

    /// Appends one argument, upcast to `Any`.
    pub fn arg<V: Value>(self, v: Handle<V>) -> (b: FunctionCall)
        ensures
            b.spec_callee() == self.spec_callee(),
            b.spec_this() == self.spec_this(),
            b.spec_args() == self.spec_args().push(v.spec_local()),
            forall|e: EnvV| (self.wf(e) && v.wf(e)) ==> #[trigger] b.wf(e),
    {
        let FunctionCall { callee, this, args: mut a } = self;
        push_arg(&mut a, v);
        let b = FunctionCall { callee, this, args: a };
        proof {
            assert(b.spec_args() =~= self.spec_args().push(v.spec_local()));
            assert forall|e: EnvV| (self.wf(e) && v.wf(e)) implies #[trigger] b.wf(e) by {
                assert forall|i: int|
                    0 <= i < b.spec_args().len() implies local_valid(
                    e,
                    #[trigger] b.spec_args()[i],
                ) by {
                    if i < self.spec_args().len() {
                        assert(local_valid(e, self.spec_args()[i]));
                    }
                };
            };
        }
        b
    }

    /// Appends several arguments, each upcast to `Any`.
    pub fn args<A: Arguments>(self, args: A) -> (b: FunctionCall)
        ensures
            b.spec_callee() == self.spec_callee(),
            b.spec_this() == self.spec_this(),
            b.spec_args() == self.spec_args() + args.spec_locals(),
            forall|e: EnvV| (self.wf(e) && args.args_wf(e)) ==> #[trigger] b.wf(e),
    {
        let ghost pre = self;
        let FunctionCall { callee, this, args: mut a } = self;
        proof {
            assert forall|e: EnvV| pre.wf(e) implies handles_wf(a@, e) by {
                assert forall|i: int| 0 <= i < a@.len() implies (#[trigger] a@[i]).wf(e) by {
                    assert(local_valid(e, pre.spec_args()[i]));
                };
            };
        }
        args.append(&mut a);
        let b = FunctionCall { callee, this, args: a };
        proof {
            assert(b.spec_args() =~= pre.spec_args() + args.spec_locals());
            assert forall|e: EnvV| (pre.wf(e) && args.args_wf(e)) implies #[trigger] b.wf(e) by {
                assert(handles_wf(a@, e));
                assert forall|i: int|
                    0 <= i < b.spec_args().len() implies local_valid(
                    e,
                    #[trigger] b.spec_args()[i],
                ) by {
                    assert(a@[i].wf(e));
                };
            };
        }
        b
    }

    /// Makes the call with the chosen `this` binding. On success the result
    /// is downcast to `V`; a mismatch throws a `TypeError` naming the
    /// result's runtime kind.
    pub fn call<V: Value>(self, cx: &mut Context) -> (r: JsResult<V>)
        requires
            old(cx).wf(),
            old(cx).ok(),
            self.wf(old(cx)@.env),
        ensures
            final(cx).wf(),
            final(cx)@.args == old(cx)@.args,
            ({
                let out = spec_bound_call(
                    old(cx)@.env,
                    self.spec_callee(),
                    self.spec_this(),
                    self.spec_args(),
                );
                match out.1 {
                    Some(l) => if kind_accepts(V::spec_kind(), data_at(out.0, l)) {
                        r is Ok && r->Ok_0.spec_local() == l && final(cx)@.env == out.0
                            && final(cx).ok() && r->Ok_0.wf(final(cx)@.env)
                    } else {
                        r is Err && final(cx)@.env == env_with_pending(
                            out.0,
                            ExceptionV::TypeError(
                                downcast_msg(data_kind(data_at(out.0, l)), V::spec_kind()),
                            ),
                        )
                    },
                    None => r is Err && final(cx)@.env == out.0 && !final(cx).ok(),
                }
            }),
    {
        let ghost pre = self;
        let FunctionCall { callee, this, args } = self;
        let f = *callee.deref();
        proof {
            assert forall|i: int|
                0 <= i < args@.len() implies (#[trigger] args@[i]).wf(old(cx)@.env) by {
                assert(local_valid(old(cx)@.env, pre.spec_args()[i]));
            };
            assert(handles_wf(args@, old(cx)@.env));
        }
        let v = f.call(cx, this, args)?;
        cast_call_result::<V>(cx, v)
    }

    /// Makes the call for side effect, discarding the result value.
    pub fn exec(self, cx: &mut Context) -> (r: NeonResult<()>)
        requires
            old(cx).wf(),
            old(cx).ok(),
            self.wf(old(cx)@.env),
        ensures
            final(cx).wf(),
            final(cx)@.args == old(cx)@.args,
            ({
                let out = spec_bound_call(
                    old(cx)@.env,
                    self.spec_callee(),
                    self.spec_this(),
                    self.spec_args(),
                );
                &&& final(cx)@.env == out.0
                &&& match out.1 {
                    Some(_) => r is Ok && final(cx).ok(),
                    None => r is Err && !final(cx).ok(),
                }
            }),
    {
        let ghost pre = self;
        let FunctionCall { callee, this, args } = self;
        let f = *callee.deref();
        proof {
            assert forall|i: int|
                0 <= i < args@.len() implies (#[trigger] args@[i]).wf(old(cx)@.env) by {
                assert(local_valid(old(cx)@.env, pre.spec_args()[i]));
            };
            assert(handles_wf(args@, old(cx)@.env));
        }
        let _ = f.call(cx, this, args)?;
        Ok(())
    }
}

/// Appends one argument to an argument vector, upcast to `Any`.
fn push_arg<V: Value>(args: &mut Vec<Handle<JsValue>>, v: Handle<V>)
    ensures
        final(args)@.len() == old(args)@.len() + 1,
        locals_of(final(args)@) == locals_of(old(args)@).push(v.spec_local()),
        forall|e: EnvV|
            (handles_wf(old(args)@, e) && v.wf(e)) ==> #[trigger] handles_wf(final(args)@, e),
{
    let u: Handle<JsValue> = v.upcast();
    args.push(u);
    proof {
        assert(locals_of(args@) =~= locals_of(old(args)@).push(v.spec_local()));
        assert forall|e: EnvV| (handles_wf(old(args)@, e) && v.wf(e)) implies #[trigger] handles_wf(
            args@,
            e,
        ) by {
            assert forall|i: int| 0 <= i < args@.len() implies (#[trigger] args@[i]).wf(e) by {
                if i < old(args)@.len() {
                    assert(old(args)@[i].wf(e));
                } else {
                    assert(args@[i] == u);
                }
            };
        };
    }
}

/// The trait for specifying arguments of a call builder: implemented by the
/// unit tuple and by tuples of handles, each implementation appending its
/// elements — upcast to `Any` — to an argument vector.
pub trait Arguments: Sized {
    /// The engine references of the elements, in order.
    spec fn spec_locals(self) -> Seq<Local>;

    /// Every element is valid under `e`.
    spec fn args_wf(self, e: EnvV) -> bool;

    /// Appends the elements to an argument vector.
    fn append(self, args: &mut Vec<Handle<JsValue>>)
        ensures
            locals_of(final(args)@) == locals_of(old(args)@) + self.spec_locals(),
            forall|e: EnvV|
                (handles_wf(old(args)@, e) && self.args_wf(e)) ==> #[trigger] handles_wf(
                    final(args)@,
                    e,
                ),
    ;
}

impl Arguments for () {
    open spec fn spec_locals(self) -> Seq<Local> {
        Seq::empty()
    }

    open spec fn args_wf(self, e: EnvV) -> bool {
        true
    }

    fn append(self, args: &mut Vec<Handle<JsValue>>) {
        proof {
            assert(locals_of(args@) =~= locals_of(old(args)@) + Seq::<Local>::empty());
        }
    }
}

impl<V0: Value> Arguments for (Handle<V0>,) {
    open spec fn spec_locals(self) -> Seq<Local> {
        seq![self.0.spec_local()]
    }

    open spec fn args_wf(self, e: EnvV) -> bool {
        self.0.wf(e)
    }

    fn append(self, args: &mut Vec<Handle<JsValue>>) {
        let ghost s0 = args@;
        push_arg(args, self.0);
        proof {
            assert(locals_of(args@) =~= locals_of(old(args)@) + self.spec_locals());
            assert forall|e: EnvV| (handles_wf(old(args)@, e) && self.args_wf(e))
                implies #[trigger] handles_wf(args@, e) by {

            assert(handles_wf(args@, e));
            };
        }
    }
}


impl<V0: Value, V1: Value> Arguments for (Handle<V0>, Handle<V1>) {
    open spec fn spec_locals(self) -> Seq<Local> {
        seq![self.0.spec_local(), self.1.spec_local()]
    }

    open spec fn args_wf(self, e: EnvV) -> bool {
        self.0.wf(e) && self.1.wf(e)
    }

    fn append(self, args: &mut Vec<Handle<JsValue>>) {
        let ghost s0 = args@;
        push_arg(args, self.0);
        let ghost s1 = args@;
        push_arg(args, self.1);
        proof {
            assert(locals_of(args@) =~= locals_of(old(args)@) + self.spec_locals());
            assert forall|e: EnvV| (handles_wf(old(args)@, e) && self.args_wf(e))
                implies #[trigger] handles_wf(args@, e) by {
            assert(handles_wf(s1, e));
            assert(handles_wf(args@, e));
            };
        }
    }
}


impl<V0: Value, V1: Value, V2: Value> Arguments for (Handle<V0>, Handle<V1>, Handle<V2>) {
    open spec fn spec_locals(self) -> Seq<Local> {
        seq![self.0.spec_local(), self.1.spec_local(), self.2.spec_local()]
    }

    open spec fn args_wf(self, e: EnvV) -> bool {
        self.0.wf(e) && self.1.wf(e) && self.2.wf(e)
    }

    fn append(self, args: &mut Vec<Handle<JsValue>>) {
        let ghost s0 = args@;
        push_arg(args, self.0);
        let ghost s1 = args@;
        push_arg(args, self.1);
        let ghost s2 = args@;
        push_arg(args, self.2);
        proof {
            assert(locals_of(args@) =~= locals_of(old(args)@) + self.spec_locals());
            assert forall|e: EnvV| (handles_wf(old(args)@, e) && self.args_wf(e))
                implies #[trigger] handles_wf(args@, e) by {
            assert(handles_wf(s1, e));
            assert(handles_wf(s2, e));
            assert(handles_wf(args@, e));
            };
        }
    }
}


impl<V0: Value, V1: Value, V2: Value, V3: Value> Arguments for (Handle<V0>, Handle<V1>, Handle<V2>, Handle<V3>) {
    open spec fn spec_locals(self) -> Seq<Local> {
        seq![self.0.spec_local(), self.1.spec_local(), self.2.spec_local(), self.3.spec_local()]
    }

    open spec fn args_wf(self, e: EnvV) -> bool {
        self.0.wf(e) && self.1.wf(e) && self.2.wf(e) && self.3.wf(e)
    }

    fn append(self, args: &mut Vec<Handle<JsValue>>) {
        let ghost s0 = args@;
        push_arg(args, self.0);
        let ghost s1 = args@;
        push_arg(args, self.1);
        let ghost s2 = args@;
        push_arg(args, self.2);
        let ghost s3 = args@;
        push_arg(args, self.3);
        proof {
            assert(locals_of(args@) =~= locals_of(old(args)@) + self.spec_locals());
            assert forall|e: EnvV| (handles_wf(old(args)@, e) && self.args_wf(e))
                implies #[trigger] handles_wf(args@, e) by {
            assert(handles_wf(s1, e));
            assert(handles_wf(s2, e));
            assert(handles_wf(s3, e));
            assert(handles_wf(args@, e));
            };
        }
    }
}


impl<V0: Value, V1: Value, V2: Value, V3: Value, V4: Value> Arguments for (Handle<V0>, Handle<V1>, Handle<V2>, Handle<V3>, Handle<V4>) {
    open spec fn spec_locals(self) -> Seq<Local> {
        seq![self.0.spec_local(), self.1.spec_local(), self.2.spec_local(), self.3.spec_local(), self.4.spec_local()]
    }

    open spec fn args_wf(self, e: EnvV) -> bool {
        self.0.wf(e) && self.1.wf(e) && self.2.wf(e) && self.3.wf(e) && self.4.wf(e)
    }

    fn append(self, args: &mut Vec<Handle<JsValue>>) {
        let ghost s0 = args@;
        push_arg(args, self.0);
        let ghost s1 = args@;
        push_arg(args, self.1);
        let ghost s2 = args@;
        push_arg(args, self.2);
        let ghost s3 = args@;
        push_arg(args, self.3);
        let ghost s4 = args@;
        push_arg(args, self.4);
        proof {
            assert(locals_of(args@) =~= locals_of(old(args)@) + self.spec_locals());
            assert forall|e: EnvV| (handles_wf(old(args)@, e) && self.args_wf(e))
                implies #[trigger] handles_wf(args@, e) by {
            assert(handles_wf(s1, e));
            assert(handles_wf(s2, e));
            assert(handles_wf(s3, e));
            assert(handles_wf(s4, e));
            assert(handles_wf(args@, e));
            };
        }
    }
}


impl<V0: Value, V1: Value, V2: Value, V3: Value, V4: Value, V5: Value> Arguments for (Handle<V0>, Handle<V1>, Handle<V2>, Handle<V3>, Handle<V4>, Handle<V5>) {
    open spec fn spec_locals(self) -> Seq<Local> {
        seq![self.0.spec_local(), self.1.spec_local(), self.2.spec_local(), self.3.spec_local(), self.4.spec_local(), self.5.spec_local()]
    }

    open spec fn args_wf(self, e: EnvV) -> bool {
        self.0.wf(e) && self.1.wf(e) && self.2.wf(e) && self.3.wf(e) && self.4.wf(e) && self.5.wf(e)
    }

    fn append(self, args: &mut Vec<Handle<JsValue>>) {
        let ghost s0 = args@;
        push_arg(args, self.0);
        let ghost s1 = args@;
        push_arg(args, self.1);
        let ghost s2 = args@;
        push_arg(args, self.2);
        let ghost s3 = args@;
        push_arg(args, self.3);
        let ghost s4 = args@;
        push_arg(args, self.4);
        let ghost s5 = args@;
        push_arg(args, self.5);
        proof {
            assert(locals_of(args@) =~= locals_of(old(args)@) + self.spec_locals());
            assert forall|e: EnvV| (handles_wf(old(args)@, e) && self.args_wf(e))
                implies #[trigger] handles_wf(args@, e) by {
            assert(handles_wf(s1, e));
            assert(handles_wf(s2, e));
            assert(handles_wf(s3, e));
            assert(handles_wf(s4, e));
            assert(handles_wf(s5, e));
            assert(handles_wf(args@, e));
            };
        }
    }
}


impl<V0: Value, V1: Value, V2: Value, V3: Value, V4: Value, V5: Value, V6: Value> Arguments for (Handle<V0>, Handle<V1>, Handle<V2>, Handle<V3>, Handle<V4>, Handle<V5>, Handle<V6>) {
    open spec fn spec_locals(self) -> Seq<Local> {
        seq![self.0.spec_local(), self.1.spec_local(), self.2.spec_local(), self.3.spec_local(), self.4.spec_local(), self.5.spec_local(), self.6.spec_local()]
    }

    open spec fn args_wf(self, e: EnvV) -> bool {
        self.0.wf(e) && self.1.wf(e) && self.2.wf(e) && self.3.wf(e) && self.4.wf(e) && self.5.wf(e) && self.6.wf(e)
    }

    fn append(self, args: &mut Vec<Handle<JsValue>>) {
        let ghost s0 = args@;
        push_arg(args, self.0);
        let ghost s1 = args@;
        push_arg(args, self.1);
        let ghost s2 = args@;
        push_arg(args, self.2);
        let ghost s3 = args@;
        push_arg(args, self.3);
        let ghost s4 = args@;
        push_arg(args, self.4);
        let ghost s5 = args@;
        push_arg(args, self.5);
        let ghost s6 = args@;
        push_arg(args, self.6);
        proof {
            assert(locals_of(args@) =~= locals_of(old(args)@) + self.spec_locals());
            assert forall|e: EnvV| (handles_wf(old(args)@, e) && self.args_wf(e))
                implies #[trigger] handles_wf(args@, e) by {
            assert(handles_wf(s1, e));
            assert(handles_wf(s2, e));
            assert(handles_wf(s3, e));
            assert(handles_wf(s4, e));
            assert(handles_wf(s5, e));
            assert(handles_wf(s6, e));
            assert(handles_wf(args@, e));
            };
        }
    }
}


impl<V0: Value, V1: Value, V2: Value, V3: Value, V4: Value, V5: Value, V6: Value, V7: Value> Arguments for (Handle<V0>, Handle<V1>, Handle<V2>, Handle<V3>, Handle<V4>, Handle<V5>, Handle<V6>, Handle<V7>) {
    open spec fn spec_locals(self) -> Seq<Local> {
        seq![self.0.spec_local(), self.1.spec_local(), self.2.spec_local(), self.3.spec_local(), self.4.spec_local(), self.5.spec_local(), self.6.spec_local(), self.7.spec_local()]
    }

    open spec fn args_wf(self, e: EnvV) -> bool {
        self.0.wf(e) && self.1.wf(e) && self.2.wf(e) && self.3.wf(e) && self.4.wf(e) && self.5.wf(e) && self.6.wf(e) && self.7.wf(e)
    }

    fn append(self, args: &mut Vec<Handle<JsValue>>) {
        let ghost s0 = args@;
        push_arg(args, self.0);
        let ghost s1 = args@;
        push_arg(args, self.1);
        let ghost s2 = args@;
        push_arg(args, self.2);
        let ghost s3 = args@;
        push_arg(args, self.3);
        let ghost s4 = args@;
        push_arg(args, self.4);
        let ghost s5 = args@;
        push_arg(args, self.5);
        let ghost s6 = args@;
        push_arg(args, self.6);
        let ghost s7 = args@;
        push_arg(args, self.7);
        proof {
            assert(locals_of(args@) =~= locals_of(old(args)@) + self.spec_locals());
            assert forall|e: EnvV| (handles_wf(old(args)@, e) && self.args_wf(e))
                implies #[trigger] handles_wf(args@, e) by {
            assert(handles_wf(s1, e));
            assert(handles_wf(s2, e));
            assert(handles_wf(s3, e));
            assert(handles_wf(s4, e));
            assert(handles_wf(s5, e));
            assert(handles_wf(s6, e));
            assert(handles_wf(s7, e));
            assert(handles_wf(args@, e));
            };
        }
    }
}


impl<V0: Value, V1: Value, V2: Value, V3: Value, V4: Value, V5: Value, V6: Value, V7: Value, V8: Value> Arguments for (Handle<V0>, Handle<V1>, Handle<V2>, Handle<V3>, Handle<V4>, Handle<V5>, Handle<V6>, Handle<V7>, Handle<V8>) {
    open spec fn spec_locals(self) -> Seq<Local> {
        seq![self.0.spec_local(), self.1.spec_local(), self.2.spec_local(), self.3.spec_local(), self.4.spec_local(), self.5.spec_local(), self.6.spec_local(), self.7.spec_local(), self.8.spec_local()]
    }

    open spec fn args_wf(self, e: EnvV) -> bool {
        self.0.wf(e) && self.1.wf(e) && self.2.wf(e) && self.3.wf(e) && self.4.wf(e) && self.5.wf(e) && self.6.wf(e) && self.7.wf(e) && self.8.wf(e)
    }

    fn append(self, args: &mut Vec<Handle<JsValue>>) {
        let ghost s0 = args@;
        push_arg(args, self.0);
        let ghost s1 = args@;
        push_arg(args, self.1);
        let ghost s2 = args@;
        push_arg(args, self.2);
        let ghost s3 = args@;
        push_arg(args, self.3);
        let ghost s4 = args@;
        push_arg(args, self.4);
        let ghost s5 = args@;
        push_arg(args, self.5);
        let ghost s6 = args@;
        push_arg(args, self.6);
        let ghost s7 = args@;
        push_arg(args, self.7);
        let ghost s8 = args@;
        push_arg(args, self.8);
        proof {
            assert(locals_of(args@) =~= locals_of(old(args)@) + self.spec_locals());
            assert forall|e: EnvV| (handles_wf(old(args)@, e) && self.args_wf(e))
                implies #[trigger] handles_wf(args@, e) by {
            assert(handles_wf(s1, e));
            assert(handles_wf(s2, e));
            assert(handles_wf(s3, e));
            assert(handles_wf(s4, e));
            assert(handles_wf(s5, e));
            assert(handles_wf(s6, e));
            assert(handles_wf(s7, e));
            assert(handles_wf(s8, e));
            assert(handles_wf(args@, e));
            };
        }
    }
}


impl<V0: Value, V1: Value, V2: Value, V3: Value, V4: Value, V5: Value, V6: Value, V7: Value, V8: Value, V9: Value> Arguments for (Handle<V0>, Handle<V1>, Handle<V2>, Handle<V3>, Handle<V4>, Handle<V5>, Handle<V6>, Handle<V7>, Handle<V8>, Handle<V9>) {
    open spec fn spec_locals(self) -> Seq<Local> {
        seq![self.0.spec_local(), self.1.spec_local(), self.2.spec_local(), self.3.spec_local(), self.4.spec_local(), self.5.spec_local(), self.6.spec_local(), self.7.spec_local(), self.8.spec_local(), self.9.spec_local()]
    }

    open spec fn args_wf(self, e: EnvV) -> bool {
        self.0.wf(e) && self.1.wf(e) && self.2.wf(e) && self.3.wf(e) && self.4.wf(e) && self.5.wf(e) && self.6.wf(e) && self.7.wf(e) && self.8.wf(e) && self.9.wf(e)
    }

    fn append(self, args: &mut Vec<Handle<JsValue>>) {
        let ghost s0 = args@;
        push_arg(args, self.0);
        let ghost s1 = args@;
        push_arg(args, self.1);
        let ghost s2 = args@;
        push_arg(args, self.2);
        let ghost s3 = args@;
        push_arg(args, self.3);
        let ghost s4 = args@;
        push_arg(args, self.4);
        let ghost s5 = args@;
        push_arg(args, self.5);
        let ghost s6 = args@;
        push_arg(args, self.6);
        let ghost s7 = args@;
        push_arg(args, self.7);
        let ghost s8 = args@;
        push_arg(args, self.8);
        let ghost s9 = args@;
        push_arg(args, self.9);
        proof {
            assert(locals_of(args@) =~= locals_of(old(args)@) + self.spec_locals());
            assert forall|e: EnvV| (handles_wf(old(args)@, e) && self.args_wf(e))
                implies #[trigger] handles_wf(args@, e) by {
            assert(handles_wf(s1, e));
            assert(handles_wf(s2, e));
            assert(handles_wf(s3, e));
            assert(handles_wf(s4, e));
            assert(handles_wf(s5, e));
            assert(handles_wf(s6, e));
            assert(handles_wf(s7, e));
            assert(handles_wf(s8, e));
            assert(handles_wf(s9, e));
            assert(handles_wf(args@, e));
            };
        }
    }
}


impl<V0: Value, V1: Value, V2: Value, V3: Value, V4: Value, V5: Value, V6: Value, V7: Value, V8: Value, V9: Value, V10: Value> Arguments for (Handle<V0>, Handle<V1>, Handle<V2>, Handle<V3>, Handle<V4>, Handle<V5>, Handle<V6>, Handle<V7>, Handle<V8>, Handle<V9>, Handle<V10>) {
    open spec fn spec_locals(self) -> Seq<Local> {
        seq![self.0.spec_local(), self.1.spec_local(), self.2.spec_local(), self.3.spec_local(), self.4.spec_local(), self.5.spec_local(), self.6.spec_local(), self.7.spec_local(), self.8.spec_local(), self.9.spec_local(), self.10.spec_local()]
    }

    open spec fn args_wf(self, e: EnvV) -> bool {
        self.0.wf(e) && self.1.wf(e) && self.2.wf(e) && self.3.wf(e) && self.4.wf(e) && self.5.wf(e) && self.6.wf(e) && self.7.wf(e) && self.8.wf(e) && self.9.wf(e) && self.10.wf(e)
    }

    fn append(self, args: &mut Vec<Handle<JsValue>>) {
        let ghost s0 = args@;
        push_arg(args, self.0);
        let ghost s1 = args@;
        push_arg(args, self.1);
        let ghost s2 = args@;
        push_arg(args, self.2);
        let ghost s3 = args@;
        push_arg(args, self.3);
        let ghost s4 = args@;
        push_arg(args, self.4);
        let ghost s5 = args@;
        push_arg(args, self.5);
        let ghost s6 = args@;
        push_arg(args, self.6);
        let ghost s7 = args@;
        push_arg(args, self.7);
        let ghost s8 = args@;
        push_arg(args, self.8);
        let ghost s9 = args@;
        push_arg(args, self.9);
        let ghost s10 = args@;
        push_arg(args, self.10);
        proof {
            assert(locals_of(args@) =~= locals_of(old(args)@) + self.spec_locals());
            assert forall|e: EnvV| (handles_wf(old(args)@, e) && self.args_wf(e))
                implies #[trigger] handles_wf(args@, e) by {
            assert(handles_wf(s1, e));
            assert(handles_wf(s2, e));
            assert(handles_wf(s3, e));
            assert(handles_wf(s4, e));
            assert(handles_wf(s5, e));
            assert(handles_wf(s6, e));
            assert(handles_wf(s7, e));
            assert(handles_wf(s8, e));
            assert(handles_wf(s9, e));
            assert(handles_wf(s10, e));
            assert(handles_wf(args@, e));
            };
        }
    }
}


impl<V0: Value, V1: Value, V2: Value, V3: Value, V4: Value, V5: Value, V6: Value, V7: Value, V8: Value, V9: Value, V10: Value, V11: Value> Arguments for (Handle<V0>, Handle<V1>, Handle<V2>, Handle<V3>, Handle<V4>, Handle<V5>, Handle<V6>, Handle<V7>, Handle<V8>, Handle<V9>, Handle<V10>, Handle<V11>) {
    open spec fn spec_locals(self) -> Seq<Local> {
        seq![self.0.spec_local(), self.1.spec_local(), self.2.spec_local(), self.3.spec_local(), self.4.spec_local(), self.5.spec_local(), self.6.spec_local(), self.7.spec_local(), self.8.spec_local(), self.9.spec_local(), self.10.spec_local(), self.11.spec_local()]
    }

    open spec fn args_wf(self, e: EnvV) -> bool {
        self.0.wf(e) && self.1.wf(e) && self.2.wf(e) && self.3.wf(e) && self.4.wf(e) && self.5.wf(e) && self.6.wf(e) && self.7.wf(e) && self.8.wf(e) && self.9.wf(e) && self.10.wf(e) && self.11.wf(e)
    }

    fn append(self, args: &mut Vec<Handle<JsValue>>) {
        let ghost s0 = args@;
        push_arg(args, self.0);
        let ghost s1 = args@;
        push_arg(args, self.1);
        let ghost s2 = args@;
        push_arg(args, self.2);
        let ghost s3 = args@;
        push_arg(args, self.3);
        let ghost s4 = args@;
        push_arg(args, self.4);
        let ghost s5 = args@;
        push_arg(args, self.5);
        let ghost s6 = args@;
        push_arg(args, self.6);
        let ghost s7 = args@;
        push_arg(args, self.7);
        let ghost s8 = args@;
        push_arg(args, self.8);
        let ghost s9 = args@;
        push_arg(args, self.9);
        let ghost s10 = args@;
        push_arg(args, self.10);
        let ghost s11 = args@;
        push_arg(args, self.11);
        proof {
            assert(locals_of(args@) =~= locals_of(old(args)@) + self.spec_locals());
            assert forall|e: EnvV| (handles_wf(old(args)@, e) && self.args_wf(e))
                implies #[trigger] handles_wf(args@, e) by {
            assert(handles_wf(s1, e));
            assert(handles_wf(s2, e));
            assert(handles_wf(s3, e));
            assert(handles_wf(s4, e));
            assert(handles_wf(s5, e));
            assert(handles_wf(s6, e));
            assert(handles_wf(s7, e));
            assert(handles_wf(s8, e));
            assert(handles_wf(s9, e));
            assert(handles_wf(s10, e));
            assert(handles_wf(s11, e));
            assert(handles_wf(args@, e));
            };
        }
    }
}


impl<V0: Value, V1: Value, V2: Value, V3: Value, V4: Value, V5: Value, V6: Value, V7: Value, V8: Value, V9: Value, V10: Value, V11: Value, V12: Value> Arguments for (Handle<V0>, Handle<V1>, Handle<V2>, Handle<V3>, Handle<V4>, Handle<V5>, Handle<V6>, Handle<V7>, Handle<V8>, Handle<V9>, Handle<V10>, Handle<V11>, Handle<V12>) {
    open spec fn spec_locals(self) -> Seq<Local> {
        seq![self.0.spec_local(), self.1.spec_local(), self.2.spec_local(), self.3.spec_local(), self.4.spec_local(), self.5.spec_local(), self.6.spec_local(), self.7.spec_local(), self.8.spec_local(), self.9.spec_local(), self.10.spec_local(), self.11.spec_local(), self.12.spec_local()]
    }

    open spec fn args_wf(self, e: EnvV) -> bool {
        self.0.wf(e) && self.1.wf(e) && self.2.wf(e) && self.3.wf(e) && self.4.wf(e) && self.5.wf(e) && self.6.wf(e) && self.7.wf(e) && self.8.wf(e) && self.9.wf(e) && self.10.wf(e) && self.11.wf(e) && self.12.wf(e)
    }

    fn append(self, args: &mut Vec<Handle<JsValue>>) {
        let ghost s0 = args@;
        push_arg(args, self.0);
        let ghost s1 = args@;
        push_arg(args, self.1);
        let ghost s2 = args@;
        push_arg(args, self.2);
        let ghost s3 = args@;
        push_arg(args, self.3);
        let ghost s4 = args@;
        push_arg(args, self.4);
        let ghost s5 = args@;
        push_arg(args, self.5);
        let ghost s6 = args@;
        push_arg(args, self.6);
        let ghost s7 = args@;
        push_arg(args, self.7);
        let ghost s8 = args@;
        push_arg(args, self.8);
        let ghost s9 = args@;
        push_arg(args, self.9);
        let ghost s10 = args@;
        push_arg(args, self.10);
        let ghost s11 = args@;
        push_arg(args, self.11);
        let ghost s12 = args@;
        push_arg(args, self.12);
        proof {
            assert(locals_of(args@) =~= locals_of(old(args)@) + self.spec_locals());
            assert forall|e: EnvV| (handles_wf(old(args)@, e) && self.args_wf(e))
                implies #[trigger] handles_wf(args@, e) by {
            assert(handles_wf(s1, e));
            assert(handles_wf(s2, e));
            assert(handles_wf(s3, e));
            assert(handles_wf(s4, e));
            assert(handles_wf(s5, e));
            assert(handles_wf(s6, e));
            assert(handles_wf(s7, e));
            assert(handles_wf(s8, e));
            assert(handles_wf(s9, e));
            assert(handles_wf(s10, e));
            assert(handles_wf(s11, e));
            assert(handles_wf(s12, e));
            assert(handles_wf(args@, e));
            };
        }
    }
}


impl<V0: Value, V1: Value, V2: Value, V3: Value, V4: Value, V5: Value, V6: Value, V7: Value, V8: Value, V9: Value, V10: Value, V11: Value, V12: Value, V13: Value> Arguments for (Handle<V0>, Handle<V1>, Handle<V2>, Handle<V3>, Handle<V4>, Handle<V5>, Handle<V6>, Handle<V7>, Handle<V8>, Handle<V9>, Handle<V10>, Handle<V11>, Handle<V12>, Handle<V13>) {
    open spec fn spec_locals(self) -> Seq<Local> {
        seq![self.0.spec_local(), self.1.spec_local(), self.2.spec_local(), self.3.spec_local(), self.4.spec_local(), self.5.spec_local(), self.6.spec_local(), self.7.spec_local(), self.8.spec_local(), self.9.spec_local(), self.10.spec_local(), self.11.spec_local(), self.12.spec_local(), self.13.spec_local()]
    }

    open spec fn args_wf(self, e: EnvV) -> bool {
        self.0.wf(e) && self.1.wf(e) && self.2.wf(e) && self.3.wf(e) && self.4.wf(e) && self.5.wf(e) && self.6.wf(e) && self.7.wf(e) && self.8.wf(e) && self.9.wf(e) && self.10.wf(e) && self.11.wf(e) && self.12.wf(e) && self.13.wf(e)
    }

    fn append(self, args: &mut Vec<Handle<JsValue>>) {
        let ghost s0 = args@;
        push_arg(args, self.0);
        let ghost s1 = args@;
        push_arg(args, self.1);
        let ghost s2 = args@;
        push_arg(args, self.2);
        let ghost s3 = args@;
        push_arg(args, self.3);
        let ghost s4 = args@;
        push_arg(args, self.4);
        let ghost s5 = args@;
        push_arg(args, self.5);
        let ghost s6 = args@;
        push_arg(args, self.6);
        let ghost s7 = args@;
        push_arg(args, self.7);
        let ghost s8 = args@;
        push_arg(args, self.8);
        let ghost s9 = args@;
        push_arg(args, self.9);
        let ghost s10 = args@;
        push_arg(args, self.10);
        let ghost s11 = args@;
        push_arg(args, self.11);
        let ghost s12 = args@;
        push_arg(args, self.12);
        let ghost s13 = args@;
        push_arg(args, self.13);
        proof {
            assert(locals_of(args@) =~= locals_of(old(args)@) + self.spec_locals());
            assert forall|e: EnvV| (handles_wf(old(args)@, e) && self.args_wf(e))
                implies #[trigger] handles_wf(args@, e) by {
            assert(handles_wf(s1, e));
            assert(handles_wf(s2, e));
            assert(handles_wf(s3, e));
            assert(handles_wf(s4, e));
            assert(handles_wf(s5, e));
            assert(handles_wf(s6, e));
            assert(handles_wf(s7, e));
            assert(handles_wf(s8, e));
            assert(handles_wf(s9, e));
            assert(handles_wf(s10, e));
            assert(handles_wf(s11, e));
            assert(handles_wf(s12, e));
            assert(handles_wf(s13, e));
            assert(handles_wf(args@, e));
            };
        }
    }
}


impl<V0: Value, V1: Value, V2: Value, V3: Value, V4: Value, V5: Value, V6: Value, V7: Value, V8: Value, V9: Value, V10: Value, V11: Value, V12: Value, V13: Value, V14: Value> Arguments for (Handle<V0>, Handle<V1>, Handle<V2>, Handle<V3>, Handle<V4>, Handle<V5>, Handle<V6>, Handle<V7>, Handle<V8>, Handle<V9>, Handle<V10>, Handle<V11>, Handle<V12>, Handle<V13>, Handle<V14>) {
    open spec fn spec_locals(self) -> Seq<Local> {
        seq![self.0.spec_local(), self.1.spec_local(), self.2.spec_local(), self.3.spec_local(), self.4.spec_local(), self.5.spec_local(), self.6.spec_local(), self.7.spec_local(), self.8.spec_local(), self.9.spec_local(), self.10.spec_local(), self.11.spec_local(), self.12.spec_local(), self.13.spec_local(), self.14.spec_local()]
    }

    open spec fn args_wf(self, e: EnvV) -> bool {
        self.0.wf(e) && self.1.wf(e) && self.2.wf(e) && self.3.wf(e) && self.4.wf(e) && self.5.wf(e) && self.6.wf(e) && self.7.wf(e) && self.8.wf(e) && self.9.wf(e) && self.10.wf(e) && self.11.wf(e) && self.12.wf(e) && self.13.wf(e) && self.14.wf(e)
    }

    fn append(self, args: &mut Vec<Handle<JsValue>>) {
        let ghost s0 = args@;
        push_arg(args, self.0);
        let ghost s1 = args@;
        push_arg(args, self.1);
        let ghost s2 = args@;
        push_arg(args, self.2);
        let ghost s3 = args@;
        push_arg(args, self.3);
        let ghost s4 = args@;
        push_arg(args, self.4);
        let ghost s5 = args@;
        push_arg(args, self.5);
        let ghost s6 = args@;
        push_arg(args, self.6);
        let ghost s7 = args@;
        push_arg(args, self.7);
        let ghost s8 = args@;
        push_arg(args, self.8);
        let ghost s9 = args@;
        push_arg(args, self.9);
        let ghost s10 = args@;
        push_arg(args, self.10);
        let ghost s11 = args@;
        push_arg(args, self.11);
        let ghost s12 = args@;
        push_arg(args, self.12);
        let ghost s13 = args@;
        push_arg(args, self.13);
        let ghost s14 = args@;
        push_arg(args, self.14);
        proof {
            assert(locals_of(args@) =~= locals_of(old(args)@) + self.spec_locals());
            assert forall|e: EnvV| (handles_wf(old(args)@, e) && self.args_wf(e))
                implies #[trigger] handles_wf(args@, e) by {
            assert(handles_wf(s1, e));
            assert(handles_wf(s2, e));
            assert(handles_wf(s3, e));
            assert(handles_wf(s4, e));
            assert(handles_wf(s5, e));
            assert(handles_wf(s6, e));
            assert(handles_wf(s7, e));
            assert(handles_wf(s8, e));
            assert(handles_wf(s9, e));
            assert(handles_wf(s10, e));
            assert(handles_wf(s11, e));
            assert(handles_wf(s12, e));
            assert(handles_wf(s13, e));
            assert(handles_wf(s14, e));
            assert(handles_wf(args@, e));
            };
        }
    }
}


impl<V0: Value, V1: Value, V2: Value, V3: Value, V4: Value, V5: Value, V6: Value, V7: Value, V8: Value, V9: Value, V10: Value, V11: Value, V12: Value, V13: Value, V14: Value, V15: Value> Arguments for (Handle<V0>, Handle<V1>, Handle<V2>, Handle<V3>, Handle<V4>, Handle<V5>, Handle<V6>, Handle<V7>, Handle<V8>, Handle<V9>, Handle<V10>, Handle<V11>, Handle<V12>, Handle<V13>, Handle<V14>, Handle<V15>) {
    open spec fn spec_locals(self) -> Seq<Local> {
        seq![self.0.spec_local(), self.1.spec_local(), self.2.spec_local(), self.3.spec_local(), self.4.spec_local(), self.5.spec_local(), self.6.spec_local(), self.7.spec_local(), self.8.spec_local(), self.9.spec_local(), self.10.spec_local(), self.11.spec_local(), self.12.spec_local(), self.13.spec_local(), self.14.spec_local(), self.15.spec_local()]
    }

    open spec fn args_wf(self, e: EnvV) -> bool {
        self.0.wf(e) && self.1.wf(e) && self.2.wf(e) && self.3.wf(e) && self.4.wf(e) && self.5.wf(e) && self.6.wf(e) && self.7.wf(e) && self.8.wf(e) && self.9.wf(e) && self.10.wf(e) && self.11.wf(e) && self.12.wf(e) && self.13.wf(e) && self.14.wf(e) && self.15.wf(e)
    }

    fn append(self, args: &mut Vec<Handle<JsValue>>) {
        let ghost s0 = args@;
        push_arg(args, self.0);
        let ghost s1 = args@;
        push_arg(args, self.1);
        let ghost s2 = args@;
        push_arg(args, self.2);
        let ghost s3 = args@;
        push_arg(args, self.3);
        let ghost s4 = args@;
        push_arg(args, self.4);
        let ghost s5 = args@;
        push_arg(args, self.5);
        let ghost s6 = args@;
        push_arg(args, self.6);
        let ghost s7 = args@;
        push_arg(args, self.7);
        let ghost s8 = args@;
        push_arg(args, self.8);
        let ghost s9 = args@;
        push_arg(args, self.9);
        let ghost s10 = args@;
        push_arg(args, self.10);
        let ghost s11 = args@;
        push_arg(args, self.11);
        let ghost s12 = args@;
        push_arg(args, self.12);
        let ghost s13 = args@;
        push_arg(args, self.13);
        let ghost s14 = args@;
        push_arg(args, self.14);
        let ghost s15 = args@;
        push_arg(args, self.15);
        proof {
            assert(locals_of(args@) =~= locals_of(old(args)@) + self.spec_locals());
            assert forall|e: EnvV| (handles_wf(old(args)@, e) && self.args_wf(e))
                implies #[trigger] handles_wf(args@, e) by {
            assert(handles_wf(s1, e));
            assert(handles_wf(s2, e));
            assert(handles_wf(s3, e));
            assert(handles_wf(s4, e));
            assert(handles_wf(s5, e));
            assert(handles_wf(s6, e));
            assert(handles_wf(s7, e));
            assert(handles_wf(s8, e));
            assert(handles_wf(s9, e));
            assert(handles_wf(s10, e));
            assert(handles_wf(s11, e));
            assert(handles_wf(s12, e));
            assert(handles_wf(s13, e));
            assert(handles_wf(s14, e));
            assert(handles_wf(s15, e));
            assert(handles_wf(args@, e));
            };
        }
    }
}


impl<V0: Value, V1: Value, V2: Value, V3: Value, V4: Value, V5: Value, V6: Value, V7: Value, V8: Value, V9: Value, V10: Value, V11: Value, V12: Value, V13: Value, V14: Value, V15: Value, V16: Value> Arguments for (Handle<V0>, Handle<V1>, Handle<V2>, Handle<V3>, Handle<V4>, Handle<V5>, Handle<V6>, Handle<V7>, Handle<V8>, Handle<V9>, Handle<V10>, Handle<V11>, Handle<V12>, Handle<V13>, Handle<V14>, Handle<V15>, Handle<V16>) {
    open spec fn spec_locals(self) -> Seq<Local> {
        seq![self.0.spec_local(), self.1.spec_local(), self.2.spec_local(), self.3.spec_local(), self.4.spec_local(), self.5.spec_local(), self.6.spec_local(), self.7.spec_local(), self.8.spec_local(), self.9.spec_local(), self.10.spec_local(), self.11.spec_local(), self.12.spec_local(), self.13.spec_local(), self.14.spec_local(), self.15.spec_local(), self.16.spec_local()]
    }

    open spec fn args_wf(self, e: EnvV) -> bool {
        self.0.wf(e) && self.1.wf(e) && self.2.wf(e) && self.3.wf(e) && self.4.wf(e) && self.5.wf(e) && self.6.wf(e) && self.7.wf(e) && self.8.wf(e) && self.9.wf(e) && self.10.wf(e) && self.11.wf(e) && self.12.wf(e) && self.13.wf(e) && self.14.wf(e) && self.15.wf(e) && self.16.wf(e)
    }

    fn append(self, args: &mut Vec<Handle<JsValue>>) {
        let ghost s0 = args@;
        push_arg(args, self.0);
        let ghost s1 = args@;
        push_arg(args, self.1);
        let ghost s2 = args@;
        push_arg(args, self.2);
        let ghost s3 = args@;
        push_arg(args, self.3);
        let ghost s4 = args@;
        push_arg(args, self.4);
        let ghost s5 = args@;
        push_arg(args, self.5);
        let ghost s6 = args@;
        push_arg(args, self.6);
        let ghost s7 = args@;
        push_arg(args, self.7);
        let ghost s8 = args@;
        push_arg(args, self.8);
        let ghost s9 = args@;
        push_arg(args, self.9);
        let ghost s10 = args@;
        push_arg(args, self.10);
        let ghost s11 = args@;
        push_arg(args, self.11);
        let ghost s12 = args@;
        push_arg(args, self.12);
        let ghost s13 = args@;
        push_arg(args, self.13);
        let ghost s14 = args@;
        push_arg(args, self.14);
        let ghost s15 = args@;
        push_arg(args, self.15);
        let ghost s16 = args@;
        push_arg(args, self.16);
        proof {
            assert(locals_of(args@) =~= locals_of(old(args)@) + self.spec_locals());
            assert forall|e: EnvV| (handles_wf(old(args)@, e) && self.args_wf(e))
                implies #[trigger] handles_wf(args@, e) by {
            assert(handles_wf(s1, e));
            assert(handles_wf(s2, e));
            assert(handles_wf(s3, e));
            assert(handles_wf(s4, e));
            assert(handles_wf(s5, e));
            assert(handles_wf(s6, e));
            assert(handles_wf(s7, e));
            assert(handles_wf(s8, e));
            assert(handles_wf(s9, e));
            assert(handles_wf(s10, e));
            assert(handles_wf(s11, e));
            assert(handles_wf(s12, e));
            assert(handles_wf(s13, e));
            assert(handles_wf(s14, e));
            assert(handles_wf(s15, e));
            assert(handles_wf(s16, e));
            assert(handles_wf(args@, e));
            };
        }
    }
}


impl<V0: Value, V1: Value, V2: Value, V3: Value, V4: Value, V5: Value, V6: Value, V7: Value, V8: Value, V9: Value, V10: Value, V11: Value, V12: Value, V13: Value, V14: Value, V15: Value, V16: Value, V17: Value> Arguments for (Handle<V0>, Handle<V1>, Handle<V2>, Handle<V3>, Handle<V4>, Handle<V5>, Handle<V6>, Handle<V7>, Handle<V8>, Handle<V9>, Handle<V10>, Handle<V11>, Handle<V12>, Handle<V13>, Handle<V14>, Handle<V15>, Handle<V16>, Handle<V17>) {
    open spec fn spec_locals(self) -> Seq<Local> {
        seq![self.0.spec_local(), self.1.spec_local(), self.2.spec_local(), self.3.spec_local(), self.4.spec_local(), self.5.spec_local(), self.6.spec_local(), self.7.spec_local(), self.8.spec_local(), self.9.spec_local(), self.10.spec_local(), self.11.spec_local(), self.12.spec_local(), self.13.spec_local(), self.14.spec_local(), self.15.spec_local(), self.16.spec_local(), self.17.spec_local()]
    }

    open spec fn args_wf(self, e: EnvV) -> bool {
        self.0.wf(e) && self.1.wf(e) && self.2.wf(e) && self.3.wf(e) && self.4.wf(e) && self.5.wf(e) && self.6.wf(e) && self.7.wf(e) && self.8.wf(e) && self.9.wf(e) && self.10.wf(e) && self.11.wf(e) && self.12.wf(e) && self.13.wf(e) && self.14.wf(e) && self.15.wf(e) && self.16.wf(e) && self.17.wf(e)
    }

    fn append(self, args: &mut Vec<Handle<JsValue>>) {
        let ghost s0 = args@;
        push_arg(args, self.0);
        let ghost s1 = args@;
        push_arg(args, self.1);
        let ghost s2 = args@;
        push_arg(args, self.2);
        let ghost s3 = args@;
        push_arg(args, self.3);
        let ghost s4 = args@;
        push_arg(args, self.4);
        let ghost s5 = args@;
        push_arg(args, self.5);
        let ghost s6 = args@;
        push_arg(args, self.6);
        let ghost s7 = args@;
        push_arg(args, self.7);
        let ghost s8 = args@;
        push_arg(args, self.8);
        let ghost s9 = args@;
        push_arg(args, self.9);
        let ghost s10 = args@;
        push_arg(args, self.10);
        let ghost s11 = args@;
        push_arg(args, self.11);
        let ghost s12 = args@;
        push_arg(args, self.12);
        let ghost s13 = args@;
        push_arg(args, self.13);
        let ghost s14 = args@;
        push_arg(args, self.14);
        let ghost s15 = args@;
        push_arg(args, self.15);
        let ghost s16 = args@;
        push_arg(args, self.16);
        let ghost s17 = args@;
        push_arg(args, self.17);
        proof {
            assert(locals_of(args@) =~= locals_of(old(args)@) + self.spec_locals());
            assert forall|e: EnvV| (handles_wf(old(args)@, e) && self.args_wf(e))
                implies #[trigger] handles_wf(args@, e) by {
            assert(handles_wf(s1, e));
            assert(handles_wf(s2, e));
            assert(handles_wf(s3, e));
            assert(handles_wf(s4, e));
            assert(handles_wf(s5, e));
            assert(handles_wf(s6, e));
            assert(handles_wf(s7, e));
            assert(handles_wf(s8, e));
            assert(handles_wf(s9, e));
            assert(handles_wf(s10, e));
            assert(handles_wf(s11, e));
            assert(handles_wf(s12, e));
            assert(handles_wf(s13, e));
            assert(handles_wf(s14, e));
            assert(handles_wf(s15, e));
            assert(handles_wf(s16, e));
            assert(handles_wf(s17, e));
            assert(handles_wf(args@, e));
            };
        }
    }
}


impl<V0: Value, V1: Value, V2: Value, V3: Value, V4: Value, V5: Value, V6: Value, V7: Value, V8: Value, V9: Value, V10: Value, V11: Value, V12: Value, V13: Value, V14: Value, V15: Value, V16: Value, V17: Value, V18: Value> Arguments for (Handle<V0>, Handle<V1>, Handle<V2>, Handle<V3>, Handle<V4>, Handle<V5>, Handle<V6>, Handle<V7>, Handle<V8>, Handle<V9>, Handle<V10>, Handle<V11>, Handle<V12>, Handle<V13>, Handle<V14>, Handle<V15>, Handle<V16>, Handle<V17>, Handle<V18>) {
    open spec fn spec_locals(self) -> Seq<Local> {
        seq![self.0.spec_local(), self.1.spec_local(), self.2.spec_local(), self.3.spec_local(), self.4.spec_local(), self.5.spec_local(), self.6.spec_local(), self.7.spec_local(), self.8.spec_local(), self.9.spec_local(), self.10.spec_local(), self.11.spec_local(), self.12.spec_local(), self.13.spec_local(), self.14.spec_local(), self.15.spec_local(), self.16.spec_local(), self.17.spec_local(), self.18.spec_local()]
    }

    open spec fn args_wf(self, e: EnvV) -> bool {
        self.0.wf(e) && self.1.wf(e) && self.2.wf(e) && self.3.wf(e) && self.4.wf(e) && self.5.wf(e) && self.6.wf(e) && self.7.wf(e) && self.8.wf(e) && self.9.wf(e) && self.10.wf(e) && self.11.wf(e) && self.12.wf(e) && self.13.wf(e) && self.14.wf(e) && self.15.wf(e) && self.16.wf(e) && self.17.wf(e) && self.18.wf(e)
    }

    fn append(self, args: &mut Vec<Handle<JsValue>>) {
        let ghost s0 = args@;
        push_arg(args, self.0);
        let ghost s1 = args@;
        push_arg(args, self.1);
        let ghost s2 = args@;
        push_arg(args, self.2);
        let ghost s3 = args@;
        push_arg(args, self.3);
        let ghost s4 = args@;
        push_arg(args, self.4);
        let ghost s5 = args@;
        push_arg(args, self.5);
        let ghost s6 = args@;
        push_arg(args, self.6);
        let ghost s7 = args@;
        push_arg(args, self.7);
        let ghost s8 = args@;
        push_arg(args, self.8);
        let ghost s9 = args@;
        push_arg(args, self.9);
        let ghost s10 = args@;
        push_arg(args, self.10);
        let ghost s11 = args@;
        push_arg(args, self.11);
        let ghost s12 = args@;
        push_arg(args, self.12);
        let ghost s13 = args@;
        push_arg(args, self.13);
        let ghost s14 = args@;
        push_arg(args, self.14);
        let ghost s15 = args@;
        push_arg(args, self.15);
        let ghost s16 = args@;
        push_arg(args, self.16);
        let ghost s17 = args@;
        push_arg(args, self.17);
        let ghost s18 = args@;
        push_arg(args, self.18);
        proof {
            assert(locals_of(args@) =~= locals_of(old(args)@) + self.spec_locals());
            assert forall|e: EnvV| (handles_wf(old(args)@, e) && self.args_wf(e))
                implies #[trigger] handles_wf(args@, e) by {
            assert(handles_wf(s1, e));
            assert(handles_wf(s2, e));
            assert(handles_wf(s3, e));
            assert(handles_wf(s4, e));
            assert(handles_wf(s5, e));
            assert(handles_wf(s6, e));
            assert(handles_wf(s7, e));
            assert(handles_wf(s8, e));
            assert(handles_wf(s9, e));
            assert(handles_wf(s10, e));
            assert(handles_wf(s11, e));
            assert(handles_wf(s12, e));
            assert(handles_wf(s13, e));
            assert(handles_wf(s14, e));
            assert(handles_wf(s15, e));
            assert(handles_wf(s16, e));
            assert(handles_wf(s17, e));
            assert(handles_wf(s18, e));
            assert(handles_wf(args@, e));
            };
        }
    }
}


impl<V0: Value, V1: Value, V2: Value, V3: Value, V4: Value, V5: Value, V6: Value, V7: Value, V8: Value, V9: Value, V10: Value, V11: Value, V12: Value, V13: Value, V14: Value, V15: Value, V16: Value, V17: Value, V18: Value, V19: Value> Arguments for (Handle<V0>, Handle<V1>, Handle<V2>, Handle<V3>, Handle<V4>, Handle<V5>, Handle<V6>, Handle<V7>, Handle<V8>, Handle<V9>, Handle<V10>, Handle<V11>, Handle<V12>, Handle<V13>, Handle<V14>, Handle<V15>, Handle<V16>, Handle<V17>, Handle<V18>, Handle<V19>) {
    open spec fn spec_locals(self) -> Seq<Local> {
        seq![self.0.spec_local(), self.1.spec_local(), self.2.spec_local(), self.3.spec_local(), self.4.spec_local(), self.5.spec_local(), self.6.spec_local(), self.7.spec_local(), self.8.spec_local(), self.9.spec_local(), self.10.spec_local(), self.11.spec_local(), self.12.spec_local(), self.13.spec_local(), self.14.spec_local(), self.15.spec_local(), self.16.spec_local(), self.17.spec_local(), self.18.spec_local(), self.19.spec_local()]
    }

    open spec fn args_wf(self, e: EnvV) -> bool {
        self.0.wf(e) && self.1.wf(e) && self.2.wf(e) && self.3.wf(e) && self.4.wf(e) && self.5.wf(e) && self.6.wf(e) && self.7.wf(e) && self.8.wf(e) && self.9.wf(e) && self.10.wf(e) && self.11.wf(e) && self.12.wf(e) && self.13.wf(e) && self.14.wf(e) && self.15.wf(e) && self.16.wf(e) && self.17.wf(e) && self.18.wf(e) && self.19.wf(e)
    }

    fn append(self, args: &mut Vec<Handle<JsValue>>) {
        let ghost s0 = args@;
        push_arg(args, self.0);
        let ghost s1 = args@;
        push_arg(args, self.1);
        let ghost s2 = args@;
        push_arg(args, self.2);
        let ghost s3 = args@;
        push_arg(args, self.3);
        let ghost s4 = args@;
        push_arg(args, self.4);
        let ghost s5 = args@;
        push_arg(args, self.5);
        let ghost s6 = args@;
        push_arg(args, self.6);
        let ghost s7 = args@;
        push_arg(args, self.7);
        let ghost s8 = args@;
        push_arg(args, self.8);
        let ghost s9 = args@;
        push_arg(args, self.9);
        let ghost s10 = args@;
        push_arg(args, self.10);
        let ghost s11 = args@;
        push_arg(args, self.11);
        let ghost s12 = args@;
        push_arg(args, self.12);
        let ghost s13 = args@;
        push_arg(args, self.13);
        let ghost s14 = args@;
        push_arg(args, self.14);
        let ghost s15 = args@;
        push_arg(args, self.15);
        let ghost s16 = args@;
        push_arg(args, self.16);
        let ghost s17 = args@;
        push_arg(args, self.17);
        let ghost s18 = args@;
        push_arg(args, self.18);
        let ghost s19 = args@;
        push_arg(args, self.19);
        proof {
            assert(locals_of(args@) =~= locals_of(old(args)@) + self.spec_locals());
            assert forall|e: EnvV| (handles_wf(old(args)@, e) && self.args_wf(e))
                implies #[trigger] handles_wf(args@, e) by {
            assert(handles_wf(s1, e));
            assert(handles_wf(s2, e));
            assert(handles_wf(s3, e));
            assert(handles_wf(s4, e));
            assert(handles_wf(s5, e));
            assert(handles_wf(s6, e));
            assert(handles_wf(s7, e));
            assert(handles_wf(s8, e));
            assert(handles_wf(s9, e));
            assert(handles_wf(s10, e));
            assert(handles_wf(s11, e));
            assert(handles_wf(s12, e));
            assert(handles_wf(s13, e));
            assert(handles_wf(s14, e));
            assert(handles_wf(s15, e));
            assert(handles_wf(s16, e));
            assert(handles_wf(s17, e));
            assert(handles_wf(s18, e));
            assert(handles_wf(s19, e));
            assert(handles_wf(args@, e));
            };
        }
    }
}


impl<V0: Value, V1: Value, V2: Value, V3: Value, V4: Value, V5: Value, V6: Value, V7: Value, V8: Value, V9: Value, V10: Value, V11: Value, V12: Value, V13: Value, V14: Value, V15: Value, V16: Value, V17: Value, V18: Value, V19: Value, V20: Value> Arguments for (Handle<V0>, Handle<V1>, Handle<V2>, Handle<V3>, Handle<V4>, Handle<V5>, Handle<V6>, Handle<V7>, Handle<V8>, Handle<V9>, Handle<V10>, Handle<V11>, Handle<V12>, Handle<V13>, Handle<V14>, Handle<V15>, Handle<V16>, Handle<V17>, Handle<V18>, Handle<V19>, Handle<V20>) {
    open spec fn spec_locals(self) -> Seq<Local> {
        seq![self.0.spec_local(), self.1.spec_local(), self.2.spec_local(), self.3.spec_local(), self.4.spec_local(), self.5.spec_local(), self.6.spec_local(), self.7.spec_local(), self.8.spec_local(), self.9.spec_local(), self.10.spec_local(), self.11.spec_local(), self.12.spec_local(), self.13.spec_local(), self.14.spec_local(), self.15.spec_local(), self.16.spec_local(), self.17.spec_local(), self.18.spec_local(), self.19.spec_local(), self.20.spec_local()]
    }

    open spec fn args_wf(self, e: EnvV) -> bool {
        self.0.wf(e) && self.1.wf(e) && self.2.wf(e) && self.3.wf(e) && self.4.wf(e) && self.5.wf(e) && self.6.wf(e) && self.7.wf(e) && self.8.wf(e) && self.9.wf(e) && self.10.wf(e) && self.11.wf(e) && self.12.wf(e) && self.13.wf(e) && self.14.wf(e) && self.15.wf(e) && self.16.wf(e) && self.17.wf(e) && self.18.wf(e) && self.19.wf(e) && self.20.wf(e)
    }

    fn append(self, args: &mut Vec<Handle<JsValue>>) {
        let ghost s0 = args@;
        push_arg(args, self.0);
        let ghost s1 = args@;
        push_arg(args, self.1);
        let ghost s2 = args@;
        push_arg(args, self.2);
        let ghost s3 = args@;
        push_arg(args, self.3);
        let ghost s4 = args@;
        push_arg(args, self.4);
        let ghost s5 = args@;
        push_arg(args, self.5);
        let ghost s6 = args@;
        push_arg(args, self.6);
        let ghost s7 = args@;
        push_arg(args, self.7);
        let ghost s8 = args@;
        push_arg(args, self.8);
        let ghost s9 = args@;
        push_arg(args, self.9);
        let ghost s10 = args@;
        push_arg(args, self.10);
        let ghost s11 = args@;
        push_arg(args, self.11);
        let ghost s12 = args@;
        push_arg(args, self.12);
        let ghost s13 = args@;
        push_arg(args, self.13);
        let ghost s14 = args@;
        push_arg(args, self.14);
        let ghost s15 = args@;
        push_arg(args, self.15);
        let ghost s16 = args@;
        push_arg(args, self.16);
        let ghost s17 = args@;
        push_arg(args, self.17);
        let ghost s18 = args@;
        push_arg(args, self.18);
        let ghost s19 = args@;
        push_arg(args, self.19);
        let ghost s20 = args@;
        push_arg(args, self.20);
        proof {
            assert(locals_of(args@) =~= locals_of(old(args)@) + self.spec_locals());
            assert forall|e: EnvV| (handles_wf(old(args)@, e) && self.args_wf(e))
                implies #[trigger] handles_wf(args@, e) by {
            assert(handles_wf(s1, e));
            assert(handles_wf(s2, e));
            assert(handles_wf(s3, e));
            assert(handles_wf(s4, e));
            assert(handles_wf(s5, e));
            assert(handles_wf(s6, e));
            assert(handles_wf(s7, e));
            assert(handles_wf(s8, e));
            assert(handles_wf(s9, e));
            assert(handles_wf(s10, e));
            assert(handles_wf(s11, e));
            assert(handles_wf(s12, e));
            assert(handles_wf(s13, e));
            assert(handles_wf(s14, e));
            assert(handles_wf(s15, e));
            assert(handles_wf(s16, e));
            assert(handles_wf(s17, e));
            assert(handles_wf(s18, e));
            assert(handles_wf(s19, e));
            assert(handles_wf(s20, e));
            assert(handles_wf(args@, e));
            };
        }
    }
}


impl<V0: Value, V1: Value, V2: Value, V3: Value, V4: Value, V5: Value, V6: Value, V7: Value, V8: Value, V9: Value, V10: Value, V11: Value, V12: Value, V13: Value, V14: Value, V15: Value, V16: Value, V17: Value, V18: Value, V19: Value, V20: Value, V21: Value> Arguments for (Handle<V0>, Handle<V1>, Handle<V2>, Handle<V3>, Handle<V4>, Handle<V5>, Handle<V6>, Handle<V7>, Handle<V8>, Handle<V9>, Handle<V10>, Handle<V11>, Handle<V12>, Handle<V13>, Handle<V14>, Handle<V15>, Handle<V16>, Handle<V17>, Handle<V18>, Handle<V19>, Handle<V20>, Handle<V21>) {
    open spec fn spec_locals(self) -> Seq<Local> {
        seq![self.0.spec_local(), self.1.spec_local(), self.2.spec_local(), self.3.spec_local(), self.4.spec_local(), self.5.spec_local(), self.6.spec_local(), self.7.spec_local(), self.8.spec_local(), self.9.spec_local(), self.10.spec_local(), self.11.spec_local(), self.12.spec_local(), self.13.spec_local(), self.14.spec_local(), self.15.spec_local(), self.16.spec_local(), self.17.spec_local(), self.18.spec_local(), self.19.spec_local(), self.20.spec_local(), self.21.spec_local()]
    }

    open spec fn args_wf(self, e: EnvV) -> bool {
        self.0.wf(e) && self.1.wf(e) && self.2.wf(e) && self.3.wf(e) && self.4.wf(e) && self.5.wf(e) && self.6.wf(e) && self.7.wf(e) && self.8.wf(e) && self.9.wf(e) && self.10.wf(e) && self.11.wf(e) && self.12.wf(e) && self.13.wf(e) && self.14.wf(e) && self.15.wf(e) && self.16.wf(e) && self.17.wf(e) && self.18.wf(e) && self.19.wf(e) && self.20.wf(e) && self.21.wf(e)
    }

    fn append(self, args: &mut Vec<Handle<JsValue>>) {
        let ghost s0 = args@;
        push_arg(args, self.0);
        let ghost s1 = args@;
        push_arg(args, self.1);
        let ghost s2 = args@;
        push_arg(args, self.2);
        let ghost s3 = args@;
        push_arg(args, self.3);
        let ghost s4 = args@;
        push_arg(args, self.4);
        let ghost s5 = args@;
        push_arg(args, self.5);
        let ghost s6 = args@;
        push_arg(args, self.6);
        let ghost s7 = args@;
        push_arg(args, self.7);
        let ghost s8 = args@;
        push_arg(args, self.8);
        let ghost s9 = args@;
        push_arg(args, self.9);
        let ghost s10 = args@;
        push_arg(args, self.10);
        let ghost s11 = args@;
        push_arg(args, self.11);
        let ghost s12 = args@;
        push_arg(args, self.12);
        let ghost s13 = args@;
        push_arg(args, self.13);
        let ghost s14 = args@;
        push_arg(args, self.14);
        let ghost s15 = args@;
        push_arg(args, self.15);
        let ghost s16 = args@;
        push_arg(args, self.16);
        let ghost s17 = args@;
        push_arg(args, self.17);
        let ghost s18 = args@;
        push_arg(args, self.18);
        let ghost s19 = args@;
        push_arg(args, self.19);
        let ghost s20 = args@;
        push_arg(args, self.20);
        let ghost s21 = args@;
        push_arg(args, self.21);
        proof {
            assert(locals_of(args@) =~= locals_of(old(args)@) + self.spec_locals());
            assert forall|e: EnvV| (handles_wf(old(args)@, e) && self.args_wf(e))
                implies #[trigger] handles_wf(args@, e) by {
            assert(handles_wf(s1, e));
            assert(handles_wf(s2, e));
            assert(handles_wf(s3, e));
            assert(handles_wf(s4, e));
            assert(handles_wf(s5, e));
            assert(handles_wf(s6, e));
            assert(handles_wf(s7, e));
            assert(handles_wf(s8, e));
            assert(handles_wf(s9, e));
            assert(handles_wf(s10, e));
            assert(handles_wf(s11, e));
            assert(handles_wf(s12, e));
            assert(handles_wf(s13, e));
            assert(handles_wf(s14, e));
            assert(handles_wf(s15, e));
            assert(handles_wf(s16, e));
            assert(handles_wf(s17, e));
            assert(handles_wf(s18, e));
            assert(handles_wf(s19, e));
            assert(handles_wf(s20, e));
            assert(handles_wf(s21, e));
            assert(handles_wf(args@, e));
            };
        }
    }
}


impl<V0: Value, V1: Value, V2: Value, V3: Value, V4: Value, V5: Value, V6: Value, V7: Value, V8: Value, V9: Value, V10: Value, V11: Value, V12: Value, V13: Value, V14: Value, V15: Value, V16: Value, V17: Value, V18: Value, V19: Value, V20: Value, V21: Value, V22: Value> Arguments for (Handle<V0>, Handle<V1>, Handle<V2>, Handle<V3>, Handle<V4>, Handle<V5>, Handle<V6>, Handle<V7>, Handle<V8>, Handle<V9>, Handle<V10>, Handle<V11>, Handle<V12>, Handle<V13>, Handle<V14>, Handle<V15>, Handle<V16>, Handle<V17>, Handle<V18>, Handle<V19>, Handle<V20>, Handle<V21>, Handle<V22>) {
    open spec fn spec_locals(self) -> Seq<Local> {
        seq![self.0.spec_local(), self.1.spec_local(), self.2.spec_local(), self.3.spec_local(), self.4.spec_local(), self.5.spec_local(), self.6.spec_local(), self.7.spec_local(), self.8.spec_local(), self.9.spec_local(), self.10.spec_local(), self.11.spec_local(), self.12.spec_local(), self.13.spec_local(), self.14.spec_local(), self.15.spec_local(), self.16.spec_local(), self.17.spec_local(), self.18.spec_local(), self.19.spec_local(), self.20.spec_local(), self.21.spec_local(), self.22.spec_local()]
    }

    open spec fn args_wf(self, e: EnvV) -> bool {
        self.0.wf(e) && self.1.wf(e) && self.2.wf(e) && self.3.wf(e) && self.4.wf(e) && self.5.wf(e) && self.6.wf(e) && self.7.wf(e) && self.8.wf(e) && self.9.wf(e) && self.10.wf(e) && self.11.wf(e) && self.12.wf(e) && self.13.wf(e) && self.14.wf(e) && self.15.wf(e) && self.16.wf(e) && self.17.wf(e) && self.18.wf(e) && self.19.wf(e) && self.20.wf(e) && self.21.wf(e) && self.22.wf(e)
    }

    fn append(self, args: &mut Vec<Handle<JsValue>>) {
        let ghost s0 = args@;
        push_arg(args, self.0);
        let ghost s1 = args@;
        push_arg(args, self.1);
        let ghost s2 = args@;
        push_arg(args, self.2);
        let ghost s3 = args@;
        push_arg(args, self.3);
        let ghost s4 = args@;
        push_arg(args, self.4);
        let ghost s5 = args@;
        push_arg(args, self.5);
        let ghost s6 = args@;
        push_arg(args, self.6);
        let ghost s7 = args@;
        push_arg(args, self.7);
        let ghost s8 = args@;
        push_arg(args, self.8);
        let ghost s9 = args@;
        push_arg(args, self.9);
        let ghost s10 = args@;
        push_arg(args, self.10);
        let ghost s11 = args@;
        push_arg(args, self.11);
        let ghost s12 = args@;
        push_arg(args, self.12);
        let ghost s13 = args@;
        push_arg(args, self.13);
        let ghost s14 = args@;
        push_arg(args, self.14);
        let ghost s15 = args@;
        push_arg(args, self.15);
        let ghost s16 = args@;
        push_arg(args, self.16);
        let ghost s17 = args@;
        push_arg(args, self.17);
        let ghost s18 = args@;
        push_arg(args, self.18);
        let ghost s19 = args@;
        push_arg(args, self.19);
        let ghost s20 = args@;
        push_arg(args, self.20);
        let ghost s21 = args@;
        push_arg(args, self.21);
        let ghost s22 = args@;
        push_arg(args, self.22);
        proof {
            assert(locals_of(args@) =~= locals_of(old(args)@) + self.spec_locals());
            assert forall|e: EnvV| (handles_wf(old(args)@, e) && self.args_wf(e))
                implies #[trigger] handles_wf(args@, e) by {
            assert(handles_wf(s1, e));
            assert(handles_wf(s2, e));
            assert(handles_wf(s3, e));
            assert(handles_wf(s4, e));
            assert(handles_wf(s5, e));
            assert(handles_wf(s6, e));
            assert(handles_wf(s7, e));
            assert(handles_wf(s8, e));
            assert(handles_wf(s9, e));
            assert(handles_wf(s10, e));
            assert(handles_wf(s11, e));
            assert(handles_wf(s12, e));
            assert(handles_wf(s13, e));
            assert(handles_wf(s14, e));
            assert(handles_wf(s15, e));
            assert(handles_wf(s16, e));
            assert(handles_wf(s17, e));
            assert(handles_wf(s18, e));
            assert(handles_wf(s19, e));
            assert(handles_wf(s20, e));
            assert(handles_wf(s21, e));
            assert(handles_wf(s22, e));
            assert(handles_wf(args@, e));
            };
        }
    }
}


impl<V0: Value, V1: Value, V2: Value, V3: Value, V4: Value, V5: Value, V6: Value, V7: Value, V8: Value, V9: Value, V10: Value, V11: Value, V12: Value, V13: Value, V14: Value, V15: Value, V16: Value, V17: Value, V18: Value, V19: Value, V20: Value, V21: Value, V22: Value, V23: Value> Arguments for (Handle<V0>, Handle<V1>, Handle<V2>, Handle<V3>, Handle<V4>, Handle<V5>, Handle<V6>, Handle<V7>, Handle<V8>, Handle<V9>, Handle<V10>, Handle<V11>, Handle<V12>, Handle<V13>, Handle<V14>, Handle<V15>, Handle<V16>, Handle<V17>, Handle<V18>, Handle<V19>, Handle<V20>, Handle<V21>, Handle<V22>, Handle<V23>) {
    open spec fn spec_locals(self) -> Seq<Local> {
        seq![self.0.spec_local(), self.1.spec_local(), self.2.spec_local(), self.3.spec_local(), self.4.spec_local(), self.5.spec_local(), self.6.spec_local(), self.7.spec_local(), self.8.spec_local(), self.9.spec_local(), self.10.spec_local(), self.11.spec_local(), self.12.spec_local(), self.13.spec_local(), self.14.spec_local(), self.15.spec_local(), self.16.spec_local(), self.17.spec_local(), self.18.spec_local(), self.19.spec_local(), self.20.spec_local(), self.21.spec_local(), self.22.spec_local(), self.23.spec_local()]
    }

    open spec fn args_wf(self, e: EnvV) -> bool {
        self.0.wf(e) && self.1.wf(e) && self.2.wf(e) && self.3.wf(e) && self.4.wf(e) && self.5.wf(e) && self.6.wf(e) && self.7.wf(e) && self.8.wf(e) && self.9.wf(e) && self.10.wf(e) && self.11.wf(e) && self.12.wf(e) && self.13.wf(e) && self.14.wf(e) && self.15.wf(e) && self.16.wf(e) && self.17.wf(e) && self.18.wf(e) && self.19.wf(e) && self.20.wf(e) && self.21.wf(e) && self.22.wf(e) && self.23.wf(e)
    }

    fn append(self, args: &mut Vec<Handle<JsValue>>) {
        let ghost s0 = args@;
        push_arg(args, self.0);
        let ghost s1 = args@;
        push_arg(args, self.1);
        let ghost s2 = args@;
        push_arg(args, self.2);
        let ghost s3 = args@;
        push_arg(args, self.3);
        let ghost s4 = args@;
        push_arg(args, self.4);
        let ghost s5 = args@;
        push_arg(args, self.5);
        let ghost s6 = args@;
        push_arg(args, self.6);
        let ghost s7 = args@;
        push_arg(args, self.7);
        let ghost s8 = args@;
        push_arg(args, self.8);
        let ghost s9 = args@;
        push_arg(args, self.9);
        let ghost s10 = args@;
        push_arg(args, self.10);
        let ghost s11 = args@;
        push_arg(args, self.11);
        let ghost s12 = args@;
        push_arg(args, self.12);
        let ghost s13 = args@;
        push_arg(args, self.13);
        let ghost s14 = args@;
        push_arg(args, self.14);
        let ghost s15 = args@;
        push_arg(args, self.15);
        let ghost s16 = args@;
        push_arg(args, self.16);
        let ghost s17 = args@;
        push_arg(args, self.17);
        let ghost s18 = args@;
        push_arg(args, self.18);
        let ghost s19 = args@;
        push_arg(args, self.19);
        let ghost s20 = args@;
        push_arg(args, self.20);
        let ghost s21 = args@;
        push_arg(args, self.21);
        let ghost s22 = args@;
        push_arg(args, self.22);
        let ghost s23 = args@;
        push_arg(args, self.23);
        proof {
            assert(locals_of(args@) =~= locals_of(old(args)@) + self.spec_locals());
            assert forall|e: EnvV| (handles_wf(old(args)@, e) && self.args_wf(e))
                implies #[trigger] handles_wf(args@, e) by {
            assert(handles_wf(s1, e));
            assert(handles_wf(s2, e));
            assert(handles_wf(s3, e));
            assert(handles_wf(s4, e));
            assert(handles_wf(s5, e));
            assert(handles_wf(s6, e));
            assert(handles_wf(s7, e));
            assert(handles_wf(s8, e));
            assert(handles_wf(s9, e));
            assert(handles_wf(s10, e));
            assert(handles_wf(s11, e));
            assert(handles_wf(s12, e));
            assert(handles_wf(s13, e));
            assert(handles_wf(s14, e));
            assert(handles_wf(s15, e));
            assert(handles_wf(s16, e));
            assert(handles_wf(s17, e));
            assert(handles_wf(s18, e));
            assert(handles_wf(s19, e));
            assert(handles_wf(s20, e));
            assert(handles_wf(s21, e));
            assert(handles_wf(s22, e));
            assert(handles_wf(s23, e));
            assert(handles_wf(args@, e));
            };
        }
    }
}


impl<V0: Value, V1: Value, V2: Value, V3: Value, V4: Value, V5: Value, V6: Value, V7: Value, V8: Value, V9: Value, V10: Value, V11: Value, V12: Value, V13: Value, V14: Value, V15: Value, V16: Value, V17: Value, V18: Value, V19: Value, V20: Value, V21: Value, V22: Value, V23: Value, V24: Value> Arguments for (Handle<V0>, Handle<V1>, Handle<V2>, Handle<V3>, Handle<V4>, Handle<V5>, Handle<V6>, Handle<V7>, Handle<V8>, Handle<V9>, Handle<V10>, Handle<V11>, Handle<V12>, Handle<V13>, Handle<V14>, Handle<V15>, Handle<V16>, Handle<V17>, Handle<V18>, Handle<V19>, Handle<V20>, Handle<V21>, Handle<V22>, Handle<V23>, Handle<V24>) {
    open spec fn spec_locals(self) -> Seq<Local> {
        seq![self.0.spec_local(), self.1.spec_local(), self.2.spec_local(), self.3.spec_local(), self.4.spec_local(), self.5.spec_local(), self.6.spec_local(), self.7.spec_local(), self.8.spec_local(), self.9.spec_local(), self.10.spec_local(), self.11.spec_local(), self.12.spec_local(), self.13.spec_local(), self.14.spec_local(), self.15.spec_local(), self.16.spec_local(), self.17.spec_local(), self.18.spec_local(), self.19.spec_local(), self.20.spec_local(), self.21.spec_local(), self.22.spec_local(), self.23.spec_local(), self.24.spec_local()]
    }

    open spec fn args_wf(self, e: EnvV) -> bool {
        self.0.wf(e) && self.1.wf(e) && self.2.wf(e) && self.3.wf(e) && self.4.wf(e) && self.5.wf(e) && self.6.wf(e) && self.7.wf(e) && self.8.wf(e) && self.9.wf(e) && self.10.wf(e) && self.11.wf(e) && self.12.wf(e) && self.13.wf(e) && self.14.wf(e) && self.15.wf(e) && self.16.wf(e) && self.17.wf(e) && self.18.wf(e) && self.19.wf(e) && self.20.wf(e) && self.21.wf(e) && self.22.wf(e) && self.23.wf(e) && self.24.wf(e)
    }

    fn append(self, args: &mut Vec<Handle<JsValue>>) {
        let ghost s0 = args@;
        push_arg(args, self.0);
        let ghost s1 = args@;
        push_arg(args, self.1);
        let ghost s2 = args@;
        push_arg(args, self.2);
        let ghost s3 = args@;
        push_arg(args, self.3);
        let ghost s4 = args@;
        push_arg(args, self.4);
        let ghost s5 = args@;
        push_arg(args, self.5);
        let ghost s6 = args@;
        push_arg(args, self.6);
        let ghost s7 = args@;
        push_arg(args, self.7);
        let ghost s8 = args@;
        push_arg(args, self.8);
        let ghost s9 = args@;
        push_arg(args, self.9);
        let ghost s10 = args@;
        push_arg(args, self.10);
        let ghost s11 = args@;
        push_arg(args, self.11);
        let ghost s12 = args@;
        push_arg(args, self.12);
        let ghost s13 = args@;
        push_arg(args, self.13);
        let ghost s14 = args@;
        push_arg(args, self.14);
        let ghost s15 = args@;
        push_arg(args, self.15);
        let ghost s16 = args@;
        push_arg(args, self.16);
        let ghost s17 = args@;
        push_arg(args, self.17);
        let ghost s18 = args@;
        push_arg(args, self.18);
        let ghost s19 = args@;
        push_arg(args, self.19);
        let ghost s20 = args@;
        push_arg(args, self.20);
        let ghost s21 = args@;
        push_arg(args, self.21);
        let ghost s22 = args@;
        push_arg(args, self.22);
        let ghost s23 = args@;
        push_arg(args, self.23);
        let ghost s24 = args@;
        push_arg(args, self.24);
        proof {
            assert(locals_of(args@) =~= locals_of(old(args)@) + self.spec_locals());
            assert forall|e: EnvV| (handles_wf(old(args)@, e) && self.args_wf(e))
                implies #[trigger] handles_wf(args@, e) by {
            assert(handles_wf(s1, e));
            assert(handles_wf(s2, e));
            assert(handles_wf(s3, e));
            assert(handles_wf(s4, e));
            assert(handles_wf(s5, e));
            assert(handles_wf(s6, e));
            assert(handles_wf(s7, e));
            assert(handles_wf(s8, e));
            assert(handles_wf(s9, e));
            assert(handles_wf(s10, e));
            assert(handles_wf(s11, e));
            assert(handles_wf(s12, e));
            assert(handles_wf(s13, e));
            assert(handles_wf(s14, e));
            assert(handles_wf(s15, e));
            assert(handles_wf(s16, e));
            assert(handles_wf(s17, e));
            assert(handles_wf(s18, e));
            assert(handles_wf(s19, e));
            assert(handles_wf(s20, e));
            assert(handles_wf(s21, e));
            assert(handles_wf(s22, e));
            assert(handles_wf(s23, e));
            assert(handles_wf(s24, e));
            assert(handles_wf(args@, e));
            };
        }
    }
}


impl<V0: Value, V1: Value, V2: Value, V3: Value, V4: Value, V5: Value, V6: Value, V7: Value, V8: Value, V9: Value, V10: Value, V11: Value, V12: Value, V13: Value, V14: Value, V15: Value, V16: Value, V17: Value, V18: Value, V19: Value, V20: Value, V21: Value, V22: Value, V23: Value, V24: Value, V25: Value> Arguments for (Handle<V0>, Handle<V1>, Handle<V2>, Handle<V3>, Handle<V4>, Handle<V5>, Handle<V6>, Handle<V7>, Handle<V8>, Handle<V9>, Handle<V10>, Handle<V11>, Handle<V12>, Handle<V13>, Handle<V14>, Handle<V15>, Handle<V16>, Handle<V17>, Handle<V18>, Handle<V19>, Handle<V20>, Handle<V21>, Handle<V22>, Handle<V23>, Handle<V24>, Handle<V25>) {
    open spec fn spec_locals(self) -> Seq<Local> {
        seq![self.0.spec_local(), self.1.spec_local(), self.2.spec_local(), self.3.spec_local(), self.4.spec_local(), self.5.spec_local(), self.6.spec_local(), self.7.spec_local(), self.8.spec_local(), self.9.spec_local(), self.10.spec_local(), self.11.spec_local(), self.12.spec_local(), self.13.spec_local(), self.14.spec_local(), self.15.spec_local(), self.16.spec_local(), self.17.spec_local(), self.18.spec_local(), self.19.spec_local(), self.20.spec_local(), self.21.spec_local(), self.22.spec_local(), self.23.spec_local(), self.24.spec_local(), self.25.spec_local()]
    }

    open spec fn args_wf(self, e: EnvV) -> bool {
        self.0.wf(e) && self.1.wf(e) && self.2.wf(e) && self.3.wf(e) && self.4.wf(e) && self.5.wf(e) && self.6.wf(e) && self.7.wf(e) && self.8.wf(e) && self.9.wf(e) && self.10.wf(e) && self.11.wf(e) && self.12.wf(e) && self.13.wf(e) && self.14.wf(e) && self.15.wf(e) && self.16.wf(e) && self.17.wf(e) && self.18.wf(e) && self.19.wf(e) && self.20.wf(e) && self.21.wf(e) && self.22.wf(e) && self.23.wf(e) && self.24.wf(e) && self.25.wf(e)
    }

    fn append(self, args: &mut Vec<Handle<JsValue>>) {
        let ghost s0 = args@;
        push_arg(args, self.0);
        let ghost s1 = args@;
        push_arg(args, self.1);
        let ghost s2 = args@;
        push_arg(args, self.2);
        let ghost s3 = args@;
        push_arg(args, self.3);
        let ghost s4 = args@;
        push_arg(args, self.4);
        let ghost s5 = args@;
        push_arg(args, self.5);
        let ghost s6 = args@;
        push_arg(args, self.6);
        let ghost s7 = args@;
        push_arg(args, self.7);
        let ghost s8 = args@;
        push_arg(args, self.8);
        let ghost s9 = args@;
        push_arg(args, self.9);
        let ghost s10 = args@;
        push_arg(args, self.10);
        let ghost s11 = args@;
        push_arg(args, self.11);
        let ghost s12 = args@;
        push_arg(args, self.12);
        let ghost s13 = args@;
        push_arg(args, self.13);
        let ghost s14 = args@;
        push_arg(args, self.14);
        let ghost s15 = args@;
        push_arg(args, self.15);
        let ghost s16 = args@;
        push_arg(args, self.16);
        let ghost s17 = args@;
        push_arg(args, self.17);
        let ghost s18 = args@;
        push_arg(args, self.18);
        let ghost s19 = args@;
        push_arg(args, self.19);
        let ghost s20 = args@;
        push_arg(args, self.20);
        let ghost s21 = args@;
        push_arg(args, self.21);
        let ghost s22 = args@;
        push_arg(args, self.22);
        let ghost s23 = args@;
        push_arg(args, self.23);
        let ghost s24 = args@;
        push_arg(args, self.24);
        let ghost s25 = args@;
        push_arg(args, self.25);
        proof {
            assert(locals_of(args@) =~= locals_of(old(args)@) + self.spec_locals());
            assert forall|e: EnvV| (handles_wf(old(args)@, e) && self.args_wf(e))
                implies #[trigger] handles_wf(args@, e) by {
            assert(handles_wf(s1, e));
            assert(handles_wf(s2, e));
            assert(handles_wf(s3, e));
            assert(handles_wf(s4, e));
            assert(handles_wf(s5, e));
            assert(handles_wf(s6, e));
            assert(handles_wf(s7, e));
            assert(handles_wf(s8, e));
            assert(handles_wf(s9, e));
            assert(handles_wf(s10, e));
            assert(handles_wf(s11, e));
            assert(handles_wf(s12, e));
            assert(handles_wf(s13, e));
            assert(handles_wf(s14, e));
            assert(handles_wf(s15, e));
            assert(handles_wf(s16, e));
            assert(handles_wf(s17, e));
            assert(handles_wf(s18, e));
            assert(handles_wf(s19, e));
            assert(handles_wf(s20, e));
            assert(handles_wf(s21, e));
            assert(handles_wf(s22, e));
            assert(handles_wf(s23, e));
            assert(handles_wf(s24, e));
            assert(handles_wf(s25, e));
            assert(handles_wf(args@, e));
            };
        }
    }
}


impl<V0: Value, V1: Value, V2: Value, V3: Value, V4: Value, V5: Value, V6: Value, V7: Value, V8: Value, V9: Value, V10: Value, V11: Value, V12: Value, V13: Value, V14: Value, V15: Value, V16: Value, V17: Value, V18: Value, V19: Value, V20: Value, V21: Value, V22: Value, V23: Value, V24: Value, V25: Value, V26: Value> Arguments for (Handle<V0>, Handle<V1>, Handle<V2>, Handle<V3>, Handle<V4>, Handle<V5>, Handle<V6>, Handle<V7>, Handle<V8>, Handle<V9>, Handle<V10>, Handle<V11>, Handle<V12>, Handle<V13>, Handle<V14>, Handle<V15>, Handle<V16>, Handle<V17>, Handle<V18>, Handle<V19>, Handle<V20>, Handle<V21>, Handle<V22>, Handle<V23>, Handle<V24>, Handle<V25>, Handle<V26>) {
    open spec fn spec_locals(self) -> Seq<Local> {
        seq![self.0.spec_local(), self.1.spec_local(), self.2.spec_local(), self.3.spec_local(), self.4.spec_local(), self.5.spec_local(), self.6.spec_local(), self.7.spec_local(), self.8.spec_local(), self.9.spec_local(), self.10.spec_local(), self.11.spec_local(), self.12.spec_local(), self.13.spec_local(), self.14.spec_local(), self.15.spec_local(), self.16.spec_local(), self.17.spec_local(), self.18.spec_local(), self.19.spec_local(), self.20.spec_local(), self.21.spec_local(), self.22.spec_local(), self.23.spec_local(), self.24.spec_local(), self.25.spec_local(), self.26.spec_local()]
    }

    open spec fn args_wf(self, e: EnvV) -> bool {
        self.0.wf(e) && self.1.wf(e) && self.2.wf(e) && self.3.wf(e) && self.4.wf(e) && self.5.wf(e) && self.6.wf(e) && self.7.wf(e) && self.8.wf(e) && self.9.wf(e) && self.10.wf(e) && self.11.wf(e) && self.12.wf(e) && self.13.wf(e) && self.14.wf(e) && self.15.wf(e) && self.16.wf(e) && self.17.wf(e) && self.18.wf(e) && self.19.wf(e) && self.20.wf(e) && self.21.wf(e) && self.22.wf(e) && self.23.wf(e) && self.24.wf(e) && self.25.wf(e) && self.26.wf(e)
    }

    fn append(self, args: &mut Vec<Handle<JsValue>>) {
        let ghost s0 = args@;
        push_arg(args, self.0);
        let ghost s1 = args@;
        push_arg(args, self.1);
        let ghost s2 = args@;
        push_arg(args, self.2);
        let ghost s3 = args@;
        push_arg(args, self.3);
        let ghost s4 = args@;
        push_arg(args, self.4);
        let ghost s5 = args@;
        push_arg(args, self.5);
        let ghost s6 = args@;
        push_arg(args, self.6);
        let ghost s7 = args@;
        push_arg(args, self.7);
        let ghost s8 = args@;
        push_arg(args, self.8);
        let ghost s9 = args@;
        push_arg(args, self.9);
        let ghost s10 = args@;
        push_arg(args, self.10);
        let ghost s11 = args@;
        push_arg(args, self.11);
        let ghost s12 = args@;
        push_arg(args, self.12);
        let ghost s13 = args@;
        push_arg(args, self.13);
        let ghost s14 = args@;
        push_arg(args, self.14);
        let ghost s15 = args@;
        push_arg(args, self.15);
        let ghost s16 = args@;
        push_arg(args, self.16);
        let ghost s17 = args@;
        push_arg(args, self.17);
        let ghost s18 = args@;
        push_arg(args, self.18);
        let ghost s19 = args@;
        push_arg(args, self.19);
        let ghost s20 = args@;
        push_arg(args, self.20);
        let ghost s21 = args@;
        push_arg(args, self.21);
        let ghost s22 = args@;
        push_arg(args, self.22);
        let ghost s23 = args@;
        push_arg(args, self.23);
        let ghost s24 = args@;
        push_arg(args, self.24);
        let ghost s25 = args@;
        push_arg(args, self.25);
        let ghost s26 = args@;
        push_arg(args, self.26);
        proof {
            assert(locals_of(args@) =~= locals_of(old(args)@) + self.spec_locals());
            assert forall|e: EnvV| (handles_wf(old(args)@, e) && self.args_wf(e))
                implies #[trigger] handles_wf(args@, e) by {
            assert(handles_wf(s1, e));
            assert(handles_wf(s2, e));
            assert(handles_wf(s3, e));
            assert(handles_wf(s4, e));
            assert(handles_wf(s5, e));
            assert(handles_wf(s6, e));
            assert(handles_wf(s7, e));
            assert(handles_wf(s8, e));
            assert(handles_wf(s9, e));
            assert(handles_wf(s10, e));
            assert(handles_wf(s11, e));
            assert(handles_wf(s12, e));
            assert(handles_wf(s13, e));
            assert(handles_wf(s14, e));
            assert(handles_wf(s15, e));
            assert(handles_wf(s16, e));
            assert(handles_wf(s17, e));
            assert(handles_wf(s18, e));
            assert(handles_wf(s19, e));
            assert(handles_wf(s20, e));
            assert(handles_wf(s21, e));
            assert(handles_wf(s22, e));
            assert(handles_wf(s23, e));
            assert(handles_wf(s24, e));
            assert(handles_wf(s25, e));
            assert(handles_wf(s26, e));
            assert(handles_wf(args@, e));
            };
        }
    }
}


impl<V0: Value, V1: Value, V2: Value, V3: Value, V4: Value, V5: Value, V6: Value, V7: Value, V8: Value, V9: Value, V10: Value, V11: Value, V12: Value, V13: Value, V14: Value, V15: Value, V16: Value, V17: Value, V18: Value, V19: Value, V20: Value, V21: Value, V22: Value, V23: Value, V24: Value, V25: Value, V26: Value, V27: Value> Arguments for (Handle<V0>, Handle<V1>, Handle<V2>, Handle<V3>, Handle<V4>, Handle<V5>, Handle<V6>, Handle<V7>, Handle<V8>, Handle<V9>, Handle<V10>, Handle<V11>, Handle<V12>, Handle<V13>, Handle<V14>, Handle<V15>, Handle<V16>, Handle<V17>, Handle<V18>, Handle<V19>, Handle<V20>, Handle<V21>, Handle<V22>, Handle<V23>, Handle<V24>, Handle<V25>, Handle<V26>, Handle<V27>) {
    open spec fn spec_locals(self) -> Seq<Local> {
        seq![self.0.spec_local(), self.1.spec_local(), self.2.spec_local(), self.3.spec_local(), self.4.spec_local(), self.5.spec_local(), self.6.spec_local(), self.7.spec_local(), self.8.spec_local(), self.9.spec_local(), self.10.spec_local(), self.11.spec_local(), self.12.spec_local(), self.13.spec_local(), self.14.spec_local(), self.15.spec_local(), self.16.spec_local(), self.17.spec_local(), self.18.spec_local(), self.19.spec_local(), self.20.spec_local(), self.21.spec_local(), self.22.spec_local(), self.23.spec_local(), self.24.spec_local(), self.25.spec_local(), self.26.spec_local(), self.27.spec_local()]
    }

    open spec fn args_wf(self, e: EnvV) -> bool {
        self.0.wf(e) && self.1.wf(e) && self.2.wf(e) && self.3.wf(e) && self.4.wf(e) && self.5.wf(e) && self.6.wf(e) && self.7.wf(e) && self.8.wf(e) && self.9.wf(e) && self.10.wf(e) && self.11.wf(e) && self.12.wf(e) && self.13.wf(e) && self.14.wf(e) && self.15.wf(e) && self.16.wf(e) && self.17.wf(e) && self.18.wf(e) && self.19.wf(e) && self.20.wf(e) && self.21.wf(e) && self.22.wf(e) && self.23.wf(e) && self.24.wf(e) && self.25.wf(e) && self.26.wf(e) && self.27.wf(e)
    }

    fn append(self, args: &mut Vec<Handle<JsValue>>) {
        let ghost s0 = args@;
        push_arg(args, self.0);
        let ghost s1 = args@;
        push_arg(args, self.1);
        let ghost s2 = args@;
        push_arg(args, self.2);
        let ghost s3 = args@;
        push_arg(args, self.3);
        let ghost s4 = args@;
        push_arg(args, self.4);
        let ghost s5 = args@;
        push_arg(args, self.5);
        let ghost s6 = args@;
        push_arg(args, self.6);
        let ghost s7 = args@;
        push_arg(args, self.7);
        let ghost s8 = args@;
        push_arg(args, self.8);
        let ghost s9 = args@;
        push_arg(args, self.9);
        let ghost s10 = args@;
        push_arg(args, self.10);
        let ghost s11 = args@;
        push_arg(args, self.11);
        let ghost s12 = args@;
        push_arg(args, self.12);
        let ghost s13 = args@;
        push_arg(args, self.13);
        let ghost s14 = args@;
        push_arg(args, self.14);
        let ghost s15 = args@;
        push_arg(args, self.15);
        let ghost s16 = args@;
        push_arg(args, self.16);
        let ghost s17 = args@;
        push_arg(args, self.17);
        let ghost s18 = args@;
        push_arg(args, self.18);
        let ghost s19 = args@;
        push_arg(args, self.19);
        let ghost s20 = args@;
        push_arg(args, self.20);
        let ghost s21 = args@;
        push_arg(args, self.21);
        let ghost s22 = args@;
        push_arg(args, self.22);
        let ghost s23 = args@;
        push_arg(args, self.23);
        let ghost s24 = args@;
        push_arg(args, self.24);
        let ghost s25 = args@;
        push_arg(args, self.25);
        let ghost s26 = args@;
        push_arg(args, self.26);
        let ghost s27 = args@;
        push_arg(args, self.27);
        proof {
            assert(locals_of(args@) =~= locals_of(old(args)@) + self.spec_locals());
            assert forall|e: EnvV| (handles_wf(old(args)@, e) && self.args_wf(e))
                implies #[trigger] handles_wf(args@, e) by {
            assert(handles_wf(s1, e));
            assert(handles_wf(s2, e));
            assert(handles_wf(s3, e));
            assert(handles_wf(s4, e));
            assert(handles_wf(s5, e));
            assert(handles_wf(s6, e));
            assert(handles_wf(s7, e));
            assert(handles_wf(s8, e));
            assert(handles_wf(s9, e));
            assert(handles_wf(s10, e));
            assert(handles_wf(s11, e));
            assert(handles_wf(s12, e));
            assert(handles_wf(s13, e));
            assert(handles_wf(s14, e));
            assert(handles_wf(s15, e));
            assert(handles_wf(s16, e));
            assert(handles_wf(s17, e));
            assert(handles_wf(s18, e));
            assert(handles_wf(s19, e));
            assert(handles_wf(s20, e));
            assert(handles_wf(s21, e));
            assert(handles_wf(s22, e));
            assert(handles_wf(s23, e));
            assert(handles_wf(s24, e));
            assert(handles_wf(s25, e));
            assert(handles_wf(s26, e));
            assert(handles_wf(s27, e));
            assert(handles_wf(args@, e));
            };
        }
    }
}


impl<V0: Value, V1: Value, V2: Value, V3: Value, V4: Value, V5: Value, V6: Value, V7: Value, V8: Value, V9: Value, V10: Value, V11: Value, V12: Value, V13: Value, V14: Value, V15: Value, V16: Value, V17: Value, V18: Value, V19: Value, V20: Value, V21: Value, V22: Value, V23: Value, V24: Value, V25: Value, V26: Value, V27: Value, V28: Value> Arguments for (Handle<V0>, Handle<V1>, Handle<V2>, Handle<V3>, Handle<V4>, Handle<V5>, Handle<V6>, Handle<V7>, Handle<V8>, Handle<V9>, Handle<V10>, Handle<V11>, Handle<V12>, Handle<V13>, Handle<V14>, Handle<V15>, Handle<V16>, Handle<V17>, Handle<V18>, Handle<V19>, Handle<V20>, Handle<V21>, Handle<V22>, Handle<V23>, Handle<V24>, Handle<V25>, Handle<V26>, Handle<V27>, Handle<V28>) {
    open spec fn spec_locals(self) -> Seq<Local> {
        seq![self.0.spec_local(), self.1.spec_local(), self.2.spec_local(), self.3.spec_local(), self.4.spec_local(), self.5.spec_local(), self.6.spec_local(), self.7.spec_local(), self.8.spec_local(), self.9.spec_local(), self.10.spec_local(), self.11.spec_local(), self.12.spec_local(), self.13.spec_local(), self.14.spec_local(), self.15.spec_local(), self.16.spec_local(), self.17.spec_local(), self.18.spec_local(), self.19.spec_local(), self.20.spec_local(), self.21.spec_local(), self.22.spec_local(), self.23.spec_local(), self.24.spec_local(), self.25.spec_local(), self.26.spec_local(), self.27.spec_local(), self.28.spec_local()]
    }

    open spec fn args_wf(self, e: EnvV) -> bool {
        self.0.wf(e) && self.1.wf(e) && self.2.wf(e) && self.3.wf(e) && self.4.wf(e) && self.5.wf(e) && self.6.wf(e) && self.7.wf(e) && self.8.wf(e) && self.9.wf(e) && self.10.wf(e) && self.11.wf(e) && self.12.wf(e) && self.13.wf(e) && self.14.wf(e) && self.15.wf(e) && self.16.wf(e) && self.17.wf(e) && self.18.wf(e) && self.19.wf(e) && self.20.wf(e) && self.21.wf(e) && self.22.wf(e) && self.23.wf(e) && self.24.wf(e) && self.25.wf(e) && self.26.wf(e) && self.27.wf(e) && self.28.wf(e)
    }

    fn append(self, args: &mut Vec<Handle<JsValue>>) {
        let ghost s0 = args@;
        push_arg(args, self.0);
        let ghost s1 = args@;
        push_arg(args, self.1);
        let ghost s2 = args@;
        push_arg(args, self.2);
        let ghost s3 = args@;
        push_arg(args, self.3);
        let ghost s4 = args@;
        push_arg(args, self.4);
        let ghost s5 = args@;
        push_arg(args, self.5);
        let ghost s6 = args@;
        push_arg(args, self.6);
        let ghost s7 = args@;
        push_arg(args, self.7);
        let ghost s8 = args@;
        push_arg(args, self.8);
        let ghost s9 = args@;
        push_arg(args, self.9);
        let ghost s10 = args@;
        push_arg(args, self.10);
        let ghost s11 = args@;
        push_arg(args, self.11);
        let ghost s12 = args@;
        push_arg(args, self.12);
        let ghost s13 = args@;
        push_arg(args, self.13);
        let ghost s14 = args@;
        push_arg(args, self.14);
        let ghost s15 = args@;
        push_arg(args, self.15);
        let ghost s16 = args@;
        push_arg(args, self.16);
        let ghost s17 = args@;
        push_arg(args, self.17);
        let ghost s18 = args@;
        push_arg(args, self.18);
        let ghost s19 = args@;
        push_arg(args, self.19);
        let ghost s20 = args@;
        push_arg(args, self.20);
        let ghost s21 = args@;
        push_arg(args, self.21);
        let ghost s22 = args@;
        push_arg(args, self.22);
        let ghost s23 = args@;
        push_arg(args, self.23);
        let ghost s24 = args@;
        push_arg(args, self.24);
        let ghost s25 = args@;
        push_arg(args, self.25);
        let ghost s26 = args@;
        push_arg(args, self.26);
        let ghost s27 = args@;
        push_arg(args, self.27);
        let ghost s28 = args@;
        push_arg(args, self.28);
        proof {
            assert(locals_of(args@) =~= locals_of(old(args)@) + self.spec_locals());
            assert forall|e: EnvV| (handles_wf(old(args)@, e) && self.args_wf(e))
                implies #[trigger] handles_wf(args@, e) by {
            assert(handles_wf(s1, e));
            assert(handles_wf(s2, e));
            assert(handles_wf(s3, e));
            assert(handles_wf(s4, e));
            assert(handles_wf(s5, e));
            assert(handles_wf(s6, e));
            assert(handles_wf(s7, e));
            assert(handles_wf(s8, e));
            assert(handles_wf(s9, e));
            assert(handles_wf(s10, e));
            assert(handles_wf(s11, e));
            assert(handles_wf(s12, e));
            assert(handles_wf(s13, e));
            assert(handles_wf(s14, e));
            assert(handles_wf(s15, e));
            assert(handles_wf(s16, e));
            assert(handles_wf(s17, e));
            assert(handles_wf(s18, e));
            assert(handles_wf(s19, e));
            assert(handles_wf(s20, e));
            assert(handles_wf(s21, e));
            assert(handles_wf(s22, e));
            assert(handles_wf(s23, e));
            assert(handles_wf(s24, e));
            assert(handles_wf(s25, e));
            assert(handles_wf(s26, e));
            assert(handles_wf(s27, e));
            assert(handles_wf(s28, e));
            assert(handles_wf(args@, e));
            };
        }
    }
}


impl<V0: Value, V1: Value, V2: Value, V3: Value, V4: Value, V5: Value, V6: Value, V7: Value, V8: Value, V9: Value, V10: Value, V11: Value, V12: Value, V13: Value, V14: Value, V15: Value, V16: Value, V17: Value, V18: Value, V19: Value, V20: Value, V21: Value, V22: Value, V23: Value, V24: Value, V25: Value, V26: Value, V27: Value, V28: Value, V29: Value> Arguments for (Handle<V0>, Handle<V1>, Handle<V2>, Handle<V3>, Handle<V4>, Handle<V5>, Handle<V6>, Handle<V7>, Handle<V8>, Handle<V9>, Handle<V10>, Handle<V11>, Handle<V12>, Handle<V13>, Handle<V14>, Handle<V15>, Handle<V16>, Handle<V17>, Handle<V18>, Handle<V19>, Handle<V20>, Handle<V21>, Handle<V22>, Handle<V23>, Handle<V24>, Handle<V25>, Handle<V26>, Handle<V27>, Handle<V28>, Handle<V29>) {
    open spec fn spec_locals(self) -> Seq<Local> {
        seq![self.0.spec_local(), self.1.spec_local(), self.2.spec_local(), self.3.spec_local(), self.4.spec_local(), self.5.spec_local(), self.6.spec_local(), self.7.spec_local(), self.8.spec_local(), self.9.spec_local(), self.10.spec_local(), self.11.spec_local(), self.12.spec_local(), self.13.spec_local(), self.14.spec_local(), self.15.spec_local(), self.16.spec_local(), self.17.spec_local(), self.18.spec_local(), self.19.spec_local(), self.20.spec_local(), self.21.spec_local(), self.22.spec_local(), self.23.spec_local(), self.24.spec_local(), self.25.spec_local(), self.26.spec_local(), self.27.spec_local(), self.28.spec_local(), self.29.spec_local()]
    }

    open spec fn args_wf(self, e: EnvV) -> bool {
        self.0.wf(e) && self.1.wf(e) && self.2.wf(e) && self.3.wf(e) && self.4.wf(e) && self.5.wf(e) && self.6.wf(e) && self.7.wf(e) && self.8.wf(e) && self.9.wf(e) && self.10.wf(e) && self.11.wf(e) && self.12.wf(e) && self.13.wf(e) && self.14.wf(e) && self.15.wf(e) && self.16.wf(e) && self.17.wf(e) && self.18.wf(e) && self.19.wf(e) && self.20.wf(e) && self.21.wf(e) && self.22.wf(e) && self.23.wf(e) && self.24.wf(e) && self.25.wf(e) && self.26.wf(e) && self.27.wf(e) && self.28.wf(e) && self.29.wf(e)
    }

    fn append(self, args: &mut Vec<Handle<JsValue>>) {
        let ghost s0 = args@;
        push_arg(args, self.0);
        let ghost s1 = args@;
        push_arg(args, self.1);
        let ghost s2 = args@;
        push_arg(args, self.2);
        let ghost s3 = args@;
        push_arg(args, self.3);
        let ghost s4 = args@;
        push_arg(args, self.4);
        let ghost s5 = args@;
        push_arg(args, self.5);
        let ghost s6 = args@;
        push_arg(args, self.6);
        let ghost s7 = args@;
        push_arg(args, self.7);
        let ghost s8 = args@;
        push_arg(args, self.8);
        let ghost s9 = args@;
        push_arg(args, self.9);
        let ghost s10 = args@;
        push_arg(args, self.10);
        let ghost s11 = args@;
        push_arg(args, self.11);
        let ghost s12 = args@;
        push_arg(args, self.12);
        let ghost s13 = args@;
        push_arg(args, self.13);
        let ghost s14 = args@;
        push_arg(args, self.14);
        let ghost s15 = args@;
        push_arg(args, self.15);
        let ghost s16 = args@;
        push_arg(args, self.16);
        let ghost s17 = args@;
        push_arg(args, self.17);
        let ghost s18 = args@;
        push_arg(args, self.18);
        let ghost s19 = args@;
        push_arg(args, self.19);
        let ghost s20 = args@;
        push_arg(args, self.20);
        let ghost s21 = args@;
        push_arg(args, self.21);
        let ghost s22 = args@;
        push_arg(args, self.22);
        let ghost s23 = args@;
        push_arg(args, self.23);
        let ghost s24 = args@;
        push_arg(args, self.24);
        let ghost s25 = args@;
        push_arg(args, self.25);
        let ghost s26 = args@;
        push_arg(args, self.26);
        let ghost s27 = args@;
        push_arg(args, self.27);
        let ghost s28 = args@;
        push_arg(args, self.28);
        let ghost s29 = args@;
        push_arg(args, self.29);
        proof {
            assert(locals_of(args@) =~= locals_of(old(args)@) + self.spec_locals());
            assert forall|e: EnvV| (handles_wf(old(args)@, e) && self.args_wf(e))
                implies #[trigger] handles_wf(args@, e) by {
            assert(handles_wf(s1, e));
            assert(handles_wf(s2, e));
            assert(handles_wf(s3, e));
            assert(handles_wf(s4, e));
            assert(handles_wf(s5, e));
            assert(handles_wf(s6, e));
            assert(handles_wf(s7, e));
            assert(handles_wf(s8, e));
            assert(handles_wf(s9, e));
            assert(handles_wf(s10, e));
            assert(handles_wf(s11, e));
            assert(handles_wf(s12, e));
            assert(handles_wf(s13, e));
            assert(handles_wf(s14, e));
            assert(handles_wf(s15, e));
            assert(handles_wf(s16, e));
            assert(handles_wf(s17, e));
            assert(handles_wf(s18, e));
            assert(handles_wf(s19, e));
            assert(handles_wf(s20, e));
            assert(handles_wf(s21, e));
            assert(handles_wf(s22, e));
            assert(handles_wf(s23, e));
            assert(handles_wf(s24, e));
            assert(handles_wf(s25, e));
            assert(handles_wf(s26, e));
            assert(handles_wf(s27, e));
            assert(handles_wf(s28, e));
            assert(handles_wf(s29, e));
            assert(handles_wf(args@, e));
            };
        }
    }
}


impl<V0: Value, V1: Value, V2: Value, V3: Value, V4: Value, V5: Value, V6: Value, V7: Value, V8: Value, V9: Value, V10: Value, V11: Value, V12: Value, V13: Value, V14: Value, V15: Value, V16: Value, V17: Value, V18: Value, V19: Value, V20: Value, V21: Value, V22: Value, V23: Value, V24: Value, V25: Value, V26: Value, V27: Value, V28: Value, V29: Value, V30: Value> Arguments for (Handle<V0>, Handle<V1>, Handle<V2>, Handle<V3>, Handle<V4>, Handle<V5>, Handle<V6>, Handle<V7>, Handle<V8>, Handle<V9>, Handle<V10>, Handle<V11>, Handle<V12>, Handle<V13>, Handle<V14>, Handle<V15>, Handle<V16>, Handle<V17>, Handle<V18>, Handle<V19>, Handle<V20>, Handle<V21>, Handle<V22>, Handle<V23>, Handle<V24>, Handle<V25>, Handle<V26>, Handle<V27>, Handle<V28>, Handle<V29>, Handle<V30>) {
    open spec fn spec_locals(self) -> Seq<Local> {
        seq![self.0.spec_local(), self.1.spec_local(), self.2.spec_local(), self.3.spec_local(), self.4.spec_local(), self.5.spec_local(), self.6.spec_local(), self.7.spec_local(), self.8.spec_local(), self.9.spec_local(), self.10.spec_local(), self.11.spec_local(), self.12.spec_local(), self.13.spec_local(), self.14.spec_local(), self.15.spec_local(), self.16.spec_local(), self.17.spec_local(), self.18.spec_local(), self.19.spec_local(), self.20.spec_local(), self.21.spec_local(), self.22.spec_local(), self.23.spec_local(), self.24.spec_local(), self.25.spec_local(), self.26.spec_local(), self.27.spec_local(), self.28.spec_local(), self.29.spec_local(), self.30.spec_local()]
    }

    open spec fn args_wf(self, e: EnvV) -> bool {
        self.0.wf(e) && self.1.wf(e) && self.2.wf(e) && self.3.wf(e) && self.4.wf(e) && self.5.wf(e) && self.6.wf(e) && self.7.wf(e) && self.8.wf(e) && self.9.wf(e) && self.10.wf(e) && self.11.wf(e) && self.12.wf(e) && self.13.wf(e) && self.14.wf(e) && self.15.wf(e) && self.16.wf(e) && self.17.wf(e) && self.18.wf(e) && self.19.wf(e) && self.20.wf(e) && self.21.wf(e) && self.22.wf(e) && self.23.wf(e) && self.24.wf(e) && self.25.wf(e) && self.26.wf(e) && self.27.wf(e) && self.28.wf(e) && self.29.wf(e) && self.30.wf(e)
    }

    fn append(self, args: &mut Vec<Handle<JsValue>>) {
        let ghost s0 = args@;
        push_arg(args, self.0);
        let ghost s1 = args@;
        push_arg(args, self.1);
        let ghost s2 = args@;
        push_arg(args, self.2);
        let ghost s3 = args@;
        push_arg(args, self.3);
        let ghost s4 = args@;
        push_arg(args, self.4);
        let ghost s5 = args@;
        push_arg(args, self.5);
        let ghost s6 = args@;
        push_arg(args, self.6);
        let ghost s7 = args@;
        push_arg(args, self.7);
        let ghost s8 = args@;
        push_arg(args, self.8);
        let ghost s9 = args@;
        push_arg(args, self.9);
        let ghost s10 = args@;
        push_arg(args, self.10);
        let ghost s11 = args@;
        push_arg(args, self.11);
        let ghost s12 = args@;
        push_arg(args, self.12);
        let ghost s13 = args@;
        push_arg(args, self.13);
        let ghost s14 = args@;
        push_arg(args, self.14);
        let ghost s15 = args@;
        push_arg(args, self.15);
        let ghost s16 = args@;
        push_arg(args, self.16);
        let ghost s17 = args@;
        push_arg(args, self.17);
        let ghost s18 = args@;
        push_arg(args, self.18);
        let ghost s19 = args@;
        push_arg(args, self.19);
        let ghost s20 = args@;
        push_arg(args, self.20);
        let ghost s21 = args@;
        push_arg(args, self.21);
        let ghost s22 = args@;
        push_arg(args, self.22);
        let ghost s23 = args@;
        push_arg(args, self.23);
        let ghost s24 = args@;
        push_arg(args, self.24);
        let ghost s25 = args@;
        push_arg(args, self.25);
        let ghost s26 = args@;
        push_arg(args, self.26);
        let ghost s27 = args@;
        push_arg(args, self.27);
        let ghost s28 = args@;
        push_arg(args, self.28);
        let ghost s29 = args@;
        push_arg(args, self.29);
        let ghost s30 = args@;
        push_arg(args, self.30);
        proof {
            assert(locals_of(args@) =~= locals_of(old(args)@) + self.spec_locals());
            assert forall|e: EnvV| (handles_wf(old(args)@, e) && self.args_wf(e))
                implies #[trigger] handles_wf(args@, e) by {
            assert(handles_wf(s1, e));
            assert(handles_wf(s2, e));
            assert(handles_wf(s3, e));
            assert(handles_wf(s4, e));
            assert(handles_wf(s5, e));
            assert(handles_wf(s6, e));
            assert(handles_wf(s7, e));
            assert(handles_wf(s8, e));
            assert(handles_wf(s9, e));
            assert(handles_wf(s10, e));
            assert(handles_wf(s11, e));
            assert(handles_wf(s12, e));
            assert(handles_wf(s13, e));
            assert(handles_wf(s14, e));
            assert(handles_wf(s15, e));
            assert(handles_wf(s16, e));
            assert(handles_wf(s17, e));
            assert(handles_wf(s18, e));
            assert(handles_wf(s19, e));
            assert(handles_wf(s20, e));
            assert(handles_wf(s21, e));
            assert(handles_wf(s22, e));
            assert(handles_wf(s23, e));
            assert(handles_wf(s24, e));
            assert(handles_wf(s25, e));
            assert(handles_wf(s26, e));
            assert(handles_wf(s27, e));
            assert(handles_wf(s28, e));
            assert(handles_wf(s29, e));
            assert(handles_wf(s30, e));
            assert(handles_wf(args@, e));
            };
        }
    }
}


impl<V0: Value, V1: Value, V2: Value, V3: Value, V4: Value, V5: Value, V6: Value, V7: Value, V8: Value, V9: Value, V10: Value, V11: Value, V12: Value, V13: Value, V14: Value, V15: Value, V16: Value, V17: Value, V18: Value, V19: Value, V20: Value, V21: Value, V22: Value, V23: Value, V24: Value, V25: Value, V26: Value, V27: Value, V28: Value, V29: Value, V30: Value, V31: Value> Arguments for (Handle<V0>, Handle<V1>, Handle<V2>, Handle<V3>, Handle<V4>, Handle<V5>, Handle<V6>, Handle<V7>, Handle<V8>, Handle<V9>, Handle<V10>, Handle<V11>, Handle<V12>, Handle<V13>, Handle<V14>, Handle<V15>, Handle<V16>, Handle<V17>, Handle<V18>, Handle<V19>, Handle<V20>, Handle<V21>, Handle<V22>, Handle<V23>, Handle<V24>, Handle<V25>, Handle<V26>, Handle<V27>, Handle<V28>, Handle<V29>, Handle<V30>, Handle<V31>) {
    open spec fn spec_locals(self) -> Seq<Local> {
        seq![self.0.spec_local(), self.1.spec_local(), self.2.spec_local(), self.3.spec_local(), self.4.spec_local(), self.5.spec_local(), self.6.spec_local(), self.7.spec_local(), self.8.spec_local(), self.9.spec_local(), self.10.spec_local(), self.11.spec_local(), self.12.spec_local(), self.13.spec_local(), self.14.spec_local(), self.15.spec_local(), self.16.spec_local(), self.17.spec_local(), self.18.spec_local(), self.19.spec_local(), self.20.spec_local(), self.21.spec_local(), self.22.spec_local(), self.23.spec_local(), self.24.spec_local(), self.25.spec_local(), self.26.spec_local(), self.27.spec_local(), self.28.spec_local(), self.29.spec_local(), self.30.spec_local(), self.31.spec_local()]
    }

    open spec fn args_wf(self, e: EnvV) -> bool {
        self.0.wf(e) && self.1.wf(e) && self.2.wf(e) && self.3.wf(e) && self.4.wf(e) && self.5.wf(e) && self.6.wf(e) && self.7.wf(e) && self.8.wf(e) && self.9.wf(e) && self.10.wf(e) && self.11.wf(e) && self.12.wf(e) && self.13.wf(e) && self.14.wf(e) && self.15.wf(e) && self.16.wf(e) && self.17.wf(e) && self.18.wf(e) && self.19.wf(e) && self.20.wf(e) && self.21.wf(e) && self.22.wf(e) && self.23.wf(e) && self.24.wf(e) && self.25.wf(e) && self.26.wf(e) && self.27.wf(e) && self.28.wf(e) && self.29.wf(e) && self.30.wf(e) && self.31.wf(e)
    }

    fn append(self, args: &mut Vec<Handle<JsValue>>) {
        let ghost s0 = args@;
        push_arg(args, self.0);
        let ghost s1 = args@;
        push_arg(args, self.1);
        let ghost s2 = args@;
        push_arg(args, self.2);
        let ghost s3 = args@;
        push_arg(args, self.3);
        let ghost s4 = args@;
        push_arg(args, self.4);
        let ghost s5 = args@;
        push_arg(args, self.5);
        let ghost s6 = args@;
        push_arg(args, self.6);
        let ghost s7 = args@;
        push_arg(args, self.7);
        let ghost s8 = args@;
        push_arg(args, self.8);
        let ghost s9 = args@;
        push_arg(args, self.9);
        let ghost s10 = args@;
        push_arg(args, self.10);
        let ghost s11 = args@;
        push_arg(args, self.11);
        let ghost s12 = args@;
        push_arg(args, self.12);
        let ghost s13 = args@;
        push_arg(args, self.13);
        let ghost s14 = args@;
        push_arg(args, self.14);
        let ghost s15 = args@;
        push_arg(args, self.15);
        let ghost s16 = args@;
        push_arg(args, self.16);
        let ghost s17 = args@;
        push_arg(args, self.17);
        let ghost s18 = args@;
        push_arg(args, self.18);
        let ghost s19 = args@;
        push_arg(args, self.19);
        let ghost s20 = args@;
        push_arg(args, self.20);
        let ghost s21 = args@;
        push_arg(args, self.21);
        let ghost s22 = args@;
        push_arg(args, self.22);
        let ghost s23 = args@;
        push_arg(args, self.23);
        let ghost s24 = args@;
        push_arg(args, self.24);
        let ghost s25 = args@;
        push_arg(args, self.25);
        let ghost s26 = args@;
        push_arg(args, self.26);
        let ghost s27 = args@;
        push_arg(args, self.27);
        let ghost s28 = args@;
        push_arg(args, self.28);
        let ghost s29 = args@;
        push_arg(args, self.29);
        let ghost s30 = args@;
        push_arg(args, self.30);
        let ghost s31 = args@;
        push_arg(args, self.31);
        proof {
            assert(locals_of(args@) =~= locals_of(old(args)@) + self.spec_locals());
            assert forall|e: EnvV| (handles_wf(old(args)@, e) && self.args_wf(e))
                implies #[trigger] handles_wf(args@, e) by {
            assert(handles_wf(s1, e));
            assert(handles_wf(s2, e));
            assert(handles_wf(s3, e));
            assert(handles_wf(s4, e));
            assert(handles_wf(s5, e));
            assert(handles_wf(s6, e));
            assert(handles_wf(s7, e));
            assert(handles_wf(s8, e));
            assert(handles_wf(s9, e));
            assert(handles_wf(s10, e));
            assert(handles_wf(s11, e));
            assert(handles_wf(s12, e));
            assert(handles_wf(s13, e));
            assert(handles_wf(s14, e));
            assert(handles_wf(s15, e));
            assert(handles_wf(s16, e));
            assert(handles_wf(s17, e));
            assert(handles_wf(s18, e));
            assert(handles_wf(s19, e));
            assert(handles_wf(s20, e));
            assert(handles_wf(s21, e));
            assert(handles_wf(s22, e));
            assert(handles_wf(s23, e));
            assert(handles_wf(s24, e));
            assert(handles_wf(s25, e));
            assert(handles_wf(s26, e));
            assert(handles_wf(s27, e));
            assert(handles_wf(s28, e));
            assert(handles_wf(s29, e));
            assert(handles_wf(s30, e));
            assert(handles_wf(s31, e));
            assert(handles_wf(args@, e));
            };
        }
    }
}

} // verus!
