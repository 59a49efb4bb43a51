//! The model host engine: a deterministic, in-process stand-in for the
//! JavaScript engine behind the C-ABI binding surface.
//!
//! The engine state is an [`Env`]: a growing store of value slots, the
//! pending-exception state, and a log of every function invocation the
//! host performed. A [`Local`] names a slot and is the opaque value
//! reference that handles wrap. Slots are never mutated or removed once
//! created, which is what makes handles remain valid for as long as their
//! issuing scope lives.

use vstd::prelude::*;
use vstd::string::StringExecFns;

verus! {

/// Maximum string size (in UTF-8 bytes) the model host accepts.
/// Allocating a longer string fails without raising an exception.
pub const MAX_STRING_SIZE: usize = 1048576;

/// An opaque reference to a value owned by the host engine. In the model
/// host, a `Local` is the index of a slot in the environment's value store.
/// It is byte-copyable and is never interpreted outside the host.
#[derive(Clone, Copy, PartialEq, Eq, Structural, Debug)]
pub struct Local {
    ix: usize,
}

impl Local {
    /// The slot index this reference names.
    pub closed spec fn spec_ix(self) -> nat {
        self.ix as nat
    }

    pub(crate) fn new(ix: usize) -> (l: Local)
        ensures
            l.spec_ix() == ix,
    {
        Local { ix }
    }

    pub(crate) fn index(self) -> (i: usize)
        ensures
            i == self.spec_ix(),
    {
        self.ix
    }
}

/// The behavior carried by a function value of the model host. Where a real
/// engine would call back into native code, the model host interprets one of
/// these fixed behaviors.
#[derive(Clone, Copy, PartialEq, Eq, Structural, Debug)]
pub enum NativeFn {
    /// Adds its first two arguments as integer-valued numbers,
    /// like the JavaScript function `(a, b) => a + b` on small integers.
    Sum,
    /// Returns a new array holding the arguments in order.
    MakeArray,
    /// Throws a `TypeError`; the invocation fails.
    Throwing,
}

/// The contents of one value slot of the model host.
pub enum ValueData {
    Undefined,
    Null,
    Boolean(bool),
    /// A number, stored as the bit pattern of an IEEE-754 double.
    Number(u64),
    Str(String),
    Object,
    Array(Vec<Local>),
    Function(NativeFn),
}

/// The mathematical contents of one value slot.
#[verifier::ext_equal]
pub enum ValueDataV {
    Undefined,
    Null,
    Boolean(bool),
    Number(u64),
    Str(Seq<char>),
    Object,
    Array(Seq<Local>),
    Function(NativeFn),
}

impl View for ValueData {
    type V = ValueDataV;

    open spec fn view(&self) -> ValueDataV {
        match self {
            ValueData::Undefined => ValueDataV::Undefined,
            ValueData::Null => ValueDataV::Null,
            ValueData::Boolean(b) => ValueDataV::Boolean(*b),
            ValueData::Number(bits) => ValueDataV::Number(*bits),
            ValueData::Str(s) => ValueDataV::Str(s@),
            ValueData::Object => ValueDataV::Object,
            ValueData::Array(els) => ValueDataV::Array(els@),
            ValueData::Function(nf) => ValueDataV::Function(*nf),
        }
    }
}

/// A pending exception of the model host. Constructing an error value is
/// left to the host: the model records the error kind and message directly.
pub enum Exception {
    TypeError(String),
    RangeError(String),
    /// An arbitrary value thrown by user code.
    Thrown(Local),
}

/// The mathematical contents of a pending exception.
#[verifier::ext_equal]
pub enum ExceptionV {
    TypeError(Seq<char>),
    RangeError(Seq<char>),
    Thrown(Local),
}

impl View for Exception {
    type V = ExceptionV;

    open spec fn view(&self) -> ExceptionV {
        match self {
            Exception::TypeError(s) => ExceptionV::TypeError(s@),
            Exception::RangeError(s) => ExceptionV::RangeError(s@),
            Exception::Thrown(l) => ExceptionV::Thrown(*l),
        }
    }
}

/// One function invocation the host performed, as recorded in its log.
pub struct CallRecord {
    pub callee: Local,
    pub this_arg: Local,
    pub args: Vec<Local>,
    /// True for a constructor (`new`) invocation.
    pub construct: bool,
}

/// The mathematical contents of one log entry.
#[verifier::ext_equal]
pub struct CallV {
    pub callee: Local,
    pub this_arg: Local,
    pub args: Seq<Local>,
    pub construct: bool,
}

impl View for CallRecord {
    type V = CallV;

    open spec fn view(&self) -> CallV {
        CallV { callee: self.callee, this_arg: self.this_arg, args: self.args@, construct: self.construct }
    }
}

/// The mathematical state of the host engine.
#[verifier::ext_equal]
pub struct EnvV {
    /// The value store; a `Local` with index `i` names `values[i]`.
    pub values: Seq<ValueDataV>,
    /// The pending exception, if the host is in a throwing state.
    pub pending: Option<ExceptionV>,
    /// Every function invocation performed so far, oldest first.
    pub calls: Seq<CallV>,
}

/// A slot reference points into the store.
pub open spec fn local_valid(e: EnvV, l: Local) -> bool {
    l.spec_ix() < e.values.len()
}

/// The data of the slot a reference names.
pub open spec fn data_at(e: EnvV, l: Local) -> ValueDataV {
    e.values[l.spec_ix() as int]
}

/// Every slot reference held inside a slot's data points into the store.
pub open spec fn data_wf(e: EnvV, d: ValueDataV) -> bool {
    match d {
        ValueDataV::Array(els) => els.len() <= 0xFFFFFFFF && (forall|i: int|
            0 <= i < els.len() ==> local_valid(e, #[trigger] els[i])),
        _ => true,
    }
}

pub open spec fn exception_wf(e: EnvV, x: ExceptionV) -> bool {
    match x {
        ExceptionV::Thrown(l) => local_valid(e, l),
        _ => true,
    }
}

pub open spec fn call_record_wf(e: EnvV, c: CallV) -> bool {
    &&& local_valid(e, c.callee)
    &&& local_valid(e, c.this_arg)
    &&& forall|i: int| 0 <= i < c.args.len() ==> local_valid(e, #[trigger] c.args[i])
}

impl EnvV {
    /// Every slot reference stored anywhere in the state points into the store.
    pub open spec fn wf(self) -> bool {
        &&& forall|i: int| 0 <= i < self.values.len() ==> data_wf(self, #[trigger] self.values[i])
        &&& match self.pending {
            Some(x) => exception_wf(self, x),
            None => true,
        }
        &&& forall|i: int| 0 <= i < self.calls.len() ==> call_record_wf(self, #[trigger] self.calls[i])
    }

    /// No exception is pending, so engine operations are allowed.
    pub open spec fn ok(self) -> bool {
        self.pending is None
    }
}

/// The state after allocating one new slot.
pub open spec fn env_push(e: EnvV, d: ValueDataV) -> EnvV {
    EnvV { values: e.values.push(d), ..e }
}

/// The state after entering a pending-exception state.
pub open spec fn env_with_pending(e: EnvV, x: ExceptionV) -> EnvV {
    EnvV { pending: Some(x), ..e }
}

/// The state after recording one invocation in the log.
pub open spec fn env_log(e: EnvV, c: CallV) -> EnvV {
    EnvV { calls: e.calls.push(c), ..e }
}

/// The slot reference that the next allocation in `e` will produce.
pub closed spec fn local_at(i: nat) -> Local {
    Local { ix: i as usize }
}

/// What `local_at` names, whenever the index is representable.
pub broadcast proof fn lemma_local_at(i: nat)
    requires
        i <= usize::MAX,
    ensures
        #[trigger] local_at(i).spec_ix() == i,
{
}

/// `e2` carries every slot of `e`, unchanged, and possibly more.
/// Slot stores only ever grow, so every handle issued under `e` still names
/// the same data under `e2`.
pub open spec fn env_extends(e2: EnvV, e: EnvV) -> bool {
    &&& e.values.len() <= e2.values.len()
    &&& forall|i: int| 0 <= i < e.values.len() ==> e2.values[i] == e.values[i]
}

/// Data that is well formed stays well formed when the store grows.
pub proof fn lemma_data_wf_mono(e: EnvV, e2: EnvV, d: ValueDataV)
    requires
        data_wf(e, d),
        e.values.len() <= e2.values.len(),
    ensures
        data_wf(e2, d),
{
}

pub proof fn lemma_env_push_wf(e: EnvV, d: ValueDataV)
    requires
        e.wf(),
        data_wf(e, d),
    ensures
        env_push(e, d).wf(),
{
    let e2 = env_push(e, d);
    assert forall|i: int| 0 <= i < e2.values.len() implies data_wf(e2, #[trigger] e2.values[i]) by {
        if i < e.values.len() {
            assert(data_wf(e, e.values[i]));
            lemma_data_wf_mono(e, e2, e.values[i]);
        } else {
            lemma_data_wf_mono(e, e2, d);
        }
    };
}

pub proof fn lemma_env_with_pending_wf(e: EnvV, x: ExceptionV)
    requires
        e.wf(),
        exception_wf(e, x),
    ensures
        env_with_pending(e, x).wf(),
{
    let e2 = env_with_pending(e, x);
    assert forall|i: int| 0 <= i < e2.values.len() implies data_wf(e2, #[trigger] e2.values[i]) by {
        assert(data_wf(e, e.values[i]));
        lemma_data_wf_mono(e, e2, e.values[i]);
    };
}

pub proof fn lemma_env_log_wf(e: EnvV, c: CallV)
    requires
        e.wf(),
        call_record_wf(e, c),
    ensures
        env_log(e, c).wf(),
{
    let e2 = env_log(e, c);
    assert forall|i: int| 0 <= i < e2.values.len() implies data_wf(e2, #[trigger] e2.values[i]) by {
        assert(data_wf(e, e.values[i]));
        lemma_data_wf_mono(e, e2, e.values[i]);
    };
}

/// Whether a string of this size can be allocated by the host.
pub open spec fn string_fits(s: Seq<char>) -> bool {
    vstd::utf8::encode_utf8(s).len() <= MAX_STRING_SIZE
}

/// The transition of allocating an array of `len` undefined elements:
/// one `undefined` slot, then the array slot whose elements all name it.
pub open spec fn spec_array_new(e: EnvV, len: nat) -> (EnvV, Local) {
    let u = local_at(e.values.len());
    let e1 = env_push(e, ValueDataV::Undefined);
    (env_push(e1, ValueDataV::Array(Seq::new(len, |k: int| u))), local_at(e1.values.len()))
}

/// The number the host's adding function produces from an argument list:
/// the sum of the first two arguments when both are integer-valued numbers
/// whose sum the codec covers, and NaN otherwise.
pub open spec fn spec_sum_bits(e: EnvV, args: Seq<Local>) -> u64 {
    if args.len() < 2 {
        crate::numbits::NAN_BITS
    } else {
        match (data_at(e, args[0]), data_at(e, args[1])) {
            (ValueDataV::Number(x), ValueDataV::Number(y)) => match (
                crate::numbits::spec_decode_small(x),
                crate::numbits::spec_decode_small(y),
            ) {
                (Some(a), Some(b)) => if a + b < crate::numbits::SMALL_LIMIT {
                    crate::numbits::small_f64_bits(a + b) as u64
                } else {
                    crate::numbits::NAN_BITS
                },
                _ => crate::numbits::NAN_BITS,
            },
            _ => crate::numbits::NAN_BITS,
        }
    }
}

/// The transition of a function invocation: the call is logged, then the
/// callee's native behavior either allocates its result slot or leaves the
/// host in a pending-exception state.
pub open spec fn spec_fun_call(e: EnvV, callee: Local, this_arg: Local, args: Seq<Local>) -> (
    EnvV,
    Option<Local>,
) {
    let logged = env_log(e, CallV { callee, this_arg, args, construct: false });
    match data_at(e, callee) {
        ValueDataV::Function(nf) => match nf {
            NativeFn::Sum => (
                env_push(logged, ValueDataV::Number(spec_sum_bits(e, args))),
                Some(local_at(e.values.len())),
            ),
            NativeFn::MakeArray => (
                env_push(logged, ValueDataV::Array(args)),
                Some(local_at(e.values.len())),
            ),
            NativeFn::Throwing => (
                env_with_pending(logged, ExceptionV::TypeError("native function threw"@)),
                None,
            ),
        },
        _ => (e, None),
    }
}

/// The transition of a constructor invocation: a fresh object is allocated
/// as the new value's identity, the invocation is logged, and the behavior's
/// result stands in for the object only when it is object-shaped.
pub open spec fn spec_fun_construct(e: EnvV, callee: Local, args: Seq<Local>) -> (
    EnvV,
    Option<Local>,
) {
    let this_obj = local_at(e.values.len());
    let with_obj = env_push(e, ValueDataV::Object);
    let logged = env_log(with_obj, CallV { callee, this_arg: this_obj, args, construct: true });
    match data_at(e, callee) {
        ValueDataV::Function(nf) => match nf {
            NativeFn::Sum => (
                env_push(logged, ValueDataV::Number(spec_sum_bits(e, args))),
                Some(this_obj),
            ),
            NativeFn::MakeArray => (
                env_push(logged, ValueDataV::Array(args)),
                Some(local_at(with_obj.values.len())),
            ),
            NativeFn::Throwing => (
                env_with_pending(logged, ExceptionV::TypeError("native function threw"@)),
                None,
            ),
        },
        _ => (with_obj, None),
    }
}

/// The host's strict-equality predicate (the semantics of JavaScript `===`
/// in the model host): primitives compare by value — numbers by their bit
/// pattern — and object-shaped values compare by identity.
pub open spec fn strict_eq(e: EnvV, a: Local, b: Local) -> bool {
    match (data_at(e, a), data_at(e, b)) {
        (ValueDataV::Undefined, ValueDataV::Undefined) => true,
        (ValueDataV::Null, ValueDataV::Null) => true,
        (ValueDataV::Boolean(x), ValueDataV::Boolean(y)) => x == y,
        (ValueDataV::Number(x), ValueDataV::Number(y)) => x == y,
        (ValueDataV::Str(x), ValueDataV::Str(y)) => x == y,
        (ValueDataV::Object, ValueDataV::Object) => a.spec_ix() == b.spec_ix(),
        (ValueDataV::Array(_), ValueDataV::Array(_)) => a.spec_ix() == b.spec_ix(),
        (ValueDataV::Function(_), ValueDataV::Function(_)) => a.spec_ix() == b.spec_ix(),
        _ => false,
    }
}

/// The rendering of a slot's data as a string, as the host's to-string
/// conversion produces it. The model host renders a number through the
/// small-integer codec: an integer-valued double renders exactly, NaN
/// renders as `NaN`, and any other number renders as `number`; an array
/// renders as the empty string, as an empty JavaScript array does.
pub open spec fn spec_to_string(d: ValueDataV) -> Seq<char> {
    match d {
        ValueDataV::Undefined => "undefined"@,
        ValueDataV::Null => "null"@,
        ValueDataV::Boolean(b) => if b {
            "true"@
        } else {
            "false"@
        },
        ValueDataV::Number(bits) => match crate::numbits::spec_decode_small(bits) {
            Some(n) => crate::text::dec_str(n),
            None => if bits == crate::numbits::NAN_BITS {
                "NaN"@
            } else {
                "number"@
            },
        },
        ValueDataV::Str(s) => s,
        ValueDataV::Object => "[object Object]"@,
        ValueDataV::Array(_) => ""@,
        ValueDataV::Function(_) => "function"@,
    }
}

/// The state of the host engine: the value store, the pending-exception
/// state, and the invocation log.
pub struct Env {
    values: Vec<ValueData>,
    pending: Option<Exception>,
    calls: Vec<CallRecord>,
}

impl View for Env {
    type V = EnvV;

    closed spec fn view(&self) -> EnvV {
        EnvV {
            values: self.values@.map_values(|d: ValueData| d@),
            pending: match self.pending {
                Some(x) => Some(x@),
                None => None,
            },
            calls: self.calls@.map_values(|c: CallRecord| c@),
        }
    }
}

impl Env {
    pub(crate) fn new() -> (e: Env)
        ensures
            e@ == (EnvV { values: Seq::empty(), pending: None::<ExceptionV>, calls: Seq::empty() }),
            e@.wf(),
    {
        let e = Env { values: Vec::new(), pending: None, calls: Vec::new() };
        proof {
            assert(e@.values =~= Seq::<ValueDataV>::empty());
            assert(e@.calls =~= Seq::<CallV>::empty());
        }
        e
    }

    /// Allocates a new slot holding `d`.
    pub(crate) fn push_value(&mut self, d: ValueData) -> (l: Local)
        requires
            old(self)@.wf(),
            data_wf(old(self)@, d@),
        ensures
            final(self)@ == env_push(old(self)@, d@),
            final(self)@.wf(),
            env_extends(final(self)@, old(self)@),
            l == local_at(old(self)@.values.len()),
            l.spec_ix() == old(self)@.values.len(),
            local_valid(final(self)@, l),
            data_at(final(self)@, l) == d@,
    {
        let l = Local::new(self.values.len());
        self.values.push(d);
        proof {
            assert(self@.values =~= old(self)@.values.push(d@));
            assert(self@ == env_push(old(self)@, d@));
            lemma_env_push_wf(old(self)@, d@);
        }
        l
    }

    pub(crate) fn is_pending(&self) -> (r: bool)
        ensures
            r == (self@.pending is Some),
    {
        self.pending.is_some()
    }

    /// Enters the pending-exception state; the host must not already be throwing.
    pub(crate) fn set_pending(&mut self, x: Exception)
        requires
            old(self)@.ok(),
            old(self)@.wf(),
            exception_wf(old(self)@, x@),
        ensures
            final(self)@ == env_with_pending(old(self)@, x@),
            final(self)@.wf(),
            env_extends(final(self)@, old(self)@),
    {
        self.pending = Some(x);
        proof {
            assert(self@ == env_with_pending(old(self)@, x@));
            lemma_env_with_pending_wf(old(self)@, x@);
        }
    }

    /// How many invocations the log holds.
    pub(crate) fn call_count(&self) -> (n: usize)
        ensures
            n == self@.calls.len(),
    {
        self.calls.len()
    }

    /// One entry of the invocation log.
    pub(crate) fn call_ref(&self, i: usize) -> (c: &CallRecord)
        requires
            i < self@.calls.len(),
        ensures
            c@ == self@.calls[i as int],
    {
        &self.calls[i]
    }

    /// Reads the data of a slot.
    pub(crate) fn data_ref(&self, l: Local) -> (d: &ValueData)
        requires
            local_valid(self@, l),
        ensures
            d@ == data_at(self@, l),
    {
        &self.values[l.index()]
    }

    /// The host's strict-equality test.
    pub(crate) fn strict_equals_raw(&self, a: Local, b: Local) -> (r: bool)
        requires
            local_valid(self@, a),
            local_valid(self@, b),
        ensures
            r == strict_eq(self@, a, b),
    {
        proof {
            assert(data_at(self@, a) == self.values@[a.spec_ix() as int]@);
            assert(data_at(self@, b) == self.values@[b.spec_ix() as int]@);
        }
        let da = &self.values[a.index()];
        let db = &self.values[b.index()];
        match (da, db) {
            (ValueData::Undefined, ValueData::Undefined) => true,
            (ValueData::Null, ValueData::Null) => true,
            (ValueData::Boolean(x), ValueData::Boolean(y)) => *x == *y,
            (ValueData::Number(x), ValueData::Number(y)) => *x == *y,
            (ValueData::Str(x), ValueData::Str(y)) => x.eq(y),
            (ValueData::Object, ValueData::Object) => a.index() == b.index(),
            (ValueData::Array(_), ValueData::Array(_)) => a.index() == b.index(),
            (ValueData::Function(_), ValueData::Function(_)) => a.index() == b.index(),
            _ => false,
        }
    }

    /// Allocates a string slot; fails (with no state change and no exception)
    /// when the UTF-8 byte length exceeds [`MAX_STRING_SIZE`].
    pub(crate) fn string_new(&mut self, s: &str) -> (r: Option<Local>)
        requires
            old(self)@.wf(),
        ensures
            final(self)@.wf(),
            env_extends(final(self)@, old(self)@),
            match r {
                Some(l) => string_fits(s@) && final(self)@ == env_push(old(self)@, ValueDataV::Str(s@))
                    && l == local_at(old(self)@.values.len()) && local_valid(final(self)@, l)
                    && data_at(final(self)@, l) == ValueDataV::Str(s@),
                None => !string_fits(s@) && *final(self) == *old(self),
            },
    {
        let nbytes = s.as_bytes().len();
        proof {
            assert(nbytes == vstd::utf8::encode_utf8(s@).len());
        }
        if nbytes > MAX_STRING_SIZE {
            None
        } else {
            let d = ValueData::Str(String::from_str(s));
            proof {
                assert(d@ == ValueDataV::Str(s@));
            }
            let l = self.push_value(d);
            Some(l)
        }
    }

    /// Allocates an array of `len` elements, each initially `undefined`.
    pub(crate) fn array_new(&mut self, len: u32) -> (r: Local)
        requires
            old(self)@.wf(),
        ensures
            final(self)@ == spec_array_new(old(self)@, len as nat).0,
            r == spec_array_new(old(self)@, len as nat).1,
            final(self)@.wf(),
            env_extends(final(self)@, old(self)@),
            local_valid(final(self)@, r),
            data_at(final(self)@, r) is Array,
    {
        let u = self.push_value(ValueData::Undefined);
        let mut els: Vec<Local> = Vec::new();
        let mut i: u32 = 0;
        while i < len
            invariant
                i <= len,
                els@.len() == i as nat,
                forall|k: int| 0 <= k < i as int ==> els@[k] == u,
            decreases len - i,
        {
            els.push(u);
            i = i + 1;
        }
        proof {
            assert(els@ =~= Seq::new(len as nat, |k: int| u));
        }
        let a = self.push_value(ValueData::Array(els));
        proof {
            assert(self@ == spec_array_new(old(self)@, len as nat).0);
        }
        a
    }

    /// The length of an array slot.
    pub(crate) fn array_len(&self, l: Local) -> (n: usize)
        requires
            local_valid(self@, l),
            data_at(self@, l) is Array,
        ensures
            n == data_at(self@, l)->Array_0.len(),
    {
        match &self.values[l.index()] {
            ValueData::Array(els) => els.len(),
            _ => 0,
        }
    }

    /// An element of an array slot.
    pub(crate) fn array_get(&self, l: Local, i: usize) -> (r: Local)
        requires
            local_valid(self@, l),
            data_at(self@, l) is Array,
            i < data_at(self@, l)->Array_0.len(),
        ensures
            r == data_at(self@, l)->Array_0[i as int],
    {
        match &self.values[l.index()] {
            ValueData::Array(els) => els[i],
            _ => l,
        }
    }

    /// Invokes the function in slot `callee` with the given `this` binding and
    /// arguments: the invocation is logged, the callee's native behavior runs,
    /// and `None` signals that the host is now in a pending-exception state.
    pub(crate) fn fun_call(&mut self, callee: Local, this_arg: Local, args: &Vec<Local>) -> (r: Option<
        Local,
    >)
        requires
            old(self)@.wf(),
            old(self)@.ok(),
            local_valid(old(self)@, callee),
            data_at(old(self)@, callee) is Function,
            local_valid(old(self)@, this_arg),
            forall|i: int| 0 <= i < args@.len() ==> local_valid(old(self)@, #[trigger] args@[i]),
            args@.len() <= 65535,
        ensures
            final(self)@ == spec_fun_call(old(self)@, callee, this_arg, args@).0,
            r == spec_fun_call(old(self)@, callee, this_arg, args@).1,
            final(self)@.wf(),
            env_extends(final(self)@, old(self)@),
            match r {
                Some(l) => final(self)@.ok() && local_valid(final(self)@, l),
                None => !final(self)@.ok(),
            },
    {
        let nf = match &self.values[callee.index()] {
            ValueData::Function(f) => *f,
            _ => NativeFn::Throwing,
        };
        self.log_call(CallRecord {
            callee,
            this_arg,
            args: copy_locals(args),
            construct: false,
        });
        match nf {
            NativeFn::Sum => {
                let bits = self.sum_args(args);
                let l = self.push_value(ValueData::Number(bits));
                Some(l)
            },
            NativeFn::MakeArray => {
                let l = self.push_value(ValueData::Array(copy_locals(args)));
                Some(l)
            },
            NativeFn::Throwing => {
                self.set_pending(Exception::TypeError(String::from_str("native function threw")));
                None
            },
        }
    }

    /// Invokes the function in slot `callee` as a constructor: a fresh object
    /// is allocated to be the new value's identity, the native behavior runs,
    /// and the result is the behavior's value if it is object-shaped, else the
    /// fresh object.
    pub(crate) fn fun_construct(&mut self, callee: Local, args: &Vec<Local>) -> (r: Option<Local>)
        requires
            old(self)@.wf(),
            old(self)@.ok(),
            local_valid(old(self)@, callee),
            data_at(old(self)@, callee) is Function,
            forall|i: int| 0 <= i < args@.len() ==> local_valid(old(self)@, #[trigger] args@[i]),
            args@.len() <= 65535,
        ensures
            final(self)@ == spec_fun_construct(old(self)@, callee, args@).0,
            r == spec_fun_construct(old(self)@, callee, args@).1,
            final(self)@.wf(),
            env_extends(final(self)@, old(self)@),
            match r {
                Some(l) => final(self)@.ok() && local_valid(final(self)@, l) && (data_at(
                    final(self)@,
                    l,
                ) is Object || data_at(final(self)@, l) is Array),
                None => !final(self)@.ok(),
            },
    {
        let nf = match &self.values[callee.index()] {
            ValueData::Function(f) => *f,
            _ => NativeFn::Throwing,
        };
        let this_obj = self.push_value(ValueData::Object);
        self.log_call(CallRecord {
            callee,
            this_arg: this_obj,
            args: copy_locals(args),
            construct: true,
        });
        match nf {
            NativeFn::Sum => {
                let bits = self.sum_args(args);
                let _ = self.push_value(ValueData::Number(bits));
                Some(this_obj)
            },
            NativeFn::MakeArray => {
                let l = self.push_value(ValueData::Array(copy_locals(args)));
                Some(l)
            },
            NativeFn::Throwing => {
                self.set_pending(Exception::TypeError(String::from_str("native function threw")));
                None
            },
        }
    }

    /// Appends one entry to the invocation log.
    fn log_call(&mut self, c: CallRecord)
        requires
            old(self)@.wf(),
            call_record_wf(old(self)@, c@),
        ensures
            final(self)@ == env_log(old(self)@, c@),
            final(self)@.wf(),
            env_extends(final(self)@, old(self)@),
    {
        self.calls.push(c);
        proof {
            assert(self@.calls =~= old(self)@.calls.push(c@));
            assert(self@ == env_log(old(self)@, c@));
            lemma_env_log_wf(old(self)@, c@);
        }
    }

    /// Adds the first two arguments as integer-valued numbers; any argument
    /// the codec does not cover makes the result NaN.
    fn sum_args(&self, args: &Vec<Local>) -> (bits: u64)
        requires
            forall|i: int| 0 <= i < args@.len() ==> local_valid(self@, #[trigger] args@[i]),
        ensures
            bits == spec_sum_bits(self@, args@),
    {
        if args.len() < 2 {
            return crate::numbits::NAN_BITS;
        }
        let x = match &self.values[args[0].index()] {
            ValueData::Number(b) => Some(*b),
            _ => None,
        };
        let y = match &self.values[args[1].index()] {
            ValueData::Number(b) => Some(*b),
            _ => None,
        };
        match (x, y) {
            (Some(xb), Some(yb)) => {
                match (crate::numbits::decode_small(xb), crate::numbits::decode_small(yb)) {
                    (Some(a), Some(b)) => {
                        if a + b < crate::numbits::SMALL_LIMIT {
                            proof {
                                vstd::arithmetic::power2::lemma2_to64_rest();
                                crate::numbits::lemma_small_f64_bits_bound((a + b) as nat);
                            }
                            let r = crate::numbits::encode_small(a + b);
                            r
                        } else {
                            crate::numbits::NAN_BITS
                        }
                    },
                    _ => crate::numbits::NAN_BITS,
                }
            },
            _ => crate::numbits::NAN_BITS,
        }
    }

    /// Converts the value of a slot to a string, allocating the result.
    pub(crate) fn convert_to_string(&mut self, l: Local) -> (r: Local)
        requires
            old(self)@.wf(),
            local_valid(old(self)@, l),
        ensures
            final(self)@ == env_push(old(self)@, ValueDataV::Str(spec_to_string(data_at(old(self)@, l)))),
            final(self)@.wf(),
            env_extends(final(self)@, old(self)@),
            r == local_at(old(self)@.values.len()),
            local_valid(final(self)@, r),
            data_at(final(self)@, r) == ValueDataV::Str(spec_to_string(data_at(old(self)@, l))),
    {
        let s: String = match &self.values[l.index()] {
            ValueData::Undefined => String::from_str("undefined"),
            ValueData::Null => String::from_str("null"),
            ValueData::Boolean(b) => if *b {
                String::from_str("true")
            } else {
                String::from_str("false")
            },
            ValueData::Number(bits) => match crate::numbits::decode_small(*bits) {
                Some(n) => crate::text::to_decimal(n),
                None => if *bits == crate::numbits::NAN_BITS {
                    String::from_str("NaN")
                } else {
                    String::from_str("number")
                },
            },
            ValueData::Str(t) => t.clone(),
            ValueData::Object => String::from_str("[object Object]"),
            ValueData::Array(_) => String::from_str(""),
            ValueData::Function(_) => String::from_str("function"),
        };
        self.push_value(ValueData::Str(s))
    }

    /// Leaves the pending-exception state, surrendering the exception.
    pub(crate) fn take_pending(&mut self) -> (r: Option<Exception>)
        requires
            old(self)@.wf(),
        ensures
            final(self)@ == (EnvV { pending: None, ..old(self)@ }),
            final(self)@.wf(),
            final(self)@.ok(),
            env_extends(final(self)@, old(self)@),
            match r {
                Some(x) => old(self)@.pending == Some(x@),
                None => old(self)@.pending is None,
            },
    {
        let r = self.pending.take();
        proof {
            assert(self@ == (EnvV { pending: None, ..old(self)@ }));
            assert forall|i: int| 0 <= i < self@.values.len() implies data_wf(
                self@,
                #[trigger] self@.values[i],
            ) by {
                assert(data_wf(old(self)@, old(self)@.values[i]));
                lemma_data_wf_mono(old(self)@, self@, old(self)@.values[i]);
            };
        }
        r
    }
}

/// Copies a vector of slot references.
fn copy_locals(v: &Vec<Local>) -> (r: Vec<Local>)
    ensures
        r@ == v@,
{
    let mut r: Vec<Local> = Vec::new();
    let mut i: usize = 0;
    while i < v.len()
        invariant
            i <= v.len(),
            r@ == v@.subrange(0, i as int),
        decreases v.len() - i,
    {
        r.push(v[i]);
        proof {
            assert(r@ =~= v@.subrange(0, i as int + 1));
        }
        i = i + 1;
    }
    proof {
        assert(r@ =~= v@);
    }
    r
}

} // verus!
