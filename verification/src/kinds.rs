//! The static registry of value kinds: the tags of the JavaScript type
//! hierarchy, each with a human-readable name and a runtime type test over
//! the host's value data.

use vstd::prelude::*;
use vstd::string::StringExecFns;
use crate::host::{ValueData, ValueDataV};
use crate::text::dec_str;
use crate::text::to_decimal;

verus! {

/// The compile-time tag identifying which JavaScript-level type a value is
/// known to represent. `Any` is the top of the hierarchy and `Object` the
/// intermediate root of the object-shaped kinds.
#[derive(Clone, Copy, PartialEq, Eq, Structural, Debug)]
pub enum Kind {
    Any,
    Undefined,
    Null,
    Boolean,
    Number,
    Str,
    Object,
    Array,
    Function,
}

/// The human-readable name of a kind, as used in error messages.
pub open spec fn spec_kind_name(k: Kind) -> Seq<char> {
    match k {
        Kind::Any => "any"@,
        Kind::Undefined => "undefined"@,
        Kind::Null => "null"@,
        Kind::Boolean => "boolean"@,
        Kind::Number => "number"@,
        Kind::Str => "string"@,
        Kind::Object => "object"@,
        Kind::Array => "Array"@,
        Kind::Function => "function"@,
    }
}

pub fn kind_name(k: Kind) -> (r: &'static str)
    ensures
        r@ == spec_kind_name(k),
{
    match k {
        Kind::Any => "any",
        Kind::Undefined => "undefined",
        Kind::Null => "null",
        Kind::Boolean => "boolean",
        Kind::Number => "number",
        Kind::Str => "string",
        Kind::Object => "object",
        Kind::Array => "Array",
        Kind::Function => "function",
    }
}

/// The runtime type test of kind `k`: whether a value holding `d` is an
/// instance of `k`. `Any` accepts every value; `Object` accepts every
/// object-shaped value (plain objects, arrays, functions).
pub open spec fn kind_accepts(k: Kind, d: ValueDataV) -> bool {
    match k {
        Kind::Any => true,
        Kind::Undefined => d is Undefined,
        Kind::Null => d is Null,
        Kind::Boolean => d is Boolean,
        Kind::Number => d is Number,
        Kind::Str => d is Str,
        Kind::Object => d is Object || d is Array || d is Function,
        Kind::Array => d is Array,
        Kind::Function => d is Function,
    }
}

/// A value is object-shaped when the `Object` kind accepts it.
pub open spec fn object_shaped(d: ValueDataV) -> bool {
    kind_accepts(Kind::Object, d)
}

/// A downcast to `k` succeeds exactly on the values whose runtime type test
/// for `k` accepts; the test never perturbs the engine.
pub open spec fn downcast_ok(k: Kind, d: ValueDataV) -> bool {
    kind_accepts(k, d)
}

/// Dispatches the runtime type test of `k` on a slot's data.
pub fn kind_test(k: Kind, d: &ValueData) -> (r: bool)
    ensures
        r == kind_accepts(k, d@),
{
    match k {
        Kind::Any => true,
        Kind::Undefined => matches!(d, ValueData::Undefined),
        Kind::Null => matches!(d, ValueData::Null),
        Kind::Boolean => matches!(d, ValueData::Boolean(_)),
        Kind::Number => matches!(d, ValueData::Number(_)),
        Kind::Str => matches!(d, ValueData::Str(_)),
        Kind::Object => matches!(
            d,
            ValueData::Object | ValueData::Array(_) | ValueData::Function(_)
        ),
        Kind::Array => matches!(d, ValueData::Array(_)),
        Kind::Function => matches!(d, ValueData::Function(_)),
    }
}

/// The kind a value's data presents at runtime: the most specific tag whose
/// type test accepts it.
pub open spec fn data_kind(d: ValueDataV) -> Kind {
    match d {
        ValueDataV::Undefined => Kind::Undefined,
        ValueDataV::Null => Kind::Null,
        ValueDataV::Boolean(_) => Kind::Boolean,
        ValueDataV::Number(_) => Kind::Number,
        ValueDataV::Str(_) => Kind::Str,
        ValueDataV::Object => Kind::Object,
        ValueDataV::Array(_) => Kind::Array,
        ValueDataV::Function(_) => Kind::Function,
    }
}

/// Reads the runtime kind of a slot's data.
pub fn data_kind_of(d: &ValueData) -> (k: Kind)
    ensures
        k == data_kind(d@),
{
    match d {
        ValueData::Undefined => Kind::Undefined,
        ValueData::Null => Kind::Null,
        ValueData::Boolean(_) => Kind::Boolean,
        ValueData::Number(_) => Kind::Number,
        ValueData::Str(_) => Kind::Str,
        ValueData::Object => Kind::Object,
        ValueData::Array(_) => Kind::Array,
        ValueData::Function(_) => Kind::Function,
    }
}

/// The message of a failed downcast from `from` to `to`.
pub open spec fn downcast_msg(from: Kind, to: Kind) -> Seq<char> {
    "failed to downcast "@ + spec_kind_name(from) + " to "@ + spec_kind_name(to)
}

/// Renders the failed-downcast message.
pub fn format_downcast_msg(from: Kind, to: Kind) -> (r: String)
    ensures
        r@ == downcast_msg(from, to),
{
    let mut r = String::from_str("failed to downcast ");
    r.append(kind_name(from));
    r.append(" to ");
    r.append(kind_name(to));
    proof {
        assert(r@ =~= downcast_msg(from, to));
    }
    r
}

/// The message of a string-overflow error carrying the offending size.
pub open spec fn overflow_msg(len: nat) -> Seq<char> {
    "string size out of range: "@ + dec_str(len)
}

/// Renders the string-overflow message.
pub fn format_overflow_msg(len: usize) -> (r: String)
    ensures
        r@ == overflow_msg(len as nat),
{
    let mut r = String::from_str("string size out of range: ");
    r.append(to_decimal(len as u64).as_str());
    proof {
        assert(r@ =~= overflow_msg(len as nat));
    }
    r
}

} // verus!
