//! The laws of the handle system, stated and proved once and for all: the
//! cast invariants of the type registry, reflexivity of strict equality,
//! the primitive round trips, and the argument-count boundary.

use vstd::prelude::*;
use vstd::arithmetic::div_mod::lemma_fundamental_div_mod_converse;
use vstd::arithmetic::power2::{
    lemma2_to64, lemma_pow2_adds, lemma_pow2_pos, lemma_pow2_strictly_increases, pow2,
};
use crate::numbits::{
    lemma_log2_bracket, lemma_small_f64_bits_bound, log2, small_f64_bits, spec_decode_small,
};
use crate::context::{cx_push, ContextV};
use crate::handle::{lemma_handle_eq, Handle};
use crate::host::{
    data_at, env_with_pending, local_at, local_valid, strict_eq, string_fits, EnvV, ExceptionV,
    Local, ValueDataV,
};
use crate::kinds::{downcast_ok, kind_accepts, Kind};
use crate::types::{spec_bound_call, SuperType, Value, V8_ARGC_LIMIT};

verus! {

/// A type test and a downcast agree everywhere: `is_a` answers true for
/// exactly the values on which `downcast` to the same kind succeeds.
pub proof fn lemma_is_a_iff_downcast(k: Kind, d: ValueDataV)
    ensures
        kind_accepts(k, d) <==> downcast_ok(k, d),
{
}

/// Strict equality is reflexive: every valid value is strictly equal to
/// itself — numbers compare by bit pattern in the model host, so this holds
/// of NaN as well.
pub proof fn lemma_strict_equals_reflexive(e: EnvV, l: Local)
    requires
        local_valid(e, l),
    ensures
        strict_eq(e, l, l),
{
}

/// Downcasting a handle to its own kind succeeds, and — since a handle
/// carries nothing beyond its engine reference — any handle of that kind
/// wrapping the same reference is equal to it.
pub proof fn lemma_downcast_idempotent<T: Value>(h: Handle<T>, h2: Handle<T>, e: EnvV)
    requires
        h.wf(e),
        h2.spec_local() == h.spec_local(),
    ensures
        downcast_ok(T::spec_kind(), data_at(e, h.spec_local())),
        h2 == h,
{
    lemma_handle_eq(h, h2);
}

/// An upcast followed by a downcast to the original kind succeeds: the
/// upcast keeps the underlying reference, the supertype accepts everything
/// the subtype accepts, and the original kind still accepts its own value.
pub proof fn lemma_upcast_then_downcast<T: Value, U: Value + SuperType<T>>(h: Handle<T>, e: EnvV)
    requires
        h.wf(e),
    ensures
        kind_accepts(U::spec_kind(), data_at(e, h.spec_local())),
        downcast_ok(T::spec_kind(), data_at(e, h.spec_local())),
{
    U::lemma_subsumes(data_at(e, h.spec_local()));
}

/// Building a number and reading it back yields the same bit pattern, for
/// every pattern of an IEEE-754 double — signed zeros, infinities and NaN
/// included.
pub proof fn lemma_number_round_trip(c: ContextV, bits: u64)
    requires
        c.env.values.len() < usize::MAX,
    ensures
        ({
            let c2 = cx_push(c, ValueDataV::Number(bits));
            let l = local_at(c.env.values.len());
            &&& local_valid(c2.env, l)
            &&& data_at(c2.env, l) == ValueDataV::Number(bits)
        }),
{
    crate::host::lemma_local_at(c.env.values.len());
}

/// Building a boolean and reading it back yields the same boolean.
pub proof fn lemma_boolean_round_trip(c: ContextV, b: bool)
    requires
        c.env.values.len() < usize::MAX,
    ensures
        ({
            let c2 = cx_push(c, ValueDataV::Boolean(b));
            let l = local_at(c.env.values.len());
            &&& local_valid(c2.env, l)
            &&& data_at(c2.env, l) == ValueDataV::Boolean(b)
        }),
{
    crate::host::lemma_local_at(c.env.values.len());
}

/// Building a string whose size the host accepts and reading it back yields
/// the same character sequence.
pub proof fn lemma_string_round_trip(c: ContextV, s: Seq<char>)
    requires
        c.env.values.len() < usize::MAX,
        string_fits(s),
    ensures
        ({
            let c2 = cx_push(c, ValueDataV::Str(s));
            let l = local_at(c.env.values.len());
            &&& local_valid(c2.env, l)
            &&& data_at(c2.env, l) == ValueDataV::Str(s)
        }),
{
    crate::host::lemma_local_at(c.env.values.len());
}

/// Decoding inverts encoding: every integer the codec covers round-trips
/// through the bit pattern of the double that denotes it, so the host's
/// integer arithmetic on numbers loses nothing on the values it handles.
pub proof fn lemma_decode_inverts_encode(n: nat)
    requires
        n < pow2(53),
    ensures
        small_f64_bits(n) <= u64::MAX,
        spec_decode_small(small_f64_bits(n) as u64) == Some(n),
{
    lemma2_to64();
    vstd::arithmetic::power2::lemma2_to64_rest();
    lemma_small_f64_bits_bound(n);
    if n > 0 {
        let e = log2(n);
        lemma_log2_bracket(n);
        if e >= 53 {
            if e > 53 {
                lemma_pow2_strictly_increases(53, e);
            }
            assert(pow2(53) <= pow2(e));
            assert(false);
        }
        lemma_pow2_pos(e);
        lemma_pow2_pos((52 - e) as nat);
        lemma_pow2_pos(52);
        lemma_pow2_adds(e, (52 - e) as nat);
        let dl = pow2((52 - e) as nat) as int;
        let frac = (n - pow2(e)) * dl;
        assert(frac < pow2(52)) by {
            assert((n as int - pow2(e)) * dl < pow2(e) * dl) by (nonlinear_arith)
                requires
                    n as int - pow2(e) < pow2(e),
                    dl >= 1,
                    n as int - pow2(e) >= 0;
            assert(pow2(e) * dl == pow2(52));
        };
        let bits = small_f64_bits(n) as int;
        assert(bits == (1023 + e) * pow2(52) + frac);
        assert(bits > 0) by {
            assert((1023 + e) * pow2(52) >= pow2(52)) by (nonlinear_arith)
                requires pow2(52) as int >= 1 && e >= 0;
        };
        lemma_fundamental_div_mod_converse(bits, pow2(52) as int, 1023 + e as int, frac);
        assert(bits / (pow2(52) as int) == 1023 + e);
        assert(bits % (pow2(52) as int) == frac);
        lemma_fundamental_div_mod_converse(frac, dl, n as int - pow2(e), 0);
        assert(frac / dl == n - pow2(e));
        assert(frac % dl == 0);
        assert(spec_decode_small(small_f64_bits(n) as u64) == Some(
            (pow2((e) as nat) + frac / dl) as nat,
        ));
    }
}

/// A call with more positional arguments than the host's cap throws a
/// `RangeError` before the host is touched: the value store and the
/// invocation log are exactly as they were, whatever the callee and `this`
/// binding are.
pub proof fn lemma_argc_overflow(e: EnvV, callee: Local, this_arg: Local, args: Seq<Local>)
    requires
        args.len() > V8_ARGC_LIMIT,
    ensures
        ({
            let out = spec_bound_call(e, callee, this_arg, args);
            &&& out.0 == env_with_pending(e, ExceptionV::RangeError("too many arguments"@))
            &&& out.0.values == e.values
            &&& out.0.calls == e.calls
            &&& out.1 is None
        }),
{
}

} // verus!
