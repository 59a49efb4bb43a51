use neon_core::context::Context;
use neon_core::handle::Handle;
use neon_core::host::{Exception, NativeFn};
use neon_core::numbits::NAN_BITS;
use neon_core::types::{JsArray, JsNumber, JsObject, JsString, JsValue, Value};

#[test]
fn call_adds_numbers() {
    let mut cx = Context::new();
    let f = neon_core::types::JsFunction::new(&mut cx, NativeFn::Sum).unwrap();
    let a = cx.number(f64::to_bits(2.0));
    let b = cx.number(f64::to_bits(3.0));
    let r = f.deref().arg(a).arg(b).call::<JsNumber>(&mut cx).unwrap();
    assert_eq!(r.deref().value(&mut cx), f64::to_bits(5.0));
    assert_eq!(cx.host_call_count(), 1);
}

#[test]
fn call_result_downcast_failure_names_the_runtime_kind() {
    let mut cx = Context::new();
    let f = neon_core::types::JsFunction::new(&mut cx, NativeFn::Sum).unwrap();
    let a = cx.number(f64::to_bits(2.0));
    let b = cx.number(f64::to_bits(3.0));
    let res = f.deref().arg(a).arg(b).call::<JsString>(&mut cx);
    assert!(res.is_err());
    match cx.take_pending_exception() {
        Some(Exception::TypeError(msg)) => {
            assert_eq!(msg, "failed to downcast number to string");
        },
        _ => panic!("expected a TypeError"),
    }
}

#[test]
fn argument_overflow_throws_before_the_host_is_called() {
    let mut cx = Context::new();
    let f = neon_core::types::JsFunction::new(&mut cx, NativeFn::Sum).unwrap();
    let x = cx.number(f64::to_bits(1.0));
    let mut b = f.deref().arg(x);
    let mut i = 0;
    while i < 65535 {
        b = b.arg(x);
        i += 1;
    }
    let calls_before = cx.host_call_count();
    let res = b.call::<JsValue>(&mut cx);
    assert!(res.is_err());
    assert_eq!(cx.host_call_count(), calls_before);
    match cx.take_pending_exception() {
        Some(Exception::RangeError(msg)) => assert_eq!(msg, "too many arguments"),
        _ => panic!("expected a RangeError"),
    }
}

#[test]
fn exactly_the_cap_is_accepted() {
    let mut cx = Context::new();
    let f = neon_core::types::JsFunction::new(&mut cx, NativeFn::Sum).unwrap();
    let x = cx.number(f64::to_bits(1.0));
    let mut b = f.deref().arg(x);
    let mut i = 0;
    while i < 65534 {
        b = b.arg(x);
        i += 1;
    }
    assert!(b.call::<JsNumber>(&mut cx).is_ok());
    assert_eq!(cx.host_call_count(), 1);
}

#[test]
fn this_binding_and_argument_order() {
    let mut cx = Context::new();
    let f = neon_core::types::JsFunction::new(&mut cx, NativeFn::MakeArray).unwrap();
    let x = cx.number(f64::to_bits(1.0));
    let y = cx.empty_object();
    let z = cx.string("z").unwrap();
    f.deref().arg(x).this(y).arg(z).exec(&mut cx).unwrap();
    assert_eq!(cx.host_call_count(), 1);
    let rec = cx.host_call(0);
    assert_eq!(rec.this_arg, y.local());
    assert_eq!(rec.args, vec![x.local(), z.local()]);
    assert!(!rec.construct);
}


#[test]
fn make_array_returns_the_arguments_in_order() {
    let mut cx = Context::new();
    let f = neon_core::types::JsFunction::new(&mut cx, NativeFn::MakeArray).unwrap();
    let a = cx.number(f64::to_bits(1.0));
    let b = cx.boolean(true);
    let arr = f.deref().args((a, b)).call::<JsArray>(&mut cx).unwrap();
    assert_eq!(arr.deref().len(&mut cx), 2);
    assert!(!arr.deref().is_empty(&mut cx));
    let v = arr.deref().to_vec(&mut cx).unwrap();
    assert_eq!(v.len(), 2);
    assert_eq!(v[0].local(), a.local());
    assert_eq!(v[1].local(), b.local());
    assert!(v[1].strict_equals(&mut cx, b));
}

#[test]
fn sum_of_non_numbers_is_nan() {
    let mut cx = Context::new();
    let f = neon_core::types::JsFunction::new(&mut cx, NativeFn::Sum).unwrap();
    let a = cx.boolean(true);
    let b = cx.boolean(false);
    let r = f.deref().arg(a).arg(b).call::<JsNumber>(&mut cx).unwrap();
    assert_eq!(r.deref().value(&mut cx), NAN_BITS);
    let r2 = f.deref().args(()).call::<JsNumber>(&mut cx).unwrap();
    assert_eq!(r2.deref().value(&mut cx), NAN_BITS);
}

#[test]
fn sum_beyond_the_exact_range_is_nan() {
    let mut cx = Context::new();
    let f = neon_core::types::JsFunction::new(&mut cx, NativeFn::Sum).unwrap();
    let big = ((1u64 << 53) - 1) as f64;
    let a = cx.number(big.to_bits());
    let b = cx.number(big.to_bits());
    let r = f.deref().arg(a).arg(b).call::<JsNumber>(&mut cx).unwrap();
    assert_eq!(r.deref().value(&mut cx), NAN_BITS);
}

#[test]
fn throwing_function_sets_the_pending_exception() {
    let mut cx = Context::new();
    let f = neon_core::types::JsFunction::new(&mut cx, NativeFn::Throwing).unwrap();
    let x = cx.number(f64::to_bits(1.0));
    let res = f.deref().arg(x).exec(&mut cx);
    assert!(res.is_err());
    assert!(cx.has_pending_exception());
    match cx.take_pending_exception() {
        Some(Exception::TypeError(msg)) => assert_eq!(msg, "native function threw"),
        _ => panic!("expected a TypeError"),
    }
    assert!(!cx.has_pending_exception());
}

#[test]
fn constructor_returns_an_object() {
    let mut cx = Context::new();
    let f = neon_core::types::JsFunction::new(&mut cx, NativeFn::Sum).unwrap();
    let x = cx.number(f64::to_bits(1.0));
    let obj = f.deref().arg(x).new(&mut cx).unwrap();
    let any: Handle<JsValue> = obj.upcast();
    assert!(any.is_a::<JsObject>(&mut cx));
    assert!(cx.host_call(0).construct);
}

#[test]
fn constructor_keeps_an_object_shaped_result() {
    let mut cx = Context::new();
    let f = neon_core::types::JsFunction::new(&mut cx, NativeFn::MakeArray).unwrap();
    let x = cx.number(f64::to_bits(9.0));
    let obj = f.deref().arg(x).new(&mut cx).unwrap();
    let any: Handle<JsValue> = obj.upcast();
    assert!(any.is_a::<JsArray>(&mut cx));
}

#[test]
fn bound_builder_replaces_this() {
    let mut cx = Context::new();
    let f = neon_core::types::JsFunction::new(&mut cx, NativeFn::MakeArray).unwrap();
    let first = cx.empty_object();
    let second = cx.empty_object();
    f.deref().this(first).this(second).exec(&mut cx).unwrap();
    assert_eq!(cx.host_call(0).this_arg, second.local());
}

#[test]
fn bound_builder_accepts_tuple_arguments() {
    let mut cx = Context::new();
    let f = neon_core::types::JsFunction::new(&mut cx, NativeFn::MakeArray).unwrap();
    let t = cx.empty_object();
    let a = cx.number(f64::to_bits(1.0));
    let b = cx.number(f64::to_bits(2.0));
    let c = cx.number(f64::to_bits(3.0));
    f.deref().this(t).args((a, b, c)).exec(&mut cx).unwrap();
    let rec = cx.host_call(0);
    assert_eq!(rec.args, vec![a.local(), b.local(), c.local()]);
}

#[test]
fn empty_array_elements_read_as_undefined() {
    let mut cx = Context::new();
    let arr = cx.empty_array(3);
    assert_eq!(arr.deref().len(&mut cx), 3);
    let el = arr.deref().get(&mut cx, 0).unwrap();
    assert!(el.is_a::<neon_core::types::JsUndefined>(&mut cx));
    let past = arr.deref().get(&mut cx, 7).unwrap();
    assert!(past.is_a::<neon_core::types::JsUndefined>(&mut cx));
    let none = cx.empty_array(0);
    assert!(none.deref().is_empty(&mut cx));
}
