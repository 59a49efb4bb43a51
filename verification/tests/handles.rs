use neon_core::context::Context;
use neon_core::handle::Handle;
use neon_core::types::{
    JsArray, JsBoolean, JsFunction, JsNull, JsNumber, JsObject, JsString, JsUndefined, JsValue,
    Value,
};

#[test]
fn upcast_keeps_the_local() {
    let mut cx = Context::new();
    let n = cx.number(f64::to_bits(1.5));
    let any: Handle<JsValue> = n.upcast();
    assert_eq!(any.local(), n.local());
    let arr = cx.empty_array(2);
    let obj: Handle<JsObject> = arr.upcast();
    assert_eq!(obj.local(), arr.local());
    assert_eq!(obj.upcast::<JsValue>().local(), arr.local());
}

#[test]
fn is_a_agrees_with_downcast() {
    let mut cx = Context::new();
    let v: Handle<JsValue> = cx.number(f64::to_bits(2.0)).upcast();
    assert!(v.is_a::<JsNumber>(&mut cx));
    assert!(v.downcast::<JsNumber>(&mut cx).is_ok());
    assert!(!v.is_a::<JsString>(&mut cx));
    assert!(v.downcast::<JsString>(&mut cx).is_err());
    assert!(v.is_a::<JsValue>(&mut cx));
    assert!(v.downcast::<JsValue>(&mut cx).is_ok());
    let a: Handle<JsValue> = cx.empty_array(0).upcast();
    assert!(a.is_a::<JsObject>(&mut cx));
    assert!(a.downcast::<JsObject>(&mut cx).is_ok());
    assert!(a.is_a::<JsArray>(&mut cx));
    assert!(!a.is_a::<JsFunction>(&mut cx));
    assert!(a.downcast::<JsFunction>(&mut cx).is_err());
}

#[test]
fn strict_equals_is_reflexive() {
    let mut cx = Context::new();
    let n = cx.number(f64::to_bits(2.5));
    assert!(n.strict_equals(&mut cx, n));
    let nan = cx.number(f64::to_bits(f64::NAN));
    assert!(nan.strict_equals(&mut cx, nan));
    let s = cx.string("hey").unwrap();
    assert!(s.strict_equals(&mut cx, s));
    let o = cx.empty_object();
    assert!(o.strict_equals(&mut cx, o));
    let b = cx.boolean(false);
    assert!(b.strict_equals(&mut cx, b));
    let u = cx.undefined();
    assert!(u.strict_equals(&mut cx, u));
}

#[test]
fn strict_equals_compares_primitives_by_value_and_objects_by_identity() {
    let mut cx = Context::new();
    let a = cx.number(f64::to_bits(4.0));
    let b = cx.number(f64::to_bits(4.0));
    assert!(a.strict_equals(&mut cx, b));
    let c = cx.number(f64::to_bits(5.0));
    assert!(!a.strict_equals(&mut cx, c));
    let s1 = cx.string("x").unwrap();
    let s2 = cx.string("x").unwrap();
    assert!(s1.strict_equals(&mut cx, s2));
    let o1 = cx.empty_object();
    let o2 = cx.empty_object();
    assert!(!o1.strict_equals(&mut cx, o2));
    assert!(!a.strict_equals(&mut cx, s1));
}

#[test]
fn downcast_to_own_kind_is_idempotent() {
    let mut cx = Context::new();
    let n = cx.number(f64::to_bits(6.25));
    let again = match n.downcast::<JsNumber>(&mut cx) {
        Ok(h) => h,
        Err(_) => panic!("downcast to the handle's own kind must succeed"),
    };
    assert_eq!(again.local(), n.local());
    assert!(again.strict_equals(&mut cx, n));
}

#[test]
fn upcast_then_downcast_succeeds() {
    let mut cx = Context::new();
    let arr = cx.empty_array(1);
    let any: Handle<JsValue> = arr.upcast();
    assert!(any.downcast::<JsArray>(&mut cx).is_ok());
    let obj: Handle<JsObject> = arr.upcast();
    assert!(obj.downcast::<JsArray>(&mut cx).is_ok());
    let b = cx.boolean(true);
    let bv: Handle<JsValue> = b.upcast();
    let back = match bv.downcast::<JsBoolean>(&mut cx) {
        Ok(h) => h,
        Err(_) => panic!("downcast after upcast must succeed"),
    };
    assert_eq!(back.local(), b.local());
}

#[test]
fn primitive_round_trip_scenario() {
    let mut cx = Context::new();
    let n = cx.number(f64::to_bits(3.14));
    let b = cx.boolean(true);
    let z = cx.null();
    assert!(n.is_a::<JsNumber>(&mut cx));
    assert!(b.is_a::<JsBoolean>(&mut cx));
    assert!(z.is_a::<JsNull>(&mut cx));
    assert!(n.downcast::<JsString>(&mut cx).is_err());
    assert!(b.downcast::<JsNumber>(&mut cx).is_err());
    assert!(z.downcast::<JsUndefined>(&mut cx).is_err());
    assert_eq!(n.deref().value(&mut cx), f64::to_bits(3.14));
    assert_eq!(b.deref().value(&mut cx), true);
}

#[test]
fn upcast_chain_scenario() {
    let mut cx = Context::new();
    let arr = cx.empty_array(0);
    let obj: Handle<JsObject> = arr.upcast();
    let any: Handle<JsValue> = obj.upcast();
    assert!(arr.strict_equals(&mut cx, obj));
    assert!(arr.strict_equals(&mut cx, any));
    assert!(obj.strict_equals(&mut cx, any));
    assert!(any.downcast::<JsArray>(&mut cx).is_ok());
    let e = match any.downcast::<JsFunction>(&mut cx) {
        Err(e) => e,
        Ok(_) => panic!("an array must not downcast to function"),
    };
    assert_eq!(e.message(), "failed to downcast any to function");
}

#[test]
fn kind_names() {
    assert_eq!(JsValue::name(), "any");
    assert_eq!(JsUndefined::name(), "undefined");
    assert_eq!(JsNull::name(), "null");
    assert_eq!(JsBoolean::name(), "boolean");
    assert_eq!(JsNumber::name(), "number");
    assert_eq!(JsString::name(), "string");
    assert_eq!(JsObject::name(), "object");
    assert_eq!(JsArray::name(), "Array");
    assert_eq!(JsFunction::name(), "function");
}

#[test]
fn number_round_trip_all_shapes() {
    let mut cx = Context::new();
    let samples = [
        0.0f64,
        -0.0,
        1.5,
        -1.5,
        f64::INFINITY,
        f64::NEG_INFINITY,
        f64::NAN,
        f64::MIN,
        f64::MAX,
        f64::MIN_POSITIVE,
    ];
    for x in samples {
        let h = cx.number(x.to_bits());
        assert_eq!(h.deref().value(&mut cx), x.to_bits());
    }
}

#[test]
fn boolean_round_trip_both_values() {
    let mut cx = Context::new();
    let t = cx.boolean(true);
    let f = cx.boolean(false);
    assert_eq!(t.deref().value(&mut cx), true);
    assert_eq!(f.deref().value(&mut cx), false);
}

#[test]
fn undefined_and_null_have_their_kinds() {
    let mut cx = Context::new();
    let u = cx.undefined();
    let z = cx.null();
    assert!(u.is_a::<JsUndefined>(&mut cx));
    assert!(!u.is_a::<JsNull>(&mut cx));
    assert!(z.is_a::<JsNull>(&mut cx));
    assert!(!z.is_a::<JsObject>(&mut cx));
}
