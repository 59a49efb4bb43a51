use neon_core::context::Context;
use neon_core::handle::Handle;
use neon_core::host::{Exception, MAX_STRING_SIZE};
use neon_core::result::ResultExt;
use neon_core::types::{JsNumber, JsString, JsValue, Value};

#[test]
fn string_round_trip() {
    let mut cx = Context::new();
    let s = cx.string("hello world").unwrap();
    assert_eq!(s.deref().value(&mut cx), "hello world");
    assert_eq!(s.deref().size(&mut cx), 11);
    let empty = cx.string("").unwrap();
    assert_eq!(empty.deref().value(&mut cx), "");
    assert_eq!(empty.deref().size(&mut cx), 0);
    let accents = JsString::new(&mut cx, "h\u{e9}llo");
    assert_eq!(accents.deref().value(&mut cx), "h\u{e9}llo");
    assert_eq!(accents.deref().size(&mut cx), 6);
}

#[test]
fn string_overflow_carries_the_size() {
    let mut cx = Context::new();
    let big = "a".repeat(MAX_STRING_SIZE + 1);
    match cx.try_string(&big) {
        Err(o) => {
            assert_eq!(o.0, MAX_STRING_SIZE + 1);
            assert_eq!(o.message(), "string size out of range: 1048577");
        },
        Ok(_) => panic!("an oversize string must not be allocated"),
    }
    assert!(!cx.has_pending_exception());
}

#[test]
fn string_overflow_or_throw_is_a_range_error() {
    let mut cx = Context::new();
    let big = "b".repeat(MAX_STRING_SIZE + 1);
    let res = JsString::try_new(&mut cx, &big).or_throw(&mut cx);
    assert!(res.is_err());
    match cx.take_pending_exception() {
        Some(Exception::RangeError(msg)) => {
            assert_eq!(msg, "string size out of range: 1048577");
        },
        _ => panic!("expected a RangeError"),
    }
}

#[test]
fn string_at_the_maximum_size_is_accepted() {
    let mut cx = Context::new();
    let exact = "c".repeat(MAX_STRING_SIZE);
    let h = cx.string(&exact).unwrap();
    assert_eq!(h.deref().size(&mut cx), MAX_STRING_SIZE);
}

#[test]
fn downcast_or_throw_formats_static_kind_names() {
    let mut cx = Context::new();
    let n = cx.number(f64::to_bits(8.0));
    let res = n.downcast_or_throw::<JsString>(&mut cx);
    assert!(res.is_err());
    match cx.take_pending_exception() {
        Some(Exception::TypeError(msg)) => {
            assert_eq!(msg, "failed to downcast number to string");
        },
        _ => panic!("expected a TypeError"),
    }
}

#[test]
fn downcast_or_throw_succeeds_without_touching_the_engine() {
    let mut cx = Context::new();
    let v: Handle<JsValue> = cx.number(f64::to_bits(4.5)).upcast();
    let n = v.downcast_or_throw::<JsNumber>(&mut cx).unwrap();
    assert_eq!(n.deref().value(&mut cx), f64::to_bits(4.5));
    assert!(!cx.has_pending_exception());
}

#[test]
fn downcast_error_message_names_both_kinds() {
    let mut cx = Context::new();
    let b = cx.boolean(true);
    let e = match b.downcast::<JsString>(&mut cx) {
        Err(e) => e,
        Ok(_) => panic!("a boolean must not downcast to string"),
    };
    assert_eq!(e.message(), "failed to downcast boolean to string");
}

#[test]
fn throwing_a_value_records_it() {
    let mut cx = Context::new();
    let boom = cx.string("boom").unwrap();
    let res: Result<Handle<JsNumber>, neon_core::result::Throw> =
        cx.throw(boom);
    assert!(res.is_err());
    match cx.take_pending_exception() {
        Some(Exception::Thrown(l)) => assert_eq!(l, boom.local()),
        _ => panic!("expected a thrown value"),
    }
}

#[test]
fn foreign_result_or_throw_throws_the_error_value() {
    let mut cx = Context::new();
    let err_val = cx.string("bad").unwrap();
    let r: Result<Handle<JsNumber>, Handle<JsString>> = Err(err_val);
    let res = r.or_throw(&mut cx);
    assert!(res.is_err());
    match cx.take_pending_exception() {
        Some(Exception::Thrown(l)) => assert_eq!(l, err_val.local()),
        _ => panic!("expected a thrown value"),
    }
    let ok_val = cx.number(f64::to_bits(1.0));
    let r2: Result<Handle<JsNumber>, Handle<JsString>> = Ok(ok_val);
    let res2 = r2.or_throw(&mut cx);
    assert_eq!(res2.unwrap().local(), ok_val.local());
}

#[test]
fn arguments_are_read_back_in_order() {
    let mut cx = Context::new();
    let n = cx.number(f64::to_bits(7.0));
    let s = cx.string("arg").unwrap();
    cx.stage_argument(n.upcast());
    cx.stage_argument(s.upcast());
    let a0 = cx.argument(0).unwrap();
    let a1 = cx.argument(1).unwrap();
    assert_eq!(a0.local(), n.local());
    assert_eq!(a1.local(), s.local());
    assert!(a0.is_a::<JsNumber>(&mut cx));
    assert!(a1.is_a::<JsString>(&mut cx));
}

#[test]
fn missing_argument_throws() {
    let mut cx = Context::new();
    let res = cx.argument(0);
    assert!(res.is_err());
    match cx.take_pending_exception() {
        Some(Exception::TypeError(msg)) => assert_eq!(msg, "not enough arguments"),
        _ => panic!("expected a TypeError"),
    }
}

#[test]
fn explicit_throwers_set_their_kinds() {
    let mut cx = Context::new();
    let r: Result<(), neon_core::result::Throw> = cx.throw_type_error("wrong type");
    assert!(r.is_err());
    match cx.take_pending_exception() {
        Some(Exception::TypeError(msg)) => assert_eq!(msg, "wrong type"),
        _ => panic!("expected a TypeError"),
    }
    let r2: Result<(), neon_core::result::Throw> = cx.throw_range_error("out of range");
    assert!(r2.is_err());
    match cx.take_pending_exception() {
        Some(Exception::RangeError(msg)) => assert_eq!(msg, "out of range"),
        _ => panic!("expected a RangeError"),
    }
}

#[test]
fn to_string_renders_every_kind() {
    let mut cx = Context::new();
    let five = cx.number(f64::to_bits(5.0));
    assert_eq!(five.to_string(&mut cx).unwrap().deref().value(&mut cx), "5");
    let nan = cx.number(f64::to_bits(f64::NAN));
    assert_eq!(nan.to_string(&mut cx).unwrap().deref().value(&mut cx), "NaN");
    let frac = cx.number(f64::to_bits(2.5));
    assert_eq!(frac.to_string(&mut cx).unwrap().deref().value(&mut cx), "number");
    let t = cx.boolean(true);
    assert_eq!(t.to_string(&mut cx).unwrap().deref().value(&mut cx), "true");
    let f = cx.boolean(false);
    assert_eq!(f.to_string(&mut cx).unwrap().deref().value(&mut cx), "false");
    let u = cx.undefined();
    assert_eq!(u.to_string(&mut cx).unwrap().deref().value(&mut cx), "undefined");
    let z = cx.null();
    assert_eq!(z.to_string(&mut cx).unwrap().deref().value(&mut cx), "null");
    let s = cx.string("as is").unwrap();
    assert_eq!(s.to_string(&mut cx).unwrap().deref().value(&mut cx), "as is");
    let o = cx.empty_object();
    assert_eq!(o.to_string(&mut cx).unwrap().deref().value(&mut cx), "[object Object]");
    let a = cx.empty_array(0);
    assert_eq!(a.to_string(&mut cx).unwrap().deref().value(&mut cx), "");
}
