use osquery::json::Json;
use osquery::value::number::{FloatBits, Number, Repr};
use osquery::value::{IntoValue, Value};
use std::collections::hash_map::DefaultHasher;
use std::hash::{Hash, Hasher};

fn hash_of(n: &Number) -> u64 {
    let mut h = DefaultHasher::new();
    n.hash(&mut h);
    h.finish()
}

#[test]
fn unsigned_integers_are_stored_as_pos_int() {
    assert!(matches!(Number::from(0u8).repr(), Repr::PosInt(0)));
    assert!(matches!(Number::from(65535u16).repr(), Repr::PosInt(65535)));
    assert!(matches!(Number::from(7u32).repr(), Repr::PosInt(7)));
    assert!(matches!(Number::from(u64::MAX).repr(), Repr::PosInt(u64::MAX)));
    assert!(matches!(Number::from(9usize).repr(), Repr::PosInt(9)));
}

#[test]
fn signed_integers_are_stored_by_sign() {
    assert!(matches!(Number::from(-1i8).repr(), Repr::NegInt(-1)));
    assert!(matches!(Number::from(0i16).repr(), Repr::PosInt(0)));
    assert!(matches!(Number::from(61809i32).repr(), Repr::PosInt(61809)));
    assert!(matches!(Number::from(i64::MIN).repr(), Repr::NegInt(i64::MIN)));
    assert!(matches!(Number::from(i64::MAX).repr(), Repr::PosInt(9223372036854775807)));
    assert!(matches!(Number::from(-3isize).repr(), Repr::NegInt(-3)));
}

#[test]
fn integers_round_trip_through_the_probes() {
    let v = Value::from(61809);
    assert_eq!(v.as_i64(), Some(61809));
    assert_eq!(v.as_u64(), Some(61809));
    assert!(v.is_i64() && v.is_u64() && !v.is_f64() && v.is_number());

    let v = Value::from(-5i64);
    assert_eq!(v.as_i64(), Some(-5));
    assert_eq!(v.as_u64(), None);
    assert!(v.is_i64() && !v.is_u64());

    let v = Value::from(u64::MAX);
    assert_eq!(v.as_i64(), None);
    assert_eq!(v.as_u64(), Some(u64::MAX));
    assert!(!v.is_i64() && v.is_u64());

    let v = Value::from(i64::MAX as u64);
    assert_eq!(v.as_i64(), Some(i64::MAX));

    let v = Value::from(i64::MAX as u64 + 1);
    assert_eq!(v.as_i64(), None);

    let v = Value::from(i64::MIN);
    assert_eq!(v.as_i64(), Some(i64::MIN));
    assert_eq!(v.as_u64(), None);
}

#[test]
fn integers_encode_as_the_same_number() {
    assert_eq!(Value::from(61809).encode(), Json::Number(Number::from(61809u64)));
    assert_eq!(Value::from(-7).encode(), Json::Number(Number::from(-7i64)));
    assert_eq!(Value::from(61809).encode().to_text().unwrap(), "61809");
    assert_eq!(Value::from(-7).encode().to_text().unwrap(), "-7");
}

#[test]
fn finite_floats_are_numbers() {
    let bits = 1.5f64.to_bits();
    let v = Value::from_f64(bits);
    assert!(v.is_number() && v.is_f64() && !v.is_i64() && !v.is_u64());
    assert_eq!(v.float_bits(), Some(bits));
    assert_eq!(v.as_i64(), None);
    assert_eq!(v.as_u64(), None);
    assert!(matches!(v.encode(), Json::Number(n) if n.float_bits() == Some(bits)));

    let largest = f64::MAX.to_bits();
    assert_eq!(Number::from_f64(largest).unwrap().float_bits(), Some(largest));
    let smallest = f64::MIN_POSITIVE.to_bits();
    assert!(Number::from_f64(smallest).is_some());
    assert!(Number::from_f64(1u64).is_some());
}

#[test]
fn floats_that_are_not_finite_become_null() {
    for f in [f64::NAN, f64::INFINITY, f64::NEG_INFINITY] {
        assert!(Number::from_f64(f.to_bits()).is_none());
        let v = Value::from_f64(f.to_bits());
        assert!(matches!(v, Value::Null));
        assert_eq!(v.encode(), Json::Null);
        assert_eq!(v.encode().to_text().unwrap(), "null");
    }
}

#[test]
fn a_float_is_never_turned_into_an_integer() {
    for f in [1.0f64, -2.0, 0.0, 1e300, 0.5, (1.5f32) as f64] {
        let v = Value::from(FloatBits(f.to_bits()));
        assert!(v.is_number() && v.is_f64() && !v.is_i64() && !v.is_u64());
        assert_eq!(v.as_i64(), None);
        assert_eq!(v.as_u64(), None);
        assert_eq!(v.float_bits().map(f64::from_bits), Some(f));
        assert_eq!(FloatBits(f.to_bits()).into_value().float_bits(), Some(f.to_bits()));
    }
    for f in [f64::NAN, f64::INFINITY, f64::NEG_INFINITY, f32::NAN as f64] {
        let v = Value::from(FloatBits(f.to_bits()));
        assert!(matches!(v, Value::Null));
        assert!(!v.is_number() && !v.is_f64());
        assert_eq!(v.float_bits(), None);
        assert_eq!(v.as_i64(), None);
        assert_eq!(v.as_u64(), None);
    }
}

#[test]
fn equality_goes_by_storage() {
    let ten = Number::from(10u64);
    let ten_float = Number::from_f64(10.0f64.to_bits()).unwrap();
    assert_ne!(ten, ten_float);
    assert_eq!(ten, Number::from(10i32));
    assert_ne!(Number::from(-1i64), Number::from(u64::MAX));
    assert_eq!(ten_float, Number::from_f64(10.0f64.to_bits()).unwrap());
    assert_ne!(ten_float, Number::from_f64(10.5f64.to_bits()).unwrap());
}

#[test]
fn both_zeros_are_equal_and_hash_alike() {
    let plus = Number::from_f64(0.0f64.to_bits()).unwrap();
    let minus = Number::from_f64((-0.0f64).to_bits()).unwrap();
    assert_ne!(plus.float_bits(), minus.float_bits());
    assert_eq!(plus, minus);
    assert_eq!(plus.hash_word(), minus.hash_word());
    assert_eq!(hash_of(&plus), hash_of(&minus));
    assert_ne!(plus, Number::from(0u64));
}

#[test]
fn hash_word_is_the_number_itself() {
    assert_eq!(Number::from(42u64).hash_word(), 42);
    assert_eq!(Number::from(-1i64).hash_word(), u64::MAX);
    let bits = 2.5f64.to_bits();
    assert_eq!(Number::from_f64(bits).unwrap().hash_word(), bits);
    assert_eq!(hash_of(&Number::from(42u64)), hash_of(&Number::from(42i8)));
}

#[test]
fn integers_hash_as_the_integers_they_are() {
    let mut h = DefaultHasher::new();
    (-1i64).hash(&mut h);
    assert_eq!(hash_of(&Number::from(-1i64)), h.finish());
    let mut h = DefaultHasher::new();
    42u64.hash(&mut h);
    assert_eq!(hash_of(&Number::from(42u8)), h.finish());
    let mut h = DefaultHasher::new();
    2.5f64.to_bits().hash(&mut h);
    assert_eq!(hash_of(&Number::from_f64(2.5f64.to_bits()).unwrap()), h.finish());
}

#[test]
fn probes_of_other_scalars() {
    let s = Value::from("wind");
    assert!(s.is_string() && !s.is_number() && !s.is_boolean());
    assert_eq!(s.as_str(), Some("wind"));
    assert_eq!(s.as_bool(), None);
    assert_eq!(s.as_i64(), None);

    let b = Value::from(true);
    assert!(b.is_boolean() && !b.is_string());
    assert_eq!(b.as_bool(), Some(true));
    assert_eq!(b.as_str(), None);

    let n = Value::Null;
    assert!(!n.is_boolean() && !n.is_string() && !n.is_number());
    assert!(!n.is_i64() && !n.is_u64() && !n.is_f64());
    assert_eq!(n.float_bits(), None);
}

#[test]
fn unit_and_absent_items_become_null() {
    assert!(matches!(Value::from(()), Value::Null));
    assert!(matches!(Value::from(None::<i32>), Value::Null));
    assert_eq!(Value::from(Some(5)).as_i64(), Some(5));
    assert_eq!(Value::from(Some("a")).as_str(), Some("a"));
    assert_eq!(Value::from(String::from("b")).as_str(), Some("b"));
    assert_eq!(Value::from(Number::from(3u8)).as_u64(), Some(3));
    assert_eq!(Some(Some(false)).into_value().as_bool(), Some(false));
    assert_eq!(Value::from(7).clone().as_i64(), Some(7));
}
