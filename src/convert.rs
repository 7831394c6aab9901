use vstd::prelude::*;
use vstd::string::StringExecFns;

use crate::json::{
    decimal, float_json, json_string, signed_decimal, value_json, write_decimal, write_float,
    write_signed, write_string, write_value,
};
use crate::value::{error_appended, Annotated, FloatValue, Meta, Value};

verus! {

/// Reading a typed value out of an `Annotated<Value>`.
pub trait FromValue: Sized {
    /// `r` is what `from_value` makes of `value`.
    spec fn from_value_spec(value: Annotated<Value>, r: Annotated<Self>) -> bool;

    /// Reads the value. A value of the wrong shape is not fatal: it is dropped and an error
    /// naming what was expected, with the value received, is added to the metadata.
    fn from_value(value: Annotated<Value>) -> (r: Annotated<Self>)
        ensures
            Self::from_value_spec(value, r),
    ;
}

/// Writing a typed value as an `Annotated<Value>` or as JSON.
pub trait ToValue: Sized {
    /// `r` is what `to_value` makes of `value`.
    spec fn to_value_spec(value: Annotated<Self>, r: Annotated<Value>) -> bool;

    /// Whether the value is left out where it stands in a container.
    spec fn skips(&self) -> bool;

    /// The value's JSON text.
    spec fn payload(&self) -> Seq<char>;

    fn to_value(value: Annotated<Self>) -> (r: Annotated<Value>)
        ensures
            Self::to_value_spec(value, r),
    ;

    fn skip_serialization(&self) -> (r: bool)
        ensures
            r == self.skips(),
    ;

    fn serialize_payload(&self, out: &mut String)
        ensures
            final(out)@ == old(out)@ + self.payload(),
    ;
}

/// An absent or null value reads as absent, with the metadata unchanged.
pub open spec fn passed_absent<T>(value: Annotated<Value>, r: Annotated<T>) -> bool {
    r.0 is None && r.1 == value.1
}

/// The value was dropped and an error `expected <expectation>` holding it was added.
pub open spec fn rejected<T>(value: Annotated<Value>, r: Annotated<T>, expectation: Seq<char>) -> bool {
    r.0 is None && error_appended(value.1, r.1, "expected "@ + expectation, value.0)
}

/// A present value written with `f`, or an absent one, with the metadata unchanged.
pub open spec fn written<T>(value: Annotated<T>, r: Annotated<Value>, f: spec_fn(T) -> Value) -> bool {
    &&& r.1 == value.1
    &&& r.0 == (match value.0 {
        Some(x) => Some(f(x)),
        None => None,
    })
}

fn reject<T>(value: Value, meta: Meta, expectation: &str) -> (r: Annotated<T>)
    ensures
        r.0 is None,
        error_appended(meta, r.1, "expected "@ + expectation@, Some(value)),
{
    let mut meta = meta;
    meta.add_unexpected_value_error(expectation, value);
    Annotated(None, meta)
}

/// Whether an annotated value is left out where it stands in a container: an absent value is.
pub open spec fn annotated_skips<T: ToValue>(a: Annotated<T>) -> bool {
    match a.0 {
        None => true,
        Some(v) => v.skips(),
    }
}

/// The JSON text of an annotated value: `null` where it is absent.
pub open spec fn annotated_payload<T: ToValue>(a: Annotated<T>) -> Seq<char> {
    match a.0 {
        None => "null"@,
        Some(v) => v.payload(),
    }
}

/// Writes the payload of an annotated value, as a field of a record does.
pub struct SerializePayload<'a, T>(pub &'a Annotated<T>);

impl<'a, T: ToValue> SerializePayload<'a, T> {
    /// Writes the value's JSON text, or `null` where it is absent.
    pub fn serialize(&self, out: &mut String)
        ensures
            final(out)@ == old(out)@ + annotated_payload(*self.0),
    {
        let annotated = self.0;
        match &annotated.0 {
            Some(v) => v.serialize_payload(out),
            None => out.append("null"),
        }
    }
}

impl<T: ToValue> Annotated<T> {
    /// The JSON text of the value: its payload, or `null` where it is absent.
    pub fn to_json(&self) -> (r: String)
        ensures
            r@ == annotated_payload(*self),
    {
        let mut out = String::new();
        SerializePayload(self).serialize(&mut out);
        out
    }
}

impl FromValue for bool {
    open spec fn from_value_spec(value: Annotated<Value>, r: Annotated<bool>) -> bool {
        match value.0 {
            None | Some(Value::Null) => passed_absent(value, r),
            Some(Value::Bool(b)) => r.0 == Some(b) && r.1 == value.1,
            Some(_) => rejected(value, r, "a boolean"@),
        }
    }

    fn from_value(value: Annotated<Value>) -> (r: Annotated<bool>) {
        match value {
            Annotated(None, meta) => Annotated(None, meta),
            Annotated(Some(Value::Null), meta) => Annotated(None, meta),
            Annotated(Some(Value::Bool(b)), meta) => Annotated(Some(b), meta),
            Annotated(Some(v), meta) => reject(v, meta, "a boolean"),
        }
    }
}

impl ToValue for bool {
    open spec fn to_value_spec(value: Annotated<bool>, r: Annotated<Value>) -> bool {
        written(value, r, |x: bool| Value::Bool(x))
    }

    open spec fn skips(&self) -> bool {
        false
    }

    open spec fn payload(&self) -> Seq<char> {
        value_json(Value::Bool(*self))
    }

    fn to_value(value: Annotated<bool>) -> (r: Annotated<Value>) {
        match value {
            Annotated(Some(x), meta) => Annotated(Some(Value::Bool(x)), meta),
            Annotated(None, meta) => Annotated(None, meta),
        }
    }

    fn skip_serialization(&self) -> (r: bool) {
        false
    }

    fn serialize_payload(&self, out: &mut String) {
        write_value(&Value::Bool(*self), out)
    }
}

impl FromValue for u64 {
    open spec fn from_value_spec(value: Annotated<Value>, r: Annotated<u64>) -> bool {
        match value.0 {
            None | Some(Value::Null) => passed_absent(value, r),
            Some(Value::U64(n)) => r.0 == Some(n) && r.1 == value.1,
            Some(Value::I64(n)) => if n >= 0 {
                r.0 == Some(n as u64) && r.1 == value.1
            } else {
                rejected(value, r, "an unsigned integer"@)
            },
            Some(Value::F64(f)) => if f.trunc_spec() >= 0 {
                r.0 == Some(f.trunc_spec() as u64) && r.1 == value.1
            } else {
                rejected(value, r, "an unsigned integer"@)
            },
            Some(_) => rejected(value, r, "an unsigned integer"@),
        }
    }

    fn from_value(value: Annotated<Value>) -> (r: Annotated<u64>) {
        match value {
            Annotated(None, meta) => Annotated(None, meta),
            Annotated(Some(Value::Null), meta) => Annotated(None, meta),
            Annotated(Some(Value::U64(n)), meta) => Annotated(Some(n), meta),
            Annotated(Some(Value::I64(n)), meta) => {
                if n >= 0 {
                    Annotated(Some(n as u64), meta)
                } else {
                    reject(Value::I64(n), meta, "an unsigned integer")
                }
            },
            Annotated(Some(Value::F64(f)), meta) => {
                let t = f.trunc();
                if t >= 0 {
                    Annotated(Some(t as u64), meta)
                } else {
                    reject(Value::F64(f), meta, "an unsigned integer")
                }
            },
            Annotated(Some(v), meta) => reject(v, meta, "an unsigned integer"),
        }
    }
}

impl ToValue for u64 {
    open spec fn to_value_spec(value: Annotated<u64>, r: Annotated<Value>) -> bool {
        written(value, r, |x: u64| Value::U64(x))
    }

    open spec fn skips(&self) -> bool {
        false
    }

    open spec fn payload(&self) -> Seq<char> {
        decimal(*self as nat)
    }

    fn to_value(value: Annotated<u64>) -> (r: Annotated<Value>) {
        match value {
            Annotated(Some(x), meta) => Annotated(Some(Value::U64(x)), meta),
            Annotated(None, meta) => Annotated(None, meta),
        }
    }

    fn skip_serialization(&self) -> (r: bool) {
        false
    }

    fn serialize_payload(&self, out: &mut String) {
        write_decimal(*self, out)
    }
}

impl FromValue for i64 {
    open spec fn from_value_spec(value: Annotated<Value>, r: Annotated<i64>) -> bool {
        match value.0 {
            None | Some(Value::Null) => passed_absent(value, r),
            Some(Value::I64(n)) => r.0 == Some(n) && r.1 == value.1,
            Some(Value::U64(n)) => if n <= i64::MAX {
                r.0 == Some(n as i64) && r.1 == value.1
            } else {
                rejected(value, r, "a signed integer"@)
            },
            Some(Value::F64(f)) => r.0 == Some(f.trunc_spec() as i64) && r.1 == value.1,
            Some(_) => rejected(value, r, "a signed integer"@),
        }
    }

    fn from_value(value: Annotated<Value>) -> (r: Annotated<i64>) {
        match value {
            Annotated(None, meta) => Annotated(None, meta),
            Annotated(Some(Value::Null), meta) => Annotated(None, meta),
            Annotated(Some(Value::I64(n)), meta) => Annotated(Some(n), meta),
            Annotated(Some(Value::U64(n)), meta) => {
                if n <= i64::MAX as u64 {
                    Annotated(Some(n as i64), meta)
                } else {
                    reject(Value::U64(n), meta, "a signed integer")
                }
            },
            Annotated(Some(Value::F64(f)), meta) => Annotated(Some(f.trunc()), meta),
            Annotated(Some(v), meta) => reject(v, meta, "a signed integer"),
        }
    }
}

impl ToValue for i64 {
    open spec fn to_value_spec(value: Annotated<i64>, r: Annotated<Value>) -> bool {
        written(value, r, |x: i64| Value::I64(x))
    }

    open spec fn skips(&self) -> bool {
        false
    }

    open spec fn payload(&self) -> Seq<char> {
        signed_decimal(*self as int)
    }

    fn to_value(value: Annotated<i64>) -> (r: Annotated<Value>) {
        match value {
            Annotated(Some(x), meta) => Annotated(Some(Value::I64(x)), meta),
            Annotated(None, meta) => Annotated(None, meta),
        }
    }

    fn skip_serialization(&self) -> (r: bool) {
        false
    }

    fn serialize_payload(&self, out: &mut String) {
        write_signed(*self, out)
    }
}

impl FromValue for FloatValue {
    open spec fn from_value_spec(value: Annotated<Value>, r: Annotated<FloatValue>) -> bool {
        match value.0 {
            None | Some(Value::Null) => passed_absent(value, r),
            Some(Value::F64(f)) => r.0 == Some(f) && r.1 == value.1,
            Some(Value::I64(n)) => r.1 == value.1 && r.0 is Some && r.0->0.units_spec() == n
                && r.0->0.micros_spec() == 0,
            Some(Value::U64(n)) => if n <= i64::MAX {
                r.1 == value.1 && r.0 is Some && r.0->0.units_spec() == n && r.0->0.micros_spec()
                    == 0
            } else {
                rejected(value, r, "a floating point value"@)
            },
            Some(_) => rejected(value, r, "a floating point value"@),
        }
    }

    fn from_value(value: Annotated<Value>) -> (r: Annotated<FloatValue>) {
        match value {
            Annotated(None, meta) => Annotated(None, meta),
            Annotated(Some(Value::Null), meta) => Annotated(None, meta),
            Annotated(Some(Value::F64(f)), meta) => Annotated(Some(f), meta),
            Annotated(Some(Value::I64(n)), meta) => Annotated(Some(FloatValue::from_units(n)), meta),
            Annotated(Some(Value::U64(n)), meta) => {
                if n <= i64::MAX as u64 {
                    Annotated(Some(FloatValue::from_units(n as i64)), meta)
                } else {
                    reject(Value::U64(n), meta, "a floating point value")
                }
            },
            Annotated(Some(v), meta) => reject(v, meta, "a floating point value"),
        }
    }
}

impl ToValue for FloatValue {
    open spec fn to_value_spec(value: Annotated<FloatValue>, r: Annotated<Value>) -> bool {
        written(value, r, |x: FloatValue| Value::F64(x))
    }

    open spec fn skips(&self) -> bool {
        false
    }

    open spec fn payload(&self) -> Seq<char> {
        float_json(*self)
    }

    fn to_value(value: Annotated<FloatValue>) -> (r: Annotated<Value>) {
        match value {
            Annotated(Some(x), meta) => Annotated(Some(Value::F64(x)), meta),
            Annotated(None, meta) => Annotated(None, meta),
        }
    }

    fn skip_serialization(&self) -> (r: bool) {
        false
    }

    fn serialize_payload(&self, out: &mut String) {
        write_float(self, out)
    }
}

impl FromValue for String {
    open spec fn from_value_spec(value: Annotated<Value>, r: Annotated<String>) -> bool {
        match value.0 {
            None | Some(Value::Null) => passed_absent(value, r),
            Some(Value::String(s)) => r.0 == Some(s) && r.1 == value.1,
            Some(_) => rejected(value, r, "a string"@),
        }
    }

    fn from_value(value: Annotated<Value>) -> (r: Annotated<String>) {
        match value {
            Annotated(None, meta) => Annotated(None, meta),
            Annotated(Some(Value::Null), meta) => Annotated(None, meta),
            Annotated(Some(Value::String(s)), meta) => Annotated(Some(s), meta),
            Annotated(Some(v), meta) => reject(v, meta, "a string"),
        }
    }
}

impl ToValue for String {
    open spec fn to_value_spec(value: Annotated<String>, r: Annotated<Value>) -> bool {
        written(value, r, |x: String| Value::String(x))
    }

    open spec fn skips(&self) -> bool {
        false
    }

    open spec fn payload(&self) -> Seq<char> {
        json_string(self@)
    }

    fn to_value(value: Annotated<String>) -> (r: Annotated<Value>) {
        match value {
            Annotated(Some(x), meta) => Annotated(Some(Value::String(x)), meta),
            Annotated(None, meta) => Annotated(None, meta),
        }
    }

    fn skip_serialization(&self) -> (r: bool) {
        false
    }

    fn serialize_payload(&self, out: &mut String) {
        write_string(self.as_str(), out)
    }
}

impl FromValue for Value {
    open spec fn from_value_spec(value: Annotated<Value>, r: Annotated<Value>) -> bool {
        r == value
    }

    fn from_value(value: Annotated<Value>) -> (r: Annotated<Value>) {
        value
    }
}

impl ToValue for Value {
    open spec fn to_value_spec(value: Annotated<Value>, r: Annotated<Value>) -> bool {
        r == value
    }

    open spec fn skips(&self) -> bool {
        false
    }

    open spec fn payload(&self) -> Seq<char> {
        value_json(*self)
    }

    fn to_value(value: Annotated<Value>) -> (r: Annotated<Value>) {
        value
    }

    fn skip_serialization(&self) -> (r: bool) {
        false
    }

    fn serialize_payload(&self, out: &mut String) {
        write_value(self, out)
    }
}

/// A rejected value leaves exactly one new error, whose message starts with `expected ` and
/// which holds the value that was received.
pub proof fn lemma_rejected_error<T>(value: Annotated<Value>, r: Annotated<T>, expectation: Seq<char>)
    requires
        rejected(value, r, expectation),
    ensures
        r.0 is None,
        r.1.errors@.len() == value.1.errors@.len() + 1,
        r.1.errors@.drop_last() == value.1.errors@,
        r.1.errors@.last().message@.subrange(0, 9) == "expected "@,
        r.1.errors@.last().original_value == value.0,
{
    reveal_strlit("expected ");
    assert(("expected "@ + expectation).subrange(0, 9) =~= "expected "@);
}

/// Writing a present primitive and reading it back gives it back, with its metadata; reading a
/// value of the matching kind and writing it again gives the same value.
pub proof fn lemma_round_trip_u64(a: Annotated<u64>, v: Annotated<Value>, back: Annotated<u64>)
    requires
        u64::to_value_spec(a, v),
        u64::from_value_spec(v, back),
    ensures
        back == a,
{
}

/// See `lemma_round_trip_u64`.
pub proof fn lemma_round_trip_i64(a: Annotated<i64>, v: Annotated<Value>, back: Annotated<i64>)
    requires
        i64::to_value_spec(a, v),
        i64::from_value_spec(v, back),
    ensures
        back == a,
{
}

/// See `lemma_round_trip_u64`.
pub proof fn lemma_round_trip_bool(a: Annotated<bool>, v: Annotated<Value>, back: Annotated<bool>)
    requires
        bool::to_value_spec(a, v),
        bool::from_value_spec(v, back),
    ensures
        back == a,
{
}

/// See `lemma_round_trip_u64`.
pub proof fn lemma_round_trip_string(a: Annotated<String>, v: Annotated<Value>, back: Annotated<String>)
    requires
        String::to_value_spec(a, v),
        String::from_value_spec(v, back),
    ensures
        back == a,
{
}

/// See `lemma_round_trip_u64`.
pub proof fn lemma_round_trip_float(a: Annotated<FloatValue>, v: Annotated<Value>, back: Annotated<FloatValue>)
    requires
        FloatValue::to_value_spec(a, v),
        FloatValue::from_value_spec(v, back),
    ensures
        back == a,
{
}

/// Reading a value of the primitive's own kind, or an absent one, and writing the result gives
/// the value back unchanged.
pub proof fn lemma_value_round_trip_primitives(
    v: Annotated<Value>,
    n: Annotated<u64>,
    n2: Annotated<Value>,
    i: Annotated<i64>,
    i2: Annotated<Value>,
    b: Annotated<bool>,
    b2: Annotated<Value>,
    s: Annotated<String>,
    s2: Annotated<Value>,
)
    requires
        u64::from_value_spec(v, n),
        u64::to_value_spec(n, n2),
        i64::from_value_spec(v, i),
        i64::to_value_spec(i, i2),
        bool::from_value_spec(v, b),
        bool::to_value_spec(b, b2),
        String::from_value_spec(v, s),
        String::to_value_spec(s, s2),
    ensures
        (v.0 is None || v.0 matches Some(Value::U64(_))) ==> n2 == v,
        (v.0 is None || v.0 matches Some(Value::I64(_))) ==> i2 == v,
        (v.0 is None || v.0 matches Some(Value::Bool(_))) ==> b2 == v,
        (v.0 is None || v.0 matches Some(Value::String(_))) ==> s2 == v,
{
}

/// A value of the wrong kind is dropped, with one error `expected ...` that holds it.
pub proof fn lemma_mismatch_rejected(
    v: Annotated<Value>,
    n: Annotated<u64>,
    b: Annotated<bool>,
    s: Annotated<String>,
)
    requires
        u64::from_value_spec(v, n),
        bool::from_value_spec(v, b),
        String::from_value_spec(v, s),
    ensures
        v.0 matches Some(Value::String(_)) ==> rejected(v, n, "an unsigned integer"@),
        v.0 matches Some(Value::I64(x)) && x < 0 ==> rejected(v, n, "an unsigned integer"@),
        v.0 matches Some(Value::U64(_)) ==> rejected(v, b, "a boolean"@) && rejected(
            v,
            s,
            "a string"@,
        ),
        v.0 matches Some(Value::Array(_)) ==> rejected(v, n, "an unsigned integer"@) && rejected(
            v,
            b,
            "a boolean"@,
        ) && rejected(v, s, "a string"@),
        v.0 matches Some(Value::Object(_)) ==> rejected(v, n, "an unsigned integer"@) && rejected(
            v,
            b,
            "a boolean"@,
        ) && rejected(v, s, "a string"@),
{
}

/// Null reads as absent, with the metadata unchanged and no error added.
pub proof fn lemma_null_is_absent(
    v: Annotated<Value>,
    n: Annotated<u64>,
    i: Annotated<i64>,
    b: Annotated<bool>,
    s: Annotated<String>,
    f: Annotated<FloatValue>,
)
    requires
        v.0 == Some(Value::Null),
        u64::from_value_spec(v, n),
        i64::from_value_spec(v, i),
        bool::from_value_spec(v, b),
        String::from_value_spec(v, s),
        FloatValue::from_value_spec(v, f),
    ensures
        n.0 is None && n.1 == v.1,
        i.0 is None && i.1 == v.1,
        b.0 is None && b.1 == v.1,
        s.0 is None && s.1 == v.1,
        f.0 is None && f.1 == v.1,
{
}

} // verus!
