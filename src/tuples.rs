use vstd::prelude::*;

use crate::containers::reverse;
use crate::convert::{annotated_payload, passed_absent, rejected, FromValue, SerializePayload, ToValue};
use crate::text::push_char;
use crate::value::{Annotated, Value};

verus! {

impl<T1: FromValue> FromValue for (Annotated<T1>,) {
    open spec fn from_value_spec(value: Annotated<Value>, r: Annotated<(Annotated<T1>,)>) -> bool {
        match value.0 {
            None | Some(Value::Null) => passed_absent(value, r),
            Some(Value::Array(items)) => if items@.len() != 1 {
                rejected(value, r, "tuple"@)
            } else {
                &&& r.1 == value.1
                &&& r.0 is Some
                &&& {
                    let t = r.0->0;
                    T1::from_value_spec(items@[0], t.0)
                }
            },
            Some(_) => rejected(value, r, "tuple"@),
        }
    }

    fn from_value(value: Annotated<Value>) -> (r: Annotated<(Annotated<T1>,)>) {
        match value {
            Annotated(None, meta) => Annotated(None, meta),
            Annotated(Some(Value::Null), meta) => Annotated(None, meta),
            Annotated(Some(Value::Array(items)), meta) => {
                if items.len() != 1 {
                    let mut meta = meta;
                    meta.add_unexpected_value_error("tuple", Value::Array(items));
                    return Annotated(None, meta);
                }
                let ghost orig = items@;
                let mut rev = reverse(items);
                let a0 = rev.pop().unwrap();
                assert(a0 == orig[0]);
                Annotated(Some((T1::from_value(a0),)), meta)
            },
            Annotated(Some(v), meta) => {
                let mut meta = meta;
                meta.add_unexpected_value_error("tuple", v);
                Annotated(None, meta)
            },
        }
    }
}

impl<T1: ToValue> ToValue for (Annotated<T1>,) {
    open spec fn to_value_spec(value: Annotated<(Annotated<T1>,)>, r: Annotated<Value>) -> bool {
        &&& r.1 == value.1
        &&& match value.0 {
            None => r.0 is None,
            Some(t) => match r.0 {
                Some(Value::Array(out)) => out@.len() == 1 && T1::to_value_spec(t.0, out@[0]),
                _ => false,
            },
        }
    }

    open spec fn skips(&self) -> bool {
        false
    }

    open spec fn payload(&self) -> Seq<char> {
        seq!['['] + annotated_payload(self.0) + seq![']']
    }

    fn to_value(value: Annotated<(Annotated<T1>,)>) -> (r: Annotated<Value>) {
        match value {
            Annotated(Some((a0,)), meta) => {
                let mut out: Vec<Annotated<Value>> = Vec::new();
                out.push(T1::to_value(a0));
                Annotated(Some(Value::Array(out)), meta)
            },
            Annotated(None, meta) => Annotated(None, meta),
        }
    }

    fn skip_serialization(&self) -> (r: bool) {
        false
    }

    fn serialize_payload(&self, out: &mut String) {
        push_char(out, '[');
        SerializePayload(&self.0).serialize(out);
        push_char(out, ']');
        assert(out@ =~= old(out)@ + self.payload());
    }
}

impl<T1: FromValue, T2: FromValue> FromValue for (Annotated<T1>, Annotated<T2>,) {
    open spec fn from_value_spec(value: Annotated<Value>, r: Annotated<(Annotated<T1>, Annotated<T2>,)>) -> bool {
        match value.0 {
            None | Some(Value::Null) => passed_absent(value, r),
            Some(Value::Array(items)) => if items@.len() != 2 {
                rejected(value, r, "tuple"@)
            } else {
                &&& r.1 == value.1
                &&& r.0 is Some
                &&& {
                    let t = r.0->0;
                    T1::from_value_spec(items@[0], t.0) && T2::from_value_spec(items@[1], t.1)
                }
            },
            Some(_) => rejected(value, r, "tuple"@),
        }
    }

    fn from_value(value: Annotated<Value>) -> (r: Annotated<(Annotated<T1>, Annotated<T2>,)>) {
        match value {
            Annotated(None, meta) => Annotated(None, meta),
            Annotated(Some(Value::Null), meta) => Annotated(None, meta),
            Annotated(Some(Value::Array(items)), meta) => {
                if items.len() != 2 {
                    let mut meta = meta;
                    meta.add_unexpected_value_error("tuple", Value::Array(items));
                    return Annotated(None, meta);
                }
                let ghost orig = items@;
                let mut rev = reverse(items);
                let a0 = rev.pop().unwrap();
                assert(a0 == orig[0]);
                let a1 = rev.pop().unwrap();
                assert(a1 == orig[1]);
                Annotated(Some((T1::from_value(a0), T2::from_value(a1),)), meta)
            },
            Annotated(Some(v), meta) => {
                let mut meta = meta;
                meta.add_unexpected_value_error("tuple", v);
                Annotated(None, meta)
            },
        }
    }
}

impl<T1: ToValue, T2: ToValue> ToValue for (Annotated<T1>, Annotated<T2>,) {
    open spec fn to_value_spec(value: Annotated<(Annotated<T1>, Annotated<T2>,)>, r: Annotated<Value>) -> bool {
        &&& r.1 == value.1
        &&& match value.0 {
            None => r.0 is None,
            Some(t) => match r.0 {
                Some(Value::Array(out)) => out@.len() == 2 && T1::to_value_spec(t.0, out@[0]) && T2::to_value_spec(t.1, out@[1]),
                _ => false,
            },
        }
    }

    open spec fn skips(&self) -> bool {
        false
    }

    open spec fn payload(&self) -> Seq<char> {
        seq!['['] + annotated_payload(self.0) + seq![','] + annotated_payload(self.1) + seq![']']
    }

    fn to_value(value: Annotated<(Annotated<T1>, Annotated<T2>,)>) -> (r: Annotated<Value>) {
        match value {
            Annotated(Some((a0, a1,)), meta) => {
                let mut out: Vec<Annotated<Value>> = Vec::new();
                out.push(T1::to_value(a0));
                out.push(T2::to_value(a1));
                Annotated(Some(Value::Array(out)), meta)
            },
            Annotated(None, meta) => Annotated(None, meta),
        }
    }

    fn skip_serialization(&self) -> (r: bool) {
        false
    }

    fn serialize_payload(&self, out: &mut String) {
        push_char(out, '[');
        SerializePayload(&self.0).serialize(out);
        push_char(out, ',');
        SerializePayload(&self.1).serialize(out);
        push_char(out, ']');
        assert(out@ =~= old(out)@ + self.payload());
    }
}

impl<T1: FromValue, T2: FromValue, T3: FromValue> FromValue for (Annotated<T1>, Annotated<T2>, Annotated<T3>,) {
    open spec fn from_value_spec(value: Annotated<Value>, r: Annotated<(Annotated<T1>, Annotated<T2>, Annotated<T3>,)>) -> bool {
        match value.0 {
            None | Some(Value::Null) => passed_absent(value, r),
            Some(Value::Array(items)) => if items@.len() != 3 {
                rejected(value, r, "tuple"@)
            } else {
                &&& r.1 == value.1
                &&& r.0 is Some
                &&& {
                    let t = r.0->0;
                    T1::from_value_spec(items@[0], t.0) && T2::from_value_spec(items@[1], t.1) && T3::from_value_spec(items@[2], t.2)
                }
            },
            Some(_) => rejected(value, r, "tuple"@),
        }
    }

    fn from_value(value: Annotated<Value>) -> (r: Annotated<(Annotated<T1>, Annotated<T2>, Annotated<T3>,)>) {
        match value {
            Annotated(None, meta) => Annotated(None, meta),
            Annotated(Some(Value::Null), meta) => Annotated(None, meta),
            Annotated(Some(Value::Array(items)), meta) => {
                if items.len() != 3 {
                    let mut meta = meta;
                    meta.add_unexpected_value_error("tuple", Value::Array(items));
                    return Annotated(None, meta);
                }
                let ghost orig = items@;
                let mut rev = reverse(items);
                let a0 = rev.pop().unwrap();
                assert(a0 == orig[0]);
                let a1 = rev.pop().unwrap();
                assert(a1 == orig[1]);
                let a2 = rev.pop().unwrap();
                assert(a2 == orig[2]);
                Annotated(Some((T1::from_value(a0), T2::from_value(a1), T3::from_value(a2),)), meta)
            },
            Annotated(Some(v), meta) => {
                let mut meta = meta;
                meta.add_unexpected_value_error("tuple", v);
                Annotated(None, meta)
            },
        }
    }
}

impl<T1: ToValue, T2: ToValue, T3: ToValue> ToValue for (Annotated<T1>, Annotated<T2>, Annotated<T3>,) {
    open spec fn to_value_spec(value: Annotated<(Annotated<T1>, Annotated<T2>, Annotated<T3>,)>, r: Annotated<Value>) -> bool {
        &&& r.1 == value.1
        &&& match value.0 {
            None => r.0 is None,
            Some(t) => match r.0 {
                Some(Value::Array(out)) => out@.len() == 3 && T1::to_value_spec(t.0, out@[0]) && T2::to_value_spec(t.1, out@[1]) && T3::to_value_spec(t.2, out@[2]),
                _ => false,
            },
        }
    }

    open spec fn skips(&self) -> bool {
        false
    }

    open spec fn payload(&self) -> Seq<char> {
        seq!['['] + annotated_payload(self.0) + seq![','] + annotated_payload(self.1) + seq![','] + annotated_payload(self.2) + seq![']']
    }

    fn to_value(value: Annotated<(Annotated<T1>, Annotated<T2>, Annotated<T3>,)>) -> (r: Annotated<Value>) {
        match value {
            Annotated(Some((a0, a1, a2,)), meta) => {
                let mut out: Vec<Annotated<Value>> = Vec::new();
                out.push(T1::to_value(a0));
                out.push(T2::to_value(a1));
                out.push(T3::to_value(a2));
                Annotated(Some(Value::Array(out)), meta)
            },
            Annotated(None, meta) => Annotated(None, meta),
        }
    }

    fn skip_serialization(&self) -> (r: bool) {
        false
    }

    fn serialize_payload(&self, out: &mut String) {
        push_char(out, '[');
        SerializePayload(&self.0).serialize(out);
        push_char(out, ',');
        SerializePayload(&self.1).serialize(out);
        push_char(out, ',');
        SerializePayload(&self.2).serialize(out);
        push_char(out, ']');
        assert(out@ =~= old(out)@ + self.payload());
    }
}

impl<T1: FromValue, T2: FromValue, T3: FromValue, T4: FromValue> FromValue for (Annotated<T1>, Annotated<T2>, Annotated<T3>, Annotated<T4>,) {
    open spec fn from_value_spec(value: Annotated<Value>, r: Annotated<(Annotated<T1>, Annotated<T2>, Annotated<T3>, Annotated<T4>,)>) -> bool {
        match value.0 {
            None | Some(Value::Null) => passed_absent(value, r),
            Some(Value::Array(items)) => if items@.len() != 4 {
                rejected(value, r, "tuple"@)
            } else {
                &&& r.1 == value.1
                &&& r.0 is Some
                &&& {
                    let t = r.0->0;
                    T1::from_value_spec(items@[0], t.0) && T2::from_value_spec(items@[1], t.1) && T3::from_value_spec(items@[2], t.2) && T4::from_value_spec(items@[3], t.3)
                }
            },
            Some(_) => rejected(value, r, "tuple"@),
        }
    }

    fn from_value(value: Annotated<Value>) -> (r: Annotated<(Annotated<T1>, Annotated<T2>, Annotated<T3>, Annotated<T4>,)>) {
        match value {
            Annotated(None, meta) => Annotated(None, meta),
            Annotated(Some(Value::Null), meta) => Annotated(None, meta),
            Annotated(Some(Value::Array(items)), meta) => {
                if items.len() != 4 {
                    let mut meta = meta;
                    meta.add_unexpected_value_error("tuple", Value::Array(items));
                    return Annotated(None, meta);
                }
                let ghost orig = items@;
                let mut rev = reverse(items);
                let a0 = rev.pop().unwrap();
                assert(a0 == orig[0]);
                let a1 = rev.pop().unwrap();
                assert(a1 == orig[1]);
                let a2 = rev.pop().unwrap();
                assert(a2 == orig[2]);
                let a3 = rev.pop().unwrap();
                assert(a3 == orig[3]);
                Annotated(Some((T1::from_value(a0), T2::from_value(a1), T3::from_value(a2), T4::from_value(a3),)), meta)
            },
            Annotated(Some(v), meta) => {
                let mut meta = meta;
                meta.add_unexpected_value_error("tuple", v);
                Annotated(None, meta)
            },
        }
    }
}

impl<T1: ToValue, T2: ToValue, T3: ToValue, T4: ToValue> ToValue for (Annotated<T1>, Annotated<T2>, Annotated<T3>, Annotated<T4>,) {
    open spec fn to_value_spec(value: Annotated<(Annotated<T1>, Annotated<T2>, Annotated<T3>, Annotated<T4>,)>, r: Annotated<Value>) -> bool {
        &&& r.1 == value.1
        &&& match value.0 {
            None => r.0 is None,
            Some(t) => match r.0 {
                Some(Value::Array(out)) => out@.len() == 4 && T1::to_value_spec(t.0, out@[0]) && T2::to_value_spec(t.1, out@[1]) && T3::to_value_spec(t.2, out@[2]) && T4::to_value_spec(t.3, out@[3]),
                _ => false,
            },
        }
    }

    open spec fn skips(&self) -> bool {
        false
    }

    open spec fn payload(&self) -> Seq<char> {
        seq!['['] + annotated_payload(self.0) + seq![','] + annotated_payload(self.1) + seq![','] + annotated_payload(self.2) + seq![','] + annotated_payload(self.3) + seq![']']
    }

    fn to_value(value: Annotated<(Annotated<T1>, Annotated<T2>, Annotated<T3>, Annotated<T4>,)>) -> (r: Annotated<Value>) {
        match value {
            Annotated(Some((a0, a1, a2, a3,)), meta) => {
                let mut out: Vec<Annotated<Value>> = Vec::new();
                out.push(T1::to_value(a0));
                out.push(T2::to_value(a1));
                out.push(T3::to_value(a2));
                out.push(T4::to_value(a3));
                Annotated(Some(Value::Array(out)), meta)
            },
            Annotated(None, meta) => Annotated(None, meta),
        }
    }

    fn skip_serialization(&self) -> (r: bool) {
        false
    }

    fn serialize_payload(&self, out: &mut String) {
        push_char(out, '[');
        SerializePayload(&self.0).serialize(out);
        push_char(out, ',');
        SerializePayload(&self.1).serialize(out);
        push_char(out, ',');
        SerializePayload(&self.2).serialize(out);
        push_char(out, ',');
        SerializePayload(&self.3).serialize(out);
        push_char(out, ']');
        assert(out@ =~= old(out)@ + self.payload());
    }
}

impl<T1: FromValue, T2: FromValue, T3: FromValue, T4: FromValue, T5: FromValue> FromValue for (Annotated<T1>, Annotated<T2>, Annotated<T3>, Annotated<T4>, Annotated<T5>,) {
    open spec fn from_value_spec(value: Annotated<Value>, r: Annotated<(Annotated<T1>, Annotated<T2>, Annotated<T3>, Annotated<T4>, Annotated<T5>,)>) -> bool {
        match value.0 {
            None | Some(Value::Null) => passed_absent(value, r),
            Some(Value::Array(items)) => if items@.len() != 5 {
                rejected(value, r, "tuple"@)
            } else {
                &&& r.1 == value.1
                &&& r.0 is Some
                &&& {
                    let t = r.0->0;
                    T1::from_value_spec(items@[0], t.0) && T2::from_value_spec(items@[1], t.1) && T3::from_value_spec(items@[2], t.2) && T4::from_value_spec(items@[3], t.3) && T5::from_value_spec(items@[4], t.4)
                }
            },
            Some(_) => rejected(value, r, "tuple"@),
        }
    }

    fn from_value(value: Annotated<Value>) -> (r: Annotated<(Annotated<T1>, Annotated<T2>, Annotated<T3>, Annotated<T4>, Annotated<T5>,)>) {
        match value {
            Annotated(None, meta) => Annotated(None, meta),
            Annotated(Some(Value::Null), meta) => Annotated(None, meta),
            Annotated(Some(Value::Array(items)), meta) => {
                if items.len() != 5 {
                    let mut meta = meta;
                    meta.add_unexpected_value_error("tuple", Value::Array(items));
                    return Annotated(None, meta);
                }
                let ghost orig = items@;
                let mut rev = reverse(items);
                let a0 = rev.pop().unwrap();
                assert(a0 == orig[0]);
                let a1 = rev.pop().unwrap();
                assert(a1 == orig[1]);
                let a2 = rev.pop().unwrap();
                assert(a2 == orig[2]);
                let a3 = rev.pop().unwrap();
                assert(a3 == orig[3]);
                let a4 = rev.pop().unwrap();
                assert(a4 == orig[4]);
                Annotated(Some((T1::from_value(a0), T2::from_value(a1), T3::from_value(a2), T4::from_value(a3), T5::from_value(a4),)), meta)
            },
            Annotated(Some(v), meta) => {
                let mut meta = meta;
                meta.add_unexpected_value_error("tuple", v);
                Annotated(None, meta)
            },
        }
    }
}

impl<T1: ToValue, T2: ToValue, T3: ToValue, T4: ToValue, T5: ToValue> ToValue for (Annotated<T1>, Annotated<T2>, Annotated<T3>, Annotated<T4>, Annotated<T5>,) {
    open spec fn to_value_spec(value: Annotated<(Annotated<T1>, Annotated<T2>, Annotated<T3>, Annotated<T4>, Annotated<T5>,)>, r: Annotated<Value>) -> bool {
        &&& r.1 == value.1
        &&& match value.0 {
            None => r.0 is None,
            Some(t) => match r.0 {
                Some(Value::Array(out)) => out@.len() == 5 && T1::to_value_spec(t.0, out@[0]) && T2::to_value_spec(t.1, out@[1]) && T3::to_value_spec(t.2, out@[2]) && T4::to_value_spec(t.3, out@[3]) && T5::to_value_spec(t.4, out@[4]),
                _ => false,
            },
        }
    }

    open spec fn skips(&self) -> bool {
        false
    }

    open spec fn payload(&self) -> Seq<char> {
        seq!['['] + annotated_payload(self.0) + seq![','] + annotated_payload(self.1) + seq![','] + annotated_payload(self.2) + seq![','] + annotated_payload(self.3) + seq![','] + annotated_payload(self.4) + seq![']']
    }

    fn to_value(value: Annotated<(Annotated<T1>, Annotated<T2>, Annotated<T3>, Annotated<T4>, Annotated<T5>,)>) -> (r: Annotated<Value>) {
        match value {
            Annotated(Some((a0, a1, a2, a3, a4,)), meta) => {
                let mut out: Vec<Annotated<Value>> = Vec::new();
                out.push(T1::to_value(a0));
                out.push(T2::to_value(a1));
                out.push(T3::to_value(a2));
                out.push(T4::to_value(a3));
                out.push(T5::to_value(a4));
                Annotated(Some(Value::Array(out)), meta)
            },
            Annotated(None, meta) => Annotated(None, meta),
        }
    }

    fn skip_serialization(&self) -> (r: bool) {
        false
    }

    fn serialize_payload(&self, out: &mut String) {
        push_char(out, '[');
        SerializePayload(&self.0).serialize(out);
        push_char(out, ',');
        SerializePayload(&self.1).serialize(out);
        push_char(out, ',');
        SerializePayload(&self.2).serialize(out);
        push_char(out, ',');
        SerializePayload(&self.3).serialize(out);
        push_char(out, ',');
        SerializePayload(&self.4).serialize(out);
        push_char(out, ']');
        assert(out@ =~= old(out)@ + self.payload());
    }
}

impl<T1: FromValue, T2: FromValue, T3: FromValue, T4: FromValue, T5: FromValue, T6: FromValue> FromValue for (Annotated<T1>, Annotated<T2>, Annotated<T3>, Annotated<T4>, Annotated<T5>, Annotated<T6>,) {
    open spec fn from_value_spec(value: Annotated<Value>, r: Annotated<(Annotated<T1>, Annotated<T2>, Annotated<T3>, Annotated<T4>, Annotated<T5>, Annotated<T6>,)>) -> bool {
        match value.0 {
            None | Some(Value::Null) => passed_absent(value, r),
            Some(Value::Array(items)) => if items@.len() != 6 {
                rejected(value, r, "tuple"@)
            } else {
                &&& r.1 == value.1
                &&& r.0 is Some
                &&& {
                    let t = r.0->0;
                    T1::from_value_spec(items@[0], t.0) && T2::from_value_spec(items@[1], t.1) && T3::from_value_spec(items@[2], t.2) && T4::from_value_spec(items@[3], t.3) && T5::from_value_spec(items@[4], t.4) && T6::from_value_spec(items@[5], t.5)
                }
            },
            Some(_) => rejected(value, r, "tuple"@),
        }
    }

    fn from_value(value: Annotated<Value>) -> (r: Annotated<(Annotated<T1>, Annotated<T2>, Annotated<T3>, Annotated<T4>, Annotated<T5>, Annotated<T6>,)>) {
        match value {
            Annotated(None, meta) => Annotated(None, meta),
            Annotated(Some(Value::Null), meta) => Annotated(None, meta),
            Annotated(Some(Value::Array(items)), meta) => {
                if items.len() != 6 {
                    let mut meta = meta;
                    meta.add_unexpected_value_error("tuple", Value::Array(items));
                    return Annotated(None, meta);
                }
                let ghost orig = items@;
                let mut rev = reverse(items);
                let a0 = rev.pop().unwrap();
                assert(a0 == orig[0]);
                let a1 = rev.pop().unwrap();
                assert(a1 == orig[1]);
                let a2 = rev.pop().unwrap();
                assert(a2 == orig[2]);
                let a3 = rev.pop().unwrap();
                assert(a3 == orig[3]);
                let a4 = rev.pop().unwrap();
                assert(a4 == orig[4]);
                let a5 = rev.pop().unwrap();
                assert(a5 == orig[5]);
                Annotated(Some((T1::from_value(a0), T2::from_value(a1), T3::from_value(a2), T4::from_value(a3), T5::from_value(a4), T6::from_value(a5),)), meta)
            },
            Annotated(Some(v), meta) => {
                let mut meta = meta;
                meta.add_unexpected_value_error("tuple", v);
                Annotated(None, meta)
            },
        }
    }
}

impl<T1: ToValue, T2: ToValue, T3: ToValue, T4: ToValue, T5: ToValue, T6: ToValue> ToValue for (Annotated<T1>, Annotated<T2>, Annotated<T3>, Annotated<T4>, Annotated<T5>, Annotated<T6>,) {
    open spec fn to_value_spec(value: Annotated<(Annotated<T1>, Annotated<T2>, Annotated<T3>, Annotated<T4>, Annotated<T5>, Annotated<T6>,)>, r: Annotated<Value>) -> bool {
        &&& r.1 == value.1
        &&& match value.0 {
            None => r.0 is None,
            Some(t) => match r.0 {
                Some(Value::Array(out)) => out@.len() == 6 && T1::to_value_spec(t.0, out@[0]) && T2::to_value_spec(t.1, out@[1]) && T3::to_value_spec(t.2, out@[2]) && T4::to_value_spec(t.3, out@[3]) && T5::to_value_spec(t.4, out@[4]) && T6::to_value_spec(t.5, out@[5]),
                _ => false,
            },
        }
    }

    open spec fn skips(&self) -> bool {
        false
    }

    open spec fn payload(&self) -> Seq<char> {
        seq!['['] + annotated_payload(self.0) + seq![','] + annotated_payload(self.1) + seq![','] + annotated_payload(self.2) + seq![','] + annotated_payload(self.3) + seq![','] + annotated_payload(self.4) + seq![','] + annotated_payload(self.5) + seq![']']
    }

    fn to_value(value: Annotated<(Annotated<T1>, Annotated<T2>, Annotated<T3>, Annotated<T4>, Annotated<T5>, Annotated<T6>,)>) -> (r: Annotated<Value>) {
        match value {
            Annotated(Some((a0, a1, a2, a3, a4, a5,)), meta) => {
                let mut out: Vec<Annotated<Value>> = Vec::new();
                out.push(T1::to_value(a0));
                out.push(T2::to_value(a1));
                out.push(T3::to_value(a2));
                out.push(T4::to_value(a3));
                out.push(T5::to_value(a4));
                out.push(T6::to_value(a5));
                Annotated(Some(Value::Array(out)), meta)
            },
            Annotated(None, meta) => Annotated(None, meta),
        }
    }

    fn skip_serialization(&self) -> (r: bool) {
        false
    }

    fn serialize_payload(&self, out: &mut String) {
        push_char(out, '[');
        SerializePayload(&self.0).serialize(out);
        push_char(out, ',');
        SerializePayload(&self.1).serialize(out);
        push_char(out, ',');
        SerializePayload(&self.2).serialize(out);
        push_char(out, ',');
        SerializePayload(&self.3).serialize(out);
        push_char(out, ',');
        SerializePayload(&self.4).serialize(out);
        push_char(out, ',');
        SerializePayload(&self.5).serialize(out);
        push_char(out, ']');
        assert(out@ =~= old(out)@ + self.payload());
    }
}

impl<T1: FromValue, T2: FromValue, T3: FromValue, T4: FromValue, T5: FromValue, T6: FromValue, T7: FromValue> FromValue for (Annotated<T1>, Annotated<T2>, Annotated<T3>, Annotated<T4>, Annotated<T5>, Annotated<T6>, Annotated<T7>,) {
    open spec fn from_value_spec(value: Annotated<Value>, r: Annotated<(Annotated<T1>, Annotated<T2>, Annotated<T3>, Annotated<T4>, Annotated<T5>, Annotated<T6>, Annotated<T7>,)>) -> bool {
        match value.0 {
            None | Some(Value::Null) => passed_absent(value, r),
            Some(Value::Array(items)) => if items@.len() != 7 {
                rejected(value, r, "tuple"@)
            } else {
                &&& r.1 == value.1
                &&& r.0 is Some
                &&& {
                    let t = r.0->0;
                    T1::from_value_spec(items@[0], t.0) && T2::from_value_spec(items@[1], t.1) && T3::from_value_spec(items@[2], t.2) && T4::from_value_spec(items@[3], t.3) && T5::from_value_spec(items@[4], t.4) && T6::from_value_spec(items@[5], t.5) && T7::from_value_spec(items@[6], t.6)
                }
            },
            Some(_) => rejected(value, r, "tuple"@),
        }
    }

    fn from_value(value: Annotated<Value>) -> (r: Annotated<(Annotated<T1>, Annotated<T2>, Annotated<T3>, Annotated<T4>, Annotated<T5>, Annotated<T6>, Annotated<T7>,)>) {
        match value {
            Annotated(None, meta) => Annotated(None, meta),
            Annotated(Some(Value::Null), meta) => Annotated(None, meta),
            Annotated(Some(Value::Array(items)), meta) => {
                if items.len() != 7 {
                    let mut meta = meta;
                    meta.add_unexpected_value_error("tuple", Value::Array(items));
                    return Annotated(None, meta);
                }
                let ghost orig = items@;
                let mut rev = reverse(items);
                let a0 = rev.pop().unwrap();
                assert(a0 == orig[0]);
                let a1 = rev.pop().unwrap();
                assert(a1 == orig[1]);
                let a2 = rev.pop().unwrap();
                assert(a2 == orig[2]);
                let a3 = rev.pop().unwrap();
                assert(a3 == orig[3]);
                let a4 = rev.pop().unwrap();
                assert(a4 == orig[4]);
                let a5 = rev.pop().unwrap();
                assert(a5 == orig[5]);
                let a6 = rev.pop().unwrap();
                assert(a6 == orig[6]);
                Annotated(Some((T1::from_value(a0), T2::from_value(a1), T3::from_value(a2), T4::from_value(a3), T5::from_value(a4), T6::from_value(a5), T7::from_value(a6),)), meta)
            },
            Annotated(Some(v), meta) => {
                let mut meta = meta;
                meta.add_unexpected_value_error("tuple", v);
                Annotated(None, meta)
            },
        }
    }
}

impl<T1: ToValue, T2: ToValue, T3: ToValue, T4: ToValue, T5: ToValue, T6: ToValue, T7: ToValue> ToValue for (Annotated<T1>, Annotated<T2>, Annotated<T3>, Annotated<T4>, Annotated<T5>, Annotated<T6>, Annotated<T7>,) {
    open spec fn to_value_spec(value: Annotated<(Annotated<T1>, Annotated<T2>, Annotated<T3>, Annotated<T4>, Annotated<T5>, Annotated<T6>, Annotated<T7>,)>, r: Annotated<Value>) -> bool {
        &&& r.1 == value.1
        &&& match value.0 {
            None => r.0 is None,
            Some(t) => match r.0 {
                Some(Value::Array(out)) => out@.len() == 7 && T1::to_value_spec(t.0, out@[0]) && T2::to_value_spec(t.1, out@[1]) && T3::to_value_spec(t.2, out@[2]) && T4::to_value_spec(t.3, out@[3]) && T5::to_value_spec(t.4, out@[4]) && T6::to_value_spec(t.5, out@[5]) && T7::to_value_spec(t.6, out@[6]),
                _ => false,
            },
        }
    }

    open spec fn skips(&self) -> bool {
        false
    }

    open spec fn payload(&self) -> Seq<char> {
        seq!['['] + annotated_payload(self.0) + seq![','] + annotated_payload(self.1) + seq![','] + annotated_payload(self.2) + seq![','] + annotated_payload(self.3) + seq![','] + annotated_payload(self.4) + seq![','] + annotated_payload(self.5) + seq![','] + annotated_payload(self.6) + seq![']']
    }

    fn to_value(value: Annotated<(Annotated<T1>, Annotated<T2>, Annotated<T3>, Annotated<T4>, Annotated<T5>, Annotated<T6>, Annotated<T7>,)>) -> (r: Annotated<Value>) {
        match value {
            Annotated(Some((a0, a1, a2, a3, a4, a5, a6,)), meta) => {
                let mut out: Vec<Annotated<Value>> = Vec::new();
                out.push(T1::to_value(a0));
                out.push(T2::to_value(a1));
                out.push(T3::to_value(a2));
                out.push(T4::to_value(a3));
                out.push(T5::to_value(a4));
                out.push(T6::to_value(a5));
                out.push(T7::to_value(a6));
                Annotated(Some(Value::Array(out)), meta)
            },
            Annotated(None, meta) => Annotated(None, meta),
        }
    }

    fn skip_serialization(&self) -> (r: bool) {
        false
    }

    fn serialize_payload(&self, out: &mut String) {
        push_char(out, '[');
        SerializePayload(&self.0).serialize(out);
        push_char(out, ',');
        SerializePayload(&self.1).serialize(out);
        push_char(out, ',');
        SerializePayload(&self.2).serialize(out);
        push_char(out, ',');
        SerializePayload(&self.3).serialize(out);
        push_char(out, ',');
        SerializePayload(&self.4).serialize(out);
        push_char(out, ',');
        SerializePayload(&self.5).serialize(out);
        push_char(out, ',');
        SerializePayload(&self.6).serialize(out);
        push_char(out, ']');
        assert(out@ =~= old(out)@ + self.payload());
    }
}

impl<T1: FromValue, T2: FromValue, T3: FromValue, T4: FromValue, T5: FromValue, T6: FromValue, T7: FromValue, T8: FromValue> FromValue for (Annotated<T1>, Annotated<T2>, Annotated<T3>, Annotated<T4>, Annotated<T5>, Annotated<T6>, Annotated<T7>, Annotated<T8>,) {
    open spec fn from_value_spec(value: Annotated<Value>, r: Annotated<(Annotated<T1>, Annotated<T2>, Annotated<T3>, Annotated<T4>, Annotated<T5>, Annotated<T6>, Annotated<T7>, Annotated<T8>,)>) -> bool {
        match value.0 {
            None | Some(Value::Null) => passed_absent(value, r),
            Some(Value::Array(items)) => if items@.len() != 8 {
                rejected(value, r, "tuple"@)
            } else {
                &&& r.1 == value.1
                &&& r.0 is Some
                &&& {
                    let t = r.0->0;
                    T1::from_value_spec(items@[0], t.0) && T2::from_value_spec(items@[1], t.1) && T3::from_value_spec(items@[2], t.2) && T4::from_value_spec(items@[3], t.3) && T5::from_value_spec(items@[4], t.4) && T6::from_value_spec(items@[5], t.5) && T7::from_value_spec(items@[6], t.6) && T8::from_value_spec(items@[7], t.7)
                }
            },
            Some(_) => rejected(value, r, "tuple"@),
        }
    }

    fn from_value(value: Annotated<Value>) -> (r: Annotated<(Annotated<T1>, Annotated<T2>, Annotated<T3>, Annotated<T4>, Annotated<T5>, Annotated<T6>, Annotated<T7>, Annotated<T8>,)>) {
        match value {
            Annotated(None, meta) => Annotated(None, meta),
            Annotated(Some(Value::Null), meta) => Annotated(None, meta),
            Annotated(Some(Value::Array(items)), meta) => {
                if items.len() != 8 {
                    let mut meta = meta;
                    meta.add_unexpected_value_error("tuple", Value::Array(items));
                    return Annotated(None, meta);
                }
                let ghost orig = items@;
                let mut rev = reverse(items);
                let a0 = rev.pop().unwrap();
                assert(a0 == orig[0]);
                let a1 = rev.pop().unwrap();
                assert(a1 == orig[1]);
                let a2 = rev.pop().unwrap();
                assert(a2 == orig[2]);
                let a3 = rev.pop().unwrap();
                assert(a3 == orig[3]);
                let a4 = rev.pop().unwrap();
                assert(a4 == orig[4]);
                let a5 = rev.pop().unwrap();
                assert(a5 == orig[5]);
                let a6 = rev.pop().unwrap();
                assert(a6 == orig[6]);
                let a7 = rev.pop().unwrap();
                assert(a7 == orig[7]);
                Annotated(Some((T1::from_value(a0), T2::from_value(a1), T3::from_value(a2), T4::from_value(a3), T5::from_value(a4), T6::from_value(a5), T7::from_value(a6), T8::from_value(a7),)), meta)
            },
            Annotated(Some(v), meta) => {
                let mut meta = meta;
                meta.add_unexpected_value_error("tuple", v);
                Annotated(None, meta)
            },
        }
    }
}

impl<T1: ToValue, T2: ToValue, T3: ToValue, T4: ToValue, T5: ToValue, T6: ToValue, T7: ToValue, T8: ToValue> ToValue for (Annotated<T1>, Annotated<T2>, Annotated<T3>, Annotated<T4>, Annotated<T5>, Annotated<T6>, Annotated<T7>, Annotated<T8>,) {
    open spec fn to_value_spec(value: Annotated<(Annotated<T1>, Annotated<T2>, Annotated<T3>, Annotated<T4>, Annotated<T5>, Annotated<T6>, Annotated<T7>, Annotated<T8>,)>, r: Annotated<Value>) -> bool {
        &&& r.1 == value.1
        &&& match value.0 {
            None => r.0 is None,
            Some(t) => match r.0 {
                Some(Value::Array(out)) => out@.len() == 8 && T1::to_value_spec(t.0, out@[0]) && T2::to_value_spec(t.1, out@[1]) && T3::to_value_spec(t.2, out@[2]) && T4::to_value_spec(t.3, out@[3]) && T5::to_value_spec(t.4, out@[4]) && T6::to_value_spec(t.5, out@[5]) && T7::to_value_spec(t.6, out@[6]) && T8::to_value_spec(t.7, out@[7]),
                _ => false,
            },
        }
    }

    open spec fn skips(&self) -> bool {
        false
    }

    open spec fn payload(&self) -> Seq<char> {
        seq!['['] + annotated_payload(self.0) + seq![','] + annotated_payload(self.1) + seq![','] + annotated_payload(self.2) + seq![','] + annotated_payload(self.3) + seq![','] + annotated_payload(self.4) + seq![','] + annotated_payload(self.5) + seq![','] + annotated_payload(self.6) + seq![','] + annotated_payload(self.7) + seq![']']
    }

    fn to_value(value: Annotated<(Annotated<T1>, Annotated<T2>, Annotated<T3>, Annotated<T4>, Annotated<T5>, Annotated<T6>, Annotated<T7>, Annotated<T8>,)>) -> (r: Annotated<Value>) {
        match value {
            Annotated(Some((a0, a1, a2, a3, a4, a5, a6, a7,)), meta) => {
                let mut out: Vec<Annotated<Value>> = Vec::new();
                out.push(T1::to_value(a0));
                out.push(T2::to_value(a1));
                out.push(T3::to_value(a2));
                out.push(T4::to_value(a3));
                out.push(T5::to_value(a4));
                out.push(T6::to_value(a5));
                out.push(T7::to_value(a6));
                out.push(T8::to_value(a7));
                Annotated(Some(Value::Array(out)), meta)
            },
            Annotated(None, meta) => Annotated(None, meta),
        }
    }

    fn skip_serialization(&self) -> (r: bool) {
        false
    }

    fn serialize_payload(&self, out: &mut String) {
        push_char(out, '[');
        SerializePayload(&self.0).serialize(out);
        push_char(out, ',');
        SerializePayload(&self.1).serialize(out);
        push_char(out, ',');
        SerializePayload(&self.2).serialize(out);
        push_char(out, ',');
        SerializePayload(&self.3).serialize(out);
        push_char(out, ',');
        SerializePayload(&self.4).serialize(out);
        push_char(out, ',');
        SerializePayload(&self.5).serialize(out);
        push_char(out, ',');
        SerializePayload(&self.6).serialize(out);
        push_char(out, ',');
        SerializePayload(&self.7).serialize(out);
        push_char(out, ']');
        assert(out@ =~= old(out)@ + self.payload());
    }
}

impl<T1: FromValue, T2: FromValue, T3: FromValue, T4: FromValue, T5: FromValue, T6: FromValue, T7: FromValue, T8: FromValue, T9: FromValue> FromValue for (Annotated<T1>, Annotated<T2>, Annotated<T3>, Annotated<T4>, Annotated<T5>, Annotated<T6>, Annotated<T7>, Annotated<T8>, Annotated<T9>,) {
    open spec fn from_value_spec(value: Annotated<Value>, r: Annotated<(Annotated<T1>, Annotated<T2>, Annotated<T3>, Annotated<T4>, Annotated<T5>, Annotated<T6>, Annotated<T7>, Annotated<T8>, Annotated<T9>,)>) -> bool {
        match value.0 {
            None | Some(Value::Null) => passed_absent(value, r),
            Some(Value::Array(items)) => if items@.len() != 9 {
                rejected(value, r, "tuple"@)
            } else {
                &&& r.1 == value.1
                &&& r.0 is Some
                &&& {
                    let t = r.0->0;
                    T1::from_value_spec(items@[0], t.0) && T2::from_value_spec(items@[1], t.1) && T3::from_value_spec(items@[2], t.2) && T4::from_value_spec(items@[3], t.3) && T5::from_value_spec(items@[4], t.4) && T6::from_value_spec(items@[5], t.5) && T7::from_value_spec(items@[6], t.6) && T8::from_value_spec(items@[7], t.7) && T9::from_value_spec(items@[8], t.8)
                }
            },
            Some(_) => rejected(value, r, "tuple"@),
        }
    }

    fn from_value(value: Annotated<Value>) -> (r: Annotated<(Annotated<T1>, Annotated<T2>, Annotated<T3>, Annotated<T4>, Annotated<T5>, Annotated<T6>, Annotated<T7>, Annotated<T8>, Annotated<T9>,)>) {
        match value {
            Annotated(None, meta) => Annotated(None, meta),
            Annotated(Some(Value::Null), meta) => Annotated(None, meta),
            Annotated(Some(Value::Array(items)), meta) => {
                if items.len() != 9 {
                    let mut meta = meta;
                    meta.add_unexpected_value_error("tuple", Value::Array(items));
                    return Annotated(None, meta);
                }
                let ghost orig = items@;
                let mut rev = reverse(items);
                let a0 = rev.pop().unwrap();
                assert(a0 == orig[0]);
                let a1 = rev.pop().unwrap();
                assert(a1 == orig[1]);
                let a2 = rev.pop().unwrap();
                assert(a2 == orig[2]);
                let a3 = rev.pop().unwrap();
                assert(a3 == orig[3]);
                let a4 = rev.pop().unwrap();
                assert(a4 == orig[4]);
                let a5 = rev.pop().unwrap();
                assert(a5 == orig[5]);
                let a6 = rev.pop().unwrap();
                assert(a6 == orig[6]);
                let a7 = rev.pop().unwrap();
                assert(a7 == orig[7]);
                let a8 = rev.pop().unwrap();
                assert(a8 == orig[8]);
                Annotated(Some((T1::from_value(a0), T2::from_value(a1), T3::from_value(a2), T4::from_value(a3), T5::from_value(a4), T6::from_value(a5), T7::from_value(a6), T8::from_value(a7), T9::from_value(a8),)), meta)
            },
            Annotated(Some(v), meta) => {
                let mut meta = meta;
                meta.add_unexpected_value_error("tuple", v);
                Annotated(None, meta)
            },
        }
    }
}

impl<T1: ToValue, T2: ToValue, T3: ToValue, T4: ToValue, T5: ToValue, T6: ToValue, T7: ToValue, T8: ToValue, T9: ToValue> ToValue for (Annotated<T1>, Annotated<T2>, Annotated<T3>, Annotated<T4>, Annotated<T5>, Annotated<T6>, Annotated<T7>, Annotated<T8>, Annotated<T9>,) {
    open spec fn to_value_spec(value: Annotated<(Annotated<T1>, Annotated<T2>, Annotated<T3>, Annotated<T4>, Annotated<T5>, Annotated<T6>, Annotated<T7>, Annotated<T8>, Annotated<T9>,)>, r: Annotated<Value>) -> bool {
        &&& r.1 == value.1
        &&& match value.0 {
            None => r.0 is None,
            Some(t) => match r.0 {
                Some(Value::Array(out)) => out@.len() == 9 && T1::to_value_spec(t.0, out@[0]) && T2::to_value_spec(t.1, out@[1]) && T3::to_value_spec(t.2, out@[2]) && T4::to_value_spec(t.3, out@[3]) && T5::to_value_spec(t.4, out@[4]) && T6::to_value_spec(t.5, out@[5]) && T7::to_value_spec(t.6, out@[6]) && T8::to_value_spec(t.7, out@[7]) && T9::to_value_spec(t.8, out@[8]),
                _ => false,
            },
        }
    }

    open spec fn skips(&self) -> bool {
        false
    }

    open spec fn payload(&self) -> Seq<char> {
        seq!['['] + annotated_payload(self.0) + seq![','] + annotated_payload(self.1) + seq![','] + annotated_payload(self.2) + seq![','] + annotated_payload(self.3) + seq![','] + annotated_payload(self.4) + seq![','] + annotated_payload(self.5) + seq![','] + annotated_payload(self.6) + seq![','] + annotated_payload(self.7) + seq![','] + annotated_payload(self.8) + seq![']']
    }

    fn to_value(value: Annotated<(Annotated<T1>, Annotated<T2>, Annotated<T3>, Annotated<T4>, Annotated<T5>, Annotated<T6>, Annotated<T7>, Annotated<T8>, Annotated<T9>,)>) -> (r: Annotated<Value>) {
        match value {
            Annotated(Some((a0, a1, a2, a3, a4, a5, a6, a7, a8,)), meta) => {
                let mut out: Vec<Annotated<Value>> = Vec::new();
                out.push(T1::to_value(a0));
                out.push(T2::to_value(a1));
                out.push(T3::to_value(a2));
                out.push(T4::to_value(a3));
                out.push(T5::to_value(a4));
                out.push(T6::to_value(a5));
                out.push(T7::to_value(a6));
                out.push(T8::to_value(a7));
                out.push(T9::to_value(a8));
                Annotated(Some(Value::Array(out)), meta)
            },
            Annotated(None, meta) => Annotated(None, meta),
        }
    }

    fn skip_serialization(&self) -> (r: bool) {
        false
    }

    fn serialize_payload(&self, out: &mut String) {
        push_char(out, '[');
        SerializePayload(&self.0).serialize(out);
        push_char(out, ',');
        SerializePayload(&self.1).serialize(out);
        push_char(out, ',');
        SerializePayload(&self.2).serialize(out);
        push_char(out, ',');
        SerializePayload(&self.3).serialize(out);
        push_char(out, ',');
        SerializePayload(&self.4).serialize(out);
        push_char(out, ',');
        SerializePayload(&self.5).serialize(out);
        push_char(out, ',');
        SerializePayload(&self.6).serialize(out);
        push_char(out, ',');
        SerializePayload(&self.7).serialize(out);
        push_char(out, ',');
        SerializePayload(&self.8).serialize(out);
        push_char(out, ']');
        assert(out@ =~= old(out)@ + self.payload());
    }
}

impl<T1: FromValue, T2: FromValue, T3: FromValue, T4: FromValue, T5: FromValue, T6: FromValue, T7: FromValue, T8: FromValue, T9: FromValue, T10: FromValue> FromValue for (Annotated<T1>, Annotated<T2>, Annotated<T3>, Annotated<T4>, Annotated<T5>, Annotated<T6>, Annotated<T7>, Annotated<T8>, Annotated<T9>, Annotated<T10>,) {
    open spec fn from_value_spec(value: Annotated<Value>, r: Annotated<(Annotated<T1>, Annotated<T2>, Annotated<T3>, Annotated<T4>, Annotated<T5>, Annotated<T6>, Annotated<T7>, Annotated<T8>, Annotated<T9>, Annotated<T10>,)>) -> bool {
        match value.0 {
            None | Some(Value::Null) => passed_absent(value, r),
            Some(Value::Array(items)) => if items@.len() != 10 {
                rejected(value, r, "tuple"@)
            } else {
                &&& r.1 == value.1
                &&& r.0 is Some
                &&& {
                    let t = r.0->0;
                    T1::from_value_spec(items@[0], t.0) && T2::from_value_spec(items@[1], t.1) && T3::from_value_spec(items@[2], t.2) && T4::from_value_spec(items@[3], t.3) && T5::from_value_spec(items@[4], t.4) && T6::from_value_spec(items@[5], t.5) && T7::from_value_spec(items@[6], t.6) && T8::from_value_spec(items@[7], t.7) && T9::from_value_spec(items@[8], t.8) && T10::from_value_spec(items@[9], t.9)
                }
            },
            Some(_) => rejected(value, r, "tuple"@),
        }
    }

    fn from_value(value: Annotated<Value>) -> (r: Annotated<(Annotated<T1>, Annotated<T2>, Annotated<T3>, Annotated<T4>, Annotated<T5>, Annotated<T6>, Annotated<T7>, Annotated<T8>, Annotated<T9>, Annotated<T10>,)>) {
        match value {
            Annotated(None, meta) => Annotated(None, meta),
            Annotated(Some(Value::Null), meta) => Annotated(None, meta),
            Annotated(Some(Value::Array(items)), meta) => {
                if items.len() != 10 {
                    let mut meta = meta;
                    meta.add_unexpected_value_error("tuple", Value::Array(items));
                    return Annotated(None, meta);
                }
                let ghost orig = items@;
                let mut rev = reverse(items);
                let a0 = rev.pop().unwrap();
                assert(a0 == orig[0]);
                let a1 = rev.pop().unwrap();
                assert(a1 == orig[1]);
                let a2 = rev.pop().unwrap();
                assert(a2 == orig[2]);
                let a3 = rev.pop().unwrap();
                assert(a3 == orig[3]);
                let a4 = rev.pop().unwrap();
                assert(a4 == orig[4]);
                let a5 = rev.pop().unwrap();
                assert(a5 == orig[5]);
                let a6 = rev.pop().unwrap();
                assert(a6 == orig[6]);
                let a7 = rev.pop().unwrap();
                assert(a7 == orig[7]);
                let a8 = rev.pop().unwrap();
                assert(a8 == orig[8]);
                let a9 = rev.pop().unwrap();
                assert(a9 == orig[9]);
                Annotated(Some((T1::from_value(a0), T2::from_value(a1), T3::from_value(a2), T4::from_value(a3), T5::from_value(a4), T6::from_value(a5), T7::from_value(a6), T8::from_value(a7), T9::from_value(a8), T10::from_value(a9),)), meta)
            },
            Annotated(Some(v), meta) => {
                let mut meta = meta;
                meta.add_unexpected_value_error("tuple", v);
                Annotated(None, meta)
            },
        }
    }
}

impl<T1: ToValue, T2: ToValue, T3: ToValue, T4: ToValue, T5: ToValue, T6: ToValue, T7: ToValue, T8: ToValue, T9: ToValue, T10: ToValue> ToValue for (Annotated<T1>, Annotated<T2>, Annotated<T3>, Annotated<T4>, Annotated<T5>, Annotated<T6>, Annotated<T7>, Annotated<T8>, Annotated<T9>, Annotated<T10>,) {
    open spec fn to_value_spec(value: Annotated<(Annotated<T1>, Annotated<T2>, Annotated<T3>, Annotated<T4>, Annotated<T5>, Annotated<T6>, Annotated<T7>, Annotated<T8>, Annotated<T9>, Annotated<T10>,)>, r: Annotated<Value>) -> bool {
        &&& r.1 == value.1
        &&& match value.0 {
            None => r.0 is None,
            Some(t) => match r.0 {
                Some(Value::Array(out)) => out@.len() == 10 && T1::to_value_spec(t.0, out@[0]) && T2::to_value_spec(t.1, out@[1]) && T3::to_value_spec(t.2, out@[2]) && T4::to_value_spec(t.3, out@[3]) && T5::to_value_spec(t.4, out@[4]) && T6::to_value_spec(t.5, out@[5]) && T7::to_value_spec(t.6, out@[6]) && T8::to_value_spec(t.7, out@[7]) && T9::to_value_spec(t.8, out@[8]) && T10::to_value_spec(t.9, out@[9]),
                _ => false,
            },
        }
    }

    open spec fn skips(&self) -> bool {
        false
    }

    open spec fn payload(&self) -> Seq<char> {
        seq!['['] + annotated_payload(self.0) + seq![','] + annotated_payload(self.1) + seq![','] + annotated_payload(self.2) + seq![','] + annotated_payload(self.3) + seq![','] + annotated_payload(self.4) + seq![','] + annotated_payload(self.5) + seq![','] + annotated_payload(self.6) + seq![','] + annotated_payload(self.7) + seq![','] + annotated_payload(self.8) + seq![','] + annotated_payload(self.9) + seq![']']
    }

    fn to_value(value: Annotated<(Annotated<T1>, Annotated<T2>, Annotated<T3>, Annotated<T4>, Annotated<T5>, Annotated<T6>, Annotated<T7>, Annotated<T8>, Annotated<T9>, Annotated<T10>,)>) -> (r: Annotated<Value>) {
        match value {
            Annotated(Some((a0, a1, a2, a3, a4, a5, a6, a7, a8, a9,)), meta) => {
                let mut out: Vec<Annotated<Value>> = Vec::new();
                out.push(T1::to_value(a0));
                out.push(T2::to_value(a1));
                out.push(T3::to_value(a2));
                out.push(T4::to_value(a3));
                out.push(T5::to_value(a4));
                out.push(T6::to_value(a5));
                out.push(T7::to_value(a6));
                out.push(T8::to_value(a7));
                out.push(T9::to_value(a8));
                out.push(T10::to_value(a9));
                Annotated(Some(Value::Array(out)), meta)
            },
            Annotated(None, meta) => Annotated(None, meta),
        }
    }

    fn skip_serialization(&self) -> (r: bool) {
        false
    }

    fn serialize_payload(&self, out: &mut String) {
        push_char(out, '[');
        SerializePayload(&self.0).serialize(out);
        push_char(out, ',');
        SerializePayload(&self.1).serialize(out);
        push_char(out, ',');
        SerializePayload(&self.2).serialize(out);
        push_char(out, ',');
        SerializePayload(&self.3).serialize(out);
        push_char(out, ',');
        SerializePayload(&self.4).serialize(out);
        push_char(out, ',');
        SerializePayload(&self.5).serialize(out);
        push_char(out, ',');
        SerializePayload(&self.6).serialize(out);
        push_char(out, ',');
        SerializePayload(&self.7).serialize(out);
        push_char(out, ',');
        SerializePayload(&self.8).serialize(out);
        push_char(out, ',');
        SerializePayload(&self.9).serialize(out);
        push_char(out, ']');
        assert(out@ =~= old(out)@ + self.payload());
    }
}

impl<T1: FromValue, T2: FromValue, T3: FromValue, T4: FromValue, T5: FromValue, T6: FromValue, T7: FromValue, T8: FromValue, T9: FromValue, T10: FromValue, T11: FromValue> FromValue for (Annotated<T1>, Annotated<T2>, Annotated<T3>, Annotated<T4>, Annotated<T5>, Annotated<T6>, Annotated<T7>, Annotated<T8>, Annotated<T9>, Annotated<T10>, Annotated<T11>,) {
    open spec fn from_value_spec(value: Annotated<Value>, r: Annotated<(Annotated<T1>, Annotated<T2>, Annotated<T3>, Annotated<T4>, Annotated<T5>, Annotated<T6>, Annotated<T7>, Annotated<T8>, Annotated<T9>, Annotated<T10>, Annotated<T11>,)>) -> bool {
        match value.0 {
            None | Some(Value::Null) => passed_absent(value, r),
            Some(Value::Array(items)) => if items@.len() != 11 {
                rejected(value, r, "tuple"@)
            } else {
                &&& r.1 == value.1
                &&& r.0 is Some
                &&& {
                    let t = r.0->0;
                    T1::from_value_spec(items@[0], t.0) && T2::from_value_spec(items@[1], t.1) && T3::from_value_spec(items@[2], t.2) && T4::from_value_spec(items@[3], t.3) && T5::from_value_spec(items@[4], t.4) && T6::from_value_spec(items@[5], t.5) && T7::from_value_spec(items@[6], t.6) && T8::from_value_spec(items@[7], t.7) && T9::from_value_spec(items@[8], t.8) && T10::from_value_spec(items@[9], t.9) && T11::from_value_spec(items@[10], t.10)
                }
            },
            Some(_) => rejected(value, r, "tuple"@),
        }
    }

    fn from_value(value: Annotated<Value>) -> (r: Annotated<(Annotated<T1>, Annotated<T2>, Annotated<T3>, Annotated<T4>, Annotated<T5>, Annotated<T6>, Annotated<T7>, Annotated<T8>, Annotated<T9>, Annotated<T10>, Annotated<T11>,)>) {
        match value {
            Annotated(None, meta) => Annotated(None, meta),
            Annotated(Some(Value::Null), meta) => Annotated(None, meta),
            Annotated(Some(Value::Array(items)), meta) => {
                if items.len() != 11 {
                    let mut meta = meta;
                    meta.add_unexpected_value_error("tuple", Value::Array(items));
                    return Annotated(None, meta);
                }
                let ghost orig = items@;
                let mut rev = reverse(items);
                let a0 = rev.pop().unwrap();
                assert(a0 == orig[0]);
                let a1 = rev.pop().unwrap();
                assert(a1 == orig[1]);
                let a2 = rev.pop().unwrap();
                assert(a2 == orig[2]);
                let a3 = rev.pop().unwrap();
                assert(a3 == orig[3]);
                let a4 = rev.pop().unwrap();
                assert(a4 == orig[4]);
                let a5 = rev.pop().unwrap();
                assert(a5 == orig[5]);
                let a6 = rev.pop().unwrap();
                assert(a6 == orig[6]);
                let a7 = rev.pop().unwrap();
                assert(a7 == orig[7]);
                let a8 = rev.pop().unwrap();
                assert(a8 == orig[8]);
                let a9 = rev.pop().unwrap();
                assert(a9 == orig[9]);
                let a10 = rev.pop().unwrap();
                assert(a10 == orig[10]);
                Annotated(Some((T1::from_value(a0), T2::from_value(a1), T3::from_value(a2), T4::from_value(a3), T5::from_value(a4), T6::from_value(a5), T7::from_value(a6), T8::from_value(a7), T9::from_value(a8), T10::from_value(a9), T11::from_value(a10),)), meta)
            },
            Annotated(Some(v), meta) => {
                let mut meta = meta;
                meta.add_unexpected_value_error("tuple", v);
                Annotated(None, meta)
            },
        }
    }
}

impl<T1: ToValue, T2: ToValue, T3: ToValue, T4: ToValue, T5: ToValue, T6: ToValue, T7: ToValue, T8: ToValue, T9: ToValue, T10: ToValue, T11: ToValue> ToValue for (Annotated<T1>, Annotated<T2>, Annotated<T3>, Annotated<T4>, Annotated<T5>, Annotated<T6>, Annotated<T7>, Annotated<T8>, Annotated<T9>, Annotated<T10>, Annotated<T11>,) {
    open spec fn to_value_spec(value: Annotated<(Annotated<T1>, Annotated<T2>, Annotated<T3>, Annotated<T4>, Annotated<T5>, Annotated<T6>, Annotated<T7>, Annotated<T8>, Annotated<T9>, Annotated<T10>, Annotated<T11>,)>, r: Annotated<Value>) -> bool {
        &&& r.1 == value.1
        &&& match value.0 {
            None => r.0 is None,
            Some(t) => match r.0 {
                Some(Value::Array(out)) => out@.len() == 11 && T1::to_value_spec(t.0, out@[0]) && T2::to_value_spec(t.1, out@[1]) && T3::to_value_spec(t.2, out@[2]) && T4::to_value_spec(t.3, out@[3]) && T5::to_value_spec(t.4, out@[4]) && T6::to_value_spec(t.5, out@[5]) && T7::to_value_spec(t.6, out@[6]) && T8::to_value_spec(t.7, out@[7]) && T9::to_value_spec(t.8, out@[8]) && T10::to_value_spec(t.9, out@[9]) && T11::to_value_spec(t.10, out@[10]),
                _ => false,
            },
        }
    }

    open spec fn skips(&self) -> bool {
        false
    }

    open spec fn payload(&self) -> Seq<char> {
        seq!['['] + annotated_payload(self.0) + seq![','] + annotated_payload(self.1) + seq![','] + annotated_payload(self.2) + seq![','] + annotated_payload(self.3) + seq![','] + annotated_payload(self.4) + seq![','] + annotated_payload(self.5) + seq![','] + annotated_payload(self.6) + seq![','] + annotated_payload(self.7) + seq![','] + annotated_payload(self.8) + seq![','] + annotated_payload(self.9) + seq![','] + annotated_payload(self.10) + seq![']']
    }

    fn to_value(value: Annotated<(Annotated<T1>, Annotated<T2>, Annotated<T3>, Annotated<T4>, Annotated<T5>, Annotated<T6>, Annotated<T7>, Annotated<T8>, Annotated<T9>, Annotated<T10>, Annotated<T11>,)>) -> (r: Annotated<Value>) {
        match value {
            Annotated(Some((a0, a1, a2, a3, a4, a5, a6, a7, a8, a9, a10,)), meta) => {
                let mut out: Vec<Annotated<Value>> = Vec::new();
                out.push(T1::to_value(a0));
                out.push(T2::to_value(a1));
                out.push(T3::to_value(a2));
                out.push(T4::to_value(a3));
                out.push(T5::to_value(a4));
                out.push(T6::to_value(a5));
                out.push(T7::to_value(a6));
                out.push(T8::to_value(a7));
                out.push(T9::to_value(a8));
                out.push(T10::to_value(a9));
                out.push(T11::to_value(a10));
                Annotated(Some(Value::Array(out)), meta)
            },
            Annotated(None, meta) => Annotated(None, meta),
        }
    }

    fn skip_serialization(&self) -> (r: bool) {
        false
    }

    fn serialize_payload(&self, out: &mut String) {
        push_char(out, '[');
        SerializePayload(&self.0).serialize(out);
        push_char(out, ',');
        SerializePayload(&self.1).serialize(out);
        push_char(out, ',');
        SerializePayload(&self.2).serialize(out);
        push_char(out, ',');
        SerializePayload(&self.3).serialize(out);
        push_char(out, ',');
        SerializePayload(&self.4).serialize(out);
        push_char(out, ',');
        SerializePayload(&self.5).serialize(out);
        push_char(out, ',');
        SerializePayload(&self.6).serialize(out);
        push_char(out, ',');
        SerializePayload(&self.7).serialize(out);
        push_char(out, ',');
        SerializePayload(&self.8).serialize(out);
        push_char(out, ',');
        SerializePayload(&self.9).serialize(out);
        push_char(out, ',');
        SerializePayload(&self.10).serialize(out);
        push_char(out, ']');
        assert(out@ =~= old(out)@ + self.payload());
    }
}

impl<T1: FromValue, T2: FromValue, T3: FromValue, T4: FromValue, T5: FromValue, T6: FromValue, T7: FromValue, T8: FromValue, T9: FromValue, T10: FromValue, T11: FromValue, T12: FromValue> FromValue for (Annotated<T1>, Annotated<T2>, Annotated<T3>, Annotated<T4>, Annotated<T5>, Annotated<T6>, Annotated<T7>, Annotated<T8>, Annotated<T9>, Annotated<T10>, Annotated<T11>, Annotated<T12>,) {
    open spec fn from_value_spec(value: Annotated<Value>, r: Annotated<(Annotated<T1>, Annotated<T2>, Annotated<T3>, Annotated<T4>, Annotated<T5>, Annotated<T6>, Annotated<T7>, Annotated<T8>, Annotated<T9>, Annotated<T10>, Annotated<T11>, Annotated<T12>,)>) -> bool {
        match value.0 {
            None | Some(Value::Null) => passed_absent(value, r),
            Some(Value::Array(items)) => if items@.len() != 12 {
                rejected(value, r, "tuple"@)
            } else {
                &&& r.1 == value.1
                &&& r.0 is Some
                &&& {
                    let t = r.0->0;
                    T1::from_value_spec(items@[0], t.0) && T2::from_value_spec(items@[1], t.1) && T3::from_value_spec(items@[2], t.2) && T4::from_value_spec(items@[3], t.3) && T5::from_value_spec(items@[4], t.4) && T6::from_value_spec(items@[5], t.5) && T7::from_value_spec(items@[6], t.6) && T8::from_value_spec(items@[7], t.7) && T9::from_value_spec(items@[8], t.8) && T10::from_value_spec(items@[9], t.9) && T11::from_value_spec(items@[10], t.10) && T12::from_value_spec(items@[11], t.11)
                }
            },
            Some(_) => rejected(value, r, "tuple"@),
        }
    }

    fn from_value(value: Annotated<Value>) -> (r: Annotated<(Annotated<T1>, Annotated<T2>, Annotated<T3>, Annotated<T4>, Annotated<T5>, Annotated<T6>, Annotated<T7>, Annotated<T8>, Annotated<T9>, Annotated<T10>, Annotated<T11>, Annotated<T12>,)>) {
        match value {
            Annotated(None, meta) => Annotated(None, meta),
            Annotated(Some(Value::Null), meta) => Annotated(None, meta),
            Annotated(Some(Value::Array(items)), meta) => {
                if items.len() != 12 {
                    let mut meta = meta;
                    meta.add_unexpected_value_error("tuple", Value::Array(items));
                    return Annotated(None, meta);
                }
                let ghost orig = items@;
                let mut rev = reverse(items);
                let a0 = rev.pop().unwrap();
                assert(a0 == orig[0]);
                let a1 = rev.pop().unwrap();
                assert(a1 == orig[1]);
                let a2 = rev.pop().unwrap();
                assert(a2 == orig[2]);
                let a3 = rev.pop().unwrap();
                assert(a3 == orig[3]);
                let a4 = rev.pop().unwrap();
                assert(a4 == orig[4]);
                let a5 = rev.pop().unwrap();
                assert(a5 == orig[5]);
                let a6 = rev.pop().unwrap();
                assert(a6 == orig[6]);
                let a7 = rev.pop().unwrap();
                assert(a7 == orig[7]);
                let a8 = rev.pop().unwrap();
                assert(a8 == orig[8]);
                let a9 = rev.pop().unwrap();
                assert(a9 == orig[9]);
                let a10 = rev.pop().unwrap();
                assert(a10 == orig[10]);
                let a11 = rev.pop().unwrap();
                assert(a11 == orig[11]);
                Annotated(Some((T1::from_value(a0), T2::from_value(a1), T3::from_value(a2), T4::from_value(a3), T5::from_value(a4), T6::from_value(a5), T7::from_value(a6), T8::from_value(a7), T9::from_value(a8), T10::from_value(a9), T11::from_value(a10), T12::from_value(a11),)), meta)
            },
            Annotated(Some(v), meta) => {
                let mut meta = meta;
                meta.add_unexpected_value_error("tuple", v);
                Annotated(None, meta)
            },
        }
    }
}

impl<T1: ToValue, T2: ToValue, T3: ToValue, T4: ToValue, T5: ToValue, T6: ToValue, T7: ToValue, T8: ToValue, T9: ToValue, T10: ToValue, T11: ToValue, T12: ToValue> ToValue for (Annotated<T1>, Annotated<T2>, Annotated<T3>, Annotated<T4>, Annotated<T5>, Annotated<T6>, Annotated<T7>, Annotated<T8>, Annotated<T9>, Annotated<T10>, Annotated<T11>, Annotated<T12>,) {
    open spec fn to_value_spec(value: Annotated<(Annotated<T1>, Annotated<T2>, Annotated<T3>, Annotated<T4>, Annotated<T5>, Annotated<T6>, Annotated<T7>, Annotated<T8>, Annotated<T9>, Annotated<T10>, Annotated<T11>, Annotated<T12>,)>, r: Annotated<Value>) -> bool {
        &&& r.1 == value.1
        &&& match value.0 {
            None => r.0 is None,
            Some(t) => match r.0 {
                Some(Value::Array(out)) => out@.len() == 12 && T1::to_value_spec(t.0, out@[0]) && T2::to_value_spec(t.1, out@[1]) && T3::to_value_spec(t.2, out@[2]) && T4::to_value_spec(t.3, out@[3]) && T5::to_value_spec(t.4, out@[4]) && T6::to_value_spec(t.5, out@[5]) && T7::to_value_spec(t.6, out@[6]) && T8::to_value_spec(t.7, out@[7]) && T9::to_value_spec(t.8, out@[8]) && T10::to_value_spec(t.9, out@[9]) && T11::to_value_spec(t.10, out@[10]) && T12::to_value_spec(t.11, out@[11]),
                _ => false,
            },
        }
    }

    open spec fn skips(&self) -> bool {
        false
    }

    open spec fn payload(&self) -> Seq<char> {
        seq!['['] + annotated_payload(self.0) + seq![','] + annotated_payload(self.1) + seq![','] + annotated_payload(self.2) + seq![','] + annotated_payload(self.3) + seq![','] + annotated_payload(self.4) + seq![','] + annotated_payload(self.5) + seq![','] + annotated_payload(self.6) + seq![','] + annotated_payload(self.7) + seq![','] + annotated_payload(self.8) + seq![','] + annotated_payload(self.9) + seq![','] + annotated_payload(self.10) + seq![','] + annotated_payload(self.11) + seq![']']
    }

    fn to_value(value: Annotated<(Annotated<T1>, Annotated<T2>, Annotated<T3>, Annotated<T4>, Annotated<T5>, Annotated<T6>, Annotated<T7>, Annotated<T8>, Annotated<T9>, Annotated<T10>, Annotated<T11>, Annotated<T12>,)>) -> (r: Annotated<Value>) {
        match value {
            Annotated(Some((a0, a1, a2, a3, a4, a5, a6, a7, a8, a9, a10, a11,)), meta) => {
                let mut out: Vec<Annotated<Value>> = Vec::new();
                out.push(T1::to_value(a0));
                out.push(T2::to_value(a1));
                out.push(T3::to_value(a2));
                out.push(T4::to_value(a3));
                out.push(T5::to_value(a4));
                out.push(T6::to_value(a5));
                out.push(T7::to_value(a6));
                out.push(T8::to_value(a7));
                out.push(T9::to_value(a8));
                out.push(T10::to_value(a9));
                out.push(T11::to_value(a10));
                out.push(T12::to_value(a11));
                Annotated(Some(Value::Array(out)), meta)
            },
            Annotated(None, meta) => Annotated(None, meta),
        }
    }

    fn skip_serialization(&self) -> (r: bool) {
        false
    }

    fn serialize_payload(&self, out: &mut String) {
        push_char(out, '[');
        SerializePayload(&self.0).serialize(out);
        push_char(out, ',');
        SerializePayload(&self.1).serialize(out);
        push_char(out, ',');
        SerializePayload(&self.2).serialize(out);
        push_char(out, ',');
        SerializePayload(&self.3).serialize(out);
        push_char(out, ',');
        SerializePayload(&self.4).serialize(out);
        push_char(out, ',');
        SerializePayload(&self.5).serialize(out);
        push_char(out, ',');
        SerializePayload(&self.6).serialize(out);
        push_char(out, ',');
        SerializePayload(&self.7).serialize(out);
        push_char(out, ',');
        SerializePayload(&self.8).serialize(out);
        push_char(out, ',');
        SerializePayload(&self.9).serialize(out);
        push_char(out, ',');
        SerializePayload(&self.10).serialize(out);
        push_char(out, ',');
        SerializePayload(&self.11).serialize(out);
        push_char(out, ']');
        assert(out@ =~= old(out)@ + self.payload());
    }
}

/// A pair is read from an array of exactly two values: any other length gives no value and
/// one error `expected tuple` that holds the array.
pub proof fn lemma_tuple_arity<T1: FromValue, T2: FromValue>(
    v: Annotated<Value>,
    r: Annotated<(Annotated<T1>, Annotated<T2>)>,
)
    requires
        <(Annotated<T1>, Annotated<T2>) as FromValue>::from_value_spec(v, r),
        v.0 matches Some(Value::Array(_)),
    ensures
        (r.0 is None && rejected(v, r, "tuple"@)) <==> (v.0 matches Some(Value::Array(items))
            && items@.len() != 2),
{
    reveal_strlit("expected ");
}

} // verus!
