use vstd::prelude::*;
use vstd::string::StringExecFns;

use crate::convert::{
    annotated_payload, annotated_skips, passed_absent, rejected, FromValue, SerializePayload,
    ToValue,
};
use crate::json::{json_string, write_string};
use crate::text::{join, lemma_join_push, push_char};
use crate::value::{Annotated, Meta, Value};

verus! {

/// A list of annotated values.
pub type Array<T> = Vec<Annotated<T>>;

/// Annotated values under string keys, in insertion order.
pub type Object<T> = Vec<(String, Annotated<T>)>;

/// `v` in reverse order.
pub fn reverse<A>(v: Vec<A>) -> (r: Vec<A>)
    ensures
        r@.len() == v@.len(),
        forall|k: int| 0 <= k < v@.len() ==> #[trigger] r@[k] == v@[v@.len() - 1 - k],
{
    let ghost orig = v@;
    let mut v = v;
    let mut r: Vec<A> = Vec::new();
    while v.len() > 0
        invariant
            v@ == orig.subrange(0, v@.len() as int),
            r@.len() + v@.len() == orig.len(),
            forall|k: int| 0 <= k < r@.len() ==> #[trigger] r@[k] == orig[orig.len() - 1 - k],
        decreases v@.len(),
    {
        let x = v.pop().unwrap();
        r.push(x);
        assert(v@ =~= orig.subrange(0, v@.len() as int));
    }
    r
}

fn items_from_values<T: FromValue>(items: Vec<Annotated<Value>>) -> (r: Vec<Annotated<T>>)
    ensures
        r@.len() == items@.len(),
        forall|k: int| 0 <= k < items@.len() ==> T::from_value_spec(#[trigger] items@[k], r@[k]),
{
    let ghost n = items@.len();
    let ghost orig = items@;
    let mut rev = reverse(items);
    let ghost rev0 = rev@;
    let mut out: Vec<Annotated<T>> = Vec::new();
    while rev.len() > 0
        invariant
            rev@ == rev0.subrange(0, rev@.len() as int),
            rev0.len() == n,
            orig.len() == n,
            forall|k: int| 0 <= k < n ==> #[trigger] rev0[k] == orig[n - 1 - k],
            out@.len() + rev@.len() == n,
            forall|k: int| 0 <= k < out@.len() ==> T::from_value_spec(#[trigger] orig[k], out@[k]),
        decreases rev@.len(),
    {
        let x = rev.pop().unwrap();
        assert(x == orig[out@.len() as int]);
        out.push(T::from_value(x));
        assert(rev@ =~= rev0.subrange(0, rev@.len() as int));
    }
    out
}

fn items_to_values<T: ToValue>(items: Vec<Annotated<T>>) -> (r: Vec<Annotated<Value>>)
    ensures
        r@.len() == items@.len(),
        forall|k: int| 0 <= k < items@.len() ==> T::to_value_spec(#[trigger] items@[k], r@[k]),
{
    let ghost n = items@.len();
    let ghost orig = items@;
    let mut rev = reverse(items);
    let ghost rev0 = rev@;
    let mut out: Vec<Annotated<Value>> = Vec::new();
    while rev.len() > 0
        invariant
            rev@ == rev0.subrange(0, rev@.len() as int),
            rev0.len() == n,
            orig.len() == n,
            forall|k: int| 0 <= k < n ==> #[trigger] rev0[k] == orig[n - 1 - k],
            out@.len() + rev@.len() == n,
            forall|k: int| 0 <= k < out@.len() ==> T::to_value_spec(#[trigger] orig[k], out@[k]),
        decreases rev@.len(),
    {
        let x = rev.pop().unwrap();
        assert(x == orig[out@.len() as int]);
        out.push(T::to_value(x));
        assert(rev@ =~= rev0.subrange(0, rev@.len() as int));
    }
    out
}

fn entries_from_values<T: FromValue>(entries: Vec<(String, Annotated<Value>)>) -> (r: Vec<(String, Annotated<T>)>)
    ensures
        r@.len() == entries@.len(),
        forall|k: int|
            0 <= k < entries@.len() ==> (#[trigger] r@[k]).0 == entries@[k].0 && T::from_value_spec(
                entries@[k].1,
                r@[k].1,
            ),
{
    let ghost n = entries@.len();
    let ghost orig = entries@;
    let mut rev = reverse(entries);
    let ghost rev0 = rev@;
    let mut out: Vec<(String, Annotated<T>)> = Vec::new();
    while rev.len() > 0
        invariant
            rev@ == rev0.subrange(0, rev@.len() as int),
            rev0.len() == n,
            orig.len() == n,
            forall|k: int| 0 <= k < n ==> #[trigger] rev0[k] == orig[n - 1 - k],
            out@.len() + rev@.len() == n,
            forall|k: int|
                0 <= k < out@.len() ==> (#[trigger] out@[k]).0 == orig[k].0 && T::from_value_spec(
                    orig[k].1,
                    out@[k].1,
                ),
        decreases rev@.len(),
    {
        let (key, x) = rev.pop().unwrap();
        assert(key == orig[out@.len() as int].0 && x == orig[out@.len() as int].1);
        out.push((key, T::from_value(x)));
        assert(rev@ =~= rev0.subrange(0, rev@.len() as int));
    }
    out
}

fn entries_to_values<T: ToValue>(entries: Vec<(String, Annotated<T>)>) -> (r: Vec<(String, Annotated<Value>)>)
    ensures
        r@.len() == entries@.len(),
        forall|k: int|
            0 <= k < entries@.len() ==> (#[trigger] r@[k]).0 == entries@[k].0 && T::to_value_spec(
                entries@[k].1,
                r@[k].1,
            ),
{
    let ghost n = entries@.len();
    let ghost orig = entries@;
    let mut rev = reverse(entries);
    let ghost rev0 = rev@;
    let mut out: Vec<(String, Annotated<Value>)> = Vec::new();
    while rev.len() > 0
        invariant
            rev@ == rev0.subrange(0, rev@.len() as int),
            rev0.len() == n,
            orig.len() == n,
            forall|k: int| 0 <= k < n ==> #[trigger] rev0[k] == orig[n - 1 - k],
            out@.len() + rev@.len() == n,
            forall|k: int|
                0 <= k < out@.len() ==> (#[trigger] out@[k]).0 == orig[k].0 && T::to_value_spec(
                    orig[k].1,
                    out@[k].1,
                ),
        decreases rev@.len(),
    {
        let (key, x) = rev.pop().unwrap();
        assert(key == orig[out@.len() as int].0 && x == orig[out@.len() as int].1);
        out.push((key, T::to_value(x)));
        assert(rev@ =~= rev0.subrange(0, rev@.len() as int));
    }
    out
}

/// The JSON texts of a list's elements.
pub open spec fn item_payloads<T: ToValue>(items: Seq<Annotated<T>>) -> Seq<Seq<char>> {
    items.map_values(|a: Annotated<T>| annotated_payload(a))
}

/// The `"key":value` texts of an object's entries that are not skipped, in order.
pub open spec fn entry_payloads<T: ToValue>(entries: Seq<(String, Annotated<T>)>) -> Seq<Seq<char>>
    decreases entries.len(),
{
    if entries.len() == 0 {
        Seq::empty()
    } else {
        let rest = entry_payloads(entries.drop_last());
        let e = entries.last();
        if annotated_skips(e.1) {
            rest
        } else {
            rest.push(json_string(e.0@) + seq![':'] + annotated_payload(e.1))
        }
    }
}

impl<T: FromValue> FromValue for Vec<Annotated<T>> {
    open spec fn from_value_spec(value: Annotated<Value>, r: Annotated<Vec<Annotated<T>>>) -> bool {
        match value.0 {
            None | Some(Value::Null) => passed_absent(value, r),
            Some(Value::Array(items)) => {
                &&& r.1 == value.1
                &&& r.0 is Some
                &&& r.0->0@.len() == items@.len()
                &&& forall|k: int|
                    0 <= k < items@.len() ==> T::from_value_spec(#[trigger] items@[k], r.0->0@[k])
            },
            Some(_) => rejected(value, r, "array"@),
        }
    }

    fn from_value(value: Annotated<Value>) -> (r: Annotated<Vec<Annotated<T>>>) {
        match value {
            Annotated(None, meta) => Annotated(None, meta),
            Annotated(Some(Value::Null), meta) => Annotated(None, meta),
            Annotated(Some(Value::Array(items)), meta) => Annotated(Some(items_from_values(items)), meta),
            Annotated(Some(v), meta) => {
                let mut meta = meta;
                meta.add_unexpected_value_error("array", v);
                Annotated(None, meta)
            },
        }
    }
}

impl<T: ToValue> ToValue for Vec<Annotated<T>> {
    open spec fn to_value_spec(value: Annotated<Vec<Annotated<T>>>, r: Annotated<Value>) -> bool {
        &&& r.1 == value.1
        &&& match value.0 {
            None => r.0 is None,
            Some(items) => match r.0 {
                Some(Value::Array(out)) => out@.len() == items@.len() && forall|k: int|
                    0 <= k < items@.len() ==> T::to_value_spec(#[trigger] items@[k], out@[k]),
                _ => false,
            },
        }
    }

    open spec fn skips(&self) -> bool {
        forall|k: int| 0 <= k < self@.len() ==> annotated_skips(#[trigger] self@[k])
    }

    open spec fn payload(&self) -> Seq<char> {
        seq!['['] + join(item_payloads(self@), seq![',']) + seq![']']
    }

    fn to_value(value: Annotated<Vec<Annotated<T>>>) -> (r: Annotated<Value>) {
        match value {
            Annotated(Some(items), meta) => Annotated(Some(Value::Array(items_to_values(items))), meta),
            Annotated(None, meta) => Annotated(None, meta),
        }
    }

    fn skip_serialization(&self) -> (r: bool) {
        let mut i: usize = 0;
        while i < self.len()
            invariant
                i <= self@.len(),
                forall|k: int| 0 <= k < i ==> annotated_skips(#[trigger] self@[k]),
            decreases self@.len() - i,
        {
            let skip = match &self[i].0 {
                None => true,
                Some(v) => v.skip_serialization(),
            };
            if !skip {
                return false;
            }
            i += 1;
        }
        true
    }

    fn serialize_payload(&self, out: &mut String) {
        push_char(out, '[');
        let ghost start = out@;
        let mut i: usize = 0;
        assert(item_payloads(self@.subrange(0, 0)) =~= Seq::<Seq<char>>::empty());
        while i < self.len()
            invariant
                i <= self@.len(),
                start == old(out)@ + seq!['['],
                out@ == start + join(item_payloads(self@.subrange(0, i as int)), seq![',']),
            decreases self@.len() - i,
        {
            let ghost before = item_payloads(self@.subrange(0, i as int));
            proof {
                assert(item_payloads(self@.subrange(0, i + 1)) =~= before.push(annotated_payload(self@[i as int])));
                lemma_join_push(before, seq![','], annotated_payload(self@[i as int]));
            }
            if i > 0 {
                push_char(out, ',');
            }
            SerializePayload(&self[i]).serialize(out);
            i += 1;
            assert(out@ =~= start + join(item_payloads(self@.subrange(0, i as int)), seq![',']));
        }
        assert(self@.subrange(0, i as int) =~= self@);
        push_char(out, ']');
        assert(out@ =~= old(out)@ + self.payload());
    }
}

impl<T: FromValue> FromValue for Vec<(String, Annotated<T>)> {
    open spec fn from_value_spec(value: Annotated<Value>, r: Annotated<Vec<(String, Annotated<T>)>>) -> bool {
        match value.0 {
            None | Some(Value::Null) => passed_absent(value, r),
            Some(Value::Object(entries)) => {
                &&& r.1 == value.1
                &&& r.0 is Some
                &&& r.0->0@.len() == entries@.len()
                &&& forall|k: int|
                    0 <= k < entries@.len() ==> (#[trigger] r.0->0@[k]).0 == entries@[k].0
                        && T::from_value_spec(entries@[k].1, r.0->0@[k].1)
            },
            Some(_) => rejected(value, r, "object"@),
        }
    }

    fn from_value(value: Annotated<Value>) -> (r: Annotated<Vec<(String, Annotated<T>)>>) {
        match value {
            Annotated(None, meta) => Annotated(None, meta),
            Annotated(Some(Value::Null), meta) => Annotated(None, meta),
            Annotated(Some(Value::Object(entries)), meta) => Annotated(Some(entries_from_values(entries)), meta),
            Annotated(Some(v), meta) => {
                let mut meta = meta;
                meta.add_unexpected_value_error("object", v);
                Annotated(None, meta)
            },
        }
    }
}

impl<T: ToValue> ToValue for Vec<(String, Annotated<T>)> {
    open spec fn to_value_spec(value: Annotated<Vec<(String, Annotated<T>)>>, r: Annotated<Value>) -> bool {
        &&& r.1 == value.1
        &&& match value.0 {
            None => r.0 is None,
            Some(entries) => match r.0 {
                Some(Value::Object(out)) => out@.len() == entries@.len() && forall|k: int|
                    0 <= k < entries@.len() ==> (#[trigger] out@[k]).0 == entries@[k].0
                        && T::to_value_spec(entries@[k].1, out@[k].1),
                _ => false,
            },
        }
    }

    open spec fn skips(&self) -> bool {
        forall|k: int| 0 <= k < self@.len() ==> annotated_skips(#[trigger] self@[k].1)
    }

    open spec fn payload(&self) -> Seq<char> {
        seq!['{'] + join(entry_payloads(self@), seq![',']) + seq!['}']
    }

    fn to_value(value: Annotated<Vec<(String, Annotated<T>)>>) -> (r: Annotated<Value>) {
        match value {
            Annotated(Some(entries), meta) => Annotated(Some(Value::Object(entries_to_values(entries))), meta),
            Annotated(None, meta) => Annotated(None, meta),
        }
    }

    fn skip_serialization(&self) -> (r: bool) {
        let mut i: usize = 0;
        while i < self.len()
            invariant
                i <= self@.len(),
                forall|k: int| 0 <= k < i ==> annotated_skips(#[trigger] self@[k].1),
            decreases self@.len() - i,
        {
            let field = &self[i].1;
            let skip = match &field.0 {
                None => true,
                Some(v) => v.skip_serialization(),
            };
            if !skip {
                return false;
            }
            i += 1;
        }
        true
    }

    fn serialize_payload(&self, out: &mut String) {
        push_char(out, '{');
        let ghost start = out@;
        let mut i: usize = 0;
        let mut wrote = false;
        assert(self@.subrange(0, 0) =~= Seq::<(String, Annotated<T>)>::empty());
        while i < self.len()
            invariant
                i <= self@.len(),
                start == old(out)@ + seq!['{'],
                out@ == start + join(entry_payloads(self@.subrange(0, i as int)), seq![',']),
                wrote == (entry_payloads(self@.subrange(0, i as int)).len() > 0),
            decreases self@.len() - i,
        {
            let ghost before = entry_payloads(self@.subrange(0, i as int));
            assert(self@.subrange(0, i + 1).drop_last() =~= self@.subrange(0, i as int));
            let entry = &self[i];
            let field = &entry.1;
            let skip = match &field.0 {
                None => true,
                Some(v) => v.skip_serialization(),
            };
            if !skip {
                let ghost part = json_string(entry.0@) + seq![':'] + annotated_payload(entry.1);
                proof {
                    lemma_join_push(before, seq![','], part);
                }
                if wrote {
                    push_char(out, ',');
                }
                wrote = true;
                write_string(entry.0.as_str(), out);
                push_char(out, ':');
                SerializePayload(&entry.1).serialize(out);
            }
            i += 1;
            assert(out@ =~= start + join(entry_payloads(self@.subrange(0, i as int)), seq![',']));
        }
        assert(self@.subrange(0, i as int) =~= self@);
        push_char(out, '}');
        assert(out@ =~= old(out)@ + self.payload());
    }
}

impl<T: FromValue> FromValue for Box<T> {
    open spec fn from_value_spec(value: Annotated<Value>, r: Annotated<Box<T>>) -> bool {
        exists|inner: Annotated<T>|
            T::from_value_spec(value, inner) && r.1 == inner.1 && r.0 == (match inner.0 {
                Some(x) => Some(Box::new(x)),
                None => None,
            })
    }

    fn from_value(value: Annotated<Value>) -> (r: Annotated<Box<T>>) {
        let inner: Annotated<T> = T::from_value(value);
        let ghost g = inner;
        let boxed = match inner.0 {
            Some(x) => Some(Box::new(x)),
            None => None,
        };
        let r = Annotated(boxed, inner.1);
        assert(T::from_value_spec(value, g) && r.1 == g.1);
        r
    }
}

impl<T: ToValue> ToValue for Box<T> {
    open spec fn to_value_spec(value: Annotated<Box<T>>, r: Annotated<Value>) -> bool {
        T::to_value_spec(
            Annotated(
                match value.0 {
                    Some(b) => Some(*b),
                    None => None,
                },
                value.1,
            ),
            r,
        )
    }

    open spec fn skips(&self) -> bool {
        (**self).skips()
    }

    open spec fn payload(&self) -> Seq<char> {
        (**self).payload()
    }

    fn to_value(value: Annotated<Box<T>>) -> (r: Annotated<Value>) {
        let inner = match value.0 {
            Some(b) => Some(*b),
            None => None,
        };
        T::to_value(Annotated(inner, value.1))
    }

    fn skip_serialization(&self) -> (r: bool) {
        (**self).skip_serialization()
    }

    fn serialize_payload(&self, out: &mut String) {
        (**self).serialize_payload(out)
    }
}

/// A record that is written even where it is empty, as one declared with
/// `skip_serialization = "never"`.
#[derive(Debug, PartialEq)]
pub struct NeverSkip<T>(pub T);

impl<T: FromValue> FromValue for NeverSkip<T> {
    open spec fn from_value_spec(value: Annotated<Value>, r: Annotated<NeverSkip<T>>) -> bool {
        exists|inner: Annotated<T>|
            T::from_value_spec(value, inner) && r.1 == inner.1 && r.0 == (match inner.0 {
                Some(x) => Some(NeverSkip(x)),
                None => None,
            })
    }

    fn from_value(value: Annotated<Value>) -> (r: Annotated<NeverSkip<T>>) {
        let inner: Annotated<T> = T::from_value(value);
        let ghost g = inner;
        let wrapped = match inner.0 {
            Some(x) => Some(NeverSkip(x)),
            None => None,
        };
        let r = Annotated(wrapped, inner.1);
        assert(T::from_value_spec(value, g) && r.1 == g.1);
        r
    }
}

impl<T: ToValue> ToValue for NeverSkip<T> {
    open spec fn to_value_spec(value: Annotated<NeverSkip<T>>, r: Annotated<Value>) -> bool {
        T::to_value_spec(
            Annotated(
                match value.0 {
                    Some(w) => Some(w.0),
                    None => None,
                },
                value.1,
            ),
            r,
        )
    }

    open spec fn skips(&self) -> bool {
        false
    }

    open spec fn payload(&self) -> Seq<char> {
        self.0.payload()
    }

    fn to_value(value: Annotated<NeverSkip<T>>) -> (r: Annotated<Value>) {
        let inner = match value.0 {
            Some(w) => Some(w.0),
            None => None,
        };
        T::to_value(Annotated(inner, value.1))
    }

    fn skip_serialization(&self) -> (r: bool) {
        false
    }

    fn serialize_payload(&self, out: &mut String) {
        self.0.serialize_payload(out)
    }
}

/// Null reads as absent for arrays and objects too, with the metadata unchanged.
pub proof fn lemma_null_is_absent_containers<T: FromValue>(
    v: Annotated<Value>,
    a: Annotated<Vec<Annotated<T>>>,
    o: Annotated<Vec<(String, Annotated<T>)>>,
)
    requires
        v.0 == Some(Value::Null),
        <Vec<Annotated<T>> as FromValue>::from_value_spec(v, a),
        <Vec<(String, Annotated<T>)> as FromValue>::from_value_spec(v, o),
    ensures
        a.0 is None && a.1 == v.1,
        o.0 is None && o.1 == v.1,
{
}

/// An empty array or object is skipped; an object entry that is skipped adds nothing to the
/// object's text; a value wrapped in `NeverSkip` is never skipped.
pub proof fn lemma_empty_containers_skipped<T: ToValue>(
    items: Vec<Annotated<T>>,
    entries: Vec<(String, Annotated<T>)>,
    before: Seq<(String, Annotated<T>)>,
    key: String,
    value: Annotated<T>,
    kept: NeverSkip<T>,
)
    ensures
        items@.len() == 0 ==> items.skips(),
        entries@.len() == 0 ==> entries.skips(),
        annotated_skips(value) ==> entry_payloads(before.push((key, value))) == entry_payloads(before),
        !annotated_skips(value) ==> entry_payloads(before.push((key, value))) == entry_payloads(
            before,
        ).push(json_string(key@) + seq![':'] + annotated_payload(value)),
        !kept.skips(),
{
    assert(before.push((key, value)).drop_last() =~= before);
}

} // verus!
