use vstd::prelude::*;

use crate::convert::{passed_absent, rejected, FromValue, ToValue};
use crate::json::{json_string, write_string};
use crate::value::{Annotated, Value};

verus! {

/// A universally unique identifier, held as its 128-bit value.
#[derive(Clone, Copy, Debug, PartialEq, Eq, Structural)]
pub struct Uuid {
    pub value: u128,
}

/// What `uuid::Uuid::parse_str` makes of a string: the identifier's value, or none.
pub uninterp spec fn uuid_parsed(s: Seq<char>) -> Option<u128>;

/// The lower-case hyphenated text that `uuid` writes for an identifier.
pub uninterp spec fn uuid_text(value: u128) -> Seq<char>;

/// Relies on uuid::Uuid::parse_str, which accepts the simple, hyphenated and urn forms.
#[verifier::external_body]
fn parse_uuid_str(s: &str) -> (r: Option<u128>)
    ensures
        r == uuid_parsed(s@),
{
    uuid::Uuid::parse_str(s).ok().map(|u| u.as_u128())
}

/// Relies on uuid's `Display` for `Uuid`: 32 lower-case hex digits in five hyphenated groups.
#[verifier::external_body]
fn uuid_to_text(value: u128) -> (r: String)
    ensures
        r@ == uuid_text(value),
        r@.len() == 36,
{
    uuid::Uuid::from_u128(value).to_string()
}

impl Uuid {
    /// Parses an identifier from its text; `None` where the text is no identifier.
    pub fn parse_str(s: &str) -> (r: Option<Uuid>)
        ensures
            r == (match uuid_parsed(s@) {
                Some(v) => Some(Uuid { value: v }),
                None => None,
            }),
    {
        match parse_uuid_str(s) {
            Some(v) => Some(Uuid { value: v }),
            None => None,
        }
    }

    /// The identifier's hyphenated text.
    pub fn to_text(&self) -> (r: String)
        ensures
            r@ == uuid_text(self.value),
            r@.len() == 36,
    {
        uuid_to_text(self.value)
    }
}

impl FromValue for Uuid {
    open spec fn from_value_spec(value: Annotated<Value>, r: Annotated<Uuid>) -> bool {
        match value.0 {
            None | Some(Value::Null) => passed_absent(value, r),
            Some(Value::String(s)) => match uuid_parsed(s@) {
                Some(u) => r.0 == Some(Uuid { value: u }) && r.1 == value.1,
                None => rejected(value, r, "a uuid"@),
            },
            Some(_) => rejected(value, r, "a uuid"@),
        }
    }

    fn from_value(value: Annotated<Value>) -> (r: Annotated<Uuid>) {
        match value {
            Annotated(None, meta) => Annotated(None, meta),
            Annotated(Some(Value::Null), meta) => Annotated(None, meta),
            Annotated(Some(Value::String(s)), meta) => match Uuid::parse_str(s.as_str()) {
                Some(u) => Annotated(Some(u), meta),
                None => {
                    let mut meta = meta;
                    meta.add_unexpected_value_error("a uuid", Value::String(s));
                    Annotated(None, meta)
                },
            },
            Annotated(Some(v), meta) => {
                let mut meta = meta;
                meta.add_unexpected_value_error("a uuid", v);
                Annotated(None, meta)
            },
        }
    }
}

impl ToValue for Uuid {
    open spec fn to_value_spec(value: Annotated<Uuid>, r: Annotated<Value>) -> bool {
        &&& r.1 == value.1
        &&& match value.0 {
            None => r.0 is None,
            Some(u) => match r.0 {
                Some(Value::String(s)) => s@ == uuid_text(u.value),
                _ => false,
            },
        }
    }

    open spec fn skips(&self) -> bool {
        false
    }

    open spec fn payload(&self) -> Seq<char> {
        json_string(uuid_text(self.value))
    }

    fn to_value(value: Annotated<Uuid>) -> (r: Annotated<Value>) {
        match value {
            Annotated(Some(u), meta) => Annotated(Some(Value::String(u.to_text())), meta),
            Annotated(None, meta) => Annotated(None, meta),
        }
    }

    fn skip_serialization(&self) -> (r: bool) {
        false
    }

    fn serialize_payload(&self, out: &mut String) {
        let text = self.to_text();
        write_string(text.as_str(), out)
    }
}

} // verus!
