use vstd::prelude::*;
use vstd::string::StringExecFns;

verus! {

/// A number with a fractional part, held at microsecond resolution: `units + micros / 1e6`.
#[derive(Clone, Copy, Debug, PartialEq, Eq)]
pub struct FloatValue {
    units: i64,
    micros: u32,
}

impl FloatValue {
    #[verifier::type_invariant]
    spec fn inv(&self) -> bool {
        self.micros < 1_000_000
    }

    /// The whole part, rounded toward negative infinity.
    pub closed spec fn units_spec(&self) -> i64 {
        self.units
    }

    /// The millionths above the whole part; below one million.
    pub closed spec fn micros_spec(&self) -> u32 {
        self.micros
    }

    /// The integer part, rounded toward zero.
    pub open spec fn trunc_spec(&self) -> int {
        if self.units_spec() < 0 && self.micros_spec() > 0 {
            self.units_spec() + 1
        } else {
            self.units_spec() as int
        }
    }

    /// The number `units + micros / 1e6`; `None` where `micros` is a million or more.
    pub fn new(units: i64, micros: u32) -> (r: Option<FloatValue>)
        ensures
            r is Some <==> micros < 1_000_000,
            r is Some ==> r->0.units_spec() == units && r->0.micros_spec() == micros,
    {
        if micros < 1_000_000 {
            Some(FloatValue { units, micros })
        } else {
            None
        }
    }

    /// A whole number.
    pub fn from_units(units: i64) -> (r: FloatValue)
        ensures
            r.units_spec() == units,
            r.micros_spec() == 0,
    {
        FloatValue { units, micros: 0 }
    }

    pub fn units(&self) -> (r: i64)
        ensures
            r == self.units_spec(),
    {
        self.units
    }

    pub fn micros(&self) -> (r: u32)
        ensures
            r == self.micros_spec(),
            r < 1_000_000,
    {
        proof {
            use_type_invariant(self);
        }
        self.micros
    }

    /// The integer part, rounded toward zero.
    pub fn trunc(&self) -> (r: i64)
        ensures
            r == self.trunc_spec(),
    {
        if self.units < 0 && self.micros > 0 {
            self.units + 1
        } else {
            self.units
        }
    }
}

/// A JSON-shaped value whose nodes each carry metadata.
#[derive(Debug, PartialEq)]
pub enum Value {
    Null,
    Bool(bool),
    U64(u64),
    I64(i64),
    F64(FloatValue),
    String(String),
    Array(Vec<Annotated<Value>>),
    /// Entries in insertion order.
    Object(Vec<(String, Annotated<Value>)>),
}

/// An error recorded on a value, with the value as it was received.
#[derive(Debug, PartialEq)]
pub struct MetaError {
    pub message: String,
    pub original_value: Option<Value>,
}

/// Diagnostics attached to a value.
#[derive(Debug, PartialEq)]
pub struct Meta {
    /// Errors, in the order they were recorded.
    pub errors: Vec<MetaError>,
    pub remarks: Vec<String>,
    /// The length of a string before it was truncated.
    pub original_length: Option<u64>,
}

/// A value that may be absent, with its metadata.
#[derive(Debug, PartialEq)]
pub struct Annotated<T>(pub Option<T>, pub Meta);

/// `new` is `old` with one more error, `message` with `original`, at the end.
pub open spec fn error_appended(old: Meta, new: Meta, message: Seq<char>, original: Option<Value>) -> bool {
    &&& new.errors@.len() == old.errors@.len() + 1
    &&& new.errors@.drop_last() == old.errors@
    &&& new.errors@.last().message@ == message
    &&& new.errors@.last().original_value == original
    &&& new.remarks == old.remarks
    &&& new.original_length == old.original_length
}

impl Meta {
    pub open spec fn is_empty_spec(&self) -> bool {
        &&& self.errors@.len() == 0
        &&& self.remarks@.len() == 0
        &&& self.original_length is None
    }

    /// Metadata without errors, remarks or original length.
    pub fn new() -> (r: Meta)
        ensures
            r.is_empty_spec(),
    {
        Meta { errors: Vec::new(), remarks: Vec::new(), original_length: None }
    }

    /// Whether there is nothing in it.
    pub fn is_empty(&self) -> (r: bool)
        ensures
            r == self.is_empty_spec(),
    {
        self.errors.len() == 0 && self.remarks.len() == 0 && self.original_length.is_none()
    }

    /// Records an error.
    pub fn add_error(&mut self, message: String, original_value: Option<Value>)
        ensures
            error_appended(*old(self), *final(self), message@, original_value),
    {
        self.errors.push(MetaError { message, original_value });
        assert(self.errors@.drop_last() =~= old(self).errors@);
    }

    /// Records that `value` was not the `expectation` that was asked for: the message is
    /// `expected <expectation>`.
    pub fn add_unexpected_value_error(&mut self, expectation: &str, value: Value)
        ensures
            error_appended(*old(self), *final(self), "expected "@ + expectation@, Some(value)),
    {
        let message = String::from_str("expected ").concat(expectation);
        proof {
            reveal_strlit("expected ");
        }
        self.add_error(message, Some(value));
    }
}

impl<T> Annotated<T> {
    /// A present value with empty metadata.
    pub fn new(value: T) -> (r: Annotated<T>)
        ensures
            r.0 == Some(value),
            r.1.is_empty_spec(),
    {
        Annotated(Some(value), Meta::new())
    }

    /// An absent value with empty metadata.
    pub fn empty() -> (r: Annotated<T>)
        ensures
            r.0 is None,
            r.1.is_empty_spec(),
    {
        Annotated(None, Meta::new())
    }

    /// An absent value whose metadata holds one error.
    pub fn from_error(message: &str, original_value: Option<Value>) -> (r: Annotated<T>)
        ensures
            r.0 is None,
            r.1.errors@.len() == 1,
            r.1.errors@[0].message@ == message@,
            r.1.errors@[0].original_value == original_value,
            r.1.remarks@.len() == 0,
            r.1.original_length is None,
    {
        let mut meta = Meta::new();
        meta.add_error(String::from_str(message), original_value);
        Annotated(None, meta)
    }

    /// The value, if present.
    pub fn value(&self) -> (r: Option<&T>)
        ensures
            r == match self.0 {
                Some(ref v) => Some(v),
                None => None::<&T>,
            },
    {
        match &self.0 {
            Some(v) => Some(v),
            None => None,
        }
    }

    /// The metadata.
    pub fn meta(&self) -> (r: &Meta)
        ensures
            *r == self.1,
    {
        &self.1
    }
}


} // verus!
