use vstd::prelude::*;
use vstd::string::StringExecFns;

use crate::convert::{passed_absent, rejected, FromValue, ToValue};
use crate::json::{float_text, write_float};
use crate::value::{error_appended, Annotated, FloatValue, Meta, Value};

verus! {

/// A point in time in UTC: seconds since the epoch and the nanoseconds after them.
#[derive(Clone, Copy, Debug, PartialEq, Eq)]
pub struct DateTime {
    secs: i64,
    nanos: u32,
}

/// What chrono's `NaiveDateTime` parser makes of a string, read as UTC: seconds and nanoseconds.
pub uninterp spec fn naive_datetime_parsed(s: Seq<char>) -> Option<(i64, u32)>;

/// What chrono's `DateTime<Utc>` parser makes of a string: seconds and nanoseconds, or the
/// text of its error.
pub uninterp spec fn utc_datetime_parsed(s: Seq<char>) -> Result<(i64, u32), Seq<char>>;

/// Relies on chrono's `FromStr` for `NaiveDateTime` (ISO 8601 without offset), taken as UTC.
/// The nanoseconds pass a billion only within a leap second.
#[verifier::external_body]
fn parse_naive_datetime(s: &str) -> (r: Option<(i64, u32)>)
    ensures
        r == naive_datetime_parsed(s@),
        r matches Some((_, n)) ==> n < 2_000_000_000,
{
    match s.parse::<chrono::NaiveDateTime>() {
        Ok(dt) => {
            let utc = dt.and_utc();
            Some((utc.timestamp(), utc.timestamp_subsec_nanos()))
        },
        Err(_) => None,
    }
}

/// Relies on chrono's `FromStr` for `DateTime<Utc>` (RFC 3339 with an offset) and on the
/// `Display` of its `ParseError`. The nanoseconds pass a billion only within a leap second.
#[verifier::external_body]
fn parse_utc_datetime(s: &str) -> (r: Result<(i64, u32), String>)
    ensures
        match r {
            Ok(p) => utc_datetime_parsed(s@) == Ok::<(i64, u32), Seq<char>>(p) && p.1 < 2_000_000_000,
            Err(m) => utc_datetime_parsed(s@) == Err::<(i64, u32), Seq<char>>(m@),
        },
{
    match s.parse::<chrono::DateTime<chrono::Utc>>() {
        Ok(dt) => Ok((dt.timestamp(), dt.timestamp_subsec_nanos())),
        Err(e) => Err(e.to_string()),
    }
}

/// A parsed time with a leap second's extra nanoseconds carried into the next second.
pub open spec fn leap_folded(p: (i64, u32)) -> Option<(i64, u32)> {
    if p.1 < 1_000_000_000 {
        Some(p)
    } else if p.0 < i64::MAX && p.1 < 2_000_000_000 {
        Some(((p.0 + 1) as i64, (p.1 - 1_000_000_000) as u32))
    } else {
        None
    }
}

/// What the string forms parse to: the naive form first, then RFC 3339.
pub open spec fn datetime_parsed(s: Seq<char>) -> Result<(i64, u32), Seq<char>> {
    match naive_datetime_parsed(s) {
        Some(p) => Ok(p),
        None => utc_datetime_parsed(s),
    }
}

/// `r` holds the time `secs` and `nanos` with the metadata of `value`.
pub open spec fn holds_time(value: Annotated<Value>, r: Annotated<DateTime>, secs: int, nanos: int) -> bool {
    &&& r.1 == value.1
    &&& r.0 is Some
    &&& r.0->0.secs_spec() == secs
    &&& r.0->0.nanos_spec() == nanos
}

impl DateTime {
    #[verifier::type_invariant]
    spec fn inv(&self) -> bool {
        self.nanos < 1_000_000_000
    }

    pub closed spec fn secs_spec(&self) -> i64 {
        self.secs
    }

    pub closed spec fn nanos_spec(&self) -> u32 {
        self.nanos
    }

    /// The time `secs` seconds and `nanos` nanoseconds after the epoch; `None` where `nanos`
    /// is a billion or more.
    pub fn from_timestamp(secs: i64, nanos: u32) -> (r: Option<DateTime>)
        ensures
            r is Some <==> nanos < 1_000_000_000,
            r is Some ==> r->0.secs_spec() == secs && r->0.nanos_spec() == nanos,
    {
        if nanos < 1_000_000_000 {
            Some(DateTime { secs, nanos })
        } else {
            None
        }
    }

    /// Whole seconds since the epoch.
    pub fn timestamp(&self) -> (r: i64)
        ensures
            r == self.secs_spec(),
    {
        self.secs
    }

    /// Nanoseconds after the whole second; below a billion.
    pub fn subsec_nanos(&self) -> (r: u32)
        ensures
            r == self.nanos_spec(),
            r < 1_000_000_000,
    {
        proof {
            use_type_invariant(self);
        }
        self.nanos
    }

    /// Microseconds after the whole second; below a million.
    pub fn subsec_micros(&self) -> (r: u32)
        ensures
            r == self.nanos_spec() / 1000,
            r < 1_000_000,
    {
        self.subsec_nanos() / 1000
    }
}

/// The time as seconds since the epoch with microsecond resolution.
pub fn datetime_to_timestamp(dt: &DateTime) -> (r: FloatValue)
    ensures
        r.units_spec() == dt.secs_spec(),
        r.micros_spec() == dt.nanos_spec() / 1000,
{
    let micros = dt.subsec_micros();
    FloatValue::new(dt.timestamp(), micros).unwrap()
}

fn time_or_reject(secs: i64, nanos: u32, meta: Meta, original: Value) -> (r: Annotated<DateTime>)
    requires
        nanos < 2_000_000_000,
    ensures
        match leap_folded((secs, nanos)) {
            Some(q) => r.1 == meta && r.0 is Some && r.0->0.secs_spec() == q.0 && r.0->0.nanos_spec() == q.1,
            None => r.0 is None && error_appended(meta, r.1, "expected "@ + "timestamp"@, Some(original)),
        },
{
    if nanos < 1_000_000_000 {
        Annotated(DateTime::from_timestamp(secs, nanos), meta)
    } else if secs < i64::MAX {
        Annotated(DateTime::from_timestamp(secs + 1, nanos - 1_000_000_000), meta)
    } else {
        let mut meta = meta;
        meta.add_unexpected_value_error("timestamp", original);
        Annotated(None, meta)
    }
}

impl FromValue for DateTime {
    open spec fn from_value_spec(value: Annotated<Value>, r: Annotated<DateTime>) -> bool {
        match value.0 {
            None | Some(Value::Null) => passed_absent(value, r),
            Some(Value::String(s)) => match datetime_parsed(s@) {
                Ok(p) => match leap_folded(p) {
                    Some(q) => holds_time(value, r, q.0 as int, q.1 as int),
                    None => rejected(value, r, "timestamp"@),
                },
                Err(message) => r.0 is None && error_appended(value.1, r.1, message, value.0),
            },
            Some(Value::U64(ts)) => if ts <= i64::MAX {
                holds_time(value, r, ts as int, 0)
            } else {
                rejected(value, r, "timestamp"@)
            },
            Some(Value::I64(ts)) => holds_time(value, r, ts as int, 0),
            Some(Value::F64(f)) => if f.units_spec() >= 0 || f.micros_spec() == 0 {
                holds_time(value, r, f.units_spec() as int, f.micros_spec() * 1000)
            } else {
                holds_time(value, r, f.units_spec() + 1, 0)
            },
            Some(_) => rejected(value, r, "timestamp"@),
        }
    }

    fn from_value(value: Annotated<Value>) -> (r: Annotated<DateTime>) {
        match value {
            Annotated(None, meta) => Annotated(None, meta),
            Annotated(Some(Value::Null), meta) => Annotated(None, meta),
            Annotated(Some(Value::String(s)), meta) => {
                let parsed = match parse_naive_datetime(s.as_str()) {
                    Some(p) => Ok(p),
                    None => parse_utc_datetime(s.as_str()),
                };
                match parsed {
                    Ok((secs, nanos)) => time_or_reject(secs, nanos, meta, Value::String(s)),
                    Err(message) => {
                        let mut meta = meta;
                        meta.add_error(message, Some(Value::String(s)));
                        Annotated(None, meta)
                    },
                }
            },
            Annotated(Some(Value::U64(ts)), meta) => {
                if ts <= i64::MAX as u64 {
                    Annotated(DateTime::from_timestamp(ts as i64, 0), meta)
                } else {
                    let mut meta = meta;
                    meta.add_unexpected_value_error("timestamp", Value::U64(ts));
                    Annotated(None, meta)
                }
            },
            Annotated(Some(Value::I64(ts)), meta) => Annotated(DateTime::from_timestamp(ts, 0), meta),
            Annotated(Some(Value::F64(f)), meta) => {
                let units = f.units();
                let micros = f.micros();
                if units >= 0 || micros == 0 {
                    Annotated(DateTime::from_timestamp(units, micros * 1000), meta)
                } else {
                    Annotated(DateTime::from_timestamp(units + 1, 0), meta)
                }
            },
            Annotated(Some(v), meta) => {
                let mut meta = meta;
                meta.add_unexpected_value_error("timestamp", v);
                Annotated(None, meta)
            },
        }
    }
}

impl ToValue for DateTime {
    open spec fn to_value_spec(value: Annotated<DateTime>, r: Annotated<Value>) -> bool {
        &&& r.1 == value.1
        &&& match value.0 {
            None => r.0 is None,
            Some(d) => match r.0 {
                Some(Value::F64(f)) => f.units_spec() == d.secs_spec() && f.micros_spec()
                    == d.nanos_spec() / 1000,
                _ => false,
            },
        }
    }

    open spec fn skips(&self) -> bool {
        false
    }

    open spec fn payload(&self) -> Seq<char> {
        float_text(self.secs_spec() as int, (self.nanos_spec() / 1000) as nat)
    }

    fn to_value(value: Annotated<DateTime>) -> (r: Annotated<Value>) {
        match value {
            Annotated(Some(d), meta) => Annotated(Some(Value::F64(datetime_to_timestamp(&d))), meta),
            Annotated(None, meta) => Annotated(None, meta),
        }
    }

    fn skip_serialization(&self) -> (r: bool) {
        false
    }

    fn serialize_payload(&self, out: &mut String) {
        write_float(&datetime_to_timestamp(self), out)
    }
}

} // verus!
