use vstd::prelude::*;
use vstd::string::StringExecFns;

use crate::text::push_char;
use crate::value::{Annotated, FloatValue, Value};

verus! {

/// The character of a decimal digit.
pub open spec fn digit_char(d: nat) -> char {
    ((d % 10) + '0' as nat) as char
}

/// The decimal digits of `n`, most significant first, without leading zeros.
pub open spec fn decimal(n: nat) -> Seq<char>
    decreases n,
{
    if n < 10 {
        seq![digit_char(n)]
    } else {
        decimal(n / 10).push(digit_char(n % 10))
    }
}

/// A signed integer as JSON writes it.
pub open spec fn signed_decimal(n: int) -> Seq<char> {
    if n < 0 {
        seq!['-'] + decimal((-n) as nat)
    } else {
        decimal(n as nat)
    }
}

/// The hex digit of a number below 16.
pub open spec fn hex_char(d: nat) -> char {
    if d < 10 {
        ((d + '0' as nat) as char)
    } else {
        (((d - 10) + 'a' as nat) as char)
    }
}

/// How one character is written inside a JSON string.
pub open spec fn escape_char(c: char) -> Seq<char> {
    if c == '"' {
        seq!['\\', '"']
    } else if c == '\\' {
        seq!['\\', '\\']
    } else if c == '\n' {
        seq!['\\', 'n']
    } else if c == '\r' {
        seq!['\\', 'r']
    } else if c == '\t' {
        seq!['\\', 't']
    } else if c == '\x08' {
        seq!['\\', 'b']
    } else if c == '\x0c' {
        seq!['\\', 'f']
    } else if (c as nat) < 0x20 {
        seq!['\\', 'u', '0', '0', hex_char((c as nat) / 16), hex_char((c as nat) % 16)]
    } else {
        seq![c]
    }
}

/// The characters of `s` escaped for a JSON string.
pub open spec fn escape(s: Seq<char>) -> Seq<char>
    decreases s.len(),
{
    if s.len() == 0 {
        Seq::empty()
    } else {
        escape(s.drop_last()) + escape_char(s.last())
    }
}

/// `s` as a JSON string literal.
pub open spec fn json_string(s: Seq<char>) -> Seq<char> {
    seq!['"'] + escape(s) + seq!['"']
}

/// The six digits of a number of microseconds.
pub open spec fn six_digits(m: nat) -> Seq<char> {
    seq![
        digit_char(m / 100000),
        digit_char(m / 10000),
        digit_char(m / 1000),
        digit_char(m / 100),
        digit_char(m / 10),
        digit_char(m),
    ]
}

/// `s` without trailing zeros, keeping at least one character.
pub open spec fn strip_zeros(s: Seq<char>) -> Seq<char>
    decreases s.len(),
{
    if s.len() > 1 && s.last() == '0' {
        strip_zeros(s.drop_last())
    } else {
        s
    }
}

/// A fractional number as JSON writes it: the integer part, a point, and the fractional
/// digits without trailing zeros (at least one).
pub open spec fn float_json(f: FloatValue) -> Seq<char> {
    float_text(f.units_spec() as int, f.micros_spec() as nat)
}

/// The text of `units + micros / 1e6`, for `micros` below a million.
pub open spec fn float_text(units: int, micros: nat) -> Seq<char> {
    if units < 0 && micros > 0 {
        seq!['-'] + decimal((-(units + 1)) as nat) + seq!['.'] + strip_zeros(
            six_digits((1_000_000 - micros) as nat),
        )
    } else {
        signed_decimal(units) + seq!['.'] + strip_zeros(six_digits(micros))
    }
}

/// Writes the decimal digits of `n`.
pub fn write_decimal(n: u64, out: &mut String)
    ensures
        final(out)@ == old(out)@ + decimal(n as nat),
    decreases n,
{
    if n >= 10 {
        write_decimal(n / 10, out);
    }
    push_char(out, ((n % 10) as u8 + 48u8) as char);
    assert(((n % 10) as u8 + 48u8) as char == digit_char((n % 10) as nat));
    assert(out@ =~= old(out)@ + decimal(n as nat));
}

/// The JSON text of a value, with absent children written as `null`.
pub open spec fn value_json(v: Value) -> Seq<char>
    decreases v,
{
    match v {
        Value::Null => "null"@,
        Value::Bool(b) => if b { "true"@ } else { "false"@ },
        Value::U64(n) => decimal(n as nat),
        Value::I64(n) => signed_decimal(n as int),
        Value::F64(f) => float_json(f),
        Value::String(s) => json_string(s@),
        Value::Array(items) => seq!['['] + items_json(items@) + seq![']'],
        Value::Object(entries) => seq!['{'] + entries_json(entries@) + seq!['}'],
    }
}

/// The JSON text of an annotated value: `null` where it is absent.
pub open spec fn annotated_value_json(a: Annotated<Value>) -> Seq<char>
    decreases a,
{
    match a.0 {
        None => "null"@,
        Some(v) => value_json(v),
    }
}

/// Array elements, separated by commas.
pub open spec fn items_json(items: Seq<Annotated<Value>>) -> Seq<char>
    decreases items,
{
    if items.len() == 0 {
        Seq::empty()
    } else if items.len() == 1 {
        annotated_value_json(items[0])
    } else {
        items_json(items.drop_last()) + seq![','] + annotated_value_json(items.last())
    }
}

/// Object entries `"key":value`, separated by commas.
pub open spec fn entries_json(entries: Seq<(String, Annotated<Value>)>) -> Seq<char>
    decreases entries,
{
    if entries.len() == 0 {
        Seq::empty()
    } else {
        let e = entries.last();
        let one = json_string(e.0@) + seq![':'] + annotated_value_json(e.1);
        if entries.len() == 1 {
            one
        } else {
            entries_json(entries.drop_last()) + seq![','] + one
        }
    }
}

/// Writes a signed integer.
pub fn write_signed(n: i64, out: &mut String)
    ensures
        final(out)@ == old(out)@ + signed_decimal(n as int),
{
    if n < 0 {
        push_char(out, '-');
        let magnitude: u64 = if n == i64::MIN {
            9_223_372_036_854_775_808u64
        } else {
            (-n) as u64
        };
        write_decimal(magnitude, out);
        assert(out@ =~= old(out)@ + signed_decimal(n as int));
    } else {
        write_decimal(n as u64, out);
    }
}

fn digit_of(d: u32) -> (r: char)
    requires
        d < 10,
    ensures
        r == digit_char(d as nat),
{
    ((d as u8) + 48u8) as char
}

fn hex_of(d: u32) -> (r: char)
    requires
        d < 16,
    ensures
        r == hex_char(d as nat),
{
    if d < 10 {
        ((d as u8) + 48u8) as char
    } else {
        ((d as u8) - 10 + 97u8) as char
    }
}

/// Writes the fractional digits of a number of microseconds, without trailing zeros.
fn write_fraction(m: u32, out: &mut String)
    requires
        m < 1_000_000,
    ensures
        final(out)@ == old(out)@ + strip_zeros(six_digits(m as nat)),
{
    let mut digits: Vec<char> = Vec::new();
    digits.push(digit_of(m / 100000 % 10));
    digits.push(digit_of(m / 10000 % 10));
    digits.push(digit_of(m / 1000 % 10));
    digits.push(digit_of(m / 100 % 10));
    digits.push(digit_of(m / 10 % 10));
    digits.push(digit_of(m % 10));
    let ghost six = six_digits(m as nat);
    assert(digits@ =~= six);
    let mut k: usize = 6;
    assert(digits@.subrange(0, 6) =~= six);
    while k > 1 && digits[k - 1] == '0'
        invariant
            1 <= k <= 6,
            digits@ == six,
            six.len() == 6,
            strip_zeros(digits@.subrange(0, k as int)) == strip_zeros(six),
        decreases k,
    {
        assert(digits@.subrange(0, k as int).drop_last() =~= digits@.subrange(0, k - 1));
        k -= 1;
    }
    assert(strip_zeros(digits@.subrange(0, k as int)) == digits@.subrange(0, k as int));
    let mut i: usize = 0;
    while i < k
        invariant
            i <= k <= 6,
            digits@.len() == 6,
            out@ == old(out)@ + digits@.subrange(0, i as int),
        decreases k - i,
    {
        push_char(out, digits[i]);
        i += 1;
        assert(out@ =~= old(out)@ + digits@.subrange(0, i as int));
    }
}

/// Writes a fractional number.
pub fn write_float(f: &FloatValue, out: &mut String)
    ensures
        final(out)@ == old(out)@ + float_json(*f),
{
    let units = f.units();
    let micros = f.micros();
    if units < 0 && micros > 0 {
        push_char(out, '-');
        write_decimal((-(units + 1)) as u64, out);
        push_char(out, '.');
        write_fraction(1_000_000 - micros, out);
    } else {
        write_signed(units, out);
        push_char(out, '.');
        write_fraction(micros, out);
    }
    assert(out@ =~= old(out)@ + float_json(*f));
}

/// Writes one character escaped for a JSON string.
fn write_escaped_char(c: char, out: &mut String)
    ensures
        final(out)@ == old(out)@ + escape_char(c),
{
    if c == '"' {
        push_char(out, '\\');
        push_char(out, '"');
    } else if c == '\\' {
        push_char(out, '\\');
        push_char(out, '\\');
    } else if c == '\n' {
        push_char(out, '\\');
        push_char(out, 'n');
    } else if c == '\r' {
        push_char(out, '\\');
        push_char(out, 'r');
    } else if c == '\t' {
        push_char(out, '\\');
        push_char(out, 't');
    } else if c == '\x08' {
        push_char(out, '\\');
        push_char(out, 'b');
    } else if c == '\x0c' {
        push_char(out, '\\');
        push_char(out, 'f');
    } else if (c as u32) < 0x20 {
        push_char(out, '\\');
        push_char(out, 'u');
        push_char(out, '0');
        push_char(out, '0');
        push_char(out, hex_of((c as u32) / 16));
        push_char(out, hex_of((c as u32) % 16));
    } else {
        push_char(out, c);
    }
    assert(out@ =~= old(out)@ + escape_char(c));
}

/// Writes `s` as a JSON string literal.
pub fn write_string(s: &str, out: &mut String)
    ensures
        final(out)@ == old(out)@ + json_string(s@),
{
    let chars = crate::text::chars_of(s);
    push_char(out, '"');
    let ghost start = out@;
    let mut i: usize = 0;
    while i < chars.len()
        invariant
            i <= chars@.len(),
            chars@ == s@,
            start == old(out)@ + seq!['"'],
            out@ == start + escape(chars@.subrange(0, i as int)),
        decreases chars@.len() - i,
    {
        assert(chars@.subrange(0, i + 1).drop_last() =~= chars@.subrange(0, i as int));
        write_escaped_char(chars[i], out);
        i += 1;
        assert(out@ =~= start + escape(chars@.subrange(0, i as int)));
    }
    assert(chars@.subrange(0, i as int) =~= s@);
    push_char(out, '"');
    assert(out@ =~= old(out)@ + json_string(s@));
}

/// Writes a value as JSON.
pub fn write_value(v: &Value, out: &mut String)
    ensures
        final(out)@ == old(out)@ + value_json(*v),
    decreases v,
{
    match v {
        Value::Null => {
            out.append("null");
            proof { reveal_strlit("null"); }
        },
        Value::Bool(b) => {
            if *b {
                out.append("true");
                proof { reveal_strlit("true"); }
            } else {
                out.append("false");
                proof { reveal_strlit("false"); }
            }
        },
        Value::U64(n) => write_decimal(*n, out),
        Value::I64(n) => write_signed(*n, out),
        Value::F64(f) => write_float(f, out),
        Value::String(s) => write_string(s.as_str(), out),
        Value::Array(items) => {
            push_char(out, '[');
            write_items(items, out);
            push_char(out, ']');
            assert(out@ =~= old(out)@ + value_json(*v));
        },
        Value::Object(entries) => {
            push_char(out, '{');
            write_entries(entries, out);
            push_char(out, '}');
            assert(out@ =~= old(out)@ + value_json(*v));
        },
    }
}

/// Writes an annotated value as JSON: `null` where it is absent.
pub fn write_annotated_value(a: &Annotated<Value>, out: &mut String)
    ensures
        final(out)@ == old(out)@ + annotated_value_json(*a),
    decreases a,
{
    match &a.0 {
        None => {
            out.append("null");
            proof { reveal_strlit("null"); }
        },
        Some(v) => write_value(v, out),
    }
}

fn write_items(items: &Vec<Annotated<Value>>, out: &mut String)
    ensures
        final(out)@ == old(out)@ + items_json(items@),
    decreases items,
{
    let mut i: usize = 0;
    while i < items.len()
        invariant
            i <= items@.len(),
            out@ == old(out)@ + items_json(items@.subrange(0, i as int)),
        decreases items@.len() - i,
    {
        let ghost before = out@;
        assert(items@.subrange(0, i + 1).drop_last() =~= items@.subrange(0, i as int));
        if i > 0 {
            push_char(out, ',');
        }
        proof {
            vstd::std_specs::vec::axiom_vec_index_decreases(*items, i as int);
        }
        write_annotated_value(&items[i], out);
        i += 1;
        proof {
            if i == 1 {
                assert(out@ =~= old(out)@ + items_json(items@.subrange(0, i as int)));
            } else {
                assert(out@ =~= old(out)@ + items_json(items@.subrange(0, i as int)));
            }
        }
    }
    assert(items@.subrange(0, i as int) =~= items@);
}

fn write_entries(entries: &Vec<(String, Annotated<Value>)>, out: &mut String)
    ensures
        final(out)@ == old(out)@ + entries_json(entries@),
    decreases entries,
{
    let mut i: usize = 0;
    while i < entries.len()
        invariant
            i <= entries@.len(),
            out@ == old(out)@ + entries_json(entries@.subrange(0, i as int)),
        decreases entries@.len() - i,
    {
        assert(entries@.subrange(0, i + 1).drop_last() =~= entries@.subrange(0, i as int));
        if i > 0 {
            push_char(out, ',');
        }
        write_string(entries[i].0.as_str(), out);
        push_char(out, ':');
        proof {
            vstd::std_specs::vec::axiom_vec_index_decreases(*entries, i as int);
        }
        write_annotated_value(&entries[i].1, out);
        i += 1;
        assert(out@ =~= old(out)@ + entries_json(entries@.subrange(0, i as int)));
    }
    assert(entries@.subrange(0, i as int) =~= entries@);
}

} // verus!
