use vstd::prelude::*;
use vstd::string::StrSliceExecFns;

verus! {

/// The pieces of `s` between occurrences of `sep`, in order; always at least one piece.
pub open spec fn split(s: Seq<char>, sep: char) -> Seq<Seq<char>>
    decreases s.len(),
{
    if s.len() == 0 {
        seq![Seq::<char>::empty()]
    } else {
        let rest = split(s.drop_first(), sep);
        if s[0] == sep {
            seq![Seq::<char>::empty()] + rest
        } else {
            rest.update(0, seq![s[0]] + rest[0])
        }
    }
}

/// The character sequences that a list of character vectors holds.
pub open spec fn views_of(v: Seq<Vec<char>>) -> Seq<Seq<char>> {
    v.map_values(|p: Vec<char>| p@)
}

/// The parts joined with `sep` between each two, in order.
pub open spec fn join(parts: Seq<Seq<char>>, sep: Seq<char>) -> Seq<char>
    decreases parts.len(),
{
    if parts.len() == 0 {
        Seq::empty()
    } else if parts.len() == 1 {
        parts[0]
    } else {
        join(parts.drop_last(), sep) + sep + parts.last()
    }
}

/// Whitespace that `trim` removes.
pub open spec fn is_space(c: char) -> bool {
    c == ' ' || c == '\t' || c == '\n' || c == '\r'
}

pub open spec fn trim_start(s: Seq<char>) -> Seq<char>
    decreases s.len(),
{
    if s.len() > 0 && is_space(s[0]) {
        trim_start(s.drop_first())
    } else {
        s
    }
}

pub open spec fn trim_end(s: Seq<char>) -> Seq<char>
    decreases s.len(),
{
    if s.len() > 0 && is_space(s.last()) {
        trim_end(s.drop_last())
    } else {
        s
    }
}

/// `s` without leading and trailing whitespace.
pub open spec fn trim(s: Seq<char>) -> Seq<char> {
    trim_end(trim_start(s))
}

pub open spec fn is_digit(c: char) -> bool {
    '0' <= c && c <= '9'
}

pub open spec fn digit_value(c: char) -> nat {
    (c as nat - '0' as nat) as nat
}

pub open spec fn all_digits(s: Seq<char>) -> bool {
    forall|i: int| 0 <= i < s.len() ==> is_digit(#[trigger] s[i])
}

/// The number that a string of decimal digits spells.
pub open spec fn digits_value(s: Seq<char>) -> nat
    decreases s.len(),
{
    if s.len() == 0 {
        0
    } else {
        digits_value(s.drop_last()) * 10 + digit_value(s.last())
    }
}

/// The unsigned integer that `s` spells: one or more decimal digits whose value fits in 64 bits.
pub open spec fn parse_u64_spec(s: Seq<char>) -> Option<u64> {
    if s.len() > 0 && all_digits(s) && digits_value(s) <= u64::MAX {
        Some(digits_value(s) as u64)
    } else {
        None
    }
}

/// Relies on String::push: appends one character.
#[verifier::external_body]
pub(crate) fn push_char(s: &mut String, c: char)
    ensures
        final(s)@ == old(s)@.push(c),
{
    s.push(c)
}

/// The characters of `s`, in order.
pub fn chars_of(s: &str) -> (r: Vec<char>)
    ensures
        r@ == s@,
{
    let n = s.unicode_len();
    let mut r: Vec<char> = Vec::new();
    let mut i: usize = 0;
    while i < n
        invariant
            n == s@.len(),
            i <= n,
            r@ == s@.subrange(0, i as int),
        decreases n - i,
    {
        r.push(s.get_char(i));
        i += 1;
        assert(r@ =~= s@.subrange(0, i as int));
    }
    assert(r@ =~= s@);
    r
}

/// A string holding the characters of `v`.
pub fn string_of(v: &Vec<char>) -> (r: String)
    ensures
        r@ == v@,
{
    let mut r = String::new();
    let mut i: usize = 0;
    while i < v.len()
        invariant
            i <= v@.len(),
            r@ == v@.subrange(0, i as int),
        decreases v@.len() - i,
    {
        push_char(&mut r, v[i]);
        i += 1;
        assert(r@ =~= v@.subrange(0, i as int));
    }
    assert(r@ =~= v@);
    r
}

/// Whether `v` holds exactly the characters of `lit`.
pub fn chars_equal(v: &Vec<char>, lit: &str) -> (r: bool)
    ensures
        r == (v@ == lit@),
{
    let n = lit.unicode_len();
    if v.len() != n {
        return false;
    }
    let mut i: usize = 0;
    while i < n
        invariant
            n == lit@.len(),
            n == v@.len(),
            i <= n,
            v@.subrange(0, i as int) == lit@.subrange(0, i as int),
        decreases n - i,
    {
        if v[i] != lit.get_char(i) {
            assert(v@[i as int] != lit@[i as int]);
            return false;
        }
        i += 1;
        assert(v@.subrange(0, i as int) =~= lit@.subrange(0, i as int));
    }
    assert(v@ =~= v@.subrange(0, n as int));
    assert(lit@ =~= lit@.subrange(0, n as int));
    true
}

pub proof fn lemma_split_nonempty(s: Seq<char>, sep: char)
    ensures
        split(s, sep).len() >= 1,
    decreases s.len(),
{
    if s.len() > 0 {
        lemma_split_nonempty(s.drop_first(), sep);
    }
}

/// Splits the characters from `from` to `to` of `s` at every `sep`.
pub fn split_chars(s: &Vec<char>, from: usize, to: usize, sep: char) -> (r: Vec<Vec<char>>)
    requires
        from <= to <= s@.len(),
    ensures
        r@.len() == split(s@.subrange(from as int, to as int), sep).len(),
        forall|k: int|
            0 <= k < r@.len() ==> #[trigger] r@[k]@ == split(s@.subrange(from as int, to as int), sep)[k],
{
    let ghost whole = s@.subrange(from as int, to as int);
    let mut out: Vec<Vec<char>> = Vec::new();
    let mut cur: Vec<char> = Vec::new();
    let mut i: usize = from;
    proof {
        lemma_split_nonempty(s@.subrange(i as int, to as int), sep);
        assert(s@.subrange(i as int, to as int) =~= whole);
        let rest = split(whole, sep);
        assert(rest.update(0, cur@ + rest[0]) =~= rest);
    }
    while i < to
        invariant
            from <= i <= to <= s@.len(),
            whole == s@.subrange(from as int, to as int),
            split(s@.subrange(i as int, to as int), sep).len() >= 1,
            views_of(out@) + split(s@.subrange(i as int, to as int), sep).update(
                0,
                cur@ + split(s@.subrange(i as int, to as int), sep)[0],
            ) == split(whole, sep),
        decreases to - i,
    {
        let ghost tail = s@.subrange(i as int, to as int);
        let ghost next = s@.subrange(i + 1, to as int);
        proof {
            assert(tail.drop_first() =~= next);
            lemma_split_nonempty(next, sep);
        }
        let c = s[i];
        if c == sep {
            let ghost old_out = views_of(out@);
            let ghost old_cur = cur@;
            out.push(cur);
            cur = Vec::new();
            proof {
                let rn = split(next, sep);
                assert(views_of(out@) =~= old_out.push(old_cur));
                assert(split(tail, sep) == seq![Seq::<char>::empty()] + rn);
                assert(split(tail, sep).update(0, old_cur + split(tail, sep)[0]) =~= seq![old_cur] + rn);
                assert(rn.update(0, cur@ + rn[0]) =~= rn);
                assert(old_out.push(old_cur) + rn =~= old_out + (seq![old_cur] + rn));
            }
        } else {
            let ghost old_cur = cur@;
            cur.push(c);
            proof {
                let rn = split(next, sep);
                assert(split(tail, sep) == rn.update(0, seq![c] + rn[0]));
                assert(old_cur + (seq![c] + rn[0]) =~= cur@ + rn[0]);
                assert(split(tail, sep).update(0, old_cur + split(tail, sep)[0]) =~= rn.update(0, cur@ + rn[0]));
            }
        }
        i += 1;
    }
    let ghost old_out = views_of(out@);
    let ghost last = cur@;
    proof {
        assert(s@.subrange(i as int, to as int) =~= Seq::<char>::empty());
        assert(split(Seq::<char>::empty(), sep).update(0, last + Seq::<char>::empty()) =~= seq![last]);
    }
    out.push(cur);
    proof {
        assert(views_of(out@) =~= old_out.push(last));
        assert(old_out.push(last) =~= old_out + seq![last]);
        assert forall|k: int| 0 <= k < out@.len() implies #[trigger] out@[k]@ == split(whole, sep)[k] by {
            assert(views_of(out@)[k] == out@[k]@);
        }
    }
    out
}

/// The bounds `(a, b)` of `s` from `from` to `to` without leading and trailing whitespace.
pub fn trim_bounds(s: &Vec<char>, from: usize, to: usize) -> (r: (usize, usize))
    requires
        from <= to <= s@.len(),
    ensures
        from <= r.0 <= r.1 <= to,
        s@.subrange(r.0 as int, r.1 as int) == trim(s@.subrange(from as int, to as int)),
{
    let ghost whole = s@.subrange(from as int, to as int);
    let mut a: usize = from;
    assert(s@.subrange(a as int, to as int) =~= whole);
    while a < to && is_space_exec(s[a])
        invariant
            from <= a <= to <= s@.len(),
            whole == s@.subrange(from as int, to as int),
            trim_start(s@.subrange(a as int, to as int)) == trim_start(whole),
        decreases to - a,
    {
        assert(s@.subrange(a as int, to as int).drop_first() =~= s@.subrange(a + 1, to as int));
        a += 1;
    }
    let ghost started = s@.subrange(a as int, to as int);
    assert(trim_start(whole) == started);
    let mut b: usize = to;
    while b > a && is_space_exec(s[b - 1])
        invariant
            from <= a <= b <= to <= s@.len(),
            started == s@.subrange(a as int, to as int),
            trim_start(whole) == started,
            trim_end(s@.subrange(a as int, b as int)) == trim_end(started),
        decreases b - a,
    {
        assert(s@.subrange(a as int, b as int).drop_last() =~= s@.subrange(a as int, b - 1));
        b -= 1;
    }
    (a, b)
}

pub fn is_space_exec(c: char) -> (r: bool)
    ensures
        r == is_space(c),
{
    c == ' ' || c == '\t' || c == '\n' || c == '\r'
}

proof fn lemma_digits_value_grows(s: Seq<char>, i: int, j: int)
    requires
        0 <= i <= j <= s.len(),
        all_digits(s),
    ensures
        digits_value(s.subrange(0, i)) <= digits_value(s.subrange(0, j)),
    decreases j - i,
{
    if i < j {
        lemma_digits_value_grows(s, i, j - 1);
        assert(s.subrange(0, j).drop_last() =~= s.subrange(0, j - 1));
    }
}

/// Parses the characters from `from` to `to` of `s` as an unsigned decimal integer.
pub fn parse_u64(s: &Vec<char>, from: usize, to: usize) -> (r: Option<u64>)
    requires
        from <= to <= s@.len(),
    ensures
        r == parse_u64_spec(s@.subrange(from as int, to as int)),
{
    let ghost t = s@.subrange(from as int, to as int);
    if from == to {
        return None;
    }
    let mut v: u64 = 0;
    let mut i: usize = from;
    while i < to
        invariant
            from <= i <= to <= s@.len(),
            t == s@.subrange(from as int, to as int),
            all_digits(t.subrange(0, i - from)),
            v == digits_value(t.subrange(0, i - from)),
        decreases to - i,
    {
        let c = s[i];
        assert(t.subrange(0, i - from + 1).drop_last() =~= t.subrange(0, i - from));
        assert(t[i - from] == c);
        if !('0' <= c && c <= '9') {
            assert(!all_digits(t));
            return None;
        }
        let d = (c as u32 - '0' as u32) as u64;
        if v > (u64::MAX - d) / 10 {
            proof {
                assert(digits_value(t.subrange(0, i - from + 1)) > u64::MAX);
                if all_digits(t) {
                    lemma_digits_value_grows(t, i - from + 1, t.len() as int);
                    assert(t.subrange(0, t.len() as int) =~= t);
                }
            }
            return None;
        }
        v = v * 10 + d;
        i += 1;
        assert forall|k: int| 0 <= k < i - from implies is_digit(#[trigger] t.subrange(0, i - from)[k]) by {
            if k < i - from - 1 {
                assert(t.subrange(0, i - from - 1)[k] == t.subrange(0, i - from)[k]);
            }
        }
    }
    assert(t.subrange(0, i - from) =~= t);
    Some(v)
}

/// Joining one more part adds the separator only after a first part.
pub proof fn lemma_join_push(parts: Seq<Seq<char>>, sep: Seq<char>, p: Seq<char>)
    ensures
        join(parts.push(p), sep) == if parts.len() == 0 {
            p
        } else {
            join(parts, sep) + sep + p
        },
{
    assert(parts.push(p).drop_last() =~= parts);
}

} // verus!
