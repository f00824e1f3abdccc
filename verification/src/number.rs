//! Decimal integer parsing with the rules of Rust's `FromStr` for integers:
//! an optional sign, then one or more ASCII digits, nothing else, and a value
//! that fits the target type. Unsigned targets accept only `+` as a sign.
use vstd::prelude::*;

verus! {

pub open spec fn is_digit(c: char) -> bool {
    '0' <= c <= '9'
}

pub open spec fn digit_value(c: char) -> nat {
    ((c as u32) - ('0' as u32)) as nat
}

pub open spec fn all_digits(s: Seq<char>) -> bool {
    forall|i: int| 0 <= i < s.len() ==> is_digit(#[trigger] s[i])
}

/// The number that a run of decimal digits denotes.
pub open spec fn digits_value(s: Seq<char>) -> nat
    decreases s.len(),
{
    if s.len() == 0 {
        0
    } else {
        digits_value(s.drop_last()) * 10 + digit_value(s.last())
    }
}

/// The magnitude of a decimal numeral with an optional leading `+`.
pub open spec fn unsigned_numeral(s: Seq<char>) -> Option<nat> {
    let body = if s.len() > 0 && s[0] == '+' {
        s.drop_first()
    } else {
        s
    };
    if body.len() > 0 && all_digits(body) {
        Some(digits_value(body))
    } else {
        None
    }
}

/// The value of a decimal numeral with an optional leading `+` or `-`.
pub open spec fn signed_numeral(s: Seq<char>) -> Option<int> {
    if s.len() > 0 && s[0] == '-' {
        let body = s.drop_first();
        if body.len() > 0 && all_digits(body) {
            Some(-(digits_value(body) as int))
        } else {
            None
        }
    } else {
        match unsigned_numeral(s) {
            Some(v) => Some(v as int),
            None => None,
        }
    }
}

/// `str::parse::<u64>`.
pub open spec fn spec_parse_u64(s: Seq<char>) -> Option<u64> {
    match unsigned_numeral(s) {
        Some(v) => if v <= u64::MAX {
            Some(v as u64)
        } else {
            None
        },
        None => None,
    }
}

/// `str::parse::<u32>`.
pub open spec fn spec_parse_u32(s: Seq<char>) -> Option<u32> {
    match unsigned_numeral(s) {
        Some(v) => if v <= u32::MAX {
            Some(v as u32)
        } else {
            None
        },
        None => None,
    }
}

/// `str::parse::<usize>`.
pub open spec fn spec_parse_usize(s: Seq<char>) -> Option<usize> {
    match unsigned_numeral(s) {
        Some(v) => if v <= usize::MAX {
            Some(v as usize)
        } else {
            None
        },
        None => None,
    }
}

/// `str::parse::<i64>`.
pub open spec fn spec_parse_i64(s: Seq<char>) -> Option<i64> {
    match signed_numeral(s) {
        Some(v) => if i64::MIN <= v <= i64::MAX {
            Some(v as i64)
        } else {
            None
        },
        None => None,
    }
}

/// Reads `s[start..]` as a run of decimal digits. Returns `None` when the run is empty
/// or holds another character, and `Some(None)` when its value exceeds `limit`.
fn read_digits(s: &[char], start: usize, limit: u64) -> (r: Option<Option<u64>>)
    requires
        start <= s@.len(),
    ensures
        ({
            let body = s@.subrange(start as int, s@.len() as int);
            match r {
                None => !(body.len() > 0 && all_digits(body)),
                Some(None) => body.len() > 0 && all_digits(body) && digits_value(body) > limit,
                Some(Some(v)) => body.len() > 0 && all_digits(body) && digits_value(body) == v
                    && v <= limit,
            }
        }),
{
    let ghost body = s@.subrange(start as int, s@.len() as int);
    if start == s.len() {
        return None;
    }
    let mut acc: u64 = 0;
    let mut over = false;
    let mut i: usize = start;
    while i < s.len()
        invariant
            start <= i <= s@.len(),
            start < s@.len(),
            body == s@.subrange(start as int, s@.len() as int),
            all_digits(body.take(i - start)),
            !over ==> acc == digits_value(body.take(i - start)) && acc <= limit,
            over ==> digits_value(body.take(i - start)) > limit,
        decreases s.len() - i,
    {
        let c = s[i];
        if !('0' <= c && c <= '9') {
            assert(body[i - start] == c);
            return None;
        }
        let ghost prev = body.take(i - start);
        let ghost next = body.take(i - start + 1);
        assert(next.drop_last() =~= prev);
        assert(next.last() == c);
        assert(all_digits(next));
        if !over {
            let d = (c as u32 - '0' as u32) as u64;
            if d > limit || acc > (limit - d) / 10 {
                over = true;
                assert(digits_value(next) == acc * 10 + d);
                if d <= limit {
                    assert(acc * 10 + d > limit) by (nonlinear_arith)
                        requires
                            acc > (limit - d) / 10,
                            d <= limit,
                    ;
                }
            } else {
                assert(acc * 10 + d <= limit) by (nonlinear_arith)
                    requires
                        acc <= (limit - d) / 10,
                        d <= limit,
                ;
                acc = acc * 10 + d;
            }
        } else {
            assert(digits_value(next) >= digits_value(prev)) by (nonlinear_arith)
                requires
                    digits_value(next) == digits_value(prev) * 10 + digit_value(c),
            ;
        }
        i = i + 1;
    }
    assert(body.take(s.len() - start) =~= body);
    if over {
        Some(None)
    } else {
        Some(Some(acc))
    }
}

/// Parses a decimal numeral into a `u64`.
pub fn parse_u64(s: &str) -> (r: Option<u64>)
    ensures
        r == spec_parse_u64(s@),
{
    let cs = crate::text::chars_of(s);
    let start: usize = if cs.len() > 0 && cs[0] == '+' {
        1
    } else {
        0
    };
    assert(cs@.subrange(start as int, cs@.len() as int) =~= (if cs@.len() > 0 && cs@[0] == '+' {
        cs@.drop_first()
    } else {
        cs@
    }));
    match read_digits(&cs, start, u64::MAX) {
        None => None,
        Some(None) => None,
        Some(Some(v)) => Some(v),
    }
}

/// Parses a decimal numeral into a `u32`.
pub fn parse_u32(s: &str) -> (r: Option<u32>)
    ensures
        r == spec_parse_u32(s@),
{
    match parse_u64(s) {
        Some(v) => if v <= u32::MAX as u64 {
            Some(v as u32)
        } else {
            None
        },
        None => None,
    }
}

/// Parses a decimal numeral into a `usize`.
pub fn parse_usize(s: &str) -> (r: Option<usize>)
    ensures
        r == spec_parse_usize(s@),
{
    match parse_u64(s) {
        Some(v) => if v <= usize::MAX as u64 {
            Some(v as usize)
        } else {
            None
        },
        None => None,
    }
}

/// Parses a decimal numeral with an optional sign into an `i64`.
pub fn parse_i64(s: &str) -> (r: Option<i64>)
    ensures
        r == spec_parse_i64(s@),
{
    let cs = crate::text::chars_of(s);
    if cs.len() > 0 && cs[0] == '-' {
        assert(cs@.subrange(1, cs@.len() as int) =~= cs@.drop_first());
        match read_digits(&cs, 1, 0x8000_0000_0000_0000u64) {
            None => None,
            Some(None) => None,
            Some(Some(v)) => {
                if v == 0x8000_0000_0000_0000u64 {
                    Some(i64::MIN)
                } else {
                    Some(-(v as i64))
                }
            },
        }
    } else {
        match parse_u64(s) {
            Some(v) => if v <= i64::MAX as u64 {
                Some(v as i64)
            } else {
                None
            },
            None => None,
        }
    }
}


/// The character of a decimal digit.
pub open spec fn digit_char(d: nat) -> char {
    ((d + 48) as u32) as char
}

/// The decimal digits of a natural number, without leading zeros.
pub open spec fn nat_digits(n: nat) -> Seq<char>
    decreases n,
{
    if n < 10 {
        seq![digit_char(n)]
    } else {
        nat_digits(n / 10).push(digit_char(n % 10))
    }
}

/// The decimal text of an integer (`Display` for integers): a `-` before negative values.
pub open spec fn spec_decimal(v: int) -> Seq<char> {
    if v < 0 {
        seq!['-'] + nat_digits((-v) as nat)
    } else {
        nat_digits(v as nat)
    }
}

proof fn lemma_digit_char(d: nat)
    requires
        d < 10,
    ensures
        is_digit(digit_char(d)),
        digit_value(digit_char(d)) == d,
        digit_char(d) != '-',
        digit_char(d) != '+',
{
    vstd::utf8::char_u32_cast(digit_char(d), (d + 48) as u32);
    assert(((d + 48) as u32) as char as u32 == (d + 48) as u32) by {
        vstd::utf8::char_is_scalar(((d + 48) as u32) as char);
    }
}

proof fn lemma_nat_digits(n: nat)
    ensures
        nat_digits(n).len() > 0,
        all_digits(nat_digits(n)),
        digits_value(nat_digits(n)) == n,
        nat_digits(n)[0] != '-',
        nat_digits(n)[0] != '+',
    decreases n,
{
    if n < 10 {
        lemma_digit_char(n);
        assert(nat_digits(n).drop_last() =~= Seq::<char>::empty());
        assert(digits_value(nat_digits(n)) == digits_value(nat_digits(n).drop_last()) * 10
            + digit_value(nat_digits(n).last()));
    } else {
        lemma_nat_digits(n / 10);
        lemma_digit_char(n % 10);
        let d = nat_digits(n);
        assert(d.drop_last() =~= nat_digits(n / 10));
        assert(d[0] == nat_digits(n / 10)[0]);
        assert(d.last() == digit_char(n % 10));
        assert(n == (n / 10) * 10 + n % 10) by (nonlinear_arith);
        assert(digits_value(d) == digits_value(d.drop_last()) * 10 + digit_value(d.last()));
        assert forall|i: int| 0 <= i < d.len() implies is_digit(#[trigger] d[i]) by {
            if i < d.len() - 1 {
                assert(d[i] == nat_digits(n / 10)[i]);
            }
        }
    }
}

/// Parsing the decimal text of an `i64` gives the number back.
pub proof fn lemma_parse_i64_of_decimal(v: i64)
    ensures
        spec_parse_i64(spec_decimal(v as int)) == Some(v),
{
    if v < 0 {
        let m = (-(v as int)) as nat;
        lemma_nat_digits(m);
        let t = spec_decimal(v as int);
        assert(t.drop_first() =~= nat_digits(m));
    } else {
        lemma_nat_digits(v as nat);
        let t = spec_decimal(v as int);
        assert(t =~= nat_digits(v as nat));
    }
}

/// Parsing the decimal text of a `u64` gives the number back.
pub proof fn lemma_parse_u64_of_decimal(v: u64)
    ensures
        spec_parse_u64(spec_decimal(v as int)) == Some(v),
{
    lemma_nat_digits(v as nat);
    assert(spec_decimal(v as int) =~= nat_digits(v as nat));
}

fn digit_to_char(d: u64) -> (c: char)
    requires
        d < 10,
    ensures
        c == digit_char(d as nat),
{
    let c = crate::text::char_from_digit(d as u32);
    c
}

/// The decimal digits of a `u64`.
fn u64_digits(n: u64) -> (v: Vec<char>)
    ensures
        v@ == nat_digits(n as nat),
    decreases n,
{
    if n < 10 {
        let mut v: Vec<char> = Vec::new();
        v.push(digit_to_char(n));
        assert(v@ =~= seq![digit_char(n as nat)]);
        v
    } else {
        let mut v = u64_digits(n / 10);
        v.push(digit_to_char(n % 10));
        v
    }
}

/// Formats an integer in decimal.
pub fn i64_to_decimal(v: i64) -> (s: String)
    ensures
        s@ == spec_decimal(v as int),
{
    if v < 0 {
        let m: u64 = if v == i64::MIN {
            0x8000_0000_0000_0000u64
        } else {
            (-v) as u64
        };
        let ds = u64_digits(m);
        let mut s = String::from_str("-");
        let tail = crate::text::string_from_chars(&ds);
        s.append(tail.as_str());
        assert(seq!['-'] =~= "-"@) by {
            reveal_strlit("-");
        }
        s
    } else {
        let ds = u64_digits(v as u64);
        crate::text::string_from_chars(&ds)
    }
}

} // verus!
