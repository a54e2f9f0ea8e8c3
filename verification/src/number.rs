//! Decimal text of numbers and booleans, both ways.

use vstd::prelude::*;

use crate::text::is_digit;

verus! {

/// The character of a decimal digit `d < 10`.
pub open spec fn digit_char(d: nat) -> char {
    (('0' as int) + d) as char
}

/// The value of a decimal digit character.
pub open spec fn digit_value(c: char) -> nat {
    ((c as int) - ('0' as int)) as nat
}

/// The decimal text of `n`, without sign or leading zeros (as `Display` writes it).
pub open spec fn decimal(n: nat) -> Seq<char>
    decreases n,
{
    if n < 10 {
        seq![digit_char(n)]
    } else {
        decimal(n / 10).push(digit_char(n % 10))
    }
}

/// The decimal text of a signed number.
pub open spec fn signed_decimal(n: int) -> Seq<char> {
    if n < 0 {
        seq!['-'] + decimal((-n) as nat)
    } else {
        decimal(n as nat)
    }
}

/// The value of a sequence of decimal digits.
pub open spec fn digits_value(d: Seq<char>) -> nat
    decreases d.len(),
{
    if d.len() == 0 {
        0
    } else {
        digits_value(d.drop_last()) * 10 + digit_value(d.last())
    }
}

/// Every character of `d` is a decimal digit.
pub open spec fn all_digits(d: Seq<char>) -> bool {
    forall|i: int| 0 <= i < d.len() ==> is_digit(#[trigger] d[i])
}

/// What `str::parse` reads as an unsigned integer, before the range check:
/// an optional `+`, then one or more decimal digits.
pub open spec fn parse_decimal(s: Seq<char>) -> Option<nat> {
    let d = if s.len() > 0 && s[0] == '+' {
        s.drop_first()
    } else {
        s
    };
    if d.len() > 0 && all_digits(d) {
        Some(digits_value(d))
    } else {
        None
    }
}

/// What `str::parse::<bool>` reads.
pub open spec fn parse_bool_spec(s: Seq<char>) -> Option<bool> {
    if s == seq!['t', 'r', 'u', 'e'] {
        Some(true)
    } else if s == seq!['f', 'a', 'l', 's', 'e'] {
        Some(false)
    } else {
        None
    }
}

/// The text `Display` gives a boolean.
pub open spec fn bool_text(b: bool) -> Seq<char> {
    if b {
        seq!['t', 'r', 'u', 'e']
    } else {
        seq!['f', 'a', 'l', 's', 'e']
    }
}

proof fn digits_value_grows(d: Seq<char>, k: int)
    requires
        0 <= k <= d.len(),
    ensures
        digits_value(d) >= digits_value(d.subrange(0, k)),
    decreases d.len(),
{
    if k < d.len() {
        assert(d.drop_last() =~= d.subrange(0, d.len() - 1));
        assert(d.drop_last().subrange(0, k) =~= d.subrange(0, k));
        digits_value_grows(d.drop_last(), k);
    } else {
        assert(d.subrange(0, k) =~= d);
    }
}

/// The decimal value of `s` as `str::parse::<u64>` gives it: `None` where
/// the text is not an optional `+` and decimal digits, or the value does not
/// fit in a `u64`.
pub fn parse_u64(s: &Vec<char>) -> (r: Option<u64>)
    ensures
        r matches Some(v) ==> parse_decimal(s@) == Some(v as nat),
        r is None ==> (parse_decimal(s@) is None || parse_decimal(s@).unwrap() > u64::MAX),
{
    let start: usize = if s.len() > 0 && s[0] == '+' {
        1
    } else {
        0
    };
    let ghost d = if s@.len() > 0 && s@[0] == '+' {
        s@.drop_first()
    } else {
        s@
    };
    assert(d =~= s@.subrange(start as int, s@.len() as int));
    if start >= s.len() {
        return None;
    }
    let mut v: u64 = 0;
    let mut i: usize = start;
    while i < s.len()
        invariant
            start <= i <= s.len(),
            d == s@.subrange(start as int, s@.len() as int),
            d == (if s@.len() > 0 && s@[0] == '+' {
                s@.drop_first()
            } else {
                s@
            }),
            d.len() > 0,
            v as nat == digits_value(d.subrange(0, i - start)),
            all_digits(d.subrange(0, i - start)),
        decreases s.len() - i,
    {
        let c = s[i];
        assert(d.subrange(0, i + 1 - start).drop_last() =~= d.subrange(0, i - start));
        assert(d[i - start] == c);
        if !('0' <= c && c <= '9') {
            assert(!all_digits(d)) by {
                assert(!is_digit(d[i - start]));
            }
            return None;
        }
        let dv: u8 = (c as u8) - ('0' as u8);
        assert(dv as nat == digit_value(c));
        if v > (u64::MAX - dv as u64) / 10 {
            proof {
                assert(v * 10 + dv > u64::MAX) by (nonlinear_arith)
                    requires
                        v > (u64::MAX - dv as u64) / 10,
                        dv < 10,
                ;
                assert(digits_value(d.subrange(0, i + 1 - start)) == v * 10 + dv);
                digits_value_grows(d, i + 1 - start);
            }
            return None;
        }
        v = v * 10 + dv as u64;
        i = i + 1;
        assert(all_digits(d.subrange(0, i - start))) by {
            assert forall|j: int| 0 <= j < i - start implies is_digit(
                #[trigger] d.subrange(0, i - start)[j],
            ) by {
                if j < i - 1 - start {
                    assert(d.subrange(0, i - start)[j] == d.subrange(0, i - 1 - start)[j]);
                }
            }
        }
    }
    assert(d.subrange(0, s.len() - start) =~= d);
    Some(v)
}

/// The decimal value of `s` as `str::parse::<u32>` gives it.
pub fn parse_u32(s: &Vec<char>) -> (r: Option<u32>)
    ensures
        r matches Some(v) ==> parse_decimal(s@) == Some(v as nat),
        r is None ==> (parse_decimal(s@) is None || parse_decimal(s@).unwrap() > u32::MAX),
{
    match parse_u64(s) {
        Some(v) => {
            if v <= u32::MAX as u64 {
                Some(v as u32)
            } else {
                None
            }
        },
        None => None,
    }
}

/// The decimal value of `s` as `str::parse::<usize>` gives it.
pub fn parse_usize(s: &Vec<char>) -> (r: Option<usize>)
    ensures
        r matches Some(v) ==> parse_decimal(s@) == Some(v as nat),
        r is None ==> (parse_decimal(s@) is None || parse_decimal(s@).unwrap() > usize::MAX),
{
    match parse_u64(s) {
        Some(v) => {
            if v <= usize::MAX as u64 {
                Some(v as usize)
            } else {
                None
            }
        },
        None => None,
    }
}

/// What `str::parse::<bool>` reads from `s`.
pub fn parse_bool(s: &Vec<char>) -> (r: Option<bool>)
    ensures
        r == parse_bool_spec(s@),
{
    if s.len() == 4 && s[0] == 't' && s[1] == 'r' && s[2] == 'u' && s[3] == 'e' {
        assert(s@ =~= seq!['t', 'r', 'u', 'e']);
        Some(true)
    } else if s.len() == 5 && s[0] == 'f' && s[1] == 'a' && s[2] == 'l' && s[3] == 's' && s[4]
        == 'e' {
        assert(s@ =~= seq!['f', 'a', 'l', 's', 'e']);
        Some(false)
    } else {
        assert(s@ != seq!['t', 'r', 'u', 'e'] && s@ != seq!['f', 'a', 'l', 's', 'e']) by {
            if s@ == seq!['t', 'r', 'u', 'e'] {
                assert(s@[0] == 't' && s@[1] == 'r' && s@[2] == 'u' && s@[3] == 'e');
            }
            if s@ == seq!['f', 'a', 'l', 's', 'e'] {
                assert(s@[0] == 'f' && s@[1] == 'a' && s@[2] == 'l' && s@[3] == 's' && s@[4]
                    == 'e');
            }
        }
        None
    }
}

fn digit_char_exec(d: u64) -> (c: char)
    requires
        d < 10,
    ensures
        c == digit_char(d as nat),
{
    let b: u8 = (d as u8) + 48;
    b as char
}

/// The decimal text of `n`.
pub fn decimal_chars(n: u64) -> (r: Vec<char>)
    ensures
        r@ == decimal(n as nat),
    decreases n,
{
    if n < 10 {
        let mut v: Vec<char> = Vec::new();
        v.push(digit_char_exec(n));
        assert(v@ =~= decimal(n as nat));
        v
    } else {
        let mut v = decimal_chars(n / 10);
        v.push(digit_char_exec(n % 10));
        v
    }
}

/// The decimal text of `n`, as `n.to_string()` gives it.
pub fn u64_text(n: u64) -> (s: String)
    ensures
        s@ == decimal(n as nat),
{
    let v = decimal_chars(n);
    crate::text::string_from_chars(&v)
}

/// The decimal text of a signed `n`, as `n.to_string()` gives it.
pub fn i32_text(n: i32) -> (s: String)
    ensures
        s@ == signed_decimal(n as int),
{
    if n < 0 {
        let m: u64 = (-(n as i64)) as u64;
        let mut v: Vec<char> = Vec::new();
        v.push('-');
        let d = decimal_chars(m);
        let w = crate::text::vec_concat(&v, &d);
        assert(w@ =~= signed_decimal(n as int));
        crate::text::string_from_chars(&w)
    } else {
        u64_text(n as u64)
    }
}

/// `true` or `false`, as `b.to_string()` gives it.
pub fn bool_str(b: bool) -> (s: &'static str)
    ensures
        s@ == bool_text(b),
{
    if b {
        proof {
            reveal_strlit("true");
        }
        "true"
    } else {
        proof {
            reveal_strlit("false");
        }
        "false"
    }
}

/// The decimal text of `n` is read back as `n`.
pub proof fn decimal_round_trip(n: nat)
    ensures
        all_digits(decimal(n)),
        decimal(n).len() > 0,
        digits_value(decimal(n)) == n,
    decreases n,
{
    if n >= 10 {
        decimal_round_trip(n / 10);
        let p = decimal(n / 10);
        assert(decimal(n).drop_last() =~= p);
        let k = (n % 10) as nat;
        assert(k < 10);
        assert(digit_value(digit_char(k)) == k);
        assert(decimal(n).last() == digit_char(k));
        assert(digits_value(decimal(n)) == digits_value(p) * 10 + k);
        assert((n / 10) * 10 + n % 10 == n) by (nonlinear_arith);
        assert(digits_value(p) == n / 10);
        assert(digits_value(decimal(n)) == n);
        assert forall|i: int| 0 <= i < decimal(n).len() implies is_digit(#[trigger] decimal(n)[i]) by {
            if i < p.len() {
                assert(decimal(n)[i] == p[i]);
            }
        }
    } else {
        assert(decimal(n).drop_last() =~= Seq::<char>::empty());
        assert(digit_value(digit_char(n)) == n);
        assert(digits_value(decimal(n)) == digits_value(Seq::<char>::empty()) * 10 + digit_value(digit_char(n)));
    }
}

/// A number written in decimal reads back as itself: what `Display` writes,
/// `str::parse` reads.
pub proof fn decimal_reads_back(n: nat)
    ensures
        parse_decimal(decimal(n)) == Some(n),
{
    decimal_round_trip(n);
    assert(decimal(n)[0] != '+') by {
        assert(is_digit(decimal(n)[0]));
    }
}

} // verus!
