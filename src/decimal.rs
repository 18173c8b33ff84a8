//! Decimal text of integers: what std's integer parser accepts, and the
//! canonical text that the formatter writes.
use vstd::prelude::*;

verus! {

pub open spec fn is_digit(c: char) -> bool {
    '0' <= c && c <= '9'
}

/// The value of a decimal digit character.
pub open spec fn digit_value(c: char) -> nat {
    (c as u32 - '0' as u32) as nat
}

/// The character of a decimal digit `d < 10`.
pub open spec fn digit_char(d: nat) -> char {
    (('0' as u32 + d) as u8) as char
}

pub open spec fn all_digits(s: Seq<char>) -> bool {
    forall|i: int| 0 <= i < s.len() ==> is_digit(#[trigger] s[i])
}

/// The number that a run of decimal digits denotes, most significant first.
pub open spec fn digits_value(s: Seq<char>) -> nat
    decreases s.len(),
{
    if s.len() == 0 {
        0
    } else {
        digits_value(s.drop_last()) * 10 + digit_value(s.last())
    }
}

/// The value of text of the form `[+]digits`, or `None` for any other text.
pub open spec fn unsigned_text_value(s: Seq<char>) -> Option<int> {
    let d = if s.len() > 0 && s[0] == '+' {
        s.skip(1)
    } else {
        s
    };
    if d.len() > 0 && all_digits(d) {
        Some(digits_value(d) as int)
    } else {
        None
    }
}

/// The value of text of the form `[+|-]digits`, or `None` for any other text.
pub open spec fn signed_text_value(s: Seq<char>) -> Option<int> {
    if s.len() > 0 && s[0] == '-' {
        let d = s.skip(1);
        if d.len() > 0 && all_digits(d) {
            Some(-(digits_value(d) as int))
        } else {
            None
        }
    } else {
        unsigned_text_value(s)
    }
}

/// What std's parser gives for an integer type with the bounds `lo..=hi`:
/// the text's value where the text is well formed and the value is in range.
pub open spec fn int_text_in(s: Seq<char>, signed: bool, lo: int, hi: int) -> Option<int> {
    let v = if signed {
        signed_text_value(s)
    } else {
        unsigned_text_value(s)
    };
    match v {
        Some(x) => if lo <= x && x <= hi {
            Some(x)
        } else {
            None
        },
        None => None,
    }
}

/// The shortest decimal digits of `n`, without sign or leading zeros.
pub open spec fn decimal_digits(n: nat) -> Seq<char>
    decreases n,
{
    if n < 10 {
        seq![digit_char(n)]
    } else {
        decimal_digits(n / 10).push(digit_char(n % 10))
    }
}

/// The canonical decimal text of `v`: a `-` for negative values, then its digits.
pub open spec fn decimal_text(v: int) -> Seq<char> {
    if v < 0 {
        seq!['-'] + decimal_digits((-v) as nat)
    } else {
        decimal_digits(v as nat)
    }
}

pub proof fn lemma_decimal_digits(n: nat)
    ensures
        decimal_digits(n).len() > 0,
        all_digits(decimal_digits(n)),
        digits_value(decimal_digits(n)) == n,
    decreases n,
{
    if n >= 10 {
        lemma_decimal_digits(n / 10);
        let s = decimal_digits(n);
        assert(s.drop_last() =~= decimal_digits(n / 10));
        assert(digit_value(digit_char(n % 10)) == n % 10);
        assert(n == (n / 10) * 10 + n % 10);
        assert(s.last() == digit_char(n % 10));
        assert(digits_value(s) == digits_value(s.drop_last()) * 10 + digit_value(s.last()));
    } else {
        let s = decimal_digits(n);
        assert(s.drop_last() =~= Seq::<char>::empty());
        assert(digits_value(s.drop_last()) == 0);
        assert(digit_value(digit_char(n)) == n);
        assert(digits_value(s) == digits_value(s.drop_last()) * 10 + digit_value(s.last()));
    }
}

/// Parsing the canonical text of a value gives the value back.
pub proof fn lemma_decimal_text_value(v: int)
    ensures
        signed_text_value(decimal_text(v)) == Some(v),
        v >= 0 ==> unsigned_text_value(decimal_text(v)) == Some(v),
{
    let s = decimal_text(v);
    if v < 0 {
        lemma_decimal_digits((-v) as nat);
        assert(s.skip(1) =~= decimal_digits((-v) as nat));
    } else {
        lemma_decimal_digits(v as nat);
        assert(is_digit(s[0]));
    }
}

/// The one-character text of a decimal digit.
fn digit_str(d: u64) -> (r: &'static str)
    requires
        d < 10,
    ensures
        r@ == seq![digit_char(d as nat)],
{
    let r = if d == 0 {
        "0"
    } else if d == 1 {
        "1"
    } else if d == 2 {
        "2"
    } else if d == 3 {
        "3"
    } else if d == 4 {
        "4"
    } else if d == 5 {
        "5"
    } else if d == 6 {
        "6"
    } else if d == 7 {
        "7"
    } else if d == 8 {
        "8"
    } else {
        "9"
    };
    proof {
        reveal_strlit("0");
        reveal_strlit("1");
        reveal_strlit("2");
        reveal_strlit("3");
        reveal_strlit("4");
        reveal_strlit("5");
        reveal_strlit("6");
        reveal_strlit("7");
        reveal_strlit("8");
        reveal_strlit("9");
    }
    assert(r@ =~= seq![digit_char(d as nat)]);
    r
}

/// Writes `n` in decimal.
pub fn format_unsigned(n: u64) -> (r: String)
    ensures
        r@ == decimal_digits(n as nat),
{
    let mut m: u64 = n;
    let mut acc = String::new();
    while m >= 10
        invariant
            decimal_digits(n as nat) == decimal_digits(m as nat) + acc@,
        decreases m,
    {
        let mut t = String::from_str(digit_str(m % 10));
        t.append(acc.as_str());
        assert(decimal_digits(m as nat) =~= decimal_digits((m / 10) as nat) + t@.take(1));
        assert(decimal_digits(m as nat) + acc@ =~= decimal_digits((m / 10) as nat) + t@);
        acc = t;
        m = m / 10;
    }
    let mut r = String::from_str(digit_str(m));
    r.append(acc.as_str());
    assert(r@ =~= decimal_digits(n as nat));
    r
}

/// Writes `v` in decimal, with a leading `-` where it is negative.
pub fn format_signed(v: i64) -> (r: String)
    ensures
        r@ == decimal_text(v as int),
{
    if v < 0 {
        let m: u64 = ((-(v + 1)) as u64) + 1;
        let mut r = String::from_str("-");
        r.append(format_unsigned(m).as_str());
        proof {
            reveal_strlit("-");
        }
        assert(r@ =~= decimal_text(v as int));
        r
    } else {
        format_unsigned(v as u64)
    }
}

/// The message of the error that std's `FromStr` for `i32` gives on the text `s`.
pub uninterp spec fn i32_parse_message(s: Seq<char>) -> Seq<char>;

/// Relies on std's `FromStr` for `i32` (`i32::from_str_radix` in base 10):
/// an optional `+` or `-`, then ASCII digits only, in range, else an error
/// whose message depends on the text alone.
#[verifier::external_body]
pub(crate) fn parse_i32(s: &str) -> (r: Result<i32, String>)
    ensures
        match r {
            Ok(v) => int_text_in(s@, true, i32::MIN as int, i32::MAX as int) == Some(v as int),
            Err(m) => int_text_in(s@, true, i32::MIN as int, i32::MAX as int) is None && m@
                == i32_parse_message(s@),
        },
{
    s.parse::<i32>().map_err(|e| e.to_string())
}

/// The message of the error that std's `FromStr` for `i64` gives on the text `s`.
pub uninterp spec fn i64_parse_message(s: Seq<char>) -> Seq<char>;

/// Relies on std's `FromStr` for `i64` (`i64::from_str_radix` in base 10):
/// an optional `+` or `-`, then ASCII digits only, in range, else an error
/// whose message depends on the text alone.
#[verifier::external_body]
pub(crate) fn parse_i64(s: &str) -> (r: Result<i64, String>)
    ensures
        match r {
            Ok(v) => int_text_in(s@, true, i64::MIN as int, i64::MAX as int) == Some(v as int),
            Err(m) => int_text_in(s@, true, i64::MIN as int, i64::MAX as int) is None && m@
                == i64_parse_message(s@),
        },
{
    s.parse::<i64>().map_err(|e| e.to_string())
}

/// The message of the error that std's `FromStr` for `u32` gives on the text `s`.
pub uninterp spec fn u32_parse_message(s: Seq<char>) -> Seq<char>;

/// Relies on std's `FromStr` for `u32` (`u32::from_str_radix` in base 10):
/// an optional `+`, then ASCII digits only, in range, else an error whose
/// message depends on the text alone.
#[verifier::external_body]
pub(crate) fn parse_u32(s: &str) -> (r: Result<u32, String>)
    ensures
        match r {
            Ok(v) => int_text_in(s@, false, 0, u32::MAX as int) == Some(v as int),
            Err(m) => int_text_in(s@, false, 0, u32::MAX as int) is None && m@
                == u32_parse_message(s@),
        },
{
    s.parse::<u32>().map_err(|e| e.to_string())
}

/// The message of the error that std's `FromStr` for `u64` gives on the text `s`.
pub uninterp spec fn u64_parse_message(s: Seq<char>) -> Seq<char>;

/// Relies on std's `FromStr` for `u64` (`u64::from_str_radix` in base 10):
/// an optional `+`, then ASCII digits only, in range, else an error whose
/// message depends on the text alone.
#[verifier::external_body]
pub(crate) fn parse_u64(s: &str) -> (r: Result<u64, String>)
    ensures
        match r {
            Ok(v) => int_text_in(s@, false, 0, u64::MAX as int) == Some(v as int),
            Err(m) => int_text_in(s@, false, 0, u64::MAX as int) is None && m@
                == u64_parse_message(s@),
        },
{
    s.parse::<u64>().map_err(|e| e.to_string())
}

} // verus!
