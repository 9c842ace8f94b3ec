//! Decimal numbers as text: writing integers in base ten, and reading an
//! unsigned 64-bit integer the way `u64::from_str` reads one.

use vstd::prelude::*;

use crate::text::chars_of;

verus! {

/// The character of the decimal digit `d`.
pub open spec fn digit_char(d: int) -> char
    recommends
        0 <= d < 10,
{
    (48 + d) as char
}

/// Whether `c` is one of the digits `0` to `9`.
pub open spec fn is_digit(c: char) -> bool {
    48 <= c as u32 && c as u32 <= 57
}

/// The value of the digit `c`.
pub open spec fn digit_value(c: char) -> int {
    c as u32 - 48
}

/// `n` written in base ten, without sign or leading zeros.
pub open spec fn decimal_nat(n: nat) -> Seq<char>
    decreases n,
{
    if n < 10 {
        seq![digit_char(n as int)]
    } else {
        decimal_nat(n / 10) + seq![digit_char((n % 10) as int)]
    }
}

/// `n` written in base ten, with a leading `-` when it is negative.
pub open spec fn decimal(n: int) -> Seq<char> {
    if n < 0 {
        seq!['-'] + decimal_nat((-n) as nat)
    } else {
        decimal_nat(n as nat)
    }
}

/// Why a text is not an unsigned integer, as `std::num::IntErrorKind` tells it.
#[derive(Clone, Copy, Debug, PartialEq, Eq, Structural)]
pub enum ParseIntErrorKind {
    /// The text is empty.
    Empty,
    /// The text holds a character that is not a digit where a digit must stand.
    InvalidDigit,
    /// The number is larger than `u64::MAX`.
    PosOverflow,
}

/// Reading the digits of `s` on top of the value `acc` read so far: the
/// first character that is not a digit gives `InvalidDigit`; a value that
/// would pass `u64::MAX` gives `PosOverflow`; whichever comes first decides.
pub open spec fn parse_digits(acc: int, s: Seq<char>) -> Result<int, ParseIntErrorKind>
    decreases s.len(),
{
    if s.len() == 0 {
        Ok(acc)
    } else if !is_digit(s[0]) {
        Err(ParseIntErrorKind::InvalidDigit)
    } else if acc * 10 + digit_value(s[0]) > u64::MAX {
        Err(ParseIntErrorKind::PosOverflow)
    } else {
        parse_digits(acc * 10 + digit_value(s[0]), s.drop_first())
    }
}

/// What `u64::from_str` gives for `s`: an empty text is `Empty`; a lone sign
/// is `InvalidDigit`; one leading `+` is allowed; the rest must be digits.
pub open spec fn parse_u64_spec(s: Seq<char>) -> Result<int, ParseIntErrorKind> {
    if s.len() == 0 {
        Err(ParseIntErrorKind::Empty)
    } else if s.len() == 1 && (s[0] == '+' || s[0] == '-') {
        Err(ParseIntErrorKind::InvalidDigit)
    } else if s[0] == '+' {
        parse_digits(0, s.drop_first())
    } else {
        parse_digits(0, s)
    }
}

impl ParseIntErrorKind {
    /// The text std gives for this kind of error.
    pub open spec fn spec_description(self) -> Seq<char> {
        match self {
            ParseIntErrorKind::Empty => "cannot parse integer from empty string"@,
            ParseIntErrorKind::InvalidDigit => "invalid digit found in string"@,
            ParseIntErrorKind::PosOverflow => "number too large to fit in target type"@,
        }
    }

    /// The text std gives for this kind of error.
    pub fn description(&self) -> (s: String)
        ensures
            s@ == self.spec_description(),
    {
        match self {
            ParseIntErrorKind::Empty => "cannot parse integer from empty string".to_owned(),
            ParseIntErrorKind::InvalidDigit => "invalid digit found in string".to_owned(),
            ParseIntErrorKind::PosOverflow => "number too large to fit in target type".to_owned(),
        }
    }
}

/// Reads `s` as an unsigned 64-bit integer in base ten, as `u64::from_str`
/// reads it.
pub fn parse_u64(s: &str) -> (res: Result<u64, ParseIntErrorKind>)
    ensures
        match res {
            Ok(v) => parse_u64_spec(s@) == Ok::<int, ParseIntErrorKind>(v as int),
            Err(e) => parse_u64_spec(s@) == Err::<int, ParseIntErrorKind>(e),
        },
{
    let cs = chars_of(s);
    if cs.len() == 0 {
        return Err(ParseIntErrorKind::Empty);
    }
    if cs.len() == 1 && (cs[0] == '+' || cs[0] == '-') {
        return Err(ParseIntErrorKind::InvalidDigit);
    }
    let mut i: usize = if cs[0] == '+' { 1 } else { 0 };
    let ghost digits = if cs@[0] == '+' { cs@.drop_first() } else { cs@ };
    assert(cs@.skip(i as int) =~= digits);
    assert(parse_u64_spec(s@) == parse_digits(0, digits));
    let mut acc: u64 = 0;
    while i < cs.len()
        invariant
            i <= cs.len(),
            parse_digits(acc as int, cs@.skip(i as int)) == parse_digits(0, digits),
            parse_u64_spec(s@) == parse_digits(0, digits),
        decreases cs.len() - i,
    {
        let c = cs[i];
        let code = c as u32;
        assert(cs@.skip(i as int)[0] == c);
        assert(cs@.skip(i as int).drop_first() =~= cs@.skip(i + 1));
        if code < 48 || code > 57 {
            assert(!is_digit(c));
            assert(parse_digits(acc as int, cs@.skip(i as int)) == Err::<int, ParseIntErrorKind>(ParseIntErrorKind::InvalidDigit));
            return Err(ParseIntErrorKind::InvalidDigit);
        }
        let d = (code - 48) as u64;
        if acc > (u64::MAX - d) / 10 {
            assert(acc * 10 + d > u64::MAX) by (nonlinear_arith)
                requires
                    acc > (u64::MAX - d) / 10,
                    d <= 9,
            ;
            return Err(ParseIntErrorKind::PosOverflow);
        }
        assert(acc * 10 + d <= u64::MAX) by (nonlinear_arith)
            requires
                acc <= (u64::MAX - d) / 10,
                d <= 9,
        ;
        acc = acc * 10 + d;
        i = i + 1;
    }
    assert(cs@.skip(i as int) =~= Seq::<char>::empty());
    Ok(acc)
}

fn digit_of(d: u64) -> (c: char)
    requires
        d < 10,
    ensures
        c == digit_char(d as int),
{
    let code: u8 = 48u8 + (d as u8);
    code as char
}

/// Appends the decimal digits of `n` to `out`.
fn push_decimal_u64(n: u64, out: &mut Vec<char>)
    ensures
        final(out)@ == old(out)@ + decimal_nat(n as nat),
    decreases n,
{
    if n >= 10 {
        push_decimal_u64(n / 10, out);
    }
    out.push(digit_of(n % 10));
    proof {
        if n >= 10 {
            assert(decimal_nat(n as nat) == decimal_nat((n / 10) as nat) + seq![digit_char((n % 10) as int)]);
        }
    }
    assert(final(out)@ =~= old(out)@ + decimal_nat(n as nat));
}

/// `n` written in base ten, with a leading `-` when it is negative.
pub fn decimal_i64(n: i64) -> (v: Vec<char>)
    ensures
        v@ == decimal(n as int),
{
    let mut out: Vec<char> = Vec::new();
    if n < 0 {
        out.push('-');
        let wide: i128 = 0i128 - (n as i128);
        let magnitude: u64 = wide as u64;
        push_decimal_u64(magnitude, &mut out);
        assert(out@ =~= seq!['-'] + decimal_nat((-n) as nat));
    } else {
        push_decimal_u64(n as u64, &mut out);
        assert(out@ =~= decimal_nat(n as nat));
    }
    out
}

/// `n` written in base ten.
pub fn decimal_u64(n: u64) -> (v: Vec<char>)
    ensures
        v@ == decimal_nat(n as nat),
{
    let mut out: Vec<char> = Vec::new();
    push_decimal_u64(n, &mut out);
    assert(out@ =~= decimal_nat(n as nat));
    out
}

proof fn lemma_parse_digits_append(acc: int, a: Seq<char>, b: Seq<char>)
    ensures
        parse_digits(acc, a + b) == (match parse_digits(acc, a) {
            Ok(v) => parse_digits(v, b),
            Err(e) => Err(e),
        }),
    decreases a.len(),
{
    if a.len() == 0 {
        assert(a + b =~= b);
    } else {
        assert((a + b)[0] == a[0]);
        assert((a + b).drop_first() =~= a.drop_first() + b);
        lemma_parse_digits_append(acc * 10 + digit_value(a[0]), a.drop_first(), b);
    }
}

proof fn lemma_decimal_nat_reads_back(n: nat)
    requires
        n <= u64::MAX,
    ensures
        parse_digits(0, decimal_nat(n)) == Ok::<int, ParseIntErrorKind>(n as int),
        decimal_nat(n).len() >= 1,
        is_digit(decimal_nat(n)[0]),
    decreases n,
{
    if n < 10 {
        let s = decimal_nat(n);
        assert(s.drop_first() =~= Seq::<char>::empty());
        assert(is_digit(s[0]) && digit_value(s[0]) == n);
        assert(parse_digits(n as int, s.drop_first()) == Ok::<int, ParseIntErrorKind>(n as int));
    } else {
        let q = n / 10;
        let r = n % 10;
        lemma_decimal_nat_reads_back(q);
        let last = seq![digit_char(r as int)];
        lemma_parse_digits_append(0, decimal_nat(q), last);
        assert(last.drop_first() =~= Seq::<char>::empty());
        assert(is_digit(last[0]) && digit_value(last[0]) == r);
        assert(parse_digits(n as int, last.drop_first()) == Ok::<int, ParseIntErrorKind>(n as int));
        assert(q * 10 + r == n);
        assert((decimal_nat(q) + last)[0] == decimal_nat(q)[0]);
    }
}

/// Reading back what `decimal_u64` writes gives the number that was written:
/// for every `u64` value `n`, `parse_u64` of the decimal text of `n` is `Ok(n)`.
pub proof fn lemma_parse_u64_inverts_decimal(n: u64)
    ensures
        parse_u64_spec(decimal_nat(n as nat)) == Ok::<int, ParseIntErrorKind>(n as int),
{
    lemma_decimal_nat_reads_back(n as nat);
    let s = decimal_nat(n as nat);
    assert(s[0] != '+' && s[0] != '-');
}

proof fn lemma_parse_digits_only_digits(acc: int, s: Seq<char>)
    requires
        0 <= acc,
    ensures
        parse_digits(acc, s) is Ok ==> forall|i: int| 0 <= i < s.len() ==> is_digit(s[i]),
        parse_digits(acc, s) matches Ok(v) ==> acc <= v <= u64::MAX || (s.len() == 0 && v == acc),
        (exists|i: int| 0 <= i < s.len() && !is_digit(s[i])) ==> parse_digits(acc, s) is Err,
    decreases s.len(),
{
    if s.len() > 0 && is_digit(s[0]) && acc * 10 + digit_value(s[0]) <= u64::MAX {
        lemma_parse_digits_only_digits(acc * 10 + digit_value(s[0]), s.drop_first());
        if parse_digits(acc, s) is Ok {
            assert forall|i: int| 0 <= i < s.len() implies is_digit(s[i]) by {
                if i > 0 {
                    assert(s[i] == s.drop_first()[i - 1]);
                }
            }
        }
        if exists|i: int| 0 <= i < s.len() && !is_digit(s[i]) {
            let i = choose|i: int| 0 <= i < s.len() && !is_digit(s[i]);
            assert(s.drop_first()[i - 1] == s[i]);
        }
    }
}

/// `u64::from_str` accepts only digits, after at most one leading `+`, and
/// reads a value that fits in a `u64`; an empty text is the `Empty` error and
/// no other text is.
pub proof fn lemma_parse_u64_accepts_digits_only(s: Seq<char>)
    ensures
        parse_u64_spec(s) == Err::<int, ParseIntErrorKind>(ParseIntErrorKind::Empty) <==> s.len()
            == 0,
        parse_u64_spec(s) matches Ok(v) ==> 0 <= v <= u64::MAX,
        parse_u64_spec(s) is Ok ==> s.len() > 0 && forall|i: int|
            (if s[0] == '+' { 1int } else { 0int }) <= i < s.len() ==> is_digit(s[i]),
        parse_u64_spec(s) is Ok ==> s != seq!['+'],
{
    if s.len() > 0 {
        let d = if s[0] == '+' { s.drop_first() } else { s };
        lemma_parse_digits_only_digits(0, d);
        lemma_parse_digits_never_empty(0, d);
        if parse_u64_spec(s) is Ok {
            assert forall|i: int|
                (if s[0] == '+' { 1int } else { 0int }) <= i < s.len() implies is_digit(s[i]) by {
                if s[0] == '+' {
                    assert(d[i - 1] == s[i]);
                } else {
                    assert(d[i] == s[i]);
                }
            }
            if s[0] == '+' {
                assert(s.len() > 1);
            }
        }
    }
}

proof fn lemma_parse_digits_never_empty(acc: int, s: Seq<char>)
    ensures
        parse_digits(acc, s) != Err::<int, ParseIntErrorKind>(ParseIntErrorKind::Empty),
    decreases s.len(),
{
    if s.len() > 0 && is_digit(s[0]) && acc * 10 + digit_value(s[0]) <= u64::MAX {
        lemma_parse_digits_never_empty(acc * 10 + digit_value(s[0]), s.drop_first());
    }
}

} // verus!
