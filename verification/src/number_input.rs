//! The number field: what the text typed into it parses to, and what the
//! page shows for it.

use vstd::prelude::*;
use vstd::string::StringExecFns;
use crate::text::{chars_of, digit_char, format_i32, int_text, nat_digits};

verus! {

/// Why a text is not an `i32`; the kinds that `str::parse::<i32>` reports.
#[derive(Clone, Copy, Debug, PartialEq, Eq, Structural)]
pub enum IntErrorKind {
    /// The text is empty.
    Empty,
    /// The text holds a character that is not a decimal digit where one is needed.
    InvalidDigit,
    /// The number is above `i32::MAX`.
    PosOverflow,
    /// The number is below `i32::MIN`.
    NegOverflow,
}

pub open spec fn is_digit(c: char) -> bool {
    '0' <= c && c <= '9'
}

pub open spec fn digit_value(c: char) -> int {
    c as int - '0' as int
}

/// The number that a string of decimal digits denotes.
pub open spec fn digits_value(s: Seq<char>) -> int
    decreases s.len(),
{
    if s.len() == 0 {
        0
    } else {
        digits_value(s.drop_last()) * 10 + digit_value(s.last())
    }
}

/// How many decimal digits `s` starts with.
pub open spec fn digit_run(s: Seq<char>) -> nat
    decreases s.len(),
{
    if s.len() > 0 && is_digit(s[0]) {
        1 + digit_run(s.drop_first())
    } else {
        0
    }
}

pub open spec fn has_sign(s: Seq<char>) -> bool {
    s.len() > 0 && (s[0] == '+' || s[0] == '-')
}

/// The text after an optional leading sign.
pub open spec fn unsigned_part(s: Seq<char>) -> Seq<char> {
    if has_sign(s) {
        s.drop_first()
    } else {
        s
    }
}

/// What `str::parse::<i32>` gives for the characters `s`: an optional `+` or
/// `-` and then decimal digits only. Reading left to right, the first fault
/// decides: the digits read so far leaving the range of `i32` is an overflow,
/// a character that is no digit is an invalid digit.
pub open spec fn parse_i32_spec(s: Seq<char>) -> Result<i32, IntErrorKind> {
    if s.len() == 0 {
        Err(IntErrorKind::Empty)
    } else if has_sign(s) && s.len() == 1 {
        Err(IntErrorKind::InvalidDigit)
    } else {
        let negative = s[0] == '-';
        let body = unsigned_part(s);
        let run = digit_run(body);
        let v = digits_value(body.take(run as int));
        if !negative && v > i32::MAX {
            Err(IntErrorKind::PosOverflow)
        } else if negative && v > 0x8000_0000 {
            Err(IntErrorKind::NegOverflow)
        } else if run < body.len() {
            Err(IntErrorKind::InvalidDigit)
        } else if negative {
            Ok((-v) as i32)
        } else {
            Ok(v as i32)
        }
    }
}

proof fn lemma_digit_run(s: Seq<char>, i: int)
    requires
        0 <= i <= s.len(),
        forall|j: int| 0 <= j < i ==> is_digit(#[trigger] s[j]),
        i == s.len() || !is_digit(s[i]),
    ensures
        digit_run(s) == i,
    decreases i,
{
    if i > 0 {
        let t = s.drop_first();
        assert forall|j: int| 0 <= j < i - 1 implies is_digit(#[trigger] t[j]) by {
            assert(t[j] == s[j + 1]);
        }
        if i < s.len() {
            assert(t[i - 1] == s[i]);
        }
        lemma_digit_run(t, i - 1);
    }
}

proof fn lemma_digit_run_facts(s: Seq<char>)
    ensures
        digit_run(s) <= s.len(),
        forall|j: int| 0 <= j < digit_run(s) ==> is_digit(#[trigger] s[j]),
        digit_run(s) < s.len() ==> !is_digit(s[digit_run(s) as int]),
    decreases s.len(),
{
    if s.len() > 0 && is_digit(s[0]) {
        let t = s.drop_first();
        lemma_digit_run_facts(t);
        assert forall|j: int| 0 <= j < digit_run(s) implies is_digit(#[trigger] s[j]) by {
            if j > 0 {
                assert(s[j] == t[j - 1]);
            }
        }
        if digit_run(s) < s.len() {
            assert(s[digit_run(s) as int] == t[digit_run(t) as int]);
        }
    }
}

proof fn lemma_value_step(s: Seq<char>, i: int)
    requires
        0 <= i < s.len(),
    ensures
        digits_value(s.take(i + 1)) == digits_value(s.take(i)) * 10 + digit_value(s[i]),
{
    assert(s.take(i + 1).drop_last() =~= s.take(i));
}

proof fn lemma_value_monotone(s: Seq<char>, j: int, k: int)
    requires
        0 <= j <= k <= s.len(),
        forall|m: int| 0 <= m < k ==> is_digit(#[trigger] s[m]),
    ensures
        0 <= digits_value(s.take(j)) <= digits_value(s.take(k)),
    decreases k,
{
    if k == 0 {
        assert(s.take(0) =~= Seq::<char>::empty());
    } else if j == k {
        lemma_value_monotone(s, j - 1, k - 1);
        lemma_value_step(s, k - 1);
        assert(is_digit(s[k - 1]));
    } else {
        lemma_value_monotone(s, j, k - 1);
        lemma_value_step(s, k - 1);
        assert(is_digit(s[k - 1]));
    }
}

proof fn lemma_nat_digits(n: nat)
    ensures
        nat_digits(n).len() >= 1,
        forall|j: int| 0 <= j < nat_digits(n).len() ==> is_digit(#[trigger] nat_digits(n)[j]),
        digits_value(nat_digits(n)) == n,
    decreases n,
{
    if n < 10 {
        let s = nat_digits(n);
        assert(s.drop_last() =~= Seq::<char>::empty());
        assert(s.last() == digit_char(n as int));
        assert(digits_value(s) == digits_value(s.drop_last()) * 10 + digit_value(s.last()));
        assert(digit_char(n as int) as int == '0' as int + n);
    } else {
        lemma_nat_digits(n / 10);
        let d = (n % 10) as int;
        assert(digit_char(d) as int == '0' as int + d);
        assert(nat_digits(n).drop_last() =~= nat_digits(n / 10));
        assert(nat_digits(n).last() == digit_char(d));
        assert(digit_value(digit_char(d)) == d);
        assert(digits_value(nat_digits(n)) == digits_value(nat_digits(n / 10)) * 10 + d);
        assert((n / 10) * 10 + d == n);
    }
}

/// Every `i32` written in decimal, as `format_i32` writes it, parses back to
/// itself: the number the page shows is the number that was read.
pub proof fn lemma_parse_format_roundtrip(v: i32)
    ensures
        parse_i32_spec(int_text(v as int)) == Ok::<i32, IntErrorKind>(v),
{
    let s = int_text(v as int);
    if v < 0 {
        let m = (-v) as nat;
        let ds = nat_digits(m);
        lemma_nat_digits(m);
        assert(s[0] == '-');
        assert(unsigned_part(s) =~= ds);
        lemma_digit_run(ds, ds.len() as int);
        assert(ds.take(ds.len() as int) =~= ds);
    } else {
        let ds = nat_digits(v as nat);
        lemma_nat_digits(v as nat);
        assert(is_digit(ds[0]));
        assert(unsigned_part(s) =~= ds);
        lemma_digit_run(ds, ds.len() as int);
        assert(ds.take(ds.len() as int) =~= ds);
    }
}

/// A text of decimal digits alone parses to the number it denotes when that
/// number fits, and to a positive overflow when it does not; a `-` in front
/// gives the negated number, or a negative overflow. Any other character
/// where a digit belongs makes the text invalid unless an overflow came
/// first.
pub proof fn lemma_parse_digit_texts(ds: Seq<char>)
    requires
        ds.len() > 0,
        forall|j: int| 0 <= j < ds.len() ==> is_digit(#[trigger] ds[j]),
    ensures
        digits_value(ds) <= i32::MAX ==> parse_i32_spec(ds) == Ok::<i32, IntErrorKind>(
            digits_value(ds) as i32,
        ),
        digits_value(ds) > i32::MAX ==> parse_i32_spec(ds) == Err::<i32, IntErrorKind>(
            IntErrorKind::PosOverflow,
        ),
        digits_value(ds) <= 0x8000_0000 ==> parse_i32_spec(seq!['-'] + ds) == Ok::<
            i32,
            IntErrorKind,
        >((-digits_value(ds)) as i32),
        digits_value(ds) > 0x8000_0000 ==> parse_i32_spec(seq!['-'] + ds) == Err::<
            i32,
            IntErrorKind,
        >(IntErrorKind::NegOverflow),
        digits_value(ds) <= i32::MAX ==> parse_i32_spec(ds + seq!['x']) == Err::<
            i32,
            IntErrorKind,
        >(IntErrorKind::InvalidDigit),
{
    lemma_digit_run(ds, ds.len() as int);
    assert(ds.take(ds.len() as int) =~= ds);
    assert(is_digit(ds[0]));
    let neg = seq!['-'] + ds;
    assert(unsigned_part(neg) =~= ds);
    let bad = ds + seq!['x'];
    assert(bad[0] == ds[0]);
    assert forall|j: int| 0 <= j < ds.len() implies is_digit(#[trigger] bad[j]) by {
        assert(bad[j] == ds[j]);
    }
    lemma_digit_run(bad, ds.len() as int);
    assert(bad.take(ds.len() as int) =~= ds);
}

/// Parses an `i32` as `str::parse::<i32>` does.
#[verifier::rlimit(40)]
pub fn parse_i32(s: &str) -> (r: Result<i32, IntErrorKind>)
    ensures
        r == parse_i32_spec(s@),
{
    let cs = chars_of(s);
    let n = cs.len();
    if n == 0 {
        return Err(IntErrorKind::Empty);
    }
    let first = cs[0];
    let signed = first == '+' || first == '-';
    if signed && n == 1 {
        return Err(IntErrorKind::InvalidDigit);
    }
    let negative = first == '-';
    let start: usize = if signed { 1 } else { 0 };
    let limit: u64 = if negative { 0x8000_0000 } else { 0x7fff_ffff };
    let ghost body = unsigned_part(s@);
    assert(body =~= cs@.subrange(start as int, n as int));
    let mut acc: u64 = 0;
    let mut i: usize = start;
    assert(body.take(0) =~= Seq::<char>::empty());
    while i < n
        invariant
            start <= i <= n,
            n == cs@.len(),
            cs@ == s@,
            body == cs@.subrange(start as int, n as int),
            body == unsigned_part(s@),
            s@.len() > 0,
            !(has_sign(s@) && s@.len() == 1),
            negative == (s@[0] == '-'),
            limit == (if negative { 0x8000_0000u64 } else { 0x7fff_ffffu64 }),
            forall|j: int| 0 <= j < i - start ==> is_digit(#[trigger] body[j]),
            acc == digits_value(body.take(i - start)),
            acc <= limit,
        decreases n - i,
    {
        let c = cs[i];
        assert(c == body[i - start]);
        if !('0' <= c && c <= '9') {
            proof {
                lemma_digit_run(body, i - start);
            }
            return Err(IntErrorKind::InvalidDigit);
        }
        let d: u64 = (c as u32 - 48) as u64;
        proof {
            lemma_value_step(body, i - start);
        }
        acc = acc * 10 + d;
        if acc > limit {
            proof {
                lemma_digit_run_facts(body);
                let k = digit_run(body) as int;
                if k < i + 1 - start {
                    assert(is_digit(body[k]));
                }
                lemma_value_monotone(body, i + 1 - start, k);
            }
            if negative {
                return Err(IntErrorKind::NegOverflow);
            } else {
                return Err(IntErrorKind::PosOverflow);
            }
        }
        i = i + 1;
    }
    proof {
        lemma_digit_run(body, body.len() as int);
        assert(body.take(body.len() as int) =~= body);
    }
    if negative {
        Ok((0i64 - (acc as i64)) as i32)
    } else {
        Ok(acc as i32)
    }
}

/// The message that `ParseIntError` displays for each kind.
pub open spec fn error_message_spec(kind: IntErrorKind) -> Seq<char> {
    match kind {
        IntErrorKind::Empty => "cannot parse integer from empty string"@,
        IntErrorKind::InvalidDigit => "invalid digit found in string"@,
        IntErrorKind::PosOverflow => "number too large to fit in target type"@,
        IntErrorKind::NegOverflow => "number too small to fit in target type"@,
    }
}

/// The text shown for a parse error.
pub fn error_message(kind: IntErrorKind) -> (m: String)
    ensures
        m@ == error_message_spec(kind),
{
    match kind {
        IntErrorKind::Empty => String::from_str("cannot parse integer from empty string"),
        IntErrorKind::InvalidDigit => String::from_str("invalid digit found in string"),
        IntErrorKind::PosOverflow => String::from_str("number too large to fit in target type"),
        IntErrorKind::NegOverflow => String::from_str("number too small to fit in target type"),
    }
}

/// The number field of the error-handling section: it holds what the last
/// input parsed to, starting from `Ok(0)`.
pub struct NumberField {
    pub value: Result<i32, IntErrorKind>,
}

impl NumberField {
    pub fn new() -> (f: NumberField)
        ensures
            f.value == Ok::<i32, IntErrorKind>(0),
    {
        NumberField { value: Ok(0) }
    }

    /// An input event: the field now holds what the typed text parses to.
    pub fn on_input(&mut self, text: &str)
        ensures
            final(self).value == parse_i32_spec(text@),
    {
        self.value = parse_i32(text);
    }

    /// The number shown after "You entered ", or `None` while the field
    /// holds an error.
    pub fn entered_text(&self) -> (t: Option<String>)
        ensures
            match self.value {
                Ok(v) => t matches Some(s) && s@ == int_text(v as int),
                Err(_) => t is None,
            },
    {
        match self.value {
            Ok(v) => Some(format_i32(v)),
            Err(_) => None,
        }
    }

    /// The list shown under "Not a number! Errors: ": empty while the field
    /// holds a number, else the one message of its error.
    pub fn error_list(&self) -> (l: Vec<String>)
        ensures
            match self.value {
                Ok(_) => l@.len() == 0,
                Err(kind) => l@.len() == 1 && l@[0]@ == error_message_spec(kind),
            },
    {
        let mut l: Vec<String> = Vec::new();
        match self.value {
            Ok(_) => {},
            Err(kind) => {
                l.push(error_message(kind));
            },
        }
        l
    }
}

} // verus!
