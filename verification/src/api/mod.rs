//! The requests of the protocol: for each operation, the opcode and the JSON
//! payload that go to the server, and the processing of what comes back.
use vstd::prelude::*;
use vstd::string::StrSliceExecFns;
use crate::json::JsonValue;
use crate::text::push_char;

pub mod auth;
pub mod bots;
pub mod chats;
pub mod messaging;
pub mod stickers;
pub mod telemetry;

verus! {

/// A request: the operation's opcode and its payload.
#[derive(Debug)]
pub struct Request {
    pub opcode: u16,
    pub payload: JsonValue,
}

/// The least timestamp that `now_millis` can give.
pub open spec fn min_timestamp_millis() -> int {
    -10_000_000_000_000_000
}

/// The greatest timestamp that `now_millis` can give.
pub open spec fn max_timestamp_millis() -> int {
    10_000_000_000_000_000
}

/// `chrono::Utc::now().timestamp_millis()`: the current time in milliseconds
/// since the Unix epoch. Which time it is is not stated; that it lies within
/// the years that chrono can represent (about 262,000 years either side of
/// the epoch) is.
#[verifier::external_body]
pub(crate) fn now_millis() -> (res: i64)
    ensures
        min_timestamp_millis() < res < max_timestamp_millis(),
{
    chrono::Utc::now().timestamp_millis()
}

/// The decimal digit `d`.
pub open spec fn digit_char(d: nat) -> char {
    ((d + 48) as u8) as char
}

/// The decimal digits of `n`, without leading zeros.
pub open spec fn digits_of(n: nat) -> Seq<char>
    decreases n,
{
    if n < 10 {
        seq![digit_char(n)]
    } else {
        digits_of(n / 10).push(digit_char(n % 10))
    }
}

/// The decimal text of `n`, with a minus sign when it is negative.
pub open spec fn decimal_of(n: int) -> Seq<char> {
    if n < 0 {
        seq!['-'] + digits_of((-n) as nat)
    } else {
        digits_of(n as nat)
    }
}

/// The value of a decimal digit character.
pub open spec fn digit_value(c: char) -> nat {
    ((c as u32) - 48) as nat
}

/// Whether `c` is a decimal digit.
pub open spec fn is_digit(c: char) -> bool {
    '0' <= c <= '9'
}

/// The value of a sequence of decimal digits.
pub open spec fn digits_value(d: Seq<char>) -> nat
    decreases d.len(),
{
    if d.len() == 0 {
        0
    } else {
        digits_value(d.drop_last()) * 10 + digit_value(d.last())
    }
}

/// The digits of an unsigned number's text: the text without a leading `+`.
pub open spec fn unsigned_digits(s: Seq<char>) -> Seq<char> {
    if s.len() > 0 && s[0] == '+' {
        s.drop_first()
    } else {
        s
    }
}

/// Whether every character of `d` is a decimal digit.
pub open spec fn all_digits(d: Seq<char>) -> bool {
    forall|i: int| 0 <= i < d.len() ==> #[trigger] is_digit(d[i])
}

/// What `str::parse::<u64>` gives: an optional `+` followed by at least one
/// decimal digit and nothing else, whose value fits in a `u64`.
pub open spec fn parse_u64_spec(s: Seq<char>) -> Option<u64> {
    let d = unsigned_digits(s);
    if d.len() > 0 && all_digits(d) && digits_value(d) <= u64::MAX {
        Some(digits_value(d) as u64)
    } else {
        None
    }
}

/// `c` with an ASCII upper-case letter made lower-case.
pub open spec fn ascii_lower(c: char) -> char {
    if 'A' <= c <= 'Z' {
        ((c as u32) + 32) as char
    } else {
        c
    }
}

/// Whether `a` and `b` are equal up to the case of ASCII letters.
pub open spec fn eq_ignore_ascii_case_spec(a: Seq<char>, b: Seq<char>) -> bool {
    a.len() == b.len() && forall|i: int| 0 <= i < a.len() ==> #[trigger] ascii_lower(a[i]) == ascii_lower(b[i])
}

fn push_digits(s: &mut String, m: u64)
    ensures
        final(s)@ == old(s)@ + digits_of(m as nat),
    decreases m,
{
    if m >= 10 {
        push_digits(s, m / 10);
    }
    let c = ((m % 10) as u8 + 48u8) as char;
    assert(c == digit_char((m % 10) as nat));
    push_char(s, c);
    proof {
        if m < 10 {
            assert(old(s)@ + digits_of(m as nat) =~= old(s)@.push(c));
        } else {
            assert(old(s)@ + digits_of(m as nat) =~= (old(s)@ + digits_of((m / 10) as nat)).push(c));
        }
    }
}

/// The decimal text of `n`, as `i64::to_string` writes it.
pub fn i64_to_string(n: i64) -> (res: String)
    ensures
        res@ == decimal_of(n as int),
{
    let mut s = String::new();
    if n < 0 {
        push_char(&mut s, '-');
        let m: u64 = ((-(n + 1)) as u64) + 1;
        push_digits(&mut s, m);
        assert(s@ =~= seq!['-'] + digits_of((-n) as nat));
    } else {
        push_digits(&mut s, n as u64);
        assert(s@ =~= digits_of(n as nat));
    }
    s
}

proof fn lemma_digits_value_monotone(d: Seq<char>, i: int)
    requires
        0 <= i <= d.len(),
    ensures
        digits_value(d.take(i)) <= digits_value(d),
    decreases d.len() - i,
{
    if i < d.len() {
        lemma_digits_value_monotone(d, i + 1);
        let t = d.take(i + 1);
        assert(t.drop_last() =~= d.take(i));
    } else {
        assert(d.take(i) =~= d);
    }
}

/// `str::parse::<u64>`: the number that `s` writes in decimal.
pub fn parse_u64(s: &str) -> (res: Option<u64>)
    ensures
        res == parse_u64_spec(s@),
{
    let n = s.unicode_len();
    let mut start: usize = 0;
    if n > 0 && s.get_char(0) == '+' {
        start = 1;
    }
    let ghost d = unsigned_digits(s@);
    assert(d =~= s@.skip(start as int));
    if start >= n {
        return None;
    }
    let mut acc: u64 = 0;
    let mut i: usize = start;
    while i < n
        invariant
            n == s@.len(),
            start <= i <= n,
            d == s@.skip(start as int),
            d == unsigned_digits(s@),
            d.len() > 0,
            acc as nat == digits_value(d.take(i - start)),
            forall|k: int| 0 <= k < i - start ==> #[trigger] is_digit(d[k]),
        decreases n - i,
    {
        let c = s.get_char(i);
        let t = Ghost(d.take(i - start + 1));
        assert(t@.drop_last() =~= d.take(i - start));
        assert(t@.last() == c);
        if c < '0' || c > '9' {
            assert(!is_digit(d[i - start]));
            assert(!all_digits(d));
            return None;
        }
        let v = (c as u32 - 48) as u64;
        if acc > (u64::MAX - v) / 10 {
            proof {
                lemma_digits_value_monotone(d, i - start + 1);
                assert(digits_value(t@) == acc * 10 + v);
                assert(digits_value(d) > u64::MAX);
            }
            return None;
        }
        acc = acc * 10 + v;
        i = i + 1;
    }
    assert(d.take(n - start) =~= d);
    assert(all_digits(d));
    Some(acc)
}

/// Whether `a` and `b` are equal up to the case of ASCII letters, as
/// `str::eq_ignore_ascii_case` decides it.
pub fn eq_ignore_ascii_case(a: &str, b: &str) -> (res: bool)
    ensures
        res == eq_ignore_ascii_case_spec(a@, b@),
{
    let n = a.unicode_len();
    if n != b.unicode_len() {
        return false;
    }
    let mut i: usize = 0;
    while i < n
        invariant
            n == a@.len(),
            n == b@.len(),
            i <= n,
            forall|k: int| 0 <= k < i ==> #[trigger] ascii_lower(a@[k]) == ascii_lower(b@[k]),
        decreases n - i,
    {
        let x = a.get_char(i);
        let y = b.get_char(i);
        let lx = if 'A' <= x && x <= 'Z' { ((x as u32) + 32) as u8 as char } else { x };
        let ly = if 'A' <= y && y <= 'Z' { ((y as u32) + 32) as u8 as char } else { y };
        assert(lx == ascii_lower(x)) by {
            if 'A' <= x && x <= 'Z' {
                assert(((x as u32) + 32) as u8 as char == ((x as u32) + 32) as char);
            }
        }
        assert(ly == ascii_lower(y)) by {
            if 'A' <= y && y <= 'Z' {
                assert(((y as u32) + 32) as u8 as char == ((y as u32) + 32) as char);
            }
        }
        if lx != ly {
            return false;
        }
        i = i + 1;
    }
    true
}

/// Reading back what is written: the decimal text of any number that fits
/// in a `u64` parses to that number, and the text of a negative number is
/// a minus sign followed by the text of its magnitude.
pub proof fn lemma_decimal_round_trip(n: u64, m: int)
    ensures
        parse_u64_spec(decimal_of(n as int)) == Some(n),
        m < 0 ==> decimal_of(m)[0] == '-' && decimal_of(m).drop_first() == decimal_of(-m),
{
    lemma_digits_shape(n as nat);
    if m < 0 {
        assert((seq!['-'] + digits_of((-m) as nat)).drop_first() =~= digits_of((-m) as nat));
    }
}

proof fn lemma_digits_shape(n: nat)
    ensures
        digits_of(n).len() > 0,
        all_digits(digits_of(n)),
        digits_value(digits_of(n)) == n,
        digits_of(n)[0] != '+',
    decreases n,
{
    if n < 10 {
        assert(digits_of(n) =~= seq![digit_char(n)]);
        assert(digit_value(digit_char(n)) == n);
        assert(seq![digit_char(n)].drop_last() =~= Seq::<char>::empty());
        assert(digits_value(seq![digit_char(n)]) == digits_value(Seq::<char>::empty()) * 10 + digit_value(digit_char(n)));
    } else {
        lemma_digits_shape(n / 10);
        let d = digits_of(n / 10);
        let c = digit_char(n % 10);
        assert(digits_of(n) == d.push(c));
        assert(d.push(c).drop_last() =~= d);
        assert(digit_value(c) == n % 10);
        assert((n / 10) * 10 + n % 10 == n) by (nonlinear_arith);
        assert(digits_value(d.push(c)) == digits_value(d) * 10 + digit_value(c));
        assert(digits_of(n)[0] == d[0]);
        assert forall|i: int| 0 <= i < d.push(c).len() implies #[trigger] is_digit(d.push(c)[i]) by {
            if i < d.len() {
                assert(is_digit(d[i]));
            }
        }
    }
}

} // verus!
