//! Verified text helpers: rendering integers as decimal numerals and
//! parsing decimal numerals back into integers.

use vstd::prelude::*;
use vstd::string::*;

verus! {

/// The decimal digit character for a value below ten.
pub open spec fn digit_char(d: int) -> char {
    if d == 0 {
        '0'
    } else if d == 1 {
        '1'
    } else if d == 2 {
        '2'
    } else if d == 3 {
        '3'
    } else if d == 4 {
        '4'
    } else if d == 5 {
        '5'
    } else if d == 6 {
        '6'
    } else if d == 7 {
        '7'
    } else if d == 8 {
        '8'
    } else {
        '9'
    }
}

/// The decimal numeral of a natural number, most significant digit first.
pub open spec fn dec_spec(n: nat) -> Seq<char>
    decreases n,
{
    if n < 10 {
        seq![digit_char(n as int)]
    } else {
        dec_spec(n / 10).push(digit_char((n % 10) as int))
    }
}

/// The one-character string for a decimal digit.
fn digit_str(d: u64) -> (r: &'static str)
    requires
        d < 10,
    ensures
        r@ == seq![digit_char(d as int)],
{
    proof {
        reveal_strlit("0");
        reveal_strlit("1");
        reveal_strlit("2");
        reveal_strlit("3");
        reveal_strlit("4");
        reveal_strlit("5");
        reveal_strlit("6");
        reveal_strlit("7");
        reveal_strlit("8");
        reveal_strlit("9");
    }
    let r: &'static str = if d == 0 {
        "0"
    } else if d == 1 {
        "1"
    } else if d == 2 {
        "2"
    } else if d == 3 {
        "3"
    } else if d == 4 {
        "4"
    } else if d == 5 {
        "5"
    } else if d == 6 {
        "6"
    } else if d == 7 {
        "7"
    } else if d == 8 {
        "8"
    } else {
        "9"
    };
    proof {
        assert(r@ =~= seq![digit_char(d as int)]);
    }
    r
}

/// Whether a character is a decimal digit.
pub open spec fn is_dec_digit(c: char) -> bool {
    '0' as int <= c as int && c as int <= '9' as int
}

/// Whether every character of a text is a decimal digit.
pub open spec fn all_dec_digits(s: Seq<char>) -> bool {
    forall|i: int| 0 <= i < s.len() ==> is_dec_digit(s[i])
}

/// The value of a decimal numeral, most significant digit first.
pub open spec fn dec_value(s: Seq<char>) -> int
    decreases s.len(),
{
    if s.len() == 0 {
        0
    } else {
        dec_value(s.drop_last()) * 10 + (s.last() as int - '0' as int)
    }
}

/// The digits of a numeral, once an optional leading `+` is stripped.
pub open spec fn parse_body(s: Seq<char>) -> Seq<char> {
    if s.len() > 0 && s[0] == '+' {
        s.skip(1)
    } else {
        s
    }
}

/// What `str::parse::<u64>` accepts: an optional leading `+`, then one or
/// more decimal digits whose value fits in the type.
pub open spec fn parse_u64_spec(s: Seq<char>) -> Option<u64> {
    let body = parse_body(s);
    if body.len() > 0 && all_dec_digits(body) && dec_value(body) <= u64::MAX as int {
        Some(dec_value(body) as u64)
    } else {
        None
    }
}

/// The value of a numeral is never negative.
proof fn lemma_dec_value_nonneg(s: Seq<char>)
    requires
        all_dec_digits(s),
    ensures
        dec_value(s) >= 0,
    decreases s.len(),
{
    if s.len() > 0 {
        assert(all_dec_digits(s.drop_last())) by {
            assert(forall|i: int|
                0 <= i < s.drop_last().len() ==> s.drop_last()[i] == s[i]);
        }
        lemma_dec_value_nonneg(s.drop_last());
    }
}

/// A numeral's value only grows as digits are appended.
proof fn lemma_dec_value_take_le(s: Seq<char>, i: int)
    requires
        all_dec_digits(s),
        0 <= i <= s.len(),
    ensures
        dec_value(s.take(i)) <= dec_value(s),
    decreases s.len(),
{
    if i == s.len() {
        assert(s.take(i) =~= s);
    } else {
        let t = s.drop_last();
        assert(all_dec_digits(t)) by {
            assert(forall|j: int| 0 <= j < t.len() ==> t[j] == s[j]);
        }
        lemma_dec_value_nonneg(t);
        lemma_dec_value_take_le(t, i);
        assert(s.take(i) =~= t.take(i));
        assert(dec_value(s) == dec_value(t) * 10 + (s.last() as int - '0' as int));
        assert(dec_value(t) * 10 >= dec_value(t)) by {
            lemma_dec_value_nonneg(t);
        }
    }
}

/// Parses a decimal numeral exactly as `str::parse::<u64>` does.
pub fn parse_u64(s: &str) -> (r: Option<u64>)
    ensures
        r == parse_u64_spec(s@),
{
    let n = s.unicode_len();
    let mut i: usize = 0;
    if n > 0 && s.get_char(0) == '+' {
        i = 1;
    }
    let ghost start = i as int;
    let ghost body = parse_body(s@);
    proof {
        assert(body =~= s@.subrange(start, n as int));
    }
    if i >= n {
        return None;
    }
    let mut acc: u64 = 0;
    while i < n
        invariant
            start <= i <= n,
            n == s@.len(),
            0 <= start <= 1,
            start < n,
            body == parse_body(s@),
            body =~= s@.subrange(start, n as int),
            all_dec_digits(s@.subrange(start, i as int)),
            acc as int == dec_value(s@.subrange(start, i as int)),
        decreases n - i,
    {
        let c = s.get_char(i);
        let ghost prefix = s@.subrange(start, i as int);
        if c < '0' || c > '9' {
            proof {
                assert(body[i - start] == c);
                assert(!is_dec_digit(c));
            }
            return None;
        }
        let d: u64 = (c as u32 - 48) as u64;
        proof {
            assert(is_dec_digit(c));
            assert(d as int == c as int - '0' as int);
            assert(s@.subrange(start, i + 1) =~= prefix.push(c));
            assert(prefix.push(c).drop_last() =~= prefix);
            assert(dec_value(prefix.push(c)) == acc as int * 10 + d as int);
        }
        if acc > (u64::MAX - d) / 10 {
            proof {
                vstd::arithmetic::div_mod::lemma_fundamental_div_mod(
                    (u64::MAX - d) as int,
                    10,
                );
                assert(acc as int * 10 + d as int > u64::MAX as int);
                if all_dec_digits(body) {
                    assert(all_dec_digits(s@.subrange(start, i + 1)));
                    lemma_dec_value_take_le(body, i + 1 - start);
                    assert(body.take(i + 1 - start) =~= s@.subrange(start, i + 1));
                    assert(dec_value(body) > u64::MAX as int);
                }
            }
            return None;
        }
        proof {
            vstd::arithmetic::div_mod::lemma_fundamental_div_mod(
                (u64::MAX - d) as int,
                10,
            );
            assert(acc as int * 10 + d as int <= u64::MAX as int);
        }
        acc = acc * 10 + d;
        i = i + 1;
    }
    proof {
        assert(s@.subrange(start, n as int) =~= body);
    }
    Some(acc)
}

/// A rendered numeral is one or more decimal digits.
proof fn lemma_dec_spec_digits(n: nat)
    ensures
        all_dec_digits(dec_spec(n)),
        dec_spec(n).len() >= 1,
        !(dec_spec(n)[0] == '+'),
    decreases n,
{
    if n < 10 {
        assert(is_dec_digit(dec_spec(n)[0]));
    } else {
        lemma_dec_spec_digits(n / 10);
        let pre = dec_spec(n / 10);
        let whole = pre.push(digit_char((n % 10) as int));
        assert forall|i: int| 0 <= i < whole.len() implies is_dec_digit(#[trigger] whole[i]) by {
            if i < pre.len() {
                assert(whole[i] == pre[i]);
            }
        }
    }
}

/// The value of a rendered numeral is the number it came from.
proof fn lemma_dec_value_of_dec_spec(n: nat)
    ensures
        dec_value(dec_spec(n)) == n,
    decreases n,
{
    if n < 10 {
        let s = dec_spec(n);
        assert(s.drop_last() =~= Seq::<char>::empty());
        assert(dec_value(Seq::<char>::empty()) == 0);
        assert(s.last() == digit_char(n as int));
        assert(dec_value(s) == digit_char(n as int) as int - '0' as int);
    } else {
        lemma_dec_value_of_dec_spec(n / 10);
        let pre = dec_spec(n / 10);
        let whole = pre.push(digit_char((n % 10) as int));
        assert(whole.drop_last() =~= pre);
        assert(dec_value(whole) == dec_value(pre) * 10 + (digit_char((n % 10) as int) as int
            - '0' as int));
    }
}

/// Law: rendering a number and parsing the text gives the number back.
pub proof fn lemma_decimal_round_trip(n: u64)
    ensures
        parse_u64_spec(dec_spec(n as nat)) == Some(n),
{
    lemma_dec_spec_digits(n as nat);
    lemma_dec_value_of_dec_spec(n as nat);
    let s = dec_spec(n as nat);
    assert(parse_body(s) == s);
}

/// Renders a number as its decimal numeral.
pub fn u64_to_string(n: u64) -> (r: String)
    ensures
        r@ == dec_spec(n as nat),
    decreases n,
{
    if n < 10 {
        let s = digit_str(n);
        let r = s.to_owned();
        proof {
            assert(r@ =~= dec_spec(n as nat));
        }
        r
    } else {
        let hi = u64_to_string(n / 10);
        let lo = digit_str(n % 10);
        let r = hi.concat(lo);
        proof {
            assert(r@ =~= dec_spec(n as nat));
        }
        r
    }
}

} // verus!
