//! Text helpers: decimal rendering, port parsing and the blank test.

use vstd::prelude::*;
use vstd::string::*;

verus! {

/// The character that writes the digit `d`.
pub open spec fn digit_char(d: nat) -> char
    recommends
        d < 10,
{
    if d == 0 {
        '0'
    } else if d == 1 {
        '1'
    } else if d == 2 {
        '2'
    } else if d == 3 {
        '3'
    } else if d == 4 {
        '4'
    } else if d == 5 {
        '5'
    } else if d == 6 {
        '6'
    } else if d == 7 {
        '7'
    } else if d == 8 {
        '8'
    } else {
        '9'
    }
}

/// `n` in decimal notation, without sign or leading zeros.
pub open spec fn decimal(n: nat) -> Seq<char>
    decreases n,
{
    if n < 10 {
        seq![digit_char(n)]
    } else {
        decimal(n / 10).push(digit_char(n % 10))
    }
}

fn digit_text(d: usize) -> (t: &'static str)
    requires
        d < 10,
    ensures
        t@ == seq![digit_char(d as nat)],
{
    proof {
        reveal_strlit("0");
        reveal_strlit("1");
        reveal_strlit("2");
        reveal_strlit("3");
        reveal_strlit("4");
        reveal_strlit("5");
        reveal_strlit("6");
        reveal_strlit("7");
        reveal_strlit("8");
        reveal_strlit("9");
    }
    let t = if d == 0 {
        "0"
    } else if d == 1 {
        "1"
    } else if d == 2 {
        "2"
    } else if d == 3 {
        "3"
    } else if d == 4 {
        "4"
    } else if d == 5 {
        "5"
    } else if d == 6 {
        "6"
    } else if d == 7 {
        "7"
    } else if d == 8 {
        "8"
    } else {
        "9"
    };
    assert(t@ =~= seq![digit_char(d as nat)]);
    t
}

/// Renders `n` in decimal notation.
pub fn decimal_string(n: usize) -> (s: String)
    ensures
        s@ == decimal(n as nat),
    decreases n,
{
    if n < 10 {
        digit_text(n).to_owned()
    } else {
        let mut s = decimal_string(n / 10);
        s.append(digit_text(n % 10));
        assert(s@ =~= decimal((n / 10) as nat).push(digit_char((n % 10) as nat)));
        s
    }
}

/// Whether `c` is one of the ten decimal digits.
pub open spec fn is_digit(c: char) -> bool {
    '0' <= c && c <= '9'
}

/// The number that the digit `c` writes.
pub open spec fn digit_of(c: char) -> nat
    recommends
        is_digit(c),
{
    (c as u32 - '0' as u32) as nat
}

/// Whether `s` holds decimal digits only.
pub open spec fn all_digits(s: Seq<char>) -> bool {
    forall|i: int| 0 <= i < s.len() ==> is_digit(#[trigger] s[i])
}

/// The number that a run of digits writes; leading zeros count for nothing.
pub open spec fn digits_value(s: Seq<char>) -> nat
    decreases s.len(),
{
    if s.len() == 0 {
        0
    } else {
        digits_value(s.drop_last()) * 10 + digit_of(s.last())
    }
}

/// `s` without the one plus sign that may stand in front of a number.
pub open spec fn without_sign(s: Seq<char>) -> Seq<char> {
    if s.len() > 0 && s[0] == '+' {
        s.subrange(1, s.len() as int)
    } else {
        s
    }
}

/// The port that `s` writes: an optional plus sign, then one or more
/// digits and nothing else, worth at most 65535. Anything else is no port.
pub open spec fn port_number(s: Seq<char>) -> Option<u16> {
    let digits = without_sign(s);
    if digits.len() > 0 && all_digits(digits) && digits_value(digits) <= 65535 {
        Some(digits_value(digits) as u16)
    } else {
        None
    }
}

/// What `decimal` writes reads back as the same number.
pub proof fn lemma_decimal_reads_back(n: nat)
    ensures
        decimal(n).len() > 0,
        all_digits(decimal(n)),
        digits_value(decimal(n)) == n,
    decreases n,
{
    if n < 10 {
        let text = decimal(n);
        assert(text.drop_last().len() == 0);
        assert(digits_value(text) == digits_value(text.drop_last()) * 10 + digit_of(text.last()));
    } else {
        lemma_decimal_reads_back(n / 10);
        let front = decimal(n / 10);
        let text = front.push(digit_char(n % 10));
        assert(text.drop_last() =~= front);
        assert(text.last() == digit_char(n % 10));
        assert(digit_of(digit_char(n % 10)) == n % 10);
    }
}

/// A run of digits is worth at least as much as each of its prefixes.
pub proof fn lemma_digits_value_prefix(s: Seq<char>, k: int)
    requires
        0 <= k <= s.len(),
    ensures
        digits_value(s.subrange(0, k)) <= digits_value(s),
    decreases s.len(),
{
    if k == s.len() {
        assert(s.subrange(0, k) =~= s);
    } else {
        lemma_digits_value_prefix(s.drop_last(), k);
        assert(s.drop_last().subrange(0, k) =~= s.subrange(0, k));
    }
}

/// Reads a port number, as `port_number` defines it.
pub fn parse_port(s: &str) -> (r: Option<u16>)
    ensures
        r == port_number(s@),
{
    let ghost text = s@;
    let ghost start: int = if text.len() > 0 && text[0] == '+' {
        1
    } else {
        0
    };
    let ghost digits = without_sign(text);
    let mut value: u32 = 0;
    let mut seen = false;
    let mut first = true;
    for c in it: s.chars()
        invariant
            text == s@,
            it.seq() == text,
            digits == without_sign(text),
            start == text.len() - digits.len(),
            0 <= start <= 1,
            first == (it.index() == 0),
            value <= 65535,
            it.index() <= start ==> !seen && value == 0,
            it.index() > start ==> seen && all_digits(digits.subrange(0, it.index() - start))
                && value == digits_value(digits.subrange(0, it.index() - start)),
    {
        let ghost i = it.index();
        if first && c == '+' {
            first = false;
        } else {
            first = false;
            let ghost k = i - start;
            assert(digits[k] == c);
            if c < '0' || c > '9' {
                assert(!is_digit(digits[k]));
                return None;
            }
            let d: u32 = (c as u32) - ('0' as u32);
            let next: u32 = value * 10 + d;
            proof {
                let longer = digits.subrange(0, k + 1);
                assert(longer.drop_last() =~= digits.subrange(0, k));
                assert(longer.last() == c);
                assert(digits_value(digits.subrange(0, k)) == value) by {
                    if k == 0 {
                        assert(digits.subrange(0, k).len() == 0);
                    }
                }
                assert(digit_of(c) == d);
                assert(digits_value(longer) == next);
                assert(all_digits(longer)) by {
                    assert forall|j: int| 0 <= j < longer.len() implies is_digit(
                        #[trigger] longer[j],
                    ) by {
                        if j < k {
                            assert(digits.subrange(0, k)[j] == longer[j]);
                        }
                    }
                }
            }
            if next > 65535 {
                proof {
                    lemma_digits_value_prefix(digits, k + 1);
                }
                return None;
            }
            value = next;
            seen = true;
        }
    }
    proof {
        assert(digits.subrange(0, digits.len() as int) =~= digits);
    }
    if seen {
        Some(value as u16)
    } else {
        None
    }
}

/// Whether `c` is white space, as the Unicode property `White_Space` has it.
pub open spec fn is_whitespace(c: char) -> bool {
    let u = c as u32;
    ||| 0x09 <= u <= 0x0D
    ||| u == 0x20
    ||| u == 0x85
    ||| u == 0xA0
    ||| u == 0x1680
    ||| 0x2000 <= u <= 0x200A
    ||| u == 0x2028
    ||| u == 0x2029
    ||| u == 0x202F
    ||| u == 0x205F
    ||| u == 0x3000
}

/// Whether `s` is empty or holds white space only: what is left of such a
/// text once the white space at both ends is cut off is empty.
pub open spec fn all_whitespace(s: Seq<char>) -> bool {
    forall|i: int| 0 <= i < s.len() ==> is_whitespace(#[trigger] s[i])
}

/// A text that writes a port is not blank: it holds a digit.
pub proof fn lemma_port_is_not_blank(s: Seq<char>)
    requires
        port_number(s) is Some,
    ensures
        !all_whitespace(s),
{
    let digits = without_sign(s);
    let at: int = if s[0] == '+' {
        1
    } else {
        0
    };
    assert(is_digit(digits[0]));
    assert(digits[0] == s[at]);
    assert(!is_whitespace(s[at]));
}

/// Tells whether `c` is white space.
pub fn whitespace(c: char) -> (b: bool)
    ensures
        b == is_whitespace(c),
{
    let u: u32 = c as u32;
    (0x09 <= u && u <= 0x0D) || u == 0x20 || u == 0x85 || u == 0xA0 || u == 0x1680 || (0x2000
        <= u && u <= 0x200A) || u == 0x2028 || u == 0x2029 || u == 0x202F || u == 0x205F || u
        == 0x3000
}

/// Tells whether `s` is empty or holds white space only.
pub fn is_blank(s: &str) -> (b: bool)
    ensures
        b == all_whitespace(s@),
{
    let ghost text = s@;
    for c in it: s.chars()
        invariant
            text == s@,
            it.seq() == text,
            forall|j: int| 0 <= j < it.index() ==> is_whitespace(#[trigger] text[j]),
    {
        if !whitespace(c) {
            assert(!is_whitespace(text[it.index()]));
            return false;
        }
    }
    true
}

} // verus!
