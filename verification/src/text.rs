//! Text: the characters of a string, the decimal text of integers and the two
//! boolean literals, each with the function that writes it and the function that
//! reads it.
use vstd::prelude::*;
use vstd::std_specs::iter::IteratorSpec;

verus! {

/// The characters of a string, in order.
pub fn chars_of(s: &str) -> (v: Vec<char>)
    ensures
        v@ == s@,
{
    let mut it = s.chars();
    let mut v: Vec<char> = Vec::new();
    proof {
        vstd::string::axiom_spec_iter(s);
    }
    loop
        invariant
            it.obeys_prophetic_iter_laws(),
            it.decrease() is Some,
            v@ + it.remaining() == s@,
        ensures
            v@ == s@,
        decreases it.decrease()->0,
    {
        let ghost before = it;
        match it.next() {
            Some(c) => {
                proof {
                    vstd::string::next_postcondition(&before, &it, Some(c));
                    assert(v@.push(c) + it.remaining() =~= v@ + before.remaining());
                }
                v.push(c);
            },
            None => {
                proof {
                    vstd::string::next_postcondition(&before, &it, None);
                    assert(v@ =~= v@ + it.remaining());
                }
                break;
            },
        }
    }
    v
}

/// `String::push` of the standard library: the character is added at the end.
pub assume_specification[ String::push ](s: &mut String, c: char)
    ensures
        final(s)@ == old(s)@.push(c),
;

/// Whether `c` is one of the ten decimal digits.
pub open spec fn is_digit(c: char) -> bool {
    '0' <= c && c <= '9'
}

/// The number that a decimal digit stands for.
pub open spec fn digit_value(c: char) -> int {
    c as int - '0' as int
}

/// The decimal digit that stands for `d`, for `d` from 0 to 9.
pub open spec fn digit_char(d: int) -> char {
    (d + '0' as int) as char
}

/// The decimal text of a natural number, without leading zeros.
pub open spec fn nat_text(n: nat) -> Seq<char>
    decreases n,
{
    if n < 10 {
        seq![digit_char(n as int)]
    } else {
        nat_text(n / 10).push(digit_char((n % 10) as int))
    }
}

/// The decimal text of an integer: a minus sign where it is negative, then its digits.
pub open spec fn int_text(v: int) -> Seq<char> {
    if v < 0 {
        seq!['-'] + nat_text((-v) as nat)
    } else {
        nat_text(v as nat)
    }
}

/// The digit that stands for `d`.
fn digit_of(d: u8) -> (c: char)
    requires
        d < 10,
    ensures
        c == digit_char(d as int),
{
    (d + 48) as char
}

/// The number that `c` stands for, where `c` is a digit.
fn value_of(c: char) -> (d: Option<u8>)
    ensures
        d is Some == is_digit(c),
        d matches Some(x) ==> x == digit_value(c),
{
    let n: u32 = c as u32;
    if 48 <= n && n <= 57 {
        Some((n - 48) as u8)
    } else {
        None
    }
}

/// Nothing for zero, the decimal text for any other natural number.
spec fn leading_text(n: nat) -> Seq<char> {
    if n == 0 {
        Seq::empty()
    } else {
        nat_text(n)
    }
}

/// The text of a number is the text of its tens, then its last digit.
proof fn lemma_nat_text_step(n: nat)
    requires
        n > 0,
    ensures
        nat_text(n) =~= leading_text(n / 10).push(digit_char((n % 10) as int)),
{
    if n < 10 {
        assert(n / 10 == 0);
        assert(n % 10 == n);
    }
}

/// Writes an integer in decimal.
pub fn int_to_string(v: i128) -> (s: String)
    ensures
        s@ == int_text(v as int),
{
    let mut n: u128 = if v < 0 {
        (-(v + 1)) as u128 + 1
    } else {
        v as u128
    };
    let ghost m: nat = n as nat;
    let mut low: Vec<char> = Vec::new();
    proof {
        if n > 0 {
            lemma_nat_text_step(m);
        }
    }
    low.push(digit_of((n % 10) as u8));
    n = n / 10;
    while n > 0
        invariant
            nat_text(m) =~= leading_text(n as nat) + low@.reverse(),
        decreases n,
    {
        proof {
            lemma_nat_text_step(n as nat);
        }
        low.push(digit_of((n % 10) as u8));
        n = n / 10;
    }
    let mut s = String::new();
    if v < 0 {
        s.push('-');
    }
    let ghost sign = s@;
    let mut i: usize = low.len();
    while i > 0
        invariant
            i <= low.len(),
            s@ =~= sign + low@.reverse().subrange(0, low.len() - i),
        decreases i,
    {
        i -= 1;
        s.push(low[i]);
    }
    s
}

/// Whether every character of `s` is a decimal digit.
pub open spec fn all_digits(s: Seq<char>) -> bool {
    forall|i: int| 0 <= i < s.len() ==> is_digit(#[trigger] s[i])
}

/// The number that a run of decimal digits stands for; zero for the empty run.
pub open spec fn digits_value(s: Seq<char>) -> nat
    decreases s.len(),
{
    if s.len() == 0 {
        0
    } else {
        (digits_value(s.drop_last()) * 10 + digit_value(s.last())) as nat
    }
}

/// The integer that `s` writes: an optional `+` or `-`, then one or more decimal
/// digits and nothing else. `None` for any other text.
pub open spec fn int_literal(s: Seq<char>) -> Option<int> {
    if s.len() > 0 && (s[0] == '-' || s[0] == '+') {
        let digits = s.subrange(1, s.len() as int);
        if digits.len() > 0 && all_digits(digits) {
            Some(
                if s[0] == '-' {
                    -(digits_value(digits) as int)
                } else {
                    digits_value(digits) as int
                },
            )
        } else {
            None
        }
    } else if s.len() > 0 && all_digits(s) {
        Some(digits_value(s) as int)
    } else {
        None
    }
}

/// The integer that `s` writes, where it lies from `min` to `max`.
pub open spec fn bounded_literal(s: Seq<char>, min: int, max: int) -> Option<int> {
    match int_literal(s) {
        Some(v) => if min <= v <= max {
            Some(v)
        } else {
            None
        },
        None => None,
    }
}

/// A run of digits stands for no less than any run that it begins with.
proof fn lemma_digits_value_prefix(s: Seq<char>, k: int)
    requires
        0 <= k <= s.len(),
        all_digits(s),
    ensures
        digits_value(s.subrange(0, k)) <= digits_value(s),
    decreases s.len() - k,
{
    if k == s.len() {
        assert(s.subrange(0, k) =~= s);
    } else {
        let t = s.drop_last();
        assert(t.subrange(0, k) =~= s.subrange(0, k));
        assert(is_digit(s.last()));
        lemma_digits_value_prefix(t, k);
    }
}

/// The 64-bit integer that `s` writes, where it writes one.
pub open spec fn long_literal(s: Seq<char>) -> Option<i64> {
    match bounded_literal(s, i64::MIN as int, i64::MAX as int) {
        Some(v) => Some(v as i64),
        None => None,
    }
}

/// The 32-bit integer that `s` writes, where it writes one.
pub open spec fn integer_literal(s: Seq<char>) -> Option<i32> {
    match bounded_literal(s, i32::MIN as int, i32::MAX as int) {
        Some(v) => Some(v as i32),
        None => None,
    }
}

/// The 16-bit integer that `s` writes, where it writes one.
pub open spec fn short_literal(s: Seq<char>) -> Option<i16> {
    match bounded_literal(s, i16::MIN as int, i16::MAX as int) {
        Some(v) => Some(v as i16),
        None => None,
    }
}

/// Reads a signed decimal integer of at most 64 bits.
pub fn parse_long(s: &str) -> (r: Option<i64>)
    ensures
        r == long_literal(s@),
{
    let cs = chars_of(s);
    let n = cs.len();
    if n == 0 {
        return None;
    }
    let negative = cs[0] == '-';
    let start: usize = if cs[0] == '-' || cs[0] == '+' {
        1
    } else {
        0
    };
    let ghost digits = cs@.subrange(start as int, n as int);
    proof {
        if start == 0 {
            assert(digits =~= s@);
        }
    }
    if start == n {
        return None;
    }
    let ghost value = if negative {
        -(digits_value(digits) as int)
    } else {
        digits_value(digits) as int
    };
    let mut acc: i128 = 0;
    let mut i: usize = start;
    while i < n
        invariant
            start <= i <= n,
            n == cs.len(),
            digits == cs@.subrange(start as int, n as int),
            int_literal(s@) == if all_digits(digits) {
                Some(value)
            } else {
                None
            },
            value == if negative {
                -(digits_value(digits) as int)
            } else {
                digits_value(digits) as int
            },
            all_digits(digits.subrange(0, i - start)),
            acc == digits_value(digits.subrange(0, i - start)),
            acc <= 0x8000_0000_0000_0000,
        decreases n - i,
    {
        let ghost seen = digits.subrange(0, i - start);
        let ghost next = digits.subrange(0, i + 1 - start);
        proof {
            assert(next.drop_last() =~= seen);
            assert(next.last() == cs@[i as int]);
        }
        match value_of(cs[i]) {
            None => {
                proof {
                    assert(!is_digit(digits[i - start]));
                }
                return None;
            },
            Some(d) => {
                acc = acc * 10 + d as i128;
                proof {
                    assert forall|j: int| 0 <= j < next.len() implies is_digit(
                        #[trigger] next[j],
                    ) by {
                        if j < seen.len() {
                            assert(next[j] == seen[j]);
                        }
                    }
                }
                if acc > 0x8000_0000_0000_0000 {
                    proof {
                        if all_digits(digits) {
                            lemma_digits_value_prefix(digits, i + 1 - start);
                        }
                    }
                    return None;
                }
            },
        }
        i += 1;
    }
    proof {
        assert(digits.subrange(0, n - start) =~= digits);
    }
    if negative {
        Some((-acc) as i64)
    } else if acc <= 0x7fff_ffff_ffff_ffff {
        Some(acc as i64)
    } else {
        None
    }
}

/// Reads a signed decimal integer of at most 32 bits.
pub fn parse_integer(s: &str) -> (r: Option<i32>)
    ensures
        r == integer_literal(s@),
{
    match parse_long(s) {
        Some(v) => if -0x8000_0000 <= v && v <= 0x7fff_ffff {
            Some(v as i32)
        } else {
            None
        },
        None => None,
    }
}

/// Reads a signed decimal integer of at most 16 bits.
pub fn parse_short(s: &str) -> (r: Option<i16>)
    ensures
        r == short_literal(s@),
{
    match parse_long(s) {
        Some(v) => if -0x8000 <= v && v <= 0x7fff {
            Some(v as i16)
        } else {
            None
        },
        None => None,
    }
}

/// The text of a natural number is a run of one or more digits that stands for
/// that number.
pub proof fn lemma_nat_text_reads_back(n: nat)
    ensures
        nat_text(n).len() > 0,
        all_digits(nat_text(n)),
        digits_value(nat_text(n)) == n,
    decreases n,
{
    if n < 10 {
        let t = seq![digit_char(n as int)];
        assert(t.drop_last() =~= Seq::<char>::empty());
        assert(digits_value(t) == digits_value(t.drop_last()) * 10 + digit_value(t.last()));
    } else {
        lemma_nat_text_reads_back(n / 10);
        let t = nat_text(n);
        assert(t.drop_last() =~= nat_text(n / 10));
        assert(digits_value(t) == digits_value(t.drop_last()) * 10 + digit_value(t.last()));
        assert forall|i: int| 0 <= i < t.len() implies is_digit(#[trigger] t[i]) by {
            if i < t.len() - 1 {
                assert(t[i] == nat_text(n / 10)[i]);
            }
        }
    }
}

/// What is written is read back: the text of an integer writes that integer.
pub proof fn lemma_int_text_reads_back(v: int)
    ensures
        int_literal(int_text(v)) == Some(v),
{
    if v < 0 {
        let digits = nat_text((-v) as nat);
        lemma_nat_text_reads_back((-v) as nat);
        let s = int_text(v);
        assert(s[0] == '-');
        assert(s.subrange(1, s.len() as int) =~= digits);
    } else {
        lemma_nat_text_reads_back(v as nat);
        let s = int_text(v);
        assert(is_digit(s[0]));
    }
}

/// The text of a boolean: `true` or `false`.
pub open spec fn bool_text(b: bool) -> Seq<char> {
    if b {
        seq!['t', 'r', 'u', 'e']
    } else {
        seq!['f', 'a', 'l', 's', 'e']
    }
}

/// The boolean that `s` writes: `true` and `false` are the only two texts that
/// write one.
pub open spec fn bool_literal(s: Seq<char>) -> Option<bool> {
    if s == bool_text(true) {
        Some(true)
    } else if s == bool_text(false) {
        Some(false)
    } else {
        None
    }
}

/// What is written is read back: the text of a boolean writes that boolean.
pub proof fn lemma_bool_text_reads_back(b: bool)
    ensures
        bool_literal(bool_text(b)) == Some(b),
{
    assert(bool_text(true).len() != bool_text(false).len());
}

/// The text that stands for SQL's null.
pub open spec fn null_text() -> Seq<char> {
    seq!['N', 'U', 'L', 'L']
}

/// Writes a boolean as `true` or `false`.
pub fn bool_to_string(b: bool) -> (s: String)
    ensures
        s@ == bool_text(b),
{
    proof {
        reveal_strlit("true");
        reveal_strlit("false");
    }
    let s = if b {
        "true".to_owned()
    } else {
        "false".to_owned()
    };
    assert(s@ =~= bool_text(b));
    s
}

/// Reads `true` or `false`.
pub fn parse_bool(s: &str) -> (r: Option<bool>)
    ensures
        r == bool_literal(s@),
{
    let cs = chars_of(s);
    if cs.len() == 4 && cs[0] == 't' && cs[1] == 'r' && cs[2] == 'u' && cs[3] == 'e' {
        assert(cs@ =~= bool_text(true));
        Some(true)
    } else if cs.len() == 5 && cs[0] == 'f' && cs[1] == 'a' && cs[2] == 'l' && cs[3] == 's'
        && cs[4] == 'e' {
        assert(cs@ =~= bool_text(false));
        Some(false)
    } else {
        None
    }
}

/// The string `NULL`.
pub fn null_string() -> (s: String)
    ensures
        s@ == null_text(),
{
    proof {
        reveal_strlit("NULL");
    }
    let s = "NULL".to_owned();
    assert(s@ =~= null_text());
    s
}

} // verus!
