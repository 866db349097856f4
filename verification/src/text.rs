//! Decimal text: the digit arithmetic behind address parsing and
//! address formatting.
//!
//! Everything here is defined over sequences of characters, so the
//! contracts of the parsing and formatting functions can say exactly
//! which strings are accepted and exactly which string is produced.

use vstd::prelude::*;
use vstd::string::StrSliceExecFns;
use vstd::string::StringExecFns;

verus! {

/// The canonical character for one decimal digit.
pub open spec fn digit_char(d: int) -> char
    recommends
        0 <= d <= 9,
{
    if d == 0 {
        '0'
    } else if d == 1 {
        '1'
    } else if d == 2 {
        '2'
    } else if d == 3 {
        '3'
    } else if d == 4 {
        '4'
    } else if d == 5 {
        '5'
    } else if d == 6 {
        '6'
    } else if d == 7 {
        '7'
    } else if d == 8 {
        '8'
    } else {
        '9'
    }
}

/// The value of one decimal digit character, or -1 for any other
/// character.
pub open spec fn digit_value(c: char) -> int {
    if c == '0' {
        0
    } else if c == '1' {
        1
    } else if c == '2' {
        2
    } else if c == '3' {
        3
    } else if c == '4' {
        4
    } else if c == '5' {
        5
    } else if c == '6' {
        6
    } else if c == '7' {
        7
    } else if c == '8' {
        8
    } else if c == '9' {
        9
    } else {
        -1
    }
}

/// Whether `c` is one of the ten decimal digit characters.
pub open spec fn is_decimal_digit(c: char) -> bool {
    digit_value(c) >= 0
}

/// Whether every character of `s` is a decimal digit.
pub open spec fn all_decimal_digits(s: Seq<char>) -> bool {
    forall|i: int| 0 <= i < s.len() ==> is_decimal_digit(#[trigger] s[i])
}

/// The numeric value of a digit string, most significant digit first.
pub open spec fn decimal_value(s: Seq<char>) -> int
    decreases s.len(),
{
    if s.len() == 0 {
        0
    } else {
        decimal_value(s.drop_last()) * 10 + digit_value(s.last())
    }
}

/// The canonical decimal rendering of a number: no sign, no leading
/// zeros (except for the number zero itself).
pub open spec fn decimal_digits_of(n: int) -> Seq<char>
    recommends
        0 <= n,
    decreases n,
{
    if n < 10 {
        seq![digit_char(n)]
    } else {
        decimal_digits_of(n / 10).push(digit_char(n % 10))
    }
}

/// What parsing a digit string under a bound yields: its value, if the
/// string is nonempty, consists of digits only, and its value is at
/// most `max`; nothing otherwise.
pub open spec fn spec_parse_bounded(s: Seq<char>, max: int) -> Option<int> {
    if s.len() > 0 && all_decimal_digits(s) && decimal_value(s) <= max {
        Some(decimal_value(s))
    } else {
        None
    }
}

/// The value of one decimal digit character, executably.
pub fn char_digit(c: char) -> (r: Option<u8>)
    ensures
        (match r {
            Some(d) => is_decimal_digit(c) && d == digit_value(c),
            None => !is_decimal_digit(c),
        }),
{
    match c {
        '0' => Some(0),
        '1' => Some(1),
        '2' => Some(2),
        '3' => Some(3),
        '4' => Some(4),
        '5' => Some(5),
        '6' => Some(6),
        '7' => Some(7),
        '8' => Some(8),
        '9' => Some(9),
        _ => None,
    }
}

/// Parses the characters of `s` between `from` and `to` as an unsigned
/// decimal number of value at most `max`.  Leading zeros are allowed;
/// the caller restricts them where its grammar forbids them.
pub fn parse_bounded(s: &str, from: usize, to: usize, max: u16) -> (r: Option<u16>)
    requires
        from <= to <= s@.len(),
    ensures
        (match r {
            Some(v) => spec_parse_bounded(s@.subrange(from as int, to as int), max as int)
                == Some(v as int),
            None => spec_parse_bounded(s@.subrange(from as int, to as int), max as int) is None,
        }),
{
    if from == to {
        return None;
    }
    let mut value: u32 = 0;
    let mut over: bool = false;
    let mut i: usize = from;
    while i < to
        invariant
            from <= i <= to <= s@.len(),
            all_decimal_digits(s@.subrange(from as int, i as int)),
            !over ==> value == decimal_value(s@.subrange(from as int, i as int)) && value
                <= max,
            over ==> decimal_value(s@.subrange(from as int, i as int)) > max,
        decreases to - i,
    {
        let c = s.get_char(i);
        let ghost prefix = s@.subrange(from as int, i as int);
        proof {
            assert(s@.subrange(from as int, i as int + 1) =~= prefix.push(s@[i as int]));
            assert(prefix.push(s@[i as int]).drop_last() =~= prefix);
        }
        match char_digit(c) {
            None => {
                proof {
                    assert(s@.subrange(from as int, to as int)[i - from] == s@[i as int]);
                }
                return None;
            },
            Some(d) => {
                if over {
                    // the value can only grow as digits are appended
                } else {
                    let next: u32 = value * 10 + d as u32;
                    if next > max as u32 {
                        over = true;
                    } else {
                        value = next;
                    }
                }
            },
        }
        i = i + 1;
    }
    if over {
        None
    } else {
        Some(value as u16)
    }
}

/// Appends the canonical decimal rendering of `n` to `out`.
pub fn push_decimal_u16(n: u16, out: &mut String)
    ensures
        final(out)@ == old(out)@ + decimal_digits_of(n as int),
    decreases n,
{
    if n >= 10 {
        push_decimal_u16(n / 10, out);
    }
    let d: u16 = n % 10;
    match d {
        0 => {
            proof {
                reveal_strlit("0");
            }
            out.append("0");
        },
        1 => {
            proof {
                reveal_strlit("1");
            }
            out.append("1");
        },
        2 => {
            proof {
                reveal_strlit("2");
            }
            out.append("2");
        },
        3 => {
            proof {
                reveal_strlit("3");
            }
            out.append("3");
        },
        4 => {
            proof {
                reveal_strlit("4");
            }
            out.append("4");
        },
        5 => {
            proof {
                reveal_strlit("5");
            }
            out.append("5");
        },
        6 => {
            proof {
                reveal_strlit("6");
            }
            out.append("6");
        },
        7 => {
            proof {
                reveal_strlit("7");
            }
            out.append("7");
        },
        8 => {
            proof {
                reveal_strlit("8");
            }
            out.append("8");
        },
        _ => {
            proof {
                reveal_strlit("9");
            }
            out.append("9");
        },
    }
    proof {
        if n < 10 {
            assert(out@ =~= old(out)@ + seq![digit_char(n as int)]);
        } else {
            assert(out@ =~= old(out)@ + decimal_digits_of((n / 10) as int) + seq![
                digit_char((n % 10) as int),
            ]);
            assert(old(out)@ + decimal_digits_of(n as int) =~= old(out)@ + decimal_digits_of(
                (n / 10) as int,
            ) + seq![digit_char((n % 10) as int)]);
        }
    }
}

/// LAW (the canonical rendering reads back).  The decimal rendering of
/// a number is nonempty, consists of digits only, carries no leading
/// zero (except for zero itself), and parses back to the same number.
pub proof fn lemma_decimal_digits_of_value(n: int)
    requires
        0 <= n,
    ensures
        all_decimal_digits(decimal_digits_of(n)),
        decimal_digits_of(n).len() >= 1,
        decimal_value(decimal_digits_of(n)) == n,
        n > 0 ==> decimal_digits_of(n)[0] != '0',
        n == 0 ==> decimal_digits_of(n) == seq!['0'],
    decreases n,
{
    if n < 10 {
        let s = seq![digit_char(n)];
        assert(s.len() == 1);
        assert(s.last() == digit_char(n));
        assert(s.drop_last() =~= Seq::<char>::empty());
        assert(decimal_value(Seq::<char>::empty()) == 0);
        assert(decimal_value(s) == digit_value(digit_char(n)));
    } else {
        lemma_decimal_digits_of_value(n / 10);
        let prefix = decimal_digits_of(n / 10);
        let s = prefix.push(digit_char(n % 10));
        assert(s.drop_last() =~= prefix);
        assert(s.last() == digit_char(n % 10));
        assert(decimal_value(s) == decimal_value(prefix) * 10 + digit_value(digit_char(n % 10)));
        assert(n / 10 * 10 + n % 10 == n);
        assert forall|i: int| 0 <= i < s.len() implies is_decimal_digit(s[i]) by {
            if i < prefix.len() {
                assert(s[i] == prefix[i]);
            }
        }
        assert(s[0] == prefix[0]);
    }
}

/// Whether the characters of `s` between `from` and `to` spell exactly
/// the string `t`.
pub fn region_matches(s: &str, from: usize, to: usize, t: &str) -> (r: bool)
    requires
        from <= to <= s@.len(),
    ensures
        r == (s@.subrange(from as int, to as int) == t@),
{
    let t_len: usize = t.unicode_len();
    if to - from != t_len {
        proof {
            assert(s@.subrange(from as int, to as int).len() != t@.len());
        }
        return false;
    }
    let mut i: usize = 0;
    while i < t_len
        invariant
            from <= to <= s@.len(),
            to - from == t_len == t@.len(),
            i <= t_len,
            forall|j: int| 0 <= j < i ==> s@[from + j] == t@[j],
        decreases t_len - i,
    {
        if s.get_char(from + i) != t.get_char(i) {
            proof {
                assert(s@.subrange(from as int, to as int)[i as int] != t@[i as int]);
            }
            return false;
        }
        i = i + 1;
    }
    proof {
        assert(s@.subrange(from as int, to as int) =~= t@);
    }
    true
}

/// Whether two strings are equal, character for character.
pub fn str_equal(a: &str, b: &str) -> (r: bool)
    ensures
        r == (a@ == b@),
{
    let n: usize = a.unicode_len();
    let r = region_matches(a, 0, n, b);
    proof {
        assert(a@.subrange(0, a@.len() as int) =~= a@);
    }
    r
}

/// The position of the first occurrence of `c` in the characters of
/// `s` between `from` and `to`, as an index into `s`.
pub fn find_char(s: &str, from: usize, to: usize, c: char) -> (r: Option<usize>)
    requires
        from <= to <= s@.len(),
    ensures
        (match r {
            Some(i) => from <= i < to && s@.subrange(from as int, to as int).index_of_first(c)
                == Some(i - from),
            None => s@.subrange(from as int, to as int).index_of_first(c) is None,
        }),
{
    let ghost region = s@.subrange(from as int, to as int);
    let mut i: usize = from;
    while i < to
        invariant
            from <= i <= to <= s@.len(),
            region == s@.subrange(from as int, to as int),
            forall|j: int| from <= j < i ==> s@[j] != c,
        decreases to - i,
    {
        if s.get_char(i) == c {
            proof {
                region.index_of_first_ensures(c);
                assert(region[i - from] == c);
                assert(region.contains(c));
                let k = region.index_of_first(c)->Some_0;
                assert(region[k] == c);
                assert(forall|j: int| 0 <= j < k ==> region[j] != c);
                assert forall|j: int| 0 <= j < i - from implies region[j] != c by {
                    assert(region[j] == s@[from + j]);
                }
                assert(k == i - from);
            }
            return Some(i);
        }
        i = i + 1;
    }
    proof {
        region.index_of_first_ensures(c);
        if region.index_of_first(c) is Some {
            let k = region.index_of_first(c)->Some_0;
            assert(region[k] == s@[from + k]);
        }
    }
    None
}

/// The canonical decimal rendering of `n` as a fresh string.
pub fn u16_to_string(n: u16) -> (s: String)
    ensures
        s@ == decimal_digits_of(n as int),
{
    let mut s = String::new();
    push_decimal_u16(n, &mut s);
    proof {
        assert(Seq::<char>::empty() + decimal_digits_of(n as int) =~= decimal_digits_of(
            n as int,
        ));
    }
    s
}

} // verus!
