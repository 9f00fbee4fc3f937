//! Decimal text for port numbers: rendering the negotiated port into URLs
//! and environment values, and reading a port override back out of an
//! environment value.

use vstd::prelude::*;

verus! {

/// The digit character for one decimal digit.
pub open spec fn digit_char(d: int) -> char {
    if d == 0 {
        '0'
    } else if d == 1 {
        '1'
    } else if d == 2 {
        '2'
    } else if d == 3 {
        '3'
    } else if d == 4 {
        '4'
    } else if d == 5 {
        '5'
    } else if d == 6 {
        '6'
    } else if d == 7 {
        '7'
    } else if d == 8 {
        '8'
    } else {
        '9'
    }
}

/// The usual decimal rendering of `n`: most significant digit first,
/// no leading zeros (a lone zero for `n == 0`).
pub open spec fn decimal_chars(n: int) -> Seq<char>
    decreases n,
{
    if n <= 9 {
        seq![digit_char(n)]
    } else {
        decimal_chars(n / 10).push(digit_char(n % 10))
    }
}

/// A string slice holding exactly the digit `d`.
fn digit_str(d: u16) -> (s: &'static str)
    requires
        d <= 9,
    ensures
        s@ =~= seq![digit_char(d as int)],
{
    proof {
        reveal_strlit("0");
        reveal_strlit("1");
        reveal_strlit("2");
        reveal_strlit("3");
        reveal_strlit("4");
        reveal_strlit("5");
        reveal_strlit("6");
        reveal_strlit("7");
        reveal_strlit("8");
        reveal_strlit("9");
    }
    if d == 0 {
        "0"
    } else if d == 1 {
        "1"
    } else if d == 2 {
        "2"
    } else if d == 3 {
        "3"
    } else if d == 4 {
        "4"
    } else if d == 5 {
        "5"
    } else if d == 6 {
        "6"
    } else if d == 7 {
        "7"
    } else if d == 8 {
        "8"
    } else {
        "9"
    }
}

/// Renders a port number in decimal.
pub fn port_decimal(n: u16) -> (s: String)
    ensures
        s@ == decimal_chars(n as int),
    decreases n,
{
    if n <= 9 {
        let s = digit_str(n).to_owned();
        assert(s@ =~= decimal_chars(n as int));
        s
    } else {
        let mut s = port_decimal(n / 10);
        s.append(digit_str(n % 10));
        assert(s@ =~= decimal_chars(n as int));
        s
    }
}

/// Whether `c` is a decimal digit.
pub open spec fn is_digit(c: char) -> bool {
    '0' <= c && c <= '9'
}

/// The value of the digit `c`.
pub open spec fn digit_value(c: char) -> int {
    c as int - '0' as int
}

/// Whether every character of `s` is a decimal digit.
pub open spec fn all_digits(s: Seq<char>) -> bool {
    forall|k: int| 0 <= k < s.len() ==> is_digit(#[trigger] s[k])
}

/// The number that the digit string `s` denotes.
pub open spec fn digits_value(s: Seq<char>) -> int
    decreases s.len(),
{
    if s.len() == 0 {
        0
    } else {
        digits_value(s.drop_last()) * 10 + digit_value(s.last())
    }
}

/// What a port override parses to: the denoted number, provided the text is
/// one or more decimal digits and the number fits a port. Anything else —
/// empty, signs, spaces, other characters, too large — is no override.
pub open spec fn parsed_port(s: Seq<char>) -> Option<u16> {
    if s.len() > 0 && all_digits(s) && digits_value(s) <= u16::MAX {
        Some(digits_value(s) as u16)
    } else {
        None
    }
}

/// Each digit character denotes its digit.
proof fn lemma_digit_char_value(d: int)
    requires
        0 <= d <= 9,
    ensures
        is_digit(digit_char(d)),
        digit_value(digit_char(d)) == d,
{
}

/// Rendering a number in decimal and reading the digits back yields the
/// number: the rendering is all digits and denotes exactly what it rendered.
/// A port written into a URL or an environment value is therefore read back
/// unchanged.
pub proof fn lemma_decimal_round_trip(n: int)
    requires
        0 <= n,
    ensures
        all_digits(decimal_chars(n)),
        digits_value(decimal_chars(n)) == n,
    decreases n,
{
    if n <= 9 {
        lemma_digit_char_value(n);
        let s = decimal_chars(n);
        assert(s.len() == 1 && s.last() == digit_char(n));
        assert(s.drop_last() =~= Seq::<char>::empty());
        assert(digits_value(s.drop_last()) == 0);
        assert(digits_value(s) == digits_value(s.drop_last()) * 10 + digit_value(s.last()));
    } else {
        lemma_decimal_round_trip(n / 10);
        lemma_digit_char_value(n % 10);
        let s = decimal_chars(n);
        assert(s.drop_last() =~= decimal_chars(n / 10));
        assert(s.last() == digit_char(n % 10));
        assert(digits_value(s) == digits_value(s.drop_last()) * 10 + digit_value(s.last()));
        assert(n == (n / 10) * 10 + n % 10);
        assert(forall|k: int| 0 <= k < s.len() ==> is_digit(#[trigger] s[k])) by {
            assert(forall|k: int| 0 <= k < s.len() - 1 ==> s[k] == decimal_chars(n / 10)[k]);
        }
    }
}

/// A longer digit string denotes at least as large a number; in particular a
/// number too large for a port stays too large as digits are appended.
proof fn lemma_digits_value_grows(s: Seq<char>)
    requires
        s.len() > 0,
        all_digits(s),
    ensures
        digits_value(s) >= digits_value(s.drop_last()),
        digits_value(s) >= 0,
    decreases s.len(),
{
    if s.len() > 1 {
        lemma_digits_value_grows(s.drop_last());
    }
}

/// Parses a port number: `Some` exactly when the text is one or more decimal
/// digits denoting a number that fits a port, and then that number.
pub fn parse_port(s: &str) -> (r: Option<u16>)
    ensures
        r == parsed_port(s@),
{
    let n = s.unicode_len();
    let mut i: usize = 0;
    // Accumulates the value of the digits seen, saturating past the largest
    // port; `None` once a non-digit has been seen.
    let mut acc: Option<u32> = Some(0);
    while i < n
        invariant
            0 <= i <= n,
            n == s@.len(),
            (match acc {
                Some(v) => {
                    &&& all_digits(s@.subrange(0, i as int))
                    &&& if v <= u16::MAX {
                        v == digits_value(s@.subrange(0, i as int))
                    } else {
                        v == 0x1_0000 && digits_value(s@.subrange(0, i as int)) > u16::MAX
                    }
                },
                None => !all_digits(s@.subrange(0, i as int)),
            }),
        decreases n - i,
    {
        let c = s.get_char(i);
        let ghost pre = s@.subrange(0, i as int);
        let ghost cur = s@.subrange(0, i + 1 as int);
        proof {
            assert(cur.drop_last() =~= pre);
            assert(cur.last() == s@[i as int]);
        }
        if '0' <= c && c <= '9' {
            let d = (c as u32) - ('0' as u32);
            match acc {
                Some(v) => {
                    if v <= u16::MAX as u32 {
                        let next = v * 10 + d;
                        if next <= u16::MAX as u32 {
                            acc = Some(next);
                        } else {
                            acc = Some(0x1_0000);
                        }
                    } else {
                        proof {
                            lemma_digits_value_grows(cur);
                        }
                        assert(digits_value(cur) == digits_value(pre) * 10 + digit_value(c));
                        assert(digits_value(pre) > u16::MAX);
                        assert(digits_value(pre) * 10 >= digits_value(pre)) by {
                            lemma_digits_value_grows(pre);
                        }
                    }
                },
                None => {},
            }
        } else {
            acc = None;
            assert(!is_digit(cur[i as int]));
        }
        i = i + 1;
    }
    proof {
        assert(s@.subrange(0, n as int) =~= s@);
    }
    match acc {
        Some(v) => {
            if n == 0 {
                None
            } else if v <= u16::MAX as u32 {
                Some(v as u16)
            } else {
                None
            }
        },
        None => None,
    }
}

} // verus!
