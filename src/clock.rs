use vstd::prelude::*;

verus! {

/// The text shown for a time that is undefined at a place and date.
pub const INVALID_TIME: &'static str = "-----";

/// The decimal digit `d`, for `d < 10`.
pub open spec fn spec_digit_char(d: nat) -> char {
    if d == 0 {
        '0'
    } else if d == 1 {
        '1'
    } else if d == 2 {
        '2'
    } else if d == 3 {
        '3'
    } else if d == 4 {
        '4'
    } else if d == 5 {
        '5'
    } else if d == 6 {
        '6'
    } else if d == 7 {
        '7'
    } else if d == 8 {
        '8'
    } else {
        '9'
    }
}

/// The value of the decimal digit `c`, if it is one.
pub open spec fn spec_digit_value(c: char) -> Option<nat> {
    if '0' <= c && c <= '9' {
        Some((c as nat - '0' as nat) as nat)
    } else {
        None
    }
}

/// The decimal digits of `n`, without leading zeros (`0` for zero).
pub open spec fn spec_decimal(n: nat) -> Seq<char>
    decreases n,
{
    if n < 10 {
        seq![spec_digit_char(n)]
    } else {
        spec_decimal(n / 10).push(spec_digit_char(n % 10))
    }
}

/// The decimal digits of `n`, padded with a zero to at least two.
pub open spec fn spec_two_digits(n: nat) -> Seq<char> {
    if n < 10 {
        seq!['0', spec_digit_char(n)]
    } else {
        spec_decimal(n)
    }
}

/// The `HH:MM` text of `hours` and `minutes`, or the undefined-time text.
pub open spec fn spec_time24_text(parts: Option<(usize, usize)>) -> Seq<char> {
    match parts {
        Some((hours, minutes)) => spec_two_digits(hours as nat) + seq![':'] + spec_two_digits(
            minutes as nat,
        ),
        None => seq!['-', '-', '-', '-', '-'],
    }
}

/// The hours and minutes that a five-character `HH:MM` text reads, if `s`
/// is one.
pub open spec fn spec_parse_time24(s: Seq<char>) -> Option<(usize, usize)> {
    if s.len() == 5 && s[2] == ':' && spec_digit_value(s[0]) is Some && spec_digit_value(
        s[1],
    ) is Some && spec_digit_value(s[3]) is Some && spec_digit_value(s[4]) is Some {
        let h = 10 * spec_digit_value(s[0])->0 + spec_digit_value(s[1])->0;
        let m = 10 * spec_digit_value(s[3])->0 + spec_digit_value(s[4])->0;
        Some((h as usize, m as usize))
    } else {
        None
    }
}

/// The one-character text of the digit `d`.
fn digit_str(d: usize) -> (r: &'static str)
    requires
        d < 10,
    ensures
        r@ == seq![spec_digit_char(d as nat)],
{
    proof {
        reveal_strlit("0");
        reveal_strlit("1");
        reveal_strlit("2");
        reveal_strlit("3");
        reveal_strlit("4");
        reveal_strlit("5");
        reveal_strlit("6");
        reveal_strlit("7");
        reveal_strlit("8");
        reveal_strlit("9");
    }
    match d {
        0 => "0",
        1 => "1",
        2 => "2",
        3 => "3",
        4 => "4",
        5 => "5",
        6 => "6",
        7 => "7",
        8 => "8",
        _ => "9",
    }
}

/// Appends the decimal digits of `n` to `s`.
fn push_decimal(s: &mut String, n: usize)
    ensures
        final(s)@ == old(s)@ + spec_decimal(n as nat),
    decreases n,
{
    if n >= 10 {
        push_decimal(s, n / 10);
    }
    s.append(digit_str(n % 10));
    assert(n < 10 ==> n % 10 == n);
}

/// Appends the decimal digits of `n`, padded to at least two, to `s`.
fn push_two_digits(s: &mut String, n: usize)
    ensures
        final(s)@ == old(s)@ + spec_two_digits(n as nat),
{
    if n < 10 {
        s.append(digit_str(0));
        s.append(digit_str(n));
    } else {
        push_decimal(s, n);
    }
}

/// The `HH:MM` text of a time given as whole hours and minutes, each
/// zero-padded to two digits, or `-----` for an undefined time.
pub fn time24_text(parts: Option<(usize, usize)>) -> (r: String)
    ensures
        r@ == spec_time24_text(parts),
{
    match parts {
        Some((hours, minutes)) => {
            let mut s = String::new();
            push_two_digits(&mut s, hours);
            proof {
                reveal_strlit(":");
            }
            s.append(":");
            push_two_digits(&mut s, minutes);
            s
        },
        None => {
            proof {
                reveal_strlit("-----");
            }
            String::from_str(INVALID_TIME)
        },
    }
}

/// The value of the digit `c`, if it is one.
fn digit_value(c: char) -> (r: Option<usize>)
    ensures
        r matches Some(v) ==> spec_digit_value(c) == Some(v as nat),
        r is None ==> spec_digit_value(c) is None,
{
    if '0' <= c && c <= '9' {
        Some((c as u32 - '0' as u32) as usize)
    } else {
        None
    }
}

/// Reads back the hours and minutes of a five-character `HH:MM` text;
/// `None` for any other text, the undefined-time text among them.
pub fn parse_time24(s: &str) -> (r: Option<(usize, usize)>)
    ensures
        r == spec_parse_time24(s@),
{
    if s.unicode_len() != 5 {
        return None;
    }
    let h1 = digit_value(s.get_char(0));
    let h2 = digit_value(s.get_char(1));
    let sep = s.get_char(2);
    let m1 = digit_value(s.get_char(3));
    let m2 = digit_value(s.get_char(4));
    match (h1, h2, m1, m2) {
        (Some(a), Some(b), Some(c), Some(d)) => if sep == ':' {
            Some((10 * a + b, 10 * c + d))
        } else {
            None
        },
        _ => None,
    }
}

/// A digit reads back as the value it was written from.
proof fn lemma_digit_round_trip(d: nat)
    requires
        d < 10,
    ensures
        spec_digit_value(spec_digit_char(d)) == Some(d),
{
}

/// A number under a hundred is written as exactly two digits.
proof fn lemma_two_digits_below_hundred(n: nat)
    requires
        n < 100,
    ensures
        spec_two_digits(n) == seq![spec_digit_char(n / 10), spec_digit_char(n % 10)],
{
    if n >= 10 {
        assert(spec_decimal(n / 10) == seq![spec_digit_char(n / 10)]);
        assert(spec_decimal(n) =~= seq![spec_digit_char(n / 10), spec_digit_char(n % 10)]);
    } else {
        assert(n / 10 == 0 && n % 10 == n);
    }
}

/// Writing a time as `HH:MM` text and reading it back gives the same hours
/// and minutes, for hours and minutes under a hundred; the undefined-time
/// text reads back as undefined. Hence writing what was read back gives the
/// same text again.
pub proof fn lemma_time24_round_trip(parts: Option<(usize, usize)>)
    requires
        parts matches Some((hours, minutes)) ==> hours < 100 && minutes < 100,
    ensures
        spec_parse_time24(spec_time24_text(parts)) == parts,
        spec_time24_text(spec_parse_time24(spec_time24_text(parts))) == spec_time24_text(parts),
{
    match parts {
        Some((hours, minutes)) => {
            let h = hours as nat;
            let m = minutes as nat;
            lemma_two_digits_below_hundred(h);
            lemma_two_digits_below_hundred(m);
            lemma_digit_round_trip(h / 10);
            lemma_digit_round_trip(h % 10);
            lemma_digit_round_trip(m / 10);
            lemma_digit_round_trip(m % 10);
            let s = spec_time24_text(parts);
            assert(s =~= seq![
                spec_digit_char(h / 10),
                spec_digit_char(h % 10),
                ':',
                spec_digit_char(m / 10),
                spec_digit_char(m % 10),
            ]);
        },
        None => {
            assert(spec_time24_text(parts)[2] == '-');
        },
    }
}

} // verus!
