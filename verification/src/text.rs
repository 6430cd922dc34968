//! Text helpers shared by the controllers: decimal rendering of numbers and
//! the test for a query that holds nothing but white space.

use vstd::prelude::*;
use vstd::std_specs::iter::IteratorSpec;
use vstd::string::*;

verus! {

/// The text of an optional string, where there is one.
pub open spec fn option_text(text: Option<String>) -> Option<Seq<char>> {
    match text {
        Some(text) => Some(text@),
        None => None,
    }
}

/// The character that writes the digit `d`, for `d` below ten.
pub open spec fn digit_char(d: nat) -> char {
    if d == 0 {
        '0'
    } else if d == 1 {
        '1'
    } else if d == 2 {
        '2'
    } else if d == 3 {
        '3'
    } else if d == 4 {
        '4'
    } else if d == 5 {
        '5'
    } else if d == 6 {
        '6'
    } else if d == 7 {
        '7'
    } else if d == 8 {
        '8'
    } else {
        '9'
    }
}

/// The decimal numeral of `n`: no sign, no leading zero, `"0"` for zero.
pub open spec fn decimal(n: nat) -> Seq<char>
    decreases n,
{
    if n < 10 {
        seq![digit_char(n)]
    } else {
        decimal(n / 10).push(digit_char(n % 10))
    }
}

/// The one-character text of a single digit.
fn digit_str(d: u64) -> (s: &'static str)
    requires
        d < 10,
    ensures
        s@ == seq![digit_char(d as nat)],
{
    proof {
        reveal_strlit("0");
        reveal_strlit("1");
        reveal_strlit("2");
        reveal_strlit("3");
        reveal_strlit("4");
        reveal_strlit("5");
        reveal_strlit("6");
        reveal_strlit("7");
        reveal_strlit("8");
        reveal_strlit("9");
    }
    if d == 0 {
        "0"
    } else if d == 1 {
        "1"
    } else if d == 2 {
        "2"
    } else if d == 3 {
        "3"
    } else if d == 4 {
        "4"
    } else if d == 5 {
        "5"
    } else if d == 6 {
        "6"
    } else if d == 7 {
        "7"
    } else if d == 8 {
        "8"
    } else {
        "9"
    }
}

/// Renders `n` as its decimal numeral.
pub fn to_decimal(n: u64) -> (s: String)
    ensures
        s@ == decimal(n as nat),
    decreases n,
{
    if n < 10 {
        String::from_str(digit_str(n))
    } else {
        let mut s = to_decimal(n / 10);
        s.append(digit_str(n % 10));
        s
    }
}

/// Whether `c` has the Unicode property White_Space.
pub open spec fn is_white_space(c: char) -> bool {
    let p = c as u32;
    ||| 0x09 <= p <= 0x0D
    ||| p == 0x20
    ||| p == 0x85
    ||| p == 0xA0
    ||| p == 0x1680
    ||| 0x2000 <= p <= 0x200A
    ||| p == 0x2028
    ||| p == 0x2029
    ||| p == 0x202F
    ||| p == 0x205F
    ||| p == 0x3000
}

/// Whether `s` is empty once leading and trailing white space is removed,
/// which is to say that every character of `s` is white space.
pub open spec fn blank(s: Seq<char>) -> bool {
    forall|i: int| 0 <= i < s.len() ==> is_white_space(#[trigger] s[i])
}

/// Tests one character for the property White_Space.
pub fn is_white_space_char(c: char) -> (b: bool)
    ensures
        b == is_white_space(c),
{
    let p: u32 = c as u32;
    (0x09 <= p && p <= 0x0D) || p == 0x20 || p == 0x85 || p == 0xA0 || p == 0x1680 || (0x2000
        <= p && p <= 0x200A) || p == 0x2028 || p == 0x2029 || p == 0x202F || p == 0x205F || p
        == 0x3000
}

/// Tests whether nothing but white space stands in `s`.
pub fn is_blank(s: &str) -> (b: bool)
    ensures
        b == blank(s@),
{
    broadcast use vstd::string::group_string_axioms;

    let mut rest = s.chars();
    let ghost mut seen: int = 0;
    loop
        invariant
            0 <= seen <= s@.len(),
            rest.remaining() == s@.skip(seen),
            forall|i: int| 0 <= i < seen ==> is_white_space(#[trigger] s@[i]),
        decreases s@.len() - seen,
    {
        match rest.next() {
            None => {
                return true;
            },
            Some(c) => {
                if !is_white_space_char(c) {
                    return false;
                }
                proof {
                    seen = seen + 1;
                }
            },
        }
    }
}

} // verus!
