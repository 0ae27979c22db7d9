//! Verified decimal formatting for the parameter display texts: unsigned
//! integers, and fixed-point values shown with three decimal places, rounded
//! to the nearest thousandth with ties away from zero.

use vstd::prelude::*;
use vstd::string::*;

verus! {

/// The decimal digit character for a value below ten.
pub open spec fn digit_char(d: int) -> char {
    if d == 0 {
        '0'
    } else if d == 1 {
        '1'
    } else if d == 2 {
        '2'
    } else if d == 3 {
        '3'
    } else if d == 4 {
        '4'
    } else if d == 5 {
        '5'
    } else if d == 6 {
        '6'
    } else if d == 7 {
        '7'
    } else if d == 8 {
        '8'
    } else {
        '9'
    }
}

/// The decimal digit string of a natural number, most significant first,
/// without leading zeros (a single zero for zero itself).
pub open spec fn dec_seq(n: nat) -> Seq<char>
    decreases n,
{
    if n < 10 {
        seq![digit_char(n as int)]
    } else {
        dec_seq(n / 10) + seq![digit_char((n % 10) as int)]
    }
}

/// The display text of a fixed-point value with three decimal places: an
/// optional minus sign, the whole part, a point, and exactly three fraction
/// digits, after rounding to the nearest thousandth (ties away from zero).
pub open spec fn fixed3_seq(q: int) -> Seq<char> {
    let a = if q < 0 {
        -q
    } else {
        q
    };
    let m = (a + 500) / 1000;
    let whole = m / 1000;
    let fr = m % 1000;
    let sign: Seq<char> = if q < 0 {
        seq!['-']
    } else {
        Seq::empty()
    };
    sign + dec_seq(whole as nat) + seq!['.'] + seq![
        digit_char(fr / 100),
        digit_char((fr / 10) % 10),
        digit_char(fr % 10),
    ]
}

/// The one-character string of a decimal digit.
fn digit_str(d: u64) -> (r: &'static str)
    requires
        d < 10,
    ensures
        r@ == seq![digit_char(d as int)],
{
    proof {
        reveal_strlit("0");
        reveal_strlit("1");
        reveal_strlit("2");
        reveal_strlit("3");
        reveal_strlit("4");
        reveal_strlit("5");
        reveal_strlit("6");
        reveal_strlit("7");
        reveal_strlit("8");
        reveal_strlit("9");
        assert("0"@ =~= seq!['0']);
        assert("1"@ =~= seq!['1']);
        assert("2"@ =~= seq!['2']);
        assert("3"@ =~= seq!['3']);
        assert("4"@ =~= seq!['4']);
        assert("5"@ =~= seq!['5']);
        assert("6"@ =~= seq!['6']);
        assert("7"@ =~= seq!['7']);
        assert("8"@ =~= seq!['8']);
        assert("9"@ =~= seq!['9']);
    }
    if d == 0 {
        "0"
    } else if d == 1 {
        "1"
    } else if d == 2 {
        "2"
    } else if d == 3 {
        "3"
    } else if d == 4 {
        "4"
    } else if d == 5 {
        "5"
    } else if d == 6 {
        "6"
    } else if d == 7 {
        "7"
    } else if d == 8 {
        "8"
    } else {
        "9"
    }
}

/// The decimal digit string of an unsigned integer.
pub fn u64_string(n: u64) -> (r: String)
    ensures
        r@ == dec_seq(n as nat),
    decreases n,
{
    if n < 10 {
        digit_str(n).to_owned()
    } else {
        let mut s = u64_string(n / 10);
        s.append(digit_str(n % 10));
        assert(s@ =~= dec_seq(n as nat));
        s
    }
}

/// Formats a fixed-point value with three decimal places, as its
/// specification [`fixed3_seq`] describes.
pub fn format_fixed_3(q: i64) -> (r: String)
    ensures
        r@ == fixed3_seq(q as int),
{
    let mag: u64 = if q < 0 {
        (-(q as i128)) as u64
    } else {
        q as u64
    };
    let m: u64 = (mag + 500) / 1000;
    let whole: u64 = m / 1000;
    let fr: u64 = m % 1000;
    let mut s: String = if q < 0 {
        proof {
            reveal_strlit("-");
        }
        let t = "-".to_owned();
        assert(t@ =~= seq!['-']);
        t
    } else {
        proof {
            reveal_strlit("");
        }
        let t = "".to_owned();
        assert(t@ =~= Seq::<char>::empty());
        t
    };
    let w = u64_string(whole);
    s.append(w.as_str());
    proof {
        reveal_strlit(".");
        assert("."@ =~= seq!['.']);
    }
    s.append(".");
    s.append(digit_str(fr / 100));
    s.append(digit_str((fr / 10) % 10));
    s.append(digit_str(fr % 10));
    assert(s@ =~= fixed3_seq(q as int));
    s
}

} // verus!
