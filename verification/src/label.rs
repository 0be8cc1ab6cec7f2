//! Formatting of data coordinates for axis labels.
//!
//! A coordinate in milli-units is printed with two decimal places: the
//! magnitude is rounded to the nearest hundredth (half away from zero),
//! and a negative value carries a leading minus sign.

use vstd::prelude::*;
use vstd::string::StringExecFns;
use crate::node::Coords;

verus! {

/// The decimal digit character for `d`.
pub open spec fn spec_digit_char(d: int) -> char
    recommends
        0 <= d < 10,
{
    if d == 0 {
        '0'
    } else if d == 1 {
        '1'
    } else if d == 2 {
        '2'
    } else if d == 3 {
        '3'
    } else if d == 4 {
        '4'
    } else if d == 5 {
        '5'
    } else if d == 6 {
        '6'
    } else if d == 7 {
        '7'
    } else if d == 8 {
        '8'
    } else {
        '9'
    }
}

/// The decimal digit string of `n`, most significant digit first, without
/// leading zeros (a lone zero for `n == 0`).
pub open spec fn spec_digits(n: nat) -> Seq<char>
    decreases n,
{
    if n < 10 {
        seq![spec_digit_char(n as int)]
    } else {
        spec_digits(n / 10) + seq![spec_digit_char((n % 10) as int)]
    }
}

/// The label text of a coordinate of `m` milli-units: the magnitude rounded
/// to hundredths (half away from zero) with exactly two decimal places, and
/// a leading minus sign when `m` is negative.
pub open spec fn spec_format_coord(m: int) -> Seq<char> {
    let a = if m < 0 {
        -m
    } else {
        m
    };
    let c = (a + 5) / 10;
    let ip = c / 100;
    let fp = c % 100;
    let body = spec_digits(ip as nat) + seq![
        '.',
        spec_digit_char(fp / 10),
        spec_digit_char(fp % 10),
    ];
    if m < 0 {
        seq!['-'] + body
    } else {
        body
    }
}

fn digit_str(d: u64) -> (r: &'static str)
    requires
        d < 10,
    ensures
        r@ == seq![spec_digit_char(d as int)],
{
    proof {
        reveal_strlit("0");
        reveal_strlit("1");
        reveal_strlit("2");
        reveal_strlit("3");
        reveal_strlit("4");
        reveal_strlit("5");
        reveal_strlit("6");
        reveal_strlit("7");
        reveal_strlit("8");
        reveal_strlit("9");
    }
    let r = if d == 0 {
        "0"
    } else if d == 1 {
        "1"
    } else if d == 2 {
        "2"
    } else if d == 3 {
        "3"
    } else if d == 4 {
        "4"
    } else if d == 5 {
        "5"
    } else if d == 6 {
        "6"
    } else if d == 7 {
        "7"
    } else if d == 8 {
        "8"
    } else {
        "9"
    };
    proof {
        assert(r@ =~= seq![spec_digit_char(d as int)]);
    }
    r
}

fn push_digits(s: &mut String, n: u64)
    ensures
        final(s)@ == old(s)@ + spec_digits(n as nat),
    decreases n,
{
    if n < 10 {
        s.append(digit_str(n));
        assert(s@ =~= old(s)@ + spec_digits(n as nat));
    } else {
        push_digits(s, n / 10);
        s.append(digit_str(n % 10));
        assert(s@ =~= old(s)@ + spec_digits(n as nat));
    }
}

/// Print a coordinate of `m` milli-units with two decimal places.
pub fn format_coord(m: i64) -> (r: String)
    requires
        -1_000_000_000_000 <= m <= 1_000_000_000_000,
    ensures
        r@ == spec_format_coord(m as int),
{
    proof {
        reveal_strlit("-");
        reveal_strlit(".");
    }
    let neg = m < 0;
    let a: u64 = if neg {
        (-m) as u64
    } else {
        m as u64
    };
    let c = (a + 5) / 10;
    let ip = c / 100;
    let fp = c % 100;
    let mut s = String::new();
    if neg {
        s.append("-");
    }
    push_digits(&mut s, ip);
    s.append(".");
    s.append(digit_str(fp / 10));
    s.append(digit_str(fp % 10));
    proof {
        assert(s@ =~= spec_format_coord(m as int));
    }
    s
}

/// The shortest decimal text of a value of `m` milli-units: the sign, the
/// whole part, and the fraction with trailing zeros trimmed; a whole value
/// carries no decimal point at all.
pub open spec fn spec_format_milli(m: int) -> Seq<char> {
    let a = if m < 0 {
        -m
    } else {
        m
    };
    let ip = a / 1000;
    let fr = a % 1000;
    let d1 = fr / 100;
    let d2 = (fr / 10) % 10;
    let d3 = fr % 10;
    let body = if fr == 0 {
        spec_digits(ip as nat)
    } else if d3 != 0 {
        spec_digits(ip as nat) + seq!['.', spec_digit_char(d1), spec_digit_char(d2), spec_digit_char(d3)]
    } else if d2 != 0 {
        spec_digits(ip as nat) + seq!['.', spec_digit_char(d1), spec_digit_char(d2)]
    } else {
        spec_digits(ip as nat) + seq!['.', spec_digit_char(d1)]
    };
    if m < 0 {
        seq!['-'] + body
    } else {
        body
    }
}

/// Print a value of `m` milli-units in its shortest decimal form.
pub fn format_milli(m: i64) -> (r: String)
    requires
        -1_000_000_000_000 <= m <= 1_000_000_000_000,
    ensures
        r@ == spec_format_milli(m as int),
{
    proof {
        reveal_strlit("-");
        reveal_strlit(".");
    }
    let neg = m < 0;
    let a: u64 = if neg {
        (-m) as u64
    } else {
        m as u64
    };
    let ip = a / 1000;
    let fr = a % 1000;
    let mut s = String::new();
    if neg {
        s.append("-");
    }
    push_digits(&mut s, ip);
    if fr != 0 {
        let d1 = fr / 100;
        let d2 = (fr / 10) % 10;
        let d3 = fr % 10;
        s.append(".");
        s.append(digit_str(d1));
        if d3 != 0 {
            s.append(digit_str(d2));
            s.append(digit_str(d3));
        } else if d2 != 0 {
            s.append(digit_str(d2));
        }
    }
    proof {
        assert(s@ =~= spec_format_milli(m as int));
    }
    s
}

/// The position label of a node: its three coordinates in shortest decimal
/// form, comma-separated in parentheses.
pub open spec fn spec_coords_label(c: Coords) -> Seq<char> {
    seq!['('] + spec_format_milli(c.x as int) + seq![',', ' '] + spec_format_milli(c.y as int)
        + seq![',', ' '] + spec_format_milli(c.z as int) + seq![')']
}

/// Print a node's position label, `(x, y, z)`.
pub fn coords_label(c: &Coords) -> (r: String)
    requires
        c.wf(),
    ensures
        r@ == spec_coords_label(*c),
{
    proof {
        reveal_strlit("(");
        reveal_strlit(", ");
        reveal_strlit(")");
    }
    let mut s = String::new();
    s.append("(");
    let x = format_milli(c.x);
    s.append(x.as_str());
    s.append(", ");
    let y = format_milli(c.y);
    s.append(y.as_str());
    s.append(", ");
    let z = format_milli(c.z);
    s.append(z.as_str());
    s.append(")");
    proof {
        assert(s@ =~= spec_coords_label(*c));
    }
    s
}

/// The battery label of a node: the level in whole units, rounded half away
/// from zero, followed by a percent sign.
pub open spec fn spec_battery_label(b: int) -> Seq<char> {
    spec_digits(((b + 500) / 1000) as nat) + seq!['%']
}

/// Print a node's battery label, a whole percentage.
pub fn battery_label(b: i64) -> (r: String)
    requires
        0 <= b <= 1_000_000_000_000,
    ensures
        r@ == spec_battery_label(b as int),
{
    proof {
        reveal_strlit("%");
    }
    let mut s = String::new();
    push_digits(&mut s, ((b + 500) / 1000) as u64);
    s.append("%");
    proof {
        assert(s@ =~= spec_battery_label(b as int));
    }
    s
}

} // verus!
