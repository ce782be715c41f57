//! The countdown line's text.
//!
//! Each tick renders one line of the form
//! `Sleeping after {days}d {hours}h {minutes}m {seconds}s. Press Ctrl+c to cancel.`
//! with the remaining time decomposed greedily into the four units.
//! The text is built here, character-exact against its specification;
//! the binary around the library only clears the previous line and
//! prints this one.

use vstd::prelude::*;
use vstd::arithmetic::div_mod::lemma_small_mod;
use crate::duration::{days_part, decompose, hours_part, minutes_part, seconds_part};

verus! {

/// The character for one decimal digit.
pub open spec fn digit_char(d: nat) -> char {
    if d == 0 {
        '0'
    } else if d == 1 {
        '1'
    } else if d == 2 {
        '2'
    } else if d == 3 {
        '3'
    } else if d == 4 {
        '4'
    } else if d == 5 {
        '5'
    } else if d == 6 {
        '6'
    } else if d == 7 {
        '7'
    } else if d == 8 {
        '8'
    } else {
        '9'
    }
}

/// The decimal digits of a number, most significant first, with no
/// leading zero except for the number zero itself.
pub open spec fn decimal_digits(n: nat) -> Seq<char>
    decreases n,
{
    if n < 10 {
        seq![digit_char(n)]
    } else {
        decimal_digits(n / 10) + seq![digit_char(n % 10)]
    }
}

/// The one-character string for a decimal digit.
fn digit_str(d: u64) -> (r: &'static str)
    requires
        d < 10,
    ensures
        r@ == seq![digit_char(d as nat)],
{
    let r: &'static str = if d == 0 {
        proof {
            reveal_strlit("0");
        }
        "0"
    } else if d == 1 {
        proof {
            reveal_strlit("1");
        }
        "1"
    } else if d == 2 {
        proof {
            reveal_strlit("2");
        }
        "2"
    } else if d == 3 {
        proof {
            reveal_strlit("3");
        }
        "3"
    } else if d == 4 {
        proof {
            reveal_strlit("4");
        }
        "4"
    } else if d == 5 {
        proof {
            reveal_strlit("5");
        }
        "5"
    } else if d == 6 {
        proof {
            reveal_strlit("6");
        }
        "6"
    } else if d == 7 {
        proof {
            reveal_strlit("7");
        }
        "7"
    } else if d == 8 {
        proof {
            reveal_strlit("8");
        }
        "8"
    } else {
        proof {
            reveal_strlit("9");
        }
        "9"
    };
    proof {
        assert(r@ =~= seq![digit_char(d as nat)]);
    }
    r
}

/// Writes a number in decimal, most significant digit first.
pub fn decimal_string(n: u64) -> (r: String)
    ensures
        r@ == decimal_digits(n as nat),
    decreases n,
{
    if n < 10 {
        proof {
            lemma_small_mod(n as nat, 10);
        }
        let digit = digit_str(n);
        digit.to_owned()
    } else {
        proof {
            assert(n / 10 < n) by (nonlinear_arith)
                requires
                    n >= 10,
            ;
        }
        let prefix = decimal_string(n / 10);
        let digit = digit_str(n % 10);
        prefix.concat(digit)
    }
}

/// The countdown line for a remaining duration: the four greedy parts,
/// each with its unit letter, and the cancellation hint.
pub open spec fn countdown_line(total: int) -> Seq<char> {
    "Sleeping after "@ + decimal_digits(days_part(total) as nat) + "d "@ + decimal_digits(
        hours_part(total) as nat,
    ) + "h "@ + decimal_digits(minutes_part(total) as nat) + "m "@ + decimal_digits(
        seconds_part(total) as nat,
    ) + "s. Press Ctrl+c to cancel."@
}

/// Builds the line rendered once per tick for the remaining duration.
pub fn duration_line(total: u64) -> (r: String)
    ensures
        r@ == countdown_line(total as int),
{
    let (days, hours, minutes, seconds) = decompose(total);
    let mut line: String = "Sleeping after ".to_owned();
    line.append(decimal_string(days).as_str());
    line.append("d ");
    line.append(decimal_string(hours).as_str());
    line.append("h ");
    line.append(decimal_string(minutes).as_str());
    line.append("m ");
    line.append(decimal_string(seconds).as_str());
    line.append("s. Press Ctrl+c to cancel.");
    proof {
        assert(line@ =~= countdown_line(total as int));
    }
    line
}

} // verus!
