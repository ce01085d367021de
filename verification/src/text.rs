//! The strings the presentation layer displays: decimal score text and
//! the game-over banner.

use vstd::prelude::*;
use crate::paddle::Side;
use vstd::string::StringExecFns;

verus! {

/// The character of one decimal digit.
pub open spec fn spec_digit_char(d: int) -> char {
    if d == 0 {
        '0'
    } else if d == 1 {
        '1'
    } else if d == 2 {
        '2'
    } else if d == 3 {
        '3'
    } else if d == 4 {
        '4'
    } else if d == 5 {
        '5'
    } else if d == 6 {
        '6'
    } else if d == 7 {
        '7'
    } else if d == 8 {
        '8'
    } else {
        '9'
    }
}

/// The decimal digits of `n`, most significant first, with no leading
/// zeroes (a single `'0'` for zero).
pub open spec fn spec_digits(n: int) -> Seq<char>
    recommends
        n >= 0,
    decreases n,
{
    if n < 10 {
        seq![spec_digit_char(n)]
    } else {
        spec_digits(n / 10).push(spec_digit_char(n % 10))
    }
}

/// The scoreboard line: left score, a spaced colon, right score.
pub open spec fn spec_score_text(l: int, r: int) -> Seq<char> {
    spec_digits(l) + " : "@ + spec_digits(r)
}

/// Relies on String::push, which appends the given character to the
/// end of the string.
#[verifier::external_body]
fn push_char(s: &mut String, c: char)
    ensures
        final(s)@ == old(s)@.push(c),
{
    s.push(c);
}

fn digit_char(d: u64) -> (c: char)
    requires
        d < 10,
    ensures
        c == spec_digit_char(d as int),
{
    if d == 0 {
        '0'
    } else if d == 1 {
        '1'
    } else if d == 2 {
        '2'
    } else if d == 3 {
        '3'
    } else if d == 4 {
        '4'
    } else if d == 5 {
        '5'
    } else if d == 6 {
        '6'
    } else if d == 7 {
        '7'
    } else if d == 8 {
        '8'
    } else {
        '9'
    }
}

/// Render `n` in decimal, most significant digit first.
pub fn decimal_string(n: u64) -> (s: String)
    ensures
        s@ == spec_digits(n as int),
    decreases n,
{
    if n < 10 {
        let mut s = String::new();
        push_char(&mut s, digit_char(n));
        proof {
            assert(s@ =~= spec_digits(n as int));
        }
        s
    } else {
        let mut s = decimal_string(n / 10);
        push_char(&mut s, digit_char(n % 10));
        s
    }
}

/// The scoreboard text `"{score_left} : {score_right}"`.
pub fn score_text(score_left: u64, score_right: u64) -> (s: String)
    ensures
        s@ == spec_score_text(score_left as int, score_right as int),
{
    let mut s = decimal_string(score_left);
    s.append(" : ");
    let right = decimal_string(score_right);
    s.append(right.as_str());
    proof {
        assert(s@ =~= spec_score_text(score_left as int, score_right as int));
    }
    s
}

/// The game-over banner `"{Winner} player won!"`.
pub fn winner_text(winner: Side) -> (s: String)
    ensures
        winner == Side::Left ==> s@ == "Left player won!"@,
        winner == Side::Right ==> s@ == "Right player won!"@,
{
    match winner {
        Side::Left => "Left player won!".to_owned(),
        Side::Right => "Right player won!".to_owned(),
    }
}

} // verus!
