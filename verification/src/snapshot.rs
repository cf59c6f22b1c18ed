//! The state report sent back after every line: one JSON object.

use vstd::prelude::*;
use vstd::string::*;
use crate::estimator::{Estimate, MovementState, ShadeState};

verus! {

/// The character of a decimal digit.
pub open spec fn digit_char(digit: nat) -> char
    recommends
        digit < 10,
{
    if digit == 0 {
        '0'
    } else if digit == 1 {
        '1'
    } else if digit == 2 {
        '2'
    } else if digit == 3 {
        '3'
    } else if digit == 4 {
        '4'
    } else if digit == 5 {
        '5'
    } else if digit == 6 {
        '6'
    } else if digit == 7 {
        '7'
    } else if digit == 8 {
        '8'
    } else {
        '9'
    }
}

/// A number in decimal, without sign or leading zeros.
pub open spec fn decimal(n: nat) -> Seq<char>
    decreases n,
{
    if n < 10 {
        seq![digit_char(n)]
    } else {
        decimal(n / 10).push(digit_char(n % 10))
    }
}

/// The name under which a movement is reported.
pub open spec fn movement_name(movement: MovementState) -> Seq<char> {
    match movement {
        MovementState::MovingUp(_) => "up"@,
        MovementState::MovingDown(_) => "down"@,
        MovementState::Stopped => "stopped"@,
    }
}

/// The report of an estimate: the movement's name, the upper bound, the lower
/// bound and the best guess, in this order.
pub open spec fn report(estimate: Estimate) -> Seq<char> {
    "{\"state\": \""@ + movement_name(estimate.movement) + "\",\"max_pos\":"@ + decimal(
        estimate.max_pos as nat,
    ) + ",\"min_pos\":"@ + decimal(estimate.min_pos as nat) + ",\"probably\":"@ + decimal(
        estimate.probably(),
    ) + "}"@
}

impl MovementState {
    /// The name under which the movement is reported: `up`, `down` or
    /// `stopped`.
    pub fn name(&self) -> (name: &'static str)
        ensures
            name@ == movement_name(*self),
    {
        match self {
            MovementState::MovingUp(_) => "up",
            MovementState::MovingDown(_) => "down",
            MovementState::Stopped => "stopped",
        }
    }
}

/// One decimal digit as text.
fn digit_text(digit: u16) -> (text: &'static str)
    requires
        digit < 10,
    ensures
        text@ == seq![digit_char(digit as nat)],
{
    proof {
        reveal_strlit("0");
        reveal_strlit("1");
        reveal_strlit("2");
        reveal_strlit("3");
        reveal_strlit("4");
        reveal_strlit("5");
        reveal_strlit("6");
        reveal_strlit("7");
        reveal_strlit("8");
        reveal_strlit("9");
    }
    let text = if digit == 0 {
        "0"
    } else if digit == 1 {
        "1"
    } else if digit == 2 {
        "2"
    } else if digit == 3 {
        "3"
    } else if digit == 4 {
        "4"
    } else if digit == 5 {
        "5"
    } else if digit == 6 {
        "6"
    } else if digit == 7 {
        "7"
    } else if digit == 8 {
        "8"
    } else {
        "9"
    };
    assert(text@ =~= seq![digit_char(digit as nat)]);
    text
}

/// Appends `n` in decimal to `out`.
pub fn push_decimal(out: &mut String, n: u16)
    ensures
        final(out)@ == old(out)@ + decimal(n as nat),
    decreases n,
{
    if n >= 10 {
        push_decimal(out, n / 10);
    }
    out.append(digit_text(n % 10));
    assert(out@ =~= old(out)@ + decimal(n as nat));
}

impl ShadeState {
    /// The report of the estimator as it stands, as JSON text.
    pub fn json(&self) -> (text: String)
        ensures
            text@ == report(self@),
    {
        let mut text = String::from_str("{\"state\": \"");
        text.append(self.movement().name());
        text.append("\",\"max_pos\":");
        push_decimal(&mut text, self.max_pos());
        text.append(",\"min_pos\":");
        push_decimal(&mut text, self.min_pos());
        text.append(",\"probably\":");
        push_decimal(&mut text, self.probably());
        text.append("}");
        text
    }
}

} // verus!
