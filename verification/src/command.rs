//! Commands as they arrive on a connection, and what the actuator decides for
//! each: which output to pulse, if any, and how the estimator follows.

use vstd::prelude::*;
use crate::estimator::{Estimate, MovementState, ShadeState};
use crate::travel::PRESS_TIME;

verus! {

/// What a line received from a client asks for.
#[derive(Clone, Copy, Debug, PartialEq, Eq, Structural)]
pub enum Command {
    /// Raise the shade.
    Up,
    /// Lower the shade.
    Down,
    /// Stop the shade.
    Stop,
    /// Anything else: only report the state.
    Query,
}

/// One of the three momentary outputs.
#[derive(Clone, Copy, Debug, PartialEq, Eq, Structural)]
pub enum Output {
    Raise,
    Lower,
    Stop,
}

/// The line `up`, with its newline, in ASCII.
pub open spec fn line_up() -> Seq<u8> {
    seq![117u8, 112u8, 10u8]
}

/// The line `down`, with its newline, in ASCII.
pub open spec fn line_down() -> Seq<u8> {
    seq![100u8, 111u8, 119u8, 110u8, 10u8]
}

/// The line `stop`, with its newline, in ASCII.
pub open spec fn line_stop() -> Seq<u8> {
    seq![115u8, 116u8, 111u8, 112u8, 10u8]
}

/// The command that a line stands for. The three commands are matched
/// exactly, in lower case and with the newline that ends them; every other
/// line, the empty one too, is a query.
pub open spec fn command_of(line: Seq<u8>) -> Command {
    if line == line_up() {
        Command::Up
    } else if line == line_down() {
        Command::Down
    } else if line == line_stop() {
        Command::Stop
    } else {
        Command::Query
    }
}

/// Reads the command of one received line.
pub fn parse_command(line: &[u8]) -> (command: Command)
    ensures
        command == command_of(line@),
{
    let n = line.len();
    if n == 3 && line[0] == 117u8 && line[1] == 112u8 && line[2] == 10u8 {
        assert(line@ =~= line_up());
        Command::Up
    } else if n == 5 && line[0] == 100u8 && line[1] == 111u8 && line[2] == 119u8 && line[3] == 110u8
        && line[4] == 10u8 {
        assert(line@ =~= line_down());
        Command::Down
    } else if n == 5 && line[0] == 115u8 && line[1] == 116u8 && line[2] == 111u8 && line[3] == 112u8
        && line[4] == 10u8 {
        assert(line@ =~= line_stop());
        Command::Stop
    } else {
        assert(line@ != line_up()) by {
            if line@ == line_up() {
                assert(line_up().len() == 3);
                assert(line_up()[0] == 117u8 && line_up()[1] == 112u8 && line_up()[2] == 10u8);
            }
        }
        assert(line@ != line_down()) by {
            if line@ == line_down() {
                assert(line_down().len() == 5);
                assert(line_down()[0] == 100u8 && line_down()[1] == 111u8 && line_down()[2] == 119u8
                    && line_down()[3] == 110u8 && line_down()[4] == 10u8);
            }
        }
        assert(line@ != line_stop()) by {
            if line@ == line_stop() {
                assert(line_stop().len() == 5);
                assert(line_stop()[0] == 115u8 && line_stop()[1] == 116u8 && line_stop()[2] == 111u8
                    && line_stop()[3] == 112u8 && line_stop()[4] == 10u8);
            }
        }
        Command::Query
    }
}

/// What a connection does next, once a read has returned.
#[derive(Clone, Copy, Debug, PartialEq, Eq, Structural)]
pub enum Turn {
    /// A line was received: carry out its command and report the state.
    Serve(Command),
    /// The peer is gone: leave the loop. Nothing shared is torn down.
    Close,
}

/// The turn that follows a read which returned `read` bytes (`None` where the
/// read failed) and left `line` in the buffer. A connection is closed by a
/// read of no bytes or a failed read; any line that did arrive is served,
/// whatever it holds.
pub open spec fn turn_of(read: Option<usize>, line: Seq<u8>) -> Turn {
    match read {
        Some(received) => if received == 0 {
            Turn::Close
        } else {
            Turn::Serve(command_of(line))
        },
        None => Turn::Close,
    }
}

/// Decides what a connection does after a read.
pub fn next_turn(read: Option<usize>, line: &[u8]) -> (turn: Turn)
    ensures
        turn == turn_of(read, line@),
{
    match read {
        Some(received) => {
            if received == 0 {
                Turn::Close
            } else {
                Turn::Serve(parse_command(line))
            }
        },
        None => Turn::Close,
    }
}

/// The output that a command pulses, given the estimate as reconciled on
/// receipt of the command. Raising and lowering always pulse. Stopping a
/// shade that is at rest pulses nothing, and neither does a query.
pub open spec fn output_for(command: Command, reconciled: Estimate) -> Option<Output> {
    match command {
        Command::Up => Some(Output::Raise),
        Command::Down => Some(Output::Lower),
        Command::Stop => if reconciled.is_stopped() {
            None
        } else {
            Some(Output::Stop)
        },
        Command::Query => None,
    }
}

/// Milliseconds for which an output is held active: the press time where it
/// could be driven, and not at all where it could not.
pub open spec fn hold_for(driven: bool) -> u64 {
    if driven {
        PRESS_TIME
    } else {
        0
    }
}

/// How the estimate follows an attempt to drive `output`.
///
/// Raising and lowering start their movement whether or not the output could
/// be driven, with the bounds brought up to the present. A stop puts the
/// estimator at rest only where its output was driven: a shade that was not
/// told to stop goes on as before.
pub open spec fn follows(before: Estimate, after: Estimate, output: Output, driven: bool) -> bool {
    match output {
        Output::Raise => after.movement is MovingUp && before.reconciles_bounds_to(after),
        Output::Lower => after.movement is MovingDown && before.reconciles_bounds_to(after),
        Output::Stop => if driven {
            after.is_stopped() && before.reconciles_bounds_to(after)
        } else {
            after == before
        },
    }
}

impl ShadeState {
    /// First half of a command: decides which output is to be driven active.
    ///
    /// A stop and a query bring the estimator up to the present; raising and
    /// lowering leave it as it is until the output has been driven.
    pub fn plan(&mut self, command: Command) -> (output: Option<Output>)
        ensures
            output == output_for(command, final(self)@),
            command == Command::Up || command == Command::Down ==> final(self)@ == old(self)@,
            command == Command::Stop || command == Command::Query ==> old(self)@.reconciles_to(
                final(self)@,
            ),
            old(self)@.is_stopped() ==> final(self)@ == old(self)@,
            final(self)@.wf(),
    {
        match command {
            Command::Up => {
                self.bounds_in_order();
                Some(Output::Raise)
            },
            Command::Down => {
                self.bounds_in_order();
                Some(Output::Lower)
            },
            Command::Stop => {
                self.record();
                match self.movement() {
                    MovementState::Stopped => None,
                    _ => Some(Output::Stop),
                }
            },
            Command::Query => {
                self.record();
                None
            },
        }
    }

    /// Second half of a command: follows an attempt to drive `output` active,
    /// which succeeded or not as `driven` says, and returns the milliseconds
    /// for which the output is to be held before it is released.
    pub fn commit(&mut self, output: Output, driven: bool) -> (hold_millis: u64)
        ensures
            hold_millis == hold_for(driven),
            follows(old(self)@, final(self)@, output, driven),
            final(self)@.wf(),
    {
        match output {
            Output::Raise => self.move_up(),
            Output::Lower => self.move_down(),
            Output::Stop => {
                if driven {
                    self.stop();
                } else {
                    self.bounds_in_order();
                }
            },
        }
        if driven {
            PRESS_TIME
        } else {
            0
        }
    }
}

} // verus!
