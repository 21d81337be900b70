//! Deciding what connecting to a listed port does.
//!
//! Opening the system's MIDI client and the connection itself is the
//! caller's work; this module decides which client is opened and whether a
//! connection is attempted or refused, and with which message.

use vstd::prelude::*;
use crate::ports::Direction;

verus! {

/// Why a port cannot be connected to as an output.
#[derive(Clone, Copy, Debug, PartialEq, Eq, Structural)]
pub enum ConnectError {
    /// The port was listed as an input port.
    InputRatherThanOutput,
    /// The port handle does not match the direction it was listed with.
    NoOutputConnection,
}

/// The message raised for each refusal.
pub open spec fn error_message(e: ConnectError) -> Seq<char> {
    match e {
        ConnectError::InputRatherThanOutput => "Input connection rather than output."@,
        ConnectError::NoOutputConnection => "No output connection"@,
    }
}

impl ConnectError {
    /// The message raised to the caller for this refusal.
    pub fn message(&self) -> (text: String)
        ensures
            text@ == error_message(*self),
            *self == ConnectError::InputRatherThanOutput ==> text@ == "Input connection rather than output."@,
            *self == ConnectError::NoOutputConnection ==> text@ == "No output connection"@,
    {
        match self {
            ConnectError::InputRatherThanOutput => String::from_str("Input connection rather than output."),
            ConnectError::NoOutputConnection => String::from_str("No output connection"),
        }
    }
}

/// What connecting does once the client is open.
#[derive(Clone, Copy, Debug, PartialEq, Eq, Structural)]
pub enum ConnectStep {
    /// Connect the output client to the output port.
    OpenOutput,
    /// Raise this error without connecting.
    Refuse(ConnectError),
}

/// The decision: which client to open first, then what to do.
#[derive(Clone, Copy, Debug, PartialEq, Eq, Structural)]
pub struct ConnectPlan {
    pub client: Direction,
    pub step: ConnectStep,
}

/// The decision for a port listed in `direction` whose handle is of kind
/// `handle`.
pub open spec fn spec_connect_plan(direction: Direction, handle: Direction) -> ConnectPlan {
    ConnectPlan {
        client: direction,
        step: match (direction, handle) {
            (Direction::Output, Direction::Output) => ConnectStep::OpenOutput,
            (Direction::Input, Direction::Input) => ConnectStep::Refuse(ConnectError::InputRatherThanOutput),
            _ => ConnectStep::Refuse(ConnectError::NoOutputConnection),
        },
    }
}

/// Decides how to connect to a port listed in `direction` whose handle is an
/// input or output port (`handle`). A port listed as output opens an output
/// client and, when its handle is an output port, connects to it; a port
/// listed otherwise opens an input client and is refused: as an input port
/// when its handle is one, else for lack of an output connection.
pub fn connect_plan(direction: Direction, handle: Direction) -> (plan: ConnectPlan)
    ensures
        plan == spec_connect_plan(direction, handle),
        plan.client == direction,
        plan.step == ConnectStep::OpenOutput <==> (direction == Direction::Output && handle == Direction::Output),
        direction == Direction::Input && handle == Direction::Input ==> plan.step == ConnectStep::Refuse(
            ConnectError::InputRatherThanOutput,
        ),
        direction != handle ==> plan.step == ConnectStep::Refuse(ConnectError::NoOutputConnection),
{
    match direction {
        Direction::Output => {
            let step = match handle {
                Direction::Output => ConnectStep::OpenOutput,
                Direction::Input => ConnectStep::Refuse(ConnectError::NoOutputConnection),
            };
            ConnectPlan { client: Direction::Output, step }
        },
        Direction::Input => {
            let step = match handle {
                Direction::Input => ConnectStep::Refuse(ConnectError::InputRatherThanOutput),
                Direction::Output => ConnectStep::Refuse(ConnectError::NoOutputConnection),
            };
            ConnectPlan { client: Direction::Input, step }
        },
    }
}

} // verus!
