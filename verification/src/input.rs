use vstd::prelude::*;
use vstd::std_specs::convert::FromSpecImpl;
use crate::received::ReceivedPacket;

verus! {

/// What the embedder hands to the router, together with the time.
#[derive(Clone, Copy, Debug, PartialEq)]
pub enum Input {
    Command(Command),
    Packet(ReceivedPacket),
    /// The instant the router asked to be woken at may have come.
    Timer,
}

/// An order from the operator.
#[derive(Clone, Copy, Debug, PartialEq)]
pub enum Command {
    Startup,
    Shutdown,
}

impl Input {
    /// An input is valid when the packet it carries, if any, is.
    pub open spec fn wf(self) -> bool {
        match self {
            Input::Packet(packet) => packet.wf(),
            _ => true,
        }
    }

    /// Whether the input is one the router may be handed.
    pub fn is_valid(&self) -> (valid: bool)
        ensures
            valid == self.wf(),
    {
        match self {
            Input::Packet(packet) => packet.is_valid(),
            _ => true,
        }
    }
}

impl From<Command> for Input {
    fn from(command: Command) -> (input: Input)
        ensures
            input == Input::Command(command),
    {
        Input::Command(command)
    }
}

impl FromSpecImpl<Command> for Input {
    open spec fn obeys_from_spec() -> bool {
        true
    }

    open spec fn from_spec(command: Command) -> Input {
        Input::Command(command)
    }
}

impl From<ReceivedPacket> for Input {
    fn from(packet: ReceivedPacket) -> (input: Input)
        ensures
            input == Input::Packet(packet),
    {
        Input::Packet(packet)
    }
}

impl FromSpecImpl<ReceivedPacket> for Input {
    open spec fn obeys_from_spec() -> bool {
        true
    }

    open spec fn from_spec(packet: ReceivedPacket) -> Input {
        Input::Packet(packet)
    }
}

} // verus!
