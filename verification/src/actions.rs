use vstd::prelude::*;
use vstd::std_specs::convert::FromSpecImpl;
use crate::parameters::Parameters;
use crate::send::SendPacket;

verus! {

/// One thing the router asks the embedder to do.
#[derive(Clone, Copy, Debug, PartialEq)]
pub enum Action<'a> {
    /// Put the virtual addresses on the interface.
    Activate,
    /// Take the virtual addresses off the interface.
    Deactivate,
    Send(SendPacket<'a>),
    /// What to do with the IPv4 datagram that was just handed in.
    Route(RoutePacket),
}

/// The disposition of an IPv4 datagram.
#[derive(Clone, Copy, Debug, PartialEq)]
pub enum RoutePacket {
    Reject,
    Accept,
    Forward,
}

impl From<RoutePacket> for Action<'_> {
    fn from(value: RoutePacket) -> (action: Self)
        ensures
            action == Action::Route(value),
    {
        Action::Route(value)
    }
}

impl FromSpecImpl<RoutePacket> for Action<'_> {
    open spec fn obeys_from_spec() -> bool {
        true
    }

    open spec fn from_spec(value: RoutePacket) -> Self {
        Action::Route(value)
    }
}

impl<'a> From<SendPacket<'a>> for Action<'a> {
    fn from(value: SendPacket<'a>) -> (action: Self)
        ensures
            action == Action::Send(value),
    {
        Action::Send(value)
    }
}

impl<'a> FromSpecImpl<SendPacket<'a>> for Action<'a> {
    open spec fn obeys_from_spec() -> bool {
        true
    }

    open spec fn from_spec(value: SendPacket<'a>) -> Self {
        Action::Send(value)
    }
}

/// The gratuitous ARP requests for the virtual addresses from position
/// `offset` on, in configured order.
pub open spec fn gratuitous_arps<'a>(parameters: &'a Parameters, offset: int) -> Seq<Action<'a>> {
    let addresses = parameters.virtual_addresses@;
    Seq::new(
        if 0 <= offset <= addresses.len() {
            (addresses.len() - offset) as nat
        } else {
            0
        },
        |k: int|
            Action::Send(
                SendPacket::GratuitousARP {
                    sender_mac: parameters.spec_mac_address(),
                    sender_ip: addresses[offset + k],
                },
            ),
    )
}

/// What a router does as it becomes active: put the addresses on the
/// interface, advertise, then announce every virtual address by ARP.
pub open spec fn transition_to_active_actions<'a>(parameters: &'a Parameters) -> Seq<Action<'a>> {
    seq![Action::Activate, Action::Send(SendPacket::Advertisement(parameters))]
        + gratuitous_arps(parameters, 0)
}

/// What an active router does as it is shut down: tell the backups, then
/// take the addresses off the interface.
pub open spec fn shutdown_active_actions<'a>(parameters: &'a Parameters) -> Seq<Action<'a>> {
    seq![Action::Send(SendPacket::ShutdownAdvertisement(parameters)), Action::Deactivate]
}

/// The actions of becoming active, one by one: two fixed actions, then one
/// gratuitous ARP request for each virtual address in configured order.
pub proof fn lemma_transition_to_active_actions(parameters: &Parameters)
    ensures
        transition_to_active_actions(parameters).len() == 2 + parameters.virtual_addresses@.len(),
        transition_to_active_actions(parameters)[0] == Action::Activate,
        transition_to_active_actions(parameters)[1] == Action::Send(
            SendPacket::Advertisement(parameters),
        ),
        forall|k: int|
            0 <= k < parameters.virtual_addresses@.len() ==> #[trigger] transition_to_active_actions(
                parameters,
            )[2 + k] == Action::Send(
                SendPacket::GratuitousARP {
                    sender_mac: parameters.spec_mac_address(),
                    sender_ip: parameters.virtual_addresses@[k],
                },
            ),
{
}

/// How far a router has come in becoming active.
#[derive(Clone, Copy, Debug, PartialEq)]
pub enum TransitionToActive {
    Activate,
    Advertisment,
    /// The position of the next virtual address to announce.
    NextARP(usize),
}

impl Default for TransitionToActive {
    fn default() -> (start: Self)
        ensures
            start == TransitionToActive::Activate,
    {
        TransitionToActive::Activate
    }
}

impl TransitionToActive {
    /// The actions that are still to come.
    pub open spec fn remaining<'a>(self, parameters: &'a Parameters) -> Seq<Action<'a>> {
        match self {
            TransitionToActive::Activate => transition_to_active_actions(parameters),
            TransitionToActive::Advertisment => seq![
                Action::Send(SendPacket::Advertisement(parameters)),
            ] + gratuitous_arps(parameters, 0),
            TransitionToActive::NextARP(offset) => gratuitous_arps(parameters, offset as int),
        }
    }

    /// Hands out the next action of the transition and steps past it, or
    /// returns `None` and stays where it is once every address is announced.
    pub fn next_action<'b>(&mut self, parameters: &'b Parameters) -> (action: Option<Action<'b>>)
        ensures
            old(self).remaining(parameters).len() > 0 ==> action == Some(
                old(self).remaining(parameters)[0],
            ) && final(self).remaining(parameters) == old(self).remaining(parameters).drop_first(),
            old(self).remaining(parameters).len() == 0 ==> action.is_none() && *final(self) == *old(
                self,
            ),
    {
        match *self {
            TransitionToActive::Activate => {
                *self = TransitionToActive::Advertisment;
                assert(self.remaining(parameters) =~= old(self).remaining(
                    parameters,
                ).drop_first());
                Some(Action::Activate)
            },
            TransitionToActive::Advertisment => {
                *self = TransitionToActive::NextARP(0);
                assert(self.remaining(parameters) =~= old(self).remaining(
                    parameters,
                ).drop_first());
                Some(Action::Send(SendPacket::Advertisement(parameters)))
            },
            TransitionToActive::NextARP(offset) => {
                match parameters.virtual_addresses.get(offset) {
                    Some(next_address) => {
                        *self = TransitionToActive::NextARP(offset + 1);
                        assert(self.remaining(parameters) =~= old(self).remaining(
                            parameters,
                        ).drop_first());
                        Some(
                            Action::Send(
                                SendPacket::GratuitousARP {
                                    sender_mac: parameters.mac_address(),
                                    sender_ip: next_address,
                                },
                            ),
                        )
                    },
                    None => None,
                }
            },
        }
    }
}

/// How far an active router has come in shutting down.
#[derive(Clone, Copy, Debug, PartialEq)]
pub enum ShutdownActive {
    Advertisment,
    Deactivate,
    Done,
}

impl Default for ShutdownActive {
    fn default() -> (start: Self)
        ensures
            start == ShutdownActive::Advertisment,
    {
        ShutdownActive::Advertisment
    }
}

impl ShutdownActive {
    /// The actions that are still to come.
    pub open spec fn remaining<'a>(self, parameters: &'a Parameters) -> Seq<Action<'a>> {
        match self {
            ShutdownActive::Advertisment => shutdown_active_actions(parameters),
            ShutdownActive::Deactivate => seq![Action::Deactivate],
            ShutdownActive::Done => Seq::empty(),
        }
    }

    /// Hands out the next action of the shutdown and steps past it, or
    /// returns `None` once both are out.
    pub fn next_action<'b>(&mut self, parameters: &'b Parameters) -> (action: Option<Action<'b>>)
        ensures
            old(self).remaining(parameters).len() > 0 ==> action == Some(
                old(self).remaining(parameters)[0],
            ) && final(self).remaining(parameters) == old(self).remaining(parameters).drop_first(),
            old(self).remaining(parameters).len() == 0 ==> action.is_none() && *final(self) == *old(
                self,
            ),
    {
        match *self {
            ShutdownActive::Advertisment => {
                *self = ShutdownActive::Deactivate;
                assert(self.remaining(parameters) =~= old(self).remaining(
                    parameters,
                ).drop_first());
                Some(Action::Send(SendPacket::ShutdownAdvertisement(parameters)))
            },
            ShutdownActive::Deactivate => {
                *self = ShutdownActive::Done;
                assert(self.remaining(parameters) =~= old(self).remaining(
                    parameters,
                ).drop_first());
                Some(Action::Deactivate)
            },
            ShutdownActive::Done => None,
        }
    }
}

/// The actions that answer one input, handed out one at a time.
#[derive(Debug, PartialEq)]
pub enum Actions<'a> {
    TransitionToActive(&'a Parameters, TransitionToActive),
    ShutdownActive(&'a Parameters, ShutdownActive),
    OneAction(Option<Action<'a>>),
    Empty,
}

impl<'a> From<Action<'a>> for Actions<'a> {
    fn from(value: Action<'a>) -> (actions: Self)
        ensures
            actions == Actions::OneAction(Some(value)),
            actions.remaining() == seq![value],
    {
        Actions::OneAction(Some(value))
    }
}

impl<'a> FromSpecImpl<Action<'a>> for Actions<'a> {
    open spec fn obeys_from_spec() -> bool {
        true
    }

    open spec fn from_spec(value: Action<'a>) -> Self {
        Actions::OneAction(Some(value))
    }
}

impl<'a> Actions<'a> {
    /// The actions that have not been handed out yet, in order.
    pub open spec fn remaining(self) -> Seq<Action<'a>> {
        match self {
            Actions::TransitionToActive(parameters, transition) => transition.remaining(
                parameters,
            ),
            Actions::ShutdownActive(parameters, shutdown) => shutdown.remaining(parameters),
            Actions::OneAction(Some(action)) => seq![action],
            Actions::OneAction(None) => Seq::empty(),
            Actions::Empty => Seq::empty(),
        }
    }

    /// Hands out the next action, or `None` once there is none left.
    pub fn next(&mut self) -> (action: Option<Action<'a>>)
        ensures
            old(self).remaining().len() > 0 ==> action == Some(old(self).remaining()[0])
                && final(self).remaining() == old(self).remaining().drop_first(),
            old(self).remaining().len() == 0 ==> action.is_none() && final(self).remaining().len()
                == 0,
    {
        match self {
            Actions::Empty => None,
            Actions::ShutdownActive(parameters, shutdown) => shutdown.next_action(*parameters),
            Actions::TransitionToActive(parameters, transition) => transition.next_action(
                *parameters,
            ),
            Actions::OneAction(action) => {
                let next = action.take();
                assert(next.is_some() ==> self.remaining() =~= old(
                    self,
                ).remaining().drop_first());
                next
            },
        }
    }

    /// Hands out every action that is left, in order.
    pub fn collect(self) -> (actions: Vec<Action<'a>>)
        ensures
            actions@ == self.remaining(),
    {
        let mut stream = self;
        let mut actions: Vec<Action<'a>> = Vec::new();
        loop
            invariant
                actions@ + stream.remaining() == self.remaining(),
            ensures
                stream.remaining().len() == 0,
            decreases stream.remaining().len(),
        {
            match stream.next() {
                Some(action) => {
                    actions.push(action);
                    assert(actions@ + stream.remaining() =~= self.remaining());
                },
                None => {
                    break ;
                },
            }
        }
        assert(actions@ =~= self.remaining());
        actions
    }
}

} // verus!
