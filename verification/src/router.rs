use vstd::prelude::*;
use pnet_base::MacAddr;
use crate::actions::shutdown_active_actions;
use crate::actions::transition_to_active_actions;
use crate::actions::Action;
use crate::actions::Actions;
use crate::actions::RoutePacket;
use crate::actions::ShutdownActive;
use crate::actions::TransitionToActive;
use crate::input::Command;
use crate::input::Input;
use crate::instant::Instant;
use crate::interval::Interval;
use crate::interval::NANOS_PER_CENTI;
use crate::ipv4::Ipv4Addr;
use crate::mac::same_mac;
use crate::mode::Mode;
use crate::parameters::lemma_skew_bounds;
use crate::parameters::Parameters;
use crate::received::ReceivedPacket;
use crate::send::SendPacket;

verus! {

/// Where a router stands in the protocol.
#[derive(Debug, Clone, Copy, PartialEq)]
pub enum State {
    /// Inert: before startup and after shutdown.
    Initialized,
    /// Standing by. `active_down_timer` is the instant at which the active
    /// router is presumed dead; `active_adver_interval` is the interval it
    /// last advertised.
    Backup { active_down_timer: Instant, active_adver_interval: Interval },
    /// Serving the virtual addresses. `adver_timer` is the instant of the
    /// next advertisement.
    Active { adver_timer: Instant },
}

/// A state with its instants in nanoseconds since the epoch and its interval
/// in centiseconds, all as unbounded integers.
pub enum StateView {
    Initialized,
    Backup { active_down_timer: int, active_adver_interval: int },
    Active { adver_timer: int },
}

impl View for State {
    type V = StateView;

    open spec fn view(&self) -> StateView {
        match *self {
            State::Initialized => StateView::Initialized,
            State::Backup { active_down_timer, active_adver_interval } => StateView::Backup {
                active_down_timer: active_down_timer.nanos() as int,
                active_adver_interval: active_adver_interval.centis() as int,
            },
            State::Active { adver_timer } => StateView::Active {
                adver_timer: adver_timer.nanos() as int,
            },
        }
    }
}

impl StateView {
    /// Whether the instants and the interval of the state can be counted in
    /// 64 bits, so that a `State` can hold them.
    pub open spec fn fits(self) -> bool {
        match self {
            StateView::Initialized => true,
            StateView::Backup { active_down_timer, active_adver_interval } => 0
                <= active_down_timer <= u64::MAX && 0 <= active_adver_interval <= u64::MAX,
            StateView::Active { adver_timer } => 0 <= adver_timer <= u64::MAX,
        }
    }
}

/// Whether the sender of an advertisement takes over from an active router
/// with these parameters: it does with a higher priority, and with the same
/// priority and a greater primary address, compared as unsigned 32-bit
/// numbers in network byte order.
pub open spec fn sender_wins(parameters: Parameters, sender_ip: Ipv4Addr, priority: u8) -> bool {
    priority > parameters.spec_priority() || (priority == parameters.spec_priority()
        && sender_ip.bits() > parameters.spec_primary_ip().bits())
}

/// Whether a backup follows an advertisement of the given priority: it does
/// unless it is set to preempt and the sender's priority is lower than its
/// own.
pub open spec fn backup_follows(parameters: Parameters, priority: u8) -> bool {
    !parameters.mode.spec_should_preempt() || priority >= parameters.spec_priority()
}

/// The active state entered at `now`: the next advertisement is due one
/// advertisement interval later.
pub open spec fn active_after(parameters: Parameters, now: int) -> StateView {
    StateView::Active { adver_timer: now + parameters.advertisement_interval.nanos() }
}

/// The backup state entered at `now` behind an active router that
/// advertises every `active_adver_interval`: that router is presumed dead
/// one active-down interval later.
pub open spec fn backup_after(
    parameters: Parameters,
    now: int,
    active_adver_interval: Interval,
) -> StateView {
    StateView::Backup {
        active_down_timer: now + NANOS_PER_CENTI * parameters.spec_active_down_interval(
            active_adver_interval,
        ),
        active_adver_interval: active_adver_interval.centis() as int,
    }
}

/// The backup state entered at `now` on word that the active router is
/// leaving: the election is due one skew time later.
pub open spec fn backup_after_shutdown(
    parameters: Parameters,
    now: int,
    active_adver_interval: Interval,
) -> StateView {
    StateView::Backup {
        active_down_timer: now + NANOS_PER_CENTI * parameters.spec_skew_time(
            active_adver_interval,
        ),
        active_adver_interval: active_adver_interval.centis() as int,
    }
}

/// The state a router with the given parameters is in after it has handled
/// `input` at `now` in `state`.
pub open spec fn next_state(parameters: Parameters, state: StateView, now: int, input: Input)
    -> StateView {
    match state {
        StateView::Initialized => match input {
            Input::Command(Command::Startup) => if parameters.mode is Owner {
                active_after(parameters, now)
            } else {
                backup_after(parameters, now, parameters.advertisement_interval)
            },
            _ => state,
        },
        StateView::Active { adver_timer } => match input {
            Input::Command(Command::Shutdown) => StateView::Initialized,
            Input::Command(Command::Startup) => state,
            Input::Timer => if now >= adver_timer {
                active_after(parameters, now)
            } else {
                state
            },
            Input::Packet(ReceivedPacket::ShutdownAdvertisement { .. }) => active_after(
                parameters,
                now,
            ),
            Input::Packet(
                ReceivedPacket::Advertisement { sender_ip, priority, max_advertise_interval },
            ) => if sender_wins(parameters, sender_ip, priority) {
                backup_after(parameters, now, max_advertise_interval)
            } else {
                active_after(parameters, now)
            },
            Input::Packet(ReceivedPacket::RequestARP { .. }) => state,
            Input::Packet(ReceivedPacket::IP { .. }) => state,
        },
        StateView::Backup { active_down_timer, .. } => match input {
            Input::Command(Command::Shutdown) => StateView::Initialized,
            Input::Command(Command::Startup) | Input::Timer => if now >= active_down_timer {
                active_after(parameters, now)
            } else {
                state
            },
            Input::Packet(
                ReceivedPacket::ShutdownAdvertisement { max_advertise_interval },
            ) => backup_after_shutdown(parameters, now, max_advertise_interval),
            Input::Packet(
                ReceivedPacket::Advertisement { priority, max_advertise_interval, .. },
            ) => if backup_follows(parameters, priority) {
                backup_after(parameters, now, max_advertise_interval)
            } else {
                state
            },
            Input::Packet(ReceivedPacket::RequestARP { .. }) => state,
            Input::Packet(ReceivedPacket::IP { .. }) => state,
        },
    }
}

/// What an active router does with an IPv4 datagram: nothing where the
/// datagram is not addressed to the virtual router's Ethernet address;
/// else it accepts it where it is for a virtual address and the router
/// accepts such traffic, and forwards it otherwise.
pub open spec fn routed<'a>(parameters: &'a Parameters, target_mac: MacAddr, target_ip: Ipv4Addr)
    -> Seq<Action<'a>> {
    if target_mac != parameters.spec_mac_address() {
        Seq::empty()
    } else if parameters.mode.spec_should_accept() && parameters.virtual_addresses@.contains(
        target_ip,
    ) {
        seq![Action::Route(RoutePacket::Accept)]
    } else {
        seq![Action::Route(RoutePacket::Forward)]
    }
}

/// The actions with which a router with the given parameters answers
/// `input`, handed in at `now` in `state`, in the order in which it asks
/// for them.
pub open spec fn emitted<'a>(parameters: &'a Parameters, state: StateView, now: int, input: Input)
    -> Seq<Action<'a>> {
    match state {
        StateView::Initialized => match input {
            Input::Command(Command::Startup) => if parameters.mode is Owner {
                transition_to_active_actions(parameters)
            } else {
                Seq::empty()
            },
            Input::Packet(ReceivedPacket::IP { .. }) => seq![Action::Route(RoutePacket::Reject)],
            _ => Seq::empty(),
        },
        StateView::Active { adver_timer } => match input {
            Input::Command(Command::Shutdown) => shutdown_active_actions(parameters),
            Input::Command(Command::Startup) => Seq::empty(),
            Input::Timer => if now >= adver_timer {
                seq![Action::Send(SendPacket::Advertisement(parameters))]
            } else {
                Seq::empty()
            },
            Input::Packet(ReceivedPacket::ShutdownAdvertisement { .. }) => seq![
                Action::Send(SendPacket::Advertisement(parameters)),
            ],
            Input::Packet(ReceivedPacket::Advertisement { sender_ip, priority, .. }) => if sender_wins(
                *parameters,
                sender_ip,
                priority,
            ) {
                seq![Action::Deactivate]
            } else {
                seq![Action::Send(SendPacket::Advertisement(parameters))]
            },
            Input::Packet(
                ReceivedPacket::RequestARP { sender_mac, sender_ip, target_ip },
            ) => if parameters.virtual_addresses@.contains(target_ip) {
                seq![
                    Action::Send(
                        SendPacket::ReplyARP {
                            sender_mac: parameters.spec_mac_address(),
                            sender_ip: target_ip,
                            target_mac: sender_mac,
                            target_ip: sender_ip,
                        },
                    ),
                ]
            } else {
                Seq::empty()
            },
            Input::Packet(ReceivedPacket::IP { target_mac, target_ip }) => routed(
                parameters,
                target_mac,
                target_ip,
            ),
        },
        StateView::Backup { active_down_timer, .. } => match input {
            Input::Command(Command::Startup) | Input::Timer => if now >= active_down_timer {
                transition_to_active_actions(parameters)
            } else {
                Seq::empty()
            },
            Input::Packet(ReceivedPacket::IP { .. }) => seq![Action::Route(RoutePacket::Reject)],
            _ => Seq::empty(),
        },
    }
}

/// Whether a router with the given parameters can be handed `input` at
/// `now` in `state`: the input is valid, and the timer that handling it
/// sets can be counted in 64 bits of nanoseconds.
pub open spec fn can_handle(parameters: Parameters, state: StateView, now: int, input: Input)
    -> bool {
    input.wf() && next_state(parameters, state, now, input).fits()
}

/// One virtual router on one interface: its configuration and where it
/// stands in the protocol.
pub struct Router {
    mac_address: MacAddr,
    parameters: Parameters,
    state: State,
}

impl Router {
    /// The router keeps the Ethernet address that its identifier gives.
    #[verifier::type_invariant]
    closed spec fn inv(self) -> bool {
        self.mac_address == self.parameters.spec_mac_address()
    }

    /// The configuration the router was made with.
    pub closed spec fn spec_parameters(self) -> Parameters {
        self.parameters
    }

    /// The state the router is in.
    pub closed spec fn spec_state(self) -> State {
        self.state
    }

    /// When the router next wants a `Timer` input, in nanoseconds since the
    /// epoch: at its deadline where it has one, and one advertisement
    /// interval from `now` where it has none.
    pub open spec fn spec_next_timer(self, now: Instant) -> int {
        match self.spec_state() {
            State::Initialized => now.nanos() + self.spec_parameters().advertisement_interval.nanos(),
            State::Backup { active_down_timer, .. } => active_down_timer.nanos() as int,
            State::Active { adver_timer } => adver_timer.nanos() as int,
        }
    }

    /// A router for the given configuration, not yet started.
    pub fn new(parameters: Parameters) -> (router: Self)
        ensures
            router.spec_parameters() == parameters,
            router.spec_state() == State::Initialized,
    {
        Self { mac_address: parameters.mac_address(), parameters, state: State::Initialized }
    }

    /// The state the router is in.
    pub fn state(&self) -> (state: &State)
        ensures
            *state == self.spec_state(),
    {
        &self.state
    }

    /// The configuration the router was made with.
    pub fn parameters(&self) -> (parameters: &Parameters)
        ensures
            *parameters == self.spec_parameters(),
    {
        &self.parameters
    }

    /// The instant at which the router next wants a `Timer` input.
    pub fn next_timer(&self, now: Instant) -> (timer: Instant)
        requires
            self.spec_next_timer(now) <= u64::MAX,
        ensures
            timer.nanos() == self.spec_next_timer(now),
    {
        match &self.state {
            State::Initialized => now + self.parameters.advertisement_interval,
            State::Backup { active_down_timer, .. } => *active_down_timer,
            State::Active { adver_timer } => *adver_timer,
        }
    }

    /// The instant at which the router next wants a `Timer` input, or `None`
    /// where that instant cannot be counted.
    pub fn checked_next_timer(&self, now: Instant) -> (timer: Option<Instant>)
        ensures
            self.spec_next_timer(now) <= u64::MAX ==> timer.is_some() && timer.unwrap().nanos()
                == self.spec_next_timer(now),
            self.spec_next_timer(now) > u64::MAX ==> timer.is_none(),
    {
        match &self.state {
            State::Initialized => now.checked_add(self.parameters.advertisement_interval),
            State::Backup { active_down_timer, .. } => Some(*active_down_timer),
            State::Active { adver_timer } => Some(*adver_timer),
        }
    }

    /// Handles one input, handed in at `now`: moves to the next state and
    /// returns the actions that answer the input.
    pub fn handle_input(&mut self, now: Instant, input: Input) -> (actions: Actions<'_>)
        requires
            can_handle(old(self).spec_parameters(), old(self).spec_state()@, now.nanos() as int, input),
        ensures
            final(self).spec_parameters() == old(self).spec_parameters(),
            final(self).spec_state()@ == next_state(
                old(self).spec_parameters(),
                old(self).spec_state()@,
                now.nanos() as int,
                input,
            ),
            actions.remaining() == emitted(
                &final(self).spec_parameters(),
                old(self).spec_state()@,
                now.nanos() as int,
                input,
            ),
    {
        let state = self.state;
        match state {
            State::Initialized => match input {
                Input::Command(Command::Startup) => self.startup(now),
                Input::Command(Command::Shutdown) => Actions::Empty,
                Input::Timer => Actions::Empty,
                Input::Packet(ReceivedPacket::ShutdownAdvertisement { .. }) => Actions::Empty,
                Input::Packet(ReceivedPacket::Advertisement { .. }) => Actions::Empty,
                Input::Packet(ReceivedPacket::RequestARP { .. }) => Actions::Empty,
                Input::Packet(ReceivedPacket::IP { .. }) => Actions::OneAction(
                    Some(Action::Route(RoutePacket::Reject)),
                ),
            },
            State::Active { adver_timer } => match input {
                Input::Command(Command::Shutdown) => self.shutdown_active(),
                Input::Command(Command::Startup) => Actions::Empty,
                Input::Packet(ReceivedPacket::ShutdownAdvertisement { .. }) => {
                    self.send_advertisment(now)
                },
                Input::Packet(
                    ReceivedPacket::Advertisement {
                        sender_ip,
                        priority,
                        max_advertise_interval: active_adver_interval,
                    },
                ) => self.handle_active_advertisement(
                    now,
                    sender_ip,
                    priority,
                    active_adver_interval,
                ),
                Input::Timer => if now.has_reached(adver_timer) {
                    self.send_advertisment(now)
                } else {
                    Actions::Empty
                },
                Input::Packet(ReceivedPacket::RequestARP { sender_ip, sender_mac, target_ip }) => {
                    if self.is_associated_address(target_ip) {
                        proof {
                            use_type_invariant(&*self);
                        }
                        Actions::OneAction(
                            Some(
                                Action::Send(
                                    SendPacket::ReplyARP {
                                        sender_mac: self.mac_address,
                                        sender_ip: target_ip,
                                        target_mac: sender_mac,
                                        target_ip: sender_ip,
                                    },
                                ),
                            ),
                        )
                    } else {
                        Actions::Empty
                    }
                },
                Input::Packet(ReceivedPacket::IP { target_mac, target_ip }) => self.route_ip_packet(
                    target_mac,
                    target_ip,
                ),
            },
            State::Backup { active_down_timer, .. } => match input {
                // A backup that is started again is treated as one whose timer
                // has come round: it is promoted only once the active router
                // is overdue.
                Input::Timer | Input::Command(Command::Startup) => if now.has_reached(
                    active_down_timer,
                ) {
                    self.transition_to_active(now)
                } else {
                    Actions::Empty
                },
                Input::Command(Command::Shutdown) => self.shutdown_backup(),
                Input::Packet(
                    ReceivedPacket::ShutdownAdvertisement {
                        max_advertise_interval: active_adver_interval,
                    },
                ) => self.update_active_down_timer_for_shutdown(now, active_adver_interval),
                Input::Packet(
                    ReceivedPacket::Advertisement {
                        sender_ip: _,
                        priority,
                        max_advertise_interval: active_adver_interval,
                    },
                ) => self.update_active_down_timer(now, priority, active_adver_interval),
                Input::Packet(ReceivedPacket::IP { .. }) => Actions::OneAction(
                    Some(Action::Route(RoutePacket::Reject)),
                ),
                Input::Packet(ReceivedPacket::RequestARP { .. }) => Actions::Empty,
            },
        }
    }

    /// Handles one input where it can be handled, and leaves the router
    /// untouched and returns `None` where it cannot.
    pub fn try_handle_input(&mut self, now: Instant, input: Input) -> (actions: Option<Actions<'_>>)
        ensures
            final(self).spec_parameters() == old(self).spec_parameters(),
            can_handle(
                old(self).spec_parameters(),
                old(self).spec_state()@,
                now.nanos() as int,
                input,
            ) ==> actions.is_some() && final(self).spec_state()@ == next_state(
                old(self).spec_parameters(),
                old(self).spec_state()@,
                now.nanos() as int,
                input,
            ) && actions.unwrap().remaining() == emitted(
                &final(self).spec_parameters(),
                old(self).spec_state()@,
                now.nanos() as int,
                input,
            ),
            !can_handle(
                old(self).spec_parameters(),
                old(self).spec_state()@,
                now.nanos() as int,
                input,
            ) ==> actions.is_none() && final(self).spec_state() == old(self).spec_state(),
    {
        if self.accepts(now, &input) {
            Some(self.handle_input(now, input))
        } else {
            None
        }
    }

    /// Whether the router can be handed `input` at `now`.
    pub fn accepts(&self, now: Instant, input: &Input) -> (accepted: bool)
        ensures
            accepted == can_handle(
                self.spec_parameters(),
                self.spec_state()@,
                now.nanos() as int,
                *input,
            ),
    {
        if !input.is_valid() {
            return false;
        }
        match self.state {
            State::Initialized => match *input {
                Input::Command(Command::Startup) => if self.is_owner() {
                    self.fits_adver_timer(now)
                } else {
                    self.fits_active_down_timer(now, self.parameters.advertisement_interval)
                },
                _ => true,
            },
            State::Active { adver_timer } => match *input {
                Input::Command(_) => true,
                Input::Timer => !now.has_reached(adver_timer) || self.fits_adver_timer(now),
                Input::Packet(ReceivedPacket::ShutdownAdvertisement { .. }) => {
                    self.fits_adver_timer(now)
                },
                Input::Packet(
                    ReceivedPacket::Advertisement { sender_ip, priority, max_advertise_interval },
                ) => if self.sender_takes_over(sender_ip, priority) {
                    self.fits_active_down_timer(now, max_advertise_interval)
                } else {
                    self.fits_adver_timer(now)
                },
                Input::Packet(ReceivedPacket::RequestARP { .. }) => true,
                Input::Packet(ReceivedPacket::IP { .. }) => true,
            },
            State::Backup { active_down_timer, .. } => match *input {
                Input::Command(Command::Shutdown) => true,
                Input::Timer | Input::Command(Command::Startup) => !now.has_reached(
                    active_down_timer,
                ) || self.fits_adver_timer(now),
                Input::Packet(ReceivedPacket::ShutdownAdvertisement { max_advertise_interval }) => {
                    now.checked_add(self.parameters.skew_time(max_advertise_interval)).is_some()
                },
                Input::Packet(
                    ReceivedPacket::Advertisement { priority, max_advertise_interval, .. },
                ) => if !self.parameters.should_preempt() || !self.is_greater_priority_than(
                    priority,
                ) {
                    self.fits_active_down_timer(now, max_advertise_interval)
                } else {
                    true
                },
                Input::Packet(ReceivedPacket::RequestARP { .. }) => true,
                Input::Packet(ReceivedPacket::IP { .. }) => true,
            },
        }
    }

    /// Whether the instant of the next advertisement after `now` can be
    /// counted.
    fn fits_adver_timer(&self, now: Instant) -> (fits: bool)
        ensures
            fits == active_after(self.parameters, now.nanos() as int).fits(),
    {
        now.checked_add(self.parameters.advertisement_interval).is_some()
    }

    /// Whether the instant one active-down interval after `now` can be
    /// counted.
    fn fits_active_down_timer(&self, now: Instant, active_adver_interval: Interval) -> (fits: bool)
        ensures
            fits == backup_after(self.parameters, now.nanos() as int, active_adver_interval).fits(),
    {
        proof {
            lemma_skew_bounds(
                self.parameters.spec_priority() as int,
                active_adver_interval.centis() as int,
            );
        }
        match self.parameters.checked_active_down_interval(active_adver_interval) {
            Some(down) => now.checked_add(down).is_some(),
            None => false,
        }
    }

    fn startup(&mut self, now: Instant) -> (actions: Actions<'_>)
        requires
            next_state(
                old(self).parameters,
                StateView::Initialized,
                now.nanos() as int,
                Input::Command(Command::Startup),
            ).fits(),
        ensures
            final(self).parameters == old(self).parameters,
            final(self).state@ == next_state(
                old(self).parameters,
                StateView::Initialized,
                now.nanos() as int,
                Input::Command(Command::Startup),
            ),
            actions.remaining() == emitted(
                &final(self).parameters,
                StateView::Initialized,
                now.nanos() as int,
                Input::Command(Command::Startup),
            ),
    {
        if self.is_owner() {
            self.transition_to_active(now)
        } else {
            let active_adver_interval = self.parameters.advertisement_interval;
            let active_down_timer = self.active_down_timer(now, active_adver_interval);
            proof {
                use_type_invariant(&*self);
            }
            self.state = State::Backup { active_adver_interval, active_down_timer };
            Actions::Empty
        }
    }

    fn transition_to_active(&mut self, now: Instant) -> (actions: Actions<'_>)
        requires
            active_after(old(self).parameters, now.nanos() as int).fits(),
        ensures
            final(self).parameters == old(self).parameters,
            final(self).state@ == active_after(old(self).parameters, now.nanos() as int),
            actions.remaining() == transition_to_active_actions(&final(self).parameters),
    {
        proof {
            use_type_invariant(&*self);
        }
        self.state = State::Active { adver_timer: self.adver_timer(now) };
        Actions::TransitionToActive(&self.parameters, TransitionToActive::default())
    }

    fn send_advertisment(&mut self, now: Instant) -> (actions: Actions<'_>)
        requires
            active_after(old(self).parameters, now.nanos() as int).fits(),
        ensures
            final(self).parameters == old(self).parameters,
            final(self).state@ == active_after(old(self).parameters, now.nanos() as int),
            actions.remaining() == seq![
                Action::Send(SendPacket::Advertisement(&final(self).parameters)),
            ],
    {
        proof {
            use_type_invariant(&*self);
        }
        self.state = State::Active { adver_timer: self.adver_timer(now) };
        Actions::OneAction(Some(Action::Send(SendPacket::Advertisement(&self.parameters))))
    }

    /// Whether the sender of an advertisement takes over from this router
    /// while it is active.
    fn sender_takes_over(&self, sender_ip: Ipv4Addr, sender_priority: u8) -> (wins: bool)
        ensures
            wins == sender_wins(self.parameters, sender_ip, sender_priority),
    {
        let own: u16 = self.parameters.priority();
        let theirs: u16 = sender_priority as u16;
        theirs > own || (theirs == own && sender_ip.is_greater_than(self.parameters.primary_ip()))
    }

    fn handle_active_advertisement(
        &mut self,
        now: Instant,
        sender_ip: Ipv4Addr,
        sender_priority: u8,
        active_adver_interval: Interval,
    ) -> (actions: Actions<'_>)
        requires
            sender_wins(old(self).parameters, sender_ip, sender_priority) ==> backup_after(
                old(self).parameters,
                now.nanos() as int,
                active_adver_interval,
            ).fits(),
            !sender_wins(old(self).parameters, sender_ip, sender_priority) ==> active_after(
                old(self).parameters,
                now.nanos() as int,
            ).fits(),
        ensures
            final(self).parameters == old(self).parameters,
            final(self).state@ == (if sender_wins(
                old(self).parameters,
                sender_ip,
                sender_priority,
            ) {
                backup_after(old(self).parameters, now.nanos() as int, active_adver_interval)
            } else {
                active_after(old(self).parameters, now.nanos() as int)
            }),
            actions.remaining() == (if sender_wins(
                old(self).parameters,
                sender_ip,
                sender_priority,
            ) {
                seq![Action::Deactivate]
            } else {
                seq![Action::Send(SendPacket::Advertisement(&final(self).parameters))]
            }),
    {
        if self.sender_takes_over(sender_ip, sender_priority) {
            self.deactivate_and_transition_to_backup(now, active_adver_interval)
        } else {
            // Assert the active state to the sender at once.
            self.send_advertisment(now)
        }
    }

    fn is_greater_priority_than(&self, sender_priority: u8) -> (greater: bool)
        ensures
            greater == (self.parameters.spec_priority() > sender_priority),
    {
        self.parameters.priority() > sender_priority as u16
    }

    fn deactivate_and_transition_to_backup(&mut self, now: Instant, active_adver_interval: Interval)
        -> (actions: Actions<'_>)
        requires
            backup_after(old(self).parameters, now.nanos() as int, active_adver_interval).fits(),
        ensures
            final(self).parameters == old(self).parameters,
            final(self).state@ == backup_after(
                old(self).parameters,
                now.nanos() as int,
                active_adver_interval,
            ),
            actions.remaining() == seq![Action::Deactivate],
    {
        proof {
            use_type_invariant(&*self);
        }
        self.state = State::Backup {
            active_down_timer: self.active_down_timer(now, active_adver_interval),
            active_adver_interval,
        };
        Actions::OneAction(Some(Action::Deactivate))
    }

    fn update_active_down_timer(
        &mut self,
        now: Instant,
        active_priority: u8,
        active_adver_interval: Interval,
    ) -> (actions: Actions<'_>)
        requires
            backup_follows(old(self).parameters, active_priority) ==> backup_after(
                old(self).parameters,
                now.nanos() as int,
                active_adver_interval,
            ).fits(),
        ensures
            final(self).parameters == old(self).parameters,
            final(self).state@ == (if backup_follows(old(self).parameters, active_priority) {
                backup_after(old(self).parameters, now.nanos() as int, active_adver_interval)
            } else {
                old(self).state@
            }),
            actions.remaining() == Seq::<Action>::empty(),
    {
        if !self.parameters.should_preempt() || !self.is_greater_priority_than(active_priority) {
            proof {
                use_type_invariant(&*self);
            }
            self.state = State::Backup {
                active_down_timer: self.active_down_timer(now, active_adver_interval),
                active_adver_interval,
            };
        }
        Actions::Empty
    }

    fn update_active_down_timer_for_shutdown(
        &mut self,
        now: Instant,
        active_adver_interval: Interval,
    ) -> (actions: Actions<'_>)
        requires
            backup_after_shutdown(
                old(self).parameters,
                now.nanos() as int,
                active_adver_interval,
            ).fits(),
        ensures
            final(self).parameters == old(self).parameters,
            final(self).state@ == backup_after_shutdown(
                old(self).parameters,
                now.nanos() as int,
                active_adver_interval,
            ),
            actions.remaining() == Seq::<Action>::empty(),
    {
        proof {
            use_type_invariant(&*self);
        }
        self.state = State::Backup {
            active_down_timer: self.active_down_timer_for_shutdown(now, active_adver_interval),
            active_adver_interval,
        };
        Actions::Empty
    }

    fn route_ip_packet(&mut self, target_mac: MacAddr, target_ip: Ipv4Addr) -> (actions: Actions<'_>)
        ensures
            *final(self) == *old(self),
            actions.remaining() == routed(&final(self).parameters, target_mac, target_ip),
    {
        proof {
            use_type_invariant(&*self);
        }
        if !same_mac(target_mac, self.mac_address) {
            Actions::Empty
        } else if self.should_accept_packets_for(target_ip) {
            Actions::OneAction(Some(Action::Route(RoutePacket::Accept)))
        } else {
            Actions::OneAction(Some(Action::Route(RoutePacket::Forward)))
        }
    }

    fn shutdown_active(&mut self) -> (actions: Actions<'_>)
        ensures
            final(self).parameters == old(self).parameters,
            final(self).state == State::Initialized,
            actions.remaining() == shutdown_active_actions(&final(self).parameters),
    {
        proof {
            use_type_invariant(&*self);
        }
        self.state = State::Initialized;
        Actions::ShutdownActive(&self.parameters, ShutdownActive::default())
    }

    fn shutdown_backup(&mut self) -> (actions: Actions<'_>)
        ensures
            final(self).parameters == old(self).parameters,
            final(self).state == State::Initialized,
            actions.remaining() == Seq::<Action>::empty(),
    {
        proof {
            use_type_invariant(&*self);
        }
        self.state = State::Initialized;
        Actions::Empty
    }

    fn should_accept_packets_for(&self, target_ip: Ipv4Addr) -> (accept: bool)
        ensures
            accept == (self.parameters.mode.spec_should_accept()
                && self.parameters.virtual_addresses@.contains(target_ip)),
    {
        self.parameters.should_accept() && self.is_associated_address(target_ip)
    }

    fn is_owner(&self) -> (owner: bool)
        ensures
            owner == (self.parameters.mode is Owner),
    {
        match self.parameters.mode {
            Mode::Owner => true,
            Mode::Backup(_) => false,
        }
    }

    fn is_associated_address(&self, ip_address: Ipv4Addr) -> (associated: bool)
        ensures
            associated == self.parameters.virtual_addresses@.contains(ip_address),
    {
        self.parameters.virtual_addresses.contains(ip_address)
    }

    fn adver_timer(&self, now: Instant) -> (timer: Instant)
        requires
            active_after(self.parameters, now.nanos() as int).fits(),
        ensures
            (State::Active { adver_timer: timer })@ == active_after(
                self.parameters,
                now.nanos() as int,
            ),
    {
        now + self.parameters.advertisement_interval
    }

    fn active_down_timer(&self, now: Instant, active_adver_interval: Interval) -> (timer: Instant)
        requires
            backup_after(self.parameters, now.nanos() as int, active_adver_interval).fits(),
        ensures
            (State::Backup { active_down_timer: timer, active_adver_interval })@ == backup_after(
                self.parameters,
                now.nanos() as int,
                active_adver_interval,
            ),
    {
        proof {
            lemma_skew_bounds(
                self.parameters.spec_priority() as int,
                active_adver_interval.centis() as int,
            );
        }
        now + self.parameters.active_down_interval(active_adver_interval)
    }

    fn active_down_timer_for_shutdown(&self, now: Instant, interval: Interval) -> (timer: Instant)
        requires
            backup_after_shutdown(self.parameters, now.nanos() as int, interval).fits(),
        ensures
            (State::Backup { active_down_timer: timer, active_adver_interval: interval })@
                == backup_after_shutdown(self.parameters, now.nanos() as int, interval),
    {
        now + self.parameters.skew_time(interval)
    }
}

} // verus!
