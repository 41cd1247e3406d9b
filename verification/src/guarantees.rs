use vstd::prelude::*;
use crate::actions::shutdown_active_actions;
use crate::actions::transition_to_active_actions;
use crate::actions::Action;
use crate::actions::RoutePacket;
use crate::input::Command;
use crate::input::Input;
use crate::interval::Interval;
use crate::interval::NANOS_PER_CENTI;
use crate::ipv4::Ipv4Addr;
use crate::parameters::lemma_skew_bounds;
use crate::parameters::Parameters;
use crate::received::ReceivedPacket;
use crate::router::can_handle;
use crate::router::emitted;
use crate::router::next_state;
use crate::router::StateView;
use crate::send::SendPacket;
use pnet_base::MacAddr;

verus! {

/// The last reading of the clock, in nanoseconds since the epoch, from
/// which four intervals of 32 bits of centiseconds can still be counted.
pub const HORIZON: u64 = 18_274_945_381_909_551_615;

/// The interval an input announces, in centiseconds; 0 for an input that
/// announces none.
pub open spec fn announced_centis(input: Input) -> int {
    match input {
        Input::Packet(ReceivedPacket::Advertisement { max_advertise_interval, .. }) => {
            max_advertise_interval.centis() as int
        },
        Input::Packet(ReceivedPacket::ShutdownAdvertisement { max_advertise_interval }) => {
            max_advertise_interval.centis() as int
        },
        _ => 0,
    }
}

/// A router can be handed every valid input up to the horizon of the clock,
/// whatever its priority, as long as the intervals it is configured with
/// and hears of can be counted in 32 bits.
pub proof fn lemma_can_handle_up_to_horizon(
    parameters: Parameters,
    state: StateView,
    now: int,
    input: Input,
)
    requires
        input.wf(),
        state.fits(),
        0 <= now <= HORIZON,
        parameters.advertisement_interval.centis() <= u32::MAX,
        announced_centis(input) <= u32::MAX,
    ensures
        can_handle(parameters, state, now, input),
{
    lemma_skew_bounds(
        parameters.spec_priority() as int,
        parameters.advertisement_interval.centis() as int,
    );
    lemma_skew_bounds(parameters.spec_priority() as int, announced_centis(input));
}

/// A router that has not been started stays as it is on every input but
/// `Startup`, and asks for nothing unless the input is an IPv4 datagram.
pub proof fn lemma_initialized_is_inert(parameters: Parameters, now: int, input: Input)
    requires
        input != Input::Command(Command::Startup),
    ensures
        next_state(parameters, StateView::Initialized, now, input) == StateView::Initialized,
        !(input is Packet && input->Packet_0 is IP) ==> emitted(
            &parameters,
            StateView::Initialized,
            now,
            input,
        ) == Seq::<Action>::empty(),
{
}

/// A router that is not active turns every IPv4 datagram away, and stays as
/// it is.
pub proof fn lemma_inactive_rejects(
    parameters: Parameters,
    state: StateView,
    now: int,
    target_mac: MacAddr,
    target_ip: Ipv4Addr,
)
    requires
        !(state is Active),
    ensures
        next_state(
            parameters,
            state,
            now,
            Input::Packet(ReceivedPacket::IP { target_mac, target_ip }),
        ) == state,
        emitted(
            &parameters,
            state,
            now,
            Input::Packet(ReceivedPacket::IP { target_mac, target_ip }),
        ) == seq![Action::Route(RoutePacket::Reject)],
{
}

/// Whenever a router that was not active becomes active, it asks for the
/// actions of becoming active, all of them and in their order: `Activate`,
/// an advertisement, and a gratuitous ARP request for each virtual address
/// in configured order.
pub proof fn lemma_activation_is_announced(
    parameters: Parameters,
    state: StateView,
    now: int,
    input: Input,
)
    requires
        !(state is Active),
        next_state(parameters, state, now, input) is Active,
    ensures
        emitted(&parameters, state, now, input) == transition_to_active_actions(&parameters),
        emitted(&parameters, state, now, input).len() == 2 + parameters.virtual_addresses@.len(),
        emitted(&parameters, state, now, input)[0] == Action::Activate,
        emitted(&parameters, state, now, input)[1] == Action::Send(
            SendPacket::Advertisement(&parameters),
        ),
        forall|k: int|
            0 <= k < parameters.virtual_addresses@.len() ==> #[trigger] emitted(
                &parameters,
                state,
                now,
                input,
            )[2 + k] == Action::Send(
                SendPacket::GratuitousARP {
                    sender_mac: parameters.spec_mac_address(),
                    sender_ip: parameters.virtual_addresses@[k],
                },
            ),
{
}

/// An active router that is shut down goes back to where it started and
/// asks for exactly two actions: a shutdown advertisement, then
/// `Deactivate`.
pub proof fn lemma_shutdown_of_active(parameters: Parameters, state: StateView, now: int)
    requires
        state is Active,
    ensures
        next_state(parameters, state, now, Input::Command(Command::Shutdown))
            == StateView::Initialized,
        emitted(&parameters, state, now, Input::Command(Command::Shutdown))
            == shutdown_active_actions(&parameters),
        emitted(&parameters, state, now, Input::Command(Command::Shutdown)) == seq![
            Action::Send(SendPacket::ShutdownAdvertisement(&parameters)),
            Action::Deactivate,
        ],
{
}

/// A backup that hears an advertisement of at least its own priority, or
/// any advertisement while it is set not to preempt, takes over the
/// advertised interval, waits one active-down interval of it from now, and
/// asks for nothing.
pub proof fn lemma_backup_follows_advertisement(
    parameters: Parameters,
    state: StateView,
    now: int,
    sender_ip: Ipv4Addr,
    priority: u8,
    interval: Interval,
)
    requires
        state is Backup,
        priority >= parameters.spec_priority() || !parameters.mode.spec_should_preempt(),
    ensures
        next_state(
            parameters,
            state,
            now,
            Input::Packet(
                ReceivedPacket::Advertisement {
                    sender_ip,
                    priority,
                    max_advertise_interval: interval,
                },
            ),
        ) == (StateView::Backup {
            active_adver_interval: interval.centis() as int,
            active_down_timer: now + NANOS_PER_CENTI * (3 * interval.centis() + ((256
                - parameters.spec_priority()) * interval.centis()) / 256),
        }),
        emitted(
            &parameters,
            state,
            now,
            Input::Packet(
                ReceivedPacket::Advertisement {
                    sender_ip,
                    priority,
                    max_advertise_interval: interval,
                },
            ),
        ) == Seq::<Action>::empty(),
{
}

/// A backup that is set to preempt lets an advertisement of lower priority
/// pass: it stays as it is and asks for nothing.
pub proof fn lemma_backup_ignores_lower_priority(
    parameters: Parameters,
    state: StateView,
    now: int,
    sender_ip: Ipv4Addr,
    priority: u8,
    interval: Interval,
)
    requires
        state is Backup,
        priority < parameters.spec_priority(),
        parameters.mode.spec_should_preempt(),
    ensures
        next_state(
            parameters,
            state,
            now,
            Input::Packet(
                ReceivedPacket::Advertisement {
                    sender_ip,
                    priority,
                    max_advertise_interval: interval,
                },
            ),
        ) == state,
        emitted(
            &parameters,
            state,
            now,
            Input::Packet(
                ReceivedPacket::Advertisement {
                    sender_ip,
                    priority,
                    max_advertise_interval: interval,
                },
            ),
        ) == Seq::<Action>::empty(),
{
}

/// A backup that hears a shutdown advertisement takes over the advertised
/// interval, waits one skew time of it from now, and asks for nothing.
pub proof fn lemma_backup_follows_shutdown(
    parameters: Parameters,
    state: StateView,
    now: int,
    interval: Interval,
)
    requires
        state is Backup,
    ensures
        next_state(
            parameters,
            state,
            now,
            Input::Packet(ReceivedPacket::ShutdownAdvertisement { max_advertise_interval: interval }),
        ) == (StateView::Backup {
            active_adver_interval: interval.centis() as int,
            active_down_timer: now + NANOS_PER_CENTI * (((256 - parameters.spec_priority())
                * interval.centis()) / 256),
        }),
        emitted(
            &parameters,
            state,
            now,
            Input::Packet(ReceivedPacket::ShutdownAdvertisement { max_advertise_interval: interval }),
        ) == Seq::<Action>::empty(),
{
}

/// An active router that hears an advertisement of its own priority yields
/// exactly when the sender's primary address is the greater one: then it
/// deactivates and stands by, and otherwise, with an equal address too, it
/// stays active and advertises at once.
pub proof fn lemma_tie_is_broken_by_address(
    parameters: Parameters,
    state: StateView,
    now: int,
    sender_ip: Ipv4Addr,
    interval: Interval,
)
    requires
        state is Active,
    ensures
        ({
            let input = Input::Packet(
                ReceivedPacket::Advertisement {
                    sender_ip,
                    priority: parameters.mode.spec_priority(),
                    max_advertise_interval: interval,
                },
            );
            let wins = sender_ip.bits() > parameters.spec_primary_ip().bits();
            &&& next_state(parameters, state, now, input) is Backup <==> wins
            &&& next_state(parameters, state, now, input) is Active <==> !wins
            &&& wins ==> emitted(&parameters, state, now, input) == seq![Action::Deactivate]
            &&& !wins ==> emitted(&parameters, state, now, input) == seq![
                Action::Send(SendPacket::Advertisement(&parameters)),
            ]
        }),
{
}

/// An active router yields to every advertisement of higher priority and
/// to none of lower priority, whatever the addresses.
pub proof fn lemma_priority_decides_before_address(
    parameters: Parameters,
    state: StateView,
    now: int,
    sender_ip: Ipv4Addr,
    priority: u8,
    interval: Interval,
)
    requires
        state is Active,
        priority != parameters.spec_priority(),
    ensures
        next_state(
            parameters,
            state,
            now,
            Input::Packet(
                ReceivedPacket::Advertisement {
                    sender_ip,
                    priority,
                    max_advertise_interval: interval,
                },
            ),
        ) is Backup <==> priority > parameters.spec_priority(),
{
}

/// A router accepts an IPv4 datagram only while it is active, only where
/// the datagram is addressed to the virtual router's Ethernet address and
/// to one of the virtual addresses, and only where the router is set to
/// accept such traffic.
pub proof fn lemma_accept_only_own_traffic(
    parameters: Parameters,
    state: StateView,
    now: int,
    input: Input,
)
    requires
        emitted(&parameters, state, now, input).contains(Action::Route(RoutePacket::Accept)),
    ensures
        state is Active,
        input is Packet,
        input->Packet_0 is IP,
        input->Packet_0->IP_target_mac == parameters.spec_mac_address(),
        parameters.virtual_addresses@.contains(input->Packet_0->IP_target_ip),
        parameters.mode.spec_should_accept(),
{
    let actions = emitted(&parameters, state, now, input);
    let k = choose|k: int| 0 <= k < actions.len() && actions[k] == Action::Route(RoutePacket::Accept);
    assert(0 <= k < actions.len() && actions[k] == Action::Route(RoutePacket::Accept));
}

/// What an active router answers to an IPv4 datagram: `Accept` where the
/// datagram is addressed to the virtual router's Ethernet address and to a
/// virtual address and the router accepts such traffic, `Forward` for every
/// other datagram to that Ethernet address, and nothing for a datagram to
/// another Ethernet address. The router stays as it is.
pub proof fn lemma_active_routing(
    parameters: Parameters,
    state: StateView,
    now: int,
    target_mac: MacAddr,
    target_ip: Ipv4Addr,
)
    requires
        state is Active,
    ensures
        ({
            let input = Input::Packet(ReceivedPacket::IP { target_mac, target_ip });
            let own = target_mac == parameters.spec_mac_address();
            let accept = parameters.mode.spec_should_accept()
                && parameters.virtual_addresses@.contains(target_ip);
            &&& next_state(parameters, state, now, input) == state
            &&& own && accept ==> emitted(&parameters, state, now, input) == seq![
                Action::Route(RoutePacket::Accept),
            ]
            &&& own && !accept ==> emitted(&parameters, state, now, input) == seq![
                Action::Route(RoutePacket::Forward),
            ]
            &&& !own ==> emitted(&parameters, state, now, input) == Seq::<Action>::empty()
        }),
{
}

/// Every timer that handling an input sets lies at or after the instant at
/// which the input was handed in.
pub proof fn lemma_timers_move_forward(
    parameters: Parameters,
    state: StateView,
    now: int,
    input: Input,
)
    requires
        next_state(parameters, state, now, input) != state,
    ensures
        match next_state(parameters, state, now, input) {
            StateView::Initialized => true,
            StateView::Backup { active_down_timer, .. } => active_down_timer >= now,
            StateView::Active { adver_timer } => adver_timer >= now,
        },
{
    match input {
        Input::Packet(ReceivedPacket::Advertisement { max_advertise_interval, .. }) => {
            lemma_skew_bounds(
                parameters.spec_priority() as int,
                max_advertise_interval.centis() as int,
            );
        },
        Input::Packet(ReceivedPacket::ShutdownAdvertisement { max_advertise_interval }) => {
            lemma_skew_bounds(
                parameters.spec_priority() as int,
                max_advertise_interval.centis() as int,
            );
        },
        _ => {
            lemma_skew_bounds(
                parameters.spec_priority() as int,
                parameters.advertisement_interval.centis() as int,
            );
        },
    }
}

} // verus!
