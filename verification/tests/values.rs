use pnet_base::MacAddr;
use vrrp::actions::ShutdownActive;
use vrrp::actions::TransitionToActive;
use vrrp::Action;
use vrrp::Actions;
use vrrp::BackupMode;
use vrrp::Command;
use vrrp::Input;
use vrrp::Instant;
use vrrp::Interval;
use vrrp::Ipv4Addr;
use vrrp::Mode;
use vrrp::Parameters;
use vrrp::Priority;
use vrrp::ReceivedPacket;
use vrrp::RoutePacket;
use vrrp::SendPacket;
use vrrp::VirtualAddresses;
use vrrp::VRID;

fn parameters_at(priority: u8) -> Parameters {
    let mode = BackupMode::with_primary_ip(Ipv4Addr::new(10, 0, 0, 1))
        .with_priority(Priority::try_from(priority).unwrap());
    Parameters {
        vrid: VRID::try_from(7).unwrap(),
        mode: mode.into(),
        virtual_addresses: VirtualAddresses::try_from(vec![Ipv4Addr::new(10, 0, 0, 254)]).unwrap(),
        advertisement_interval: Interval::from_centis(100),
    }
}

fn owner_parameters() -> Parameters {
    parameters_at(1).with_mode(Mode::Owner)
}

#[test]
fn priority_refuses_the_reserved_values() {
    assert_eq!(Priority::try_from(0), Err(()));
    assert_eq!(Priority::try_from(255), Err(()));
    assert_eq!(Priority::try_from(1).unwrap().as_u16(), 1);
    assert_eq!(Priority::try_from(254).unwrap().as_u16(), 254);
    assert_eq!(Priority::try_from(254).unwrap().get(), 254);
    assert_eq!(u8::from(Priority::try_from(37).unwrap()), 37);
}

#[test]
fn priority_defaults_to_100() {
    assert_eq!(Priority::default().as_u16(), 100);
    assert_eq!(Priority::default(), Priority::try_from(100).unwrap());
}

#[test]
fn interval_counts_centiseconds() {
    assert_eq!(Interval::from_centis(1).as_centis(), 1);
    assert_eq!(Interval::from_secs(1).as_centis(), 100);
    assert_eq!(Interval::from_secs(1), Interval::from_centis(100));
    assert_eq!(Interval::from_secs(65535).as_centis(), 6_553_500);
    assert_eq!(Interval::from_count(1 << 40).as_centis(), 1 << 40);
    assert_eq!(Interval::from_secs(2).as_millis(), 2000);
    assert_eq!(Interval::from_count(u64::MAX).as_millis(), 10 * (u64::MAX as u128));
    assert_eq!(Interval::from_centis(3).checked_nanos(), Some(30_000_000));
    assert_eq!(Interval::from_count(u64::MAX).checked_nanos(), None);
}

#[test]
fn interval_arithmetic() {
    let interval = Interval::from_centis(100);
    assert_eq!(interval + Interval::from_centis(60), Interval::from_centis(160));
    assert_eq!(3 * interval, Interval::from_centis(300));
    assert_eq!(256 * interval, Interval::from_centis(25600));
    assert_eq!(156 * interval / 256, Interval::from_centis(60));
    assert_eq!(Interval::from_centis(255) / 256, Interval::from_centis(0));
}

#[test]
fn instant_moves_by_intervals() {
    let start = Instant::from_nanos(5);
    let later = start + Interval::from_centis(2);
    assert_eq!(later.as_nanos(), 20_000_005);
    assert!(later.has_reached(start));
    assert!(later.has_reached(later));
    assert!(!start.has_reached(later));
    assert_eq!(start.checked_add(Interval::from_centis(2)), Some(later));
    assert_eq!(Instant::from_nanos(u64::MAX).checked_add(Interval::from_centis(1)), None);
    assert_eq!(
        Instant::from_nanos(u64::MAX).checked_add(Interval::from_centis(0)),
        Some(Instant::from_nanos(u64::MAX))
    );
    assert_eq!(start.checked_add(Interval::from_count(u64::MAX)), None);
}

#[test]
fn ipv4_reads_in_network_byte_order() {
    assert_eq!(Ipv4Addr::new(1, 2, 3, 4).to_bits(), 0x0102_0304);
    assert_eq!(Ipv4Addr::new(255, 255, 255, 255).to_bits(), u32::MAX);
    assert_eq!(Ipv4Addr::from_bits(0x0A00_00FE), Ipv4Addr::new(10, 0, 0, 254));
    assert_eq!(Ipv4Addr::from_bits(Ipv4Addr::new(192, 168, 1, 77).to_bits()), Ipv4Addr(192, 168, 1, 77));
    assert!(Ipv4Addr::new(9, 9, 9, 9).is_greater_than(Ipv4Addr::new(1, 1, 1, 1)));
    assert!(Ipv4Addr::new(1, 0, 0, 0).is_greater_than(Ipv4Addr::new(0, 255, 255, 255)));
    assert!(!Ipv4Addr::new(9, 9, 9, 9).is_greater_than(Ipv4Addr::new(42, 42, 42, 42)));
    assert!(!Ipv4Addr::new(9, 9, 9, 9).is_greater_than(Ipv4Addr::new(9, 9, 9, 9)));
}

#[test]
fn vrid_refuses_zero_and_gives_the_virtual_mac() {
    assert_eq!(VRID::try_from(0), Err(()));
    assert_eq!(VRID::try_from(1).unwrap().get(), 1);
    assert_eq!(
        VRID::try_from(1).unwrap().into_mac_address(),
        MacAddr(0x00, 0x00, 0x5E, 0x00, 0x01, 0x01)
    );
    assert_eq!(
        VRID::try_from(255).unwrap().into_mac_address(),
        MacAddr::new(0x00, 0x00, 0x5E, 0x00, 0x01, 0xFF)
    );
}

#[test]
fn same_mac_compares_every_octet() {
    let mac = MacAddr(1, 2, 3, 4, 5, 6);
    assert!(vrrp::mac::same_mac(mac, MacAddr(1, 2, 3, 4, 5, 6)));
    assert!(!vrrp::mac::same_mac(mac, MacAddr(0, 2, 3, 4, 5, 6)));
    assert!(!vrrp::mac::same_mac(mac, MacAddr(1, 2, 0, 4, 5, 6)));
    assert!(!vrrp::mac::same_mac(mac, MacAddr(1, 2, 3, 4, 5, 0)));
}

#[test]
fn virtual_addresses_refuse_the_empty_list() {
    assert_eq!(VirtualAddresses::try_from(Vec::new()), Err(()));

    let first = Ipv4Addr::new(1, 1, 1, 1);
    let second = Ipv4Addr::new(2, 2, 2, 2);
    let addresses = VirtualAddresses::try_from(vec![first, second]).unwrap();
    assert_eq!(addresses.len(), 2);
    assert_eq!(addresses.first(), first);
    assert_eq!(addresses.get(0), Some(first));
    assert_eq!(addresses.get(1), Some(second));
    assert_eq!(addresses.get(2), None);
    assert!(addresses.contains(second));
    assert!(!addresses.contains(Ipv4Addr::new(2, 2, 2, 3)));
    assert_eq!(addresses.clone(), addresses);
}

#[test]
fn backup_mode_builders() {
    let ip = Ipv4Addr::new(10, 0, 0, 1);
    let mode = BackupMode::with_primary_ip(ip);
    assert_eq!(
        mode,
        BackupMode { primary_ip: ip, priority: Priority::default(), preempt: true, accept: false }
    );
    let changed = mode
        .with_priority(Priority::try_from(7).unwrap())
        .with_preempt(false)
        .with_accept(true);
    assert_eq!(changed.primary_ip, ip);
    assert_eq!(changed.priority.as_u16(), 7);
    assert!(!changed.preempt);
    assert!(changed.accept);
    assert_eq!(Mode::from(mode), Mode::Backup(mode));
}

#[test]
fn owner_has_priority_255_and_accepts_and_preempts() {
    assert_eq!(Mode::Owner.priority(), 255);
    assert!(Mode::Owner.should_accept());
    assert!(Mode::Owner.should_preempt());

    let owner = owner_parameters();
    assert_eq!(owner.priority(), 255);
    assert!(owner.should_accept());
    assert!(owner.should_preempt());
    assert_eq!(owner.primary_ip(), Ipv4Addr::new(10, 0, 0, 254));

    let backup = parameters_at(254);
    assert_eq!(backup.priority(), 254);
    assert!(!backup.should_accept());
    assert!(backup.should_preempt());
    assert_eq!(backup.primary_ip(), Ipv4Addr::new(10, 0, 0, 1));
    assert_eq!(backup.mac_address(), MacAddr(0, 0, 0x5E, 0, 1, 7));
}

#[test]
fn parameters_new_uses_the_default_interval() {
    let addresses = VirtualAddresses::try_from(vec![Ipv4Addr::new(1, 1, 1, 1)]).unwrap();
    let parameters = Parameters::new(VRID::try_from(9).unwrap(), addresses.clone(), Mode::Owner);
    assert_eq!(parameters.vrid, VRID::try_from(9).unwrap());
    assert_eq!(parameters.mode, Mode::Owner);
    assert_eq!(parameters.virtual_addresses, addresses);
    assert_eq!(parameters.advertisement_interval, Interval::from_secs(100));
}

#[test]
fn skew_time_is_exact() {
    let interval = Interval::from_centis(100);
    assert_eq!(parameters_at(100).skew_time(interval), Interval::from_centis(60));
    assert_eq!(parameters_at(200).skew_time(interval), Interval::from_centis(21));
    assert_eq!(parameters_at(1).skew_time(interval), Interval::from_centis(99));
    assert_eq!(parameters_at(254).skew_time(interval), Interval::from_centis(0));
    assert_eq!(owner_parameters().skew_time(interval), Interval::from_centis(0));
    assert_eq!(owner_parameters().skew_time(Interval::from_centis(256)), Interval::from_centis(1));
    assert_eq!(
        parameters_at(1).skew_time(Interval::from_count(u32::MAX as u64)),
        Interval::from_count(4_278_190_079)
    );
    assert_eq!(
        parameters_at(1).skew_time(Interval::from_count(u64::MAX)),
        Interval::from_count(18_374_686_479_671_623_679)
    );
}

#[test]
fn active_down_interval_is_exact() {
    let interval = Interval::from_centis(100);
    assert_eq!(parameters_at(100).active_down_interval(interval), Interval::from_centis(360));
    assert_eq!(owner_parameters().active_down_interval(interval), Interval::from_centis(300));
    assert_eq!(
        parameters_at(1).active_down_interval(Interval::from_count(u32::MAX as u64)),
        Interval::from_count(3 * (u32::MAX as u64) + 4_278_190_079)
    );
    assert_eq!(
        parameters_at(100).checked_active_down_interval(interval),
        Some(Interval::from_centis(360))
    );
    assert_eq!(
        parameters_at(100).checked_active_down_interval(Interval::from_count(u64::MAX / 3)),
        None
    );
    assert_eq!(
        owner_parameters().checked_active_down_interval(Interval::from_count(u64::MAX / 4)),
        Some(Interval::from_count(u64::MAX / 4 * 3 + u64::MAX / 4 / 256))
    );
}

#[test]
fn inputs_and_actions_convert() {
    assert_eq!(Input::from(Command::Startup), Input::Command(Command::Startup));
    let packet = ReceivedPacket::ShutdownAdvertisement { max_advertise_interval: Interval::from_secs(1) };
    assert_eq!(Input::from(packet), Input::Packet(packet));
    assert!(packet.is_valid());
    assert!(Input::Timer.is_valid());
    assert_eq!(Action::from(RoutePacket::Reject), Action::Route(RoutePacket::Reject));
    let arp = SendPacket::GratuitousARP {
        sender_mac: MacAddr(0, 0, 0x5E, 0, 1, 7),
        sender_ip: Ipv4Addr::new(10, 0, 0, 254),
    };
    assert_eq!(Action::from(arp), Action::Send(arp));
    assert_eq!(Actions::from(Action::Activate).collect(), vec![Action::Activate]);
    assert_eq!(Actions::Empty.collect(), Vec::new());
}

#[test]
fn transition_to_active_steps() {
    let parameters = parameters_at(100);
    let mut transition = TransitionToActive::default();
    assert_eq!(transition, TransitionToActive::Activate);

    assert_eq!(transition.next_action(&parameters), Some(Action::Activate));
    assert_eq!(transition, TransitionToActive::Advertisment);
    assert_eq!(
        transition.next_action(&parameters),
        Some(Action::Send(SendPacket::Advertisement(&parameters)))
    );
    assert_eq!(transition, TransitionToActive::NextARP(0));
    assert_eq!(
        transition.next_action(&parameters),
        Some(Action::Send(SendPacket::GratuitousARP {
            sender_mac: MacAddr(0, 0, 0x5E, 0, 1, 7),
            sender_ip: Ipv4Addr::new(10, 0, 0, 254),
        }))
    );
    assert_eq!(transition, TransitionToActive::NextARP(1));
    assert_eq!(transition.next_action(&parameters), None);
    assert_eq!(transition, TransitionToActive::NextARP(1));
}

#[test]
fn shutdown_active_steps() {
    let parameters = owner_parameters();
    let mut shutdown = ShutdownActive::default();
    assert_eq!(shutdown, ShutdownActive::Advertisment);

    assert_eq!(
        shutdown.next_action(&parameters),
        Some(Action::Send(SendPacket::ShutdownAdvertisement(&parameters)))
    );
    assert_eq!(shutdown, ShutdownActive::Deactivate);
    assert_eq!(shutdown.next_action(&parameters), Some(Action::Deactivate));
    assert_eq!(shutdown, ShutdownActive::Done);
    assert_eq!(shutdown.next_action(&parameters), None);
    assert_eq!(shutdown, ShutdownActive::Done);
}

#[test]
fn many_addresses_are_all_announced() {
    let mut list = Vec::new();
    for high in 0..2u8 {
        for low in 0..150u8 {
            list.push(Ipv4Addr::new(10, 1, high, low));
        }
    }
    let parameters = Parameters {
        vrid: VRID::try_from(3).unwrap(),
        mode: Mode::Owner,
        virtual_addresses: VirtualAddresses::try_from(list.clone()).unwrap(),
        advertisement_interval: Interval::from_centis(100),
    };

    let actions = Actions::TransitionToActive(&parameters, TransitionToActive::default()).collect();

    assert_eq!(actions.len(), 302);
    for (index, address) in list.iter().enumerate() {
        assert_eq!(
            actions[2 + index],
            Action::Send(SendPacket::GratuitousARP {
                sender_mac: MacAddr(0, 0, 0x5E, 0, 1, 3),
                sender_ip: *address
            })
        );
    }
}
