use vstd::prelude::*;
use pnet_base::MacAddr;
use crate::addresses::VirtualAddresses;
use crate::interval::Interval;
use crate::interval::CENTIS_PER_SECOND;
use crate::ipv4::Ipv4Addr;
use crate::mode::Mode;
use crate::vrid::VRID;

verus! {

/// Seconds between two advertisements where no other interval is configured.
pub const DEFAULT_ADVERTISEMENT_SECONDS: u16 = 100;

/// The configuration of one virtual router on one interface. It does not
/// change while the router runs.
#[derive(Debug, PartialEq)]
pub struct Parameters {
    pub vrid: VRID,
    pub mode: Mode,
    pub virtual_addresses: VirtualAddresses,
    /// Time between two advertisements this router sends while active.
    pub advertisement_interval: Interval,
}

impl Clone for Parameters {
    /// A second configuration that agrees with this one in every part.
    fn clone(&self) -> (copy: Self)
        ensures
            copy.vrid == self.vrid,
            copy.mode == self.mode,
            copy.virtual_addresses@ == self.virtual_addresses@,
            copy.advertisement_interval == self.advertisement_interval,
    {
        Self {
            vrid: self.vrid,
            mode: self.mode,
            virtual_addresses: self.virtual_addresses.clone(),
            advertisement_interval: self.advertisement_interval,
        }
    }
}

/// Skew time in centiseconds for a router of the given priority that has
/// heard the active router advertise every `active_adver_centis`:
/// `((256 - priority) * interval) / 256`, rounded down.
pub open spec fn skew_centis(priority: int, active_adver_centis: int) -> int {
    ((256 - priority) * active_adver_centis) / 256
}

/// Active-down interval in centiseconds: three advertisement intervals and
/// the skew time.
pub open spec fn active_down_centis(priority: int, active_adver_centis: int) -> int {
    3 * active_adver_centis + skew_centis(priority, active_adver_centis)
}

/// The skew time is never negative and never longer than the interval it is
/// computed from.
pub proof fn lemma_skew_bounds(priority: int, active_adver_centis: int)
    requires
        0 <= priority <= 255,
        0 <= active_adver_centis,
    ensures
        0 <= skew_centis(priority, active_adver_centis) <= active_adver_centis,
        3 * active_adver_centis <= active_down_centis(priority, active_adver_centis) <= 4
            * active_adver_centis,
{
    let weight = 256 - priority;
    assert(0 <= weight * active_adver_centis <= 256 * active_adver_centis) by (nonlinear_arith)
        requires
            1 <= weight <= 256,
            0 <= active_adver_centis,
    ;
}

impl Parameters {
    /// A configuration is valid when each of its parts is.
    pub open spec fn wf(self) -> bool {
        &&& self.vrid.wf()
        &&& self.mode.wf()
        &&& self.virtual_addresses.wf()
    }

    /// The address the router's advertisements come from: the first virtual
    /// address for the owner, the configured one for a backup.
    pub open spec fn spec_primary_ip(self) -> Ipv4Addr {
        match self.mode {
            Mode::Owner => self.virtual_addresses@[0],
            Mode::Backup(backup) => backup.primary_ip,
        }
    }

    /// The priority the router advertises.
    pub open spec fn spec_priority(self) -> u16 {
        self.mode.spec_priority() as u16
    }

    /// The Ethernet address of the virtual router.
    pub open spec fn spec_mac_address(self) -> MacAddr {
        self.vrid.mac_address()
    }

    /// Skew time, in centiseconds, after an advertisement that announced
    /// the given interval.
    pub open spec fn spec_skew_time(self, active_adver_interval: Interval) -> int {
        skew_centis(self.spec_priority() as int, active_adver_interval.centis() as int)
    }

    /// Active-down interval, in centiseconds, after an advertisement that
    /// announced the given interval.
    pub open spec fn spec_active_down_interval(self, active_adver_interval: Interval) -> int {
        active_down_centis(self.spec_priority() as int, active_adver_interval.centis() as int)
    }

    /// The top priority belongs to the owner and to nobody else, and the
    /// owner accepts and preempts.
    pub proof fn lemma_owner_priority(self)
        requires
            self.wf(),
        ensures
            self.spec_priority() == 255 <==> self.mode is Owner,
            1 <= self.spec_priority() <= 255,
            self.mode is Owner ==> self.mode.spec_should_accept()
                && self.mode.spec_should_preempt(),
    {
        self.mode.lemma_owner();
    }

    /// The configuration of a virtual router that advertises at the default
    /// interval.
    pub fn new(vrid: VRID, virtual_addresses: VirtualAddresses, mode: Mode) -> (parameters: Self)
        ensures
            parameters.vrid == vrid,
            parameters.mode == mode,
            parameters.virtual_addresses == virtual_addresses,
            parameters.advertisement_interval.centis() == CENTIS_PER_SECOND
                * DEFAULT_ADVERTISEMENT_SECONDS,
    {
        Self {
            vrid,
            mode,
            virtual_addresses,
            advertisement_interval: Interval::from_secs(DEFAULT_ADVERTISEMENT_SECONDS),
        }
    }

    /// The same configuration in another mode.
    pub fn with_mode(self, mode: Mode) -> (parameters: Self)
        ensures
            parameters == (Self { mode, ..self }),
    {
        Self { mode, ..self }
    }

    /// The address the router's advertisements come from.
    pub fn primary_ip(&self) -> (address: Ipv4Addr)
        ensures
            address == self.spec_primary_ip(),
    {
        match &self.mode {
            Mode::Owner => self.virtual_addresses.first(),
            Mode::Backup(backup) => backup.primary_ip,
        }
    }

    /// The priority the router advertises, widened for the timer arithmetic:
    /// `1..=255`, and 255 for the owner alone.
    pub fn priority(&self) -> (priority: u16)
        ensures
            priority == self.spec_priority(),
            1 <= priority <= 255,
            priority == 255 <==> self.mode is Owner,
    {
        self.mode.priority() as u16
    }

    /// Whether the router, while active, accepts traffic addressed to the
    /// virtual addresses.
    pub fn should_accept(&self) -> (accept: bool)
        ensures
            accept == self.mode.spec_should_accept(),
            self.mode is Owner ==> accept,
    {
        self.mode.should_accept()
    }

    /// Whether the router takes over from an active router of lower
    /// priority.
    pub fn should_preempt(&self) -> (preempt: bool)
        ensures
            preempt == self.mode.spec_should_preempt(),
            self.mode is Owner ==> preempt,
    {
        self.mode.should_preempt()
    }

    /// Skew time after an advertisement that announced
    /// `active_adver_interval`: `((256 - priority) * interval) / 256`,
    /// rounded down. The product is formed in 128 bits, so no interval is
    /// too long.
    pub fn skew_time(&self, active_adver_interval: Interval) -> (skew: Interval)
        ensures
            skew.centis() == self.spec_skew_time(active_adver_interval),
            skew.centis() == ((256 - self.spec_priority()) * active_adver_interval.centis())
                / 256,
            skew.centis() <= active_adver_interval.centis(),
    {
        let weight: u128 = (256 - self.priority()) as u128;
        let centis: u128 = active_adver_interval.as_centis() as u128;
        proof {
            lemma_skew_bounds(self.spec_priority() as int, centis as int);
            assert(weight * centis <= 256 * centis) by (nonlinear_arith)
                requires
                    weight <= 256,
            ;
        }
        let skew: u128 = (weight * centis) / 256;
        Interval::from_count(skew as u64)
    }

    /// Whether the active-down interval for `active_adver_interval` can be
    /// counted in 64 bits. It can for every interval of up to 32 bits.
    pub open spec fn active_down_fits(self, active_adver_interval: Interval) -> bool {
        self.spec_active_down_interval(active_adver_interval) <= u64::MAX
    }

    /// Active-down interval after an advertisement that announced
    /// `active_adver_interval`: `3 * interval + skew_time(interval)`.
    pub fn active_down_interval(&self, active_adver_interval: Interval) -> (down: Interval)
        requires
            self.active_down_fits(active_adver_interval),
        ensures
            down.centis() == self.spec_active_down_interval(active_adver_interval),
            down.centis() == 3 * active_adver_interval.centis() + self.spec_skew_time(
                active_adver_interval,
            ),
    {
        let skew = self.skew_time(active_adver_interval);
        let centis: u64 = active_adver_interval.as_centis();
        Interval::from_count(3 * centis + skew.as_centis())
    }

    /// The active-down interval where it can be counted, `None` where it
    /// cannot.
    pub fn checked_active_down_interval(&self, active_adver_interval: Interval) -> (down: Option<
        Interval,
    >)
        ensures
            self.active_down_fits(active_adver_interval) ==> down.is_some()
                && down.unwrap().centis() == self.spec_active_down_interval(
                active_adver_interval,
            ),
            !self.active_down_fits(active_adver_interval) ==> down.is_none(),
    {
        let skew = self.skew_time(active_adver_interval);
        let centis: u64 = active_adver_interval.as_centis();
        if centis <= (u64::MAX - skew.as_centis()) / 3 {
            Some(Interval::from_count(3 * centis + skew.as_centis()))
        } else {
            None
        }
    }

    /// The Ethernet address of the virtual router.
    pub fn mac_address(&self) -> (mac: MacAddr)
        ensures
            mac == self.spec_mac_address(),
    {
        self.vrid.into_mac_address()
    }
}

/// The active-down interval of every interval of up to 32 bits can be
/// counted, whatever the priority.
pub proof fn lemma_active_down_fits(parameters: Parameters, active_adver_interval: Interval)
    requires
        active_adver_interval.centis() <= u32::MAX,
    ensures
        parameters.active_down_fits(active_adver_interval),
{
    lemma_skew_bounds(
        parameters.spec_priority() as int,
        active_adver_interval.centis() as int,
    );
}

} // verus!
