use vstd::prelude::*;
use vstd::std_specs::convert::TryFromSpecImpl;
use pnet_base::MacAddr;

verus! {

/// Identifier of a virtual router on its network: `1..=255`.
#[derive(Copy, Clone, Debug, PartialEq, Eq, Structural)]
pub struct VRID(u8);

impl VRID {
    /// The identifier as a number.
    pub closed spec fn value(self) -> u8 {
        self.0
    }

    /// Zero identifies no virtual router.
    #[verifier::type_invariant]
    pub open spec fn wf(self) -> bool {
        self.value() != 0
    }

    /// The identifier a byte converts to, when it is not zero.
    pub closed spec fn of(value: u8) -> VRID {
        VRID(value)
    }

    /// `of` keeps the number it is given.
    pub broadcast proof fn lemma_of_value(value: u8)
        ensures
            #[trigger] Self::of(value).value() == value,
    {
    }

    /// The Ethernet address that RFC 9568, section 7.3, assigns to the
    /// virtual router for IPv4: `00-00-5E-00-01-{VRID}`.
    pub open spec fn mac_address(self) -> MacAddr {
        MacAddr(0x00, 0x00, 0x5E, 0x00, 0x01, self.value())
    }

    /// The identifier as a number.
    pub fn get(&self) -> (value: u8)
        ensures
            value == self.value(),
            value != 0,
            self.wf(),
    {
        proof {
            use_type_invariant(self);
        }
        self.0
    }

    /// The virtual router's Ethernet address.
    pub fn into_mac_address(self) -> (mac: MacAddr)
        ensures
            mac == self.mac_address(),
    {
        MacAddr(0x00, 0x00, 0x5E, 0x00, 0x01, self.0)
    }
}

impl TryFrom<u8> for VRID {
    type Error = ();

    /// Refuses zero and accepts every other byte.
    fn try_from(value: u8) -> (converted: Result<Self, ()>)
        ensures
            value != 0 ==> converted == Ok::<VRID, ()>(Self::of(value)),
            value == 0 ==> converted == Err::<VRID, ()>(()),
            converted is Ok ==> converted->Ok_0.value() == value && converted->Ok_0.wf(),
    {
        if value == 0 {
            Err(())
        } else {
            Ok(VRID(value))
        }
    }
}

impl TryFromSpecImpl<u8> for VRID {
    open spec fn obeys_try_from_spec() -> bool {
        true
    }

    open spec fn try_from_spec(value: u8) -> Result<Self, ()> {
        if value != 0 {
            Ok(Self::of(value))
        } else {
            Err(())
        }
    }
}

} // verus!
