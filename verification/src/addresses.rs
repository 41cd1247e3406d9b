use vstd::prelude::*;
use vstd::std_specs::convert::TryFromSpecImpl;
use crate::ipv4::Ipv4Addr;

verus! {

/// The IPv4 addresses a virtual router serves, in configured order. There is
/// always at least one.
#[derive(Debug, PartialEq)]
pub struct VirtualAddresses(Vec<Ipv4Addr>);

impl Clone for VirtualAddresses {
    /// A second list of the same addresses in the same order.
    fn clone(&self) -> (copy: Self)
        ensures
            copy@ == self@,
    {
        proof {
            use_type_invariant(self);
        }
        let addresses = self.0.clone();
        assert(addresses@ =~= self.0@);
        VirtualAddresses(addresses)
    }
}

impl View for VirtualAddresses {
    type V = Seq<Ipv4Addr>;

    closed spec fn view(&self) -> Seq<Ipv4Addr> {
        self.0@
    }
}

impl VirtualAddresses {
    /// A virtual router without an address serves nothing.
    #[verifier::type_invariant]
    pub open spec fn wf(self) -> bool {
        self@.len() > 0
    }

    /// The list a vector converts to, when it is not empty.
    pub closed spec fn of(addresses: Vec<Ipv4Addr>) -> VirtualAddresses {
        VirtualAddresses(addresses)
    }

    /// `of` keeps the addresses and their order.
    pub broadcast proof fn lemma_of_view(addresses: Vec<Ipv4Addr>)
        ensures
            #[trigger] Self::of(addresses)@ == addresses@,
    {
    }

    /// How many addresses the virtual router serves.
    pub fn len(&self) -> (count: usize)
        ensures
            count == self@.len(),
            count > 0,
            self.wf(),
    {
        proof {
            use_type_invariant(self);
        }
        self.0.len()
    }

    /// The address at `index` in configured order, if there is one.
    pub fn get(&self, index: usize) -> (address: Option<Ipv4Addr>)
        ensures
            index < self@.len() ==> address == Some(self@[index as int]),
            index >= self@.len() ==> address.is_none(),
            address.is_some() ==> index < usize::MAX,
    {
        if index < self.0.len() {
            Some(self.0[index])
        } else {
            None
        }
    }

    /// The first configured address.
    pub fn first(&self) -> (address: Ipv4Addr)
        ensures
            self.wf(),
            address == self@[0],
    {
        proof {
            use_type_invariant(self);
        }
        self.0[0]
    }

    /// Whether `ip` is one of the virtual router's addresses.
    pub fn contains(&self, ip: Ipv4Addr) -> (found: bool)
        ensures
            found == self@.contains(ip),
    {
        let mut index: usize = 0;
        while index < self.0.len()
            invariant
                index <= self.0.len(),
                forall|k: int| 0 <= k < index ==> self.0@[k] != ip,
            decreases self.0.len() - index,
        {
            if self.0[index] == ip {
                return true;
            }
            index += 1;
        }
        false
    }
}

impl TryFrom<Vec<Ipv4Addr>> for VirtualAddresses {
    type Error = ();

    /// Refuses the empty list and accepts every other.
    fn try_from(value: Vec<Ipv4Addr>) -> (converted: Result<Self, ()>)
        ensures
            value@.len() > 0 ==> converted == Ok::<VirtualAddresses, ()>(Self::of(value)),
            value@.len() == 0 ==> converted == Err::<VirtualAddresses, ()>(()),
            converted is Ok ==> converted->Ok_0@ == value@ && converted->Ok_0.wf(),
    {
        if value.is_empty() {
            return Err(());
        }
        Ok(VirtualAddresses(value))
    }
}

impl TryFromSpecImpl<Vec<Ipv4Addr>> for VirtualAddresses {
    open spec fn obeys_try_from_spec() -> bool {
        true
    }

    open spec fn try_from_spec(value: Vec<Ipv4Addr>) -> Result<Self, ()> {
        if value@.len() > 0 {
            Ok(Self::of(value))
        } else {
            Err(())
        }
    }
}

} // verus!
