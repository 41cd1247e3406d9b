use vstd::prelude::*;

verus! {

/// An IPv4 address: its four octets in the order they travel on the wire.
#[derive(Clone, Copy, Debug, PartialEq, Eq, Hash, Structural)]
pub struct Ipv4Addr(pub u8, pub u8, pub u8, pub u8);

impl Ipv4Addr {
    /// The address read as one unsigned 32-bit number in network byte order:
    /// the first octet weighs most.
    pub open spec fn bits(self) -> u32 {
        (self.0 * 0x100_0000 + self.1 * 0x1_0000 + self.2 * 0x100 + self.3) as u32
    }

    /// Different addresses read as different numbers.
    pub proof fn lemma_bits_tell_apart(self, other: Ipv4Addr)
        ensures
            self.bits() == other.bits() <==> self == other,
    {
    }

    /// The order of two addresses is decided by the first octet in which
    /// they differ.
    pub proof fn lemma_bits_order(self, other: Ipv4Addr)
        ensures
            self.bits() > other.bits() <==> (self.0 > other.0 || (self.0 == other.0 && (self.1
                > other.1 || (self.1 == other.1 && (self.2 > other.2 || (self.2 == other.2
                && self.3 > other.3)))))),
    {
    }

    /// The address `a.b.c.d`.
    pub fn new(a: u8, b: u8, c: u8, d: u8) -> (address: Self)
        ensures
            address == Ipv4Addr(a, b, c, d),
    {
        Ipv4Addr(a, b, c, d)
    }

    /// The address as one number in network byte order.
    pub fn to_bits(self) -> (bits: u32)
        ensures
            bits == self.bits(),
    {
        let a: u32 = self.0 as u32;
        let b: u32 = self.1 as u32;
        let c: u32 = self.2 as u32;
        let d: u32 = self.3 as u32;
        a * 0x100_0000 + b * 0x1_0000 + c * 0x100 + d
    }

    /// The address that reads as `bits` in network byte order.
    pub fn from_bits(bits: u32) -> (address: Self)
        ensures
            address.bits() == bits,
    {
        let a: u8 = (bits / 0x100_0000) as u8;
        let b: u8 = ((bits / 0x1_0000) % 0x100) as u8;
        let c: u8 = ((bits / 0x100) % 0x100) as u8;
        let d: u8 = (bits % 0x100) as u8;
        Ipv4Addr(a, b, c, d)
    }

    /// Whether this address is the greater of the two, compared as unsigned
    /// numbers in network byte order.
    pub fn is_greater_than(self, other: Ipv4Addr) -> (greater: bool)
        ensures
            greater == (self.bits() > other.bits()),
    {
        self.to_bits() > other.to_bits()
    }
}

} // verus!
