use vstd::prelude::*;

verus! {

/// A network-layer address, needed by the datagram checksum.
#[derive(Clone, Copy, Debug, PartialEq, Eq)]
pub enum IpAddress {
    V4([u8; 4]),
    V6([u8; 16]),
}

impl IpAddress {
    /// The address as it appears on the wire.
    pub open spec fn octets(self) -> Seq<u8> {
        match self {
            IpAddress::V4(a) => a@,
            IpAddress::V6(a) => a@,
        }
    }

    pub open spec fn is_v4(self) -> bool {
        self is V4
    }

    /// Both addresses belong to one address family.
    pub open spec fn same_family(self, other: IpAddress) -> bool {
        self.is_v4() == other.is_v4()
    }

    pub fn same_family_as(&self, other: &IpAddress) -> (r: bool)
        ensures
            r == self.same_family(*other),
    {
        match (self, other) {
            (IpAddress::V4(_), IpAddress::V4(_)) => true,
            (IpAddress::V6(_), IpAddress::V6(_)) => true,
            _ => false,
        }
    }
}

} // verus!
