use vstd::prelude::*;

verus! {

/// The kinds of protocol layer that a packet is built from.
#[derive(Clone, Copy, Debug, PartialEq, Eq, Structural)]
pub enum LayerType {
    Ethernet,
    Ipv4,
    Ipv6,
    Tcp,
    Udp,
}

impl LayerType {
    pub open spec fn name_spec(self) -> Seq<char> {
        match self {
            LayerType::Ethernet => "Ethernet"@,
            LayerType::Ipv4 => "IPv4"@,
            LayerType::Ipv6 => "IPv6"@,
            LayerType::Tcp => "TCP"@,
            LayerType::Udp => "UDP"@,
        }
    }

    /// The name of the layer kind, as shown in summaries.
    pub fn name(&self) -> (r: &'static str)
        ensures
            r@ == self.name_spec(),
    {
        match self {
            LayerType::Ethernet => "Ethernet",
            LayerType::Ipv4 => "IPv4",
            LayerType::Ipv6 => "IPv6",
            LayerType::Tcp => "TCP",
            LayerType::Udp => "UDP",
        }
    }
}

/// Why a layer could not be written into a buffer.
#[derive(Clone, Copy, Debug, PartialEq, Eq, Structural)]
pub enum LayerError {
    /// The buffer is shorter than the layer's header.
    BufferTooSmall,
    /// The source and destination addresses are of different families.
    AddressFamilyMismatch,
}

/// What composition code asks of every protocol layer.
pub trait Layer {
    /// The size of the layer's own header, without payload.
    spec fn header_size(&self) -> nat;

    /// The kind of this layer.
    fn get_type(&self) -> LayerType;

    /// The size of the layer's own header on the wire.
    fn get_size(&self) -> (r: usize)
        ensures
            r == self.header_size(),
    ;

    /// Writes the layer into the start of `buffer`.
    fn serialize(&self, buffer: &mut [u8]) -> (r: Result<(), LayerError>)
        ensures
            final(buffer)@.len() == old(buffer)@.len(),
    ;

    /// Writes the layer into the start of `buffer`, knowing that `n` bytes
    /// will follow it; returns the layer's size with those bytes.
    fn serialize_n(&self, n: usize, buffer: &mut [u8]) -> (r: Result<usize, LayerError>)
        requires
            self.header_size() + n <= usize::MAX,
        ensures
            final(buffer)@.len() == old(buffer)@.len(),
            r matches Ok(total) ==> total == self.header_size() + n,
    ;
}

} // verus!
