use vstd::prelude::*;

verus! {

/// Transport-level protocol carried by a decoded frame.
#[derive(Clone, Copy, Debug, PartialEq, Eq, Structural)]
pub enum Protocol {
    Icmp,
    Igmp,
    Tcp,
    Arp,
    Udp,
}

/// The tag that an L4 protocol number stands for, if it is one this library knows.
pub open spec fn protocol_of(value: u8) -> Option<Protocol> {
    if value == 1 || value == 58 {
        Some(Protocol::Icmp)
    } else if value == 2 {
        Some(Protocol::Igmp)
    } else if value == 6 {
        Some(Protocol::Tcp)
    } else if value == 17 {
        Some(Protocol::Udp)
    } else {
        None
    }
}

impl Protocol {
    /// Classifies an L4 protocol number (ICMP for both IPv4's and IPv6's number).
    /// ARP never comes out of here: it is read from the ethertype.
    pub fn from(value: u8) -> (r: Option<Protocol>)
        ensures
            r == protocol_of(value),
    {
        match value {
            1 | 58 => Some(Protocol::Icmp),
            2 => Some(Protocol::Igmp),
            6 => Some(Protocol::Tcp),
            17 => Some(Protocol::Udp),
            _ => None,
        }
    }

    /// Whether frames of this protocol carry source and destination ports.
    pub fn has_ports(&self) -> (r: bool)
        ensures
            r == (*self == Protocol::Tcp || *self == Protocol::Udp),
    {
        match self {
            Protocol::Tcp | Protocol::Udp => true,
            _ => false,
        }
    }
}

} // verus!
