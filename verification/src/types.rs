//! The remaining closed enumerations of the socket layer: socket types,
//! transport protocols, shutdown modes, and the creation-flag set. Like the
//! address families, each variant maps to a platform integer constant and
//! comparisons are by logical variant, never by raw integer across platform
//! boundaries.

use vstd::prelude::*;

verus! {

/// The communication semantics of a socket.
#[derive(Clone, Copy, PartialEq, Eq, Structural, Debug)]
pub enum SocketType {
    /// `SOCK_STREAM`.
    Stream,
    /// `SOCK_DGRAM`.
    Datagram,
    /// `SOCK_RAW`.
    Raw,
    /// `SOCK_RDM`.
    Rdm,
    /// `SOCK_SEQPACKET`.
    SeqPacket,
}

/// The native integer constant of a socket type on the target platform.
pub open spec fn spec_socket_type_value(t: SocketType) -> u32 {
    match t {
        SocketType::Stream => 1,
        SocketType::Datagram => 2,
        SocketType::Raw => 3,
        SocketType::Rdm => 4,
        SocketType::SeqPacket => 5,
    }
}

/// The socket type a native integer denotes, or `None` for an integer that
/// matches none of the supported constants.
pub open spec fn spec_socket_type_of(native: u32) -> Option<SocketType> {
    if native == 1 {
        Some(SocketType::Stream)
    } else if native == 2 {
        Some(SocketType::Datagram)
    } else if native == 3 {
        Some(SocketType::Raw)
    } else if native == 4 {
        Some(SocketType::Rdm)
    } else if native == 5 {
        Some(SocketType::SeqPacket)
    } else {
        None
    }
}

impl SocketType {
    /// The native integer constant; total on every variant.
    pub fn native_value(self) -> (r: u32)
        ensures
            r == spec_socket_type_value(self),
    {
        match self {
            SocketType::Stream => 1,
            SocketType::Datagram => 2,
            SocketType::Raw => 3,
            SocketType::Rdm => 4,
            SocketType::SeqPacket => 5,
        }
    }

    /// Maps a native integer to its socket type, or reports an unknown type
    /// as `None` rather than failing.
    pub fn from_native(native: u32) -> (r: Option<SocketType>)
        ensures
            r == spec_socket_type_of(native),
    {
        if native == 1 {
            Some(SocketType::Stream)
        } else if native == 2 {
            Some(SocketType::Datagram)
        } else if native == 3 {
            Some(SocketType::Raw)
        } else if native == 4 {
            Some(SocketType::Rdm)
        } else if native == 5 {
            Some(SocketType::SeqPacket)
        } else {
            None
        }
    }
}

/// Law: mapping a socket type to its native constant and back yields the
/// same type.
pub proof fn lemma_socket_type_round_trip(t: SocketType)
    ensures
        spec_socket_type_of(spec_socket_type_value(t)) == Some(t),
{
}

/// A transport protocol for the third argument of socket creation.
#[derive(Clone, Copy, PartialEq, Eq, Structural, Debug)]
pub enum Protocol {
    /// `IPPROTO_IP`, the default for a family and type.
    Ip,
    /// `IPPROTO_ICMP`.
    Icmp,
    /// `IPPROTO_TCP`.
    Tcp,
    /// `IPPROTO_UDP`.
    Udp,
    /// `IPPROTO_ICMPV6`.
    Icmpv6,
}

/// The native integer constant of a protocol on the target platform.
pub open spec fn spec_protocol_value(p: Protocol) -> u32 {
    match p {
        Protocol::Ip => 0,
        Protocol::Icmp => 1,
        Protocol::Tcp => 6,
        Protocol::Udp => 17,
        Protocol::Icmpv6 => 58,
    }
}

impl Protocol {
    /// The native integer constant; total on every variant.
    pub fn native_value(self) -> (r: u32)
        ensures
            r == spec_protocol_value(self),
    {
        match self {
            Protocol::Ip => 0,
            Protocol::Icmp => 1,
            Protocol::Tcp => 6,
            Protocol::Udp => 17,
            Protocol::Icmpv6 => 58,
        }
    }
}

/// Which direction of a connection a shutdown closes.
#[derive(Clone, Copy, PartialEq, Eq, Structural, Debug)]
pub enum Shutdown {
    /// `SHUT_RD`: further receives are refused.
    Read,
    /// `SHUT_WR`: further sends are refused.
    Write,
    /// `SHUT_RDWR`: both directions are closed.
    ReadWrite,
}

/// The native integer constant of a shutdown mode on the target platform.
pub open spec fn spec_shutdown_value(h: Shutdown) -> u32 {
    match h {
        Shutdown::Read => 0,
        Shutdown::Write => 1,
        Shutdown::ReadWrite => 2,
    }
}

impl Shutdown {
    /// The native integer constant; total on every variant.
    pub fn native_value(self) -> (r: u32)
        ensures
            r == spec_shutdown_value(self),
    {
        match self {
            Shutdown::Read => 0,
            Shutdown::Write => 1,
            Shutdown::ReadWrite => 2,
        }
    }
}

/// Native bit of `SOCK_NONBLOCK` for socket creation.
pub const SOCKET_NONBLOCK_BIT: u32 = 0x800;

/// Native bit of `SOCK_CLOEXEC` for socket creation.
pub const SOCKET_CLOEXEC_BIT: u32 = 0x80000;

/// Flags for socket creation: an independent bit-set; any combination of
/// recognized bits is valid and unrecognized bits are preserved opaquely.
#[derive(Clone, Copy, PartialEq, Eq, Structural, Debug)]
pub struct SocketFlags {
    /// The native bits, kept verbatim.
    pub bits: u32,
}

impl SocketFlags {
    /// The empty flag set.
    pub fn empty() -> (r: Self)
        ensures
            r.bits == 0,
    {
        SocketFlags { bits: 0 }
    }

    /// A flag set holding exactly the given native bits, recognized or not.
    pub fn from_bits_retain(bits: u32) -> (r: Self)
        ensures
            r.bits == bits,
    {
        SocketFlags { bits }
    }

    /// The native bits.
    pub fn bits(&self) -> (r: u32)
        ensures
            r == self.bits,
    {
        self.bits
    }

    /// The union of two flag sets.
    pub fn union(self, other: Self) -> (r: Self)
        ensures
            r.bits == self.bits | other.bits,
    {
        SocketFlags { bits: self.bits | other.bits }
    }

    /// Whether every bit of `other` is set in `self`.
    pub fn contains(self, other: Self) -> (r: bool)
        ensures
            r == (self.bits & other.bits == other.bits),
    {
        self.bits & other.bits == other.bits
    }
}

} // verus!
