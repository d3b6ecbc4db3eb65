//! The address data model: the safe, tagged-union representation of a socket
//! address, its validity invariants, and the fixed-capacity scratch buffer
//! handed to syscalls that fill in an address.

use vstd::prelude::*;

use crate::layout::LayoutConstants;

verus! {

/// The error taxonomy of the codec. Every failure is returned to the caller;
/// the codec never aborts and never substitutes a default address.
#[derive(Clone, Copy, PartialEq, Eq, Structural, Debug)]
pub enum SocketAddrError {
    /// The input buffer or reported length is too small for the structure
    /// the decoded family implies.
    Truncated,
    /// The output buffer is too small to hold the encoded structure.
    Capacity,
    /// A Unix-domain name exceeds the platform's path capacity or contains
    /// a disallowed embedded null byte.
    InvalidName,
    /// An abstract-namespace name was met on a platform without that
    /// namespace.
    Unsupported,
}

/// The mathematical model of a typed address: what each variant carries,
/// with byte payloads as sequences.
pub enum AddrModel {
    /// An IPv4 endpoint: four address bytes and a host-order port.
    V4 { addr: Seq<u8>, port: u16 },
    /// An IPv6 endpoint: sixteen address bytes, a host-order port, flow
    /// info and scope id.
    V6 { addr: Seq<u8>, port: u16, flowinfo: u32, scope_id: u32 },
    /// A Unix-domain name: a filesystem path, or an abstract name marked by
    /// a leading zero byte.
    Unix { name: Seq<u8> },
    /// No address / wildcard family.
    Unspecified,
}

/// Whether a Unix-domain name byte sequence denotes an abstract name: the
/// empty name, or one whose first byte is zero — a shape a filesystem path
/// can never take.
pub open spec fn spec_is_abstract_name(name: Seq<u8>) -> bool {
    name.len() == 0 || name[0] == 0
}

/// Validity of a Unix-domain name under a platform's layout: an abstract
/// name needs the abstract namespace and at most `path_capacity - 1` bytes;
/// a filesystem path holds no null byte and leaves room for the trailing
/// terminator where the wire format requires one.
pub open spec fn spec_unix_name_wf(lc: LayoutConstants, name: Seq<u8>) -> bool {
    if spec_is_abstract_name(name) {
        &&& lc.supports_abstract
        &&& name.len() <= lc.path_capacity - 1
    } else {
        &&& forall|i: int| 0 <= i < name.len() ==> name[i] != 0
        &&& name.len() <= lc.spec_max_path_len()
    }
}

/// Validity of a typed address under a platform's layout.
pub open spec fn spec_addr_wf(lc: LayoutConstants, m: AddrModel) -> bool {
    match m {
        AddrModel::V4 { addr, .. } => addr.len() == 4,
        AddrModel::V6 { addr, .. } => addr.len() == 16,
        AddrModel::Unix { name } => spec_unix_name_wf(lc, name),
        AddrModel::Unspecified => true,
    }
}

/// An IPv4 endpoint: a 4-byte address and a port, the port held in host
/// order in the typed value.
#[derive(Clone, Copy, PartialEq, Eq, Debug)]
pub struct SocketAddrV4 {
    /// The address bytes, in the order they appear in dotted notation.
    pub octets: [u8; 4],
    /// The port, in host byte order.
    pub port: u16,
}

/// An IPv6 endpoint: a 16-byte address, a port, flow info and scope id, the
/// numeric fields held in host order in the typed value.
#[derive(Clone, Copy, PartialEq, Eq, Debug)]
pub struct SocketAddrV6 {
    /// The address bytes, in network order.
    pub octets: [u8; 16],
    /// The port, in host byte order.
    pub port: u16,
    /// The flow label, in host byte order.
    pub flowinfo: u32,
    /// The scope id, in host byte order.
    pub scope_id: u32,
}

/// A Unix-domain address: an opaque byte sequence, either a filesystem path
/// or an abstract name distinguished by its leading zero byte. The checking
/// constructors build exactly the names that are valid under a platform's
/// layout.
#[derive(Clone, PartialEq, Eq, Debug)]
pub struct SocketAddrUnix {
    /// The name bytes; a filesystem path holds no null byte, an abstract
    /// name is empty or starts with a zero byte.
    pub name: Vec<u8>,
}

/// The typed, tagged-union representation of a socket address.
#[derive(Clone, PartialEq, Eq, Debug)]
pub enum SocketAddr {
    /// An IPv4 endpoint.
    V4(SocketAddrV4),
    /// An IPv6 endpoint.
    V6(SocketAddrV6),
    /// A Unix-domain path or abstract name.
    Unix(SocketAddrUnix),
    /// No address / wildcard family.
    Unspecified,
}

impl View for SocketAddrUnix {
    type V = Seq<u8>;

    open spec fn view(&self) -> Seq<u8> {
        self.name@
    }
}

impl View for SocketAddr {
    type V = AddrModel;

    open spec fn view(&self) -> AddrModel {
        match self {
            SocketAddr::V4(a) => AddrModel::V4 { addr: a.octets@, port: a.port },
            SocketAddr::V6(a) => AddrModel::V6 {
                addr: a.octets@,
                port: a.port,
                flowinfo: a.flowinfo,
                scope_id: a.scope_id,
            },
            SocketAddr::Unix(u) => AddrModel::Unix { name: u.name@ },
            SocketAddr::Unspecified => AddrModel::Unspecified,
        }
    }
}

impl SocketAddrUnix {
    /// Validity of this name under a platform's layout.
    pub open spec fn wf(self, lc: LayoutConstants) -> bool {
        spec_unix_name_wf(lc, self@)
    }

    /// Builds a filesystem-path name. Accepts exactly the byte sequences
    /// that are non-empty, hold no null byte, and fit the path field with
    /// room for the terminator the wire format requires; everything else is
    /// rejected as an invalid name.
    pub fn new_path(lc: &LayoutConstants, name: Vec<u8>) -> (r: Result<
        SocketAddrUnix,
        SocketAddrError,
    >)
        requires
            lc.wf(),
        ensures
            match r {
                Ok(u) => {
                    &&& u@ == name@
                    &&& name@.len() > 0
                    &&& forall|i: int| 0 <= i < name@.len() ==> name@[i] != 0
                    &&& name@.len() <= lc.spec_max_path_len()
                    &&& u.wf(*lc)
                },
                Err(e) => {
                    &&& e == SocketAddrError::InvalidName
                    &&& !(name@.len() > 0 && name@.len() <= lc.spec_max_path_len() && (forall|
                        i: int,
                    | 0 <= i < name@.len() ==> name@[i] != 0))
                },
            },
    {
        if name.len() == 0 {
            return Err(SocketAddrError::InvalidName);
        }
        if name.len() > lc.max_path_len() {
            return Err(SocketAddrError::InvalidName);
        }
        let mut i: usize = 0;
        while i < name.len()
            invariant
                0 <= i <= name@.len(),
                forall|j: int| 0 <= j < i ==> name@[j] != 0,
            decreases name@.len() - i,
        {
            if name[i] == 0 {
                return Err(SocketAddrError::InvalidName);
            }
            i = i + 1;
        }
        Ok(SocketAddrUnix { name })
    }

    /// Builds an abstract name; the leading zero byte is part of the
    /// caller-supplied bytes. Accepts exactly the byte sequences that are
    /// empty or start with a zero byte and take at most `path_capacity - 1`
    /// bytes, and only where the platform has the abstract namespace.
    pub fn new_abstract(lc: &LayoutConstants, name: Vec<u8>) -> (r: Result<
        SocketAddrUnix,
        SocketAddrError,
    >)
        requires
            lc.wf(),
        ensures
            match r {
                Ok(u) => {
                    &&& u@ == name@
                    &&& lc.supports_abstract
                    &&& spec_is_abstract_name(name@)
                    &&& name@.len() <= lc.path_capacity - 1
                    &&& u.wf(*lc)
                },
                Err(e) => if !lc.supports_abstract {
                    e == SocketAddrError::Unsupported
                } else {
                    &&& e == SocketAddrError::InvalidName
                    &&& !(spec_is_abstract_name(name@) && name@.len() <= lc.path_capacity - 1)
                },
            },
    {
        if !lc.supports_abstract {
            return Err(SocketAddrError::Unsupported);
        }
        if name.len() > 0 && name[0] != 0 {
            return Err(SocketAddrError::InvalidName);
        }
        if name.len() > lc.path_capacity - 1 {
            return Err(SocketAddrError::InvalidName);
        }
        Ok(SocketAddrUnix { name })
    }

    /// The name bytes.
    pub fn name(&self) -> (r: &Vec<u8>)
        ensures
            r@ == self@,
    {
        &self.name
    }

    /// Whether this name is an abstract name rather than a filesystem path.
    pub fn is_abstract(&self) -> (r: bool)
        ensures
            r == spec_is_abstract_name(self@),
    {
        self.name.len() == 0 || self.name[0] == 0
    }
}

impl SocketAddr {
    /// Validity of a typed address under a platform's layout.
    pub open spec fn wf(self, lc: LayoutConstants) -> bool {
        spec_addr_wf(lc, self@)
    }

    /// The logical family of this address.
    pub fn family(&self) -> (r: crate::family::AddressFamily)
        ensures
            r == spec_family_of_addr(self@),
    {
        match self {
            SocketAddr::V4(_) => crate::family::AddressFamily::Inet,
            SocketAddr::V6(_) => crate::family::AddressFamily::Inet6,
            SocketAddr::Unix(_) => crate::family::AddressFamily::Unix,
            SocketAddr::Unspecified => crate::family::AddressFamily::Unspecified,
        }
    }
}

/// The logical family of a typed address.
pub open spec fn spec_family_of_addr(m: AddrModel) -> crate::family::AddressFamily {
    match m {
        AddrModel::V4 { .. } => crate::family::AddressFamily::Inet,
        AddrModel::V6 { .. } => crate::family::AddressFamily::Inet6,
        AddrModel::Unix { .. } => crate::family::AddressFamily::Unix,
        AddrModel::Unspecified => crate::family::AddressFamily::Unspecified,
    }
}

/// A fixed-capacity scratch byte buffer sized to the platform's largest
/// native address structure, with a separately tracked valid length. Handed
/// to syscalls that fill in an address; the kernel-reported length is then
/// passed to the decoder together with the buffer.
pub struct SocketAddrStorage {
    /// The buffer; its length is the storage capacity and never changes.
    pub bytes: Vec<u8>,
    /// How many leading bytes are meaningful; at most the capacity.
    pub valid_len: usize,
}

impl SocketAddrStorage {
    /// The storage invariant: the valid length never exceeds the capacity.
    pub open spec fn wf(self) -> bool {
        self.valid_len <= self.bytes@.len()
    }

    /// A zero-filled buffer of the platform's storage capacity, with no
    /// valid bytes yet.
    pub fn new(lc: &LayoutConstants) -> (r: Self)
        requires
            lc.wf(),
        ensures
            r.bytes@.len() == lc.spec_storage_capacity(),
            forall|i: int| 0 <= i < r.bytes@.len() ==> r.bytes@[i] == 0,
            r.valid_len == 0,
            r.wf(),
    {
        let cap = lc.storage_capacity();
        let mut bytes: Vec<u8> = Vec::new();
        let mut i: usize = 0;
        while i < cap
            invariant
                bytes@.len() == i,
                i <= cap,
                forall|j: int| 0 <= j < i ==> bytes@[j] == 0,
            decreases cap - i,
        {
            bytes.push(0);
            i = i + 1;
        }
        SocketAddrStorage { bytes, valid_len: 0 }
    }

    /// The buffer's capacity.
    pub fn capacity(&self) -> (r: usize)
        ensures
            r == self.bytes@.len(),
    {
        self.bytes.len()
    }

    /// Records how many leading bytes a syscall filled in, clamped to the
    /// capacity so the invariant holds even when the kernel reports the
    /// truncated signal.
    pub fn set_valid_len(&mut self, n: usize)
        ensures
            final(self).bytes@ == old(self).bytes@,
            final(self).valid_len == if n <= old(self).bytes@.len() {
                n as int
            } else {
                old(self).bytes@.len() as int
            },
            final(self).wf(),
    {
        let cap = self.bytes.len();
        self.valid_len = if n <= cap {
            n
        } else {
            cap
        };
    }
}

} // verus!
