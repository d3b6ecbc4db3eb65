//! The encoder: turns a typed address into the native byte layout, ready to
//! hand to a syscall, together with the length the syscall should be given.
//!
//! No partial writes are left behind: every failure is detected before the
//! first byte is written, and a failed call leaves the buffer unchanged.

use vstd::prelude::*;

use crate::addr::{
    spec_is_abstract_name, AddrModel, SocketAddr, SocketAddrError, SocketAddrUnix, SocketAddrV4,
    SocketAddrV6,
};
use crate::family::{native_value_of, spec_native_value_of, AddressFamily};
use crate::layout::{sockaddr_in6_size, sockaddr_in_size, LayoutConstants, SOCKADDR_IN6_SIZE, SOCKADDR_IN_SIZE};
use crate::wire::{be_u16, be_u32, spec_be_u16, spec_be_u32, spec_u16_hi, spec_u16_lo};

verus! {

/// `n` zero bytes.
pub open spec fn spec_zeros(n: int) -> Seq<u8> {
    Seq::new(n as nat, |i: int| 0u8)
}

/// The bytes of the region before the path/payload area: the one-byte
/// structure length followed by a one-byte family on length-prefix
/// platforms, else the two-byte family with its low byte first.
pub open spec fn spec_family_field(lc: LayoutConstants, fam: u16, total_len: int) -> Seq<u8> {
    if lc.has_len_prefix {
        seq![(total_len % 256) as u8, spec_u16_lo(fam)]
    } else {
        seq![spec_u16_lo(fam), spec_u16_hi(fam)]
    }
}

/// The wire form of a Unix-domain name: a filesystem path gains a trailing
/// null terminator where the platform's convention requires one; an abstract
/// name is written verbatim.
pub open spec fn spec_unix_wire_name(lc: LayoutConstants, name: Seq<u8>) -> Seq<u8> {
    if !spec_is_abstract_name(name) && lc.null_terminated_paths {
        name + seq![0u8]
    } else {
        name
    }
}

/// The length the encoder reports for a typed address: the exact native
/// structure size for the fixed-size families, the family region alone for
/// the unspecified address, and the path offset plus the wire name for a
/// Unix-domain address.
pub open spec fn spec_encoded_len(lc: LayoutConstants, m: AddrModel) -> int {
    match m {
        AddrModel::Unspecified => lc.spec_min_family_len(),
        AddrModel::V4 { .. } => SOCKADDR_IN_SIZE as int,
        AddrModel::V6 { .. } => SOCKADDR_IN6_SIZE as int,
        AddrModel::Unix { name } => lc.path_offset + spec_unix_wire_name(lc, name).len(),
    }
}

/// The exact bytes the encoder produces for a typed address.
pub open spec fn spec_encoded(lc: LayoutConstants, m: AddrModel) -> Seq<u8> {
    match m {
        AddrModel::Unspecified => spec_family_field(
            lc,
            spec_native_value_of(AddressFamily::Unspecified),
            lc.spec_min_family_len(),
        ),
        AddrModel::V4 { addr, port } => spec_family_field(
            lc,
            spec_native_value_of(AddressFamily::Inet),
            SOCKADDR_IN_SIZE as int,
        ) + spec_be_u16(port) + addr + spec_zeros(8),
        AddrModel::V6 { addr, port, flowinfo, scope_id } => spec_family_field(
            lc,
            spec_native_value_of(AddressFamily::Inet6),
            SOCKADDR_IN6_SIZE as int,
        ) + spec_be_u16(port) + spec_be_u32(flowinfo) + addr + spec_be_u32(scope_id),
        AddrModel::Unix { name } => spec_family_field(
            lc,
            spec_native_value_of(AddressFamily::Unix),
            spec_encoded_len(lc, m),
        ) + spec_unix_wire_name(lc, name),
    }
}

/// Whether encoding succeeds, and with what reported length, for a typed
/// address and an output buffer of the given capacity: a Unix-domain name is
/// first held to the platform's namespace and capacity rules, then every
/// address needs the buffer to hold its encoding.
pub open spec fn spec_encode_check(lc: LayoutConstants, m: AddrModel, cap: int) -> Result<
    int,
    SocketAddrError,
> {
    match m {
        AddrModel::Unix { name } => {
            if spec_is_abstract_name(name) && !lc.supports_abstract {
                Err(SocketAddrError::Unsupported)
            } else if spec_is_abstract_name(name) && name.len() > lc.path_capacity - 1 {
                Err(SocketAddrError::InvalidName)
            } else if !spec_is_abstract_name(name) && name.len() > lc.spec_max_path_len() {
                Err(SocketAddrError::InvalidName)
            } else if cap < spec_encoded_len(lc, m) {
                Err(SocketAddrError::Capacity)
            } else {
                Ok(spec_encoded_len(lc, m))
            }
        },
        _ => {
            if cap < spec_encoded_len(lc, m) {
                Err(SocketAddrError::Capacity)
            } else {
                Ok(spec_encoded_len(lc, m))
            }
        },
    }
}

/// What every encoder call guarantees: on success the reported length is
/// returned and exactly the encoding replaces the buffer's prefix, the rest
/// untouched; on failure the stated error is returned and the buffer is
/// unchanged.
pub open spec fn spec_encode_post(
    lc: LayoutConstants,
    m: AddrModel,
    old_buf: Seq<u8>,
    new_buf: Seq<u8>,
    r: Result<usize, SocketAddrError>,
) -> bool {
    match spec_encode_check(lc, m, old_buf.len() as int) {
        Ok(n) => {
            &&& r == Ok::<usize, SocketAddrError>(n as usize)
            &&& new_buf == spec_encoded(lc, m) + old_buf.skip(n)
        },
        Err(e) => {
            &&& r == Err::<usize, SocketAddrError>(e)
            &&& new_buf == old_buf
        },
    }
}

/// Writes the family region: the length prefix (where the platform has one)
/// and the family field.
fn write_family_field(lc: &LayoutConstants, fam: u16, total_len: usize, buf: &mut Vec<u8>)
    requires
        lc.wf(),
        old(buf)@.len() >= 2,
        total_len <= 255,
    ensures
        final(buf)@ == spec_family_field(*lc, fam, total_len as int) + old(buf)@.skip(2),
        final(buf)@.len() == old(buf)@.len(),
{
    if lc.has_len_prefix {
        buf.set(0, total_len as u8);
        buf.set(1, (fam % 256) as u8);
    } else {
        buf.set(0, (fam % 256) as u8);
        buf.set(1, (fam / 256) as u8);
    }
    proof {
        assert(buf@ =~= spec_family_field(*lc, fam, total_len as int) + old(buf)@.skip(2));
    }
}

/// Encodes the unspecified address: the family region alone, with the
/// family set to the unspecified constant.
pub fn encode_sockaddr_unspec(lc: &LayoutConstants, buf: &mut Vec<u8>) -> (r: Result<
    usize,
    SocketAddrError,
>)
    requires
        lc.wf(),
    ensures
        spec_encode_post(*lc, AddrModel::Unspecified, old(buf)@, final(buf)@, r),
{
    let needed = lc.min_family_len();
    if buf.len() < needed {
        return Err(SocketAddrError::Capacity);
    }
    let fam = native_value_of(AddressFamily::Unspecified);
    write_family_field(lc, fam, needed, buf);
    Ok(needed)
}

/// Encodes an IPv4 endpoint: family region, port in network order, the four
/// address bytes, then zero padding to the native structure size.
pub fn encode_sockaddr_v4(lc: &LayoutConstants, a: &SocketAddrV4, buf: &mut Vec<u8>) -> (r: Result<
    usize,
    SocketAddrError,
>)
    requires
        lc.wf(),
    ensures
        spec_encode_post(
            *lc,
            (AddrModel::V4 { addr: a.octets@, port: a.port }),
            old(buf)@,
            final(buf)@,
            r,
        ),
{
    let needed = sockaddr_in_size();
    if buf.len() < needed {
        return Err(SocketAddrError::Capacity);
    }
    let fam = native_value_of(AddressFamily::Inet);
    write_family_field(lc, fam, needed, buf);
    let port = be_u16(a.port);
    buf.set(2, port.0);
    buf.set(3, port.1);
    buf.set(4, a.octets[0]);
    buf.set(5, a.octets[1]);
    buf.set(6, a.octets[2]);
    buf.set(7, a.octets[3]);
    let mut i: usize = 8;
    while i < 16
        invariant
            8 <= i <= 16,
            buf@.len() == old(buf)@.len(),
            buf@.len() >= 16,
            buf@[0] == spec_family_field(*lc, spec_native_value_of(AddressFamily::Inet), 16)[0],
            buf@[1] == spec_family_field(*lc, spec_native_value_of(AddressFamily::Inet), 16)[1],
            buf@[2] == spec_u16_hi(a.port),
            buf@[3] == spec_u16_lo(a.port),
            forall|j: int| 0 <= j < 4 ==> buf@[4 + j] == a.octets@[j],
            forall|j: int| 8 <= j < i ==> buf@[j] == 0,
            forall|j: int| i <= j < buf@.len() ==> buf@[j] == old(buf)@[j],
        decreases 16 - i,
    {
        buf.set(i, 0);
        i = i + 1;
    }
    proof {
        let m = AddrModel::V4 { addr: a.octets@, port: a.port };
        let rhs = spec_encoded(*lc, m) + old(buf)@.skip(16);
        assert(spec_encoded(*lc, m).len() == 16);
        assert forall|j: int| 0 <= j < buf@.len() implies buf@[j] == rhs[j] by {
            if j < 2 {
            } else if j < 4 {
            } else if j < 8 {
                assert(buf@[j] == a.octets@[j - 4]);
            } else if j < 16 {
            } else {
                assert(rhs[j] == old(buf)@.skip(16)[j - 16]);
            }
        }
        assert(buf@ =~= rhs);
    }
    Ok(needed)
}

/// Encodes an IPv6 endpoint: family region, port in network order, flow
/// info in network order, the sixteen address bytes, then the scope id in
/// network order.
pub fn encode_sockaddr_v6(lc: &LayoutConstants, a: &SocketAddrV6, buf: &mut Vec<u8>) -> (r: Result<
    usize,
    SocketAddrError,
>)
    requires
        lc.wf(),
    ensures
        spec_encode_post(
            *lc,
            (AddrModel::V6 {
                addr: a.octets@,
                port: a.port,
                flowinfo: a.flowinfo,
                scope_id: a.scope_id,
            }),
            old(buf)@,
            final(buf)@,
            r,
        ),
{
    let needed = sockaddr_in6_size();
    if buf.len() < needed {
        return Err(SocketAddrError::Capacity);
    }
    let fam = native_value_of(AddressFamily::Inet6);
    write_family_field(lc, fam, needed, buf);
    let port = be_u16(a.port);
    buf.set(2, port.0);
    buf.set(3, port.1);
    let flow = be_u32(a.flowinfo);
    buf.set(4, flow.0);
    buf.set(5, flow.1);
    buf.set(6, flow.2);
    buf.set(7, flow.3);
    let mut i: usize = 0;
    while i < 16
        invariant
            0 <= i <= 16,
            buf@.len() == old(buf)@.len(),
            buf@.len() >= 28,
            buf@[0] == spec_family_field(*lc, spec_native_value_of(AddressFamily::Inet6), 28)[0],
            buf@[1] == spec_family_field(*lc, spec_native_value_of(AddressFamily::Inet6), 28)[1],
            buf@[2] == spec_u16_hi(a.port),
            buf@[3] == spec_u16_lo(a.port),
            forall|j: int| 0 <= j < 4 ==> buf@[4 + j] == spec_be_u32(a.flowinfo)[j],
            forall|j: int| 0 <= j < i ==> buf@[8 + j] == a.octets@[j],
            forall|j: int| 8 + i <= j < buf@.len() ==> buf@[j] == old(buf)@[j],
        decreases 16 - i,
    {
        buf.set(8 + i, a.octets[i]);
        i = i + 1;
    }
    let scope = be_u32(a.scope_id);
    buf.set(24, scope.0);
    buf.set(25, scope.1);
    buf.set(26, scope.2);
    buf.set(27, scope.3);
    proof {
        let m = AddrModel::V6 {
            addr: a.octets@,
            port: a.port,
            flowinfo: a.flowinfo,
            scope_id: a.scope_id,
        };
        let rhs = spec_encoded(*lc, m) + old(buf)@.skip(28);
        assert(spec_encoded(*lc, m).len() == 28);
        assert forall|j: int| 0 <= j < buf@.len() implies buf@[j] == rhs[j] by {
            if j < 2 {
            } else if j < 4 {
            } else if j < 8 {
                assert(buf@[j] == spec_be_u32(a.flowinfo)[j - 4]);
            } else if j < 24 {
                assert(buf@[j] == a.octets@[j - 8]);
            } else if j < 28 {
                assert(buf@[j] == spec_be_u32(a.scope_id)[j - 24]);
            } else {
                assert(rhs[j] == old(buf)@.skip(28)[j - 28]);
            }
        }
        assert(buf@ =~= rhs);
    }
    Ok(needed)
}

/// Encodes a Unix-domain address: family region, then the name bytes at the
/// path offset — a filesystem path gains the trailing terminator the
/// platform's convention requires, an abstract name is written verbatim. The
/// name is held to the platform's namespace and capacity rules before any
/// byte is written.
pub fn encode_sockaddr_unix(lc: &LayoutConstants, u: &SocketAddrUnix, buf: &mut Vec<u8>) -> (r:
    Result<usize, SocketAddrError>)
    requires
        lc.wf(),
    ensures
        spec_encode_post(*lc, (AddrModel::Unix { name: u@ }), old(buf)@, final(buf)@, r),
{
    let is_abs = u.is_abstract();
    if is_abs && !lc.supports_abstract {
        return Err(SocketAddrError::Unsupported);
    }
    if is_abs {
        if u.name.len() > lc.path_capacity - 1 {
            return Err(SocketAddrError::InvalidName);
        }
    } else {
        if u.name.len() > lc.max_path_len() {
            return Err(SocketAddrError::InvalidName);
        }
    }
    let terminator: usize = if !is_abs && lc.null_terminated_paths {
        1
    } else {
        0
    };
    let total = lc.path_offset + u.name.len() + terminator;
    if buf.len() < total {
        return Err(SocketAddrError::Capacity);
    }
    let fam = native_value_of(AddressFamily::Unix);
    write_family_field(lc, fam, total, buf);
    let mut i: usize = 0;
    while i < u.name.len()
        invariant
            0 <= i <= u.name@.len(),
            buf@.len() == old(buf)@.len(),
            buf@.len() >= total,
            total == 2 + u.name@.len() + terminator,
            buf@[0] == spec_family_field(
                *lc,
                spec_native_value_of(AddressFamily::Unix),
                total as int,
            )[0],
            buf@[1] == spec_family_field(
                *lc,
                spec_native_value_of(AddressFamily::Unix),
                total as int,
            )[1],
            forall|j: int| 0 <= j < i ==> buf@[2 + j] == u.name@[j],
            forall|j: int| 2 + i <= j < buf@.len() ==> buf@[j] == old(buf)@[j],
        decreases u.name@.len() - i,
    {
        buf.set(2 + i, u.name[i]);
        i = i + 1;
    }
    if terminator == 1 {
        buf.set(2 + u.name.len(), 0);
    }
    proof {
        let m = AddrModel::Unix { name: u@ };
        let rhs = spec_encoded(*lc, m) + old(buf)@.skip(total as int);
        assert(spec_unix_wire_name(*lc, u@).len() == u@.len() + terminator);
        assert(spec_encoded(*lc, m).len() == total);
        assert forall|j: int| 0 <= j < buf@.len() implies buf@[j] == rhs[j] by {
            if j < 2 {
            } else if j < 2 + u@.len() {
                assert(buf@[j] == u@[j - 2]);
                assert(spec_unix_wire_name(*lc, u@)[j - 2] == u@[j - 2]);
            } else if j < total {
                assert(buf@[j] == 0);
                assert(spec_unix_wire_name(*lc, u@)[j - 2] == 0);
            } else {
                assert(rhs[j] == old(buf)@.skip(total as int)[j - total]);
            }
        }
        assert(buf@ =~= rhs);
    }
    Ok(total)
}

/// Encodes any typed address into the buffer, dispatching by variant;
/// returns the number of bytes a syscall should be handed, at most the
/// buffer's capacity.
pub fn write_sockaddr(lc: &LayoutConstants, addr: &SocketAddr, buf: &mut Vec<u8>) -> (r: Result<
    usize,
    SocketAddrError,
>)
    requires
        lc.wf(),
    ensures
        spec_encode_post(*lc, addr@, old(buf)@, final(buf)@, r),
        r matches Ok(n) ==> n <= old(buf)@.len(),
{
    match addr {
        SocketAddr::V4(a) => encode_sockaddr_v4(lc, a, buf),
        SocketAddr::V6(a) => encode_sockaddr_v6(lc, a, buf),
        SocketAddr::Unix(u) => encode_sockaddr_unix(lc, u, buf),
        SocketAddr::Unspecified => encode_sockaddr_unspec(lc, buf),
    }
}

} // verus!
