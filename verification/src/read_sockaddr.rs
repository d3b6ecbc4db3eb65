//! The decoder: turns a raw kernel-filled buffer plus a reported length into
//! a validated typed address, or a decode error. The reported length is
//! treated as hostile input: no read ever touches a byte at or past
//! `min(length, capacity)`, and a length larger than the buffer's capacity is
//! itself a truncation failure.

use vstd::prelude::*;

use crate::addr::{
    AddrModel, SocketAddr, SocketAddrError, SocketAddrUnix, SocketAddrV4, SocketAddrV6,
};
use crate::family::{family_of, spec_family_of, AddressFamily};
use crate::layout::{sockaddr_in6_size, sockaddr_in_size, LayoutConstants, SOCKADDR_IN6_SIZE, SOCKADDR_IN_SIZE};
use crate::wire::{spec_u16_from_be, spec_u16_from_le, spec_u32_from_be, u16_from_be, u16_from_le, u32_from_be};

verus! {

/// The native family value stored in a buffer: the single family byte on
/// length-prefix platforms, else the two-byte field read low byte first.
pub open spec fn spec_read_family(lc: LayoutConstants, s: Seq<u8>) -> u16 {
    if lc.family_width == 1 {
        s[lc.family_offset as int] as u16
    } else {
        spec_u16_from_le(s[lc.family_offset as int], s[lc.family_offset + 1])
    }
}

/// The decoded Unix-domain name: the path region is the reported length
/// past the path offset, clamped to the path capacity; a region that is
/// empty or led by a zero byte is an abstract name where the platform has
/// that namespace and a failure where it has not; any other region is a
/// filesystem path, less the trailing terminator the platform's convention
/// adds, and must hold no other null byte.
pub open spec fn spec_read_unix(lc: LayoutConstants, s: Seq<u8>, len: int) -> Result<
    AddrModel,
    SocketAddrError,
> {
    let raw = if len - lc.path_offset > lc.path_capacity {
        lc.path_capacity as int
    } else {
        len - lc.path_offset
    };
    let region = s.subrange(lc.path_offset as int, lc.path_offset + raw);
    if raw == 0 || region[0] == 0 {
        if lc.supports_abstract {
            Ok(AddrModel::Unix { name: region })
        } else {
            Err(SocketAddrError::Unsupported)
        }
    } else {
        let trimmed = if lc.null_terminated_paths && region[raw - 1] == 0 {
            region.subrange(0, raw - 1)
        } else {
            region
        };
        spec_path_name_result(trimmed)
    }
}

/// A decoded filesystem-path name is valid exactly when no null byte
/// remains once the trailing terminator is gone.
pub open spec fn spec_path_name_result(trimmed: Seq<u8>) -> Result<AddrModel, SocketAddrError> {
    if exists|i: int| 0 <= i < trimmed.len() && trimmed[i] == 0 {
        Err(SocketAddrError::InvalidName)
    } else {
        Ok(AddrModel::Unix { name: trimmed })
    }
}

/// What decoding a buffer and a reported length yields. A length beyond the
/// buffer's capacity, or too small for the family field or for the decoded
/// family's structure, is a truncation failure; an unspecified or unknown
/// family is the unspecified address, not an error.
pub open spec fn spec_read_sockaddr(lc: LayoutConstants, s: Seq<u8>, len: int) -> Result<
    AddrModel,
    SocketAddrError,
> {
    if len > s.len() {
        Err(SocketAddrError::Truncated)
    } else if len < lc.spec_min_family_len() {
        Err(SocketAddrError::Truncated)
    } else {
        let fam = spec_family_of(spec_read_family(lc, s));
        if fam == Some(AddressFamily::Inet) {
            if len < SOCKADDR_IN_SIZE {
                Err(SocketAddrError::Truncated)
            } else {
                Ok(
                    AddrModel::V4 {
                        addr: s.subrange(4, 8),
                        port: spec_u16_from_be(s[2], s[3]),
                    },
                )
            }
        } else if fam == Some(AddressFamily::Inet6) {
            if len < SOCKADDR_IN6_SIZE {
                Err(SocketAddrError::Truncated)
            } else {
                Ok(
                    AddrModel::V6 {
                        addr: s.subrange(8, 24),
                        port: spec_u16_from_be(s[2], s[3]),
                        flowinfo: spec_u32_from_be(s[4], s[5], s[6], s[7]),
                        scope_id: spec_u32_from_be(s[24], s[25], s[26], s[27]),
                    },
                )
            }
        } else if fam == Some(AddressFamily::Unix) {
            spec_read_unix(lc, s, len)
        } else {
            Ok(AddrModel::Unspecified)
        }
    }
}

/// The typed result of a decode call agrees with the decoded model: same
/// success or failure, same error, and on success the typed address's view
/// is the model.
pub open spec fn spec_decode_matches(
    r: Result<SocketAddr, SocketAddrError>,
    s: Result<AddrModel, SocketAddrError>,
) -> bool {
    match (r, s) {
        (Ok(a), Ok(m)) => a@ == m,
        (Err(e1), Err(e2)) => e1 == e2,
        _ => false,
    }
}

/// Decodes a caller- or kernel-supplied buffer and reported length into a
/// validated typed address. All-or-nothing: no partial result accompanies an
/// error. No read touches a byte at or past `min(len, buf.len())`.
pub fn read_sockaddr(lc: &LayoutConstants, buf: &[u8], len: usize) -> (r: Result<
    SocketAddr,
    SocketAddrError,
>)
    requires
        lc.wf(),
    ensures
        spec_decode_matches(r, spec_read_sockaddr(*lc, buf@, len as int)),
        len > buf@.len() ==> r == Err::<SocketAddr, SocketAddrError>(SocketAddrError::Truncated),
{
    if len > buf.len() {
        return Err(SocketAddrError::Truncated);
    }
    let min = lc.min_family_len();
    if len < min {
        return Err(SocketAddrError::Truncated);
    }
    let fam: u16 = if lc.family_width == 1 {
        buf[lc.family_offset] as u16
    } else {
        u16_from_le(buf[lc.family_offset], buf[lc.family_offset + 1])
    };
    match family_of(fam) {
        Some(AddressFamily::Inet) => {
            if len < sockaddr_in_size() {
                return Err(SocketAddrError::Truncated);
            }
            let octets: [u8; 4] = [buf[4], buf[5], buf[6], buf[7]];
            let port = u16_from_be(buf[2], buf[3]);
            proof {
                assert(octets@ =~= buf@.subrange(4, 8));
            }
            Ok(SocketAddr::V4(SocketAddrV4 { octets, port }))
        },
        Some(AddressFamily::Inet6) => {
            if len < sockaddr_in6_size() {
                return Err(SocketAddrError::Truncated);
            }
            let mut octets: [u8; 16] = [0u8; 16];
            let mut i: usize = 0;
            while i < 16
                invariant
                    0 <= i <= 16,
                    buf@.len() >= 28,
                    forall|j: int| 0 <= j < i ==> octets@[j] == buf@[8 + j],
                decreases 16 - i,
            {
                octets[i] = buf[8 + i];
                i = i + 1;
            }
            let port = u16_from_be(buf[2], buf[3]);
            let flowinfo = u32_from_be(buf[4], buf[5], buf[6], buf[7]);
            let scope_id = u32_from_be(buf[24], buf[25], buf[26], buf[27]);
            proof {
                assert(octets@ =~= buf@.subrange(8, 24));
            }
            Ok(SocketAddr::V6(SocketAddrV6 { octets, port, flowinfo, scope_id }))
        },
        Some(AddressFamily::Unix) => read_sockaddr_unix(lc, buf, len),
        _ => Ok(SocketAddr::Unspecified),
    }
}

/// Decodes the path region of a Unix-domain buffer; `len` is the reported
/// length, already known to cover the family field and to fit the buffer.
fn read_sockaddr_unix(lc: &LayoutConstants, buf: &[u8], len: usize) -> (r: Result<
    SocketAddr,
    SocketAddrError,
>)
    requires
        lc.wf(),
        lc.spec_min_family_len() <= len <= buf@.len(),
    ensures
        spec_decode_matches(r, spec_read_unix(*lc, buf@, len as int)),
{
    let po = lc.path_offset;
    let avail = len - po;
    let raw = if avail > lc.path_capacity {
        lc.path_capacity
    } else {
        avail
    };
    let ghost region = buf@.subrange(po as int, po + raw);
    if raw == 0 {
        if lc.supports_abstract {
            let name: Vec<u8> = Vec::new();
            proof {
                assert(name@ =~= region);
            }
            return Ok(SocketAddr::Unix(SocketAddrUnix { name }));
        } else {
            return Err(SocketAddrError::Unsupported);
        }
    }
    if buf[po] == 0 {
        if !lc.supports_abstract {
            return Err(SocketAddrError::Unsupported);
        }
        let mut name: Vec<u8> = Vec::new();
        let mut i: usize = 0;
        while i < raw
            invariant
                0 <= i <= raw,
                po + raw <= len <= buf@.len(),
                name@.len() == i,
                forall|j: int| 0 <= j < i ==> name@[j] == buf@[po + j],
            decreases raw - i,
        {
            name.push(buf[po + i]);
            i = i + 1;
        }
        proof {
            assert(name@ =~= region);
        }
        Ok(SocketAddr::Unix(SocketAddrUnix { name }))
    } else {
        let keep = if lc.null_terminated_paths && buf[po + raw - 1] == 0 {
            raw - 1
        } else {
            raw
        };
        let ghost trimmed = if lc.null_terminated_paths && region[raw - 1] == 0 {
            region.subrange(0, raw - 1)
        } else {
            region
        };
        let ghost expected = spec_read_unix(*lc, buf@, len as int);
        proof {
            assert(region.len() == raw);
            assert(region[0] == buf@[po as int]);
            assert(region[raw - 1] == buf@[po + raw - 1]);
            assert(trimmed =~= buf@.subrange(po as int, po + keep));
            assert(expected == spec_path_name_result(trimmed));
        }
        let mut name: Vec<u8> = Vec::new();
        let mut i: usize = 0;
        while i < keep
            invariant
                0 <= i <= keep,
                po + keep <= len <= buf@.len(),
                trimmed == buf@.subrange(po as int, po + keep),
                trimmed.len() == keep,
                expected == spec_read_unix(*lc, buf@, len as int),
                expected == spec_path_name_result(trimmed),
                name@.len() == i,
                forall|j: int| 0 <= j < i ==> name@[j] == buf@[po + j] && buf@[po + j] != 0,
            decreases keep - i,
        {
            let b = buf[po + i];
            if b == 0 {
                proof {
                    assert(trimmed[i as int] == 0);
                }
                return Err(SocketAddrError::InvalidName);
            }
            name.push(b);
            i = i + 1;
        }
        proof {
            assert(name@ =~= trimmed);
            assert(forall|j: int| 0 <= j < trimmed.len() ==> trimmed[j] != 0);
        }
        Ok(SocketAddr::Unix(SocketAddrUnix { name }))
    }
}

} // verus!
