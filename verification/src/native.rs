//! The native boundary: the few facts about the target platform's C-level
//! socket definitions that the codec relies on, each taken from the `libc`
//! crate and stated as a contract.

use vstd::prelude::*;

verus! {

/// Relies on `libc::AF_UNSPEC`: the "no address" family constant, `0` on
/// this target.
#[verifier::external_body]
pub(crate) fn af_unspec_native() -> (r: u16)
    ensures
        r == 0,
{
    libc::AF_UNSPEC as u16
}

/// Relies on `libc::AF_UNIX`: the Unix-domain family constant, `1` on this
/// target.
#[verifier::external_body]
pub(crate) fn af_unix_native() -> (r: u16)
    ensures
        r == 1,
{
    libc::AF_UNIX as u16
}

/// Relies on `libc::AF_INET`: the IPv4 family constant, `2` on this target.
#[verifier::external_body]
pub(crate) fn af_inet_native() -> (r: u16)
    ensures
        r == 2,
{
    libc::AF_INET as u16
}

/// Relies on `libc::AF_INET6`: the IPv6 family constant, `10` on this
/// target.
#[verifier::external_body]
pub(crate) fn af_inet6_native() -> (r: u16)
    ensures
        r == 10,
{
    libc::AF_INET6 as u16
}

/// Relies on `libc::sockaddr_un`: a 16-bit family field followed by a
/// 108-byte path array, 110 bytes in all on this target.
#[verifier::external_body]
pub(crate) fn sockaddr_un_size_native() -> (r: usize)
    ensures
        r == 110,
{
    core::mem::size_of::<libc::sockaddr_un>()
}

/// Relies on `libc::sockaddr_in`: family and port fields of 2 bytes each, a
/// 4-byte address and 8 zero bytes, 16 bytes in all on this target.
#[verifier::external_body]
pub(crate) fn sockaddr_in_size_native() -> (r: usize)
    ensures
        r == 16,
{
    core::mem::size_of::<libc::sockaddr_in>()
}

/// Relies on `libc::sockaddr_in6`: 2-byte family and port, 4-byte flow
/// info, 16-byte address and 4-byte scope id, 28 bytes in all on this
/// target.
#[verifier::external_body]
pub(crate) fn sockaddr_in6_size_native() -> (r: usize)
    ensures
        r == 28,
{
    core::mem::size_of::<libc::sockaddr_in6>()
}

} // verus!
