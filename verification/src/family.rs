//! The address-family model: the closed set of protocol domains the codec
//! understands, and the mapping between logical variants and the platform's
//! native integer constants.

use vstd::prelude::*;

use crate::native::{af_inet6_native, af_inet_native, af_unix_native, af_unspec_native};

verus! {

/// The logical protocol domain of a socket address.
#[derive(Clone, Copy, PartialEq, Eq, Structural, Debug)]
pub enum AddressFamily {
    /// `AF_UNSPEC`: no address / wildcard family.
    Unspecified,
    /// `AF_INET`: IPv4.
    Inet,
    /// `AF_INET6`: IPv6.
    Inet6,
    /// `AF_UNIX`: Unix-domain.
    Unix,
}

/// The native integer constant of a family on the target platform.
pub open spec fn spec_native_value_of(f: AddressFamily) -> u16 {
    match f {
        AddressFamily::Unspecified => 0,
        AddressFamily::Unix => 1,
        AddressFamily::Inet => 2,
        AddressFamily::Inet6 => 10,
    }
}

/// The logical family a native integer denotes, or `None` for an integer
/// that matches none of the supported constants.
pub open spec fn spec_family_of(native: u16) -> Option<AddressFamily> {
    if native == 0 {
        Some(AddressFamily::Unspecified)
    } else if native == 1 {
        Some(AddressFamily::Unix)
    } else if native == 2 {
        Some(AddressFamily::Inet)
    } else if native == 10 {
        Some(AddressFamily::Inet6)
    } else {
        None
    }
}

/// Native integer constant of a supported family, captured from the
/// platform's own definitions; total on every variant.
pub fn native_value_of(f: AddressFamily) -> (r: u16)
    ensures
        r == spec_native_value_of(f),
{
    match f {
        AddressFamily::Unspecified => af_unspec_native(),
        AddressFamily::Unix => af_unix_native(),
        AddressFamily::Inet => af_inet_native(),
        AddressFamily::Inet6 => af_inet6_native(),
    }
}

/// Maps a native integer to its logical family, or reports an unknown
/// family as `None` rather than failing.
pub fn family_of(native: u16) -> (r: Option<AddressFamily>)
    ensures
        r == spec_family_of(native),
{
    if native == af_unspec_native() {
        Some(AddressFamily::Unspecified)
    } else if native == af_unix_native() {
        Some(AddressFamily::Unix)
    } else if native == af_inet_native() {
        Some(AddressFamily::Inet)
    } else if native == af_inet6_native() {
        Some(AddressFamily::Inet6)
    } else {
        None
    }
}

/// Law: mapping a supported family to its native constant and back yields
/// the same family.
pub proof fn lemma_family_round_trip(f: AddressFamily)
    ensures
        spec_family_of(spec_native_value_of(f)) == Some(f),
{
}

} // verus!
