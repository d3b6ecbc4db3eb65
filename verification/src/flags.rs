//! Request/response flag sets for the socket operations that take them.
//! Each set is an independent bit-set over the platform's native bits: any
//! combination of recognized bits is valid, and unrecognized bits are
//! preserved opaquely rather than rejected — the syscall layer, not the
//! codec, is the authority on which combinations the kernel accepts.

use vstd::prelude::*;

verus! {

/// Native bit of `SOCK_NONBLOCK`.
pub const ACCEPT_NONBLOCK_BIT: u32 = 0x800;

/// Native bit of `SOCK_CLOEXEC`.
pub const ACCEPT_CLOEXEC_BIT: u32 = 0x80000;

/// Native bit of `MSG_OOB`.
pub const MSG_OOB_BIT: u32 = 0x1;

/// Native bit of `MSG_PEEK`.
pub const MSG_PEEK_BIT: u32 = 0x2;

/// Native bit of `MSG_DONTROUTE`.
pub const MSG_DONTROUTE_BIT: u32 = 0x4;

/// Native bit of `MSG_TRUNC`.
pub const MSG_TRUNC_BIT: u32 = 0x20;

/// Native bit of `MSG_DONTWAIT`.
pub const MSG_DONTWAIT_BIT: u32 = 0x40;

/// Native bit of `MSG_EOR`.
pub const MSG_EOR_BIT: u32 = 0x80;

/// Native bit of `MSG_WAITALL`.
pub const MSG_WAITALL_BIT: u32 = 0x100;

/// Native bit of `MSG_NOSIGNAL`.
pub const MSG_NOSIGNAL_BIT: u32 = 0x4000;

/// Native bit of `MSG_CMSG_CLOEXEC`.
pub const MSG_CMSG_CLOEXEC_BIT: u32 = 0x40000000;

/// Flags for an accept operation.
#[derive(Clone, Copy, PartialEq, Eq, Structural, Debug)]
pub struct AcceptFlags {
    /// The native bits, kept verbatim.
    pub bits: u32,
}

/// Flags for a send operation.
#[derive(Clone, Copy, PartialEq, Eq, Structural, Debug)]
pub struct SendFlags {
    /// The native bits, kept verbatim.
    pub bits: u32,
}

/// Flags for a receive operation.
#[derive(Clone, Copy, PartialEq, Eq, Structural, Debug)]
pub struct RecvFlags {
    /// The native bits, kept verbatim.
    pub bits: u32,
}

impl AcceptFlags {
    /// The empty flag set.
    pub fn empty() -> (r: Self)
        ensures
            r.bits == 0,
    {
        AcceptFlags { bits: 0 }
    }

    /// A flag set holding exactly the given native bits, recognized or not.
    pub fn from_bits_retain(bits: u32) -> (r: Self)
        ensures
            r.bits == bits,
    {
        AcceptFlags { bits }
    }

    /// The native bits.
    pub fn bits(&self) -> (r: u32)
        ensures
            r == self.bits,
    {
        self.bits
    }

    /// The union of two flag sets.
    pub fn union(self, other: Self) -> (r: Self)
        ensures
            r.bits == self.bits | other.bits,
    {
        AcceptFlags { bits: self.bits | other.bits }
    }

    /// Whether every bit of `other` is set in `self`.
    pub fn contains(self, other: Self) -> (r: bool)
        ensures
            r == (self.bits & other.bits == other.bits),
    {
        self.bits & other.bits == other.bits
    }
}

impl SendFlags {
    /// The empty flag set.
    pub fn empty() -> (r: Self)
        ensures
            r.bits == 0,
    {
        SendFlags { bits: 0 }
    }

    /// A flag set holding exactly the given native bits, recognized or not.
    pub fn from_bits_retain(bits: u32) -> (r: Self)
        ensures
            r.bits == bits,
    {
        SendFlags { bits }
    }

    /// The native bits.
    pub fn bits(&self) -> (r: u32)
        ensures
            r == self.bits,
    {
        self.bits
    }

    /// The union of two flag sets.
    pub fn union(self, other: Self) -> (r: Self)
        ensures
            r.bits == self.bits | other.bits,
    {
        SendFlags { bits: self.bits | other.bits }
    }

    /// Whether every bit of `other` is set in `self`.
    pub fn contains(self, other: Self) -> (r: bool)
        ensures
            r == (self.bits & other.bits == other.bits),
    {
        self.bits & other.bits == other.bits
    }
}

impl RecvFlags {
    /// The empty flag set.
    pub fn empty() -> (r: Self)
        ensures
            r.bits == 0,
    {
        RecvFlags { bits: 0 }
    }

    /// A flag set holding exactly the given native bits, recognized or not.
    pub fn from_bits_retain(bits: u32) -> (r: Self)
        ensures
            r.bits == bits,
    {
        RecvFlags { bits }
    }

    /// The native bits.
    pub fn bits(&self) -> (r: u32)
        ensures
            r == self.bits,
    {
        self.bits
    }

    /// The union of two flag sets.
    pub fn union(self, other: Self) -> (r: Self)
        ensures
            r.bits == self.bits | other.bits,
    {
        RecvFlags { bits: self.bits | other.bits }
    }

    /// Whether every bit of `other` is set in `self`.
    pub fn contains(self, other: Self) -> (r: bool)
        ensures
            r == (self.bits & other.bits == other.bits),
    {
        self.bits & other.bits == other.bits
    }
}

} // verus!
