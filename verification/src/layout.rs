//! Layout constants: the per-platform facts about native socket-address
//! structure shape. All codec logic is written against a value of this table,
//! never against literal offsets, so supporting a further platform flavour
//! means adding one constructor.
//!
//! Two flavours are modelled: the Linux-style layout (a two-byte family field
//! and nothing before it) and the BSD-style layout (a one-byte length prefix
//! followed by a one-byte family field). A two-byte family field is stored
//! with its low byte first, the convention of the little-endian targets these
//! entries describe.

use vstd::prelude::*;

use crate::native::{sockaddr_in6_size_native, sockaddr_in_size_native, sockaddr_un_size_native};

verus! {

/// Size in bytes of the native IPv4 address structure.
pub const SOCKADDR_IN_SIZE: usize = 16;

/// Size in bytes of the native IPv6 address structure.
pub const SOCKADDR_IN6_SIZE: usize = 28;

/// The shape of the target platform's native address structures: field
/// widths, offsets and capacities. Immutable once constructed; every codec
/// call takes the table as read-only input.
#[derive(Clone, Copy, PartialEq, Eq, Structural, Debug)]
pub struct LayoutConstants {
    /// Whether a one-byte structure-length prefix precedes the family field.
    pub has_len_prefix: bool,
    /// Byte width of the family field: 1 beside a length prefix, else 2.
    pub family_width: usize,
    /// Byte offset of the family field.
    pub family_offset: usize,
    /// Byte offset of the path field within the Unix-domain structure.
    pub path_offset: usize,
    /// Maximum number of bytes the Unix-domain path field can hold.
    pub path_capacity: usize,
    /// Whether the wire format null-terminates filesystem-path names.
    pub null_terminated_paths: bool,
    /// Whether the platform has the abstract Unix-domain namespace.
    pub supports_abstract: bool,
}

impl LayoutConstants {
    /// Internal consistency of a table entry: the family field starts right
    /// after the length prefix when there is one, the path field starts right
    /// after the family field, and the whole Unix-domain structure is small
    /// enough for its length to fit the one-byte prefix.
    pub open spec fn wf(self) -> bool {
        &&& self.family_offset == if self.has_len_prefix {
            1int
        } else {
            0int
        }
        &&& self.family_width == if self.has_len_prefix {
            1int
        } else {
            2int
        }
        &&& self.path_offset == self.family_offset + self.family_width
        &&& 2 <= self.path_capacity
        &&& self.path_offset + self.path_capacity <= 255
    }

    /// The fewest bytes a buffer can hold and still contain a family field.
    pub open spec fn spec_min_family_len(self) -> int {
        self.family_offset + self.family_width
    }

    /// Capacity of a scratch buffer able to hold the platform's largest
    /// native address structure.
    pub open spec fn spec_storage_capacity(self) -> int {
        if self.path_offset + self.path_capacity >= SOCKADDR_IN6_SIZE {
            self.path_offset + self.path_capacity
        } else {
            SOCKADDR_IN6_SIZE as int
        }
    }

    /// Longest filesystem-path name the path field can hold, leaving room
    /// for a trailing terminator where the wire format requires one.
    pub open spec fn spec_max_path_len(self) -> int {
        if self.null_terminated_paths {
            self.path_capacity - 1
        } else {
            self.path_capacity as int
        }
    }

    /// The minimum number of bytes needed to read the family field.
    pub fn min_family_len(&self) -> (r: usize)
        requires
            self.wf(),
        ensures
            r == self.spec_min_family_len(),
    {
        self.family_offset + self.family_width
    }

    /// Capacity of a scratch buffer for the largest native structure.
    pub fn storage_capacity(&self) -> (r: usize)
        requires
            self.wf(),
        ensures
            r == self.spec_storage_capacity(),
    {
        let unix_size = self.path_offset + self.path_capacity;
        if unix_size >= SOCKADDR_IN6_SIZE {
            unix_size
        } else {
            SOCKADDR_IN6_SIZE
        }
    }

    /// Longest filesystem-path name this platform accepts.
    pub fn max_path_len(&self) -> (r: usize)
        requires
            self.wf(),
        ensures
            r == self.spec_max_path_len(),
    {
        if self.null_terminated_paths {
            self.path_capacity - 1
        } else {
            self.path_capacity
        }
    }

    /// The Linux-style table entry: two-byte family field at offset zero, no
    /// length prefix, null-terminated paths, abstract namespace available.
    /// The path offset is computed from the measured native structure rather
    /// than asserted.
    pub fn linux() -> (r: Self)
        ensures
            r == spec_linux_layout(),
            r.wf(),
    {
        let path_offset = offsetof_sun_path();
        LayoutConstants {
            has_len_prefix: false,
            family_width: 2,
            family_offset: 0,
            path_offset,
            path_capacity: 108,
            null_terminated_paths: true,
            supports_abstract: true,
        }
    }

    /// The BSD-style table entry, as on the Apple and BSD family: a one-byte
    /// structure-length prefix, a one-byte family field, a 104-byte path
    /// field, null-terminated paths, no abstract namespace.
    pub fn bsd() -> (r: Self)
        ensures
            r == spec_bsd_layout(),
            r.wf(),
    {
        LayoutConstants {
            has_len_prefix: true,
            family_width: 1,
            family_offset: 1,
            path_offset: 2,
            path_capacity: 104,
            null_terminated_paths: true,
            supports_abstract: false,
        }
    }
}

/// The Linux-style table entry.
pub open spec fn spec_linux_layout() -> LayoutConstants {
    LayoutConstants {
        has_len_prefix: false,
        family_width: 2,
        family_offset: 0,
        path_offset: 2,
        path_capacity: 108,
        null_terminated_paths: true,
        supports_abstract: true,
    }
}

/// The BSD-style table entry.
pub open spec fn spec_bsd_layout() -> LayoutConstants {
    LayoutConstants {
        has_len_prefix: true,
        family_width: 1,
        family_offset: 1,
        path_offset: 2,
        path_capacity: 104,
        null_terminated_paths: true,
        supports_abstract: false,
    }
}

/// Byte offset of the path field within the native Unix-domain structure,
/// derived from the structure's measured size and the path field's measured
/// capacity rather than asserted as a literal.
pub fn offsetof_sun_path() -> (r: usize)
    ensures
        r == 2,
{
    let size = sockaddr_un_size_native();
    size - 108
}

/// Size in bytes of the native IPv4 address structure, checked against the
/// measured native structure.
pub fn sockaddr_in_size() -> (r: usize)
    ensures
        r == SOCKADDR_IN_SIZE,
{
    sockaddr_in_size_native()
}

/// Size in bytes of the native IPv6 address structure, checked against the
/// measured native structure.
pub fn sockaddr_in6_size() -> (r: usize)
    ensures
        r == SOCKADDR_IN6_SIZE,
{
    sockaddr_in6_size_native()
}

} // verus!
