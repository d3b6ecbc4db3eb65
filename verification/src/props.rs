//! The codec's laws, proved over the specification-level encoder and
//! decoder that every executable codec function is tied to.

use vstd::prelude::*;

use crate::addr::{spec_addr_wf, spec_is_abstract_name, AddrModel, SocketAddrError};
use crate::family::{spec_native_value_of, AddressFamily};
use crate::layout::LayoutConstants;
use crate::read_sockaddr::{
    spec_path_name_result, spec_read_family, spec_read_sockaddr, spec_read_unix,
};
use crate::wire::{
    lemma_u16_be_round_trip, lemma_u16_le_round_trip, lemma_u32_be_round_trip, spec_be_u16,
    spec_be_u32, spec_u16_hi, spec_u16_lo,
};
use crate::write_sockaddr::{
    spec_encode_check, spec_encoded, spec_encoded_len, spec_family_field, spec_unix_wire_name,
    spec_zeros,
};

verus! {

/// The encoder's byte output is exactly as long as the length it reports.
pub proof fn lemma_encoded_len_agrees(lc: LayoutConstants, m: AddrModel)
    requires
        lc.wf(),
        spec_addr_wf(lc, m),
    ensures
        spec_encoded(lc, m).len() == spec_encoded_len(lc, m),
{
}

/// Law: a typed address that is valid for the platform always encodes, and
/// its encoding fits the platform's scratch-buffer capacity.
pub proof fn lemma_wf_addr_encodes(lc: LayoutConstants, m: AddrModel, cap: int)
    requires
        lc.wf(),
        spec_addr_wf(lc, m),
        cap >= lc.spec_storage_capacity(),
    ensures
        spec_encode_check(lc, m, cap) == Ok::<int, SocketAddrError>(spec_encoded_len(lc, m)),
        spec_encoded_len(lc, m) <= lc.spec_storage_capacity(),
{
}

/// Law: on a platform whose wire format null-terminates paths, a filesystem
/// path of exactly `path_capacity - 1` bytes encodes, and one of
/// `path_capacity` bytes fails with the invalid-name error.
pub proof fn lemma_path_capacity_boundary(lc: LayoutConstants, name: Seq<u8>, cap: int)
    requires
        lc.wf(),
        lc.null_terminated_paths,
        !spec_is_abstract_name(name),
        cap >= lc.spec_storage_capacity(),
    ensures
        name.len() == lc.path_capacity - 1 ==> spec_encode_check(
            lc,
            AddrModel::Unix { name },
            cap,
        ) == Ok::<int, SocketAddrError>(lc.path_offset + lc.path_capacity),
        name.len() == lc.path_capacity ==> spec_encode_check(lc, AddrModel::Unix { name }, cap)
            == Err::<int, SocketAddrError>(SocketAddrError::InvalidName),
{
}

/// Law: a reported length beyond the buffer's capacity is a truncation
/// failure, whatever the buffer holds.
pub proof fn lemma_truncation_safety(lc: LayoutConstants, s: Seq<u8>, len: int)
    requires
        lc.wf(),
        len > s.len(),
    ensures
        spec_read_sockaddr(lc, s, len) == Err::<AddrModel, SocketAddrError>(
            SocketAddrError::Truncated,
        ),
{
}

/// Law: a Unix-domain buffer whose path region is empty or led by a zero
/// byte — the abstract-name shape — fails with the unsupported-feature
/// error on a platform without the abstract namespace; it is never silently
/// reinterpreted as a filesystem path.
pub proof fn lemma_abstract_shape_rejected_without_namespace(
    lc: LayoutConstants,
    s: Seq<u8>,
    len: int,
)
    requires
        lc.wf(),
        !lc.supports_abstract,
        lc.spec_min_family_len() <= len <= s.len(),
        spec_read_family(lc, s) == spec_native_value_of(AddressFamily::Unix),
        len == lc.path_offset || s[lc.path_offset as int] == 0,
    ensures
        spec_read_sockaddr(lc, s, len) == Err::<AddrModel, SocketAddrError>(
            SocketAddrError::Unsupported,
        ),
{
    let raw = if len - lc.path_offset > lc.path_capacity {
        lc.path_capacity as int
    } else {
        len - lc.path_offset
    };
    if len != lc.path_offset {
        let region = s.subrange(lc.path_offset as int, lc.path_offset + raw);
        assert(region[0] == s[lc.path_offset as int]);
    }
}

/// Reading the family field back out of a freshly written family region
/// yields the family value that was written.
proof fn lemma_family_field_read_back(lc: LayoutConstants, fam: u16, total: int, rest: Seq<u8>)
    requires
        lc.wf(),
        fam < 256,
    ensures
        spec_read_family(lc, spec_family_field(lc, fam, total) + rest) == fam,
{
    let s = spec_family_field(lc, fam, total) + rest;
    if lc.has_len_prefix {
        assert(s[1] == spec_u16_lo(fam));
        assert(spec_u16_lo(fam) as u16 == fam);
    } else {
        assert(s[0] == spec_u16_lo(fam));
        assert(s[1] == spec_u16_hi(fam));
        lemma_u16_le_round_trip(fam);
    }
}

/// Law: decoding an encoding yields the address that was encoded — for
/// every typed address valid under the platform's layout, with the encoding
/// read back under the length the encoder reported.
pub proof fn lemma_encode_decode_round_trip(lc: LayoutConstants, m: AddrModel)
    requires
        lc.wf(),
        spec_addr_wf(lc, m),
    ensures
        spec_read_sockaddr(lc, spec_encoded(lc, m), spec_encoded_len(lc, m)) == Ok::<
            AddrModel,
            SocketAddrError,
        >(m),
{
    let s = spec_encoded(lc, m);
    let len = spec_encoded_len(lc, m);
    lemma_encoded_len_agrees(lc, m);
    match m {
        AddrModel::Unspecified => {
            let ff = spec_family_field(lc, spec_native_value_of(AddressFamily::Unspecified), len);
            assert(s =~= ff + Seq::<u8>::empty());
            lemma_family_field_read_back(
                lc,
                spec_native_value_of(AddressFamily::Unspecified),
                len,
                Seq::<u8>::empty(),
            );
        },
        AddrModel::V4 { addr, port } => {
            let ff = spec_family_field(lc, spec_native_value_of(AddressFamily::Inet), 16);
            let rest = spec_be_u16(port) + addr + spec_zeros(8);
            assert(s =~= ff + rest);
            lemma_family_field_read_back(lc, spec_native_value_of(AddressFamily::Inet), 16, rest);
            assert(s[2] == spec_u16_hi(port));
            assert(s[3] == spec_u16_lo(port));
            lemma_u16_be_round_trip(port);
            assert(s.subrange(4, 8) =~= addr);
        },
        AddrModel::V6 { addr, port, flowinfo, scope_id } => {
            let ff = spec_family_field(lc, spec_native_value_of(AddressFamily::Inet6), 28);
            let rest = spec_be_u16(port) + spec_be_u32(flowinfo) + addr + spec_be_u32(scope_id);
            assert(s =~= ff + rest);
            lemma_family_field_read_back(lc, spec_native_value_of(AddressFamily::Inet6), 28, rest);
            assert(s[2] == spec_u16_hi(port));
            assert(s[3] == spec_u16_lo(port));
            lemma_u16_be_round_trip(port);
            assert(s[4] == spec_be_u32(flowinfo)[0]);
            assert(s[5] == spec_be_u32(flowinfo)[1]);
            assert(s[6] == spec_be_u32(flowinfo)[2]);
            assert(s[7] == spec_be_u32(flowinfo)[3]);
            lemma_u32_be_round_trip(flowinfo);
            assert(s.subrange(8, 24) =~= addr);
            assert(s[24] == spec_be_u32(scope_id)[0]);
            assert(s[25] == spec_be_u32(scope_id)[1]);
            assert(s[26] == spec_be_u32(scope_id)[2]);
            assert(s[27] == spec_be_u32(scope_id)[3]);
            lemma_u32_be_round_trip(scope_id);
        },
        AddrModel::Unix { name } => {
            let wire = spec_unix_wire_name(lc, name);
            let ff = spec_family_field(lc, spec_native_value_of(AddressFamily::Unix), len);
            assert(s =~= ff + wire);
            lemma_family_field_read_back(lc, spec_native_value_of(AddressFamily::Unix), len, wire);
            let po = lc.path_offset as int;
            let raw = wire.len() as int;
            assert(len - po == raw);
            assert(raw <= lc.path_capacity);
            let region = s.subrange(po, po + raw);
            assert(region =~= wire);
            if spec_is_abstract_name(name) {
                assert(wire == name);
                assert(raw == 0 || region[0] == 0);
                assert(spec_read_unix(lc, s, len) == Ok::<AddrModel, SocketAddrError>(
                    AddrModel::Unix { name: region },
                ));
            } else {
                assert(name.len() > 0 && name[0] != 0);
                assert(region[0] == name[0]);
                if lc.null_terminated_paths {
                    assert(wire == name + seq![0u8]);
                    assert(region[raw - 1] == 0);
                    let trimmed = region.subrange(0, raw - 1);
                    assert(trimmed =~= name);
                    assert(forall|i: int| 0 <= i < name.len() ==> name[i] != 0);
                    assert(spec_path_name_result(name) == Ok::<AddrModel, SocketAddrError>(
                        AddrModel::Unix { name },
                    ));
                } else {
                    assert(wire == name);
                    assert(region[raw - 1] == name[raw - 1]);
                    assert(region[raw - 1] != 0);
                    assert(spec_path_name_result(name) == Ok::<AddrModel, SocketAddrError>(
                        AddrModel::Unix { name },
                    ));
                }
            }
        },
    }
}

} // verus!
