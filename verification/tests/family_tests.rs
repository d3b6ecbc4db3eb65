//! The family model, the layout table, and the flag sets, checked against
//! the platform's own definitions.

use sockaddrs::family::{family_of, native_value_of};
use sockaddrs::layout::{offsetof_sun_path, sockaddr_in6_size, sockaddr_in_size};
use sockaddrs::{
    AcceptFlags, AddressFamily, LayoutConstants, Protocol, RecvFlags, SendFlags, Shutdown,
    SocketFlags, SocketType,
};

#[test]
fn family_round_trip_all_variants() {
    let all = [
        AddressFamily::Unspecified,
        AddressFamily::Inet,
        AddressFamily::Inet6,
        AddressFamily::Unix,
    ];
    for f in all {
        assert_eq!(family_of(native_value_of(f)), Some(f));
    }
}

#[test]
fn family_values_match_native_definitions() {
    assert_eq!(
        native_value_of(AddressFamily::Unspecified),
        libc::AF_UNSPEC as u16
    );
    assert_eq!(native_value_of(AddressFamily::Unix), libc::AF_UNIX as u16);
    assert_eq!(native_value_of(AddressFamily::Inet), libc::AF_INET as u16);
    assert_eq!(
        native_value_of(AddressFamily::Inet6),
        libc::AF_INET6 as u16
    );
}

#[test]
fn unknown_family_is_reported_not_crashed() {
    assert_eq!(family_of(99), None);
    assert_eq!(family_of(u16::MAX), None);
}

#[test]
fn path_offset_matches_native_structure() {
    assert_eq!(offsetof_sun_path(), 2);
    let measured = std::mem::size_of::<libc::sockaddr_un>()
        - std::mem::size_of::<[libc::c_char; 108]>();
    assert_eq!(offsetof_sun_path(), measured);
}

#[test]
fn structure_sizes_match_native_structures() {
    assert_eq!(sockaddr_in_size(), std::mem::size_of::<libc::sockaddr_in>());
    assert_eq!(
        sockaddr_in6_size(),
        std::mem::size_of::<libc::sockaddr_in6>()
    );
}

#[test]
fn layout_tables_are_consistent() {
    let linux = LayoutConstants::linux();
    assert!(!linux.has_len_prefix);
    assert_eq!(linux.family_width, 2);
    assert_eq!(linux.path_offset, 2);
    assert_eq!(linux.path_capacity, 108);
    assert!(linux.supports_abstract);
    let bsd = LayoutConstants::bsd();
    assert!(bsd.has_len_prefix);
    assert_eq!(bsd.family_width, 1);
    assert_eq!(bsd.path_offset, 2);
    assert_eq!(bsd.path_capacity, 104);
    assert!(!bsd.supports_abstract);
}

#[test]
fn flag_sets_preserve_unrecognized_bits() {
    let odd = AcceptFlags::from_bits_retain(0xDEAD_0001);
    assert_eq!(odd.bits(), 0xDEAD_0001);
    let send = SendFlags::from_bits_retain(sockaddrs::flags::MSG_DONTWAIT_BIT);
    let more = send.union(SendFlags::from_bits_retain(0x8000_0000));
    assert_eq!(more.bits(), sockaddrs::flags::MSG_DONTWAIT_BIT | 0x8000_0000);
    assert!(more.contains(send));
    assert!(!send.contains(more));
    assert_eq!(RecvFlags::empty().bits(), 0);
}

#[test]
fn socket_type_round_trip_all_variants() {
    let all = [
        SocketType::Stream,
        SocketType::Datagram,
        SocketType::Raw,
        SocketType::Rdm,
        SocketType::SeqPacket,
    ];
    for t in all {
        assert_eq!(SocketType::from_native(t.native_value()), Some(t));
    }
    assert_eq!(SocketType::from_native(77), None);
}

#[test]
fn socket_type_values_match_native_definitions() {
    assert_eq!(SocketType::Stream.native_value(), libc::SOCK_STREAM as u32);
    assert_eq!(SocketType::Datagram.native_value(), libc::SOCK_DGRAM as u32);
    assert_eq!(SocketType::Raw.native_value(), libc::SOCK_RAW as u32);
    assert_eq!(SocketType::Rdm.native_value(), libc::SOCK_RDM as u32);
    assert_eq!(
        SocketType::SeqPacket.native_value(),
        libc::SOCK_SEQPACKET as u32
    );
}

#[test]
fn protocol_and_shutdown_values_match_native_definitions() {
    assert_eq!(Protocol::Ip.native_value(), libc::IPPROTO_IP as u32);
    assert_eq!(Protocol::Icmp.native_value(), libc::IPPROTO_ICMP as u32);
    assert_eq!(Protocol::Tcp.native_value(), libc::IPPROTO_TCP as u32);
    assert_eq!(Protocol::Udp.native_value(), libc::IPPROTO_UDP as u32);
    assert_eq!(Protocol::Icmpv6.native_value(), libc::IPPROTO_ICMPV6 as u32);
    assert_eq!(Shutdown::Read.native_value(), libc::SHUT_RD as u32);
    assert_eq!(Shutdown::Write.native_value(), libc::SHUT_WR as u32);
    assert_eq!(Shutdown::ReadWrite.native_value(), libc::SHUT_RDWR as u32);
}

#[test]
fn socket_flags_match_native_definitions() {
    assert_eq!(
        sockaddrs::types::SOCKET_NONBLOCK_BIT,
        libc::SOCK_NONBLOCK as u32
    );
    assert_eq!(
        sockaddrs::types::SOCKET_CLOEXEC_BIT,
        libc::SOCK_CLOEXEC as u32
    );
    let f = SocketFlags::from_bits_retain(sockaddrs::types::SOCKET_NONBLOCK_BIT);
    let g = f.union(SocketFlags::from_bits_retain(
        sockaddrs::types::SOCKET_CLOEXEC_BIT,
    ));
    assert!(g.contains(f));
    assert_eq!(g.bits(), 0x800 | 0x80000);
    assert_eq!(SocketFlags::empty().bits(), 0);
}

#[test]
fn flag_bits_match_native_definitions() {
    assert_eq!(sockaddrs::flags::ACCEPT_NONBLOCK_BIT, libc::SOCK_NONBLOCK as u32);
    assert_eq!(sockaddrs::flags::ACCEPT_CLOEXEC_BIT, libc::SOCK_CLOEXEC as u32);
    assert_eq!(sockaddrs::flags::MSG_OOB_BIT, libc::MSG_OOB as u32);
    assert_eq!(sockaddrs::flags::MSG_PEEK_BIT, libc::MSG_PEEK as u32);
    assert_eq!(sockaddrs::flags::MSG_DONTROUTE_BIT, libc::MSG_DONTROUTE as u32);
    assert_eq!(sockaddrs::flags::MSG_TRUNC_BIT, libc::MSG_TRUNC as u32);
    assert_eq!(sockaddrs::flags::MSG_DONTWAIT_BIT, libc::MSG_DONTWAIT as u32);
    assert_eq!(sockaddrs::flags::MSG_EOR_BIT, libc::MSG_EOR as u32);
    assert_eq!(sockaddrs::flags::MSG_WAITALL_BIT, libc::MSG_WAITALL as u32);
    assert_eq!(sockaddrs::flags::MSG_NOSIGNAL_BIT, libc::MSG_NOSIGNAL as u32);
    assert_eq!(
        sockaddrs::flags::MSG_CMSG_CLOEXEC_BIT,
        libc::MSG_CMSG_CLOEXEC as u32
    );
}
