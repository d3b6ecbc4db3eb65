//! Encode/decode scenarios for Unix-domain addresses: filesystem paths,
//! abstract names, capacity boundaries and namespace support.

use sockaddrs::{
    read_sockaddr, write_sockaddr, LayoutConstants, SocketAddr, SocketAddrError,
    SocketAddrStorage, SocketAddrUnix,
};

fn storage_buf(lc: &LayoutConstants) -> Vec<u8> {
    SocketAddrStorage::new(lc).bytes
}

#[test]
fn path_round_trip() {
    let lc = LayoutConstants::linux();
    let mut buf = storage_buf(&lc);
    let name = b"/tmp/sock".to_vec();
    let u = SocketAddrUnix::new_path(&lc, name.clone()).unwrap();
    let addr = SocketAddr::Unix(u);
    let n = write_sockaddr(&lc, &addr, &mut buf).unwrap();
    // Path offset, the name, and the trailing terminator.
    assert_eq!(n, 2 + name.len() + 1);
    assert_eq!(&buf[2..2 + name.len()], &name[..]);
    assert_eq!(buf[2 + name.len()], 0);
    assert_eq!(read_sockaddr(&lc, &buf, n).unwrap(), addr);
}

#[test]
fn path_round_trip_bsd_layout() {
    let lc = LayoutConstants::bsd();
    let mut buf = storage_buf(&lc);
    let name = b"/var/run/x".to_vec();
    let u = SocketAddrUnix::new_path(&lc, name.clone()).unwrap();
    let addr = SocketAddr::Unix(u);
    let n = write_sockaddr(&lc, &addr, &mut buf).unwrap();
    assert_eq!(n, 2 + name.len() + 1);
    // The length prefix matches the reported length; the family byte is the
    // Unix-domain constant.
    assert_eq!(buf[0] as usize, n);
    assert_eq!(buf[1], 1);
    assert_eq!(read_sockaddr(&lc, &buf, n).unwrap(), addr);
}

#[test]
fn path_capacity_boundary() {
    let lc = LayoutConstants::linux();
    // Exactly max_path_capacity - 1 bytes encodes...
    let fits = vec![b'a'; 107];
    let u = SocketAddrUnix::new_path(&lc, fits.clone()).unwrap();
    let mut buf = storage_buf(&lc);
    let n = write_sockaddr(&lc, &SocketAddr::Unix(u), &mut buf).unwrap();
    assert_eq!(n, 110);
    // ...and max_path_capacity bytes fails with an invalid-name error, both
    // at construction and at encoding time.
    let too_long = vec![b'a'; 108];
    assert_eq!(
        SocketAddrUnix::new_path(&lc, too_long).err(),
        Some(SocketAddrError::InvalidName)
    );
    // A name valid under this layout is still held to a smaller platform's
    // capacity by the encoder itself.
    let bsd = LayoutConstants::bsd();
    let u107 = SocketAddrUnix::new_path(&lc, fits).unwrap();
    let mut bsd_buf = storage_buf(&bsd);
    assert_eq!(
        write_sockaddr(&bsd, &SocketAddr::Unix(u107), &mut bsd_buf),
        Err(SocketAddrError::InvalidName)
    );
}

#[test]
fn path_rejects_embedded_null_and_empty() {
    let lc = LayoutConstants::linux();
    assert_eq!(
        SocketAddrUnix::new_path(&lc, b"a\0b".to_vec()).err(),
        Some(SocketAddrError::InvalidName)
    );
    assert_eq!(
        SocketAddrUnix::new_path(&lc, Vec::new()).err(),
        Some(SocketAddrError::InvalidName)
    );
}

#[test]
fn abstract_name_boundary_round_trip() {
    let lc = LayoutConstants::linux();
    // First byte zero, total length max_path_capacity - 1.
    let mut name = vec![0u8; 1];
    name.extend(std::iter::repeat(b'x').take(106));
    assert_eq!(name.len(), 107);
    let u = SocketAddrUnix::new_abstract(&lc, name.clone()).unwrap();
    assert!(u.is_abstract());
    let mut buf = storage_buf(&lc);
    let n = write_sockaddr(&lc, &SocketAddr::Unix(u), &mut buf).unwrap();
    // No terminator: path offset plus the name itself.
    assert_eq!(n, 2 + 107);
    match read_sockaddr(&lc, &buf, n).unwrap() {
        SocketAddr::Unix(back) => assert_eq!(back.name, name),
        _ => panic!("wrong variant"),
    }
}

#[test]
fn abstract_name_trailing_zero_survives_round_trip() {
    let lc = LayoutConstants::linux();
    let name = vec![0u8, b'q', 0u8];
    let u = SocketAddrUnix::new_abstract(&lc, name.clone()).unwrap();
    let mut buf = storage_buf(&lc);
    let n = write_sockaddr(&lc, &SocketAddr::Unix(u), &mut buf).unwrap();
    assert_eq!(n, 5);
    match read_sockaddr(&lc, &buf, n).unwrap() {
        SocketAddr::Unix(back) => assert_eq!(back.name, name),
        _ => panic!("wrong variant"),
    }
}

#[test]
fn abstract_empty_name_round_trip() {
    let lc = LayoutConstants::linux();
    let u = SocketAddrUnix::new_abstract(&lc, Vec::new()).unwrap();
    let mut buf = storage_buf(&lc);
    let n = write_sockaddr(&lc, &SocketAddr::Unix(u), &mut buf).unwrap();
    assert_eq!(n, 2);
    match read_sockaddr(&lc, &buf, n).unwrap() {
        SocketAddr::Unix(back) => {
            assert!(back.name.is_empty());
            assert!(back.is_abstract());
        }
        _ => panic!("wrong variant"),
    }
}

#[test]
fn abstract_name_unsupported_without_namespace() {
    let bsd = LayoutConstants::bsd();
    // Construction refuses it...
    assert_eq!(
        SocketAddrUnix::new_abstract(&bsd, vec![0u8, b'x']).err(),
        Some(SocketAddrError::Unsupported)
    );
    // ...and so does decoding a buffer whose path region leads with zero.
    let buf = [4u8, 1u8, 0u8, b'x'];
    assert_eq!(
        read_sockaddr(&bsd, &buf, 4),
        Err(SocketAddrError::Unsupported)
    );
    // An empty path region is the abstract empty name, equally unsupported.
    let empty = [2u8, 1u8];
    assert_eq!(
        read_sockaddr(&bsd, &empty, 2),
        Err(SocketAddrError::Unsupported)
    );
}

#[test]
fn abstract_name_rejects_nonzero_first_byte() {
    let lc = LayoutConstants::linux();
    assert_eq!(
        SocketAddrUnix::new_abstract(&lc, b"nozero".to_vec()).err(),
        Some(SocketAddrError::InvalidName)
    );
    let too_long = vec![0u8; 108];
    assert_eq!(
        SocketAddrUnix::new_abstract(&lc, too_long).err(),
        Some(SocketAddrError::InvalidName)
    );
}

#[test]
fn decode_trims_exactly_one_trailing_terminator() {
    let lc = LayoutConstants::linux();
    let buf = [1u8, 0u8, b'a', b'b', 0u8];
    match read_sockaddr(&lc, &buf, 5).unwrap() {
        SocketAddr::Unix(u) => assert_eq!(u.name, b"ab".to_vec()),
        _ => panic!("wrong variant"),
    }
}

#[test]
fn decode_accepts_path_without_terminator() {
    let lc = LayoutConstants::linux();
    // Some peers report the length without the trailing null; the name is
    // then the whole region.
    let buf = [1u8, 0u8, b'a', b'b'];
    match read_sockaddr(&lc, &buf, 4).unwrap() {
        SocketAddr::Unix(u) => assert_eq!(u.name, b"ab".to_vec()),
        _ => panic!("wrong variant"),
    }
}

#[test]
fn decode_rejects_embedded_null_in_path() {
    let lc = LayoutConstants::linux();
    let buf = [1u8, 0u8, b'a', 0u8, b'b'];
    assert_eq!(
        read_sockaddr(&lc, &buf, 5),
        Err(SocketAddrError::InvalidName)
    );
}

#[test]
fn decode_clamps_path_region_to_capacity() {
    let lc = LayoutConstants::linux();
    let mut buf = vec![b'a'; 200];
    buf[0] = 1;
    buf[1] = 0;
    // The reported length runs far past the path capacity; the decoded name
    // is clamped to the capacity.
    match read_sockaddr(&lc, &buf, 150).unwrap() {
        SocketAddr::Unix(u) => assert_eq!(u.name, vec![b'a'; 108]),
        _ => panic!("wrong variant"),
    }
}

#[test]
fn unix_length_at_path_offset_is_abstract_empty() {
    let lc = LayoutConstants::linux();
    let buf = [1u8, 0u8, b'z'];
    // Reported length covers only the family field: a zero-length path
    // region, decoded as the abstract empty name.
    match read_sockaddr(&lc, &buf, 2).unwrap() {
        SocketAddr::Unix(u) => assert!(u.name.is_empty()),
        _ => panic!("wrong variant"),
    }
}
