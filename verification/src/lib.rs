//! Socket-address codec: a safe, typed model of POSIX socket addresses and a
//! verified translation between that model and the native byte layouts that
//! socket system calls exchange with the kernel.

pub mod addr;
pub mod family;
pub mod flags;
pub mod layout;
mod native;
pub mod props;
pub mod read_sockaddr;
pub mod types;
pub mod wire;
pub mod write_sockaddr;

pub use addr::{
    SocketAddr, SocketAddrError, SocketAddrStorage, SocketAddrUnix, SocketAddrV4, SocketAddrV6,
};
pub use family::AddressFamily;
pub use flags::{AcceptFlags, RecvFlags, SendFlags};
pub use layout::LayoutConstants;
pub use read_sockaddr::read_sockaddr;
pub use types::{Protocol, Shutdown, SocketFlags, SocketType};
pub use write_sockaddr::{
    encode_sockaddr_unix, encode_sockaddr_v4, encode_sockaddr_v6, write_sockaddr,
};
