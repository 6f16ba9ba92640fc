//! A verified core for SCTP socket bindings.
//!
//! The crate holds everything that a binding to a userspace SCTP engine decides
//! for itself: how socket addresses are laid out for the engine, which flags and
//! send parameters go into a call, how the shared engine is reference-counted,
//! and how the engine's answers become results. It performs no engine call: each
//! operation yields a [`Call`] that says what to hand to the engine, and the
//! engine's answer is given back to the function that interprets it.
//!
//! The numbers of address families, flags, options and errors, and the sizes
//! of the engine's structures, are those of the engine's header on Linux.

pub mod answer;
pub mod byteorder;
pub mod call;
pub mod engine;
pub mod error;
pub mod flags;
pub mod ip;
pub mod option;
mod sealed;
pub mod send;
pub mod socket;
pub mod types;

pub use byteorder::{host_is_little_endian, u16be, u32be};
pub use call::Call;
pub use engine::{Event, Startup, Teardown, UsrSctp, Wait, WAIT_LIMIT};
pub use error::{Errno, EINPROGRESS, EWOULDBLOCK};
pub use flags::{MsgFlags, SctpFlags};
pub use ip::{In6Addr, InAddr, Ip, Ipv4, Ipv4Addr, Ipv6, Ipv6Addr, SockaddrIn, SockaddrIn6};
pub use option::{RemoteUdpEncapsPort, RtoInfo, SctpOption, SctpRtoinfo, SctpUdpencaps};
pub use send::SendvInfo;
pub use socket::Socket;
pub use types::{
    AssocId, AuthInfo, PrInfo, PrPolicy, SctpAuthinfo, SctpPrinfo, SctpSendvSpa, SctpSndinfo,
    Shutdown, SndInfo,
};
