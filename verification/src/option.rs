//! Socket options: each names the engine's option code and holds the option's value.

use crate::ip::SockaddrIn;
use crate::ip::SockaddrIn6;
use vstd::prelude::*;

verus! {

/// The engine's code of the retransmission-timeout option.
pub const SCTP_RTOINFO: i32 = 0x1;

/// The engine's code of the option for a peer's UDP encapsulation port.
pub const SCTP_REMOTE_UDP_ENCAPS_PORT: i32 = 0x24;

/// Size in bytes of the engine's structure for retransmission-timeout parameters.
pub const SCTP_RTOINFO_LEN: u32 = 16;

/// Size in bytes of the engine's structure for a UDP encapsulation port.
pub const SCTP_UDPENCAPS_LEN: u32 = 136;

/// A socket option: a named code of the engine together with a value to set or to be filled in.
pub trait SctpOption {
    /// What the option holds.
    type Value;

    /// The engine's code of the option.
    spec fn spec_c_name(&self) -> i32;

    /// The value that the option holds.
    spec fn value(&self) -> Self::Value;

    /// The size in bytes of the engine's structure for the value.
    spec fn spec_value_size(&self) -> u32;

    /// The engine's code of the option.
    fn c_name(&self) -> (r: i32)
        ensures
            r == self.spec_c_name(),
    ;

    /// The size in bytes of the engine's structure for the value.
    fn value_size(&self) -> (r: u32)
        ensures
            r == self.spec_value_size(),
    ;

    /// The value, to hand to the engine when the option is set.
    fn value_ptr<'a>(&'a self) -> (r: &'a Self::Value)
        ensures
            *r == self.value(),
    ;

    /// The value, for the engine to fill in when the option is read. The
    /// option's code stays what it was.
    fn value_ptr_mut<'a>(&'a mut self) -> (r: &'a mut Self::Value)
        ensures
            *r == old(self).value(),
            final(self).value() == *final(r),
            final(self).spec_c_name() == old(self).spec_c_name(),
            final(self).spec_value_size() == old(self).spec_value_size(),
    ;
}

/// Retransmission-timeout parameters of an association, in milliseconds.
#[derive(Debug, Copy, Clone, PartialEq, Eq, Structural)]
pub struct SctpRtoinfo {
    pub srto_assoc_id: u32,
    pub srto_initial: u32,
    pub srto_max: u32,
    pub srto_min: u32,
}

/// The address that a UDP encapsulation port belongs to.
#[derive(Debug, Copy, Clone, PartialEq, Eq)]
pub enum SockaddrStorage {
    /// No address.
    Unspecified,
    /// An IPv4 socket address.
    In(SockaddrIn),
    /// An IPv6 socket address.
    In6(SockaddrIn6),
}

/// A peer address and its UDP encapsulation port, the latter in network byte order.
#[derive(Debug, Copy, Clone, PartialEq, Eq)]
pub struct SctpUdpencaps {
    pub sue_address: SockaddrStorage,
    pub sue_assoc_id: u32,
    pub sue_port: u16,
}

/// The retransmission-timeout option.
pub struct RtoInfo(pub SctpRtoinfo);

impl SctpOption for RtoInfo {
    type Value = SctpRtoinfo;

    open spec fn spec_c_name(&self) -> i32 {
        SCTP_RTOINFO
    }

    open spec fn value(&self) -> SctpRtoinfo {
        self.0
    }

    open spec fn spec_value_size(&self) -> u32 {
        SCTP_RTOINFO_LEN
    }

    fn c_name(&self) -> (r: i32) {
        SCTP_RTOINFO
    }

    fn value_size(&self) -> (r: u32) {
        SCTP_RTOINFO_LEN
    }

    fn value_ptr<'a>(&'a self) -> (r: &'a SctpRtoinfo) {
        &self.0
    }

    fn value_ptr_mut<'a>(&'a mut self) -> (r: &'a mut SctpRtoinfo) {
        &mut self.0
    }
}

/// The option for a peer's UDP encapsulation port.
pub struct RemoteUdpEncapsPort(pub SctpUdpencaps);

impl SctpOption for RemoteUdpEncapsPort {
    type Value = SctpUdpencaps;

    open spec fn spec_c_name(&self) -> i32 {
        SCTP_REMOTE_UDP_ENCAPS_PORT
    }

    open spec fn value(&self) -> SctpUdpencaps {
        self.0
    }

    open spec fn spec_value_size(&self) -> u32 {
        SCTP_UDPENCAPS_LEN
    }

    fn c_name(&self) -> (r: i32) {
        SCTP_REMOTE_UDP_ENCAPS_PORT
    }

    fn value_size(&self) -> (r: u32) {
        SCTP_UDPENCAPS_LEN
    }

    fn value_ptr<'a>(&'a self) -> (r: &'a SctpUdpencaps) {
        &self.0
    }

    fn value_ptr_mut<'a>(&'a mut self) -> (r: &'a mut SctpUdpencaps) {
        &mut self.0
    }
}

} // verus!
