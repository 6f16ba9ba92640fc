//! Parameters of shutdown and send calls, and their layout for the engine.

use crate::flags::SctpFlags;
use vstd::prelude::*;

verus! {

/// The engine's number for shutting down the receiving side.
pub const SHUT_RD: i32 = 0;

/// The engine's number for shutting down the sending side.
pub const SHUT_WR: i32 = 1;

/// The engine's number for shutting down both sides.
pub const SHUT_RDWR: i32 = 2;

/// Which side of a connection to shut down.
#[derive(Debug, Copy, Clone, PartialEq, Eq, Structural)]
pub enum Shutdown {
    Rd,
    Wr,
    RdWr,
}

impl Shutdown {
    /// The engine's number for this direction.
    pub open spec fn spec_how(self) -> i32 {
        match self {
            Shutdown::Rd => SHUT_RD,
            Shutdown::Wr => SHUT_WR,
            Shutdown::RdWr => SHUT_RDWR,
        }
    }

    /// The engine's number for this direction.
    pub fn how(self) -> (r: i32)
        ensures
            r == self.spec_how(),
    {
        match self {
            Shutdown::Rd => SHUT_RD,
            Shutdown::Wr => SHUT_WR,
            Shutdown::RdWr => SHUT_RDWR,
        }
    }
}

/// Handle of an association. One-to-one sockets ignore it.
pub type AssocId = u32;

/// Send information as the engine takes it.
#[derive(Debug, Copy, Clone, PartialEq, Eq, Structural)]
pub struct SctpSndinfo {
    pub snd_sid: u16,
    pub snd_flags: u16,
    pub snd_ppid: u32,
    pub snd_context: u32,
    pub snd_assoc_id: u32,
}

/// Send information: where and how one message goes.
#[derive(Debug, Copy, Clone)]
pub struct SndInfo {
    /// Stream number.
    pub sid: u16,
    /// Send flags. The useful ones are UNORDERED, ADDR_OVER, ABORT, EOF and SENDALL.
    pub flags: SctpFlags,
    /// Payload protocol identifier, passed to the peer as it is.
    pub ppid: u32,
    /// Opaque value handed back to the caller if an error occurs.
    pub context: u32,
    /// Association handle. One-to-one sockets ignore it.
    pub assoc_id: AssocId,
}

impl SndInfo {
    /// The same send information, laid out for the engine.
    pub open spec fn spec_sctp_sndinfo(self) -> SctpSndinfo {
        SctpSndinfo {
            snd_sid: self.sid,
            snd_flags: self.flags@,
            snd_ppid: self.ppid,
            snd_context: self.context,
            snd_assoc_id: self.assoc_id,
        }
    }

    /// Lays the send information out for the engine.
    pub fn into_sctp_sndinfo(self) -> (r: SctpSndinfo)
        ensures
            r == self.spec_sctp_sndinfo(),
    {
        SctpSndinfo {
            snd_sid: self.sid,
            snd_flags: self.flags.bits(),
            snd_ppid: self.ppid,
            snd_context: self.context,
            snd_assoc_id: self.assoc_id,
        }
    }
}

/// The send information of a message for which none was given: stream zero, no flags.
pub open spec fn default_sndinfo() -> SctpSndinfo {
    SctpSndinfo { snd_sid: 0, snd_flags: 0, snd_ppid: 0, snd_context: 0, snd_assoc_id: 0 }
}

impl Default for SndInfo {
    fn default() -> (r: SndInfo)
        ensures
            r.spec_sctp_sndinfo() == default_sndinfo(),
    {
        SndInfo { sid: 0, flags: SctpFlags::empty(), ppid: 0, context: 0, assoc_id: 0 }
    }
}

/// Partial-reliability policy.
#[derive(Debug, Copy, Clone, PartialEq, Eq, Structural)]
pub enum PrPolicy {
    /// Reliable transmission: no partial-reliability policy.
    Reliable,
    /// Give up on a message after a time to live.
    Ttl,
    /// Give up on a message when the send buffer is short.
    Buf,
    /// Give up on a message after a number of retransmissions.
    Rtx,
}

impl PrPolicy {
    /// The engine's number for this policy.
    pub open spec fn spec_code(self) -> u16 {
        match self {
            PrPolicy::Reliable => 0,
            PrPolicy::Ttl => 1,
            PrPolicy::Buf => 2,
            PrPolicy::Rtx => 3,
        }
    }

    /// The engine's number for this policy.
    pub fn code(self) -> (r: u16)
        ensures
            r == self.spec_code(),
    {
        match self {
            PrPolicy::Reliable => 0,
            PrPolicy::Ttl => 1,
            PrPolicy::Buf => 2,
            PrPolicy::Rtx => 3,
        }
    }
}

/// Partial-reliability information as the engine takes it.
#[derive(Debug, Copy, Clone, PartialEq, Eq, Structural)]
pub struct SctpPrinfo {
    pub pr_policy: u16,
    pub pr_value: u32,
}

/// Partial-reliability information: a policy and its parameter.
#[derive(Debug, Copy, Clone, PartialEq, Eq, Structural)]
pub struct PrInfo {
    pub policy: PrPolicy,
    pub value: u32,
}

impl PrInfo {
    /// The same information, laid out for the engine.
    pub open spec fn spec_sctp_prinfo(self) -> SctpPrinfo {
        SctpPrinfo { pr_policy: self.policy.spec_code(), pr_value: self.value }
    }

    /// Lays the information out for the engine.
    pub fn into_sctp_prinfo(self) -> (r: SctpPrinfo)
        ensures
            r == self.spec_sctp_prinfo(),
    {
        SctpPrinfo { pr_policy: self.policy.code(), pr_value: self.value }
    }
}

/// The partial-reliability information of a message for which none was given: reliable.
pub open spec fn default_prinfo() -> SctpPrinfo {
    SctpPrinfo { pr_policy: 0, pr_value: 0 }
}

impl Default for PrInfo {
    fn default() -> (r: PrInfo)
        ensures
            r == (PrInfo { policy: PrPolicy::Reliable, value: 0 }),
    {
        PrInfo { policy: PrPolicy::Reliable, value: 0 }
    }
}

/// Authentication information as the engine takes it.
#[derive(Debug, Copy, Clone, PartialEq, Eq, Structural)]
pub struct SctpAuthinfo {
    pub auth_keynumber: u16,
}

/// Authentication information: the number of the shared key to use.
pub type AuthInfo = SctpAuthinfo;

/// The authentication information of a message for which none was given.
pub open spec fn default_authinfo() -> SctpAuthinfo {
    SctpAuthinfo { auth_keynumber: 0 }
}

/// Send, partial-reliability and authentication information in one structure,
/// with flags that say which of the three parts are meant.
#[derive(Debug, Copy, Clone, PartialEq, Eq, Structural)]
pub struct SctpSendvSpa {
    pub sendv_flags: u32,
    pub sendv_sndinfo: SctpSndinfo,
    pub sendv_prinfo: SctpPrinfo,
    pub sendv_authinfo: SctpAuthinfo,
}

} // verus!
