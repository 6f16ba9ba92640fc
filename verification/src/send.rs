//! Which send parameters a send call hands to the engine, and under which tag.

use crate::types::default_authinfo;
use crate::types::default_prinfo;
use crate::types::default_sndinfo;
use crate::types::AuthInfo;
use crate::types::PrInfo;
use crate::types::SctpPrinfo;
use crate::types::SctpSendvSpa;
use crate::types::SctpSndinfo;
use crate::types::SndInfo;
use vstd::prelude::*;

verus! {

/// Tag of a send call without parameters.
pub const SCTP_SENDV_NOINFO: u32 = 0;

/// Tag of a send call with send information only.
pub const SCTP_SENDV_SNDINFO: u32 = 1;

/// Tag of a send call with partial-reliability information only.
pub const SCTP_SENDV_PRINFO: u32 = 2;

/// Tag of a send call with authentication information only.
pub const SCTP_SENDV_AUTHINFO: u32 = 3;

/// Tag of a send call with the combined structure.
pub const SCTP_SENDV_SPA: u32 = 4;

/// In the combined structure: the send information is meant.
pub const SCTP_SEND_SNDINFO_VALID: u32 = 1;

/// In the combined structure: the partial-reliability information is meant.
pub const SCTP_SEND_PRINFO_VALID: u32 = 2;

/// In the combined structure: the authentication information is meant.
pub const SCTP_SEND_AUTHINFO_VALID: u32 = 4;

/// Size in bytes of the engine's structure for send information.
pub const SCTP_SNDINFO_LEN: u32 = 16;

/// Size in bytes of the engine's structure for partial-reliability information.
pub const SCTP_PRINFO_LEN: u32 = 8;

/// Size in bytes of the engine's combined structure.
pub const SCTP_SENDV_SPA_LEN: u32 = 32;

/// The parameters that go with one send call.
#[derive(Debug, Copy, Clone, PartialEq, Eq, Structural)]
pub enum SendvInfo {
    /// No parameters.
    NoInfo,
    /// Send information alone.
    SndInfo(SctpSndinfo),
    /// Partial-reliability information alone.
    PrInfo(SctpPrinfo),
    /// The combined structure.
    Spa(SctpSendvSpa),
}

impl SendvInfo {
    /// The tag that tells the engine which kind of parameters it is given.
    pub open spec fn spec_infotype(self) -> u32 {
        match self {
            SendvInfo::NoInfo => SCTP_SENDV_NOINFO,
            SendvInfo::SndInfo(_) => SCTP_SENDV_SNDINFO,
            SendvInfo::PrInfo(_) => SCTP_SENDV_PRINFO,
            SendvInfo::Spa(_) => SCTP_SENDV_SPA,
        }
    }

    /// The size in bytes of the engine's structure for these parameters.
    pub open spec fn spec_infolen(self) -> u32 {
        match self {
            SendvInfo::NoInfo => 0,
            SendvInfo::SndInfo(_) => SCTP_SNDINFO_LEN,
            SendvInfo::PrInfo(_) => SCTP_PRINFO_LEN,
            SendvInfo::Spa(_) => SCTP_SENDV_SPA_LEN,
        }
    }

    /// The size in bytes of the engine's structure for these parameters.
    pub fn infolen(&self) -> (r: u32)
        ensures
            r == self.spec_infolen(),
    {
        match self {
            SendvInfo::NoInfo => 0,
            SendvInfo::SndInfo(_) => SCTP_SNDINFO_LEN,
            SendvInfo::PrInfo(_) => SCTP_PRINFO_LEN,
            SendvInfo::Spa(_) => SCTP_SENDV_SPA_LEN,
        }
    }

    /// The tag that tells the engine which kind of parameters it is given.
    pub fn infotype(&self) -> (r: u32)
        ensures
            r == self.spec_infotype(),
    {
        match self {
            SendvInfo::NoInfo => SCTP_SENDV_NOINFO,
            SendvInfo::SndInfo(_) => SCTP_SENDV_SNDINFO,
            SendvInfo::PrInfo(_) => SCTP_SENDV_PRINFO,
            SendvInfo::Spa(_) => SCTP_SENDV_SPA,
        }
    }
}

/// The validity flags of the combined structure: one bit for each part that was given.
pub open spec fn spec_spa_flags(snd: bool, pr: bool, auth: bool) -> u32 {
    ((if snd {
        1int
    } else {
        0int
    }) + (if pr {
        2int
    } else {
        0int
    }) + (if auth {
        4int
    } else {
        0int
    })) as u32
}

/// The combined structure for the given parts: each part that was given, laid
/// out for the engine, and the default in place of each that was not.
pub open spec fn spec_sendv_spa(
    snd_info: Option<SndInfo>,
    pr_info: Option<PrInfo>,
    auth_info: Option<AuthInfo>,
) -> SctpSendvSpa {
    SctpSendvSpa {
        sendv_flags: spec_spa_flags(snd_info is Some, pr_info is Some, auth_info is Some),
        sendv_sndinfo: match snd_info {
            Some(s) => s.spec_sctp_sndinfo(),
            None => default_sndinfo(),
        },
        sendv_prinfo: match pr_info {
            Some(p) => p.spec_sctp_prinfo(),
            None => default_prinfo(),
        },
        sendv_authinfo: match auth_info {
            Some(a) => a,
            None => default_authinfo(),
        },
    }
}

/// The least parameters that carry everything that was given: nothing where
/// nothing was given, one part alone where only send information or only
/// partial-reliability information was given, and the combined structure
/// otherwise.
pub open spec fn spec_sendv_info(
    snd_info: Option<SndInfo>,
    pr_info: Option<PrInfo>,
    auth_info: Option<AuthInfo>,
) -> SendvInfo {
    if auth_info is Some || (snd_info is Some && pr_info is Some) {
        SendvInfo::Spa(spec_sendv_spa(snd_info, pr_info, auth_info))
    } else if snd_info is Some {
        SendvInfo::SndInfo(snd_info->Some_0.spec_sctp_sndinfo())
    } else if pr_info is Some {
        SendvInfo::PrInfo(pr_info->Some_0.spec_sctp_prinfo())
    } else {
        SendvInfo::NoInfo
    }
}

/// Builds the combined structure for the given parts.
pub fn sendv_spa(
    snd_info: Option<SndInfo>,
    pr_info: Option<PrInfo>,
    auth_info: Option<AuthInfo>,
) -> (r: SctpSendvSpa)
    ensures
        r == spec_sendv_spa(snd_info, pr_info, auth_info),
{
    let mut spa_flags: u32 = 0;
    if snd_info.is_some() {
        spa_flags = spa_flags + SCTP_SEND_SNDINFO_VALID;
    }
    if pr_info.is_some() {
        spa_flags = spa_flags + SCTP_SEND_PRINFO_VALID;
    }
    if auth_info.is_some() {
        spa_flags = spa_flags + SCTP_SEND_AUTHINFO_VALID;
    }
    let sndinfo = match snd_info {
        Some(s) => s.into_sctp_sndinfo(),
        None => SndInfo::default().into_sctp_sndinfo(),
    };
    let prinfo = match pr_info {
        Some(p) => p.into_sctp_prinfo(),
        None => PrInfo::default().into_sctp_prinfo(),
    };
    let authinfo = match auth_info {
        Some(a) => a,
        None => AuthInfo { auth_keynumber: 0 },
    };
    SctpSendvSpa {
        sendv_flags: spa_flags,
        sendv_sndinfo: sndinfo,
        sendv_prinfo: prinfo,
        sendv_authinfo: authinfo,
    }
}

/// Chooses the least parameters that carry everything that was given.
pub fn sendv_info(
    snd_info: Option<SndInfo>,
    pr_info: Option<PrInfo>,
    auth_info: Option<AuthInfo>,
) -> (r: SendvInfo)
    ensures
        r == spec_sendv_info(snd_info, pr_info, auth_info),
{
    let spa = sendv_spa(snd_info, pr_info, auth_info);
    if auth_info.is_some() || (snd_info.is_some() && pr_info.is_some()) {
        SendvInfo::Spa(spa)
    } else if snd_info.is_some() {
        SendvInfo::SndInfo(spa.sendv_sndinfo)
    } else if pr_info.is_some() {
        SendvInfo::PrInfo(spa.sendv_prinfo)
    } else {
        SendvInfo::NoInfo
    }
}

/// The send information that the engine finds in the parameters, if any: in
/// the combined structure a part counts only if its validity flag is set.
pub open spec fn carried_sndinfo(info: SendvInfo) -> Option<SctpSndinfo> {
    match info {
        SendvInfo::SndInfo(s) => Some(s),
        SendvInfo::Spa(spa) => if spa.sendv_flags % 2 == 1 {
            Some(spa.sendv_sndinfo)
        } else {
            None
        },
        _ => None,
    }
}

/// The partial-reliability information that the engine finds in the parameters, if any.
pub open spec fn carried_prinfo(info: SendvInfo) -> Option<SctpPrinfo> {
    match info {
        SendvInfo::PrInfo(p) => Some(p),
        SendvInfo::Spa(spa) => if (spa.sendv_flags / 2) % 2 == 1 {
            Some(spa.sendv_prinfo)
        } else {
            None
        },
        _ => None,
    }
}

/// The authentication information that the engine finds in the parameters, if any.
pub open spec fn carried_authinfo(info: SendvInfo) -> Option<AuthInfo> {
    match info {
        SendvInfo::Spa(spa) => if (spa.sendv_flags / 4) % 2 == 1 {
            Some(spa.sendv_authinfo)
        } else {
            None
        },
        _ => None,
    }
}

/// The chosen parameters carry each part that was given, laid out for the
/// engine, and no part that was not given.
pub proof fn lemma_sendv_info_carries_what_was_given(
    snd_info: Option<SndInfo>,
    pr_info: Option<PrInfo>,
    auth_info: Option<AuthInfo>,
)
    ensures
        carried_sndinfo(spec_sendv_info(snd_info, pr_info, auth_info)) == match snd_info {
            Some(s) => Some(s.spec_sctp_sndinfo()),
            None => None,
        },
        carried_prinfo(spec_sendv_info(snd_info, pr_info, auth_info)) == match pr_info {
            Some(p) => Some(p.spec_sctp_prinfo()),
            None => None,
        },
        carried_authinfo(spec_sendv_info(snd_info, pr_info, auth_info)) == auth_info,
{
}

/// The combined structure is chosen only where no smaller one would do: where
/// authentication information was given, or both of the other parts.
pub proof fn lemma_sendv_info_is_least(
    snd_info: Option<SndInfo>,
    pr_info: Option<PrInfo>,
    auth_info: Option<AuthInfo>,
)
    ensures
        spec_sendv_info(snd_info, pr_info, auth_info) is NoInfo <==> snd_info is None
            && pr_info is None && auth_info is None,
        spec_sendv_info(snd_info, pr_info, auth_info) is SndInfo <==> snd_info is Some
            && pr_info is None && auth_info is None,
        spec_sendv_info(snd_info, pr_info, auth_info) is PrInfo <==> snd_info is None
            && pr_info is Some && auth_info is None,
        spec_sendv_info(snd_info, pr_info, auth_info) is Spa <==> auth_info is Some || (
        snd_info is Some && pr_info is Some),
{
}

} // verus!
