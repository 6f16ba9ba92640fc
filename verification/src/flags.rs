//! Message flags and SCTP flags: sets of named bits.

use vstd::prelude::*;

verus! {

/// Out-of-band data.
pub const MSG_OOB: u32 = 0x1;

/// Look at incoming data without removing it.
pub const MSG_PEEK: u32 = 0x2;

/// Send without routing.
pub const MSG_DONTROUTE: u32 = 0x4;

/// Control data was truncated.
pub const MSG_CTRUNC: u32 = 0x8;

/// Supply or ask for a second address.
pub const MSG_PROXY: u32 = 0x10;

/// Normal data was truncated.
pub const MSG_TRUNC: u32 = 0x20;

/// Do not block.
pub const MSG_DONTWAIT: u32 = 0x40;

/// End of record.
pub const MSG_EOR: u32 = 0x80;

/// Wait for a full request.
pub const MSG_WAITALL: u32 = 0x100;

/// Finish.
pub const MSG_FIN: u32 = 0x200;

/// Synchronise.
pub const MSG_SYN: u32 = 0x400;

/// Confirm path validity.
pub const MSG_CONFIRM: u32 = 0x800;

/// Reset.
pub const MSG_RST: u32 = 0x1000;

/// Fetch a message from the error queue.
pub const MSG_ERRQUEUE: u32 = 0x2000;

/// Do not raise a signal on a broken connection.
pub const MSG_NOSIGNAL: u32 = 0x4000;

/// More data will follow.
pub const MSG_MORE: u32 = 0x8000;

/// Wait for at least one packet.
pub const MSG_WAITFORONE: u32 = 0x10000;

/// More messages will follow.
pub const MSG_BATCH: u32 = 0x40000;

/// Send without copying.
pub const MSG_ZEROCOPY: u32 = 0x4000000;

/// Send data with the connection request.
pub const MSG_FASTOPEN: u32 = 0x20000000;

/// Close received descriptors on exec.
pub const MSG_CMSG_CLOEXEC: u32 = 0x40000000;

/// Every bit that a [`MsgFlags`] may hold.
pub const MSG_ALL: u32 = 0x6405ffff;

/// A set of message flags for sending and receiving.
/// Its view is the bits that are set; only named bits ever are.
#[derive(Clone, Copy, Debug, PartialEq, Eq)]
pub struct MsgFlags {
    bits: u32,
}

impl View for MsgFlags {
    type V = u32;

    closed spec fn view(&self) -> u32 {
        self.bits
    }
}

impl MsgFlags {
    #[verifier::type_invariant]
    spec fn known(self) -> bool {
        self.bits & !MSG_ALL == 0
    }

    /// The set without any flag.
    pub fn empty() -> (r: MsgFlags)
        ensures
            r@ == 0,
    {
        assert(0u32 & !MSG_ALL == 0) by (bit_vector);
        MsgFlags { bits: 0 }
    }

    /// The set of every named flag.
    pub fn all() -> (r: MsgFlags)
        ensures
            r@ == MSG_ALL,
    {
        assert(MSG_ALL & !MSG_ALL == 0) by (bit_vector);
        MsgFlags { bits: MSG_ALL }
    }

    /// The bits that are set, none of them outside the named ones.
    pub fn bits(&self) -> (r: u32)
        ensures
            r == self@,
            r & !MSG_ALL == 0,
    {
        proof {
            use_type_invariant(self);
        }
        self.bits
    }

    /// The set with exactly the given bits, if each of them is a named flag.
    pub fn from_bits(bits: u32) -> (r: Option<MsgFlags>)
        ensures
            r is Some <==> bits & !MSG_ALL == 0,
            r is Some ==> r->Some_0@ == bits,
    {
        if bits & !MSG_ALL == 0 {
            Some(MsgFlags { bits })
        } else {
            None
        }
    }

    /// The set with those of the given bits that are named flags.
    pub fn from_bits_truncate(bits: u32) -> (r: MsgFlags)
        ensures
            r@ == bits & MSG_ALL,
    {
        let kept: u32 = bits & MSG_ALL;
        assert((bits & MSG_ALL) & !MSG_ALL == 0) by (bit_vector);
        MsgFlags { bits: kept }
    }

    /// Whether no flag is set.
    pub fn is_empty(&self) -> (r: bool)
        ensures
            r == (self@ == 0),
    {
        self.bits == 0
    }

    /// Whether every flag of `other` is set in `self`.
    pub fn contains(&self, other: MsgFlags) -> (r: bool)
        ensures
            r == (self@ & other@ == other@),
    {
        self.bits & other.bits == other.bits
    }

    /// Whether some flag of `other` is set in `self`.
    pub fn intersects(&self, other: MsgFlags) -> (r: bool)
        ensures
            r == (self@ & other@ != 0),
    {
        self.bits & other.bits != 0
    }

    /// The flags that are set in `self` or in `other`.
    pub fn union(self, other: MsgFlags) -> (r: MsgFlags)
        ensures
            r@ == self@ | other@,
    {
        let a: u32 = self.bits;
        let b: u32 = other.bits;
        proof {
            use_type_invariant(&self);
            use_type_invariant(&other);
            assert((a | b) & !MSG_ALL == 0) by (bit_vector)
                requires
                    a & !MSG_ALL == 0,
                    b & !MSG_ALL == 0,
            ;
        }
        MsgFlags { bits: a | b }
    }

    /// The flags that are set in both `self` and `other`.
    pub fn intersection(self, other: MsgFlags) -> (r: MsgFlags)
        ensures
            r@ == self@ & other@,
    {
        let a: u32 = self.bits;
        let b: u32 = other.bits;
        proof {
            use_type_invariant(&self);
            assert((a & b) & !MSG_ALL == 0) by (bit_vector)
                requires
                    a & !MSG_ALL == 0,
            ;
        }
        MsgFlags { bits: a & b }
    }

    /// The flags that are set in `self` and not in `other`.
    pub fn difference(self, other: MsgFlags) -> (r: MsgFlags)
        ensures
            r@ == self@ & !other@,
    {
        let a: u32 = self.bits;
        let b: u32 = other.bits;
        proof {
            use_type_invariant(&self);
            assert((a & !b) & !MSG_ALL == 0) by (bit_vector)
                requires
                    a & !MSG_ALL == 0,
            ;
        }
        MsgFlags { bits: a & !b }
    }

    /// Sets every flag of `other` in `self`.
    pub fn insert(&mut self, other: MsgFlags)
        ensures
            final(self)@ == old(self)@ | other@,
    {
        *self = self.union(other);
    }

    /// Clears every flag of `other` in `self`.
    pub fn remove(&mut self, other: MsgFlags)
        ensures
            final(self)@ == old(self)@ & !other@,
    {
        *self = self.difference(other);
    }
}

/// The data was never put on the wire.
pub const SCTP_DATA_UNSENT: u16 = 0x1;

/// The data was put on the wire; it may or may not have been delivered.
pub const SCTP_DATA_SENT: u16 = 0x2;

/// The next message is a notification, not a user message.
pub const SCTP_NOTIFICATION: u16 = 0x10;

/// The whole next message has been received and is in the socket buffer.
pub const SCTP_COMPLETE: u16 = 0x20;

/// Start a graceful shutdown of the association.
pub const SCTP_EOF: u16 = 0x100;

/// Abort the association.
pub const SCTP_ABORT: u16 = 0x200;

/// Unordered delivery.
pub const SCTP_UNORDERED: u16 = 0x400;

/// On a one-to-many socket, override the primary destination address.
pub const SCTP_ADDR_OVER: u16 = 0x800;

/// On a one-to-many socket, send to all established associations.
pub const SCTP_SENDALL: u16 = 0x1000;

/// With explicit end of record, this data ends the message.
pub const SCTP_EOR: u16 = 0x2000;

/// Ask the peer to acknowledge at once.
pub const SCTP_SACK_IMMEDIATELY: u16 = 0x4000;

/// Every bit that a [`SctpFlags`] may hold.
pub const SCTP_FLAGS_ALL: u16 = 0x7f33;

/// A set of SCTP flags, as send information and notifications carry them.
/// Its view is the bits that are set; only named bits ever are.
#[derive(Clone, Copy, Debug, PartialEq, Eq)]
pub struct SctpFlags {
    bits: u16,
}

impl View for SctpFlags {
    type V = u16;

    closed spec fn view(&self) -> u16 {
        self.bits
    }
}

impl SctpFlags {
    #[verifier::type_invariant]
    spec fn known(self) -> bool {
        self.bits & !SCTP_FLAGS_ALL == 0
    }

    /// The set without any flag.
    pub fn empty() -> (r: SctpFlags)
        ensures
            r@ == 0,
    {
        assert(0u16 & !SCTP_FLAGS_ALL == 0) by (bit_vector);
        SctpFlags { bits: 0 }
    }

    /// The set of every named flag.
    pub fn all() -> (r: SctpFlags)
        ensures
            r@ == SCTP_FLAGS_ALL,
    {
        assert(SCTP_FLAGS_ALL & !SCTP_FLAGS_ALL == 0) by (bit_vector);
        SctpFlags { bits: SCTP_FLAGS_ALL }
    }

    /// The bits that are set, none of them outside the named ones.
    pub fn bits(&self) -> (r: u16)
        ensures
            r == self@,
            r & !SCTP_FLAGS_ALL == 0,
    {
        proof {
            use_type_invariant(self);
        }
        self.bits
    }

    /// The set with exactly the given bits, if each of them is a named flag.
    pub fn from_bits(bits: u16) -> (r: Option<SctpFlags>)
        ensures
            r is Some <==> bits & !SCTP_FLAGS_ALL == 0,
            r is Some ==> r->Some_0@ == bits,
    {
        if bits & !SCTP_FLAGS_ALL == 0 {
            Some(SctpFlags { bits })
        } else {
            None
        }
    }

    /// The set with those of the given bits that are named flags.
    pub fn from_bits_truncate(bits: u16) -> (r: SctpFlags)
        ensures
            r@ == bits & SCTP_FLAGS_ALL,
    {
        let kept: u16 = bits & SCTP_FLAGS_ALL;
        assert((bits & SCTP_FLAGS_ALL) & !SCTP_FLAGS_ALL == 0) by (bit_vector);
        SctpFlags { bits: kept }
    }

    /// Whether no flag is set.
    pub fn is_empty(&self) -> (r: bool)
        ensures
            r == (self@ == 0),
    {
        self.bits == 0
    }

    /// Whether every flag of `other` is set in `self`.
    pub fn contains(&self, other: SctpFlags) -> (r: bool)
        ensures
            r == (self@ & other@ == other@),
    {
        self.bits & other.bits == other.bits
    }

    /// Whether some flag of `other` is set in `self`.
    pub fn intersects(&self, other: SctpFlags) -> (r: bool)
        ensures
            r == (self@ & other@ != 0),
    {
        self.bits & other.bits != 0
    }

    /// The flags that are set in `self` or in `other`.
    pub fn union(self, other: SctpFlags) -> (r: SctpFlags)
        ensures
            r@ == self@ | other@,
    {
        let a: u16 = self.bits;
        let b: u16 = other.bits;
        proof {
            use_type_invariant(&self);
            use_type_invariant(&other);
            assert((a | b) & !SCTP_FLAGS_ALL == 0) by (bit_vector)
                requires
                    a & !SCTP_FLAGS_ALL == 0,
                    b & !SCTP_FLAGS_ALL == 0,
            ;
        }
        SctpFlags { bits: a | b }
    }

    /// The flags that are set in both `self` and `other`.
    pub fn intersection(self, other: SctpFlags) -> (r: SctpFlags)
        ensures
            r@ == self@ & other@,
    {
        let a: u16 = self.bits;
        let b: u16 = other.bits;
        proof {
            use_type_invariant(&self);
            assert((a & b) & !SCTP_FLAGS_ALL == 0) by (bit_vector)
                requires
                    a & !SCTP_FLAGS_ALL == 0,
            ;
        }
        SctpFlags { bits: a & b }
    }

    /// The flags that are set in `self` and not in `other`.
    pub fn difference(self, other: SctpFlags) -> (r: SctpFlags)
        ensures
            r@ == self@ & !other@,
    {
        let a: u16 = self.bits;
        let b: u16 = other.bits;
        proof {
            use_type_invariant(&self);
            assert((a & !b) & !SCTP_FLAGS_ALL == 0) by (bit_vector)
                requires
                    a & !SCTP_FLAGS_ALL == 0,
            ;
        }
        SctpFlags { bits: a & !b }
    }

    /// Sets every flag of `other` in `self`.
    pub fn insert(&mut self, other: SctpFlags)
        ensures
            final(self)@ == old(self)@ | other@,
    {
        *self = self.union(other);
    }

    /// Clears every flag of `other` in `self`.
    pub fn remove(&mut self, other: SctpFlags)
        ensures
            final(self)@ == old(self)@ & !other@,
    {
        *self = self.difference(other);
    }
}

} // verus!
