//! Sockets: what each operation hands to the engine, and what the engine's answer means.

use crate::answer::descriptor;
use crate::answer::descriptor_with;
use crate::call::Call;
use crate::engine::UsrSctp;
use crate::error::Errno;
use crate::flags::MsgFlags;
use crate::flags::MSG_ALL;
use crate::ip::Ip;
use crate::send::sendv_info;
use crate::send::spec_sendv_info;
use crate::types::AuthInfo;
use crate::types::PrInfo;
use crate::types::Shutdown;
use crate::types::SndInfo;
use core::marker::PhantomData;
use vstd::prelude::*;

verus! {

/// Socket type of a one-to-one socket.
pub const SOCK_STREAM: i32 = 1;

/// Socket type of a one-to-many socket.
pub const SOCK_SEQPACKET: i32 = 5;

/// Protocol number of SCTP.
pub const IPPROTO_SCTP: i32 = 132;

/// The socket type of a one-to-many or a one-to-one socket.
pub open spec fn spec_style(one_to_many: bool) -> i32 {
    if one_to_many {
        SOCK_SEQPACKET
    } else {
        SOCK_STREAM
    }
}

/// One socket of the engine, of the address family `T`. It borrows from the
/// engine handle that made it, so it cannot outlive that handle, and it is
/// the only owner of its descriptor.
#[derive(Debug)]
pub struct Socket<'a, T: Ip> {
    inner: usize,
    one_to_many: bool,
    _ip: PhantomData<&'a T>,
}

impl UsrSctp {
    /// Asks the engine for a socket of the family `T`: one-to-many if
    /// `one_to_many`, else one-to-one.
    pub fn socket<'a, T: Ip>(&'a self, one_to_many: bool) -> (r: Call<T::Sockaddr>)
        ensures
            r == (Call::<T::Sockaddr>::Socket {
                domain: T::spec_pf(),
                style: spec_style(one_to_many),
                protocol: IPPROTO_SCTP,
            }),
    {
        Call::Socket {
            domain: T::pf(),
            style: if one_to_many {
                SOCK_SEQPACKET
            } else {
                SOCK_STREAM
            },
            protocol: IPPROTO_SCTP,
        }
    }

    /// Takes the engine's answer to [`UsrSctp::socket`], given the error
    /// number that was current when the call returned: a socket that owns the
    /// returned descriptor, or the error if the descriptor is null.
    pub fn opened_with<'a, T: Ip>(&'a self, one_to_many: bool, returned: usize, err: Errno) -> (r:
        Result<Socket<'a, T>, Errno>)
        ensures
            returned == 0 ==> r == Err::<Socket<'a, T>, Errno>(err),
            returned != 0 ==> r is Ok,
            r is Ok ==> r->Ok_0.descriptor() == returned,
            r is Ok ==> r->Ok_0.is_one_to_many() == one_to_many,
    {
        match descriptor_with(returned, err) {
            Ok(inner) => Ok(Socket { inner, one_to_many, _ip: PhantomData }),
            Err(e) => Err(e),
        }
    }

    /// Takes the engine's answer to [`UsrSctp::socket`]: a socket that owns
    /// the returned descriptor, or the calling thread's current error number
    /// if the descriptor is null.
    pub fn opened<'a, T: Ip>(&'a self, one_to_many: bool, returned: usize) -> (r: Result<
        Socket<'a, T>,
        Errno,
    >)
        ensures
            r is Ok <==> returned != 0,
            r is Ok ==> r->Ok_0.descriptor() == returned,
            r is Ok ==> r->Ok_0.is_one_to_many() == one_to_many,
    {
        match descriptor(returned) {
            Ok(inner) => Ok(Socket { inner, one_to_many, _ip: PhantomData }),
            Err(e) => Err(e),
        }
    }
}

impl<'a, T: Ip> Socket<'a, T> {
    #[verifier::type_invariant]
    spec fn owns_descriptor(self) -> bool {
        self.inner != 0
    }

    /// The engine's descriptor of this socket.
    pub closed spec fn spec_descriptor(&self) -> usize {
        self.inner
    }

    /// Whether this is a one-to-many socket.
    pub closed spec fn spec_is_one_to_many(&self) -> bool {
        self.one_to_many
    }

    /// The engine's descriptor of this socket; never null.
    #[verifier::when_used_as_spec(spec_descriptor)]
    pub fn descriptor(&self) -> (r: usize)
        ensures
            r == self.descriptor(),
            r != 0,
    {
        proof {
            use_type_invariant(self);
        }
        self.inner
    }

    /// Whether this is a one-to-many socket.
    #[verifier::when_used_as_spec(spec_is_one_to_many)]
    pub fn is_one_to_many(&self) -> (r: bool)
        ensures
            r == self.is_one_to_many(),
    {
        self.one_to_many
    }

    /// Binds the socket to `addr` and `port`. Interpret the answer with
    /// [`crate::answer::status`].
    pub fn bind(&mut self, addr: T::Addr, port: u16) -> (r: Call<T::Sockaddr>)
        ensures
            *final(self) == *old(self),
            r is Bind,
            r->Bind_descriptor == old(self).descriptor(),
            r->Bind_addr@ == T::encode(addr@, port),
            r->Bind_addrlen == T::spec_sockaddr_len(),
    {
        Call::Bind {
            descriptor: self.inner,
            addr: T::to_sockaddr(addr, port),
            addrlen: T::sockaddr_len(),
        }
    }

    /// Listens with the given backlog. Interpret the answer with [`crate::answer::status`].
    pub fn listen(&mut self, backlog: i32) -> (r: Call<T::Sockaddr>)
        ensures
            *final(self) == *old(self),
            r == (Call::<T::Sockaddr>::Listen { descriptor: old(self).descriptor(), backlog }),
    {
        Call::Listen { descriptor: self.inner, backlog }
    }

    /// Accepts a connection. The call carries the family's wildcard address
    /// as the space for the peer's address. Interpret the answer with
    /// [`Socket::accepted`].
    pub fn accept(&mut self) -> (r: Call<T::Sockaddr>)
        ensures
            *final(self) == *old(self),
            r is Accept,
            r->Accept_descriptor == old(self).descriptor(),
            r->Accept_addr@ == T::encode(T::unspecified(), 0),
            r->Accept_addrlen == T::spec_sockaddr_len(),
    {
        Call::Accept {
            descriptor: self.inner,
            addr: T::to_sockaddr_wildcard(),
            addrlen: T::sockaddr_len(),
        }
    }

    /// Takes the engine's answer to [`Socket::accept`], given the error number
    /// that was current when the call returned. `peer` is what the engine put
    /// in the address space. On success: the peer's address and port, and a
    /// socket of its own for the connection, of this socket's style and bound
    /// to the same engine handle. On a null descriptor: the error, and no socket.
    pub fn accepted_with(&mut self, returned: usize, peer: T::Sockaddr, err: Errno) -> (r: Result<
        (T::Addr, u16, Socket<'a, T>),
        Errno,
    >)
        ensures
            *final(self) == *old(self),
            returned == 0 ==> r == Err::<(T::Addr, u16, Socket<'a, T>), Errno>(err),
            returned != 0 ==> r is Ok,
            r is Ok ==> (r->Ok_0.0@, r->Ok_0.1) == T::decode(peer@),
            r is Ok ==> r->Ok_0.2.descriptor() == returned,
            r is Ok ==> r->Ok_0.2.is_one_to_many() == old(self).is_one_to_many(),
    {
        match descriptor_with(returned, err) {
            Ok(inner) => {
                let (addr, port) = T::from_sockaddr(peer);
                Ok((addr, port, Socket { inner, one_to_many: self.one_to_many, _ip: PhantomData }))
            },
            Err(e) => Err(e),
        }
    }

    /// Takes the engine's answer to [`Socket::accept`]. On a null descriptor
    /// the error is the calling thread's current error number; in
    /// non-blocking mode that is how the engine says that no connection is
    /// waiting.
    pub fn accepted(&mut self, returned: usize, peer: T::Sockaddr) -> (r: Result<
        (T::Addr, u16, Socket<'a, T>),
        Errno,
    >)
        ensures
            *final(self) == *old(self),
            r is Ok <==> returned != 0,
            r is Ok ==> (r->Ok_0.0@, r->Ok_0.1) == T::decode(peer@),
            r is Ok ==> r->Ok_0.2.descriptor() == returned,
            r is Ok ==> r->Ok_0.2.is_one_to_many() == old(self).is_one_to_many(),
    {
        match descriptor(returned) {
            Ok(inner) => {
                let (addr, port) = T::from_sockaddr(peer);
                Ok((addr, port, Socket { inner, one_to_many: self.one_to_many, _ip: PhantomData }))
            },
            Err(e) => Err(e),
        }
    }

    /// Connects to `addr` and `port`. Interpret the answer with
    /// [`crate::answer::status`]; in non-blocking mode the error that says "in
    /// progress" means that the connection has been initiated.
    pub fn connect(&mut self, addr: T::Addr, port: u16) -> (r: Call<T::Sockaddr>)
        ensures
            *final(self) == *old(self),
            r is Connect,
            r->Connect_descriptor == old(self).descriptor(),
            r->Connect_addr@ == T::encode(addr@, port),
            r->Connect_addrlen == T::spec_sockaddr_len(),
    {
        Call::Connect {
            descriptor: self.inner,
            addr: T::to_sockaddr(addr, port),
            addrlen: T::sockaddr_len(),
        }
    }

    /// Shuts down one or both directions. Interpret the answer with [`crate::answer::status`].
    pub fn shutdown(&mut self, shutdown: Shutdown) -> (r: Call<T::Sockaddr>)
        ensures
            *final(self) == *old(self),
            r == (Call::<T::Sockaddr>::Shutdown {
                descriptor: old(self).descriptor(),
                how: shutdown.spec_how(),
            }),
    {
        Call::Shutdown { descriptor: self.inner, how: shutdown.how() }
    }

    /// Switches non-blocking mode on or off. Interpret the answer with
    /// [`crate::answer::status`].
    pub fn set_non_blocking(&mut self, onoff: bool) -> (r: Call<T::Sockaddr>)
        ensures
            *final(self) == *old(self),
            r == (Call::<T::Sockaddr>::SetNonBlocking {
                descriptor: old(self).descriptor(),
                onoff: if onoff {
                    1i32
                } else {
                    0i32
                },
            }),
    {
        Call::SetNonBlocking {
            descriptor: self.inner,
            onoff: if onoff {
                1
            } else {
                0
            },
        }
    }

    /// Asks for the non-blocking mode. Interpret the answer with [`crate::answer::setting`].
    pub fn get_non_blocking(&mut self) -> (r: Call<T::Sockaddr>)
        ensures
            *final(self) == *old(self),
            r == (Call::<T::Sockaddr>::GetNonBlocking { descriptor: old(self).descriptor() }),
    {
        Call::GetNonBlocking { descriptor: self.inner }
    }

    /// Sends `data`, to `addr` if one is given. The engine takes at most one
    /// address. Of the send, partial-reliability and authentication
    /// information, the call carries the least structure that holds what was
    /// given, under the tag that names it. Interpret the answer with
    /// [`crate::answer::count`].
    pub fn sendv(
        &mut self,
        data: &[u8],
        addr: Option<(T::Addr, u16)>,
        snd_info: Option<SndInfo>,
        pr_info: Option<PrInfo>,
        auth_info: Option<AuthInfo>,
        flags: MsgFlags,
    ) -> (r: Call<T::Sockaddr>)
        ensures
            *final(self) == *old(self),
            r is Sendv,
            r->Sendv_descriptor == old(self).descriptor(),
            r->Sendv_len == data@.len(),
            r->Sendv_to is Some <==> addr is Some,
            addr is Some ==> r->Sendv_to->Some_0@ == T::encode(addr->Some_0.0@, addr->Some_0.1),
            r->Sendv_addrcnt == (if addr is Some {
                1i32
            } else {
                0i32
            }),
            r->Sendv_info == spec_sendv_info(snd_info, pr_info, auth_info),
            r->Sendv_infolen == r->Sendv_info.spec_infolen(),
            r->Sendv_infotype == r->Sendv_info.spec_infotype(),
            r->Sendv_flags == flags@,
    {
        let to = match addr {
            Some((a, port)) => Some(T::to_sockaddr(a, port)),
            None => None,
        };
        let addrcnt: i32 = if to.is_some() {
            1
        } else {
            0
        };
        let info = sendv_info(snd_info, pr_info, auth_info);
        let infolen = info.infolen();
        let infotype = info.infotype();
        let bits: u32 = flags.bits();
        assert(bits <= 0x7FFF_FFFF) by (bit_vector)
            requires
                bits & !MSG_ALL == 0,
        ;
        Call::Sendv {
            descriptor: self.inner,
            len: data.len(),
            to,
            addrcnt,
            info,
            infolen,
            infotype,
            flags: bits as i32,
        }
    }

    /// Closes the socket. The socket is given up with the call, so a
    /// descriptor is closed at most once.
    pub fn close(self) -> (r: Call<T::Sockaddr>)
        ensures
            r == (Call::<T::Sockaddr>::Close { descriptor: self.descriptor() }),
    {
        Call::Close { descriptor: self.inner }
    }
}

} // verus!
