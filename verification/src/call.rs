//! The calls that this library asks its caller to make into the engine.

use crate::send::SendvInfo;
use vstd::prelude::*;

verus! {

/// One call into the engine, with everything that is handed to it. `S` is the
/// socket-address layout of the socket's address family. A descriptor is the
/// engine's socket pointer as a number.
#[derive(Debug, Copy, Clone, PartialEq, Eq)]
pub enum Call<S> {
    /// Create a socket of the given protocol family, style and protocol. The
    /// engine answers with a descriptor, null on failure.
    Socket { domain: i32, style: i32, protocol: i32 },
    /// Bind the socket to the address, a structure of `addrlen` bytes. The
    /// engine answers with a status.
    Bind { descriptor: usize, addr: S, addrlen: u32 },
    /// Listen with the given backlog. The engine answers with a status.
    Listen { descriptor: usize, backlog: i32 },
    /// Accept a connection; `addr` is the space of `addrlen` bytes in which the
    /// engine puts the peer's address. The engine answers with a descriptor,
    /// null on failure.
    Accept { descriptor: usize, addr: S, addrlen: u32 },
    /// Connect to the address, a structure of `addrlen` bytes. The engine
    /// answers with a status.
    Connect { descriptor: usize, addr: S, addrlen: u32 },
    /// Shut down one or both directions. The engine answers with a status.
    Shutdown { descriptor: usize, how: i32 },
    /// Switch non-blocking mode on (one) or off (zero). The engine answers with a status.
    SetNonBlocking { descriptor: usize, onoff: i32 },
    /// Ask for the non-blocking mode. The engine answers with the setting.
    GetNonBlocking { descriptor: usize },
    /// Send `len` bytes of payload to `addrcnt` addresses, with the parameters
    /// `info`, a structure of `infolen` bytes, under the tag `infotype`. The
    /// engine answers with a byte count.
    Sendv {
        descriptor: usize,
        len: usize,
        to: Option<S>,
        addrcnt: i32,
        info: SendvInfo,
        infolen: u32,
        infotype: u32,
        flags: i32,
    },
    /// Close the socket. The engine's answer is not looked at.
    Close { descriptor: usize },
}

} // verus!
