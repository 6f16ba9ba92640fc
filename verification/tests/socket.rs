use rusrsctp::answer::{count, setting, status, status_with};
use rusrsctp::error::{EINPROGRESS, EWOULDBLOCK};
use rusrsctp::socket::{IPPROTO_SCTP, SOCK_SEQPACKET, SOCK_STREAM};
use rusrsctp::{
    Call, Errno, Ip, Ipv4, Ipv4Addr, Ipv6, Ipv6Addr, MsgFlags, Shutdown, Socket, Startup,
    Teardown, UsrSctp,
};

/// Stands in for the engine: it answers each call as an engine would on which
/// nobody else connects or listens, and leaves the error number behind.
struct Engine {
    next_descriptor: usize,
    non_blocking: bool,
}

impl Engine {
    fn new() -> Engine {
        Engine { next_descriptor: 0x2000, non_blocking: false }
    }

    /// The descriptor, status or byte count that the engine gives back.
    fn perform<S>(&mut self, call: Call<S>) -> isize {
        match call {
            Call::Socket { .. } => {
                self.next_descriptor += 0x100;
                self.next_descriptor as isize
            }
            Call::Bind { .. } | Call::Listen { .. } | Call::Shutdown { .. } => 0,
            Call::Accept { .. } => {
                // no connection is waiting
                assert!(self.non_blocking, "a blocking accept would not return");
                errno::set_errno(errno::Errno(11));
                0
            }
            Call::Connect { .. } => {
                if self.non_blocking {
                    errno::set_errno(errno::Errno(115));
                    -1
                } else {
                    0
                }
            }
            Call::SetNonBlocking { onoff, .. } => {
                self.non_blocking = onoff != 0;
                0
            }
            Call::GetNonBlocking { .. } => {
                if self.non_blocking {
                    1
                } else {
                    0
                }
            }
            Call::Sendv { len, .. } => len as isize,
            Call::Close { .. } => 0,
        }
    }

    fn socket<'a, T: Ip>(&mut self, sctp: &'a UsrSctp, one_to_many: bool) -> Socket<'a, T> {
        let returned = self.perform(sctp.socket::<T>(one_to_many));
        sctp.opened::<T>(one_to_many, returned as usize).unwrap()
    }

    fn status<S>(&mut self, call: Call<S>) -> Result<(), Errno> {
        status(self.perform(call) as i32)
    }
}

#[test]
fn setup_and_teardown4() {
    let mut engine = Engine::new();
    {
        let (sctp, startup) = UsrSctp::new(Some(9899), 0);
        assert_eq!(startup, Startup::Initialize { port: 9899 });
        {
            assert_eq!(
                sctp.socket::<Ipv4>(false),
                Call::Socket { domain: 2, style: 1, protocol: 132 }
            );
            let socket = engine.socket::<Ipv4>(&sctp, false);
            assert_eq!(socket.close(), Call::Close { descriptor: 0x2100 });
        } // socket is closed here
        assert_eq!(sctp.release(1), Teardown::Finish);
    } // sctp is released here
    assert!(true)
}

#[test]
fn setup_and_teardown6() {
    let mut engine = Engine::new();
    {
        let (sctp, startup) = UsrSctp::new(Some(9899), 0);
        assert_eq!(startup, Startup::Initialize { port: 9899 });
        {
            assert_eq!(
                sctp.socket::<Ipv6>(false),
                Call::Socket { domain: 10, style: 1, protocol: 132 }
            );
            let socket = engine.socket::<Ipv6>(&sctp, false);
            assert_eq!(socket.close(), Call::Close { descriptor: 0x2100 });
        } // socket is closed here
        assert_eq!(sctp.release(1), Teardown::Finish);
    } // sctp is released here
    assert!(true)
}

#[test]
fn socket_styles() {
    let (sctp, _) = UsrSctp::new(None, 0);
    assert_eq!(
        sctp.socket::<Ipv4>(true),
        Call::Socket { domain: 2, style: SOCK_SEQPACKET, protocol: IPPROTO_SCTP }
    );
    assert_eq!(sctp.socket::<Ipv6>(true), Call::Socket { domain: 10, style: 5, protocol: 132 });
    assert_eq!(SOCK_STREAM, 1);
    let one = sctp.opened::<Ipv4>(false, 7).unwrap();
    let many = sctp.opened::<Ipv4>(true, 8).unwrap();
    assert_eq!((one.descriptor(), one.is_one_to_many()), (7, false));
    assert_eq!((many.descriptor(), many.is_one_to_many()), (8, true));
}

#[test]
fn failed_socket_creation_gives_the_error_and_no_socket() {
    let (sctp, _) = UsrSctp::new(None, 0);
    let r = sctp.opened_with::<Ipv4>(false, 0, Errno(24));
    assert_eq!(r.unwrap_err(), Errno(24));
    errno::set_errno(errno::Errno(23));
    let r = sctp.opened::<Ipv6>(true, 0);
    assert_eq!(r.unwrap_err(), Errno(23));
    let r = sctp.opened_with::<Ipv4>(false, 9, Errno(24));
    assert_eq!(r.unwrap().descriptor(), 9);
}

#[test]
fn bind4() {
    let mut engine = Engine::new();
    let (sctp, _) = UsrSctp::new(Some(9899), 0);
    {
        let mut socket = engine.socket::<Ipv4>(&sctp, false);
        let call = socket.bind(Ipv4Addr::new(0, 0, 0, 0), 0); // wildcard addr and port
        assert_eq!(
            call,
            Call::Bind { descriptor: 0x2100, addr: Ipv4::to_sockaddr_wildcard(), addrlen: 16 }
        );
        engine.status(call).unwrap();
    }
}

#[test]
fn bind6() {
    let mut engine = Engine::new();
    let (sctp, _) = UsrSctp::new(Some(9899), 0);
    {
        let mut socket = engine.socket::<Ipv6>(&sctp, false);
        let call = socket.bind(Ipv6Addr::new(0, 0, 0, 0, 0, 0, 0, 0), 0); // wildcard addr and port
        assert_eq!(
            call,
            Call::Bind { descriptor: 0x2100, addr: Ipv6::to_sockaddr_wildcard(), addrlen: 28 }
        );
        engine.status(call).unwrap();
    }
}

#[test]
fn bind_failure_gives_the_engine_error() {
    let (sctp, _) = UsrSctp::new(Some(9899), 0);
    let mut socket = sctp.opened::<Ipv4>(false, 0x2000).unwrap();
    let call = socket.bind(Ipv4Addr::new(10, 1, 2, 3), 5000);
    match call {
        Call::Bind { descriptor, addr, addrlen } => {
            assert_eq!(descriptor, 0x2000);
            assert_eq!(addrlen, 16);
            assert_eq!(Ipv4::from_sockaddr(addr), (Ipv4Addr::new(10, 1, 2, 3), 5000));
        }
        other => panic!("not a bind: {:?}", other),
    }
    // the address is in use
    assert_eq!(status_with(-1, Errno(98)), Err(Errno(98)));
    errno::set_errno(errno::Errno(98));
    assert_eq!(status(-1), Err(Errno(98)));
}

#[test]
fn listen4() {
    let mut engine = Engine::new();
    let (sctp, _) = UsrSctp::new(Some(9899), 0);
    {
        let mut socket = engine.socket::<Ipv4>(&sctp, true);
        assert!(socket.is_one_to_many());
        let bind = socket.bind(Ipv4Addr::new(0, 0, 0, 0), 0); // wildcard addr and port
        engine.status(bind).unwrap();
        let listen = socket.listen(8);
        assert_eq!(listen, Call::Listen { descriptor: 0x2100, backlog: 8 });
        engine.status(listen).unwrap();
    }
}

#[test]
fn listen6() {
    let mut engine = Engine::new();
    let (sctp, _) = UsrSctp::new(Some(9899), 0);
    {
        let mut socket = engine.socket::<Ipv6>(&sctp, true);
        let bind = socket.bind(Ipv6Addr::new(0, 0, 0, 0, 0, 0, 0, 0), 0); // wildcard addr and port
        engine.status(bind).unwrap();
        let listen = socket.listen(8);
        assert_eq!(listen, Call::Listen { descriptor: 0x2100, backlog: 8 });
        engine.status(listen).unwrap();
    }
}

#[test]
fn accept4() {
    let mut engine = Engine::new();
    let (sctp, _) = UsrSctp::new(Some(9899), 0);
    {
        let mut socket = engine.socket::<Ipv4>(&sctp, false);
        let call = socket.set_non_blocking(true);
        engine.status(call).unwrap();
        let call = socket.bind(Ipv4Addr::new(0, 0, 0, 0), 0); // wildcard addr and port
        engine.status(call).unwrap();
        let call = socket.listen(8);
        engine.status(call).unwrap();
        let call = socket.accept();
        assert_eq!(
            call,
            Call::Accept { descriptor: 0x2100, addr: Ipv4::to_sockaddr_wildcard(), addrlen: 16 }
        );
        let returned = engine.perform(call) as usize;
        match socket.accepted(returned, Ipv4::to_sockaddr_wildcard()) {
            Ok(_) => panic!("nobody connected"),
            Err(e) => {
                assert!(e.is_would_block());
                let ei: i32 = e.into();
                assert_eq!(ei as u32, EWOULDBLOCK);
            }
        };
    }
}

#[test]
fn accept6() {
    let mut engine = Engine::new();
    let (sctp, _) = UsrSctp::new(Some(9899), 0);
    {
        let mut socket = engine.socket::<Ipv6>(&sctp, false);
        let call = socket.set_non_blocking(true);
        engine.status(call).unwrap();
        let call = socket.bind(Ipv6Addr::new(0, 0, 0, 0, 0, 0, 0, 0), 0); // wildcard addr and port
        engine.status(call).unwrap();
        let call = socket.listen(8);
        engine.status(call).unwrap();
        let call = socket.accept();
        assert_eq!(
            call,
            Call::Accept { descriptor: 0x2100, addr: Ipv6::to_sockaddr_wildcard(), addrlen: 28 }
        );
        let returned = engine.perform(call) as usize;
        match socket.accepted(returned, Ipv6::to_sockaddr_wildcard()) {
            Ok(_) => panic!("nobody connected"),
            Err(e) => {
                let ei: i32 = e.into();
                assert_eq!(ei as u32, EWOULDBLOCK);
            }
        };
    }
}

#[test]
fn accepted_connection_gets_a_socket_of_its_own() {
    let (sctp, _) = UsrSctp::new(Some(9899), 0);
    let mut listener = sctp.opened::<Ipv4>(true, 0x2000).unwrap();
    let peer = Ipv4::to_sockaddr(Ipv4Addr::new(192, 168, 7, 9), 40000);
    let (addr, port, child) = listener.accepted(0x3000, peer).unwrap();
    assert_eq!(addr, Ipv4Addr::new(192, 168, 7, 9));
    assert_eq!(port, 40000);
    assert_eq!(child.descriptor(), 0x3000);
    assert_eq!(child.is_one_to_many(), true);
    assert_eq!(listener.descriptor(), 0x2000);
    assert_eq!(child.close(), Call::Close { descriptor: 0x3000 });
    assert_eq!(listener.close(), Call::Close { descriptor: 0x2000 });

    let mut listener6 = sctp.opened::<Ipv6>(false, 0x2100).unwrap();
    let peer6 = Ipv6::to_sockaddr(Ipv6Addr::new(0xfe80, 0, 0, 0, 0, 0, 0, 0x42), 9);
    let (addr6, port6, child6) = listener6.accepted_with(0x3100, peer6, Errno(11)).unwrap();
    assert_eq!(addr6, Ipv6Addr::new(0xfe80, 0, 0, 0, 0, 0, 0, 0x42));
    assert_eq!(port6, 9);
    assert_eq!((child6.descriptor(), child6.is_one_to_many()), (0x3100, false));
    let failed = listener6.accepted_with(0, peer6, Errno(11));
    assert_eq!(failed.unwrap_err(), Errno(11));
}

#[test]
fn connect4() {
    let mut engine = Engine::new();
    let (sctp, _) = UsrSctp::new(Some(9899), 0);
    {
        let mut socket = engine.socket::<Ipv4>(&sctp, false);
        let call = socket.set_non_blocking(true);
        engine.status(call).unwrap();
        let call = socket.connect(Ipv4Addr::new(127, 0, 0, 1), 10000);
        assert_eq!(
            call,
            Call::Connect {
                descriptor: 0x2100,
                addr: Ipv4::to_sockaddr(Ipv4Addr::new(127, 0, 0, 1), 10000),
                addrlen: 16,
            }
        );
        match engine.status(call) {
            Ok(_) => (), // unlikely, but not a failure
            Err(e) => {
                assert!(e.is_in_progress());
                let ei: i32 = e.into();
                assert_eq!(ei as u32, EINPROGRESS);
            }
        }
    }
}

#[test]
fn connect6() {
    let mut engine = Engine::new();
    let (sctp, _) = UsrSctp::new(Some(9899), 0);
    {
        let mut socket = engine.socket::<Ipv6>(&sctp, false);
        let call = socket.set_non_blocking(true);
        engine.status(call).unwrap();
        let call = socket.connect(Ipv6Addr::new(0, 0, 0, 0, 0, 0, 0, 1), 10000);
        assert_eq!(
            call,
            Call::Connect {
                descriptor: 0x2100,
                addr: Ipv6::to_sockaddr(Ipv6Addr::new(0, 0, 0, 0, 0, 0, 0, 1), 10000),
                addrlen: 28,
            }
        );
        match engine.status(call) {
            Ok(_) => (), // unlikely, but not a failure
            Err(e) => {
                let ei: i32 = e.into();
                assert_eq!(ei as u32, EINPROGRESS);
            }
        }
    }
}

#[test]
fn connect_in_progress_is_an_error_of_its_own() {
    let mut engine = Engine::new();
    let (sctp, _) = UsrSctp::new(Some(9899), 0);
    let mut socket = engine.socket::<Ipv4>(&sctp, false);
    let call = socket.set_non_blocking(true);
    engine.status(call).unwrap();
    let call = socket.connect(Ipv4Addr::new(127, 0, 0, 1), 10000);
    assert_eq!(engine.status(call), Err(Errno(115)));
    // a blocking connect that succeeds
    let call = socket.set_non_blocking(false);
    engine.status(call).unwrap();
    let call = socket.connect(Ipv4Addr::new(127, 0, 0, 1), 10000);
    assert_eq!(engine.status(call), Ok(()));
}

#[test]
fn shutdown() {
    let mut engine = Engine::new();
    let (sctp, _) = UsrSctp::new(Some(9899), 0);
    {
        let mut socket = engine.socket::<Ipv6>(&sctp, false);
        let call = socket.set_non_blocking(true);
        engine.status(call).unwrap();
        let call = socket.connect(Ipv6Addr::new(0, 0, 0, 0, 0, 0, 0, 1), 10000);
        match engine.status(call) {
            Ok(_) => (), // unlikely, but not a failure
            Err(e) => {
                let ei: i32 = e.into();
                assert_eq!(ei as u32, EINPROGRESS);
            }
        }
        let call = socket.shutdown(Shutdown::RdWr);
        assert_eq!(call, Call::Shutdown { descriptor: 0x2100, how: 2 });
        engine.status(call).unwrap();
    }
}

#[test]
fn shutdown_directions() {
    let (sctp, _) = UsrSctp::new(None, 0);
    let mut socket = sctp.opened::<Ipv4>(false, 5).unwrap();
    assert_eq!(socket.shutdown(Shutdown::Rd), Call::Shutdown { descriptor: 5, how: 0 });
    assert_eq!(socket.shutdown(Shutdown::Wr), Call::Shutdown { descriptor: 5, how: 1 });
    assert_eq!(socket.shutdown(Shutdown::RdWr), Call::Shutdown { descriptor: 5, how: 2 });
    assert_eq!(Shutdown::Rd.how(), 0);
    assert_eq!(Shutdown::Wr.how(), 1);
    assert_eq!(Shutdown::RdWr.how(), 2);
}

#[test]
fn non_blocking() {
    let mut engine = Engine::new();
    let (sctp, _) = UsrSctp::new(Some(9899), 0);
    {
        let mut socket = engine.socket::<Ipv4>(&sctp, true);
        let call = socket.set_non_blocking(true);
        assert_eq!(call, Call::SetNonBlocking { descriptor: 0x2100, onoff: 1 });
        engine.status(call).unwrap();
        let call = socket.get_non_blocking();
        assert_eq!(call, Call::GetNonBlocking { descriptor: 0x2100 });
        assert_eq!(setting(engine.perform(call) as i32).unwrap(), true);
        let call = socket.set_non_blocking(false);
        assert_eq!(call, Call::SetNonBlocking { descriptor: 0x2100, onoff: 0 });
        engine.status(call).unwrap();
        let call = socket.get_non_blocking();
        assert_eq!(setting(engine.perform(call) as i32).unwrap(), false);
    }
}

#[test]
fn client_sends_five_bytes_to_server() {
    let mut engine = Engine::new();
    // two handles share the engine: the first initializes, the second waits
    let (server_engine, first) = UsrSctp::new(Some(9899), 0);
    let (client_engine, second) = UsrSctp::new(Some(9899), 1);
    assert_eq!(first, Startup::Initialize { port: 9899 });
    assert_eq!(second, Startup::AwaitReady);

    let mut server = engine.socket::<Ipv4>(&server_engine, false);
    let call = server.bind(Ipv4Addr::new(127, 0, 0, 1), 10000);
    engine.status(call).unwrap();
    let call = server.listen(8);
    engine.status(call).unwrap();

    let mut client = engine.socket::<Ipv4>(&client_engine, false);
    let call = client.connect(Ipv4Addr::new(127, 0, 0, 1), 10000);
    engine.status(call).unwrap();

    let info = rusrsctp::SndInfo {
        sid: 0,
        flags: rusrsctp::SctpFlags::from_bits(rusrsctp::flags::SCTP_EOF).unwrap(),
        ppid: 0,
        context: 0,
        assoc_id: 0,
    };
    let call = client.sendv(b"hello", None, Some(info), None, None, MsgFlags::empty());
    assert_eq!(
        call,
        Call::Sendv {
            descriptor: 0x2200,
            len: 5,
            to: None,
            addrcnt: 0,
            info: rusrsctp::SendvInfo::SndInfo(rusrsctp::SctpSndinfo {
                snd_sid: 0,
                snd_flags: 0x100,
                snd_ppid: 0,
                snd_context: 0,
                snd_assoc_id: 0,
            }),
            infolen: 16,
            infotype: 1,
            flags: 0,
        }
    );
    assert_eq!(count(engine.perform(call)), Ok(5));

    assert_eq!(client.close(), Call::Close { descriptor: 0x2200 });
    assert_eq!(server.close(), Call::Close { descriptor: 0x2100 });
    assert_eq!(client_engine.release(2), Teardown::Keep);
    assert_eq!(server_engine.release(1), Teardown::Finish);
}
