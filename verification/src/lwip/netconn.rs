use vstd::prelude::*;
use vstd::math::min;
use crate::lwip::pbuf::TcpPbuf;
use crate::lwip::native_ipv4_to_local;

pub mod error;
pub mod tcp;
pub mod udp;

use crate::lwip::netconn::error::NetconnErr;
use crate::lwip::netconn::error::netconn_err_of_code;
use crate::lwip::netconn::error::valid_netconn_code;

verus! {

/// The native status code that signals "cannot make progress without
/// blocking": a retry signal, not an error in the ordinary sense.
pub const ERR_WOULDBLOCK: i8 = -7;

/// One step of a cooperative-asynchronous connection operation: either
/// the operation finished with an outcome, or it would block and the
/// caller must suspend (yield back to its scheduler) and retry.
pub enum AsyncStep<T> {
    Ready(Result<T, NetconnErr>),
    Suspend,
}

/// Connection kinds, fixed at creation.
#[derive(Default, Debug, PartialEq, Eq, Clone, Copy, Structural)]
pub enum NetconnType {
    #[default]
    Tcp,
    TcpIpv6,
    Udp,
    UdpLite,
    UdpNoChecksum,
    UdpIpv6,
    UdpLiteIpv6,
    UdpNoChecksumIpv6,
    Raw,
    RawIpv6,
    Invalid,
}

impl NetconnType {
    /// The native encoding of this connection kind, bit-exact with the
    /// wrapped stack (an IPv6 variant sets bit 3).
    pub fn native_code(&self) -> (c: i32)
        ensures
            c == match *self {
                NetconnType::Tcp => 0x10i32,
                NetconnType::TcpIpv6 => 0x18i32,
                NetconnType::Udp => 0x20i32,
                NetconnType::UdpLite => 0x21i32,
                NetconnType::UdpNoChecksum => 0x22i32,
                NetconnType::UdpIpv6 => 0x28i32,
                NetconnType::UdpLiteIpv6 => 0x29i32,
                NetconnType::UdpNoChecksumIpv6 => 0x2ai32,
                NetconnType::Raw => 0x40i32,
                NetconnType::RawIpv6 => 0x48i32,
                NetconnType::Invalid => 0i32,
            },
    {
        match self {
            NetconnType::Tcp => 0x10,
            NetconnType::TcpIpv6 => 0x18,
            NetconnType::Udp => 0x20,
            NetconnType::UdpLite => 0x21,
            NetconnType::UdpNoChecksum => 0x22,
            NetconnType::UdpIpv6 => 0x28,
            NetconnType::UdpLiteIpv6 => 0x29,
            NetconnType::UdpNoChecksumIpv6 => 0x2a,
            NetconnType::Raw => 0x40,
            NetconnType::RawIpv6 => 0x48,
            NetconnType::Invalid => 0,
        }
    }
}

/// A streaming connection over a native bidirectional handle.
///
/// The handle slot's "present vs. absent" state is the open flag: taking
/// the handle marks the connection permanently closed, and every later
/// operation fails with the `Clsd` error. The native calls themselves
/// are issued by the owner, which hands each native status code (and any
/// received buffer chain) into these functions; each function makes the
/// full decision the adapter owes for that operation.
pub struct Netconn {
    conn: Option<u64>,
    conn_type: NetconnType,
    nonblocking: bool,
}

impl Netconn {
    /// True while this connection still owns its native handle.
    pub closed spec fn is_open(&self) -> bool {
        self.conn is Some
    }

    /// The native handle token, meaningful only while open.
    pub closed spec fn spec_conn(&self) -> u64 {
        self.conn->0
    }

    /// The connection kind, fixed at creation.
    pub closed spec fn spec_type(&self) -> NetconnType {
        self.conn_type
    }

    /// The non-blocking flag.
    pub closed spec fn spec_nonblocking(&self) -> bool {
        self.nonblocking
    }

    /// Wraps the handle the native layer created for a new connection,
    /// or reports the out-of-memory error if creation returned the null
    /// handle (encoded 0).
    pub fn new(netconn_type: NetconnType, raw_conn: u64) -> (r: Result<Self, NetconnErr>)
        ensures
            raw_conn == 0 ==> r == Err::<Netconn, NetconnErr>(NetconnErr::Mem),
            raw_conn != 0 ==> (r matches Ok(c) && c.is_open() && c.spec_conn() == raw_conn
                && c.spec_type() == netconn_type && !c.spec_nonblocking()),
    {
        if raw_conn == 0 {
            return Err(NetconnErr::Mem);
        }
        Ok(Self { conn: Some(raw_conn), conn_type: netconn_type, nonblocking: false })
    }

    /// Returns the wrapped handle, or `Clsd` once it has been taken.
    pub fn get_inner(&self) -> (r: Result<u64, NetconnErr>)
        ensures
            self.is_open() ==> r == Ok::<u64, NetconnErr>(self.spec_conn()),
            !self.is_open() ==> r == Err::<u64, NetconnErr>(NetconnErr::Clsd),
    {
        match self.conn {
            Some(c) => Ok(c),
            None => Err(NetconnErr::Clsd),
        }
    }

    /// The non-blocking flag, for the owner to honor in its native
    /// calls.
    pub fn nonblocking(&self) -> (v: bool)
        ensures
            v == self.spec_nonblocking(),
    {
        self.nonblocking
    }

    /// Maps the outcome of the native local-or-peer address query: the
    /// address as the native word together with the port.
    pub fn getaddr_native(&self, result: i8, ip: u32, port: u16) -> (r: Result<
        (u32, u16),
        NetconnErr,
    >)
        requires
            self.is_open() ==> valid_netconn_code(result as int),
        ensures
            !self.is_open() ==> r == Err::<(u32, u16), NetconnErr>(NetconnErr::Clsd),
            self.is_open() && result == 0 ==> r == Ok::<(u32, u16), NetconnErr>((ip, port)),
            self.is_open() && result != 0 ==> r == Err::<(u32, u16), NetconnErr>(
                netconn_err_of_code(result as int),
            ),
    {
        if self.conn.is_none() {
            return Err(NetconnErr::Clsd);
        }
        if result != 0 {
            return Err(NetconnErr::from_code(result as i32));
        }
        Ok((ip, port))
    }

    /// The remote peer's IPv4 address, as octets, with the port; from
    /// the native query's outcome.
    pub fn peer(&self, result: i8, ip: u32, port: u16) -> (r: Result<
        ((u8, u8, u8, u8), u16),
        NetconnErr,
    >)
        requires
            self.is_open() ==> valid_netconn_code(result as int),
        ensures
            !self.is_open() ==> r == Err::<((u8, u8, u8, u8), u16), NetconnErr>(NetconnErr::Clsd),
            self.is_open() && result != 0 ==> r == Err::<((u8, u8, u8, u8), u16), NetconnErr>(
                netconn_err_of_code(result as int),
            ),
            self.is_open() && result == 0 ==> (r matches Ok(ap) && ap.1 == port && ap.0.0 == ip
                % 256 && ap.0.1 == (ip / 0x100) % 256 && ap.0.2 == (ip / 0x10000) % 256 && ap.0.3
                == (ip / 0x1000000) % 256),
    {
        let (native_ip, native_port) = self.getaddr_native(result, ip, port)?;
        Ok((native_ipv4_to_local(native_ip), native_port))
    }

    /// The local IPv4 address, as octets, with the port; from the native
    /// query's outcome.
    pub fn addr(&self, result: i8, ip: u32, port: u16) -> (r: Result<
        ((u8, u8, u8, u8), u16),
        NetconnErr,
    >)
        requires
            self.is_open() ==> valid_netconn_code(result as int),
        ensures
            !self.is_open() ==> r == Err::<((u8, u8, u8, u8), u16), NetconnErr>(NetconnErr::Clsd),
            self.is_open() && result != 0 ==> r == Err::<((u8, u8, u8, u8), u16), NetconnErr>(
                netconn_err_of_code(result as int),
            ),
            self.is_open() && result == 0 ==> (r matches Ok(ap) && ap.1 == port && ap.0.0 == ip
                % 256 && ap.0.1 == (ip / 0x100) % 256 && ap.0.2 == (ip / 0x10000) % 256 && ap.0.3
                == (ip / 0x1000000) % 256),
    {
        let (native_ip, native_port) = self.getaddr_native(result, ip, port)?;
        Ok((native_ipv4_to_local(native_ip), native_port))
    }

    /// Maps the outcome of the native teardown that frees a connection's
    /// resources but keeps the handle itself.
    pub fn prepare_delete(&self, result: i8) -> (r: Result<(), NetconnErr>)
        requires
            self.is_open() ==> valid_netconn_code(result as int),
        ensures
            !self.is_open() ==> r == Err::<(), NetconnErr>(NetconnErr::Clsd),
            self.is_open() && result == 0 ==> r is Ok,
            self.is_open() && result != 0 ==> r == Err::<(), NetconnErr>(
                netconn_err_of_code(result as int),
            ),
    {
        if self.conn.is_none() {
            return Err(NetconnErr::Clsd);
        }
        if result != 0 {
            return Err(NetconnErr::from_code(result as i32));
        }
        Ok(())
    }

    /// Takes the handle out for release. The first call on an open
    /// connection returns the handle, which the owner must delete
    /// natively; every later call returns nothing and changes nothing,
    /// so the native handle can never be released twice. Every
    /// subsequent operation on this connection reports `Clsd`.
    pub fn delete(&mut self) -> (taken: Option<u64>)
        ensures
            !final(self).is_open(),
            old(self).is_open() ==> taken == Some(old(self).spec_conn()),
            !old(self).is_open() ==> taken is None,
            final(self).spec_type() == old(self).spec_type(),
    {
        self.conn.take()
    }

    /// Maps the outcome of binding to a local port.
    pub fn bind(&mut self, port: u16, result: i8) -> (r: Result<(), NetconnErr>)
        requires
            old(self).is_open() ==> valid_netconn_code(result as int),
        ensures
            *final(self) == *old(self),
            !old(self).is_open() ==> r == Err::<(), NetconnErr>(NetconnErr::Clsd),
            old(self).is_open() && result == 0 ==> r is Ok,
            old(self).is_open() && result != 0 ==> r == Err::<(), NetconnErr>(
                netconn_err_of_code(result as int),
            ),
    {
        let _ = port;
        if self.conn.is_none() {
            return Err(NetconnErr::Clsd);
        }
        if result != 0 {
            return Err(NetconnErr::from_code(result as i32));
        }
        Ok(())
    }

    /// Maps the outcome of binding to one local IPv4 address and port.
    pub fn bind_to(&mut self, ip: (u8, u8, u8, u8), port: u16, result: i8) -> (r: Result<
        (),
        NetconnErr,
    >)
        requires
            old(self).is_open() ==> valid_netconn_code(result as int),
        ensures
            *final(self) == *old(self),
            !old(self).is_open() ==> r == Err::<(), NetconnErr>(NetconnErr::Clsd),
            old(self).is_open() && result == 0 ==> r is Ok,
            old(self).is_open() && result != 0 ==> r == Err::<(), NetconnErr>(
                netconn_err_of_code(result as int),
            ),
    {
        let _ = ip;
        let _ = port;
        if self.conn.is_none() {
            return Err(NetconnErr::Clsd);
        }
        if result != 0 {
            return Err(NetconnErr::from_code(result as i32));
        }
        Ok(())
    }

    /// Maps the outcome of connecting to a remote IPv4 address and port.
    pub fn connect(&mut self, addr: (u8, u8, u8, u8), port: u16, result: i8) -> (r: Result<
        (),
        NetconnErr,
    >)
        requires
            old(self).is_open() ==> valid_netconn_code(result as int),
        ensures
            *final(self) == *old(self),
            !old(self).is_open() ==> r == Err::<(), NetconnErr>(NetconnErr::Clsd),
            old(self).is_open() && result == 0 ==> r is Ok,
            old(self).is_open() && result != 0 ==> r == Err::<(), NetconnErr>(
                netconn_err_of_code(result as int),
            ),
    {
        let _ = addr;
        let _ = port;
        if self.conn.is_none() {
            return Err(NetconnErr::Clsd);
        }
        if result != 0 {
            return Err(NetconnErr::from_code(result as i32));
        }
        Ok(())
    }

    /// Maps the code of the native pending-error query; a released
    /// connection reports `Clsd` without any query.
    pub fn err(&self, pending: i8) -> (e: NetconnErr)
        requires
            self.is_open() ==> valid_netconn_code(pending as int),
        ensures
            !self.is_open() ==> e == NetconnErr::Clsd,
            self.is_open() ==> e == netconn_err_of_code(pending as int),
    {
        if self.conn.is_none() {
            return NetconnErr::Clsd;
        }
        NetconnErr::from_code(pending as i32)
    }

    /// Sets the non-blocking flag to the given value; the owner mirrors
    /// it into the native flags. Setting the same value twice changes
    /// nothing further.
    pub fn set_nonblocking(&mut self, value: bool) -> (r: Result<(), NetconnErr>)
        ensures
            !old(self).is_open() ==> r == Err::<(), NetconnErr>(NetconnErr::Clsd) && *final(self)
                == *old(self),
            old(self).is_open() ==> r is Ok && final(self).spec_nonblocking() == value,
            final(self).is_open() == old(self).is_open(),
            final(self).spec_conn() == old(self).spec_conn(),
            final(self).spec_type() == old(self).spec_type(),
    {
        if self.conn.is_none() {
            return Err(NetconnErr::Clsd);
        }
        self.nonblocking = value;
        Ok(())
    }

    /// Puts a TCP connection into listen mode. The native call's result
    /// is not consulted, matching the adapter's contract for this
    /// operation.
    pub fn listen(&mut self) -> (r: Result<(), NetconnErr>)
        ensures
            *final(self) == *old(self),
            !old(self).is_open() ==> r == Err::<(), NetconnErr>(NetconnErr::Clsd),
            old(self).is_open() ==> r is Ok,
    {
        if self.conn.is_none() {
            return Err(NetconnErr::Clsd);
        }
        Ok(())
    }

    /// Maps the outcome of accepting one connection on a listening
    /// handle: a new connection of the same kind around the handle the
    /// native layer produced, or — when the native layer reports success
    /// with a null handle (encoded 0) — "no connection yet" rather than
    /// an error.
    pub fn accept(&mut self, result: i8, new_conn_raw: u64) -> (r: Result<
        Option<Netconn>,
        NetconnErr,
    >)
        requires
            old(self).is_open() ==> valid_netconn_code(result as int),
        ensures
            *final(self) == *old(self),
            !old(self).is_open() ==> r == Err::<Option<Netconn>, NetconnErr>(NetconnErr::Clsd),
            old(self).is_open() && result != 0 ==> r == Err::<Option<Netconn>, NetconnErr>(
                netconn_err_of_code(result as int),
            ),
            old(self).is_open() && result == 0 && new_conn_raw == 0 ==> (r matches Ok(c)
                && c is None),
            old(self).is_open() && result == 0 && new_conn_raw != 0 ==> (r matches Ok(c)
                && c matches Some(conn) && conn.is_open() && conn.spec_conn() == new_conn_raw
                && conn.spec_type() == old(self).spec_type() && !conn.spec_nonblocking()),
    {
        if self.conn.is_none() {
            return Err(NetconnErr::Clsd);
        }
        if result != 0 {
            return Err(NetconnErr::from_code(result as i32));
        }
        if new_conn_raw == 0 {
            return Ok(None);
        }
        Ok(
            Some(
                Netconn { conn: Some(new_conn_raw), conn_type: self.conn_type, nonblocking: false },
            ),
        )
    }

    /// Maps the outcome of one native receive: the buffer chain of the
    /// receive event, the error the native layer reported, or the
    /// out-of-memory error when success came with no chain.
    pub fn read_no_copy(&mut self, result: i8, chain: Option<TcpPbuf>) -> (r: Result<
        TcpPbuf,
        NetconnErr,
    >)
        requires
            old(self).is_open() ==> valid_netconn_code(result as int),
        ensures
            *final(self) == *old(self),
            !old(self).is_open() ==> (r matches Err(e) && e == NetconnErr::Clsd),
            old(self).is_open() && result != 0 ==> (r matches Err(e) && e == netconn_err_of_code(
                result as int,
            )),
            old(self).is_open() && result == 0 && chain is None ==> (r matches Err(e) && e
                == NetconnErr::Mem),
            old(self).is_open() && result == 0 && chain is Some ==> (r matches Ok(p) && p
                == chain->0),
    {
        if self.conn.is_none() {
            return Err(NetconnErr::Clsd);
        }
        if result != 0 {
            return Err(NetconnErr::from_code(result as i32));
        }
        match chain {
            None => Err(NetconnErr::Mem),
            Some(p) => Ok(p),
        }
    }

    /// Takes the handle out for a combined teardown: the owner closes
    /// and then deletes it natively. A second call finds nothing and
    /// frees nothing.
    pub fn close_and_delete(&mut self) -> (taken: Option<u64>)
        ensures
            !final(self).is_open(),
            old(self).is_open() ==> taken == Some(old(self).spec_conn()),
            !old(self).is_open() ==> taken is None,
            final(self).spec_type() == old(self).spec_type(),
    {
        self.conn.take()
    }

    /// Takes the handle out for protocol-level close. A second call
    /// finds nothing and frees nothing.
    pub fn close(&mut self) -> (taken: Option<u64>)
        ensures
            !final(self).is_open(),
            old(self).is_open() ==> taken == Some(old(self).spec_conn()),
            !old(self).is_open() ==> taken is None,
            final(self).spec_type() == old(self).spec_type(),
    {
        self.conn.take()
    }

    /// Maps the outcome of one native send attempt: the byte count the
    /// native layer accepted, or its error.
    pub fn write(&mut self, buf: &Vec<u8>, result: i8, bytes_written: usize) -> (r: Result<
        usize,
        NetconnErr,
    >)
        requires
            old(self).is_open() ==> valid_netconn_code(result as int),
            result == 0 ==> bytes_written <= buf@.len(),
        ensures
            *final(self) == *old(self),
            !old(self).is_open() ==> r == Err::<usize, NetconnErr>(NetconnErr::Clsd),
            old(self).is_open() && result != 0 ==> r == Err::<usize, NetconnErr>(
                netconn_err_of_code(result as int),
            ),
            old(self).is_open() && result == 0 ==> r == Ok::<usize, NetconnErr>(bytes_written),
    {
        let _ = buf;
        if self.conn.is_none() {
            return Err(NetconnErr::Clsd);
        }
        if result != 0 {
            return Err(NetconnErr::from_code(result as i32));
        }
        Ok(bytes_written)
    }

    /// The copying read: takes the buffer chain of one native receive
    /// and drains it into `buf`, freeing the chain in the same call. If
    /// the destination fills before the chain is drained, the remainder
    /// is discarded; callers needing lossless large transfers must
    /// consume the chain through `read_no_copy` instead.
    pub fn read(&mut self, buf: &mut Vec<u8>, result: i8, chain: Option<TcpPbuf>) -> (r: Result<
        usize,
        NetconnErr,
    >)
        requires
            old(self).is_open() ==> valid_netconn_code(result as int),
            chain matches Some(p) ==> !p.is_disposed(),
        ensures
            *final(self) == *old(self),
            final(buf)@.len() == old(buf)@.len(),
            !old(self).is_open() ==> r == Err::<usize, NetconnErr>(NetconnErr::Clsd) && final(buf)@
                == old(buf)@,
            old(self).is_open() && result != 0 ==> r == Err::<usize, NetconnErr>(
                netconn_err_of_code(result as int),
            ) && final(buf)@ == old(buf)@,
            old(self).is_open() && result == 0 && chain is None ==> r == Err::<usize, NetconnErr>(
                NetconnErr::Mem,
            ) && final(buf)@ == old(buf)@,
            old(self).is_open() && result == 0 ==> (chain matches Some(p) ==> (r matches Ok(n) && n
                == min(old(buf)@.len() as int, p.readable().len() as int) && final(buf)@
                == p.readable().take(n as int) + old(buf)@.skip(n as int))),
    {
        let mut pbuf = self.read_no_copy(result, chain)?;
        let n = pbuf.read_into(buf);
        Ok(n)
    }
}

} // verus!
