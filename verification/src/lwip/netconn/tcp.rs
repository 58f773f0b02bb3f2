use vstd::prelude::*;
use vstd::math::min;
use crate::lwip::netconn::AsyncStep;
use crate::lwip::netconn::ERR_WOULDBLOCK;
use crate::lwip::netconn::error::NetconnErr;
use crate::lwip::netconn::error::netconn_err_of_code;
use crate::lwip::netconn::error::valid_netconn_code;
use crate::lwip::pbuf::TcpPbuf;

verus! {

/// TCP connection kinds.
#[derive(Default, Debug, PartialEq, Eq, Clone, Copy, Structural)]
pub enum NetconnTcpType {
    #[default]
    Tcp,
    TcpIpv6,
}

impl NetconnTcpType {
    /// The native encoding of this kind.
    pub fn native_code(&self) -> (c: i32)
        ensures
            c == match *self {
                NetconnTcpType::Tcp => 0x10i32,
                NetconnTcpType::TcpIpv6 => 0x18i32,
            },
    {
        match self {
            NetconnTcpType::Tcp => 0x10,
            NetconnTcpType::TcpIpv6 => 0x18,
        }
    }
}

/// A TCP streaming connection over a native handle.
///
/// The handle slot's "present vs. absent" state is the open flag: taking
/// the handle marks the connection permanently closed, and every later
/// operation fails with the `Clsd` error. The native calls are issued by
/// the owner, which hands each outcome into these functions.
///
/// Synchronous operations map one native call onto the error taxonomy.
/// The cooperative-asynchronous variants first force the non-blocking
/// flag, then step: a would-block outcome suspends (the caller yields to
/// its scheduler and retries), success or any other error finishes the
/// operation. Nothing bounds these loops but the caller.
#[derive(Debug)]
pub struct NetconnTcp {
    conn: Option<u64>,
    conn_type: NetconnTcpType,
    nonblocking: bool,
}

impl NetconnTcp {
    /// True while this connection still owns its native handle.
    pub closed spec fn is_open(&self) -> bool {
        self.conn is Some
    }

    /// The native handle token, meaningful only while open.
    pub closed spec fn spec_conn(&self) -> u64 {
        self.conn->0
    }

    /// The connection kind, fixed at creation.
    pub closed spec fn spec_type(&self) -> NetconnTcpType {
        self.conn_type
    }

    /// The non-blocking flag.
    pub closed spec fn spec_nonblocking(&self) -> bool {
        self.nonblocking
    }

    /// Wraps the handle the native layer created for a new TCP
    /// connection, or reports the out-of-memory error if creation
    /// returned the null handle (encoded 0).
    pub fn new(netconn_tcp_type: NetconnTcpType, raw_conn: u64) -> (r: Result<Self, NetconnErr>)
        ensures
            raw_conn == 0 ==> r == Err::<NetconnTcp, NetconnErr>(NetconnErr::Mem),
            raw_conn != 0 ==> (r matches Ok(c) && c.is_open() && c.spec_conn() == raw_conn
                && c.spec_type() == netconn_tcp_type && !c.spec_nonblocking()),
    {
        if raw_conn == 0 {
            return Err(NetconnErr::Mem);
        }
        Ok(Self { conn: Some(raw_conn), conn_type: netconn_tcp_type, nonblocking: false })
    }

    /// Returns the wrapped handle, or `Clsd` once it has been taken.
    pub fn get_inner(&self) -> (r: Result<u64, NetconnErr>)
        ensures
            self.is_open() ==> r == Ok::<u64, NetconnErr>(self.spec_conn()),
            !self.is_open() ==> r == Err::<u64, NetconnErr>(NetconnErr::Clsd),
    {
        match self.conn {
            Some(c) => Ok(c),
            None => Err(NetconnErr::Clsd),
        }
    }

    /// The connection kind.
    pub fn get_type(&self) -> (t: NetconnTcpType)
        ensures
            t == self.spec_type(),
    {
        self.conn_type
    }

    /// The non-blocking flag, for the owner to honor in its native
    /// calls.
    pub fn nonblocking(&self) -> (v: bool)
        ensures
            v == self.spec_nonblocking(),
    {
        self.nonblocking
    }

    /// Takes the handle out for release; see `close_and_delete`. A
    /// second call finds nothing and frees nothing.
    pub fn delete(&mut self) -> (taken: Option<u64>)
        ensures
            !final(self).is_open(),
            old(self).is_open() ==> taken == Some(old(self).spec_conn()),
            !old(self).is_open() ==> taken is None,
            final(self).spec_type() == old(self).spec_type(),
    {
        self.conn.take()
    }

    /// Sets the non-blocking flag to the given value; the owner mirrors
    /// it into the native flags. Setting the same value twice changes
    /// nothing further.
    pub fn set_nonblocking(&mut self, value: bool) -> (r: Result<(), NetconnErr>)
        ensures
            !old(self).is_open() ==> r == Err::<(), NetconnErr>(NetconnErr::Clsd) && *final(self)
                == *old(self),
            old(self).is_open() ==> r is Ok && final(self).spec_nonblocking() == value,
            final(self).is_open() == old(self).is_open(),
            final(self).spec_conn() == old(self).spec_conn(),
            final(self).spec_type() == old(self).spec_type(),
    {
        if self.conn.is_none() {
            return Err(NetconnErr::Clsd);
        }
        self.nonblocking = value;
        Ok(())
    }

    /// Puts the connection into listen mode. The native call's result is
    /// not consulted, matching the adapter's contract for this
    /// operation.
    pub fn listen(&mut self) -> (r: Result<(), NetconnErr>)
        ensures
            *final(self) == *old(self),
            !old(self).is_open() ==> r == Err::<(), NetconnErr>(NetconnErr::Clsd),
            old(self).is_open() ==> r is Ok,
    {
        if self.conn.is_none() {
            return Err(NetconnErr::Clsd);
        }
        Ok(())
    }

    /// Maps the outcome of accepting one connection on a listening
    /// handle: a new connection of the same kind around the handle the
    /// native layer produced, or — when the native layer reports success
    /// with a null handle (encoded 0) — "no connection yet" rather than
    /// an error.
    pub fn accept(&mut self, result: i8, new_conn_raw: u64) -> (r: Result<
        Option<NetconnTcp>,
        NetconnErr,
    >)
        requires
            old(self).is_open() ==> valid_netconn_code(result as int),
        ensures
            *final(self) == *old(self),
            !old(self).is_open() ==> r == Err::<Option<NetconnTcp>, NetconnErr>(NetconnErr::Clsd),
            old(self).is_open() && result != 0 ==> r == Err::<Option<NetconnTcp>, NetconnErr>(
                netconn_err_of_code(result as int),
            ),
            old(self).is_open() && result == 0 && new_conn_raw == 0 ==> (r matches Ok(c)
                && c is None),
            old(self).is_open() && result == 0 && new_conn_raw != 0 ==> (r matches Ok(c)
                && c matches Some(conn) && conn.is_open() && conn.spec_conn() == new_conn_raw
                && conn.spec_type() == old(self).spec_type() && !conn.spec_nonblocking()),
    {
        if self.conn.is_none() {
            return Err(NetconnErr::Clsd);
        }
        if result != 0 {
            return Err(NetconnErr::from_code(result as i32));
        }
        if new_conn_raw == 0 {
            return Ok(None);
        }
        Ok(
            Some(
                NetconnTcp {
                    conn: Some(new_conn_raw),
                    conn_type: self.conn_type,
                    nonblocking: false,
                },
            ),
        )
    }

    /// Maps the outcome of one native receive: the buffer chain of the
    /// receive event, the error the native layer reported, or the
    /// out-of-memory error when success came with no chain. An error
    /// need not mean a network fault: with the non-blocking flag set it
    /// is the would-block retry signal whenever no data has arrived yet.
    pub fn read_no_copy(&mut self, result: i8, chain: Option<TcpPbuf>) -> (r: Result<
        TcpPbuf,
        NetconnErr,
    >)
        requires
            old(self).is_open() ==> valid_netconn_code(result as int),
        ensures
            *final(self) == *old(self),
            !old(self).is_open() ==> (r matches Err(e) && e == NetconnErr::Clsd),
            old(self).is_open() && result != 0 ==> (r matches Err(e) && e == netconn_err_of_code(
                result as int,
            )),
            old(self).is_open() && result == 0 && chain is None ==> (r matches Err(e) && e
                == NetconnErr::Mem),
            old(self).is_open() && result == 0 && chain is Some ==> (r matches Ok(p) && p
                == chain->0),
    {
        if self.conn.is_none() {
            return Err(NetconnErr::Clsd);
        }
        if result != 0 {
            return Err(NetconnErr::from_code(result as i32));
        }
        match chain {
            None => Err(NetconnErr::Mem),
            Some(p) => Ok(p),
        }
    }

    /// Begins the cooperative-asynchronous receive: forces the
    /// non-blocking flag on, so that each attempt reports would-block
    /// instead of blocking.
    pub fn read_no_copy_async_begin(&mut self) -> (r: Result<(), NetconnErr>)
        ensures
            !old(self).is_open() ==> r == Err::<(), NetconnErr>(NetconnErr::Clsd) && *final(self)
                == *old(self),
            old(self).is_open() ==> r is Ok && final(self).spec_nonblocking(),
            final(self).is_open() == old(self).is_open(),
            final(self).spec_conn() == old(self).spec_conn(),
            final(self).spec_type() == old(self).spec_type(),
    {
        self.set_nonblocking(true)
    }

    /// One step of the cooperative-asynchronous receive. A would-block
    /// outcome suspends — the caller yields to its scheduler and retries
    /// later; success and every other error finish the operation at
    /// once. The step itself never blocks and never swallows an error.
    pub fn read_no_copy_async_step(&mut self, result: i8, chain: Option<TcpPbuf>) -> (step:
        AsyncStep<TcpPbuf>)
        requires
            old(self).is_open() ==> valid_netconn_code(result as int),
        ensures
            *final(self) == *old(self),
            !old(self).is_open() ==> (step matches AsyncStep::Ready(r) && r matches Err(e) && e
                == NetconnErr::Clsd),
            old(self).is_open() && result == ERR_WOULDBLOCK ==> step is Suspend,
            old(self).is_open() && result != 0 && result != ERR_WOULDBLOCK ==> (step matches
                AsyncStep::Ready(r) && r matches Err(e) && e == netconn_err_of_code(result as int)),
            old(self).is_open() && result == 0 && chain is None ==> (step matches AsyncStep::Ready(
                r,
            ) && r matches Err(e) && e == NetconnErr::Mem),
            old(self).is_open() && result == 0 && chain is Some ==> (step matches AsyncStep::Ready(
                r,
            ) && r matches Ok(p) && p == chain->0),
    {
        if self.conn.is_some() && result == ERR_WOULDBLOCK {
            return AsyncStep::Suspend;
        }
        AsyncStep::Ready(self.read_no_copy(result, chain))
    }

    /// Maps the outcome of shutting down the receive side, the send
    /// side, or both, without releasing the handle.
    pub fn shutdown(&self, rx_side: bool, tx_side: bool, result: i8) -> (r: Result<(), NetconnErr>)
        requires
            self.is_open() ==> valid_netconn_code(result as int),
        ensures
            !self.is_open() ==> r == Err::<(), NetconnErr>(NetconnErr::Clsd),
            self.is_open() && result == 0 ==> r is Ok,
            self.is_open() && result != 0 ==> r == Err::<(), NetconnErr>(
                netconn_err_of_code(result as int),
            ),
    {
        let _ = rx_side;
        let _ = tx_side;
        if self.conn.is_none() {
            return Err(NetconnErr::Clsd);
        }
        if result != 0 {
            return Err(NetconnErr::from_code(result as i32));
        }
        Ok(())
    }

    /// Maps the outcome of the protocol-level close. The handle is kept:
    /// close and delete are separate steps of the teardown.
    pub fn close(&mut self, result: i8) -> (r: Result<(), NetconnErr>)
        requires
            old(self).is_open() ==> valid_netconn_code(result as int),
        ensures
            *final(self) == *old(self),
            !old(self).is_open() ==> r == Err::<(), NetconnErr>(NetconnErr::Clsd),
            old(self).is_open() && result == 0 ==> r is Ok,
            old(self).is_open() && result != 0 ==> r == Err::<(), NetconnErr>(
                netconn_err_of_code(result as int),
            ),
    {
        if self.conn.is_none() {
            return Err(NetconnErr::Clsd);
        }
        if result != 0 {
            return Err(NetconnErr::from_code(result as i32));
        }
        Ok(())
    }

    /// Takes the handle out for the combined teardown: the owner closes
    /// it natively best-effort (a close failure is ignored) and then
    /// always deletes it. The first call on an open connection returns
    /// the handle; every later call returns nothing and changes nothing,
    /// so the native handle can never be released twice.
    pub fn close_and_delete(&mut self) -> (taken: Option<u64>)
        ensures
            !final(self).is_open(),
            old(self).is_open() ==> taken == Some(old(self).spec_conn()),
            !old(self).is_open() ==> taken is None,
            final(self).spec_type() == old(self).spec_type(),
    {
        self.conn.take()
    }

    /// Maps the outcome of one native send attempt: the byte count the
    /// native layer accepted, or its error.
    pub fn write(&mut self, buf: &Vec<u8>, result: i8, bytes_written: usize) -> (r: Result<
        usize,
        NetconnErr,
    >)
        requires
            old(self).is_open() ==> valid_netconn_code(result as int),
            result == 0 ==> bytes_written <= buf@.len(),
        ensures
            *final(self) == *old(self),
            !old(self).is_open() ==> r == Err::<usize, NetconnErr>(NetconnErr::Clsd),
            old(self).is_open() && result != 0 ==> r == Err::<usize, NetconnErr>(
                netconn_err_of_code(result as int),
            ),
            old(self).is_open() && result == 0 ==> r == Ok::<usize, NetconnErr>(bytes_written),
    {
        let _ = buf;
        if self.conn.is_none() {
            return Err(NetconnErr::Clsd);
        }
        if result != 0 {
            return Err(NetconnErr::from_code(result as i32));
        }
        Ok(bytes_written)
    }

    /// Begins the cooperative-asynchronous send: forces the non-blocking
    /// flag on.
    pub fn write_async_begin(&mut self) -> (r: Result<(), NetconnErr>)
        ensures
            !old(self).is_open() ==> r == Err::<(), NetconnErr>(NetconnErr::Clsd) && *final(self)
                == *old(self),
            old(self).is_open() ==> r is Ok && final(self).spec_nonblocking(),
            final(self).is_open() == old(self).is_open(),
            final(self).spec_conn() == old(self).spec_conn(),
            final(self).spec_type() == old(self).spec_type(),
    {
        self.set_nonblocking(true)
    }

    /// One step of the cooperative-asynchronous send. A would-block
    /// outcome suspends — the caller yields to its scheduler and retries
    /// later; success finishes the operation with the byte count the
    /// native layer accepted, and every other error finishes it at once.
    pub fn write_async_step(&mut self, buf: &Vec<u8>, result: i8, bytes_written: usize) -> (step:
        AsyncStep<usize>)
        requires
            old(self).is_open() ==> valid_netconn_code(result as int),
            result == 0 ==> bytes_written <= buf@.len(),
        ensures
            *final(self) == *old(self),
            !old(self).is_open() ==> (step matches AsyncStep::Ready(r) && r matches Err(e) && e
                == NetconnErr::Clsd),
            old(self).is_open() && result == ERR_WOULDBLOCK ==> step is Suspend,
            old(self).is_open() && result != 0 && result != ERR_WOULDBLOCK ==> (step matches
                AsyncStep::Ready(r) && r matches Err(e) && e == netconn_err_of_code(result as int)),
            old(self).is_open() && result == 0 ==> (step matches AsyncStep::Ready(r) && r matches
                Ok(n) && n == bytes_written),
    {
        if self.conn.is_some() && result == ERR_WOULDBLOCK {
            return AsyncStep::Suspend;
        }
        AsyncStep::Ready(self.write(buf, result, bytes_written))
    }

    /// The copying read: takes the buffer chain of one native receive
    /// and drains it into `buf`, freeing the chain in the same call. If
    /// the destination fills before the chain is drained, the remainder
    /// is discarded; callers needing lossless large transfers must
    /// consume the chain through `read_no_copy` instead.
    pub fn read(&mut self, buf: &mut Vec<u8>, result: i8, chain: Option<TcpPbuf>) -> (r: Result<
        usize,
        NetconnErr,
    >)
        requires
            old(self).is_open() ==> valid_netconn_code(result as int),
            chain matches Some(p) ==> !p.is_disposed(),
        ensures
            *final(self) == *old(self),
            final(buf)@.len() == old(buf)@.len(),
            !old(self).is_open() ==> r == Err::<usize, NetconnErr>(NetconnErr::Clsd) && final(buf)@
                == old(buf)@,
            old(self).is_open() && result != 0 ==> r == Err::<usize, NetconnErr>(
                netconn_err_of_code(result as int),
            ) && final(buf)@ == old(buf)@,
            old(self).is_open() && result == 0 && chain is None ==> r == Err::<usize, NetconnErr>(
                NetconnErr::Mem,
            ) && final(buf)@ == old(buf)@,
            old(self).is_open() && result == 0 ==> (chain matches Some(p) ==> (r matches Ok(n) && n
                == min(old(buf)@.len() as int, p.readable().len() as int) && final(buf)@
                == p.readable().take(n as int) + old(buf)@.skip(n as int))),
    {
        let mut pbuf = self.read_no_copy(result, chain)?;
        let n = pbuf.read_into(buf);
        Ok(n)
    }
}

} // verus!
