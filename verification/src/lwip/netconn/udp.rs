use vstd::prelude::*;
use crate::lwip::netconn::error::NetconnErr;
use crate::lwip::netconn::error::netconn_err_of_code;
use crate::lwip::netconn::error::valid_netconn_code;

verus! {

/// UDP connection kinds.
#[derive(Default, Debug, PartialEq, Eq, Clone, Copy, Structural)]
pub enum NetconnUdpType {
    #[default]
    Udp,
    UdpLite,
    UdpNoChecksum,
    UdpIpv6,
    UdpLiteIpv6,
    UdpNoChecksumIpv6,
}

impl NetconnUdpType {
    /// The native encoding of this kind.
    pub fn native_code(&self) -> (c: i32)
        ensures
            c == match *self {
                NetconnUdpType::Udp => 0x20i32,
                NetconnUdpType::UdpLite => 0x21i32,
                NetconnUdpType::UdpNoChecksum => 0x22i32,
                NetconnUdpType::UdpIpv6 => 0x28i32,
                NetconnUdpType::UdpLiteIpv6 => 0x29i32,
                NetconnUdpType::UdpNoChecksumIpv6 => 0x2ai32,
            },
    {
        match self {
            NetconnUdpType::Udp => 0x20,
            NetconnUdpType::UdpLite => 0x21,
            NetconnUdpType::UdpNoChecksum => 0x22,
            NetconnUdpType::UdpIpv6 => 0x28,
            NetconnUdpType::UdpLiteIpv6 => 0x29,
            NetconnUdpType::UdpNoChecksumIpv6 => 0x2a,
        }
    }
}

/// A UDP connection over a native handle. The handle slot's "present
/// vs. absent" state is the open flag: taking the handle marks the
/// connection permanently closed, and every later operation fails with
/// the `Clsd` error.
#[derive(Debug)]
pub struct NetconnUdp {
    conn: Option<u64>,
    conn_type: NetconnUdpType,
}

impl NetconnUdp {
    /// True while this connection still owns its native handle.
    pub closed spec fn is_open(&self) -> bool {
        self.conn is Some
    }

    /// The native handle token, meaningful only while open.
    pub closed spec fn spec_conn(&self) -> u64 {
        self.conn->0
    }

    /// The connection kind, fixed at creation.
    pub closed spec fn spec_type(&self) -> NetconnUdpType {
        self.conn_type
    }

    /// Wraps the handle the native layer created for a new UDP
    /// connection, or reports the out-of-memory error if creation
    /// returned the null handle (encoded 0).
    pub fn new(netconn_udp_type: NetconnUdpType, raw_conn: u64) -> (r: Result<Self, NetconnErr>)
        ensures
            raw_conn == 0 ==> r == Err::<NetconnUdp, NetconnErr>(NetconnErr::Mem),
            raw_conn != 0 ==> (r matches Ok(c) && c.is_open() && c.spec_conn() == raw_conn
                && c.spec_type() == netconn_udp_type),
    {
        if raw_conn == 0 {
            return Err(NetconnErr::Mem);
        }
        Ok(Self { conn: Some(raw_conn), conn_type: netconn_udp_type })
    }

    /// Returns the wrapped handle, or `Clsd` once it has been taken.
    pub fn get_inner(&self) -> (r: Result<u64, NetconnErr>)
        ensures
            self.is_open() ==> r == Ok::<u64, NetconnErr>(self.spec_conn()),
            !self.is_open() ==> r == Err::<u64, NetconnErr>(NetconnErr::Clsd),
    {
        match self.conn {
            Some(c) => Ok(c),
            None => Err(NetconnErr::Clsd),
        }
    }

    /// The connection kind.
    pub fn get_type(&self) -> (t: NetconnUdpType)
        ensures
            t == self.spec_type(),
    {
        self.conn_type
    }

    /// Takes the handle out for release. A second call finds nothing
    /// and frees nothing.
    pub fn delete(&mut self) -> (taken: Option<u64>)
        ensures
            !final(self).is_open(),
            old(self).is_open() ==> taken == Some(old(self).spec_conn()),
            !old(self).is_open() ==> taken is None,
            final(self).spec_type() == old(self).spec_type(),
    {
        self.conn.take()
    }

    /// Maps the outcome of disconnecting from the current peer.
    pub fn disconnect(&self, result: i8) -> (r: Result<(), NetconnErr>)
        requires
            self.is_open() ==> valid_netconn_code(result as int),
        ensures
            !self.is_open() ==> r == Err::<(), NetconnErr>(NetconnErr::Clsd),
            self.is_open() && result == 0 ==> r is Ok,
            self.is_open() && result != 0 ==> r == Err::<(), NetconnErr>(
                netconn_err_of_code(result as int),
            ),
    {
        if self.conn.is_none() {
            return Err(NetconnErr::Clsd);
        }
        if result != 0 {
            return Err(NetconnErr::from_code(result as i32));
        }
        Ok(())
    }
}

} // verus!
