use vstd::prelude::*;

verus! {

/// Errors of the connection layer, one variant per status code of the
/// native fixed range 0 to -16. A code outside that range is a contract
/// violation between the adapter and the native layer, not an ordinary
/// runtime condition, so no variant stands for it: callers must exclude
/// such codes before mapping.
#[derive(Clone, Copy, Debug, Eq, PartialEq, Structural)]
pub enum NetconnErr {
    ErrOk,
    Mem,
    Buf,
    Timeout,
    Rte,
    InProgress,
    Val,
    WouldBlock,
    Use,
    Already,
    IsConn,
    Conn,
    If,
    Abrt,
    Rst,
    Clsd,
    Arg,
}

/// The native status code range that the connection layer may report.
pub open spec fn valid_netconn_code(code: int) -> bool {
    -16 <= code <= 0
}

/// Meaning of each native status code.
pub open spec fn netconn_err_of_code(code: int) -> NetconnErr {
    if code == 0 {
        NetconnErr::ErrOk
    } else if code == -1 {
        NetconnErr::Mem
    } else if code == -2 {
        NetconnErr::Buf
    } else if code == -3 {
        NetconnErr::Timeout
    } else if code == -4 {
        NetconnErr::Rte
    } else if code == -5 {
        NetconnErr::InProgress
    } else if code == -6 {
        NetconnErr::Val
    } else if code == -7 {
        NetconnErr::WouldBlock
    } else if code == -8 {
        NetconnErr::Use
    } else if code == -9 {
        NetconnErr::Already
    } else if code == -10 {
        NetconnErr::IsConn
    } else if code == -11 {
        NetconnErr::Conn
    } else if code == -12 {
        NetconnErr::If
    } else if code == -13 {
        NetconnErr::Abrt
    } else if code == -14 {
        NetconnErr::Rst
    } else if code == -15 {
        NetconnErr::Clsd
    } else {
        NetconnErr::Arg
    }
}

/// The native status code of each variant; inverse of `netconn_err_of_code`
/// on the valid range.
pub open spec fn netconn_code_of_err(e: NetconnErr) -> int {
    match e {
        NetconnErr::ErrOk => 0,
        NetconnErr::Mem => -1,
        NetconnErr::Buf => -2,
        NetconnErr::Timeout => -3,
        NetconnErr::Rte => -4,
        NetconnErr::InProgress => -5,
        NetconnErr::Val => -6,
        NetconnErr::WouldBlock => -7,
        NetconnErr::Use => -8,
        NetconnErr::Already => -9,
        NetconnErr::IsConn => -10,
        NetconnErr::Conn => -11,
        NetconnErr::If => -12,
        NetconnErr::Abrt => -13,
        NetconnErr::Rst => -14,
        NetconnErr::Clsd => -15,
        NetconnErr::Arg => -16,
    }
}

impl NetconnErr {
    /// Maps a native status code to its error. Codes outside the fixed
    /// range are a broken adapter contract and are excluded: such a code
    /// is fatal by design, never coerced into a variant.
    pub fn from_code(code: i32) -> (e: Self)
        requires
            valid_netconn_code(code as int),
        ensures
            e == netconn_err_of_code(code as int),
    {
        if code == 0 {
            NetconnErr::ErrOk
        } else if code == -1 {
            NetconnErr::Mem
        } else if code == -2 {
            NetconnErr::Buf
        } else if code == -3 {
            NetconnErr::Timeout
        } else if code == -4 {
            NetconnErr::Rte
        } else if code == -5 {
            NetconnErr::InProgress
        } else if code == -6 {
            NetconnErr::Val
        } else if code == -7 {
            NetconnErr::WouldBlock
        } else if code == -8 {
            NetconnErr::Use
        } else if code == -9 {
            NetconnErr::Already
        } else if code == -10 {
            NetconnErr::IsConn
        } else if code == -11 {
            NetconnErr::Conn
        } else if code == -12 {
            NetconnErr::If
        } else if code == -13 {
            NetconnErr::Abrt
        } else if code == -14 {
            NetconnErr::Rst
        } else if code == -15 {
            NetconnErr::Clsd
        } else {
            NetconnErr::Arg
        }
    }

    /// The native status code of this error, for inter-op with the
    /// native layer. Round-trips with `from_code`.
    pub fn code(&self) -> (c: i8)
        ensures
            c as int == netconn_code_of_err(*self),
            netconn_err_of_code(c as int) == *self,
    {
        match self {
            NetconnErr::ErrOk => 0,
            NetconnErr::Mem => -1,
            NetconnErr::Buf => -2,
            NetconnErr::Timeout => -3,
            NetconnErr::Rte => -4,
            NetconnErr::InProgress => -5,
            NetconnErr::Val => -6,
            NetconnErr::WouldBlock => -7,
            NetconnErr::Use => -8,
            NetconnErr::Already => -9,
            NetconnErr::IsConn => -10,
            NetconnErr::Conn => -11,
            NetconnErr::If => -12,
            NetconnErr::Abrt => -13,
            NetconnErr::Rst => -14,
            NetconnErr::Clsd => -15,
            NetconnErr::Arg => -16,
        }
    }
}

} // verus!
