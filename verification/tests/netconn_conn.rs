use nxdk_rs::lwip::netconn::AsyncStep;
use nxdk_rs::lwip::netconn::Netconn;
use nxdk_rs::lwip::netconn::NetconnType;
use nxdk_rs::lwip::netconn::error::NetconnErr;
use nxdk_rs::lwip::netconn::tcp::NetconnTcp;
use nxdk_rs::lwip::netconn::tcp::NetconnTcpType;
use nxdk_rs::lwip::netconn::udp::NetconnUdp;
use nxdk_rs::lwip::netconn::udp::NetconnUdpType;
use nxdk_rs::lwip::pbuf::TcpPbuf;

const ERR_OK: i8 = 0;
const ERR_WOULDBLOCK: i8 = -7;
const ERR_RST: i8 = -14;

#[test]
fn error_codes_round_trip() {
    for code in -16i32..=0 {
        let e = NetconnErr::from_code(code);
        assert_eq!(e.code() as i32, code);
    }
    assert_eq!(NetconnErr::from_code(0), NetconnErr::ErrOk);
    assert_eq!(NetconnErr::from_code(-7), NetconnErr::WouldBlock);
    assert_eq!(NetconnErr::from_code(-15), NetconnErr::Clsd);
    assert_eq!(NetconnErr::from_code(-16), NetconnErr::Arg);
}

#[test]
fn new_with_null_handle_is_out_of_memory() {
    assert!(matches!(NetconnTcp::new(NetconnTcpType::Tcp, 0), Err(NetconnErr::Mem)));
    assert!(matches!(NetconnUdp::new(NetconnUdpType::Udp, 0), Err(NetconnErr::Mem)));
    assert!(matches!(Netconn::new(NetconnType::Tcp, 0), Err(NetconnErr::Mem)));
}

#[test]
fn nonblocking_read_would_block_synchronously() {
    // Set non-blocking on a connection and attempt a read with no data
    // available: the synchronous call returns WouldBlock.
    let mut conn = NetconnTcp::new(NetconnTcpType::Tcp, 0x1000).unwrap();
    conn.set_nonblocking(true).unwrap();

    let r = conn.read_no_copy(ERR_WOULDBLOCK, None);
    assert!(matches!(r, Err(NetconnErr::WouldBlock)));
}

#[test]
fn nonblocking_read_suspends_asynchronously_until_data() {
    // The asynchronous variant instead suspends on WouldBlock and only
    // returns once data is available or a non-WouldBlock error occurs.
    let mut conn = NetconnTcp::new(NetconnTcpType::Tcp, 0x1000).unwrap();
    conn.read_no_copy_async_begin().unwrap();

    // No data yet: the step suspends (the caller would yield and retry).
    let mut suspensions = 0;
    let outcomes: Vec<(i8, Option<TcpPbuf>)> = vec![
        (ERR_WOULDBLOCK, None),
        (ERR_WOULDBLOCK, None),
        (ERR_OK, Some(TcpPbuf::new(vec![vec![1u8, 2, 3]]))),
    ];
    let mut delivered = None;
    for (code, chain) in outcomes {
        match conn.read_no_copy_async_step(code, chain) {
            AsyncStep::Suspend => suspensions += 1,
            AsyncStep::Ready(r) => {
                delivered = Some(r);
                break;
            }
        }
    }
    assert_eq!(suspensions, 2);
    let mut pbuf = delivered.unwrap().unwrap();
    let mut dest = vec![0u8; 3];
    assert_eq!(pbuf.read_into(&mut dest), 3);
    assert_eq!(dest, vec![1u8, 2, 3]);
}

#[test]
fn async_read_propagates_hard_errors() {
    let mut conn = NetconnTcp::new(NetconnTcpType::Tcp, 0x1000).unwrap();
    conn.read_no_copy_async_begin().unwrap();
    match conn.read_no_copy_async_step(ERR_RST, None) {
        AsyncStep::Ready(Err(NetconnErr::Rst)) => {}
        _ => panic!("a reset must surface immediately"),
    }
}

#[test]
fn async_write_suspends_then_reports_count() {
    let mut conn = NetconnTcp::new(NetconnTcpType::Tcp, 0x2000).unwrap();
    conn.write_async_begin().unwrap();
    let buf = vec![9u8; 60];

    match conn.write_async_step(&buf, ERR_WOULDBLOCK, 0) {
        AsyncStep::Suspend => {}
        _ => panic!("would-block must suspend"),
    }
    match conn.write_async_step(&buf, ERR_OK, 60) {
        AsyncStep::Ready(Ok(n)) => assert_eq!(n, 60),
        _ => panic!("the accepted count must come back"),
    }
}

#[test]
fn copying_read_drains_the_received_chain() {
    let mut conn = NetconnTcp::new(NetconnTcpType::Tcp, 0x3000).unwrap();
    let chain = TcpPbuf::new(vec![vec![1u8, 2, 3, 4, 5], vec![6u8, 7, 8, 9, 10]]);
    let mut dest = vec![0u8; 7];

    let n = conn.read(&mut dest, ERR_OK, Some(chain)).unwrap();
    assert_eq!(n, 7);
    assert_eq!(dest, vec![1u8, 2, 3, 4, 5, 6, 7]);
}

#[test]
fn close_and_delete_is_idempotent() {
    // Closing twice never frees the native handle twice: the handle
    // comes out exactly once, and later operations report Clsd.
    let mut conn = NetconnTcp::new(NetconnTcpType::Tcp, 0x4000).unwrap();
    assert_eq!(conn.close_and_delete(), Some(0x4000));
    assert_eq!(conn.close_and_delete(), None);
    assert!(matches!(conn.get_inner(), Err(NetconnErr::Clsd)));
    assert!(matches!(conn.read_no_copy(0, None), Err(NetconnErr::Clsd)));
    assert!(matches!(conn.write(&vec![1u8], 0, 1), Err(NetconnErr::Clsd)));
    assert!(matches!(conn.close(0), Err(NetconnErr::Clsd)));
}

#[test]
fn tcp_close_keeps_the_handle_for_delete() {
    // Close and delete are separate steps: protocol-level close keeps
    // the handle; delete releases it exactly once.
    let mut conn = NetconnTcp::new(NetconnTcpType::Tcp, 0x5000).unwrap();
    assert!(conn.close(ERR_OK).is_ok());
    assert_eq!(conn.get_inner().unwrap(), 0x5000);
    assert_eq!(conn.delete(), Some(0x5000));
    assert_eq!(conn.delete(), None);
}

#[test]
fn accept_null_with_ok_status_is_no_connection_yet() {
    let mut listener = NetconnTcp::new(NetconnTcpType::Tcp, 0x6000).unwrap();
    listener.listen().unwrap();

    let r = listener.accept(ERR_OK, 0).unwrap();
    assert!(r.is_none());

    let conn = listener.accept(ERR_OK, 0x6001).unwrap().unwrap();
    assert_eq!(conn.get_inner().unwrap(), 0x6001);
    assert_eq!(conn.get_type(), NetconnTcpType::Tcp);
}

#[test]
fn legacy_netconn_decisions() {
    let mut conn = Netconn::new(NetconnType::Udp, 0x7000).unwrap();
    assert_eq!(conn.get_inner().unwrap(), 0x7000);
    assert!(conn.bind(9000, ERR_OK).is_ok());
    assert!(matches!(conn.connect((10, 0, 0, 1), 80, -11), Err(NetconnErr::Conn)));
    assert_eq!(conn.err(-3), NetconnErr::Timeout);

    let ((a, b, c, d), port) = conn.peer(ERR_OK, 0x0100_007F, 1234).unwrap();
    assert_eq!((a, b, c, d), (127, 0, 0, 1));
    assert_eq!(port, 1234);

    assert_eq!(conn.close(), Some(0x7000));
    assert_eq!(conn.close(), None);
    assert_eq!(conn.err(0), NetconnErr::Clsd);
}

#[test]
fn udp_disconnect_maps_the_native_code() {
    let conn = NetconnUdp::new(NetconnUdpType::UdpLite, 0x8000).unwrap();
    assert!(conn.disconnect(ERR_OK).is_ok());
    assert!(matches!(conn.disconnect(-6), Err(NetconnErr::Val)));
    assert_eq!(conn.get_type().native_code(), 0x21);
}
