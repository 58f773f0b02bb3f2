use nxdk_rs::io::traits::SeekFrom;
use nxdk_rs::winapi::file::AccessRights;
use nxdk_rs::winapi::file::CreationDisposition;
use nxdk_rs::winapi::file::FileFlagsAndAttributes;
use nxdk_rs::winapi::file::INVALID_HANDLE_VALUE;
use nxdk_rs::winapi::file::NativeFileInformation;
use nxdk_rs::winapi::file::Overlapped;
use nxdk_rs::winapi::file::OverlappedBlock;
use nxdk_rs::winapi::file::OverlappedIoStep;
use nxdk_rs::winapi::file::ShareMode;
use nxdk_rs::winapi::file::WinFileHandle;
use nxdk_rs::winapi::handle::ERROR_INVALID_HANDLE;
use nxdk_rs::winapi::handle::GenericWinHandle;

const ERROR_IO_PENDING: u32 = 997;
const ERROR_IO_INCOMPLETE: u32 = 996;
const ERROR_INVALID_PARAMETER: u32 = 87;
const ERROR_ACCESS_DENIED: u32 = 5;

fn overlapped_channel(handle: u64, event: u64) -> WinFileHandle {
    WinFileHandle::open(
        FileFlagsAndAttributes::flag_overlapped(),
        handle,
        0,
        event,
        0,
    )
    .unwrap()
}

#[test]
fn open_failure_reports_the_native_error() {
    let r = WinFileHandle::open(
        FileFlagsAndAttributes::default(),
        INVALID_HANDLE_VALUE,
        ERROR_ACCESS_DENIED,
        0,
        0,
    );
    match r {
        Err(e) => assert_eq!(e.into_inner(), ERROR_ACCESS_DENIED),
        Ok(_) => panic!("an invalid handle must not open"),
    }
}

#[test]
fn open_without_overlapped_flag_has_no_completion_state() {
    let mut f = WinFileHandle::open(FileFlagsAndAttributes::default(), 0x10, 0, 0, 0).unwrap();
    assert!(!f.is_closed());
    assert_eq!(f.get_inner().unwrap(), 0x10);
    // Asynchronous operations need the overlapped state.
    match f.async_op_begin(true, 0) {
        Err(e) => assert_eq!(e.into_inner(), ERROR_INVALID_HANDLE),
        Ok(_) => panic!("a non-overlapped channel cannot run asynchronously"),
    }
}

#[test]
fn open_overlapped_without_event_reports_the_event_error() {
    let r = WinFileHandle::open(FileFlagsAndAttributes::flag_overlapped(), 0x10, 0, 0, 1450);
    match r {
        Err(e) => assert_eq!(e.into_inner(), 1450),
        Ok(_) => panic!("a failed event creation must fail the open"),
    }
}

#[test]
fn async_write_suspends_then_advances_offset() {
    // Issue an asynchronous write of 100 bytes: the backend takes it
    // pending, stays incomplete for one poll (the caller suspends), and
    // completes with 100 bytes on a later poll. The channel's offset
    // advances by 100.
    let mut f = overlapped_channel(0x20, 0x99);
    assert_eq!(f.seek_async(SeekFrom::Current(0)).unwrap(), 0);

    f.async_op_begin(true, 0).unwrap();
    let mut suspensions = 0;
    let mut step = f.async_issue_outcome(0, 0, ERROR_IO_PENDING);
    loop {
        match step {
            OverlappedIoStep::Pending => {
                suspensions += 1;
                // One more poll: first still incomplete, then done.
                step = if suspensions == 1 {
                    f.async_poll_outcome(0, 0, ERROR_IO_INCOMPLETE)
                } else {
                    f.async_poll_outcome(1, 100, 0)
                };
            }
            OverlappedIoStep::Done(n) => {
                assert_eq!(n, 100);
                break;
            }
            OverlappedIoStep::Fail(_) => panic!("the write must complete"),
        }
    }
    assert!(suspensions >= 1);
    assert_eq!(f.seek_async(SeekFrom::Current(0)).unwrap(), 100);
}

#[test]
fn async_write_of_100_bytes_in_two_operations() {
    // An asynchronous write of 100 bytes where the backend accepts 40
    // at once, reports pending for the rest, and completes the
    // remaining 60 on a later poll: the caller suspends at least once
    // and the channel's offset ends up advanced by the full 100.
    let mut f = overlapped_channel(0x20, 0x99);
    let mut total: u32 = 0;
    let mut suspensions = 0;

    f.async_op_begin(true, 0).unwrap();
    match f.async_issue_outcome(1, 40, 0) {
        OverlappedIoStep::Done(n) => total += n,
        _ => panic!("the first 40 bytes complete at once"),
    }

    f.async_op_begin(true, 0).unwrap();
    let mut step = f.async_issue_outcome(0, 0, ERROR_IO_PENDING);
    loop {
        match step {
            OverlappedIoStep::Pending => {
                suspensions += 1;
                step = f.async_poll_outcome(1, 60, 0);
            }
            OverlappedIoStep::Done(n) => {
                total += n;
                break;
            }
            OverlappedIoStep::Fail(_) => panic!("the rest must complete"),
        }
    }

    assert!(suspensions >= 1);
    assert_eq!(total, 100);
    assert_eq!(f.seek_async(SeekFrom::Current(0)).unwrap(), 100);
}

#[test]
fn async_issue_can_complete_immediately() {
    let mut f = overlapped_channel(0x20, 0x99);
    f.async_op_begin(true, 0).unwrap();
    match f.async_issue_outcome(1, 40, 0) {
        OverlappedIoStep::Done(n) => assert_eq!(n, 40),
        _ => panic!("an immediate completion must finish the operation"),
    }
    assert_eq!(f.seek_async(SeekFrom::Current(0)).unwrap(), 40);
}

#[test]
fn async_poll_propagates_hard_errors() {
    let mut f = overlapped_channel(0x20, 0x99);
    f.async_op_begin(true, 0).unwrap();
    match f.async_issue_outcome(0, 0, ERROR_ACCESS_DENIED) {
        OverlappedIoStep::Fail(e) => assert_eq!(e.into_inner(), ERROR_ACCESS_DENIED),
        _ => panic!("a hard error must surface immediately"),
    }
}

#[test]
fn seek_async_moves_the_local_offset_only() {
    let mut f = overlapped_channel(0x20, 0x99);
    assert_eq!(f.seek_async(SeekFrom::Start(1000)).unwrap(), 1000);
    assert_eq!(f.seek_async(SeekFrom::Current(-200)).unwrap(), 800);
    // The offset never goes negative.
    assert_eq!(f.seek_async(SeekFrom::Current(-2000)).unwrap(), 0);
    // Seeking from the end is unsupported in asynchronous mode.
    match f.seek_async(SeekFrom::End(0)) {
        Err(e) => assert_eq!(e.into_inner(), ERROR_INVALID_PARAMETER),
        Ok(_) => panic!("seeking from the end must fail"),
    }
}

#[test]
fn close_is_idempotent_and_releases_once() {
    // Closing twice never double-frees: the file handle and the
    // completion event each come out exactly once.
    let mut f = overlapped_channel(0x30, 0x31);
    let (handle, event) = f.close();
    assert_eq!(handle, Some(0x30));
    assert_eq!(event, Some(0x31));
    let (handle2, event2) = f.close();
    assert_eq!(handle2, None);
    assert_eq!(event2, None);
    assert!(f.is_closed());
}

#[test]
fn reset_overlapped_rewrites_the_completion_block() {
    let mut f = overlapped_channel(0x20, 0x99);
    assert_eq!(f.seek_async(SeekFrom::Start(0x1_2345_6789)).unwrap(), 0x1_2345_6789);
    assert!(f.reset_overlapped(true, 0).is_ok());
    // The logical offset is split into the block's two halves and the
    // status fields are cleared.
    let block = f.overlapped_block().unwrap();
    assert_eq!(block.offset, 0x2345_6789);
    assert_eq!(block.offset_high, 0x1);
    assert_eq!(block.internal, 0);
    assert_eq!(block.internal_high, 0);
    assert_eq!(block.event, 0x99);
    // A failed native event re-arm surfaces its error.
    match f.reset_overlapped(false, 1717) {
        Err(e) => assert_eq!(e.into_inner(), 1717),
        Ok(_) => panic!("a failed re-arm must surface"),
    }
}

#[test]
fn overlapped_offset_bookkeeping() {
    let block = OverlappedBlock { internal: 0, internal_high: 0, offset: 0, offset_high: 0, event: 7 };
    let mut o = Overlapped::wrap(Some(block));
    assert_eq!(o.offset(), 0);
    o.set_offset(500);
    o.advance_offset(-100);
    assert_eq!(o.offset(), 400);
    o.advance_offset(-1000);
    assert_eq!(o.offset(), 0);

    assert!(o.reset_overlapped(true, 0).is_ok());
    let inner = o.get_inner().unwrap();
    assert_eq!(inner.offset, 0);
    assert_eq!(inner.event, 7);

    // The completion token comes out exactly once.
    assert_eq!(o.close(), Some(7));
    assert_eq!(o.close(), None);
    assert!(o.is_closed());
}

#[test]
fn sync_operations_map_native_outcomes() {
    let mut f = WinFileHandle::open(FileFlagsAndAttributes::default(), 0x40, 0, 0, 0).unwrap();
    let buf = vec![1u8; 16];
    assert_eq!(f.write(&buf, 1, 16, 0).unwrap(), 16);
    match f.write(&buf, 0, 0, ERROR_ACCESS_DENIED) {
        Err(e) => assert_eq!(e.into_inner(), ERROR_ACCESS_DENIED),
        Ok(_) => panic!("a failed native write must surface"),
    }
    assert_eq!(f.read(16, 1, 8, 0).unwrap(), 8);
    assert_eq!(f.seek(SeekFrom::Start(100), 1, 100, 0).unwrap(), 100);

    let (taken, _) = f.close();
    assert_eq!(taken, Some(0x40));
    match f.write(&buf, 1, 16, 0) {
        Err(e) => assert_eq!(e.into_inner(), ERROR_INVALID_HANDLE),
        Ok(_) => panic!("a closed channel accepts nothing"),
    }
}

#[test]
fn query_standard_information_converts_the_block() {
    let f = WinFileHandle::new(GenericWinHandle::new(0x50), None);
    let raw = NativeFileInformation {
        allocation_size: 4096,
        end_of_file: 1234,
        number_of_links: 1,
        delete_pending: 0,
        directory: 1,
    };
    let info = f.query_standard_information(0, raw).unwrap();
    assert_eq!(info.allocation_size, 4096);
    assert_eq!(info.end_of_file, 1234);
    assert_eq!(info.number_of_links, 1);
    assert!(!info.delete_pending);
    assert!(info.directory);

    match f.query_standard_information(-1073741811, raw) {
        Err(nxdk_rs::winapi::error::WinMixedError::NtStatus(s)) => {
            assert_eq!(s.into_inner(), -1073741811)
        }
        _ => panic!("a nonzero status must surface as a structured code"),
    }
}

#[test]
fn flag_sets_combine_and_test_bits() {
    let flags = FileFlagsAndAttributes::flag_overlapped()
        .union(FileFlagsAndAttributes::attribute_normal());
    assert!(flags.contains(FileFlagsAndAttributes::flag_overlapped()));
    assert!(flags.contains(FileFlagsAndAttributes::attribute_normal()));
    assert!(!flags.contains(FileFlagsAndAttributes::flag_write_through()));
    assert_eq!(flags.bits(), 0x40000080);

    assert_eq!(AccessRights::default().bits(), 0x80000000);
    assert_eq!(ShareMode::default().bits(), 3);
    assert_eq!(FileFlagsAndAttributes::default().bits(), 0x80);
    assert_eq!(CreationDisposition::default(), CreationDisposition::OpenExisting);
    assert_eq!(CreationDisposition::CreateAlways.native_code(), 2);
    assert_eq!(AccessRights::read().union(AccessRights::write()).bits(), 0xC0000000);
}
