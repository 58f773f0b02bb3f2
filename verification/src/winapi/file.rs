use vstd::prelude::*;
use vstd::math::max;
use crate::io::traits::SeekFrom;
use crate::winapi::error::NtStatusError;
use crate::winapi::error::WinError;
use crate::winapi::error::WinMixedError;
use crate::winapi::handle::ERROR_INVALID_HANDLE;
use crate::winapi::handle::GenericWinHandle;

verus! {

/// The native handle value that the open call returns on failure.
pub const INVALID_HANDLE_VALUE: u64 = 0xFFFF_FFFF_FFFF_FFFF;

/// Error code for a malformed argument, reported for an unsupported seek.
pub const ERROR_INVALID_PARAMETER: u32 = 87;

/// Status code meaning an overlapped operation was submitted and has
/// not completed yet: a polling signal, not a failure.
pub const ERROR_IO_PENDING: u32 = 997;

/// Status code meaning a polled overlapped operation is still running:
/// a polling signal, not a failure.
pub const ERROR_IO_INCOMPLETE: u32 = 996;

/// Access rights requested when opening a handle, one independent bit
/// per right, bit-exact with the wrapped OS layer.
#[derive(Debug, Clone, Copy, PartialEq, Eq, Hash, Structural)]
pub struct AccessRights {
    bits: u32,
}

impl AccessRights {
    /// The raw bit pattern.
    pub closed spec fn spec_bits(&self) -> u32 {
        self.bits
    }

    pub fn bits(&self) -> (b: u32)
        ensures
            b == self.spec_bits(),
    {
        self.bits
    }

    pub fn read() -> (r: Self)
        ensures
            r.spec_bits() == 0x80000000u32,
    {
        Self { bits: 0x80000000 }
    }

    pub fn write() -> (r: Self)
        ensures
            r.spec_bits() == 0x40000000u32,
    {
        Self { bits: 0x40000000 }
    }

    pub fn execute() -> (r: Self)
        ensures
            r.spec_bits() == 0x20000000u32,
    {
        Self { bits: 0x20000000 }
    }

    pub fn all() -> (r: Self)
        ensures
            r.spec_bits() == 0x10000000u32,
    {
        Self { bits: 0x10000000 }
    }

    pub fn none() -> (r: Self)
        ensures
            r.spec_bits() == 0u32,
    {
        Self { bits: 0 }
    }

    /// The combination of two sets of rights.
    pub fn union(self, other: Self) -> (r: Self)
        ensures
            r.spec_bits() == self.spec_bits() | other.spec_bits(),
    {
        Self { bits: self.bits | other.bits }
    }

    /// True when every right in `other` is present in `self`.
    pub fn contains(&self, other: Self) -> (c: bool)
        ensures
            c == (self.spec_bits() & other.spec_bits() == other.spec_bits()),
    {
        self.bits & other.bits == other.bits
    }
}

impl Default for AccessRights {
    /// Read access is the default.
    fn default() -> (r: Self)
        ensures
            r.spec_bits() == 0x80000000u32,
    {
        Self::read()
    }
}

/// How an open handle is shared, one independent bit per mode,
/// bit-exact with the wrapped OS layer.
#[derive(Debug, Clone, Copy, PartialEq, Eq, Hash, Structural)]
pub struct ShareMode {
    bits: u32,
}

impl ShareMode {
    /// The raw bit pattern.
    pub closed spec fn spec_bits(&self) -> u32 {
        self.bits
    }

    pub fn bits(&self) -> (b: u32)
        ensures
            b == self.spec_bits(),
    {
        self.bits
    }

    pub fn read() -> (r: Self)
        ensures
            r.spec_bits() == 1u32,
    {
        Self { bits: 1 }
    }

    pub fn write() -> (r: Self)
        ensures
            r.spec_bits() == 2u32,
    {
        Self { bits: 2 }
    }

    pub fn delete() -> (r: Self)
        ensures
            r.spec_bits() == 4u32,
    {
        Self { bits: 4 }
    }

    /// Doesn't share the file; exclusive access.
    pub fn none() -> (r: Self)
        ensures
            r.spec_bits() == 0u32,
    {
        Self { bits: 0 }
    }

    /// The combination of two share modes.
    pub fn union(self, other: Self) -> (r: Self)
        ensures
            r.spec_bits() == self.spec_bits() | other.spec_bits(),
    {
        Self { bits: self.bits | other.bits }
    }

    /// True when every mode in `other` is present in `self`.
    pub fn contains(&self, other: Self) -> (c: bool)
        ensures
            c == (self.spec_bits() & other.spec_bits() == other.spec_bits()),
    {
        self.bits & other.bits == other.bits
    }
}

impl Default for ShareMode {
    /// Shared reading and writing is the default.
    fn default() -> (r: Self)
        ensures
            r.spec_bits() == 3u32,
    {
        proof {
            assert(1u32 | 2u32 == 3u32) by (bit_vector);
        }
        Self::read().union(Self::write())
    }
}

/// What the open call does when the file does or does not exist; the
/// dispositions are mutually exclusive.
#[derive(Debug, PartialEq, Eq, Clone, Copy, Structural)]
pub enum CreationDisposition {
    CreateAlways,
    CreateNew,
    OpenAlways,
    OpenExisting,
    TruncateExisting,
}

impl CreationDisposition {
    /// The native encoding of this disposition.
    pub fn native_code(&self) -> (c: u32)
        ensures
            c == match *self {
                CreationDisposition::CreateNew => 1u32,
                CreationDisposition::CreateAlways => 2u32,
                CreationDisposition::OpenExisting => 3u32,
                CreationDisposition::OpenAlways => 4u32,
                CreationDisposition::TruncateExisting => 5u32,
            },
    {
        match self {
            CreationDisposition::CreateNew => 1,
            CreationDisposition::CreateAlways => 2,
            CreationDisposition::OpenExisting => 3,
            CreationDisposition::OpenAlways => 4,
            CreationDisposition::TruncateExisting => 5,
        }
    }
}

impl Default for CreationDisposition {
    /// Opening an existing file is the default.
    fn default() -> (r: Self)
        ensures
            r == CreationDisposition::OpenExisting,
    {
        CreationDisposition::OpenExisting
    }
}

/// File flags and attributes for the open call, one independent bit
/// each, bit-exact with the wrapped OS layer.
#[derive(Debug, Clone, Copy, PartialEq, Eq, Hash, Structural)]
pub struct FileFlagsAndAttributes {
    bits: u32,
}

impl FileFlagsAndAttributes {
    /// The raw bit pattern.
    pub closed spec fn spec_bits(&self) -> u32 {
        self.bits
    }

    pub fn bits(&self) -> (b: u32)
        ensures
            b == self.spec_bits(),
    {
        self.bits
    }

    pub fn attribute_archive() -> (r: Self)
        ensures
            r.spec_bits() == 0x20u32,
    {
        Self { bits: 0x20 }
    }

    pub fn attribute_hidden() -> (r: Self)
        ensures
            r.spec_bits() == 0x2u32,
    {
        Self { bits: 0x2 }
    }

    pub fn attribute_normal() -> (r: Self)
        ensures
            r.spec_bits() == 0x80u32,
    {
        Self { bits: 0x80 }
    }

    pub fn attribute_read_only() -> (r: Self)
        ensures
            r.spec_bits() == 0x1u32,
    {
        Self { bits: 0x1 }
    }

    pub fn attribute_system() -> (r: Self)
        ensures
            r.spec_bits() == 0x4u32,
    {
        Self { bits: 0x4 }
    }

    pub fn attribute_temporary() -> (r: Self)
        ensures
            r.spec_bits() == 0x100u32,
    {
        Self { bits: 0x100 }
    }

    pub fn flag_backup_semantics() -> (r: Self)
        ensures
            r.spec_bits() == 0x02000000u32,
    {
        Self { bits: 0x02000000 }
    }

    pub fn flag_delete_on_close() -> (r: Self)
        ensures
            r.spec_bits() == 0x04000000u32,
    {
        Self { bits: 0x04000000 }
    }

    pub fn flag_no_buffering() -> (r: Self)
        ensures
            r.spec_bits() == 0x20000000u32,
    {
        Self { bits: 0x20000000 }
    }

    /// The flag that opens the handle in overlapped (issue-then-poll)
    /// mode.
    pub fn flag_overlapped() -> (r: Self)
        ensures
            r.spec_bits() == 0x40000000u32,
    {
        Self { bits: 0x40000000 }
    }

    pub fn flag_posix_semantics() -> (r: Self)
        ensures
            r.spec_bits() == 0x01000000u32,
    {
        Self { bits: 0x01000000 }
    }

    pub fn flag_random_access() -> (r: Self)
        ensures
            r.spec_bits() == 0x10000000u32,
    {
        Self { bits: 0x10000000 }
    }

    pub fn flag_sequential_scan() -> (r: Self)
        ensures
            r.spec_bits() == 0x08000000u32,
    {
        Self { bits: 0x08000000 }
    }

    pub fn flag_write_through() -> (r: Self)
        ensures
            r.spec_bits() == 0x80000000u32,
    {
        Self { bits: 0x80000000 }
    }

    /// The combination of two flag sets.
    pub fn union(self, other: Self) -> (r: Self)
        ensures
            r.spec_bits() == self.spec_bits() | other.spec_bits(),
    {
        Self { bits: self.bits | other.bits }
    }

    /// True when every flag in `other` is present in `self`.
    pub fn contains(&self, other: Self) -> (c: bool)
        ensures
            c == (self.spec_bits() & other.spec_bits() == other.spec_bits()),
    {
        self.bits & other.bits == other.bits
    }
}

impl Default for FileFlagsAndAttributes {
    /// The normal attribute is the default.
    fn default() -> (r: Self)
        ensures
            r.spec_bits() == 0x80u32,
    {
        Self::attribute_normal()
    }
}

/// Standard information about an open handle, independent of the
/// access mode it was opened with.
#[derive(Debug, Clone, Copy, PartialEq, Eq, Structural)]
pub struct FileStandardInformation {
    pub allocation_size: u64,
    /// Also known as the file size.
    pub end_of_file: u64,
    pub number_of_links: u32,
    pub delete_pending: bool,
    pub directory: bool,
}

/// The raw completion block the privileged information query fills in,
/// as plain values.
#[derive(Debug, Clone, Copy, PartialEq, Eq, Structural)]
pub struct NativeFileInformation {
    pub allocation_size: i64,
    pub end_of_file: i64,
    pub number_of_links: u32,
    pub delete_pending: u8,
    pub directory: u8,
}

/// The completion block of an overlapped operation, as plain values:
/// the status fields the native layer mutates in place, the per-call
/// offset halves, and the event handle used as completion token.
#[derive(Debug, Clone, Copy, PartialEq, Eq, Structural)]
pub struct OverlappedBlock {
    pub internal: u64,
    pub internal_high: u64,
    pub offset: u32,
    pub offset_high: u32,
    pub event: u64,
}

/// Owns the wait/event primitive and the pending-operation offset of an
/// overlapped channel. The completion block must be explicitly reset
/// (event re-armed, offset halves rewritten, status fields cleared)
/// before each new operation, because the native layer mutates it in
/// place.
#[derive(Debug)]
pub struct Overlapped {
    overlapped: Option<OverlappedBlock>,
    offset: u64,
}

impl Overlapped {
    /// True once the completion token has been released.
    pub closed spec fn spec_is_closed(&self) -> bool {
        self.overlapped is None
    }

    /// The completion block, meaningful only while not closed.
    pub closed spec fn spec_block(&self) -> OverlappedBlock {
        self.overlapped->0
    }

    /// The logical byte offset of the channel.
    pub closed spec fn spec_offset(&self) -> u64 {
        self.offset
    }

    /// Wraps an existing completion block; the logical offset starts at
    /// zero.
    pub fn wrap(overlapped: Option<OverlappedBlock>) -> (r: Self)
        ensures
            r.spec_offset() == 0,
            r.spec_is_closed() == (overlapped is None),
            overlapped matches Some(b) ==> r.spec_block() == b,
    {
        Self { overlapped, offset: 0 }
    }

    /// The logical byte offset of the channel.
    pub fn offset(&self) -> (r: u64)
        ensures
            r == self.spec_offset(),
    {
        self.offset
    }

    /// Sets the logical offset.
    pub fn set_offset(&mut self, offset: u64)
        ensures
            final(self).spec_offset() == offset,
            final(self).spec_is_closed() == old(self).spec_is_closed(),
            final(self).spec_block() == old(self).spec_block(),
    {
        self.offset = offset;
    }

    /// Moves the logical offset by a signed distance, stopping at zero:
    /// the offset never goes negative.
    pub fn advance_offset(&mut self, offset: i64)
        requires
            old(self).spec_offset() <= i64::MAX,
            old(self).spec_offset() + offset <= i64::MAX,
        ensures
            final(self).spec_offset() == max(old(self).spec_offset() + offset, 0),
            final(self).spec_is_closed() == old(self).spec_is_closed(),
            final(self).spec_block() == old(self).spec_block(),
    {
        let new_offset: i64 = self.offset as i64 + offset;
        self.offset = if new_offset < 0 {
            0
        } else {
            new_offset as u64
        };
    }

    /// The completion block, or the invalid-handle error once the token
    /// has been released.
    pub fn get_inner(&self) -> (r: Result<OverlappedBlock, WinError>)
        ensures
            !self.spec_is_closed() ==> r == Ok::<OverlappedBlock, WinError>(self.spec_block()),
            self.spec_is_closed() ==> (r matches Err(e) && e.code() == ERROR_INVALID_HANDLE),
    {
        match self.overlapped {
            Some(b) => Ok(b),
            None => Err(WinError::new(ERROR_INVALID_HANDLE)),
        }
    }

    pub fn is_closed(&self) -> (c: bool)
        ensures
            c == self.spec_is_closed(),
    {
        !self.overlapped.is_some()
    }

    /// Re-arms the completion block for a new operation, given the
    /// outcome of re-arming the native event (`reset_ok` with the error
    /// code when it failed): the logical offset is written into the
    /// offset halves and the status fields are cleared. A released
    /// token reports the invalid-handle error; a failed re-arm reports
    /// the native error and leaves the block as it was.
    pub fn reset_overlapped(&mut self, reset_ok: bool, last_error: u32) -> (r: Result<
        (),
        WinError,
    >)
        ensures
            old(self).spec_is_closed() ==> (r matches Err(e) && e.code() == ERROR_INVALID_HANDLE)
                && *final(self) == *old(self),
            !old(self).spec_is_closed() && !reset_ok ==> (r matches Err(e) && e.code()
                == last_error) && *final(self) == *old(self),
            !old(self).spec_is_closed() && reset_ok ==> r is Ok && final(self).spec_offset() == old(self).spec_offset() && !final(self).spec_is_closed() && final(self).spec_block()
                == (OverlappedBlock {
                internal: 0,
                internal_high: 0,
                offset: (old(self).spec_offset() % 0x1_0000_0000) as u32,
                offset_high: (old(self).spec_offset() / 0x1_0000_0000) as u32,
                event: old(self).spec_block().event,
            }),
    {
        let offset = self.offset;
        match &mut self.overlapped {
            None => Err(WinError::new(ERROR_INVALID_HANDLE)),
            Some(block) => {
                if !reset_ok {
                    return Err(WinError::new(last_error));
                }
                proof {
                    assert(offset & 0xFFFF_FFFFu64 == offset % 0x1_0000_0000) by (bit_vector);
                    assert(offset >> 32u64 == offset / 0x1_0000_0000) by (bit_vector);
                }
                block.offset = (offset & 0xFFFF_FFFF) as u32;
                block.offset_high = (offset >> 32) as u32;
                block.internal = 0;
                block.internal_high = 0;
                Ok(())
            },
        }
    }

    /// Takes the completion token out for release. The first call on a
    /// live token returns its event handle, which the owner must close
    /// natively; every later call returns nothing and changes nothing,
    /// so the event handle can never be released twice.
    pub fn close(&mut self) -> (taken: Option<u64>)
        ensures
            final(self).spec_is_closed(),
            !old(self).spec_is_closed() ==> taken == Some(old(self).spec_block().event),
            old(self).spec_is_closed() ==> taken is None,
            final(self).spec_offset() == old(self).spec_offset(),
    {
        match self.overlapped.take() {
            Some(b) => Some(b.event),
            None => None,
        }
    }
}

/// One step of an overlapped operation after it was issued: it finished
/// with a byte count, it is still pending (the caller suspends, then
/// polls again), or it failed.
pub enum OverlappedIoStep {
    Done(u32),
    Pending,
    Fail(WinError),
}

/// A file channel over a native handle, optionally opened in overlapped
/// (issue-then-poll-completion) mode.
///
/// Synchronous operations go directly through the native primitive;
/// these functions make the adapter's decision for each native outcome.
/// When overlapped, the asynchronous variants reset the completion
/// block, issue the operation, and then poll the completion status with
/// a zero-timeout query, suspending between polls, while the channel's
/// logical offset advances by each completed operation's byte count.
#[derive(Debug)]
pub struct WinFileHandle {
    handle: GenericWinHandle,
    overlapped: Option<Overlapped>,
}

impl WinFileHandle {
    /// True while the channel still owns its native file handle.
    pub closed spec fn is_open(&self) -> bool {
        self.handle.is_open()
    }

    /// The native file handle token, meaningful only while open.
    pub closed spec fn spec_handle(&self) -> u64 {
        self.handle.spec_handle()
    }

    /// True when the channel was opened in overlapped mode and still
    /// holds its overlapped state.
    pub closed spec fn has_overlapped(&self) -> bool {
        self.overlapped is Some
    }

    /// The overlapped state, meaningful only while present.
    pub closed spec fn spec_overlapped(&self) -> Overlapped {
        self.overlapped->0
    }

    /// The channel's logical byte offset, meaningful in overlapped mode.
    pub open spec fn spec_offset(&self) -> u64 {
        self.spec_overlapped().spec_offset()
    }

    /// Wraps an already-open native handle and, for a channel in
    /// overlapped mode, its overlapped state.
    ///
    /// Be careful to never initialize this with a search handle, and if
    /// overlapped state is given, its completion token must be live.
    pub fn new(handle: GenericWinHandle, overlapped: Option<Overlapped>) -> (r: Self)
        ensures
            r.is_open() == handle.is_open(),
            handle.is_open() ==> r.spec_handle() == handle.spec_handle(),
            r.has_overlapped() == (overlapped is Some),
            overlapped matches Some(o) ==> r.spec_overlapped() == o,
    {
        WinFileHandle { handle, overlapped }
    }

    /// Decides the outcome of opening a file natively. A failed open
    /// (the invalid handle value) reports the native error. With the
    /// overlapped flag, the channel also needs its completion event:
    /// creation of that event may itself have failed (a null event
    /// handle, encoded 0), which reports the event error; otherwise the
    /// channel starts with a fresh completion block around the event
    /// and its logical offset at zero.
    pub fn open(
        flags_attributes: FileFlagsAndAttributes,
        raw_handle: u64,
        open_error: u32,
        event_handle: u64,
        event_error: u32,
    ) -> (r: Result<Self, WinError>)
        ensures
            raw_handle == INVALID_HANDLE_VALUE ==> (r matches Err(e) && e.code() == open_error),
            raw_handle != INVALID_HANDLE_VALUE && flags_attributes.spec_bits() & 0x40000000u32
                == 0x40000000u32 && event_handle == 0 ==> (r matches Err(e) && e.code()
                == event_error),
            raw_handle != INVALID_HANDLE_VALUE && flags_attributes.spec_bits() & 0x40000000u32
                == 0x40000000u32 && event_handle != 0 ==> (r matches Ok(f) && f.is_open()
                && f.spec_handle() == raw_handle && f.has_overlapped() && f.spec_offset() == 0
                && !f.spec_overlapped().spec_is_closed() && f.spec_overlapped().spec_block()
                == (OverlappedBlock {
                internal: 0,
                internal_high: 0,
                offset: 0,
                offset_high: 0,
                event: event_handle,
            })),
            raw_handle != INVALID_HANDLE_VALUE && flags_attributes.spec_bits() & 0x40000000u32
                != 0x40000000u32 ==> (r matches Ok(f) && f.is_open() && f.spec_handle()
                == raw_handle && !f.has_overlapped()),
    {
        if raw_handle == INVALID_HANDLE_VALUE {
            return Err(WinError::new(open_error));
        }
        let overlapped = if flags_attributes.contains(FileFlagsAndAttributes::flag_overlapped()) {
            if event_handle == 0 {
                return Err(WinError::new(event_error));
            }
            Some(
                Overlapped::wrap(
                    Some(
                        OverlappedBlock {
                            internal: 0,
                            internal_high: 0,
                            offset: 0,
                            offset_high: 0,
                            event: event_handle,
                        },
                    ),
                ),
            )
        } else {
            None
        };
        Ok(Self { handle: GenericWinHandle::new(raw_handle), overlapped })
    }

    /// Returns the wrapped native handle, or the invalid-handle error
    /// once the channel is closed.
    pub fn get_inner(&self) -> (r: Result<u64, WinError>)
        ensures
            self.is_open() ==> r == Ok::<u64, WinError>(self.spec_handle()),
            !self.is_open() ==> (r matches Err(e) && e.code() == ERROR_INVALID_HANDLE),
    {
        self.handle.get_inner()
    }

    /// The current completion block of an overlapped channel, for the
    /// owner to hand to the native layer; nothing on a channel without
    /// overlapped state or with its completion token released.
    pub fn overlapped_block(&self) -> (r: Option<OverlappedBlock>)
        ensures
            r is Some <==> self.has_overlapped() && !self.spec_overlapped().spec_is_closed(),
            r matches Some(b) ==> b == self.spec_overlapped().spec_block(),
    {
        match &self.overlapped {
            None => None,
            Some(overlapped) => {
                match overlapped.get_inner() {
                    Ok(b) => Some(b),
                    Err(_) => None,
                }
            },
        }
    }

    /// Re-arms the overlapped completion block for a new operation; on
    /// a channel without overlapped state this is a no-op. See
    /// `Overlapped::reset_overlapped` for the outcome parameters.
    pub fn reset_overlapped(&mut self, reset_ok: bool, last_error: u32) -> (r: Result<
        (),
        WinError,
    >)
        ensures
            final(self).is_open() == old(self).is_open(),
            final(self).has_overlapped() == old(self).has_overlapped(),
            !old(self).has_overlapped() ==> r is Ok && *final(self) == *old(self),
            old(self).has_overlapped() && old(self).spec_overlapped().spec_is_closed() ==> (
            r matches Err(e) && e.code() == ERROR_INVALID_HANDLE) && *final(self) == *old(self),
            old(self).has_overlapped() && !old(self).spec_overlapped().spec_is_closed() && !reset_ok
                ==> (r matches Err(e) && e.code() == last_error) && *final(self) == *old(self),
            old(self).has_overlapped() && !old(self).spec_overlapped().spec_is_closed() && reset_ok
                ==> r is Ok && final(self).spec_offset() == old(self).spec_offset() && !final(self).spec_overlapped().spec_is_closed() && final(self).spec_overlapped().spec_block() == (
            OverlappedBlock {
                internal: 0,
                internal_high: 0,
                offset: (old(self).spec_offset() % 0x1_0000_0000) as u32,
                offset_high: (old(self).spec_offset() / 0x1_0000_0000) as u32,
                event: old(self).spec_overlapped().spec_block().event,
            }),
    {
        match &mut self.overlapped {
            Some(overlapped) => {
                let r = overlapped.reset_overlapped(reset_ok, last_error);
                r
            },
            None => Ok(()),
        }
    }

    /// Decides the outcome of the privileged standard-information
    /// query: a closed channel reports the invalid-handle error of the
    /// OS-error family, a nonzero status reports the structured status
    /// code, and success converts the raw completion block — sizes as
    /// unsigned values, flags as booleans.
    pub fn query_standard_information(&self, status: i32, raw: NativeFileInformation) -> (r: Result<
        FileStandardInformation,
        WinMixedError,
    >)
        ensures
            !self.is_open() ==> (r matches Err(e) && e matches WinMixedError::WinError(w)
                && w.code() == ERROR_INVALID_HANDLE),
            self.is_open() && status != 0 ==> (r matches Err(e) && e matches
                WinMixedError::NtStatus(s) && s.code() == status),
            self.is_open() && status == 0 ==> r == Ok::<FileStandardInformation, WinMixedError>(
                FileStandardInformation {
                    allocation_size: raw.allocation_size as u64,
                    end_of_file: raw.end_of_file as u64,
                    number_of_links: raw.number_of_links,
                    delete_pending: raw.delete_pending != 0,
                    directory: raw.directory != 0,
                },
            ),
    {
        if self.handle.is_closed() {
            return Err(WinMixedError::WinError(WinError::new(ERROR_INVALID_HANDLE)));
        }
        if status != 0 {
            return Err(WinMixedError::NtStatus(NtStatusError::new(status)));
        }
        Ok(
            FileStandardInformation {
                allocation_size: #[verifier::truncate] (raw.allocation_size as u64),
                end_of_file: #[verifier::truncate] (raw.end_of_file as u64),
                number_of_links: raw.number_of_links,
                delete_pending: raw.delete_pending != 0,
                directory: raw.directory != 0,
            },
        )
    }

    pub fn is_closed(&self) -> (c: bool)
        ensures
            c == !self.is_open(),
    {
        self.handle.is_closed()
    }

    /// Takes the native resources out for release: the file handle and,
    /// if the channel is overlapped, the completion token's event
    /// handle. The owner closes both natively. Each is handed out at
    /// most once over all calls, so neither can be released twice; a
    /// later call finds nothing and changes nothing further.
    pub fn close(&mut self) -> (taken: (Option<u64>, Option<u64>))
        ensures
            !final(self).is_open(),
            old(self).is_open() ==> taken.0 == Some(old(self).spec_handle()),
            !old(self).is_open() ==> taken.0 is None,
            old(self).has_overlapped() && !old(self).spec_overlapped().spec_is_closed()
                ==> taken.1 == Some(old(self).spec_overlapped().spec_block().event),
            !(old(self).has_overlapped() && !old(self).spec_overlapped().spec_is_closed())
                ==> taken.1 is None,
            final(self).has_overlapped() ==> final(self).spec_overlapped().spec_is_closed(),
    {
        let handle_taken = self.handle.close();
        let event_taken = match &mut self.overlapped {
            Some(overlapped) => overlapped.close(),
            None => None,
        };
        (handle_taken, event_taken)
    }

    /// Decides the outcome of one synchronous native write: the byte
    /// count the native layer reported, or — when the native call
    /// reported failure (0) — its error.
    pub fn write(&mut self, buf: &Vec<u8>, success: i32, bytes_written: u32, last_error: u32) -> (r:
        Result<usize, WinError>)
        requires
            success != 0 ==> bytes_written <= buf@.len(),
        ensures
            *final(self) == *old(self),
            !old(self).is_open() ==> (r matches Err(e) && e.code() == ERROR_INVALID_HANDLE),
            old(self).is_open() && success == 0 ==> (r matches Err(e) && e.code() == last_error),
            old(self).is_open() && success != 0 ==> r == Ok::<usize, WinError>(
                bytes_written as usize,
            ),
    {
        let _ = buf;
        if self.handle.is_closed() {
            return Err(WinError::new(ERROR_INVALID_HANDLE));
        }
        if success == 0 {
            return Err(WinError::new(last_error));
        }
        Ok(bytes_written as usize)
    }

    /// Decides the outcome of one synchronous native read: the byte
    /// count the native layer put into the caller's buffer, or its
    /// error.
    pub fn read(&mut self, buf_len: usize, success: i32, bytes_read: u32, last_error: u32) -> (r:
        Result<usize, WinError>)
        requires
            success != 0 ==> bytes_read <= buf_len,
        ensures
            *final(self) == *old(self),
            !old(self).is_open() ==> (r matches Err(e) && e.code() == ERROR_INVALID_HANDLE),
            old(self).is_open() && success == 0 ==> (r matches Err(e) && e.code() == last_error),
            old(self).is_open() && success != 0 ==> r == Ok::<usize, WinError>(bytes_read as usize),
    {
        let _ = buf_len;
        if self.handle.is_closed() {
            return Err(WinError::new(ERROR_INVALID_HANDLE));
        }
        if success == 0 {
            return Err(WinError::new(last_error));
        }
        Ok(bytes_read as usize)
    }

    /// Decides the outcome of one synchronous native seek through the
    /// positioning call: the resulting absolute offset, or the native
    /// error when the call reported failure (0).
    pub fn seek(&mut self, pos: SeekFrom, success: i32, new_position: i64, last_error: u32) -> (r:
        Result<u64, WinError>)
        requires
            success != 0 ==> new_position >= 0,
        ensures
            *final(self) == *old(self),
            !old(self).is_open() ==> (r matches Err(e) && e.code() == ERROR_INVALID_HANDLE),
            old(self).is_open() && success == 0 ==> (r matches Err(e) && e.code() == last_error),
            old(self).is_open() && success != 0 ==> r == Ok::<u64, WinError>(new_position as u64),
    {
        let _ = pos;
        if self.handle.is_closed() {
            return Err(WinError::new(ERROR_INVALID_HANDLE));
        }
        if success == 0 {
            return Err(WinError::new(last_error));
        }
        Ok(new_position as u64)
    }

    /// Begins an asynchronous operation: checks the handle, then
    /// re-arms the completion block (with the native event re-arm
    /// outcome). A channel without overlapped state cannot run
    /// asynchronous operations and reports the invalid-handle error.
    pub fn async_op_begin(&mut self, reset_ok: bool, reset_error: u32) -> (r: Result<(), WinError>)
        ensures
            final(self).is_open() == old(self).is_open(),
            final(self).has_overlapped() == old(self).has_overlapped(),
            !old(self).is_open() ==> (r matches Err(e) && e.code() == ERROR_INVALID_HANDLE)
                && *final(self) == *old(self),
            old(self).is_open() && !old(self).has_overlapped() ==> (r matches Err(e) && e.code()
                == ERROR_INVALID_HANDLE) && *final(self) == *old(self),
            old(self).is_open() && old(self).has_overlapped() && old(self).spec_overlapped().spec_is_closed() ==> (r matches Err(e) && e.code()
                == ERROR_INVALID_HANDLE) && *final(self) == *old(self),
            old(self).is_open() && old(self).has_overlapped() && !old(self).spec_overlapped().spec_is_closed() && !reset_ok ==> (r matches Err(e) && e.code()
                == reset_error) && *final(self) == *old(self),
            old(self).is_open() && old(self).has_overlapped() && !old(self).spec_overlapped().spec_is_closed() && reset_ok ==> r is Ok && final(self).spec_offset() == old(self).spec_offset() && !final(self).spec_overlapped().spec_is_closed(),
    {
        if self.handle.is_closed() {
            return Err(WinError::new(ERROR_INVALID_HANDLE));
        }
        match &mut self.overlapped {
            None => Err(WinError::new(ERROR_INVALID_HANDLE)),
            Some(overlapped) => {
                let r = overlapped.reset_overlapped(reset_ok, reset_error);
                r
            },
        }
    }

    /// Decides the immediate outcome of issuing an overlapped
    /// operation. If the native call completed at once, the channel's
    /// offset advances by the reported byte count and the operation is
    /// done. If the native layer reported "operation pending", the
    /// caller polls the completion; any other error finishes the
    /// operation at once.
    pub fn async_issue_outcome(&mut self, success: i32, bytes: u32, last_error: u32) -> (step:
        OverlappedIoStep)
        requires
            old(self).has_overlapped(),
            old(self).spec_offset() + bytes <= i64::MAX,
        ensures
            final(self).is_open() == old(self).is_open(),
            final(self).has_overlapped(),
            success != 0 ==> step == OverlappedIoStep::Done(bytes) && final(self).spec_offset()
                == old(self).spec_offset() + bytes,
            success == 0 && last_error == ERROR_IO_PENDING ==> step is Pending && *final(self)
                == *old(self),
            success == 0 && last_error != ERROR_IO_PENDING ==> (step matches OverlappedIoStep::Fail(
                e,
            ) && e.code() == last_error) && *final(self) == *old(self),
    {
        if success != 0 {
            match &mut self.overlapped {
                Some(overlapped) => {
                    overlapped.advance_offset(bytes as i64);
                },
                None => {},
            }
            return OverlappedIoStep::Done(bytes);
        }
        if last_error == ERROR_IO_PENDING {
            return OverlappedIoStep::Pending;
        }
        OverlappedIoStep::Fail(WinError::new(last_error))
    }

    /// Decides the outcome of one zero-timeout completion poll. A
    /// reported completion advances the channel's offset by the byte
    /// count and finishes the operation; the "still incomplete" status
    /// suspends the caller for another poll; any other error finishes
    /// the operation at once.
    pub fn async_poll_outcome(&mut self, completed: i32, bytes: u32, last_error: u32) -> (step:
        OverlappedIoStep)
        requires
            old(self).has_overlapped(),
            old(self).spec_offset() + bytes <= i64::MAX,
        ensures
            final(self).is_open() == old(self).is_open(),
            final(self).has_overlapped(),
            completed != 0 ==> step == OverlappedIoStep::Done(bytes) && final(self).spec_offset()
                == old(self).spec_offset() + bytes,
            completed == 0 && last_error == ERROR_IO_INCOMPLETE ==> step is Pending && *final(self)
                == *old(self),
            completed == 0 && last_error != ERROR_IO_INCOMPLETE ==> (step matches
                OverlappedIoStep::Fail(e) && e.code() == last_error) && *final(self) == *old(self),
    {
        if completed != 0 {
            match &mut self.overlapped {
                Some(overlapped) => {
                    overlapped.advance_offset(bytes as i64);
                },
                None => {},
            }
            return OverlappedIoStep::Done(bytes);
        }
        if last_error == ERROR_IO_INCOMPLETE {
            return OverlappedIoStep::Pending;
        }
        OverlappedIoStep::Fail(WinError::new(last_error))
    }

    /// Seeks an overlapped channel: a purely local adjustment of the
    /// logical offset, since the native call has no position cursor of
    /// its own when addressed through per-call offsets. Only absolute
    /// and relative positions are supported; seeking from the end must
    /// fail with the invalid-parameter error. On a channel without
    /// overlapped state the invalid-handle error is reported.
    pub fn seek_async(&mut self, pos: SeekFrom) -> (r: Result<u64, WinError>)
        requires
            pos matches SeekFrom::Current(off) ==> old(self).spec_offset() <= i64::MAX && old(self).spec_offset() + off <= i64::MAX,
        ensures
            final(self).is_open() == old(self).is_open(),
            final(self).has_overlapped() == old(self).has_overlapped(),
            !old(self).has_overlapped() ==> (r matches Err(e) && e.code() == ERROR_INVALID_HANDLE)
                && *final(self) == *old(self),
            old(self).has_overlapped() && pos is End ==> (r matches Err(e) && e.code()
                == ERROR_INVALID_PARAMETER) && *final(self) == *old(self),
            old(self).has_overlapped() ==> (pos matches SeekFrom::Start(off) ==> r == Ok::<
                u64,
                WinError,
            >(off) && final(self).spec_offset() == off),
            old(self).has_overlapped() ==> (pos matches SeekFrom::Current(off) ==> final(self).spec_offset() == max(old(self).spec_offset() + off, 0) && r == Ok::<u64, WinError>(
                final(self).spec_offset(),
            )),
    {
        match &mut self.overlapped {
            None => Err(WinError::new(ERROR_INVALID_HANDLE)),
            Some(overlapped) => {
                match pos {
                    SeekFrom::Start(off) => {
                        overlapped.set_offset(off);
                        Ok(off)
                    },
                    SeekFrom::Current(off) => {
                        overlapped.advance_offset(off);
                        Ok(overlapped.offset())
                    },
                    SeekFrom::End(_) => Err(WinError::new(ERROR_INVALID_PARAMETER)),
                }
            },
        }
    }
}

} // verus!
