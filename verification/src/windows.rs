use vstd::prelude::*;

use crate::error::TimesError;
use crate::system_time_spec::{opt_time_spec_wf, timestamp_wf, SystemTimeSpec, Timestamp};

verus! {

/// Seconds from the Windows epoch (1601-01-01) to the Unix epoch
/// (1970-01-01): a Windows file time counts from the earlier epoch, so this
/// offset is added to seconds counted from the Unix epoch.
pub const WINDOWS_EPOCH_OFFSET_SECS: u64 = 11_644_473_600;

/// A Windows file time counts 100-nanosecond intervals: ten million of them
/// per second.
pub const INTERVALS_PER_SEC: u64 = 10_000_000;

/// Open flag asking for backup semantics, so that directories can be opened.
pub const FILE_FLAG_BACKUP_SEMANTICS: u32 = 0x0200_0000;

/// Open flag asking to open a reparse point (a symlink) itself rather than
/// what it points to.
pub const FILE_FLAG_OPEN_REPARSE_POINT: u32 = 0x0020_0000;

/// The Windows native file time: a 64-bit count of 100-nanosecond intervals
/// since the Windows epoch, packed into two 32-bit halves.
#[derive(Clone, Copy, Debug, PartialEq, Eq, Structural)]
pub struct FileTime {
    /// The low-order 32 bits of the interval count.
    pub low: u32,
    /// The high-order 32 bits of the interval count.
    pub high: u32,
}

/// The interval count a Windows file time carries for an instant: the
/// seconds re-based onto the Windows epoch, in 100-nanosecond units, plus
/// the sub-second remainder truncated to the same units.
pub open spec fn windows_intervals(t: Timestamp) -> int {
    (t.secs + WINDOWS_EPOCH_OFFSET_SECS) * INTERVALS_PER_SEC + t.nanos / 100
}

/// Whether an instant's interval count fits the 64-bit native field.
pub open spec fn fits_filetime(t: Timestamp) -> bool {
    windows_intervals(t) <= u64::MAX as int
}

/// How an instant converts to the Windows native file time: an interval
/// count too large for the field is an invalid instant; a count of exactly
/// zero would be silently ignored by the native call, so it is refused as
/// unsupported rather than applied as something else; any other count is
/// split into its two 32-bit halves.
pub open spec fn spec_to_filetime(t: Timestamp) -> Result<FileTime, TimesError> {
    if !fits_filetime(t) {
        Err(TimesError::InvalidInstant)
    } else if windows_intervals(t) == 0 {
        Err(TimesError::Unsupported)
    } else {
        Ok(FileTime {
            low: (windows_intervals(t) % 0x1_0000_0000) as u32,
            high: (windows_intervals(t) / 0x1_0000_0000) as u32,
        })
    }
}

/// Convert an instant to the Windows native file time.
pub fn to_filetime(t: Timestamp) -> (r: Result<FileTime, TimesError>)
    requires
        timestamp_wf(t),
    ensures
        r == spec_to_filetime(t),
{
    let win_secs = match t.secs.checked_add(WINDOWS_EPOCH_OFFSET_SECS) {
        Some(s) => s,
        None => {
            proof {
                lemma_intervals_monotone_in_secs(t);
            }
            return Err(TimesError::InvalidInstant);
        },
    };
    let base = match win_secs.checked_mul(INTERVALS_PER_SEC) {
        Some(b) => b,
        None => {
            return Err(TimesError::InvalidInstant);
        },
    };
    let intervals = match base.checked_add((t.nanos / 100) as u64) {
        Some(i) => i,
        None => {
            return Err(TimesError::InvalidInstant);
        },
    };
    if intervals == 0 {
        return Err(TimesError::Unsupported);
    }
    Ok(FileTime { low: (intervals % 0x1_0000_0000) as u32, high: (intervals / 0x1_0000_0000) as u32 })
}

/// The interval count grows at least as fast as the re-based seconds, so
/// seconds that overflow the 64-bit field mean a count that overflows it too.
proof fn lemma_intervals_monotone_in_secs(t: Timestamp)
    ensures
        windows_intervals(t) >= (t.secs + WINDOWS_EPOCH_OFFSET_SECS) as int,
{
    let s = (t.secs + WINDOWS_EPOCH_OFFSET_SECS) as int;
    assert(s * INTERVALS_PER_SEC >= s) by (nonlinear_arith)
        requires
            s >= 0,
    ;
}

/// How one optional field of a request resolves against a single
/// current-time reading `now`: absence stays absent (a null native pointer,
/// leaving the timestamp unchanged), the symbolic current time becomes that
/// one reading, and an absolute instant passes through.
pub open spec fn spec_resolve_at(s: Option<SystemTimeSpec>, now: Timestamp) -> Option<Timestamp> {
    match s {
        None => None,
        Some(SystemTimeSpec::SymbolicNow) => Some(now),
        Some(SystemTimeSpec::Absolute(t)) => Some(t),
    }
}

/// Resolve one optional field of a request against a current-time reading.
pub fn resolve_at(s: Option<SystemTimeSpec>, now: Timestamp) -> (r: Option<Timestamp>)
    ensures
        r == spec_resolve_at(s, now),
{
    match s {
        None => None,
        Some(SystemTimeSpec::SymbolicNow) => Some(now),
        Some(SystemTimeSpec::Absolute(t)) => Some(t),
    }
}

/// How a resolved optional field converts to an optional native file time:
/// an absent field stays absent, a present instant converts or fails as
/// [`spec_to_filetime`] says.
pub open spec fn spec_opt_filetime(o: Option<Timestamp>) -> Result<
    Option<FileTime>,
    TimesError,
> {
    match o {
        None => Ok(None),
        Some(t) => match spec_to_filetime(t) {
            Ok(f) => Ok(Some(f)),
            Err(e) => Err(e),
        },
    }
}

/// How a whole request resolves into the pair of optional Windows file
/// times, against a single current-time reading shared by both fields: the
/// access field converts first, so its failure is the one reported.
pub open spec fn spec_windows_file_times(
    atime: Option<SystemTimeSpec>,
    mtime: Option<SystemTimeSpec>,
    now: Timestamp,
) -> Result<(Option<FileTime>, Option<FileTime>), TimesError> {
    match (
        spec_opt_filetime(spec_resolve_at(atime, now)),
        spec_opt_filetime(spec_resolve_at(mtime, now)),
    ) {
        (Ok(a), Ok(m)) => Ok((a, m)),
        (Err(e), _) => Err(e),
        (Ok(_), Err(e)) => Err(e),
    }
}

/// Resolve a whole request into the pair of optional Windows file times.
/// The caller reads the clock once and passes the reading as `now`; when
/// both fields ask for the current time they receive that one reading, so
/// access and modification come out bit-for-bit equal rather than drifting
/// by the latency between two clock reads.
pub fn windows_file_times(
    atime: Option<SystemTimeSpec>,
    mtime: Option<SystemTimeSpec>,
    now: Timestamp,
) -> (r: Result<(Option<FileTime>, Option<FileTime>), TimesError>)
    requires
        opt_time_spec_wf(atime),
        opt_time_spec_wf(mtime),
        timestamp_wf(now),
    ensures
        r == spec_windows_file_times(atime, mtime, now),
{
    let a = match resolve_at(atime, now) {
        None => None,
        Some(t) => match to_filetime(t) {
            Ok(f) => Some(f),
            Err(e) => return Err(e),
        },
    };
    let m = match resolve_at(mtime, now) {
        None => None,
        Some(t) => match to_filetime(t) {
            Ok(f) => Some(f),
            Err(e) => return Err(e),
        },
    };
    Ok((a, m))
}

/// The flags a path-based operation opens the target with: backup semantics
/// always, so directories can be opened, and the reparse-point flag exactly
/// when the operation must act on a final symlink itself.
pub fn open_flags(no_follow: bool) -> (r: u32)
    ensures
        no_follow ==> r == (FILE_FLAG_BACKUP_SEMANTICS | FILE_FLAG_OPEN_REPARSE_POINT),
        !no_follow ==> r == FILE_FLAG_BACKUP_SEMANTICS,
{
    if no_follow {
        FILE_FLAG_BACKUP_SEMANTICS | FILE_FLAG_OPEN_REPARSE_POINT
    } else {
        FILE_FLAG_BACKUP_SEMANTICS
    }
}

/// The outcome of one attempt to open the target of a path-based operation.
#[derive(Clone, Copy, Debug, PartialEq, Eq, Structural)]
pub enum OpenOutcome {
    /// The open succeeded and yielded a handle.
    Opened,
    /// The open was refused on permission grounds.
    PermissionDenied,
    /// The open failed for any other reason, with the OS error code.
    Failed(i32),
}

/// The next step of a Windows path-based operation after an open attempt.
#[derive(Clone, Copy, Debug, PartialEq, Eq, Structural)]
pub enum OpenStep {
    /// Apply the timestamps through the handle just opened.
    UseHandle,
    /// Retry the same path read-only: setting timestamps needs only a
    /// handle, and some permission configurations refuse a write-mode open
    /// while a read-mode open still grants enough access.
    RetryReadOnly,
    /// Give up and report this error.
    Fail(TimesError),
}

/// Decide what follows the first, write-mode open attempt: a handle is used
/// directly; a permission refusal triggers the read-only retry; any other
/// failure is reported to the caller as it came from the OS.
pub fn step_after_write_open(outcome: OpenOutcome) -> (r: OpenStep)
    ensures
        outcome == OpenOutcome::Opened ==> r == OpenStep::UseHandle,
        outcome == OpenOutcome::PermissionDenied ==> r == OpenStep::RetryReadOnly,
        outcome matches OpenOutcome::Failed(code) ==> r == OpenStep::Fail(TimesError::Os(code)),
{
    match outcome {
        OpenOutcome::Opened => OpenStep::UseHandle,
        OpenOutcome::PermissionDenied => OpenStep::RetryReadOnly,
        OpenOutcome::Failed(code) => OpenStep::Fail(TimesError::Os(code)),
    }
}

/// Decide what follows the second, read-mode open attempt: a handle is used
/// directly; any failure means no path-based way to the operation remains,
/// so the fixed "unsupported" error is reported rather than the open error.
pub fn step_after_read_open(outcome: OpenOutcome) -> (r: OpenStep)
    ensures
        outcome == OpenOutcome::Opened ==> r == OpenStep::UseHandle,
        outcome != OpenOutcome::Opened ==> r == OpenStep::Fail(TimesError::Unsupported),
{
    match outcome {
        OpenOutcome::Opened => OpenStep::UseHandle,
        OpenOutcome::PermissionDenied => OpenStep::Fail(TimesError::Unsupported),
        OpenOutcome::Failed(_) => OpenStep::Fail(TimesError::Unsupported),
    }
}

} // verus!
