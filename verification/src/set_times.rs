use vstd::prelude::*;

use crate::error::TimesError;
use crate::system_time_spec::{
    opt_time_spec_wf, time_spec_wf, timestamp_wf, SystemTimeSpec, Timestamp,
};

verus! {

/// The `tv_nsec` sentinel meaning "set this timestamp to the time the
/// operation executes"; the OS reads the clock once per syscall.
pub const UTIME_NOW: i64 = 1_073_741_823;

/// The `tv_nsec` sentinel meaning "leave this timestamp unchanged".
pub const UTIME_OMIT: i64 = 1_073_741_822;

/// The native single-timestamp structure of the POSIX-like syscalls: whole
/// seconds and a nanosecond field, which may instead carry one of the two
/// reserved sentinel values.
#[derive(Clone, Copy, Debug, PartialEq, Eq, Structural)]
pub struct Timespec {
    /// Whole seconds since the Unix epoch.
    pub tv_sec: i64,
    /// Nanoseconds, or one of [`UTIME_NOW`] and [`UTIME_OMIT`].
    pub tv_nsec: i64,
}

/// The native two-timestamp structure handed to the POSIX-like syscalls in
/// one call.
#[derive(Clone, Copy, Debug, PartialEq, Eq, Structural)]
pub struct Timestamps {
    /// The timestamp of the last access to the filesystem object.
    pub last_access: Timespec,
    /// The timestamp of the last modification of the filesystem object.
    pub last_modification: Timespec,
}

/// The native field that leaves a timestamp untouched.
pub open spec fn omit_timespec() -> Timespec {
    Timespec { tv_sec: 0, tv_nsec: UTIME_OMIT }
}

/// The native field that sets a timestamp to the current time.
pub open spec fn now_timespec() -> Timespec {
    Timespec { tv_sec: 0, tv_nsec: UTIME_NOW }
}

/// How one optional field of a request resolves into a native timestamp
/// field: absence becomes the "omit" sentinel, the symbolic current time
/// becomes the "now" sentinel, and an absolute instant is transmitted
/// exactly, provided its seconds fit the native signed field.
pub open spec fn spec_to_timespec(ft: Option<SystemTimeSpec>) -> Result<Timespec, TimesError> {
    match ft {
        None => Ok(omit_timespec()),
        Some(SystemTimeSpec::SymbolicNow) => Ok(now_timespec()),
        Some(SystemTimeSpec::Absolute(t)) => if t.secs as int <= i64::MAX as int {
            Ok(Timespec { tv_sec: t.secs as i64, tv_nsec: t.nanos as i64 })
        } else {
            Err(TimesError::InvalidInstant)
        },
    }
}

/// Resolve one optional field of a request into the native timestamp field.
pub fn to_timespec(ft: Option<SystemTimeSpec>) -> (r: Result<Timespec, TimesError>)
    requires
        opt_time_spec_wf(ft),
    ensures
        r == spec_to_timespec(ft),
{
    match ft {
        None => Ok(Timespec { tv_sec: 0, tv_nsec: UTIME_OMIT }),
        Some(SystemTimeSpec::SymbolicNow) => Ok(Timespec { tv_sec: 0, tv_nsec: UTIME_NOW }),
        Some(SystemTimeSpec::Absolute(t)) => {
            let nanoseconds = t.nanos;
            // A normalized sub-second component can never collide with the
            // reserved sentinel values, which lie above one billion.
            assert(nanoseconds as i64 != UTIME_OMIT);
            assert(nanoseconds as i64 != UTIME_NOW);
            if t.secs <= i64::MAX as u64 {
                Ok(Timespec { tv_sec: t.secs as i64, tv_nsec: nanoseconds as i64 })
            } else {
                Err(TimesError::InvalidInstant)
            }
        },
    }
}

/// How a whole request resolves into the native two-timestamp structure: the
/// access field is resolved first, so its failure is the one reported when
/// both fields are out of range.
pub open spec fn resolved_request(
    atime: Option<SystemTimeSpec>,
    mtime: Option<SystemTimeSpec>,
) -> Result<Timestamps, TimesError> {
    match (spec_to_timespec(atime), spec_to_timespec(mtime)) {
        (Ok(a), Ok(m)) => Ok(Timestamps { last_access: a, last_modification: m }),
        (Err(e), _) => Err(e),
        (Ok(_), Err(e)) => Err(e),
    }
}

/// Resolve a whole request into the native two-timestamp structure.
pub fn resolve_request(
    atime: Option<SystemTimeSpec>,
    mtime: Option<SystemTimeSpec>,
) -> (r: Result<Timestamps, TimesError>)
    requires
        opt_time_spec_wf(atime),
        opt_time_spec_wf(mtime),
    ensures
        r == resolved_request(atime, mtime),
{
    let last_access = match to_timespec(atime) {
        Ok(t) => t,
        Err(e) => return Err(e),
    };
    let last_modification = match to_timespec(mtime) {
        Ok(t) => t,
        Err(e) => return Err(e),
    };
    Ok(Timestamps { last_access, last_modification })
}

/// What every public setter promises: a request whose resolution fails is
/// rejected with exactly that error and nothing is asked of the OS; a request
/// that resolves is handed to the OS once, and any failure from there is a
/// raw OS error code.
pub open spec fn set_times_post(
    atime: Option<SystemTimeSpec>,
    mtime: Option<SystemTimeSpec>,
    r: Result<(), TimesError>,
) -> bool {
    &&& resolved_request(atime, mtime) matches Err(e) ==> r == Err::<(), TimesError>(e)
    &&& resolved_request(atime, mtime) is Ok ==> (r is Ok || r matches Err(TimesError::Os(_)))
    &&& r == Err::<(), TimesError>(TimesError::InvalidInstant) <==> resolved_request(atime, mtime) is Err
    &&& r != Err::<(), TimesError>(TimesError::Unsupported)
}

/// An absolute instant within the native range is transmitted exactly: a
/// request that sets both timestamps to `t` hands the OS `t`'s seconds and
/// nanoseconds unchanged, in both fields, and the nanosecond field collides
/// with neither sentinel, so the OS applies precisely the requested instant.
pub proof fn lemma_absolute_request_exact(t: Timestamp)
    requires
        timestamp_wf(t),
        t.secs as int <= i64::MAX as int,
    ensures
        resolved_request(
            Some(SystemTimeSpec::Absolute(t)),
            Some(SystemTimeSpec::Absolute(t)),
        ) matches Ok(ts) && ts.last_access.tv_sec == t.secs as i64
            && ts.last_access.tv_nsec == t.nanos as i64 && ts.last_modification == ts.last_access
            && ts.last_access.tv_nsec != UTIME_OMIT && ts.last_access.tv_nsec != UTIME_NOW,
{
}

/// A field absent from a request resolves to the "leave unchanged" sentinel
/// -- never to a real instant -- whatever the other field holds; in the
/// Windows resolution an absent field stays absent, becoming a null pointer
/// that the native call ignores. The other timestamp is thus set without
/// touching this one.
pub proof fn lemma_omitted_field_left_unchanged(other: Option<SystemTimeSpec>, now: Timestamp)
    ensures
        resolved_request(None, other) matches Ok(ts) ==> ts.last_access == omit_timespec(),
        resolved_request(other, None) matches Ok(ts) ==> ts.last_modification == omit_timespec(),
        crate::windows::spec_resolve_at(None, now) is None,
{
}

/// When both fields of a request are the symbolic current time, both native
/// fields carry the "now" sentinel of one single syscall on POSIX-like
/// systems, and the Windows resolution gives both fields the same single
/// clock reading: access and modification are set to one shared instant, not
/// two instants drifting apart by the latency between two clock reads.
pub proof fn lemma_symbolic_now_shared(now: Timestamp)
    ensures
        resolved_request(
            Some(SystemTimeSpec::SymbolicNow),
            Some(SystemTimeSpec::SymbolicNow),
        ) matches Ok(ts) && ts.last_access == now_timespec() && ts.last_modification
            == now_timespec(),
        crate::windows::spec_resolve_at(Some(SystemTimeSpec::SymbolicNow), now) == Some(now),
        crate::windows::spec_windows_file_times(
            Some(SystemTimeSpec::SymbolicNow),
            Some(SystemTimeSpec::SymbolicNow),
            now,
        ) matches Ok(p) ==> p.0 == p.1,
{
}

/// An absolute instant whose seconds exceed the native signed field is
/// rejected as an invalid instant during resolution, whichever field carries
/// it and whatever the other field holds: no syscall is made and no metadata
/// changes.
pub proof fn lemma_oversized_instant_rejected(t: Timestamp, other: Option<SystemTimeSpec>)
    requires
        t.secs as int > i64::MAX as int,
    ensures
        resolved_request(Some(SystemTimeSpec::Absolute(t)), other) == Err::<
            Timestamps,
            TimesError,
        >(TimesError::InvalidInstant),
        resolved_request(other, Some(SystemTimeSpec::Absolute(t))) == Err::<
            Timestamps,
            TimesError,
        >(TimesError::InvalidInstant),
{
}

/// Relies on `rustix::fs::utimensat`, invoked at `rustix::fs::CWD` so the
/// path is resolved relative to the current working directory. The OS applies
/// `last_access` and `last_modification` to the named object atomically in
/// one call, reading the `tv_nsec` sentinels `UTIME_NOW` and `UTIME_OMIT` as
/// "current time" and "leave unchanged"; it follows a final symlink unless
/// `AtFlags::SYMLINK_NOFOLLOW` is passed, in which case it acts on the
/// symlink itself. On failure the OS error code is returned.
#[verifier::external_body]
fn sys_utimensat(path: &str, times: &Timestamps, no_follow: bool) -> (r: Result<(), i32>) {
    let a = times.last_access;
    let m = times.last_modification;
    let native = rustix::fs::Timestamps {
        last_access: rustix::fs::Timespec { tv_sec: a.tv_sec, tv_nsec: a.tv_nsec },
        last_modification: rustix::fs::Timespec { tv_sec: m.tv_sec, tv_nsec: m.tv_nsec },
    };
    let flags =
        if no_follow { rustix::fs::AtFlags::SYMLINK_NOFOLLOW } else { rustix::fs::AtFlags::empty() };
    match rustix::fs::utimensat(rustix::fs::CWD, path, &native, flags) {
        Ok(()) => Ok(()),
        Err(e) => Err(e.raw_os_error()),
    }
}

/// `rustix::fd::OwnedFd`: an owned handle to an open filesystem object,
/// opaque to this library; callers obtain and close it themselves.
#[verifier::external_type_specification]
#[verifier::external_body]
pub struct ExOwnedFd(rustix::fd::OwnedFd);

/// Relies on `rustix::fs::futimens`: the OS applies the two timestamps to
/// the open file description behind the handle, atomically in one call, with
/// the same sentinel reading as `utimensat`. On failure the OS error code is
/// returned.
#[verifier::external_body]
fn sys_futimens(fd: &rustix::fd::OwnedFd, times: &Timestamps) -> (r: Result<(), i32>) {
    let a = times.last_access;
    let m = times.last_modification;
    let native = rustix::fs::Timestamps {
        last_access: rustix::fs::Timespec { tv_sec: a.tv_sec, tv_nsec: a.tv_nsec },
        last_modification: rustix::fs::Timespec { tv_sec: m.tv_sec, tv_nsec: m.tv_nsec },
    };
    match rustix::fs::futimens(fd, &native) {
        Ok(()) => Ok(()),
        Err(e) => Err(e.raw_os_error()),
    }
}

/// Set the last access timestamp of a file or other filesystem object.
pub fn set_atime(path: &str, atime: SystemTimeSpec) -> (r: Result<(), TimesError>)
    requires
        time_spec_wf(atime),
    ensures
        set_times_post(Some(atime), None, r),
{
    set_times(path, Some(atime), None)
}

/// Set the last modification timestamp of a file or other filesystem object.
pub fn set_mtime(path: &str, mtime: SystemTimeSpec) -> (r: Result<(), TimesError>)
    requires
        time_spec_wf(mtime),
    ensures
        set_times_post(None, Some(mtime), r),
{
    set_times(path, None, Some(mtime))
}

/// Set the last access and last modification timestamps of a file or other
/// filesystem object, following a final symlink.
pub fn set_times(
    path: &str,
    atime: Option<SystemTimeSpec>,
    mtime: Option<SystemTimeSpec>,
) -> (r: Result<(), TimesError>)
    requires
        opt_time_spec_wf(atime),
        opt_time_spec_wf(mtime),
    ensures
        set_times_post(atime, mtime, r),
{
    let times = match resolve_request(atime, mtime) {
        Ok(t) => t,
        Err(e) => return Err(e),
    };
    match sys_utimensat(path, &times, false) {
        Ok(()) => Ok(()),
        Err(code) => Err(TimesError::Os(code)),
    }
}

/// Like `set_times`, but never follows symlinks: if the path names a
/// symlink, the symlink's own timestamps are set.
pub fn set_symlink_times(
    path: &str,
    atime: Option<SystemTimeSpec>,
    mtime: Option<SystemTimeSpec>,
) -> (r: Result<(), TimesError>)
    requires
        opt_time_spec_wf(atime),
        opt_time_spec_wf(mtime),
    ensures
        set_times_post(atime, mtime, r),
{
    let times = match resolve_request(atime, mtime) {
        Ok(t) => t,
        Err(e) => return Err(e),
    };
    match sys_utimensat(path, &times, true) {
        Ok(()) => Ok(()),
        Err(code) => Err(TimesError::Os(code)),
    }
}

/// An extension trait for open file handles.
pub trait SetTimes {
    /// Set the last access and last modification timestamps of an open file
    /// handle, resolving the request with the same rules as the path-based
    /// operations.
    fn set_times(
        &self,
        atime: Option<SystemTimeSpec>,
        mtime: Option<SystemTimeSpec>,
    ) -> (r: Result<(), TimesError>)
        requires
            opt_time_spec_wf(atime),
            opt_time_spec_wf(mtime),
        ensures
            set_times_post(atime, mtime, r),
    ;
}

impl SetTimes for rustix::fd::OwnedFd {
    fn set_times(
        &self,
        atime: Option<SystemTimeSpec>,
        mtime: Option<SystemTimeSpec>,
    ) -> (r: Result<(), TimesError>) {
        let times = match resolve_request(atime, mtime) {
            Ok(t) => t,
            Err(e) => return Err(e),
        };
        match sys_futimens(self, &times) {
            Ok(()) => Ok(()),
            Err(code) => Err(TimesError::Os(code)),
        }
    }
}

} // verus!
