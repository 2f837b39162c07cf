//! Set the last-access and last-modification timestamps of files,
//! directories, and other filesystem objects.
//!
//! A request is a pair of optional [`SystemTimeSpec`] values, one for the
//! access time and one for the modification time; `None` means "leave this
//! timestamp unchanged". A request can be applied to a path, to a path
//! without following a final symlink, or to an already-open handle.
//!
//! On POSIX-like systems the request is resolved into the native
//! two-timestamp structure, with reserved `tv_nsec` sentinel values standing
//! for "leave unchanged" and "set to the current time", and applied with a
//! single syscall. The `windows` module holds the corresponding resolution
//! into the Windows native file-time representation.

mod error;
mod set_times;
mod system_time_spec;
pub mod windows;

pub use error::TimesError;
pub use set_times::{
    lemma_absolute_request_exact, lemma_omitted_field_left_unchanged,
    lemma_oversized_instant_rejected, lemma_symbolic_now_shared, now_timespec, omit_timespec,
    resolve_request, resolved_request, set_atime, set_mtime, set_symlink_times, set_times,
    set_times_post, spec_to_timespec, to_timespec, SetTimes, Timespec, Timestamps, UTIME_NOW,
    UTIME_OMIT,
};
pub use system_time_spec::{opt_time_spec_wf, time_spec_wf, timestamp_wf};
pub use system_time_spec::{SystemTimeSpec, Timestamp, NANOS_PER_SEC};
