use fs_set_times::{
    set_atime, set_mtime, set_symlink_times, set_times, SetTimes, SystemTimeSpec, TimesError,
    Timestamp,
};
use rustix::fd::OwnedFd;
use rustix::fs::{lstat, open, stat, symlink, unlink, Mode, OFlags, Stat};
use rustix::time::{clock_gettime, ClockId};

fn create_file(path: &str) -> OwnedFd {
    let _ = unlink(path);
    open(
        path,
        OFlags::CREATE | OFlags::WRONLY | OFlags::TRUNC,
        Mode::from_raw_mode(0o644),
    )
    .unwrap()
}

fn times_of(st: &Stat) -> (i64, u64, i64, u64) {
    (st.st_atime, st.st_atime_nsec, st.st_mtime, st.st_mtime_nsec)
}

fn abs(secs: u64, nanos: u32) -> Option<SystemTimeSpec> {
    Some(SystemTimeSpec::Absolute(Timestamp { secs, nanos }))
}

#[test]
fn round_trip_absolute_instant() {
    let path = "/tmp/fs_set_times_round_trip";
    let _fd = create_file(path);
    let t = Timestamp { secs: 1_600_000_000, nanos: 123_456_789 };
    set_times(path, abs(t.secs, t.nanos), abs(t.secs, t.nanos)).unwrap();
    let st = stat(path).unwrap();
    assert_eq!(
        times_of(&st),
        (t.secs as i64, t.nanos as u64, t.secs as i64, t.nanos as u64)
    );
    let _ = unlink(path);
}

#[test]
fn set_mtime_leaves_access_time_unchanged() {
    let path = "/tmp/fs_set_times_omit_atime";
    let _fd = create_file(path);
    set_times(path, abs(1_000, 1), abs(2_000, 2)).unwrap();
    set_mtime(path, SystemTimeSpec::Absolute(Timestamp { secs: 3_000, nanos: 3 })).unwrap();
    let st = stat(path).unwrap();
    assert_eq!(times_of(&st), (1_000, 1, 3_000, 3));
    let _ = unlink(path);
}

#[test]
fn set_atime_leaves_modification_time_unchanged() {
    let path = "/tmp/fs_set_times_omit_mtime";
    let _fd = create_file(path);
    set_times(path, abs(1_000, 1), abs(2_000, 2)).unwrap();
    set_atime(path, SystemTimeSpec::Absolute(Timestamp { secs: 4_000, nanos: 4 })).unwrap();
    let st = stat(path).unwrap();
    assert_eq!(times_of(&st), (4_000, 4, 2_000, 2));
    let _ = unlink(path);
}

#[test]
fn symbolic_now_sets_both_to_one_bounded_instant() {
    let path = "/tmp/fs_set_times_symbolic_now";
    let _fd = create_file(path);
    let before = clock_gettime(ClockId::Realtime);
    set_times(
        path,
        Some(SystemTimeSpec::SymbolicNow),
        Some(SystemTimeSpec::SymbolicNow),
    )
    .unwrap();
    let after = clock_gettime(ClockId::Realtime);
    let st = stat(path).unwrap();
    assert_eq!(
        (st.st_atime, st.st_atime_nsec),
        (st.st_mtime, st.st_mtime_nsec)
    );
    let written = (st.st_atime, st.st_atime_nsec as i64);
    // The filesystem clock is tick-granular and may lag the precise clock by
    // a tick, so allow one second of slack on the lower bound.
    assert!((before.tv_sec - 1, before.tv_nsec) <= written);
    assert!(written <= (after.tv_sec, after.tv_nsec));
    let _ = unlink(path);
}

#[test]
fn symlink_times_touch_the_link_not_the_target() {
    let target = "/tmp/fs_set_times_symlink_target";
    let link = "/tmp/fs_set_times_symlink_link";
    let _fd = create_file(target);
    let _ = unlink(link);
    symlink(target, link).unwrap();
    set_times(target, abs(1_000, 1), abs(1_000, 1)).unwrap();
    set_symlink_times(link, abs(2_000, 2), abs(2_000, 2)).unwrap();
    let target_st = stat(target).unwrap();
    let link_st = lstat(link).unwrap();
    assert_eq!(times_of(&target_st), (1_000, 1, 1_000, 1));
    assert_eq!(times_of(&link_st), (2_000, 2, 2_000, 2));
    let _ = unlink(link);
    let _ = unlink(target);
}

#[test]
fn following_times_touch_the_target_not_the_link() {
    let target = "/tmp/fs_set_times_follow_target";
    let link = "/tmp/fs_set_times_follow_link";
    let _fd = create_file(target);
    let _ = unlink(link);
    symlink(target, link).unwrap();
    set_symlink_times(link, abs(2_000, 2), abs(2_000, 2)).unwrap();
    set_times(link, abs(3_000, 3), abs(3_000, 3)).unwrap();
    let target_st = stat(target).unwrap();
    let link_st = lstat(link).unwrap();
    assert_eq!(times_of(&target_st), (3_000, 3, 3_000, 3));
    // Resolving the path reads the link, which may refresh the link's own
    // access time; its modification time shows the link was not retargeted.
    assert_eq!((link_st.st_mtime, link_st.st_mtime_nsec), (2_000, 2));
    let _ = unlink(link);
    let _ = unlink(target);
}

#[test]
fn handle_and_path_give_identical_metadata() {
    let by_path = "/tmp/fs_set_times_by_path";
    let by_handle = "/tmp/fs_set_times_by_handle";
    let _fd1 = create_file(by_path);
    let fd2 = create_file(by_handle);
    set_times(by_path, abs(5_000, 5), abs(6_000, 6)).unwrap();
    fd2.set_times(abs(5_000, 5), abs(6_000, 6)).unwrap();
    let st1 = stat(by_path).unwrap();
    let st2 = stat(by_handle).unwrap();
    assert_eq!(times_of(&st1), times_of(&st2));
    assert_eq!(times_of(&st1), (5_000, 5, 6_000, 6));
    let _ = unlink(by_path);
    let _ = unlink(by_handle);
}

#[test]
fn handle_rejects_oversized_instant_like_path() {
    let path = "/tmp/fs_set_times_handle_oversized";
    let fd = create_file(path);
    let r = fd.set_times(abs(u64::MAX, 0), None);
    assert_eq!(r, Err(TimesError::InvalidInstant));
    let _ = unlink(path);
}

#[test]
fn oversized_instant_mutates_nothing() {
    let path = "/tmp/fs_set_times_oversized";
    let _fd = create_file(path);
    set_times(path, abs(1_000, 1), abs(2_000, 2)).unwrap();
    let r = set_times(path, abs(u64::MAX, 0), abs(u64::MAX, 0));
    assert_eq!(r, Err(TimesError::InvalidInstant));
    let st = stat(path).unwrap();
    assert_eq!(times_of(&st), (1_000, 1, 2_000, 2));
    let _ = unlink(path);
}

#[test]
fn missing_file_reports_the_os_error() {
    let path = "/tmp/fs_set_times_definitely_missing";
    let _ = unlink(path);
    let r = set_times(path, Some(SystemTimeSpec::SymbolicNow), None);
    // ENOENT
    assert_eq!(r, Err(TimesError::Os(2)));
}
