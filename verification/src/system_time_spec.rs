use vstd::prelude::*;

verus! {

/// Nanoseconds in one second; the sub-second component of a well-formed
/// instant is below this bound.
pub const NANOS_PER_SEC: u32 = 1_000_000_000;

/// An absolute point in time: a duration since the Unix epoch (1970-01-01),
/// with nanosecond precision.
#[derive(Clone, Copy, Debug, PartialEq, Eq, Structural)]
pub struct Timestamp {
    /// Whole seconds since the Unix epoch.
    pub secs: u64,
    /// The sub-second remainder, in nanoseconds; always below
    /// [`NANOS_PER_SEC`] in a well-formed instant.
    pub nanos: u32,
}

/// A well-formed instant carries a normalized sub-second component. This
/// also keeps the component clear of the reserved `tv_nsec` sentinel
/// values, which lie above one billion.
pub open spec fn timestamp_wf(t: Timestamp) -> bool {
    t.nanos < NANOS_PER_SEC
}

/// A value for specifying a time.
#[derive(Clone, Copy, Debug, PartialEq, Eq, Structural)]
pub enum SystemTimeSpec {
    /// A value which always represents the current time, in symbolic form,
    /// so that even as time elapses, it continues to represent the current
    /// time. It is resolved when an operation executes, never earlier.
    SymbolicNow,

    /// An absolute time value.
    Absolute(Timestamp),
}

/// Well-formedness of a time specification: an absolute instant must be
/// well-formed; the symbolic form carries nothing to constrain.
pub open spec fn time_spec_wf(s: SystemTimeSpec) -> bool {
    s matches SystemTimeSpec::Absolute(t) ==> timestamp_wf(t)
}

/// Well-formedness of one optional field of a request.
pub open spec fn opt_time_spec_wf(s: Option<SystemTimeSpec>) -> bool {
    s matches Some(ts) ==> time_spec_wf(ts)
}

impl From<Timestamp> for SystemTimeSpec {
    /// An instant converts to the absolute form of a time specification.
    fn from(time: Timestamp) -> (r: Self) {
        SystemTimeSpec::Absolute(time)
    }
}

impl vstd::std_specs::convert::FromSpecImpl<Timestamp> for SystemTimeSpec {
    open spec fn obeys_from_spec() -> bool {
        true
    }

    open spec fn from_spec(time: Timestamp) -> Self {
        SystemTimeSpec::Absolute(time)
    }
}

} // verus!
