use vstd::prelude::*;

verus! {

/// The ways a timestamp-setting operation can fail.
#[derive(Clone, Copy, Debug, PartialEq, Eq, Structural)]
pub enum TimesError {
    /// An absolute instant's seconds-since-epoch value does not fit the
    /// native timestamp field, so the request cannot be expressed.
    InvalidInstant,
    /// No way of performing the operation remains on this platform and
    /// target: a synthesized fallback, distinct from a raw OS error.
    Unsupported,
    /// Any other native failure, carrying the OS-provided error code.
    Os(i32),
}

} // verus!
