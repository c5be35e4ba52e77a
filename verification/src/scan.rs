use vstd::prelude::*;

verus! {

/// Time, in milliseconds, that the input lines get to settle after a select line of a
/// button matrix has been driven, before they are sampled.
pub const SETTLE_MILLIS: u64 = 1;

/// What the driver of a button matrix does next during a scan.
#[allow(inconsistent_fields)]
#[derive(Debug, Clone, Copy, PartialEq, Eq, Structural)]
pub enum ScanStep<R, B> {
    /// Drive the `release` select line low (when there is one), drive `select` high, wait
    /// `SETTLE_MILLIS`, then sample the input lines and record them.
    Select { release: Option<R>, select: R },
    /// Drive the `release` select line low: the scan is over and `buttons` is its result.
    Done { release: R, buttons: B },
}

} // verus!
