use vstd::prelude::*;
use crate::activation::LicenseError;

verus! {

/// A calendar date and time without a time zone, held as seconds since
/// 1970-01-01T00:00:00 and the nanoseconds past that second. The nanoseconds
/// exceed a second only to represent a leap second.
#[derive(Clone, Copy, Debug, PartialEq, Eq, Structural)]
pub struct Timestamp {
    pub secs: i64,
    pub nanos: u32,
}

/// How the application may currently be used. Exactly one variant holds at
/// a time.
#[derive(Clone, Copy, Debug, PartialEq, Eq, Structural)]
pub enum LicenseCheckStatus {
    /// Unlicensed personal use, the trial having ended at `trial_ended`.
    PersonalUse { trial_ended: Timestamp },
    /// Fully entitled use.
    CommercialUse,
    /// A license was supplied and rejected.
    InvalidLicense,
    /// Unlicensed use within a trial that ends at `end`.
    Trialing { end: Timestamp },
}

/// The entitlement status that the application runs under. License
/// enforcement is off: every check grants commercial use, whatever has been
/// activated or deactivated before, and never fails.
pub fn check_license() -> (r: Result<LicenseCheckStatus, LicenseError>)
    ensures
        r == Ok::<LicenseCheckStatus, LicenseError>(LicenseCheckStatus::CommercialUse),
{
    Ok(LicenseCheckStatus::CommercialUse)
}

} // verus!
