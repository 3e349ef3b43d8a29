use vstd::prelude::*;

verus! {

/// Everything that can abort one scan invocation. Every internal failure is
/// surfaced immediately as a single terminal error for the whole call: there
/// is no partial-success return and no internal retry.
#[derive(Debug, PartialEq)]
pub enum ScanError {
    /// No radio adapter is available: user-visible and non-retryable.
    NoAdapterError,
    /// Initializing the platform radio manager or adapter failed.
    PlatformError(String),
    /// The start-discovery request failed; no stop is attempted after it.
    StartScanError(String),
    /// The stop-discovery request failed after the window elapsed.
    StopScanError(String),
    /// A peripheral's property snapshot could not be read; this aborts the
    /// entire read (all-or-nothing strictness, not skip-and-continue).
    PropertyReadError(String),
}

impl ScanError {
    /// Collapse the structured failure kind to the single human-readable
    /// string that crosses the external boundary.
    pub fn into_message(self) -> (r: String)
        ensures
            self is NoAdapterError ==> r@ == "No Bluetooth adapters found"@,
            self matches ScanError::PlatformError(d) ==> r == d,
            self matches ScanError::StartScanError(d) ==> r == d,
            self matches ScanError::StopScanError(d) ==> r == d,
            self matches ScanError::PropertyReadError(d) ==> r == d,
    {
        match self {
            ScanError::NoAdapterError => String::from_str("No Bluetooth adapters found"),
            ScanError::PlatformError(d) => d,
            ScanError::StartScanError(d) => d,
            ScanError::StopScanError(d) => d,
            ScanError::PropertyReadError(d) => d,
        }
    }
}

} // verus!
