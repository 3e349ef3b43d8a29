use vstd::prelude::*;

verus! {

/// A point-in-time snapshot of one peripheral observed during a scan.
///
/// Both the advertised name and the signal strength are optional as a
/// first-class invariant: not every advertisement packet carries them, and
/// absence is preserved, never coerced to a sentinel value.
#[derive(Debug, PartialEq)]
pub struct ScannedDevice {
    /// Advertised local name, absent when no packet carried one.
    pub name: Option<String>,
    /// Textual form of the platform-scoped radio address.
    pub address: String,
    /// Received signal strength indicator; higher means closer/stronger.
    pub signal_strength: Option<i16>,
}

} // verus!
