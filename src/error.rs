use vstd::prelude::*;

verus! {

/// The ways a command/acknowledgement exchange with the module can fail.
#[derive(Debug, Clone, Copy, PartialEq, Eq, Structural)]
pub enum SfmError {
    /// The serial driver reported an error; the driver's error code is kept.
    Esp(i32),
    /// No complete acknowledgement arrived within the time budget.
    AckTimeout,
    /// Reserved for an acknowledgement that arrives incomplete; nothing raises it yet.
    AckMissingData,
    /// An acknowledgement arrived whose checksum byte does not match.
    AckChecksumMismatch,
}

} // verus!
