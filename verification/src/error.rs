use vstd::prelude::*;
use crate::mode::Mode;

verus! {

/// Every way a radio operation can fail.
#[derive(Debug, Clone)]
pub enum RadioError {
    /// The byte transport failed; the text describes how.
    Transport(String),
    /// No response within timeout.
    Timeout,
    /// Protocol fault: the driver gave up after repeated errors.
    Fault,
    /// The radio handle is closed.
    Closed,
    /// The mode is not supported by this radio.
    UnsupportedMode(Mode),
    /// The frequency (Hz) lies outside any supported range.
    OutOfRange(u64),
    /// The feature is not supported by this radio.
    Unsupported,
    /// Driver-specific failure; the text describes it.
    Driver(String),
}

/// The failures of a URC-200 dispatcher: the transport broke (with its
/// description), a command timed out, the protocol faulted, or the
/// dispatcher is closed.
#[derive(Debug, Clone)]
pub enum DriverError {
    Transport(String),
    Timeout,
    Fault,
    Closed,
}

/// The generic error that a dispatcher failure stands for.
pub open spec fn driver_error_to_radio(e: DriverError) -> RadioError {
    match e {
        DriverError::Transport(t) => RadioError::Transport(t),
        DriverError::Timeout => RadioError::Timeout,
        DriverError::Fault => RadioError::Fault,
        DriverError::Closed => RadioError::Closed,
    }
}

impl From<DriverError> for RadioError {
    fn from(e: DriverError) -> (r: RadioError) {
        match e {
            DriverError::Transport(t) => RadioError::Transport(t),
            DriverError::Timeout => RadioError::Timeout,
            DriverError::Fault => RadioError::Fault,
            DriverError::Closed => RadioError::Closed,
        }
    }
}

impl vstd::std_specs::convert::FromSpecImpl<DriverError> for RadioError {
    open spec fn obeys_from_spec() -> bool {
        true
    }

    open spec fn from_spec(e: DriverError) -> RadioError {
        driver_error_to_radio(e)
    }
}

} // verus!
