//! Errors of the telemetry transports.

use vstd::prelude::*;

verus! {

/// Why a telemetry record could not be sent.
#[derive(Debug, Clone, Copy, PartialEq, Eq, Structural)]
pub enum TransportError {
    Ble,
    Encode,
}

} // verus!
