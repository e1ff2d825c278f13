//! Error reported by the shared I2C bus.

use vstd::prelude::*;

verus! {

/// Any failure of a transfer on the shared bus.
#[derive(Debug, Clone, Copy, PartialEq, Eq, Structural)]
pub struct TwimError;

/// The shared bus's result for a transfer: the transfer's own value on
/// success, `TwimError` for any failure of the underlying driver.
pub fn bus_result<T, E>(transfer: Result<T, E>) -> (result: Result<T, TwimError>)
    ensures
        transfer is Ok <==> result is Ok,
        transfer matches Ok(v) ==> result == Ok::<T, TwimError>(v),
        transfer is Err ==> result == Err::<T, TwimError>(TwimError),
{
    match transfer {
        Ok(v) => Ok(v),
        Err(_) => Err(TwimError),
    }
}

} // verus!
