//! The error taxonomy of the stage: an invalid urgency level is fatal at
//! construction; a chain-state fault or a wrapped inner-stage error ends one
//! preparation call and is returned to the caller, never retried here.

use vstd::prelude::*;

verus! {

/// A fault in the chain state read for fee estimation.
#[derive(Clone, Copy, Debug, PartialEq, Eq, Structural)]
pub enum ProviderFault {
    /// No latest block was returned.
    LatestBlockNotFound,
    /// The latest block carries no base-fee field: the chain does not run
    /// the fee market yet.
    FeeMarketNotActive,
    /// The fee history is unusable: a block's reward row is empty, or a
    /// value is too large for fee arithmetic.
    InvalidFeeData,
}

/// An error of the fee-estimation stage, generic over the error type of the
/// wrapped inner stage.
#[derive(Clone, Copy, Debug, PartialEq, Eq)]
pub enum GasFeeMiddlewareError<E> {
    /// An error of the inner stage or of a chain query made through it,
    /// preserved for inspection.
    MiddlewareError(E),
    /// A chain-state fault found by this stage itself.
    ProviderError(ProviderFault),
    /// The supplied urgency level maps to no percentile.
    InvalidGasFeeSpeed,
}

impl<E> GasFeeMiddlewareError<E> {
    /// Wraps an inner-stage error.
    pub fn from_err(src: E) -> (r: Self)
        ensures
            r == GasFeeMiddlewareError::<E>::MiddlewareError(src),
    {
        GasFeeMiddlewareError::MiddlewareError(src)
    }

    /// The preserved inner-stage error, where this error wraps one.
    pub fn as_inner(&self) -> (r: Option<&E>)
        ensures
            r is Some <==> *self is MiddlewareError,
            r matches Some(e) ==> *self == GasFeeMiddlewareError::<E>::MiddlewareError(*e),
    {
        match self {
            GasFeeMiddlewareError::MiddlewareError(e) => Some(e),
            _ => None,
        }
    }
}

} // verus!
