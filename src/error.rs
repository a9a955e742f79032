//! The failures a field resolution reports.
use vstd::prelude::*;
use crate::dispatch::DispatchError;
use crate::id::IdError;

verus! {

/// A failure attached to the field being resolved.
#[derive(Clone, Debug)]
pub enum GatewayError {
    /// An outbound call failed.
    Dispatch(DispatchError),
    /// A global identifier given by the caller could not be decoded.
    Identifier(IdError),
    /// A cart item asks for a delivery method that is not supported.
    UnsupportedDeliveryMethod,
    /// A value given by the caller is malformed (the name of the field).
    Validation(String),
}

} // verus!
