//! The errors of a report. Each one names the step that refused the request;
//! a refused request changes nothing.

use vstd::prelude::*;

verus! {

/// Why the caller was not authorized.
#[derive(Clone, Copy, Debug, PartialEq, Eq)]
pub enum AuthError {
    /// The caller did not sign the request.
    SignatureMissing,
    /// The reporter record named in the request is not the one derived from
    /// the network and the caller's identity.
    RoleMismatch,
    /// The reporter's standing does not permit reporting.
    RoleNotPermitted,
}

/// Why no case id could be allocated.
#[derive(Clone, Copy, Debug, PartialEq, Eq)]
pub enum AllocationError {
    /// The slot named as the network holds no network record.
    ParentNotFound,
    /// The network has issued every id that its counter can hold.
    CounterExhausted,
}

/// Why the record could not be created.
#[derive(Clone, Copy, Debug, PartialEq, Eq)]
pub enum CreateError {
    /// The target slot already holds data or a balance.
    SlotOccupied,
    /// The target is not the address derived for the record.
    AddressMismatch,
    /// The record cannot be encoded in its stored layout.
    SerializationError,
    /// The funding identity cannot pay the reserve of the record.
    InsufficientFunding,
}

/// Why a report was refused.
#[derive(Clone, Copy, Debug, PartialEq, Eq)]
pub enum ReportError {
    Auth(AuthError),
    Allocation(AllocationError),
    Create(CreateError),
}

} // verus!
