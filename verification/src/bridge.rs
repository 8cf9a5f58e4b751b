//! The rule every enclave call is judged by.
//!
//! A call into the enclave answers with two statuses: that of the transport,
//! which says whether the call crossed the boundary and came back, and that of
//! the enclave, which says what the enclave made of it. The call succeeded
//! only if both are the success status, and the two kinds of failure are kept
//! apart.

use vstd::prelude::*;
use crate::error::EnclaveError;
use crate::status::SgxStatus;

verus! {

/// The outcome of an enclave call with the given transport and enclave
/// statuses. The transport is looked at first: where it failed, the enclave's
/// status means nothing.
pub open spec fn call_outcome(transport: SgxStatus, internal: SgxStatus) -> Result<(), EnclaveError> {
    if !transport.succeeded() {
        Err(EnclaveError::TransportCallFailed(transport))
    } else if !internal.succeeded() {
        Err(EnclaveError::EnclaveInternalRejection(internal))
    } else {
        Ok(())
    }
}

/// Judges an enclave call by its two statuses.
pub fn check_call(transport: SgxStatus, internal: SgxStatus) -> (outcome: Result<(), EnclaveError>)
    ensures
        outcome == call_outcome(transport, internal),
{
    if !transport.is_success() {
        return Err(EnclaveError::TransportCallFailed(transport));
    }
    if !internal.is_success() {
        return Err(EnclaveError::EnclaveInternalRejection(internal));
    }
    Ok(())
}

/// An enclave call succeeds exactly when both statuses are the success
/// status; a failed call surfaces the first status that is not.
pub proof fn call_outcome_is_dual(transport: SgxStatus, internal: SgxStatus)
    ensures
        call_outcome(transport, internal).is_ok() <==> transport.succeeded() && internal.succeeded(),
        call_outcome(transport, internal) matches Err(e) ==> e.status_of() == Some(
            if transport.succeeded() {
                internal
            } else {
                transport
            },
        ),
{
}

} // verus!
