//! The failures of the host side, and the status code each one surfaces.

use vstd::prelude::*;
use crate::status::SgxStatus;
use crate::status::SGX_ERROR_INVALID_ENCLAVE;
use crate::status::SGX_ERROR_UNEXPECTED;

verus! {

/// What can go wrong on the host side of the enclave.
#[derive(Clone, Copy, Debug, PartialEq, Eq, Structural)]
pub enum EnclaveError {
    /// The enclave image is in none of the search directories.
    EnclaveNotFound,
    /// The platform refused to create the enclave; holds its status.
    EnclaveCreationFailed(SgxStatus),
    /// An enclave call did not complete; holds the transport status.
    TransportCallFailed(SgxStatus),
    /// An enclave call completed and the enclave reported a failure; holds
    /// the enclave's status.
    EnclaveInternalRejection(SgxStatus),
    /// The enclave reported success and handed back a seed of no bytes.
    EmptySeed,
    /// No slot of the doorbell came free within the timeout.
    AdmissionDenied,
    /// The resolver gave no IPv4 address.
    DnsResolutionExhausted,
    /// The connection to the attestation authority could not be opened.
    ConnectFailed,
}

impl EnclaveError {
    /// The platform status that stands for this failure, for those that have
    /// one. A missing image counts as an invalid enclave, an empty seed as an
    /// unexpected error; a failed call or creation keeps the status it came
    /// with. A denied admission and the two network failures have none.
    pub open spec fn status_of(self) -> Option<SgxStatus> {
        match self {
            EnclaveError::EnclaveNotFound => Some(SgxStatus { code: SGX_ERROR_INVALID_ENCLAVE }),
            EnclaveError::EnclaveCreationFailed(status) => Some(status),
            EnclaveError::TransportCallFailed(status) => Some(status),
            EnclaveError::EnclaveInternalRejection(status) => Some(status),
            EnclaveError::EmptySeed => Some(SgxStatus { code: SGX_ERROR_UNEXPECTED }),
            EnclaveError::AdmissionDenied => None,
            EnclaveError::DnsResolutionExhausted => None,
            EnclaveError::ConnectFailed => None,
        }
    }

    /// The platform status that stands for this failure.
    pub fn status(&self) -> (status: Option<SgxStatus>)
        ensures
            status == self.status_of(),
    {
        match self {
            EnclaveError::EnclaveNotFound => Some(SgxStatus::invalid_enclave()),
            EnclaveError::EnclaveCreationFailed(status) => Some(*status),
            EnclaveError::TransportCallFailed(status) => Some(*status),
            EnclaveError::EnclaveInternalRejection(status) => Some(*status),
            EnclaveError::EmptySeed => Some(SgxStatus::unexpected()),
            EnclaveError::AdmissionDenied => None,
            EnclaveError::DnsResolutionExhausted => None,
            EnclaveError::ConnectFailed => None,
        }
    }
}

} // verus!
