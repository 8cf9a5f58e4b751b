//! Status codes of the SGX platform, and the two-status outcome of an
//! enclave call.

use vstd::prelude::*;

verus! {

/// Code of `SGX_SUCCESS`.
pub const SGX_SUCCESS: u32 = 0x0000_0000;

/// Code of `SGX_ERROR_UNEXPECTED`.
pub const SGX_ERROR_UNEXPECTED: u32 = 0x0000_0001;

/// Code of `SGX_ERROR_INVALID_ENCLAVE`.
pub const SGX_ERROR_INVALID_ENCLAVE: u32 = 0x0000_2001;

/// A status code as the SGX platform reports it, held by its number.
#[derive(Clone, Copy, Debug, PartialEq, Eq, Structural)]
pub struct SgxStatus {
    pub code: u32,
}

/// The description that `sgx_types` gives for the status with this code, or
/// `None` for a code that names no status.
pub uninterp spec fn sgx_description(code: u32) -> Option<Seq<char>>;

/// Calls `sgx_status_t::from_repr` and, on a known status,
/// `sgx_status_t::__description`. Both are total matches over the status
/// enum, so the text depends on the code alone.
#[verifier::external_body]
fn describe_code(code: u32) -> (text: Option<String>)
    ensures
        text.is_some() == sgx_description(code).is_some(),
        text matches Some(t) ==> sgx_description(code) == Some(t@),
{
    match sgx_types::sgx_status_t::from_repr(code) {
        Some(status) => Some(status.__description().to_string()),
        None => None,
    }
}

impl SgxStatus {
    /// Whether this is the success status.
    pub open spec fn succeeded(self) -> bool {
        self.code == SGX_SUCCESS
    }

    /// The status with the given code.
    pub fn new(code: u32) -> (status: SgxStatus)
        ensures
            status.code == code,
    {
        SgxStatus { code }
    }

    /// `SGX_SUCCESS`.
    pub fn success() -> (status: SgxStatus)
        ensures
            status.code == SGX_SUCCESS,
            status.succeeded(),
    {
        SgxStatus { code: SGX_SUCCESS }
    }

    /// `SGX_ERROR_UNEXPECTED`.
    pub fn unexpected() -> (status: SgxStatus)
        ensures
            status.code == SGX_ERROR_UNEXPECTED,
            !status.succeeded(),
    {
        SgxStatus { code: SGX_ERROR_UNEXPECTED }
    }

    /// `SGX_ERROR_INVALID_ENCLAVE`.
    pub fn invalid_enclave() -> (status: SgxStatus)
        ensures
            status.code == SGX_ERROR_INVALID_ENCLAVE,
            !status.succeeded(),
    {
        SgxStatus { code: SGX_ERROR_INVALID_ENCLAVE }
    }

    /// Whether this is the success status.
    pub fn is_success(&self) -> (yes: bool)
        ensures
            yes == self.succeeded(),
    {
        self.code == SGX_SUCCESS
    }

    /// The status that is handed to the platform for this one: the status
    /// itself where the platform knows its code, and `SGX_ERROR_UNEXPECTED`
    /// where it does not.
    pub fn reported(&self) -> (status: SgxStatus)
        ensures
            status == if sgx_description(self.code).is_some() {
                *self
            } else {
                SgxStatus { code: SGX_ERROR_UNEXPECTED }
            },
    {
        match describe_code(self.code) {
            Some(_) => *self,
            None => SgxStatus::unexpected(),
        }
    }

    /// The platform's description of this status, `None` where the code names
    /// no status of the platform.
    pub fn description(&self) -> (text: Option<String>)
        ensures
            text.is_some() == sgx_description(self.code).is_some(),
            text matches Some(t) ==> sgx_description(self.code) == Some(t@),
    {
        describe_code(self.code)
    }
}

} // verus!
