//! Remote attestation: the two enclave calls that start it, and the services
//! the enclave asks of the host while they run.
//!
//! The enclave calls and the platform's quoting functions are made by the
//! caller. The functions here judge what came back, and the two step functions
//! [`ocall_get_quote`] and [`ocall_get_ias_socket`] tell the caller what to do
//! next.

use vstd::prelude::*;
use crate::bridge::call_outcome;
use crate::bridge::check_call;
use crate::error::EnclaveError;
use crate::status::SgxStatus;
use crate::status::SGX_SUCCESS;

verus! {

/// What producing the attestation report comes to, given the two statuses of
/// the enclave call: the success status where both are, else the failure of
/// the call.
pub open spec fn report_outcome(transport: SgxStatus, internal: SgxStatus) -> Result<SgxStatus, EnclaveError> {
    match call_outcome(transport, internal) {
        Ok(_) => Ok(SgxStatus { code: SGX_SUCCESS }),
        Err(error) => Err(error),
    }
}

/// Judges the enclave call that produces the attestation report by the
/// transport status it returned and the status the enclave set.
pub fn inner_create_report(transport: SgxStatus, internal: SgxStatus) -> (outcome: Result<SgxStatus, EnclaveError>)
    ensures
        outcome == report_outcome(transport, internal),
{
    match check_call(transport, internal) {
        Ok(_) => Ok(SgxStatus::success()),
        Err(error) => Err(error),
    }
}

/// What the seed exchange comes to, given the two statuses of the enclave
/// call and the bytes it left in the seed buffer. A call that failed fails the
/// exchange whatever the buffer holds; a call that succeeded with no bytes is
/// an empty seed; otherwise the bytes are the encrypted seed.
pub open spec fn seed_outcome(transport: SgxStatus, internal: SgxStatus, seed: Seq<u8>) -> Result<
    Seq<u8>,
    EnclaveError,
> {
    match call_outcome(transport, internal) {
        Err(error) => Err(error),
        Ok(_) => if seed.len() == 0 {
            Err(EnclaveError::EmptySeed)
        } else {
            Ok(seed)
        },
    }
}

/// Judges the enclave call that encrypts the seed to the caller's
/// certificate, and hands the seed on to its new owner.
pub fn inner_get_encrypted_seed(transport: SgxStatus, internal: SgxStatus, seed: Vec<u8>) -> (outcome: Result<
    Vec<u8>,
    EnclaveError,
>)
    ensures
        match outcome {
            Ok(bytes) => seed_outcome(transport, internal, seed@) == Ok::<Seq<u8>, EnclaveError>(bytes@),
            Err(error) => seed_outcome(transport, internal, seed@) == Err::<Seq<u8>, EnclaveError>(error),
        },
{
    match check_call(transport, internal) {
        Err(error) => Err(error),
        Ok(_) => {
            if seed.len() == 0 {
                Err(EnclaveError::EmptySeed)
            } else {
                Ok(seed)
            }
        },
    }
}

/// A seed that is handed out is never empty, and it is handed out only for a
/// call whose two statuses are both the success status.
pub proof fn lemma_seed_is_never_empty(transport: SgxStatus, internal: SgxStatus, seed: Seq<u8>)
    ensures
        seed_outcome(transport, internal, seed) matches Ok(bytes) ==> bytes.len() > 0 && bytes == seed
            && transport.succeeded() && internal.succeeded(),
        transport.succeeded() && internal.succeeded() && seed.len() == 0 ==> seed_outcome(
            transport,
            internal,
            seed,
        ) == Err::<Seq<u8>, EnclaveError>(EnclaveError::EmptySeed),
{
}

/// Where the retrieval of a quote stands.
#[derive(Clone, Copy, Debug, PartialEq, Eq)]
pub enum QuoteRetrieval {
    /// The size of the quote has been asked for.
    AwaitingSize,
    /// The size is known and written back, and the quote has been asked for.
    AwaitingQuote { quote_len: u32 },
    /// The retrieval is over, with this status.
    Done { status: SgxStatus },
}

/// What the caller reports back.
#[derive(Clone, Copy, Debug, PartialEq, Eq)]
pub enum QuoteEvent {
    /// The status of the size computation, and the size it left.
    SizeComputed { status: SgxStatus, quote_len: u32 },
    /// The status of the quote retrieval.
    QuoteFetched { status: SgxStatus },
}

/// What the caller is to do next.
#[derive(Clone, Copy, Debug, PartialEq, Eq)]
pub enum QuoteAction {
    /// Ask the platform for the size of the quote that goes with the
    /// signature revocation list, and report `SizeComputed`.
    CalcQuoteSize,
    /// Write this length back across the boundary, ask the platform for the
    /// quote into the enclave's buffer with this length as its size, and
    /// report `QuoteFetched`.
    GetQuote { quote_len: u32 },
    /// Return this status to the enclave.
    Return { status: SgxStatus },
}

impl QuoteRetrieval {
    /// The action that a state waits on.
    pub open spec fn pending(self) -> QuoteAction {
        match self {
            QuoteRetrieval::AwaitingSize => QuoteAction::CalcQuoteSize,
            QuoteRetrieval::AwaitingQuote { quote_len } => QuoteAction::GetQuote { quote_len },
            QuoteRetrieval::Done { status } => QuoteAction::Return { status },
        }
    }

    /// The state after an event. A size computation that failed ends the
    /// retrieval with its status, and the quote is never asked for; one that
    /// succeeded leads to the quote being asked for with the size it gave.
    /// The retrieval of the quote ends the flow with its status, whatever it
    /// is. An event that does not answer the pending action changes nothing.
    pub open spec fn step(self, event: QuoteEvent) -> QuoteRetrieval {
        match (self, event) {
            (QuoteRetrieval::AwaitingSize, QuoteEvent::SizeComputed { status, quote_len }) => {
                if status.succeeded() {
                    QuoteRetrieval::AwaitingQuote { quote_len }
                } else {
                    QuoteRetrieval::Done { status }
                }
            },
            (QuoteRetrieval::AwaitingQuote { .. }, QuoteEvent::QuoteFetched { status }) => QuoteRetrieval::Done {
                status,
            },
            _ => self,
        }
    }

    /// Begins a retrieval. Returns the first state and the first action.
    pub fn start() -> (begun: (QuoteRetrieval, QuoteAction))
        ensures
            begun.0 == QuoteRetrieval::AwaitingSize,
            begun.1 == begun.0.pending(),
    {
        (QuoteRetrieval::AwaitingSize, QuoteAction::CalcQuoteSize)
    }

    /// The action that this state waits on.
    pub fn action(&self) -> (action: QuoteAction)
        ensures
            action == self.pending(),
    {
        match self {
            QuoteRetrieval::AwaitingSize => QuoteAction::CalcQuoteSize,
            QuoteRetrieval::AwaitingQuote { quote_len } => QuoteAction::GetQuote { quote_len: *quote_len },
            QuoteRetrieval::Done { status } => QuoteAction::Return { status: *status },
        }
    }
}

/// Serves the enclave's request for a quote, one step at a time: takes the
/// state of the retrieval and what the caller reports, and gives the next
/// state and the action it waits on.
pub fn ocall_get_quote(state: QuoteRetrieval, event: QuoteEvent) -> (next: (QuoteRetrieval, QuoteAction))
    ensures
        next.0 == state.step(event),
        next.1 == next.0.pending(),
{
    let after = match (state, event) {
        (QuoteRetrieval::AwaitingSize, QuoteEvent::SizeComputed { status, quote_len }) => {
            if status.is_success() {
                QuoteRetrieval::AwaitingQuote { quote_len }
            } else {
                QuoteRetrieval::Done { status }
            }
        },
        (QuoteRetrieval::AwaitingQuote { .. }, QuoteEvent::QuoteFetched { status }) => QuoteRetrieval::Done {
            status,
        },
        (state, _) => state,
    };
    let action = after.action();
    (after, action)
}

/// The actions a retrieval asks for, from the first to the one that returns,
/// when the size computation gives `size_status` and `quote_len` and the
/// retrieval of the quote gives `quote_status`.
pub open spec fn quote_actions(size_status: SgxStatus, quote_len: u32, quote_status: SgxStatus) -> Seq<
    QuoteAction,
> {
    let first = QuoteRetrieval::AwaitingSize;
    let second = first.step(QuoteEvent::SizeComputed { status: size_status, quote_len });
    if second is Done {
        seq![first.pending(), second.pending()]
    } else {
        let third = second.step(QuoteEvent::QuoteFetched { status: quote_status });
        seq![first.pending(), second.pending(), third.pending()]
    }
}

/// Each of the two steps passes on a status that is not the success status at
/// once: after a failed size computation no length is written back and no
/// quote is asked for. Otherwise the quote is asked for with the very length
/// that the size computation gave, and its status is returned as it is.
pub proof fn lemma_quote_steps_propagate(size_status: SgxStatus, quote_len: u32, quote_status: SgxStatus)
    ensures
        !size_status.succeeded() ==> quote_actions(size_status, quote_len, quote_status) == seq![
            QuoteAction::CalcQuoteSize,
            QuoteAction::Return { status: size_status },
        ],
        size_status.succeeded() ==> quote_actions(size_status, quote_len, quote_status) == seq![
            QuoteAction::CalcQuoteSize,
            QuoteAction::GetQuote { quote_len },
            QuoteAction::Return { status: quote_status },
        ],
{
}

/// Host name of the attestation authority.
pub const IAS_HOSTNAME: &'static str = "api.trustedservices.intel.com";

/// Port on which the attestation authority is reached.
pub const IAS_PORT: u16 = 443;

/// An address that the resolver gave for a host, with the port asked for.
#[derive(Clone, Copy, Debug, PartialEq, Eq, Structural)]
pub enum SocketAddress {
    /// An IPv4 address, its four bytes read as one big-endian number.
    V4 { ipv4: u32, port: u16 },
    /// An IPv6 address, its sixteen bytes read as one big-endian number.
    V6 { ipv6: u128, port: u16 },
}

/// `at` is the position of the first IPv4 address among the candidates.
pub open spec fn first_ipv4(candidates: Seq<SocketAddress>, at: int) -> bool {
    &&& 0 <= at < candidates.len()
    &&& candidates[at] is V4
    &&& forall|j: int| 0 <= j < at ==> !(candidates[j] is V4)
}

/// None of the candidates is an IPv4 address.
pub open spec fn no_ipv4(candidates: Seq<SocketAddress>) -> bool {
    forall|j: int| 0 <= j < candidates.len() ==> !(candidates[j] is V4)
}

/// The address that is picked from what the resolver gave: the first IPv4
/// address, in the resolver's order. Where there is none the lookup fails;
/// an IPv6 address is never picked.
pub open spec fn ipv4_choice(candidates: Seq<SocketAddress>) -> Result<SocketAddress, EnclaveError> {
    if no_ipv4(candidates) {
        Err(EnclaveError::DnsResolutionExhausted)
    } else {
        Ok(candidates[choose|at: int| first_ipv4(candidates, at)])
    }
}

/// The first IPv4 address is unique, and there is one unless no candidate is
/// an IPv4 address.
pub proof fn lemma_first_ipv4(candidates: Seq<SocketAddress>)
    ensures
        !no_ipv4(candidates) ==> exists|at: int| first_ipv4(candidates, at),
        forall|a: int, b: int| first_ipv4(candidates, a) && first_ipv4(candidates, b) ==> a == b,
    decreases candidates.len(),
{
    if !no_ipv4(candidates) {
        if candidates[0] is V4 {
            assert(first_ipv4(candidates, 0));
        } else {
            let rest = candidates.skip(1);
            let j = choose|j: int| 0 <= j < candidates.len() && candidates[j] is V4;
            assert(rest[j - 1] is V4);
            lemma_first_ipv4(rest);
            let at = choose|at: int| first_ipv4(rest, at);
            assert forall|k: int| 0 <= k < at + 1 implies !(candidates[k] is V4) by {
                if k > 0 {
                    assert(candidates[k] == rest[k - 1]);
                }
            }
            assert(first_ipv4(candidates, at + 1));
        }
    }
    assert forall|a: int, b: int| first_ipv4(candidates, a) && first_ipv4(candidates, b) implies a == b by {
        if a < b {
            assert(!(candidates[a] is V4));
        }
        if b < a {
            assert(!(candidates[b] is V4));
        }
    }
}

/// Picks the address to connect to from what the resolver gave for a host.
pub fn lookup_ipv4(candidates: &Vec<SocketAddress>) -> (picked: Result<SocketAddress, EnclaveError>)
    ensures
        picked == ipv4_choice(candidates@),
        match picked {
            Ok(address) => exists|at: int| first_ipv4(candidates@, at) && candidates@[at] == address,
            Err(error) => error == EnclaveError::DnsResolutionExhausted && no_ipv4(candidates@),
        },
{
    let mut i: usize = 0;
    while i < candidates.len()
        invariant
            i <= candidates.len(),
            forall|j: int| 0 <= j < i ==> !(candidates@[j] is V4),
        decreases candidates.len() - i,
    {
        let candidate = candidates[i];
        match candidate {
            SocketAddress::V4 { .. } => {
                proof {
                    assert(first_ipv4(candidates@, i as int));
                    lemma_first_ipv4(candidates@);
                }
                return Ok(candidate);
            },
            SocketAddress::V6 { .. } => {},
        }
        i = i + 1;
    }
    Err(EnclaveError::DnsResolutionExhausted)
}

/// Where the acquisition of a socket to the attestation authority stands.
#[derive(Clone, Copy, Debug, PartialEq, Eq)]
pub enum SocketAcquisition {
    /// The host name is being resolved.
    Resolving,
    /// An address is picked and the connection to it is being opened.
    Connecting { address: SocketAddress },
    /// The acquisition is over: with the descriptor of the open connection,
    /// or with the failure that ends the call.
    Done { outcome: Result<i32, EnclaveError> },
}

/// What the caller reports back.
#[derive(Debug, PartialEq, Eq)]
pub enum SocketEvent {
    /// The addresses the resolver gave, in its order.
    Resolved { candidates: Vec<SocketAddress> },
    /// The raw descriptor of the connection, or `None` where it could not be
    /// opened.
    Connected { descriptor: Option<i32> },
}

/// A report of the caller as a mathematical value.
pub enum SocketReport {
    Resolved { candidates: Seq<SocketAddress> },
    Connected { descriptor: Option<i32> },
}

impl View for SocketEvent {
    type V = SocketReport;

    open spec fn view(&self) -> SocketReport {
        match self {
            SocketEvent::Resolved { candidates } => SocketReport::Resolved { candidates: candidates@ },
            SocketEvent::Connected { descriptor } => SocketReport::Connected { descriptor: *descriptor },
        }
    }
}

/// What the caller is to do next.
#[derive(Clone, Copy, Debug, PartialEq, Eq)]
pub enum SocketAction {
    /// Resolve [`IAS_HOSTNAME`] with port [`IAS_PORT`], and report
    /// `Resolved`.
    Resolve,
    /// Open a direct connection to this address, and report `Connected`.
    Connect { address: SocketAddress },
    /// Hand this descriptor across the boundary and return this status.
    Deliver { descriptor: i32, status: SgxStatus },
    /// Give up the call: nothing can be handed to the enclave.
    Abort { error: EnclaveError },
}

impl SocketAcquisition {
    /// The action that a state waits on.
    pub open spec fn pending(self) -> SocketAction {
        match self {
            SocketAcquisition::Resolving => SocketAction::Resolve,
            SocketAcquisition::Connecting { address } => SocketAction::Connect { address },
            SocketAcquisition::Done { outcome: Ok(descriptor) } => SocketAction::Deliver {
                descriptor,
                status: SgxStatus { code: SGX_SUCCESS },
            },
            SocketAcquisition::Done { outcome: Err(error) } => SocketAction::Abort { error },
        }
    }

    /// The state after a report. The first IPv4 address that the resolver
    /// gave is the one connected to, and where it gave none the acquisition
    /// fails without a connection being tried. A connection that could not be
    /// opened fails it too. A report that does not answer the pending action
    /// changes nothing.
    pub open spec fn step(self, report: SocketReport) -> SocketAcquisition {
        match (self, report) {
            (SocketAcquisition::Resolving, SocketReport::Resolved { candidates }) => match ipv4_choice(
                candidates,
            ) {
                Ok(address) => SocketAcquisition::Connecting { address },
                Err(error) => SocketAcquisition::Done { outcome: Err(error) },
            },
            (SocketAcquisition::Connecting { .. }, SocketReport::Connected { descriptor }) => SocketAcquisition::Done {
                outcome: match descriptor {
                    Some(fd) => Ok(fd),
                    None => Err(EnclaveError::ConnectFailed),
                },
            },
            _ => self,
        }
    }

    /// Begins an acquisition. Returns the first state and the first action.
    pub fn start() -> (begun: (SocketAcquisition, SocketAction))
        ensures
            begun.0 == SocketAcquisition::Resolving,
            begun.1 == begun.0.pending(),
    {
        (SocketAcquisition::Resolving, SocketAction::Resolve)
    }

    /// The action that this state waits on.
    pub fn action(&self) -> (action: SocketAction)
        ensures
            action == self.pending(),
    {
        match self {
            SocketAcquisition::Resolving => SocketAction::Resolve,
            SocketAcquisition::Connecting { address } => SocketAction::Connect { address: *address },
            SocketAcquisition::Done { outcome: Ok(descriptor) } => SocketAction::Deliver {
                descriptor: *descriptor,
                status: SgxStatus::success(),
            },
            SocketAcquisition::Done { outcome: Err(error) } => SocketAction::Abort { error: *error },
        }
    }
}

/// Serves the enclave's request for a socket to the attestation authority,
/// one step at a time: takes the state of the acquisition and what the caller
/// reports, and gives the next state and the action it waits on.
pub fn ocall_get_ias_socket(state: SocketAcquisition, event: &SocketEvent) -> (next: (
    SocketAcquisition,
    SocketAction,
))
    ensures
        next.0 == state.step(event@),
        next.1 == next.0.pending(),
{
    let after = match (state, event) {
        (SocketAcquisition::Resolving, SocketEvent::Resolved { candidates }) => match lookup_ipv4(candidates) {
            Ok(address) => SocketAcquisition::Connecting { address },
            Err(error) => SocketAcquisition::Done { outcome: Err(error) },
        },
        (SocketAcquisition::Connecting { .. }, SocketEvent::Connected { descriptor }) => SocketAcquisition::Done {
            outcome: match descriptor {
                Some(fd) => Ok(*fd),
                None => Err(EnclaveError::ConnectFailed),
            },
        },
        (state, _) => state,
    };
    let action = after.action();
    (after, action)
}

/// With a resolver that gives no IPv4 address, be it nothing at all or IPv6
/// addresses only, the acquisition of the socket ends at once with
/// `DnsResolutionExhausted`: no connection is asked for, and no IPv6 address
/// is ever connected to.
pub proof fn lemma_ipv6_only_fails(candidates: Seq<SocketAddress>)
    ensures
        no_ipv4(candidates) ==> SocketAcquisition::Resolving.step(SocketReport::Resolved { candidates })
            == (SocketAcquisition::Done { outcome: Err(EnclaveError::DnsResolutionExhausted) }),
        SocketAcquisition::Resolving.step(SocketReport::Resolved { candidates }) matches SocketAcquisition::Connecting {
            address,
        } ==> address is V4 && exists|at: int| first_ipv4(candidates, at) && candidates[at] == address,
{
    lemma_first_ipv4(candidates);
}

} // verus!
