//! The runtime configuration of the enclave, handed over once.
//!
//! A [`ConfigurationGate`] remembers whether the configuration call has been
//! tried. Whoever finds the flag unset sets it and makes the call; everyone
//! after that finds it set and has nothing left to do, whatever became of
//! the call. The enclave call itself is made by the caller:
//! [`configure_enclave`] tells it what to do next.

use vstd::prelude::*;
use parking_lot::Mutex;
use crate::bridge::call_outcome;
use crate::bridge::check_call;
use crate::enclave::EnclaveHandle;
use crate::error::EnclaveError;
use crate::status::SgxStatus;
use crate::sync::load;
use crate::sync::lock;
use crate::sync::new_mutex;
use crate::sync::store;
use crate::sync::unlock;

verus! {

/// The tunable parameters of the enclave's runtime.
#[derive(Clone, Copy, Debug, PartialEq, Eq, Structural)]
pub struct EnclaveRuntimeConfig {
    /// How many modules the enclave keeps in its cache.
    pub module_cache_size: u8,
}

/// The configuration in the fixed-width form in which it crosses the enclave
/// boundary.
#[derive(Clone, Copy, Debug, PartialEq, Eq, Structural)]
pub struct RuntimeConfiguration {
    pub module_cache_size: u8,
}

impl EnclaveRuntimeConfig {
    /// The record that crosses the boundary for this configuration.
    pub open spec fn ffi_record(self) -> RuntimeConfiguration {
        RuntimeConfiguration { module_cache_size: self.module_cache_size }
    }

    /// The record that crosses the boundary for this configuration.
    pub fn to_ffi_type(&self) -> (record: RuntimeConfiguration)
        ensures
            record == self.ffi_record(),
    {
        RuntimeConfiguration { module_cache_size: self.module_cache_size }
    }
}

/// Whether the configuration call has been tried.
#[derive(Clone, Copy, Debug, PartialEq, Eq, Structural)]
pub struct ConfigurationState {
    pub configured: bool,
}

impl ConfigurationState {
    /// The state of a process in which the call has not been tried.
    pub fn new() -> (state: ConfigurationState)
        ensures
            !state.configured,
    {
        ConfigurationState { configured: false }
    }

    /// Marks the configuration as tried. Returns whether this was the first
    /// time, in which case the caller is the one to make the call.
    pub fn claim(&mut self) -> (first: bool)
        ensures
            first == !old(self).configured,
            final(self).configured,
    {
        let first = !self.configured;
        self.configured = true;
        first
    }
}

/// What `callers` callers are told one after the other when the flag is
/// `configured` as the first of them comes: for each, whether it is
/// the one to make the call.
pub open spec fn claims(configured: bool, callers: nat) -> Seq<bool>
    decreases callers,
{
    if callers == 0 {
        Seq::empty()
    } else {
        seq![!configured] + claims(true, (callers - 1) as nat)
    }
}

/// Of any number of callers that come one after the other, only the first to
/// find the flag unset is told to make the call: the call is made once at
/// most, and never again once the flag is set.
pub proof fn lemma_configured_once(configured: bool, callers: nat)
    ensures
        claims(configured, callers).len() == callers,
        forall|i: int| 0 <= i < callers ==> claims(configured, callers)[i] == (i == 0 && !configured),
    decreases callers,
{
    if callers > 0 {
        lemma_configured_once(true, (callers - 1) as nat);
        let rest = claims(true, (callers - 1) as nat);
        assert forall|i: int| 0 <= i < callers implies claims(configured, callers)[i] == (i == 0 && !configured) by {
            if i > 0 {
                assert(claims(configured, callers)[i] == rest[i - 1]);
            }
        }
    }
}

/// The flag of a process, behind its lock.
pub struct ConfigurationGate {
    configured: Mutex<ConfigurationState>,
}

impl ConfigurationGate {
    /// The flag of a process in which the call has not been tried.
    pub fn new() -> (gate: ConfigurationGate) {
        ConfigurationGate { configured: new_mutex(ConfigurationState::new()) }
    }

    /// Marks the configuration as tried, under the lock, and gives the lock up
    /// again before it returns. Returns whether this caller is the one to
    /// make the call; what it returns depends on who came before.
    pub fn claim(&self) -> (first: bool) {
        let mut held = lock(&self.configured);
        let mut state: ConfigurationState = load(&held);
        let first = state.claim();
        store(&mut held, state);
        unlock(held);
        first
    }
}

/// Where the configuration of the enclave stands for one caller.
#[derive(Clone, Copy, Debug, PartialEq, Eq)]
pub enum Configuration {
    /// The flag was unset: the enclave has been asked for.
    AwaitingEnclave { config: EnclaveRuntimeConfig },
    /// The enclave is there and the configuration call is under way.
    AwaitingCall { eid: u64, record: RuntimeConfiguration },
    /// Nothing is left to do for this caller.
    Done { outcome: Result<(), EnclaveError> },
}

/// What the caller reports back.
#[derive(Clone, Copy, Debug, PartialEq, Eq)]
pub enum ConfigureEvent {
    /// The enclave, or why there is none.
    Enclave { known: Result<EnclaveHandle, EnclaveError> },
    /// The transport status of the configuration call and the status that
    /// the enclave set.
    Called { transport: SgxStatus, internal: SgxStatus },
}

/// What the caller is to do next.
#[derive(Clone, Copy, Debug, PartialEq, Eq)]
pub enum ConfigureAction {
    /// Get the enclave, creating it if that has not been tried, and report
    /// `Enclave`.
    GetEnclave,
    /// Make the configuration call into the enclave with this identifier,
    /// handing it this record, and report `Called`.
    Call { eid: u64, record: RuntimeConfiguration },
    /// Return this outcome.
    Finish { outcome: Result<(), EnclaveError> },
}

impl Configuration {
    /// Where a caller starts that was told `first` when it claimed the flag:
    /// the one that found it unset sets out to make the call; any other is
    /// done, with success, and makes none.
    pub open spec fn begun(first: bool, config: EnclaveRuntimeConfig) -> Configuration {
        if first {
            Configuration::AwaitingEnclave { config }
        } else {
            Configuration::Done { outcome: Ok(()) }
        }
    }

    /// The action that a state waits on.
    pub open spec fn pending(self) -> ConfigureAction {
        match self {
            Configuration::AwaitingEnclave { .. } => ConfigureAction::GetEnclave,
            Configuration::AwaitingCall { eid, record } => ConfigureAction::Call { eid, record },
            Configuration::Done { outcome } => ConfigureAction::Finish { outcome },
        }
    }

    /// The state after an event. Without an enclave the configuration fails
    /// with what the enclave failed with; with one, the call is made with the
    /// record of the configuration, and the call's two statuses decide. An
    /// event that does not answer the pending action changes nothing.
    pub open spec fn step(self, event: ConfigureEvent) -> Configuration {
        match (self, event) {
            (Configuration::AwaitingEnclave { config }, ConfigureEvent::Enclave { known }) => match known {
                Ok(enclave) => Configuration::AwaitingCall { eid: enclave.eid, record: config.ffi_record() },
                Err(error) => Configuration::Done { outcome: Err(error) },
            },
            (Configuration::AwaitingCall { .. }, ConfigureEvent::Called { transport, internal }) => Configuration::Done {
                outcome: call_outcome(transport, internal),
            },
            _ => self,
        }
    }

    /// Where a caller starts that was told `first` when it claimed the flag.
    /// Returns the first state and the first action.
    pub fn begin(first: bool, config: EnclaveRuntimeConfig) -> (begun: (Configuration, ConfigureAction))
        ensures
            begun.0 == Configuration::begun(first, config),
            begun.1 == begun.0.pending(),
    {
        if first {
            (Configuration::AwaitingEnclave { config }, ConfigureAction::GetEnclave)
        } else {
            (Configuration::Done { outcome: Ok(()) }, ConfigureAction::Finish { outcome: Ok(()) })
        }
    }

    /// Claims the flag for a caller and starts its configuration. Whether
    /// the caller is the first depends on who came before; either way the
    /// state returned is the one [`Configuration::begun`] gives for one of
    /// the two answers.
    pub fn start(gate: &ConfigurationGate, config: EnclaveRuntimeConfig) -> (begun: (Configuration, ConfigureAction))
        ensures
            begun.0 == Configuration::begun(true, config) || begun.0 == Configuration::begun(false, config),
            begun.1 == begun.0.pending(),
    {
        let first = gate.claim();
        Configuration::begin(first, config)
    }

    /// The action that this state waits on.
    pub fn action(&self) -> (action: ConfigureAction)
        ensures
            action == self.pending(),
    {
        match self {
            Configuration::AwaitingEnclave { .. } => ConfigureAction::GetEnclave,
            Configuration::AwaitingCall { eid, record } => ConfigureAction::Call { eid: *eid, record: *record },
            Configuration::Done { outcome } => ConfigureAction::Finish { outcome: *outcome },
        }
    }
}

/// Configures the enclave for one caller, one step at a time: takes the state
/// of its configuration and what the caller reports, and gives the next state
/// and the action it waits on.
pub fn configure_enclave(state: Configuration, event: ConfigureEvent) -> (next: (Configuration, ConfigureAction))
    ensures
        next.0 == state.step(event),
        next.1 == next.0.pending(),
{
    let after = match (state, event) {
        (Configuration::AwaitingEnclave { config }, ConfigureEvent::Enclave { known }) => match known {
            Ok(enclave) => Configuration::AwaitingCall { eid: enclave.eid, record: config.to_ffi_type() },
            Err(error) => Configuration::Done { outcome: Err(error) },
        },
        (Configuration::AwaitingCall { .. }, ConfigureEvent::Called { transport, internal }) => Configuration::Done {
            outcome: check_call(transport, internal),
        },
        (state, _) => state,
    };
    let action = after.action();
    (after, action)
}

/// The actions one caller is given, from the first to the one that finishes,
/// when it was told `first` as it claimed the flag, the enclave is `known`, and the
/// configuration call gives the statuses `transport` and `internal`.
pub open spec fn configure_actions(
    first: bool,
    config: EnclaveRuntimeConfig,
    known: Result<EnclaveHandle, EnclaveError>,
    transport: SgxStatus,
    internal: SgxStatus,
) -> Seq<ConfigureAction> {
    let begun = Configuration::begun(first, config);
    if begun is Done {
        seq![begun.pending()]
    } else {
        let second = begun.step(ConfigureEvent::Enclave { known });
        if second is Done {
            seq![begun.pending(), second.pending()]
        } else {
            let third = second.step(ConfigureEvent::Called { transport, internal });
            seq![begun.pending(), second.pending(), third.pending()]
        }
    }
}

/// A caller that finds the flag set makes no call and is told that all is
/// well. The caller that found it unset makes one call, with the record of its
/// configuration, if there is an enclave, and none if there is not; what it is
/// told is what the enclave's absence or the call's statuses say.
pub proof fn lemma_configuration_calls(
    first: bool,
    config: EnclaveRuntimeConfig,
    known: Result<EnclaveHandle, EnclaveError>,
    transport: SgxStatus,
    internal: SgxStatus,
)
    ensures
        !first ==> configure_actions(first, config, known, transport, internal) == seq![
            ConfigureAction::Finish { outcome: Ok(()) },
        ],
        first ==> match known {
            Err(error) => configure_actions(first, config, known, transport, internal) == seq![
                ConfigureAction::GetEnclave,
                ConfigureAction::Finish { outcome: Err(error) },
            ],
            Ok(enclave) => configure_actions(first, config, known, transport, internal) == seq![
                ConfigureAction::GetEnclave,
                ConfigureAction::Call { eid: enclave.eid, record: config.ffi_record() },
                ConfigureAction::Finish { outcome: call_outcome(transport, internal) },
            ],
        },
{
}

/// Where the one configuration call succeeds, every caller is told the same,
/// the one that made the call and those that found the flag set alike.
pub proof fn lemma_same_outcome_after_success(
    config: EnclaveRuntimeConfig,
    other: EnclaveRuntimeConfig,
    enclave: EnclaveHandle,
    transport: SgxStatus,
    internal: SgxStatus,
)
    requires
        transport.succeeded(),
        internal.succeeded(),
    ensures
        configure_actions(true, config, Ok(enclave), transport, internal).last() == configure_actions(
            false,
            other,
            Ok(enclave),
            transport,
            internal,
        ).last(),
{
}

} // verus!
