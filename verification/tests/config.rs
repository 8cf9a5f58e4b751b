use sgx_vm::config::{
    configure_enclave, Configuration, ConfigurationGate, ConfigurationState, ConfigureAction,
    ConfigureEvent, EnclaveRuntimeConfig, RuntimeConfiguration,
};
use sgx_vm::enclave::EnclaveHandle;
use sgx_vm::error::EnclaveError;
use sgx_vm::status::SgxStatus;

fn run(
    gate: &ConfigurationGate,
    config: EnclaveRuntimeConfig,
    known: Result<EnclaveHandle, EnclaveError>,
    transport: SgxStatus,
    internal: SgxStatus,
) -> (u32, Result<(), EnclaveError>) {
    let mut calls = 0;
    let (mut state, mut action) = Configuration::start(gate, config);
    loop {
        let event = match action {
            ConfigureAction::GetEnclave => ConfigureEvent::Enclave { known },
            ConfigureAction::Call { .. } => {
                calls += 1;
                ConfigureEvent::Called { transport, internal }
            }
            ConfigureAction::Finish { outcome } => return (calls, outcome),
        };
        let next = configure_enclave(state, event);
        state = next.0;
        action = next.1;
    }
}

#[test]
fn record_carries_cache_size() {
    let config = EnclaveRuntimeConfig { module_cache_size: 7 };
    assert_eq!(config.to_ffi_type(), RuntimeConfiguration { module_cache_size: 7 });
}

#[test]
fn state_is_claimed_once() {
    let mut state = ConfigurationState::new();
    assert!(!state.configured);
    assert!(state.claim());
    assert!(state.configured);
    assert!(!state.claim());
    assert!(!state.claim());
    assert!(state.configured);
}

#[test]
fn gate_lets_only_the_first_caller_through() {
    let gate = ConfigurationGate::new();
    assert!(gate.claim());
    assert!(!gate.claim());
    assert!(!gate.claim());
}

#[test]
fn first_caller_makes_the_call() {
    let config = EnclaveRuntimeConfig { module_cache_size: 3 };
    let (state, action) = Configuration::begin(true, config);
    assert_eq!(state, Configuration::AwaitingEnclave { config });
    assert_eq!(action, ConfigureAction::GetEnclave);
    let (state, action) = configure_enclave(
        state,
        ConfigureEvent::Enclave { known: Ok(EnclaveHandle { eid: 11 }) },
    );
    let record = RuntimeConfiguration { module_cache_size: 3 };
    assert_eq!(state, Configuration::AwaitingCall { eid: 11, record });
    assert_eq!(action, ConfigureAction::Call { eid: 11, record });
    let (state, action) = configure_enclave(
        state,
        ConfigureEvent::Called { transport: SgxStatus::success(), internal: SgxStatus::success() },
    );
    assert_eq!(state, Configuration::Done { outcome: Ok(()) });
    assert_eq!(action, ConfigureAction::Finish { outcome: Ok(()) });
}

#[test]
fn later_caller_makes_no_call() {
    let config = EnclaveRuntimeConfig { module_cache_size: 3 };
    let (state, action) = Configuration::begin(false, config);
    assert_eq!(state, Configuration::Done { outcome: Ok(()) });
    assert_eq!(action, ConfigureAction::Finish { outcome: Ok(()) });
}

#[test]
fn configuring_twice_calls_once() {
    let gate = ConfigurationGate::new();
    let config = EnclaveRuntimeConfig { module_cache_size: 5 };
    let enclave = Ok(EnclaveHandle { eid: 1 });
    let ok = SgxStatus::success();
    let first = run(&gate, config, enclave, ok, ok);
    let second = run(&gate, config, enclave, ok, ok);
    assert_eq!(first, (1, Ok(())));
    assert_eq!(second, (0, Ok(())));
}

#[test]
fn many_callers_make_one_call() {
    let gate = ConfigurationGate::new();
    let config = EnclaveRuntimeConfig { module_cache_size: 5 };
    let ok = SgxStatus::success();
    let mut results = Vec::new();
    for _ in 0..8 {
        results.push(run(&gate, config, Ok(EnclaveHandle { eid: 1 }), ok, ok));
    }
    let calls: u32 = results.iter().map(|result| result.0).sum();
    assert_eq!(calls, 1);
    assert!(results.iter().all(|result| result.1 == Ok(())));
}

#[test]
fn failed_configuration_is_not_retried() {
    let gate = ConfigurationGate::new();
    let config = EnclaveRuntimeConfig { module_cache_size: 5 };
    let enclave = Ok(EnclaveHandle { eid: 1 });
    let busy = SgxStatus::new(0x400a);
    let first = run(&gate, config, enclave, busy, SgxStatus::success());
    assert_eq!(first, (1, Err(EnclaveError::TransportCallFailed(busy))));
    let second = run(&gate, config, enclave, SgxStatus::success(), SgxStatus::success());
    assert_eq!(second, (0, Ok(())));
}

#[test]
fn enclave_rejection_is_kept_apart_from_transport_failure() {
    let gate = ConfigurationGate::new();
    let config = EnclaveRuntimeConfig { module_cache_size: 5 };
    let rejected = SgxStatus::new(0x0002);
    let outcome = run(&gate, config, Ok(EnclaveHandle { eid: 1 }), SgxStatus::success(), rejected);
    assert_eq!(outcome, (1, Err(EnclaveError::EnclaveInternalRejection(rejected))));
}

#[test]
fn missing_enclave_fails_configuration_without_a_call() {
    let gate = ConfigurationGate::new();
    let config = EnclaveRuntimeConfig { module_cache_size: 5 };
    let ok = SgxStatus::success();
    let outcome = run(&gate, config, Err(EnclaveError::EnclaveNotFound), ok, ok);
    assert_eq!(outcome, (0, Err(EnclaveError::EnclaveNotFound)));
    let again = run(&gate, config, Err(EnclaveError::EnclaveNotFound), ok, ok);
    assert_eq!(again, (0, Ok(())));
}

#[test]
fn stray_event_is_ignored() {
    let config = EnclaveRuntimeConfig { module_cache_size: 3 };
    let (state, _) = Configuration::begin(true, config);
    let (after, action) = configure_enclave(
        state,
        ConfigureEvent::Called { transport: SgxStatus::success(), internal: SgxStatus::success() },
    );
    assert_eq!(after, state);
    assert_eq!(action, ConfigureAction::GetEnclave);
}
