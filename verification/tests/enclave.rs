use sgx_vm::enclave::{
    debug_flag, get_enclave, init_enclave, launch_token, misc_attributes, search_directories,
    EnclaveHandle, EnclaveInit, EnclaveSlot, InitAction, InitEvent, ENCLAVE_DIR_VARIABLE,
    ENCLAVE_FILE, LAUNCH_TOKEN_SIZE,
};
use sgx_vm::error::EnclaveError;
use sgx_vm::status::SgxStatus;

#[test]
fn search_order_defaults_to_current_directory() {
    let dirs = search_directories(None);
    assert_eq!(dirs, vec![".", "/lib", "/usr/lib", "/usr/local/lib"]);
}

#[test]
fn search_order_starts_with_configured_directory() {
    let dirs = search_directories(Some("/opt/enclave".to_string()));
    assert_eq!(dirs, vec!["/opt/enclave", "/lib", "/usr/lib", "/usr/local/lib"]);
}

#[test]
fn debug_flag_follows_build() {
    assert_eq!(debug_flag(true), 0);
    assert_eq!(debug_flag(false), 1);
}

#[test]
fn first_directory_with_image_is_used() {
    let (mut machine, action) = EnclaveInit::start(4, false);
    assert_eq!(action, InitAction::Probe { directory: 0 });
    let action = init_enclave(&mut machine, InitEvent::Probed { exists: false });
    assert_eq!(action, InitAction::Probe { directory: 1 });
    let action = init_enclave(&mut machine, InitEvent::Probed { exists: true });
    assert_eq!(action, InitAction::Create { directory: 1, debug: 1 });
    let action = init_enclave(&mut machine, InitEvent::Created { outcome: Ok(42) });
    assert_eq!(action, InitAction::Finish { outcome: Ok(EnclaveHandle { eid: 42 }) });
}

#[test]
fn missing_image_is_not_found() {
    let (mut machine, mut action) = EnclaveInit::start(4, true);
    let mut probed = Vec::new();
    while let InitAction::Probe { directory } = action {
        probed.push(directory);
        action = init_enclave(&mut machine, InitEvent::Probed { exists: false });
    }
    assert_eq!(probed, vec![0, 1, 2, 3]);
    assert_eq!(action, InitAction::Finish { outcome: Err(EnclaveError::EnclaveNotFound) });
}

#[test]
fn refused_creation_keeps_status() {
    let (mut machine, _) = EnclaveInit::start(1, true);
    let action = init_enclave(&mut machine, InitEvent::Probed { exists: true });
    assert_eq!(action, InitAction::Create { directory: 0, debug: 0 });
    let status = SgxStatus::new(0x2006);
    let action = init_enclave(&mut machine, InitEvent::Created { outcome: Err(status) });
    assert_eq!(
        action,
        InitAction::Finish { outcome: Err(EnclaveError::EnclaveCreationFailed(status)) }
    );
}

#[test]
fn slot_keeps_first_failure() {
    let mut slot = EnclaveSlot::new();
    assert_eq!(get_enclave(&slot), None);
    let failure = Err(EnclaveError::EnclaveNotFound);
    assert_eq!(slot.settle(failure), failure);
    assert_eq!(slot.settle(Ok(EnclaveHandle { eid: 9 })), failure);
    assert_eq!(get_enclave(&slot), Some(failure));
    assert_eq!(get_enclave(&slot), Some(failure));
}

#[test]
fn slot_keeps_first_handle() {
    let mut slot = EnclaveSlot::new();
    let handle = Ok(EnclaveHandle { eid: 77 });
    assert_eq!(slot.settle(handle), handle);
    assert_eq!(slot.settle(Err(EnclaveError::EnclaveNotFound)), handle);
    assert_eq!(slot.settle(Ok(EnclaveHandle { eid: 78 })), handle);
    assert_eq!(get_enclave(&slot), Some(handle));
}

#[test]
fn image_name_and_override_variable() {
    assert_eq!(ENCLAVE_FILE, "librust_cosmwasm_enclave.signed.so");
    assert_eq!(ENCLAVE_DIR_VARIABLE, "SCRT_ENCLAVE_DIR");
}

#[test]
fn launch_token_is_zeroed() {
    let token = launch_token();
    assert_eq!(token.len(), LAUNCH_TOKEN_SIZE);
    assert_eq!(LAUNCH_TOKEN_SIZE, 1024);
    assert!(token.iter().all(|byte| *byte == 0));
}

#[test]
fn search_without_directories_finds_nothing() {
    let (machine, action) = EnclaveInit::start(0, false);
    assert_eq!(action, InitAction::Finish { outcome: Err(EnclaveError::EnclaveNotFound) });
    assert_eq!(machine.pending(), action);
}

#[test]
fn nothing_is_probed_after_a_find() {
    let (mut machine, _) = EnclaveInit::start(4, false);
    let action = init_enclave(&mut machine, InitEvent::Probed { exists: true });
    assert_eq!(action, InitAction::Create { directory: 0, debug: 1 });
    let action = init_enclave(&mut machine, InitEvent::Probed { exists: false });
    assert_eq!(action, InitAction::Create { directory: 0, debug: 1 });
    assert_eq!(machine.pending(), action);
}

#[test]
fn finished_creation_stays_finished() {
    let (mut machine, _) = EnclaveInit::start(1, false);
    init_enclave(&mut machine, InitEvent::Probed { exists: true });
    let done = init_enclave(&mut machine, InitEvent::Created { outcome: Ok(5) });
    assert_eq!(done, InitAction::Finish { outcome: Ok(EnclaveHandle { eid: 5 }) });
    let again = init_enclave(&mut machine, InitEvent::Created { outcome: Ok(6) });
    assert_eq!(again, done);
    let again = init_enclave(&mut machine, InitEvent::Probed { exists: true });
    assert_eq!(again, done);
}

#[test]
fn last_directory_is_searched_too() {
    let (mut machine, _) = EnclaveInit::start(4, true);
    init_enclave(&mut machine, InitEvent::Probed { exists: false });
    init_enclave(&mut machine, InitEvent::Probed { exists: false });
    let action = init_enclave(&mut machine, InitEvent::Probed { exists: false });
    assert_eq!(action, InitAction::Probe { directory: 3 });
    let action = init_enclave(&mut machine, InitEvent::Probed { exists: true });
    assert_eq!(action, InitAction::Create { directory: 3, debug: 0 });
}

#[test]
fn creation_attributes_are_zeroed() {
    assert_eq!(misc_attributes(), (0, 0, 0));
}
