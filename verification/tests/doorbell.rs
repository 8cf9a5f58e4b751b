use std::time::{Duration, Instant};

use sgx_vm::doorbell::{
    admission, default_timeout, enter, get_query_token, Doorbell, SlotLedger,
    ENCLAVE_LOCK_TIMEOUT, TCS_NUM,
};
use sgx_vm::error::EnclaveError;

#[test]
fn constants_match_enclave_build() {
    assert_eq!(ENCLAVE_LOCK_TIMEOUT, 30);
    assert_eq!(TCS_NUM, 16);
}

#[test]
fn ledger_starts_full() {
    let ledger = SlotLedger::new(16);
    assert_eq!(ledger.available_slots(), 16);
    assert_eq!(ledger.total_slots(), 16);
}

#[test]
fn ledger_acquire_takes_one_slot() {
    let mut ledger = SlotLedger::new(3);
    assert!(ledger.try_acquire());
    assert_eq!(ledger.available_slots(), 2);
    assert_eq!(ledger.total_slots(), 3);
}

#[test]
fn ledger_denies_when_empty() {
    let mut ledger = SlotLedger::new(1);
    assert!(ledger.try_acquire());
    assert!(!ledger.try_acquire());
    assert_eq!(ledger.available_slots(), 0);
}

#[test]
fn ledger_with_no_slots_admits_nobody() {
    let mut ledger = SlotLedger::new(0);
    assert!(!ledger.try_acquire());
    assert!(!ledger.release());
    assert_eq!(ledger.available_slots(), 0);
}

#[test]
fn ledger_release_gives_slot_back() {
    let mut ledger = SlotLedger::new(2);
    assert!(ledger.try_acquire());
    assert!(ledger.release());
    assert_eq!(ledger.available_slots(), 2);
}

#[test]
fn ledger_never_exceeds_capacity() {
    let mut ledger = SlotLedger::new(2);
    assert!(!ledger.release());
    assert_eq!(ledger.available_slots(), 2);
}

#[test]
fn ledger_stays_within_bounds_over_a_long_run() {
    let mut ledger = SlotLedger::new(4);
    let mut out: u8 = 0;
    for step in 0..200u32 {
        if step % 3 == 2 {
            if ledger.release() {
                out -= 1;
            }
        } else if ledger.try_acquire() {
            out += 1;
        }
        assert!(ledger.available_slots() <= 4);
        assert!(out <= 4);
        assert_eq!(out, 4 - ledger.available_slots());
    }
}

#[test]
fn waiter_takes_a_slot_freed_while_it_slept() {
    let mut ledger = SlotLedger::new(1);
    assert!(ledger.try_acquire());
    assert!(!ledger.try_acquire());
    assert!(ledger.release());
    assert!(ledger.try_acquire());
    assert_eq!(ledger.available_slots(), 0);
}

#[test]
fn waiter_that_finds_no_slot_after_its_sleep_is_denied() {
    let mut ledger = SlotLedger::new(1);
    assert!(ledger.try_acquire());
    assert!(!ledger.try_acquire());
    assert!(!ledger.try_acquire());
    assert_eq!(ledger.available_slots(), 0);
}

#[test]
fn doorbell_admits_up_to_capacity() {
    let doorbell = Doorbell::new(2);
    assert_eq!(doorbell.snapshot(), SlotLedger::new(2));
    assert_eq!(doorbell.snapshot().available_slots(), 2);
    assert_eq!(doorbell.snapshot().total_slots(), 2);
    let first = doorbell.wait_for(Duration::from_millis(10), false);
    let second = doorbell.wait_for(Duration::from_millis(10), false);
    assert!(first.is_some());
    assert!(second.is_some());
    assert_eq!(doorbell.snapshot().available_slots(), 0);
    let third = doorbell.wait_for(Duration::from_millis(10), false);
    assert!(third.is_none());
    assert_eq!(doorbell.snapshot().available_slots(), 0);
    assert!(first.unwrap().release());
    assert_eq!(doorbell.snapshot().available_slots(), 1);
    assert!(second.unwrap().release());
    assert_eq!(doorbell.snapshot().available_slots(), 2);
}

#[test]
fn third_caller_waits_and_gets_in_after_a_release() {
    let doorbell = Doorbell::new(2);
    let first = doorbell.wait_for(Duration::from_secs(1), false).unwrap();
    let second = doorbell.wait_for(Duration::from_secs(1), false).unwrap();
    let timeout = Duration::from_millis(100);
    let started = Instant::now();
    let third = doorbell.wait_for(timeout, false);
    assert!(third.is_none());
    assert!(started.elapsed() >= timeout);
    assert!(first.release());
    let started = Instant::now();
    let third = doorbell.wait_for(Duration::from_secs(10), false);
    assert!(started.elapsed() < Duration::from_secs(5));
    assert!(third.is_some());
    assert_eq!(doorbell.snapshot().available_slots(), 0);
    assert!(third.unwrap().release());
    assert!(second.release());
    assert_eq!(doorbell.snapshot().available_slots(), 2);
}

#[test]
fn denial_comes_no_earlier_than_the_timeout() {
    let doorbell = Doorbell::new(1);
    let held = doorbell.wait_for(Duration::from_millis(10), false).unwrap();
    let timeout = Duration::from_millis(150);
    let started = Instant::now();
    let token = doorbell.wait_for(timeout, false);
    let waited = started.elapsed();
    assert!(token.is_none());
    assert!(waited >= timeout);
    assert!(admission(token).is_err());
    assert_eq!(doorbell.snapshot().available_slots(), 0);
    assert!(held.release());
}

#[test]
fn reentrant_call_bypasses_the_count() {
    let doorbell = Doorbell::new(1);
    let outer = doorbell.wait_for(Duration::from_millis(10), false).unwrap();
    assert_eq!(doorbell.snapshot().available_slots(), 0);
    let inner = doorbell.wait_for(Duration::from_millis(10), true).unwrap();
    assert!(inner.is_recursive());
    assert!(!outer.is_recursive());
    assert_eq!(doorbell.snapshot().available_slots(), 0);
    assert!(!inner.release());
    assert_eq!(doorbell.snapshot().available_slots(), 0);
    assert!(outer.release());
    assert_eq!(doorbell.snapshot().available_slots(), 1);
}

#[test]
fn reentrant_release_never_adds_a_slot() {
    let doorbell = Doorbell::new(3);
    let token = get_query_token(&doorbell, true).unwrap();
    assert_eq!(doorbell.snapshot().available_slots(), 3);
    assert!(!token.release());
    assert_eq!(doorbell.snapshot().available_slots(), 3);
}

#[test]
fn query_token_takes_a_free_slot_at_once() {
    let doorbell = Doorbell::new(TCS_NUM);
    let started = Instant::now();
    let token = get_query_token(&doorbell, false);
    assert!(started.elapsed() < Duration::from_secs(5));
    assert!(token.is_some());
    assert_eq!(doorbell.snapshot().available_slots(), TCS_NUM - 1);
    assert!(token.unwrap().release());
    assert_eq!(doorbell.snapshot().available_slots(), TCS_NUM);
}

#[test]
fn admission_keeps_a_granted_token() {
    let doorbell = Doorbell::new(1);
    let outcome = admission(doorbell.wait_for(Duration::from_millis(10), false));
    assert!(outcome.is_ok());
    assert_eq!(doorbell.snapshot().available_slots(), 0);
    match outcome {
        Ok(token) => assert!(token.release()),
        Err(_) => unreachable!(),
    }
}

#[test]
fn admission_denied_is_an_error_without_status() {
    match admission(None) {
        Ok(_) => panic!("a token out of nothing"),
        Err(error) => {
            assert_eq!(error, EnclaveError::AdmissionDenied);
            assert_eq!(error.status(), None);
        }
    }
}

#[test]
fn entered_call_holds_a_slot_and_gives_it_back() {
    let doorbell = Doorbell::new(2);
    let seen = enter(&doorbell, Duration::from_millis(10), false, || {
        doorbell.snapshot().available_slots()
    });
    assert_eq!(seen, Ok(1));
    assert_eq!(doorbell.snapshot().available_slots(), 2);
}

#[test]
fn denied_call_is_not_run() {
    let doorbell = Doorbell::new(1);
    let held = doorbell.wait_for(Duration::from_millis(10), false).unwrap();
    let mut ran = false;
    let outcome = enter(&doorbell, Duration::from_millis(20), false, || {
        ran = true;
    });
    assert_eq!(outcome, Err(EnclaveError::AdmissionDenied));
    assert!(!ran);
    assert_eq!(doorbell.snapshot().available_slots(), 0);
    assert!(held.release());
}

#[test]
fn reentrant_call_enters_a_full_enclave() {
    let doorbell = Doorbell::new(1);
    let outcome = enter(&doorbell, Duration::from_millis(10), false, || {
        enter(&doorbell, Duration::from_millis(10), true, || {
            doorbell.snapshot().available_slots()
        })
    });
    assert_eq!(outcome, Ok(Ok(0)));
    assert_eq!(doorbell.snapshot().available_slots(), 1);
}

#[test]
fn restored_ledger_reads_the_count_against_the_capacity() {
    let ledger = SlotLedger::restore(3, 16);
    assert_eq!(ledger.available_slots(), 3);
    assert_eq!(ledger.total_slots(), 16);
    assert_eq!(SlotLedger::restore(16, 16), SlotLedger::new(16));
    assert_eq!(SlotLedger::restore(0, 0), SlotLedger::new(0));
}

#[test]
fn restored_ledger_never_holds_more_than_the_capacity() {
    let ledger = SlotLedger::restore(200, 16);
    assert_eq!(ledger.available_slots(), 16);
    assert_eq!(ledger.total_slots(), 16);
}

#[test]
fn doorbell_keeps_its_capacity() {
    let doorbell = Doorbell::new(5);
    assert_eq!(doorbell.total_slots(), 5);
    let token = doorbell.wait_for(Duration::from_millis(10), false).unwrap();
    assert_eq!(doorbell.total_slots(), 5);
    assert_eq!(doorbell.snapshot().total_slots(), 5);
    assert_eq!(doorbell.snapshot().available_slots(), 4);
    assert!(token.release());
    assert_eq!(doorbell.snapshot(), SlotLedger::new(5));
}

#[test]
fn doorbell_without_slots_admits_only_reentrant_calls() {
    let doorbell = Doorbell::new(0);
    assert_eq!(doorbell.snapshot(), SlotLedger::new(0));
    assert!(doorbell.wait_for(Duration::from_millis(10), false).is_none());
    let token = doorbell.wait_for(Duration::from_millis(10), true).unwrap();
    assert!(!token.release());
    assert_eq!(doorbell.snapshot(), SlotLedger::new(0));
}

#[test]
fn default_timeout_is_thirty_seconds() {
    assert_eq!(default_timeout(), Duration::from_secs(30));
    assert_eq!(default_timeout().as_secs(), ENCLAVE_LOCK_TIMEOUT);
    assert_eq!(default_timeout().subsec_nanos(), 0);
}

#[test]
fn new_doorbell_has_every_slot_free() {
    let doorbell = Doorbell::new(TCS_NUM);
    assert_eq!(doorbell.snapshot().available_slots(), 16);
    assert_eq!(doorbell.snapshot().total_slots(), 16);
}
