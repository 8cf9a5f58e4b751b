//! The doorbell: a bounded number of slots that limits how many callers are
//! inside the enclave at once.
//!
//! The count of free slots is changed only through a [`SlotLedger`], each of
//! whose operations is verified. The [`Doorbell`] knows how many slots there
//! are, keeps the count of the free ones behind a lock, and lets a caller
//! that finds no free slot sleep until one is given back or its timeout has
//! passed.

use vstd::prelude::*;
use std::time::Duration;
use parking_lot::Condvar;
use parking_lot::Mutex;
use crate::error::EnclaveError;
use crate::sync::load;
use crate::sync::lock;
use crate::sync::new_condvar;
use crate::sync::new_mutex;
use crate::sync::notify_one;
use crate::sync::seconds_as_duration;
use crate::sync::store;
use crate::sync::unlock;
use crate::sync::wait_for;

verus! {

/// How many seconds a caller waits for a slot before it gives up.
pub const ENCLAVE_LOCK_TIMEOUT: u64 = 6 * 5;

/// How many thread control structures the enclave is built with, which is
/// how many callers it can hold at once.
pub const TCS_NUM: u8 = 16;

/// The slots of a doorbell as a mathematical value.
pub struct Slots {
    /// How many slots are free.
    pub available: nat,
    /// How many slots there are.
    pub capacity: nat,
}

/// An operation on a doorbell. A reentrant one comes from a caller that is
/// already inside the enclave.
pub enum SlotOp {
    /// A caller asks for a token, at its arrival or again after it has
    /// waited.
    Acquire { reentrant: bool },
    /// A token is given back.
    Release { reentrant: bool },
}

impl Slots {
    /// No more slots are free than there are.
    pub open spec fn wf(self) -> bool {
        self.available <= self.capacity
    }

    /// A doorbell with all of its slots free.
    pub open spec fn fresh(capacity: nat) -> Slots {
        Slots { available: capacity, capacity }
    }

    /// How many slots are taken.
    pub open spec fn taken(self) -> int {
        self.capacity - self.available
    }

    /// The slots after a caller that needs one has asked: one less where one
    /// was free, unchanged where none was.
    pub open spec fn acquire(self) -> Slots {
        if self.available > 0 {
            Slots { available: (self.available - 1) as nat, ..self }
        } else {
            self
        }
    }

    /// The slots after one is given back: one more, and never more than
    /// there are.
    pub open spec fn release(self) -> Slots {
        if self.available < self.capacity {
            Slots { available: self.available + 1, ..self }
        } else {
            self
        }
    }

    /// The slots after an operation. A reentrant operation leaves them as
    /// they are.
    pub open spec fn apply(self, op: SlotOp) -> Slots {
        match op {
            SlotOp::Acquire { reentrant } => if reentrant {
                self
            } else {
                self.acquire()
            },
            SlotOp::Release { reentrant } => if reentrant {
                self
            } else {
                self.release()
            },
        }
    }

    /// The slots after a sequence of operations, first to last.
    pub open spec fn apply_all(self, ops: Seq<SlotOp>) -> Slots
        decreases ops.len(),
    {
        if ops.len() == 0 {
            self
        } else {
            self.apply_all(ops.drop_last()).apply(ops.last())
        }
    }
}

/// How many tokens that hold a slot are out after a sequence of operations on
/// a doorbell of `capacity` slots that began with none out. A caller gets
/// such a token while fewer than `capacity` are out, and only a token that is
/// out can be given back. Reentrant tokens hold no slot and are not counted.
pub open spec fn tokens_out(capacity: nat, ops: Seq<SlotOp>) -> nat
    decreases ops.len(),
{
    if ops.len() == 0 {
        0
    } else {
        let before = tokens_out(capacity, ops.drop_last());
        match ops.last() {
            SlotOp::Acquire { reentrant: false } => if before < capacity {
                before + 1
            } else {
                before
            },
            SlotOp::Release { reentrant: false } => if before > 0 {
                (before - 1) as nat
            } else {
                before
            },
            _ => before,
        }
    }
}

/// Whatever is asked of a doorbell and in whatever order, the number of free
/// slots stays between zero and the capacity, the capacity stays what it was,
/// and the tokens that are out are as many as the slots that are taken: never
/// more than the capacity.
pub proof fn lemma_capacity_invariant(capacity: nat, ops: Seq<SlotOp>)
    ensures
        Slots::fresh(capacity).apply_all(ops).capacity == capacity,
        Slots::fresh(capacity).apply_all(ops).available <= capacity,
        tokens_out(capacity, ops) == Slots::fresh(capacity).apply_all(ops).taken(),
        tokens_out(capacity, ops) <= capacity,
    decreases ops.len(),
{
    if ops.len() > 0 {
        lemma_capacity_invariant(capacity, ops.drop_last());
    }
}

/// Each token that holds a slot takes exactly one and gives exactly one back:
/// where a slot is free, an acquisition followed by the release of its token
/// leaves the slots as they were.
pub proof fn lemma_release_undoes_acquire(slots: Slots)
    requires
        slots.wf(),
        slots.available > 0,
    ensures
        slots.acquire().available == slots.available - 1,
        slots.acquire().release() == slots,
{
}

/// A reentrant acquisition never changes the free slots, and the release of
/// its token never adds one: a sequence of operations leaves the slots where
/// the same sequence without its reentrant operations leaves them.
pub proof fn lemma_reentrant_bypass(slots: Slots, ops: Seq<SlotOp>)
    ensures
        slots.apply(SlotOp::Acquire { reentrant: true }) == slots,
        slots.apply(SlotOp::Release { reentrant: true }) == slots,
        slots.apply_all(ops) == slots.apply_all(ops.filter(|op: SlotOp| !is_reentrant(op))),
    decreases ops.len(),
{
    let slot_ops = |op: SlotOp| !is_reentrant(op);
    reveal(Seq::filter);
    if ops.len() > 0 {
        lemma_reentrant_bypass(slots, ops.drop_last());
        let front = ops.drop_last();
        if !is_reentrant(ops.last()) {
            let kept = front.filter(slot_ops).push(ops.last());
            assert(kept.drop_last() == front.filter(slot_ops));
        }
    }
}

/// Whether an operation comes from a caller that is already inside the
/// enclave.
pub open spec fn is_reentrant(op: SlotOp) -> bool {
    match op {
        SlotOp::Acquire { reentrant } => reentrant,
        SlotOp::Release { reentrant } => reentrant,
    }
}

/// The count of free slots of a doorbell.
#[derive(Clone, Copy, Debug, PartialEq, Eq)]
pub struct SlotLedger {
    available: u8,
    capacity: u8,
}

impl View for SlotLedger {
    type V = Slots;

    closed spec fn view(&self) -> Slots {
        Slots { available: self.available as nat, capacity: self.capacity as nat }
    }
}

impl SlotLedger {
    #[verifier::type_invariant]
    spec fn inv(&self) -> bool {
        self@.wf()
    }

    /// A ledger of `capacity` slots, all free.
    pub fn new(capacity: u8) -> (ledger: SlotLedger)
        ensures
            ledger@ == Slots::fresh(capacity as nat),
    {
        SlotLedger { available: capacity, capacity }
    }

    /// The ledger of a doorbell of `capacity` slots whose count of free slots
    /// reads `available`. A count above the capacity, which no ledger ever
    /// gives out, is taken as the capacity.
    pub fn restore(available: u8, capacity: u8) -> (ledger: SlotLedger)
        ensures
            ledger@.capacity == capacity,
            ledger@.available == if available <= capacity {
                available
            } else {
                capacity
            },
            ledger@.wf(),
    {
        if available <= capacity {
            SlotLedger { available, capacity }
        } else {
            SlotLedger { available: capacity, capacity }
        }
    }

    /// How many slots are free.
    pub fn available_slots(&self) -> (count: u8)
        ensures
            count == self@.available,
            count <= self@.capacity,
    {
        proof {
            use_type_invariant(self);
        }
        self.available
    }

    /// How many slots there are.
    pub fn total_slots(&self) -> (count: u8)
        ensures
            count == self@.capacity,
    {
        self.capacity
    }

    /// Takes a slot for a caller if one is free. Returns whether the caller
    /// is admitted; where it is not, nothing changes.
    pub fn try_acquire(&mut self) -> (admitted: bool)
        ensures
            admitted == (old(self)@.available > 0),
            final(self)@ == old(self)@.acquire(),
            final(self)@.wf(),
    {
        proof {
            use_type_invariant(&*self);
        }
        if self.available > 0 {
            self.available = self.available - 1;
            true
        } else {
            false
        }
    }

    /// Gives a slot back. Returns whether a slot came free, in which case one
    /// waiting caller is to be woken. Where every slot is free already no
    /// token of this doorbell is out, and nothing changes.
    pub fn release(&mut self) -> (freed: bool)
        ensures
            freed == (old(self)@.available < old(self)@.capacity),
            final(self)@ == old(self)@.release(),
            final(self)@.wf(),
    {
        proof {
            use_type_invariant(&*self);
        }
        if self.available < self.capacity {
            self.available = self.available + 1;
            true
        } else {
            false
        }
    }
}

/// The doorbell of an enclave.
pub struct Doorbell {
    /// How many slots there are, fixed when the doorbell is made.
    capacity: u8,
    condvar: Condvar,
    /// The count of free slots, changed only while the lock is held.
    count: Mutex<u8>,
}

/// Proof that its holder may be inside the enclave: it holds one slot of the
/// doorbell it came from, unless it is reentrant and passed by the count. It
/// cannot be copied, and it is spent by giving it back.
pub struct EnclaveQueryToken<'a> {
    doorbell: &'a Doorbell,
    recursive: bool,
}

impl<'a> EnclaveQueryToken<'a> {
    /// Whether the token is one of a reentrant call.
    pub closed spec fn reentrant(&self) -> bool {
        self.recursive
    }

    /// The doorbell the token came from.
    pub closed spec fn origin(&self) -> &'a Doorbell {
        self.doorbell
    }

    fn new(doorbell: &'a Doorbell, recursive: bool) -> (token: EnclaveQueryToken<'a>)
        ensures
            token.reentrant() == recursive,
            token.origin() == doorbell,
    {
        EnclaveQueryToken { doorbell, recursive }
    }

    /// Whether the token is one of a reentrant call, which holds no slot.
    pub fn is_recursive(&self) -> (recursive: bool)
        ensures
            recursive == self.reentrant(),
    {
        self.recursive
    }

    /// Gives the token back to the doorbell it came from. The token of a
    /// reentrant call leaves the count alone; any other frees its slot under
    /// the lock and wakes one waiting caller. Returns whether a slot was
    /// freed.
    pub fn release(self) -> (freed: bool)
        ensures
            self.reentrant() ==> !freed,
    {
        if self.recursive {
            return false;
        }
        let mut held = lock(&self.doorbell.count);
        let mut ledger = SlotLedger::restore(load(&held), self.doorbell.capacity);
        let freed = ledger.release();
        store(&mut held, ledger.available_slots());
        unlock(held);
        if freed {
            notify_one(&self.doorbell.condvar);
        }
        freed
    }
}

impl Doorbell {
    /// How many slots the doorbell has.
    pub closed spec fn capacity(&self) -> nat {
        self.capacity as nat
    }

    /// A doorbell with `count` slots, all free.
    pub fn new(count: u8) -> (doorbell: Doorbell)
        ensures
            doorbell.capacity() == count,
    {
        let free: u8 = SlotLedger::new(count).available_slots();
        Doorbell { capacity: count, condvar: new_condvar(), count: new_mutex(free) }
    }

    /// How many slots the doorbell has.
    pub fn total_slots(&self) -> (count: u8)
        ensures
            count == self.capacity(),
    {
        self.capacity
    }

    /// The count as it stands at this moment, in a ledger of this doorbell's
    /// capacity. Whatever other callers are doing, no more slots are seen
    /// free than the doorbell has.
    pub fn snapshot(&self) -> (ledger: SlotLedger)
        ensures
            ledger@.capacity == self.capacity(),
            ledger@.available <= self.capacity(),
    {
        let held = lock(&self.count);
        let ledger = SlotLedger::restore(load(&held), self.capacity);
        unlock(held);
        ledger
    }

    /// Asks for a token. A reentrant call gets one at once and leaves the
    /// count alone. Any other takes a slot if one is free; if none is, it
    /// sleeps until a slot is given back or `duration` has passed, looks
    /// again, and takes a slot if one is free by then. `None` says that
    /// admission is denied; no slot is taken for it.
    pub fn wait_for<'a>(&'a self, duration: Duration, recursive: bool) -> (token: Option<EnclaveQueryToken<'a>>)
        ensures
            recursive ==> token.is_some(),
            token matches Some(granted) ==> granted.reentrant() == recursive && granted.origin() == self,
    {
        let mut admitted = false;
        if !recursive {
            let mut held = lock(&self.count);
            let mut ledger = SlotLedger::restore(load(&held), self.capacity);
            admitted = ledger.try_acquire();
            if !admitted {
                wait_for(&self.condvar, &mut held, duration);
                ledger = SlotLedger::restore(load(&held), self.capacity);
                admitted = ledger.try_acquire();
            }
            store(&mut held, ledger.available_slots());
            unlock(held);
        }
        self.grant(recursive, admitted)
    }

    /// The answer to a caller, given whether the ledger admitted it: a token
    /// for a reentrant call whatever the ledger holds, a token for any other
    /// call that took a slot, and nothing for one that did not.
    fn grant<'a>(&'a self, recursive: bool, admitted: bool) -> (token: Option<EnclaveQueryToken<'a>>)
        ensures
            token.is_some() == (recursive || admitted),
            token matches Some(granted) ==> granted.reentrant() == recursive && granted.origin() == self,
    {
        if recursive || admitted {
            Some(EnclaveQueryToken::new(self, recursive))
        } else {
            None
        }
    }
}

/// How long a caller waits for a slot where it names no time of its own:
/// [`ENCLAVE_LOCK_TIMEOUT`] seconds.
pub fn default_timeout() -> (timeout: Duration)
    ensures
        timeout == seconds_as_duration(ENCLAVE_LOCK_TIMEOUT),
{
    Duration::from_secs(ENCLAVE_LOCK_TIMEOUT)
}

/// Asks the doorbell for a token, waiting for a slot as long as
/// [`default_timeout`] says at most.
pub fn get_query_token<'a>(doorbell: &'a Doorbell, recursive: bool) -> (token: Option<EnclaveQueryToken<'a>>)
    ensures
        recursive ==> token.is_some(),
        token matches Some(granted) ==> granted.reentrant() == recursive && granted.origin() == doorbell,
{
    doorbell.wait_for(default_timeout(), recursive)
}

/// Runs `call` under a token of the doorbell: asks for the token as
/// [`Doorbell::wait_for`] does, runs the call only if one is granted, and
/// gives the token back as soon as the call has returned, so that no path
/// through this function keeps a slot. Where admission is denied the call is
/// not run. A call that unwinds takes its slot with it.
pub fn enter<'a, R, F: FnOnce() -> R>(doorbell: &'a Doorbell, duration: Duration, recursive: bool, call: F) -> (outcome:
    Result<R, EnclaveError>)
    requires
        call.requires(()),
    ensures
        recursive ==> outcome is Ok,
        match outcome {
            Ok(returned) => call.ensures((), returned),
            Err(error) => error == EnclaveError::AdmissionDenied,
        },
{
    match admission(doorbell.wait_for(duration, recursive)) {
        Ok(token) => {
            let returned = call();
            token.release();
            Ok(returned)
        },
        Err(error) => Err(error),
    }
}

/// What becomes of a request for admission: the token where one was granted,
/// and `AdmissionDenied` where none was, in which case no call into the
/// enclave is to be made.
pub fn admission<'a>(token: Option<EnclaveQueryToken<'a>>) -> (outcome: Result<EnclaveQueryToken<'a>, EnclaveError>)
    ensures
        match token {
            Some(granted) => outcome == Ok::<EnclaveQueryToken<'a>, EnclaveError>(granted),
            None => outcome == Err::<EnclaveQueryToken<'a>, EnclaveError>(EnclaveError::AdmissionDenied),
        },
{
    match token {
        Some(granted) => Ok(granted),
        None => Err(EnclaveError::AdmissionDenied),
    }
}

} // verus!
