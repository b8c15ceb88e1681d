//! The two outside lock types, as Verus sees them, and the calls made on them.
//!
//! Nothing is promised about what a guard holds when it is obtained: another
//! handle may have changed the state just before. The verified code around
//! these calls works on whatever state it finds.
use vstd::prelude::*;

use std::sync::Arc;

use crate::handle::Shared;
use crate::state::{AsyncState, SyncState};

verus! {

#[verifier::external_type_specification]
#[verifier::external_body]
pub struct ExRawBlockingMutex(parking_lot::RawMutex);

#[verifier::external_type_specification]
#[verifier::external_body]
#[verifier::reject_recursive_types(R)]
#[verifier::reject_recursive_types(T)]
pub struct ExBlockingMutex<R, T: ?Sized>(parking_lot::lock_api::Mutex<R, T>);

/// A held blocking lock: the `parking_lot` guard, kept whole because Verus
/// refuses to declare `lock_api::MutexGuard` (its `RawMutex` bound). The lock is
/// released when the value is dropped.
#[verifier::external_body]
pub struct BlockingHold<'a> {
    guard: parking_lot::MutexGuard<'a, SyncState>,
}

#[verifier::external_type_specification]
#[verifier::external_body]
#[verifier::reject_recursive_types(T)]
pub struct ExCooperativeMutex<T: ?Sized>(tokio::sync::Mutex<T>);

/// Relies on `lock_api::Mutex::new` (as `parking_lot::Mutex`): an unlocked mutex around `state`.
#[verifier::external_body]
pub(crate) fn new_blocking_lock(state: SyncState) -> (r: parking_lot::Mutex<SyncState>) {
    parking_lot::Mutex::new(state)
}

/// Relies on `lock_api::Mutex::lock`: waits, blocking the thread, until the lock is held.
#[verifier::external_body]
pub(crate) fn acquire_blocking(m: &parking_lot::Mutex<SyncState>) -> (r: BlockingHold<'_>) {
    BlockingHold { guard: m.lock() }
}

/// Relies on `DerefMut` of `lock_api::MutexGuard`: the state that the held lock guards.
#[verifier::external_body]
pub(crate) fn guarded_state<'b>(h: &'b mut BlockingHold<'_>) -> (r: &'b mut SyncState) {
    &mut *h.guard
}

/// Relies on `tokio::sync::Mutex::new`: an unlocked cooperative mutex around `state`.
#[verifier::external_body]
pub(crate) fn new_cooperative_lock(state: AsyncState) -> (r: tokio::sync::Mutex<AsyncState>) {
    tokio::sync::Mutex::new(state)
}

/// Relies on `Arc::clone` (std): another pointer to the same allocation, so the
/// value it points to is the same value.
#[verifier::external_body]
pub(crate) fn share_core(a: &Arc<Shared>) -> (r: Arc<Shared>)
    ensures
        r == *a,
{
    Arc::clone(a)
}

} // verus!
