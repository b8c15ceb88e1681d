//! The plain counter states that the two locks guard, and the one step that
//! every mutation of them takes.
use vstd::prelude::*;

verus! {

/// The counter after `delta` is added to `count`: addition modulo 2^64.
pub open spec fn wrapped_add(count: u64, delta: u64) -> u64 {
    ((count as int + delta as int) % 0x1_0000_0000_0000_0000int) as u64
}

/// Adds `delta` to `count`, wrapping at 2^64.
pub fn counter_after(count: u64, delta: u64) -> (r: u64)
    ensures
        r == wrapped_add(count, delta),
        count as int + delta as int <= u64::MAX ==> r == count + delta,
{
    count.wrapping_add(delta)
}

/// The state guarded by the blocking lock.
pub struct SyncState {
    pub num_sync_requests: u64,
}

/// The state guarded by the cooperative lock.
pub struct AsyncState {
    pub num_async_requests: u64,
}

impl SyncState {
    /// A state whose counter is zero.
    pub fn new() -> (r: SyncState)
        ensures
            r.num_sync_requests == 0,
    {
        SyncState { num_sync_requests: 0 }
    }

    /// Adds `delta` to the counter in one read-modify-write and returns the new value.
    pub fn add(&mut self, delta: u64) -> (r: u64)
        ensures
            final(self).num_sync_requests == wrapped_add(old(self).num_sync_requests, delta),
            r == final(self).num_sync_requests,
    {
        self.num_sync_requests = counter_after(self.num_sync_requests, delta);
        self.num_sync_requests
    }

    /// Adds the counter of `other` into this one.
    pub fn absorb(&mut self, other: &SyncState)
        ensures
            final(self).num_sync_requests == wrapped_add(
                old(self).num_sync_requests,
                other.num_sync_requests,
            ),
    {
        self.add(other.num_sync_requests);
    }
}

impl AsyncState {
    /// A state whose counter is zero.
    pub fn new() -> (r: AsyncState)
        ensures
            r.num_async_requests == 0,
    {
        AsyncState { num_async_requests: 0 }
    }

    /// Adds `delta` to the counter in one read-modify-write and returns the new value.
    pub fn add(&mut self, delta: u64) -> (r: u64)
        ensures
            final(self).num_async_requests == wrapped_add(old(self).num_async_requests, delta),
            r == final(self).num_async_requests,
    {
        self.num_async_requests = counter_after(self.num_async_requests, delta);
        self.num_async_requests
    }
}

} // verus!
