//! The handle to a shared object: an identity fixed at construction and two
//! counters, each behind a lock of its own kind.
use vstd::prelude::*;

use std::sync::Arc;

use crate::locks::{
    acquire_blocking, guarded_state, new_blocking_lock, new_cooperative_lock, share_core,
};
use crate::observer::{nested_locking, single_locking, LockEvent, LockObserver, Reporter, Target};
use crate::state::{AsyncState, SyncState};

verus! {

/// What all clones of one handle share. The identity is written once, before
/// the value is shared, and is read without a lock.
pub struct Shared {
    id: String,
    sync_state: parking_lot::Mutex<SyncState>,
    async_state: tokio::sync::Mutex<AsyncState>,
}

/// A cheap handle to a shared object. Clones refer to the same object and see
/// the same counters; the object goes when the last handle does.
///
/// Lock discipline: the blocking lock is never held across a suspension point;
/// only the cooperative lock may be. Where two handles' blocking locks are
/// taken together, all callers must take them in one order, or they may
/// deadlock; and one handle's lock cannot be taken twice on one call path.
pub struct Foo {
    shared: Arc<Shared>,
}

impl Foo {
    /// The identity of the object behind the handle.
    pub closed spec fn identity(&self) -> Seq<char> {
        self.shared.id@
    }

    /// A handle to a new object with identity `id` and both counters at zero.
    pub fn new(id: String) -> (r: Foo)
        ensures
            r.identity() == id@,
    {
        let shared = Shared {
            id,
            sync_state: new_blocking_lock(SyncState::new()),
            async_state: new_cooperative_lock(AsyncState::new()),
        };
        Foo { shared: Arc::new(shared) }
    }

    /// The identity, read without taking a lock.
    pub fn id(&self) -> (r: &String)
        ensures
            r@ == self.identity(),
    {
        &self.shared.id
    }

    /// The cooperative lock and the state it guards. It can only be taken from
    /// a cooperative task (`lock` is async), and may be held across an await.
    pub fn async_state(&self) -> &tokio::sync::Mutex<AsyncState> {
        &self.shared.async_state
    }

    /// Adds `delta` to the blocking counter under the blocking lock and returns
    /// the value it left there, reporting the wait for, the acquisition and the
    /// release of that lock. The step on the counter is `SyncState::add`; what
    /// the counter held before depends on every other caller, and the lock is
    /// released before the function returns.
    pub fn add_sync_request1<O: LockObserver>(&self, delta: u64, reporter: &mut Reporter<O>) -> (r:
        u64)
        ensures
            final(reporter).trace@ == old(reporter).trace@ + single_locking(Target::This),
    {
        reporter.report(LockEvent::WaitBegin(Target::This));
        let num = {
            let mut held = acquire_blocking(&self.shared.sync_state);
            reporter.report(LockEvent::Acquired(Target::This));
            let state = guarded_state(&mut held);
            state.add(delta)
        };
        reporter.report(LockEvent::Released(Target::This));
        assert(reporter.trace@ =~= old(reporter).trace@ + single_locking(Target::This));
        num
    }

    /// The blocking add as called from cooperative code. It is the same
    /// operation: the blocking lock may be used there because it is released
    /// before the call returns, so it is never held across an await.
    pub fn add_sync_request2<O: LockObserver>(&self, delta: u64, reporter: &mut Reporter<O>) -> (r:
        u64)
        ensures
            final(reporter).trace@ == old(reporter).trace@ + single_locking(Target::This),
    {
        self.add_sync_request1(delta, reporter)
    }

    /// Takes this handle's blocking lock, then, still holding it, the lock of
    /// `other`, and adds `other`'s counter into this one's. The inner lock is
    /// released first. Safe on two distinct objects when no caller takes the
    /// two locks in the other order at the same time.
    pub fn lock_twice_1<O: LockObserver>(&self, other: &Foo, reporter: &mut Reporter<O>)
        ensures
            final(reporter).trace@ == old(reporter).trace@ + nested_locking(
                Target::This,
                Target::Other,
            ),
    {
        reporter.report(LockEvent::WaitBegin(Target::This));
        {
            let mut self_held = acquire_blocking(&self.shared.sync_state);
            reporter.report(LockEvent::Acquired(Target::This));
            reporter.report(LockEvent::WaitBegin(Target::Other));
            {
                let mut other_held = acquire_blocking(&other.shared.sync_state);
                reporter.report(LockEvent::Acquired(Target::Other));
                let other_state = guarded_state(&mut other_held);
                let self_state = guarded_state(&mut self_held);
                self_state.absorb(other_state);
            }
            reporter.report(LockEvent::Released(Target::Other));
        }
        reporter.report(LockEvent::Released(Target::This));
        assert(reporter.trace@ =~= old(reporter).trace@ + nested_locking(Target::This, Target::Other));
    }

    /// The mirror of `lock_twice_1`: takes `other`'s blocking lock first, then
    /// this handle's, and adds this handle's counter into `other`'s. Passing one
    /// object as both handles never returns: its lock is not reentrant and the
    /// second wait is on the lock the call already holds.
    pub fn lock_twice_2<O: LockObserver>(&self, other: &Foo, reporter: &mut Reporter<O>)
        ensures
            final(reporter).trace@ == old(reporter).trace@ + nested_locking(
                Target::Other,
                Target::This,
            ),
    {
        reporter.report(LockEvent::WaitBegin(Target::Other));
        {
            let mut other_held = acquire_blocking(&other.shared.sync_state);
            reporter.report(LockEvent::Acquired(Target::Other));
            reporter.report(LockEvent::WaitBegin(Target::This));
            {
                let mut self_held = acquire_blocking(&self.shared.sync_state);
                reporter.report(LockEvent::Acquired(Target::This));
                let self_state = guarded_state(&mut self_held);
                let other_state = guarded_state(&mut other_held);
                other_state.absorb(self_state);
            }
            reporter.report(LockEvent::Released(Target::This));
        }
        reporter.report(LockEvent::Released(Target::Other));
        assert(reporter.trace@ =~= old(reporter).trace@ + nested_locking(Target::Other, Target::This));
    }
}

impl Clone for Foo {
    /// Another handle to the same object: the shared part is not copied.
    fn clone(&self) -> (r: Foo)
        ensures
            r.identity() == self.identity(),
    {
        Foo { shared: share_core(&self.shared) }
    }
}

impl Default for Foo {
    /// A handle to a new object with the empty identity and both counters at zero.
    fn default() -> (r: Foo)
        ensures
            r.identity() == Seq::<char>::empty(),
    {
        Foo::new(String::new())
    }
}

} // verus!
