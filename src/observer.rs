//! Lifecycle events of lock acquisition, and the hook through which a caller
//! may watch them (to log them, or to stretch the time a lock is held).
use vstd::prelude::*;

verus! {

/// Which handle of a call a lock belongs to: the receiver, or the other one.
#[derive(Clone, Copy, Debug, PartialEq, Eq, Structural)]
pub enum Target {
    This,
    Other,
}

/// One step in the life of a lock acquisition.
#[derive(Clone, Copy, Debug, PartialEq, Eq, Structural)]
pub enum LockEvent {
    /// About to wait for the lock.
    WaitBegin(Target),
    /// The lock is now held.
    Acquired(Target),
    /// The lock has just been given up.
    Released(Target),
}

/// A watcher of lock events, supplied by the caller. It is called on the
/// thread that takes the locks, at the moment each event happens, so a hook
/// that waits on `Acquired` keeps that lock held for as long as it waits.
pub trait LockObserver {
    fn observe(&mut self, event: LockEvent);
}

/// The hook that ignores every event.
pub struct NoObserver;

impl LockObserver for NoObserver {
    fn observe(&mut self, event: LockEvent) {
    }
}

/// A hook that keeps every event it is shown, in order.
pub struct EventLog {
    pub events: Vec<LockEvent>,
}

impl EventLog {
    /// A log with no events.
    pub fn new() -> (r: EventLog)
        ensures
            r.events@ == Seq::<LockEvent>::empty(),
    {
        EventLog { events: Vec::new() }
    }
}

impl LockObserver for EventLog {
    fn observe(&mut self, event: LockEvent)
        ensures
            final(self).events@ == old(self).events@.push(event),
    {
        self.events.push(event);
    }
}

/// A caller's hook together with the events reported to it so far.
pub struct Reporter<O: LockObserver> {
    pub hook: O,
    /// Every event passed to `hook` through this reporter, in order.
    pub trace: Ghost<Seq<LockEvent>>,
}

impl<O: LockObserver> Reporter<O> {
    /// A reporter around `hook` that has reported nothing yet.
    pub fn new(hook: O) -> (r: Reporter<O>)
        ensures
            r.hook == hook,
            r.trace@ == Seq::<LockEvent>::empty(),
    {
        Reporter { hook, trace: Ghost(Seq::empty()) }
    }

    /// Shows `event` to the hook and records it.
    pub fn report(&mut self, event: LockEvent)
        ensures
            final(self).trace@ == old(self).trace@.push(event),
    {
        self.hook.observe(event);
        self.trace = Ghost(self.trace@.push(event));
    }

    /// Gives the hook back.
    pub fn into_hook(self) -> (r: O)
        ensures
            r == self.hook,
    {
        self.hook
    }
}

/// The events of one acquisition of the lock of `t`, held and then released
/// with nothing else in between.
pub open spec fn single_locking(t: Target) -> Seq<LockEvent> {
    seq![LockEvent::WaitBegin(t), LockEvent::Acquired(t), LockEvent::Released(t)]
}

/// The events of taking the lock of `outer`, then, while holding it, the lock of
/// `inner`; the inner lock is released before the outer one.
pub open spec fn nested_locking(outer: Target, inner: Target) -> Seq<LockEvent> {
    seq![
        LockEvent::WaitBegin(outer),
        LockEvent::Acquired(outer),
        LockEvent::WaitBegin(inner),
        LockEvent::Acquired(inner),
        LockEvent::Released(inner),
        LockEvent::Released(outer),
    ]
}

} // verus!
