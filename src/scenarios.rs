//! The two-handle locking paths run on fresh objects.
use vstd::prelude::*;

use crate::handle::Foo;
use crate::observer::{NoObserver, Reporter};

verus! {

/// Two distinct objects, locked other-then-self: returns.
pub fn test_dead_lock0() {
    let foo1 = Foo::default();
    let foo2 = Foo::default();
    let mut reporter = Reporter::new(NoObserver);
    foo1.lock_twice_2(&foo2, &mut reporter);
}

/// One object passed as both handles: the second acquisition waits on the
/// lock the call already holds, and the call never returns.
pub fn test_dead_lock1() {
    let foo1 = Foo::default();
    let mut reporter = Reporter::new(NoObserver);
    foo1.lock_twice_2(&foo1, &mut reporter);
}

} // verus!
