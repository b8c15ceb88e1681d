//! A shared object whose two counters sit behind two different kinds of lock:
//! a blocking one (`parking_lot`) and a cooperative one (`tokio`), together with
//! the two-handle locking paths that show safe and unsafe acquisition orders.
pub mod state;
mod locks;
pub mod observer;
pub mod handle;
pub mod scenarios;
pub mod laws;
