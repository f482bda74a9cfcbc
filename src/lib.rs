//! An in-process publish/subscribe signal bus. A broadcast signal copies each
//! value to every subscriber; an exclusive signal moves each value, in order,
//! to its one subscriber. A supervisor keeps the named tasks that run the
//! subscribers' dispatch loops.
pub mod bindings;
pub mod broadcast;
pub mod dispatch;
pub mod error;
pub mod exclusive;
pub mod inner;
pub mod supervisor;

pub use broadcast::{Signal, Subscription, SIGNAL_CAPACITY};
pub use dispatch::{BroadcastEvent, LoopState};
pub use error::{EmitError, SignalError};
pub use exclusive::{emit_outcome, SignalNoClone};
pub use inner::SignalInner;
pub use supervisor::{_spawn, shutdown_step, ShutdownStep, TaskEntry, TaskMaster, SHUTDOWN_POLL_MILLIS};
