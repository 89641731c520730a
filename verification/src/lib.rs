//! Resource-lifecycle and connection-establishment layer for a
//! Reliable-Connected RDMA transport.
//!
//! The crate models the hardware-backed objects of the verbs interface —
//! device context, protection domain, completion channel and queue, memory
//! region, queue pair — together with the dependency rules that govern their
//! creation and destruction, the queue-pair connection state machine
//! (RESET → INIT → RTR → RTS), and the work-request posting and
//! completion-polling paths.  Every operation carries a contract that states
//! exactly when it succeeds and what it does to the objects involved.

pub mod attr;
pub mod error;
pub mod ibv;
pub mod ibv_atomic_cap;
pub mod ibv_device_cap_flags;
pub mod laws;
pub mod wr;

pub use crate::error::IbvContextError;
pub use crate::error::IbvError;
pub use crate::ibv::IbvContext;
