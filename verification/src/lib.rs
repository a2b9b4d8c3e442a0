//! Advisory whole-file locking for an open file handle.
//!
//! The library is the decision core of an asynchronous lock capability:
//! it says which flag bits each lock request carries, how the raw return
//! of the OS advisory-lock primitive reads as success or failure, and —
//! as a ghost model — what the primitive's shared/exclusive semantics
//! grant. The blocking syscall itself, and the dispatch that keeps it off
//! the cooperative scheduler, live outside the verified core: they hand
//! in a plain descriptor and hand back the primitive's raw return.

pub mod handle;
pub mod op;
pub mod protocol;

pub use handle::FileExt;
pub use handle::FileHandle;
pub use op::flock_outcome;
pub use op::FlockRequest;
pub use op::LockError;
pub use op::LockMode;
