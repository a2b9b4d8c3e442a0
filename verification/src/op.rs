//! Lock operations: the mode of a request, the flag bits it is sent with,
//! and the reading of the raw return of the OS advisory-lock primitive.

use vstd::prelude::*;

verus! {

/// The mode of an advisory whole-file lock request. The three modes map
/// one-to-one to the OS primitive's flag bits; no other request exists.
#[derive(Clone, Copy, Debug, PartialEq, Eq, Structural)]
pub enum LockMode {
    /// Request a shared (read) lock: many handles may hold one at once.
    Shared,
    /// Request an exclusive (write) lock: excludes every other holder.
    Exclusive,
    /// Release whatever lock this handle holds; a no-op when it holds none.
    Unlock,
}

/// The flag bits the OS primitive takes for each mode.
pub open spec fn flag_bits_spec(m: LockMode) -> i32 {
    match m {
        LockMode::Shared => 1,
        LockMode::Exclusive => 2,
        LockMode::Unlock => 8,
    }
}

impl LockMode {
    /// The flag bits that a request in this mode is dispatched with.
    pub fn flag_bits(&self) -> (r: i32)
        ensures
            r == flag_bits_spec(*self),
    {
        match self {
            LockMode::Shared => 1,
            LockMode::Exclusive => 2,
            LockMode::Unlock => 8,
        }
    }
}

/// The modes map one-to-one to the primitive's flag bits: distinct modes
/// are dispatched with distinct bits.
pub proof fn lemma_flag_bits_injective(a: LockMode, b: LockMode)
    ensures
        flag_bits_spec(a) == flag_bits_spec(b) ==> a == b,
{
}

/// A prepared lock request: the descriptor it targets and the mode asked
/// for. The descriptor is captured by value, so the request may cross an
/// execution-context boundary without borrowing the file handle.
#[derive(Clone, Copy, Debug, PartialEq, Eq, Structural)]
pub struct FlockRequest {
    /// The OS descriptor of the open file.
    pub fd: i32,
    /// The mode asked for.
    pub mode: LockMode,
}

impl FlockRequest {
    /// The flag bits this request is dispatched with.
    pub fn flag_bits(&self) -> (r: i32)
        ensures
            r == flag_bits_spec(self.mode),
    {
        self.mode.flag_bits()
    }
}

/// A failed lock operation, carrying the OS error code reported for the
/// calling thread right after the failed call.
#[derive(Clone, Copy, Debug, PartialEq, Eq, Structural)]
pub struct LockError {
    /// The OS error code (the per-thread last-error value).
    pub code: i32,
}

/// Reads the raw return of the OS advisory-lock primitive: a negative
/// return is a failure carrying the last-error value `errno`; any other
/// return means the requested lock-state change has taken effect.
pub fn flock_outcome(ret: i32, errno: i32) -> (r: Result<(), LockError>)
    ensures
        ret >= 0 <==> r == Ok::<(), LockError>(()),
        ret < 0 <==> r == Err::<(), LockError>(LockError { code: errno }),
{
    if ret < 0 {
        Err(LockError { code: errno })
    } else {
        Ok(())
    }
}

} // verus!
