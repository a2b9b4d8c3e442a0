//! The lock capability's decision core: which request each operation
//! builds, and how the primitive's raw return reads.

use async_filelock::flock_outcome;
use async_filelock::FileExt;
use async_filelock::FileHandle;
use async_filelock::FlockRequest;
use async_filelock::LockError;
use async_filelock::LockMode;

#[test]
fn flag_bits_match_os_constants() {
    assert_eq!(LockMode::Shared.flag_bits(), libc::LOCK_SH);
    assert_eq!(LockMode::Exclusive.flag_bits(), libc::LOCK_EX);
    assert_eq!(LockMode::Unlock.flag_bits(), libc::LOCK_UN);
}

#[test]
fn flag_bits_distinct() {
    assert_ne!(LockMode::Shared.flag_bits(), LockMode::Exclusive.flag_bits());
    assert_ne!(LockMode::Shared.flag_bits(), LockMode::Unlock.flag_bits());
    assert_ne!(LockMode::Exclusive.flag_bits(), LockMode::Unlock.flag_bits());
}

#[test]
fn requests_carry_descriptor_and_mode() {
    let handle = FileHandle::new(7);
    assert_eq!(handle.descriptor(), 7);
    assert_eq!(handle.lock_shared(), FlockRequest { fd: 7, mode: LockMode::Shared });
    assert_eq!(handle.lock_exclusive(), FlockRequest { fd: 7, mode: LockMode::Exclusive });
    assert_eq!(handle.unlock(), FlockRequest { fd: 7, mode: LockMode::Unlock });
    assert_eq!(handle.lock_exclusive().flag_bits(), libc::LOCK_EX);
}

#[test]
fn outcome_success_on_zero_return() {
    assert_eq!(flock_outcome(0, 0), Ok(()));
}

#[test]
fn outcome_success_ignores_stale_errno() {
    assert_eq!(flock_outcome(0, libc::EINTR), Ok(()));
}

#[test]
fn outcome_failure_carries_os_code() {
    // A lock attempt on a closed descriptor returns -1 with EBADF; the
    // failure is surfaced with exactly that code, never masked.
    assert_eq!(flock_outcome(-1, libc::EBADF), Err(LockError { code: libc::EBADF }));
    assert_eq!(flock_outcome(-1, libc::EINTR), Err(LockError { code: libc::EINTR }));
}
