//! The advisory-lock semantics the library relies on, exercised against
//! the real OS primitive on freshly made temporary files.

#[test]
fn lock_unlock() {
    let file = tempfile::tempfile().unwrap();
    fs2::FileExt::lock_exclusive(&file).unwrap();
    fs2::FileExt::unlock(&file).unwrap();
}

#[test]
fn unlock_without_lock_succeeds() {
    let file = tempfile::tempfile().unwrap();
    fs2::FileExt::unlock(&file).unwrap();
    fs2::FileExt::unlock(&file).unwrap();
}

#[test]
fn shared_locks_coexist() {
    let first = tempfile::NamedTempFile::new().unwrap();
    let second = first.reopen().unwrap();
    fs2::FileExt::lock_shared(first.as_file()).unwrap();
    fs2::FileExt::lock_shared(&second).unwrap();
    fs2::FileExt::unlock(&second).unwrap();
    fs2::FileExt::unlock(first.as_file()).unwrap();
}

#[test]
fn exclusive_excludes_until_released() {
    let first = tempfile::NamedTempFile::new().unwrap();
    let second = first.reopen().unwrap();
    fs2::FileExt::lock_exclusive(first.as_file()).unwrap();
    assert!(fs2::FileExt::try_lock_shared(&second).is_err());
    assert!(fs2::FileExt::try_lock_exclusive(&second).is_err());
    fs2::FileExt::unlock(first.as_file()).unwrap();
    fs2::FileExt::try_lock_exclusive(&second).unwrap();
    fs2::FileExt::unlock(&second).unwrap();
}
