use secure_signer::{LockingMode, SecureBuffer, SignerError};

#[test]
fn test_buffer_holds_contents() {
    let data = [0xabu8, 0xcd, 0xef, 0x01];
    let buf = SecureBuffer::from_slice_with_mode(&data, LockingMode::Permissive).unwrap();
    assert_eq!(buf.len(), 4);
    assert_eq!(buf.as_slice(), &data);
}

#[test]
fn test_buffer_starts_zeroed() {
    let buf = SecureBuffer::with_mode(16, LockingMode::Permissive).unwrap();
    assert_eq!(buf.len(), 16);
    assert!(buf.as_slice().iter().all(|b| *b == 0));
}

#[test]
fn test_zeroize_erases_every_byte() {
    let data = [0xffu8; 32];
    let mut buf = SecureBuffer::from_slice_with_mode(&data, LockingMode::Permissive).unwrap();
    buf.zeroize();
    assert_eq!(buf.len(), 32);
    assert!(buf.as_slice().iter().all(|b| *b == 0));
}

#[test]
fn test_zeroize_is_idempotent() {
    let data = [0x55u8; 8];
    let mut buf = SecureBuffer::from_slice_with_mode(&data, LockingMode::Permissive).unwrap();
    buf.zeroize();
    buf.zeroize();
    assert!(buf.as_slice().iter().all(|b| *b == 0));
}

#[test]
fn test_bounded_reads() {
    let data = [1u8, 2, 3, 4, 5, 6, 7, 8];
    let buf = SecureBuffer::from_slice_with_mode(&data, LockingMode::Permissive).unwrap();

    assert_eq!(buf.read_bytes(2, 3).unwrap(), &[3u8, 4, 5]);
    assert_eq!(buf.read_bytes(0, 8).unwrap(), &data);
    assert!(matches!(
        buf.read_bytes(6, 3),
        Err(SignerError::InvalidKeyFormat(8))
    ));
    assert!(matches!(
        buf.read_bytes(9, 0),
        Err(SignerError::InvalidKeyFormat(8))
    ));
}

#[test]
fn test_bounded_writes() {
    let mut buf = SecureBuffer::with_mode(8, LockingMode::Permissive).unwrap();

    buf.write_bytes(2, &[9u8, 8, 7]).unwrap();
    assert_eq!(buf.as_slice(), &[0u8, 0, 9, 8, 7, 0, 0, 0]);

    assert!(matches!(
        buf.write_bytes(6, &[1u8, 2, 3]),
        Err(SignerError::InvalidKeyFormat(8))
    ));
    // The failed request wrote nothing.
    assert_eq!(buf.as_slice(), &[0u8, 0, 9, 8, 7, 0, 0, 0]);
}

#[test]
fn test_permissive_mode_always_succeeds() {
    assert!(SecureBuffer::with_mode(0, LockingMode::Permissive).is_ok());
    assert!(SecureBuffer::with_mode(4096, LockingMode::Permissive).is_ok());
}

#[test]
fn test_strict_mode_reports_lock_failures_only() {
    // Whether pinning succeeds depends on the platform; the outcome must be
    // either a usable buffer or exactly a memory-lock failure.
    match SecureBuffer::with_mode(32, LockingMode::Strict) {
        Ok(buf) => assert_eq!(buf.len(), 32),
        Err(e) => assert!(matches!(e, SignerError::MemoryLockFailure)),
    }
}
