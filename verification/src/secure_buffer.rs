//! The guarded buffer: the only allowed holder of plaintext key material.
//!
//! A `SecureBuffer` owns a fixed number of bytes, attempts to pin the pages
//! that back them against swapping, and overwrites every byte with zero both
//! on an explicit `zeroize` call and when the buffer is dropped, on any exit
//! path of the enclosing scope.

use vstd::prelude::*;

use crate::error::SignerError;

verus! {

/// Policy for buffer creation: is a failure to pin the backing pages against
/// paging fatal (`Strict`) or tolerated (`Permissive`)?
///
/// `Permissive` is intended only for constrained or test environments.
#[derive(Debug, Clone, Copy, PartialEq, Eq, Structural)]
pub enum LockingMode {
    Strict,
    Permissive,
}

/// A memory region that the operating system has pinned against swapping.
/// Dropping the guard releases the pin.
#[verifier::external_type_specification]
#[verifier::external_body]
pub struct ExLockGuard(region::LockGuard);

/// Relies on region::lock: pins the pages that back `bytes` in memory
/// (mlock on Unix, VirtualLock on Windows); the returned guard unpins them
/// when it is dropped. `None` means the platform refused the pin.
#[verifier::external_body]
fn lock_region(bytes: &Vec<u8>) -> (r: Option<region::LockGuard>)
    requires
        bytes@.len() > 0,
{
    region::lock(bytes.as_ptr(), bytes.len()).ok()
}

/// Relies on zeroize::Zeroize for Vec<u8>: overwrites every live byte and the
/// vector's whole spare capacity with zero, through writes the compiler may
/// not elide, then leaves the vector empty. Used on the drop path, where the
/// buffer's contents are about to be released.
#[verifier::external_body]
fn erase_vec(bytes: &mut Vec<u8>)
    opens_invariants none
    no_unwind
{
    zeroize::Zeroize::zeroize(bytes);
}

/// A byte container of fixed length whose backing memory is pinned against
/// paging when possible and is overwritten with zeroes on every release path.
pub struct SecureBuffer {
    bytes: Vec<u8>,
    guard: Option<region::LockGuard>,
}

impl View for SecureBuffer {
    type V = Seq<u8>;

    closed spec fn view(&self) -> Seq<u8> {
        self.bytes@
    }
}

impl SecureBuffer {
    /// Whether the backing pages are pinned against swapping.
    pub closed spec fn spec_locked(&self) -> bool {
        self.guard is Some
    }

    /// Allocates exactly `length` zero-initialized bytes and attempts to pin
    /// them. In `Strict` mode a failure to pin is fatal and nothing sensitive
    /// can ever have entered the buffer; in `Permissive` mode the buffer is
    /// usable unpinned.
    pub fn with_mode(length: usize, mode: LockingMode) -> (r: Result<SecureBuffer, SignerError>)
        ensures
            r matches Ok(b) ==> b@ == Seq::new(length as nat, |i: int| 0u8),
            r matches Ok(b) ==> (mode is Strict && length > 0 ==> b.spec_locked()),
            r matches Err(e) ==> e is MemoryLockFailure && mode is Strict,
            mode is Permissive ==> r is Ok,
    {
        let mut bytes: Vec<u8> = Vec::new();
        let mut i: usize = 0;
        while i < length
            invariant
                i <= length,
                bytes@ == Seq::new(i as nat, |j: int| 0u8),
            decreases length - i,
        {
            bytes.push(0u8);
            proof {
                assert(bytes@ =~= Seq::new((i + 1) as nat, |j: int| 0u8));
            }
            i = i + 1;
        }
        let guard = if length > 0 {
            lock_region(&bytes)
        } else {
            None
        };
        if guard.is_none() && length > 0 {
            if let LockingMode::Strict = mode {
                return Err(SignerError::MemoryLockFailure);
            }
        }
        Ok(SecureBuffer { bytes, guard })
    }

    /// Same as `with_mode`, then copies `source` in. The pin is acquired
    /// before any byte of `source` is written, so in `Strict` mode plaintext
    /// never touches unpinned memory owned by the buffer.
    pub fn from_slice_with_mode(source: &[u8], mode: LockingMode) -> (r: Result<SecureBuffer, SignerError>)
        ensures
            r matches Ok(b) ==> b@ == source@,
            r matches Err(e) ==> e is MemoryLockFailure && mode is Strict,
            mode is Permissive ==> r is Ok,
    {
        let mut buf = match Self::with_mode(source.len(), mode) {
            Ok(b) => b,
            Err(e) => {
                return Err(e);
            },
        };
        let mut i: usize = 0;
        while i < source.len()
            invariant
                i <= source@.len(),
                buf@.len() == source@.len(),
                forall|j: int| 0 <= j < i ==> buf@[j] == source@[j],
            decreases source@.len() - i,
        {
            let b = source[i];
            buf.bytes[i] = b;
            i = i + 1;
        }
        proof {
            assert(buf@ =~= source@);
        }
        Ok(buf)
    }

    /// The fixed length of the buffer.
    pub fn len(&self) -> (r: usize)
        ensures
            r == self@.len(),
    {
        self.bytes.len()
    }

    /// Bounded read access to the buffer's contents.
    pub fn as_slice(&self) -> (r: &[u8])
        ensures
            r@ == self@,
    {
        self.bytes.as_slice()
    }

    /// Bounded read view of `count` bytes from `start`. A request that
    /// crosses the buffer's fixed boundary fails with `InvalidKeyFormat`
    /// carrying the buffer's length.
    pub fn read_bytes(&self, start: usize, count: usize) -> (r: Result<&[u8], SignerError>)
        ensures
            start + count <= self@.len() ==> (r matches Ok(b) && b@ == self@.subrange(
                start as int,
                start + count,
            )),
            start + count > self@.len() ==> (r matches Err(e) && e
                matches SignerError::InvalidKeyFormat(n) && n == self@.len()),
    {
        if count > self.bytes.len() || start > self.bytes.len() - count {
            return Err(SignerError::InvalidKeyFormat(self.bytes.len()));
        }
        Ok(vstd::slice::slice_subrange(self.bytes.as_slice(), start, start + count))
    }

    /// Bounded write view: copies `source` over the `source.len()` bytes
    /// starting at `start`, leaving the rest unchanged. A request that
    /// crosses the buffer's fixed boundary fails with `InvalidKeyFormat`
    /// carrying the buffer's length, and writes nothing.
    pub fn write_bytes(&mut self, start: usize, source: &[u8]) -> (r: Result<(), SignerError>)
        ensures
            start + source@.len() <= old(self)@.len() ==> (r is Ok && final(self)@.len() == old(
                self,
            )@.len() && final(self)@.subrange(start as int, start + source@.len()) == source@ && (
            forall|j: int| 0 <= j < start ==> final(self)@[j] == old(self)@[j]) && (forall|j: int|
                start + source@.len() <= j < old(self)@.len() ==> final(self)@[j] == old(
                    self,
                )@[j])),
            start + source@.len() > old(self)@.len() ==> (r matches Err(e) && e
                matches SignerError::InvalidKeyFormat(n) && n == old(self)@.len() && final(self)@
                == old(self)@),
            final(self).spec_locked() == old(self).spec_locked(),
    {
        let count = source.len();
        let n = self.bytes.len();
        if count > n || start > n - count {
            return Err(SignerError::InvalidKeyFormat(n));
        }
        let mut k: usize = 0;
        while k < count
            invariant
                k <= count,
                count == source@.len(),
                start + count <= n,
                n == self.bytes@.len(),
                self.bytes@.len() == old(self)@.len(),
                self.guard == old(self).guard,
                forall|j: int| 0 <= j < start ==> self.bytes@[j] == old(self)@[j],
                forall|j: int|
                    start + count <= j < old(self)@.len() ==> self.bytes@[j] == old(self)@[j],
                forall|j: int| 0 <= j < k ==> self.bytes@[start + j] == source@[j],
            decreases count - k,
        {
            let b = source[k];
            self.bytes[start + k] = b;
            k += 1;
        }
        proof {
            assert(self.bytes@.subrange(start as int, start + count as int) =~= source@);
        }
        Ok(())
    }

    /// Mutable access to the backing vector, for trusted wrappers that let an
    /// outside primitive write its output directly into pinned memory.
    pub(crate) fn vec_mut(&mut self) -> (r: &mut Vec<u8>)
        ensures
            r@ == old(self)@,
            final(self)@ == final(r)@,
            final(self).spec_locked() == old(self).spec_locked(),
    {
        &mut self.bytes
    }

    /// Overwrites every byte with zero. Idempotent; also invoked implicitly
    /// when the buffer is dropped, whatever way the scope was exited.
    pub fn zeroize(&mut self)
        ensures
            final(self)@ == Seq::new(old(self)@.len(), |i: int| 0u8),
            final(self).spec_locked() == old(self).spec_locked(),
    {
        let n = self.bytes.len();
        let mut i: usize = 0;
        while i < n
            invariant
                i <= n,
                n == self.bytes@.len(),
                self.guard == old(self).guard,
                forall|j: int| 0 <= j < i ==> self.bytes@[j] == 0u8,
            decreases n - i,
        {
            self.bytes[i] = 0u8;
            i = i + 1;
        }
        proof {
            assert(self.bytes@ =~= Seq::new(old(self)@.len(), |i: int| 0u8));
        }
    }
}

impl Drop for SecureBuffer {
    /// Erasure on every exit path: the bytes are zeroed before the memory is
    /// returned to the allocator (and before the page pin, if any, is
    /// released).
    fn drop(&mut self)
        opens_invariants none
        no_unwind
    {
        erase_vec(&mut self.bytes);
    }
}

} // verus!
