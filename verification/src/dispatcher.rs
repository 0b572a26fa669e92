//! The syscall dispatch layer: a pure consumer of the currently running
//! process, out of the scheduling core proper.

use vstd::prelude::*;
use vstd::utf8::valid_utf8;
use vstd::string::*;
use crate::sys_write::{FileTable, sys_write_post};

verus! {

/// The number user space passes to name the write system call.
pub const SYS_WRITE: usize = 1;

/// The error numbers this layer hands back.
#[derive(Clone, Copy, PartialEq, Eq, Structural, Debug)]
pub enum Errno {
    /// Invalid argument (a C string that is not UTF-8).
    EINVAL,
    /// Bad address: user memory that is not mapped.
    EFAULT,
    /// Bad file descriptor.
    EBADF,
    /// Unimplemented system call number.
    ENOSYS,
}

/// A file descriptor, as the raw integer user space passes.
#[derive(Clone, Copy, PartialEq, Eq, Structural, Debug)]
pub struct Fd(pub i32);

impl Fd {
    pub fn new(raw: i32) -> (fd: Fd)
        ensures
            fd.0 == raw,
    {
        Fd(raw)
    }
}

/// `out` is what copying a C string out of `region` with buffer limit
/// `max_len` yields: the bytes before the first NUL, the terminator excluded
/// and the copy cut off at the limit.
pub open spec fn cstr_copy(region: Seq<u8>, max_len: int, out: Seq<u8>) -> bool {
    &&& out.len() <= max_len
    &&& out.len() <= region.len()
    &&& out == region.take(out.len() as int)
    &&& forall|j: int| 0 <= j < out.len() ==> region[j] != 0
    &&& out.len() < max_len && out.len() < region.len() ==> region[out.len() as int] == 0
}

/// Mapped user memory runs out before a terminator or the buffer limit: the
/// copy faults.
pub open spec fn cstr_fault(region: Seq<u8>, max_len: int) -> bool {
    region.len() < max_len && (forall|j: int| 0 <= j < region.len() ==> region[j] != 0)
}

/// A C string copied in from user memory.
pub struct UserCStr {
    buf: Vec<u8>,
}

/// Relies on `core::str::from_utf8`: it accepts exactly the byte slices that
/// are valid UTF-8 and returns them unchanged as a `str`.
#[verifier::external_body]
fn bytes_as_str(bytes: &[u8]) -> (r: Option<&str>)
    ensures
        r matches Some(s) ==> valid_utf8(bytes@) && s.spec_bytes() == bytes@,
        r is None ==> !valid_utf8(bytes@),
{
    core::str::from_utf8(bytes).ok()
}

impl UserCStr {
    /// The copied bytes, terminator excluded.
    pub closed spec fn bytes(self) -> Seq<u8> {
        self.buf@
    }

    /// Copies a NUL-terminated string of at most `max_len` bytes out of user
    /// memory at `uaddr`; running off mapped memory before a terminator or
    /// the limit is a fault.
    pub fn new(mem: &Vec<u8>, uaddr: usize, max_len: usize) -> (r: Result<UserCStr, Errno>)
        ensures
            r matches Ok(c) ==> uaddr <= mem@.len()
                && cstr_copy(mem@.skip(uaddr as int), max_len as int, c.bytes()),
            r matches Err(e) ==> e == Errno::EFAULT,
            r is Ok <==> (uaddr <= mem@.len()
                && !cstr_fault(mem@.skip(uaddr as int), max_len as int)),
    {
        if uaddr > mem.len() {
            return Err(Errno::EFAULT);
        }
        let ghost region = mem@.skip(uaddr as int);
        let mut buf: Vec<u8> = Vec::new();
        let mut i: usize = uaddr;
        while i < mem.len() && i - uaddr < max_len
            invariant
                uaddr <= i <= mem@.len(),
                i - uaddr <= max_len,
                region == mem@.skip(uaddr as int),
                buf@ == mem@.subrange(uaddr as int, i as int),
                forall|j: int| uaddr <= j < i ==> mem@[j] != 0,
            decreases mem@.len() - i,
        {
            let byte = mem[i];
            if byte == 0 {
                proof {
                    assert(buf@ =~= region.take(i - uaddr));
                    assert(region[i - uaddr] == 0);
                }
                return Ok(UserCStr { buf });
            }
            buf.push(byte);
            i += 1;
        }
        proof {
            assert(buf@ =~= region.take(i - uaddr));
        }
        if i - uaddr == max_len {
            return Ok(UserCStr { buf });
        }
        proof {
            assert(i == mem@.len());
            assert(region.len() == i - uaddr);
            assert forall|j: int| 0 <= j < region.len() implies region[j] != 0 by {
                assert(region[j] == mem@[uaddr + j]);
            }
        }
        Err(Errno::EFAULT)
    }

    /// The copied bytes as UTF-8, or `EINVAL` where they are no valid UTF-8.
    pub fn as_str(&self) -> (r: Result<&str, Errno>)
        ensures
            r matches Ok(s) ==> valid_utf8(self.bytes()) && s.spec_bytes() == self.bytes(),
            r matches Err(e) ==> e == Errno::EINVAL && !valid_utf8(self.bytes()),
    {
        match bytes_as_str(self.buf.as_slice()) {
            Some(s) => Ok(s),
            None => Err(Errno::EINVAL),
        }
    }
}

/// The flat numeric dispatch table from system call numbers to handlers.
pub struct SyscallDispatcher {}

impl SyscallDispatcher {
    pub fn new() -> (d: SyscallDispatcher)
        ensures
            d == (SyscallDispatcher {}),
    {
        SyscallDispatcher {}
    }

    /// Routes one system call by number. Only the write handler belongs to
    /// this core; every other number — those whose handlers live elsewhere in
    /// the kernel included — answers `ENOSYS` here.
    pub fn dispatch(
        &mut self,
        files: &mut FileTable,
        mem: &Vec<u8>,
        a1: usize,
        a2: usize,
        a3: usize,
        _a4: usize,
        _a5: usize,
        _a6: usize,
        n: usize,
    ) -> (r: Result<isize, Errno>)
        requires
            old(files).wf(),
        ensures
            final(files).wf(),
            n == SYS_WRITE
                ==> sys_write_post(*old(files), *final(files), a1 as i32, mem@, a2, a3, r),
            n != SYS_WRITE
                ==> r == Err::<isize, Errno>(Errno::ENOSYS) && *final(files) == *old(files),
    {
        match n {
            SYS_WRITE => self.sys_write(files, Fd::new(a1 as i32), mem, a2, a3),
            _ => Err(Errno::ENOSYS),
        }
    }
}

} // verus!
