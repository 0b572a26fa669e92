//! The write system call handler.

use vstd::prelude::*;
use crate::dispatcher::{Errno, Fd, SyscallDispatcher};

verus! {

/// The most bytes one read or write moves; keeps the returned length within
/// `isize` on every target.
pub const MAX_READ_WRITE_LEN: usize = 0x7fff_ffff;

/// One open file: its descriptor, the current file position, and the bytes it
/// holds. The file object behind a descriptor is an external collaborator;
/// this record models what the write path reads and changes of it.
pub struct OpenFile {
    pub fd: i32,
    pub pos: usize,
    pub data: Vec<u8>,
}

/// The opened-file table of the currently running process.
pub struct FileTable {
    pub files: Vec<OpenFile>,
}

impl FileTable {
    /// Descriptors are unique and every file position lies within its file.
    pub open spec fn wf(self) -> bool {
        &&& forall|i: int, j: int|
            0 <= i < self.files@.len() && 0 <= j < self.files@.len() && i != j
                ==> self.files@[i].fd != self.files@[j].fd
        &&& forall|i: int| 0 <= i < self.files@.len()
                ==> #[trigger] self.files@[i].pos <= self.files@[i].data@.len()
    }

    /// Whether some open file answers to the descriptor.
    pub open spec fn has_fd(self, fd: i32) -> bool {
        exists|i: int| 0 <= i < self.files@.len() && #[trigger] self.files@[i].fd == fd
    }

    /// The table slot of the descriptor's file (unique in a well-formed table).
    pub open spec fn fd_index(self, fd: i32) -> int {
        choose|i: int| 0 <= i < self.files@.len() && #[trigger] self.files@[i].fd == fd
    }
}

/// The file contents after `buf` is written at offset `pos`.
pub open spec fn write_at(data: Seq<u8>, pos: int, buf: Seq<u8>) -> Seq<u8> {
    if pos + buf.len() <= data.len() {
        data.take(pos) + buf + data.skip(pos + buf.len())
    } else {
        data.take(pos) + buf
    }
}

/// How many bytes a write of `len` moves once clamped to the transfer limit.
pub open spec fn clamped_len(len: usize) -> int {
    if len <= MAX_READ_WRITE_LEN {
        len as int
    } else {
        MAX_READ_WRITE_LEN as int
    }
}

/// What the write system call does: the clamped byte count is copied out of
/// user memory — faulting if the range is not mapped — and written into the
/// descriptor's file at its position; the byte count is returned. Everything
/// else in the table is untouched.
pub open spec fn sys_write_post(
    pre: FileTable,
    post: FileTable,
    fd: i32,
    mem: Seq<u8>,
    uaddr: usize,
    len: usize,
    r: Result<isize, Errno>,
) -> bool {
    let n = clamped_len(len);
    if uaddr + n > mem.len() {
        r == Err::<isize, Errno>(Errno::EFAULT) && post == pre
    } else if !pre.has_fd(fd) {
        r == Err::<isize, Errno>(Errno::EBADF) && post == pre
    } else {
        let w = pre.fd_index(fd);
        &&& r == Ok::<isize, Errno>(n as isize)
        &&& post.files@.len() == pre.files@.len()
        &&& post.files@[w].fd == pre.files@[w].fd
        &&& post.files@[w].pos == pre.files@[w].pos
        &&& post.files@[w].data@ == write_at(
            pre.files@[w].data@,
            pre.files@[w].pos as int,
            mem.subrange(uaddr as int, uaddr + n),
        )
        &&& forall|i: int| 0 <= i < pre.files@.len() && i != w
                ==> post.files@[i] == pre.files@[i]
    }
}

/// Finds the table slot holding the descriptor, if any.
fn find_fd(files: &FileTable, fd: i32) -> (r: Option<usize>)
    ensures
        r matches Some(w) ==> w < files.files@.len() && files.files@[w as int].fd == fd,
        r is None ==> !files.has_fd(fd),
{
    let mut w: usize = 0;
    while w < files.files.len()
        invariant
            w <= files.files@.len(),
            forall|j: int| 0 <= j < w ==> files.files@[j].fd != fd,
        decreases files.files@.len() - w,
    {
        if files.files[w].fd == fd {
            return Some(w);
        }
        w += 1;
    }
    None
}

impl SyscallDispatcher {
    /// The write system call: copies `len` bytes — clamped to the transfer
    /// limit — from user memory at `uaddr`, writes them into the open file
    /// named by `fd` at its current position, and returns how many bytes were
    /// written; the limit keeps that count within `isize`. Unmapped user
    /// memory answers `EFAULT`, an unknown descriptor `EBADF`.
    pub fn sys_write(
        &mut self,
        files: &mut FileTable,
        fd: Fd,
        mem: &Vec<u8>,
        uaddr: usize,
        len: usize,
    ) -> (r: Result<isize, Errno>)
        requires
            old(files).wf(),
        ensures
            final(files).wf(),
            sys_write_post(*old(files), *final(files), fd.0, mem@, uaddr, len, r),
    {
        let len = if len < MAX_READ_WRITE_LEN {
            len
        } else {
            MAX_READ_WRITE_LEN
        };

        // Copy the bytes out of user memory; an unmapped range is a fault.
        if uaddr > mem.len() || len > mem.len() - uaddr {
            return Err(Errno::EFAULT);
        }
        let mlen = mem.len();
        let mut buf: Vec<u8> = Vec::new();
        let mut i: usize = 0;
        while i < len
            invariant
                i <= len,
                uaddr + len <= mlen,
                mlen == mem@.len(),
                buf@ == mem@.subrange(uaddr as int, uaddr as int + i as int),
            decreases len - i,
        {
            buf.push(mem[uaddr + i]);
            i += 1;
        }

        // Look the descriptor up in the opened-file table.
        let w = match find_fd(files, fd.0) {
            Some(w) => w,
            None => {
                return Err(Errno::EBADF);
            },
        };
        proof {
            assert(files.has_fd(fd.0));
            let c = files.fd_index(fd.0);
            assert(0 <= c < files.files@.len() && files.files@[c].fd == fd.0);
            assert(c == w as int);
        }

        // Write the bytes into the file at its current position.
        let pos = files.files[w].pos;
        let dlen = files.files[w].data.len();
        let mut out: Vec<u8> = Vec::new();
        let mut a: usize = 0;
        while a < pos
            invariant
                a <= pos,
                pos <= dlen,
                w < files.files@.len(),
                dlen == files.files@[w as int].data@.len(),
                out@ == files.files@[w as int].data@.subrange(0, a as int),
            decreases pos - a,
        {
            out.push(files.files[w].data[a]);
            a += 1;
        }
        let mut b: usize = 0;
        while b < buf.len()
            invariant
                b <= buf@.len(),
                pos <= dlen,
                w < files.files@.len(),
                dlen == files.files@[w as int].data@.len(),
                out@ == files.files@[w as int].data@.subrange(0, pos as int)
                    + buf@.subrange(0, b as int),
            decreases buf@.len() - b,
        {
            out.push(buf[b]);
            b += 1;
        }
        if len <= dlen - pos {
            let mut c: usize = pos + len;
            while c < dlen
                invariant
                    pos + len <= c <= dlen,
                    w < files.files@.len(),
                    dlen == files.files@[w as int].data@.len(),
                    out@ == files.files@[w as int].data@.subrange(0, pos as int) + buf@
                        + files.files@[w as int].data@.subrange(pos as int + len as int, c as int),
                decreases dlen - c,
            {
                out.push(files.files[w].data[c]);
                c += 1;
            }
        }
        proof {
            assert(buf@ == mem@.subrange(uaddr as int, uaddr as int + len as int));
            assert(out@ =~= write_at(files.files@[w as int].data@, pos as int, buf@));
        }
        proof {
            assert(out@.len() >= pos);
        }
        files.files[w].data = out;
        Ok(len as isize)
    }
}

} // verus!
