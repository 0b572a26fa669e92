use sched_core::dispatcher::{Errno, Fd, SyscallDispatcher, UserCStr};
use sched_core::sys_write::{FileTable, OpenFile};

fn table_with(fd: i32, pos: usize, data: &[u8]) -> FileTable {
    FileTable { files: vec![OpenFile { fd, pos, data: data.to_vec() }] }
}

#[test]
fn fd_keeps_its_raw_number() {
    assert_eq!(Fd::new(5).0, 5);
    assert_eq!(Fd::new(-1).0, -1);
}

#[test]
fn user_cstr_stops_at_the_terminator() {
    let mem = b"hi\0after".to_vec();
    let c = UserCStr::new(&mem, 0, 32).unwrap();
    assert_eq!(c.as_str().unwrap(), "hi");
}

#[test]
fn user_cstr_reads_from_an_offset() {
    let mem = b"xxhey\0".to_vec();
    let c = UserCStr::new(&mem, 2, 32).unwrap();
    assert_eq!(c.as_str().unwrap(), "hey");
}

#[test]
fn user_cstr_is_cut_off_at_the_limit() {
    let mem = b"abcdef\0".to_vec();
    let c = UserCStr::new(&mem, 0, 3).unwrap();
    assert_eq!(c.as_str().unwrap(), "abc");
}

#[test]
fn user_cstr_faults_without_a_terminator() {
    let mem = b"abc".to_vec();
    match UserCStr::new(&mem, 0, 32) {
        Err(e) => assert_eq!(e, Errno::EFAULT),
        Ok(_) => panic!("a copy that ran off mapped memory must fault"),
    }
}

#[test]
fn user_cstr_faults_past_mapped_memory() {
    let mem = b"abc\0".to_vec();
    match UserCStr::new(&mem, 10, 4) {
        Err(e) => assert_eq!(e, Errno::EFAULT),
        Ok(_) => panic!("an unmapped address must fault"),
    }
}

#[test]
fn user_cstr_rejects_bytes_that_are_not_utf8() {
    let mem = vec![0xff, 0xfe, 0x00];
    let c = UserCStr::new(&mem, 0, 16).unwrap();
    match c.as_str() {
        Err(e) => assert_eq!(e, Errno::EINVAL),
        Ok(_) => panic!("invalid UTF-8 must be rejected"),
    }
}

#[test]
fn sys_write_appends_at_end_of_file() {
    let mut d = SyscallDispatcher::new();
    let mut t = table_with(3, 2, b"ab");
    let mem = b"cd".to_vec();
    let r = d.sys_write(&mut t, Fd::new(3), &mem, 0, 2);
    assert_eq!(r, Ok(2));
    assert_eq!(t.files[0].data, b"abcd".to_vec());
    assert_eq!(t.files[0].pos, 2);
}

#[test]
fn sys_write_overwrites_in_the_middle() {
    let mut d = SyscallDispatcher::new();
    let mut t = table_with(3, 2, b"abcdef");
    let mem = b"XY".to_vec();
    let r = d.sys_write(&mut t, Fd::new(3), &mem, 0, 2);
    assert_eq!(r, Ok(2));
    assert_eq!(t.files[0].data, b"abXYef".to_vec());
}

#[test]
fn sys_write_takes_bytes_from_the_given_address() {
    let mut d = SyscallDispatcher::new();
    let mut t = table_with(7, 0, b"");
    let mem = b"..hello".to_vec();
    let r = d.sys_write(&mut t, Fd::new(7), &mem, 2, 5);
    assert_eq!(r, Ok(5));
    assert_eq!(t.files[0].data, b"hello".to_vec());
}

#[test]
fn sys_write_rejects_an_unknown_descriptor() {
    let mut d = SyscallDispatcher::new();
    let mut t = table_with(3, 0, b"");
    let mem = b"hello".to_vec();
    let r = d.sys_write(&mut t, Fd::new(9), &mem, 0, 5);
    assert_eq!(r, Err(Errno::EBADF));
    assert!(t.files[0].data.is_empty());
}

#[test]
fn sys_write_faults_on_an_unmapped_range() {
    let mut d = SyscallDispatcher::new();
    let mut t = table_with(3, 0, b"");
    let mem = b"hi".to_vec();
    assert_eq!(d.sys_write(&mut t, Fd::new(3), &mem, 0, 3), Err(Errno::EFAULT));
    assert_eq!(d.sys_write(&mut t, Fd::new(3), &mem, 9, 1), Err(Errno::EFAULT));
    assert_eq!(d.sys_write(&mut t, Fd::new(3), &mem, 0, usize::MAX), Err(Errno::EFAULT));
    assert!(t.files[0].data.is_empty());
}

#[test]
fn dispatch_routes_write_by_number() {
    let mut d = SyscallDispatcher::new();
    let mut t = table_with(1, 0, b"");
    let mem = b"hello".to_vec();
    let r = d.dispatch(&mut t, &mem, 1, 0, 5, 0, 0, 0, 1);
    assert_eq!(r, Ok(5));
    assert_eq!(t.files[0].data, b"hello".to_vec());
}

#[test]
fn dispatch_answers_enosys_elsewhere() {
    let mut d = SyscallDispatcher::new();
    let mut t = table_with(1, 0, b"");
    let mem = b"hello".to_vec();
    assert_eq!(d.dispatch(&mut t, &mem, 1, 0, 5, 0, 0, 0, 0), Err(Errno::ENOSYS));
    assert_eq!(d.dispatch(&mut t, &mem, 1, 0, 5, 0, 0, 0, 999), Err(Errno::ENOSYS));
    assert!(t.files[0].data.is_empty());
}
