use chibiwasm::execution::error::RuntimeError;
use chibiwasm::execution::module::InternalMemoryInst;
use chibiwasm::wasi::file::{FdFlags, FdStat, FileCaps, FileType};
use chibiwasm::wasi::preview1::{
    arg_i32, arg_i64, filetype_of, open_plan, path_within, seek_target, OpenPlan, SeekTarget,
};
use chibiwasm::Value;
use chibiwasm::wasi::preview1::{
    iovec_ranges, put_dirents, put_empty_environ, put_events, put_fdstat, put_filestat, put_link_target,
    put_prestat, put_prestat_dir_name, put_sizes, put_strings, read_subscriptions, read_uint, write_bytes,
    write_uint, Filestat, PollEvent, ERRNO_INVAL, ERRNO_SUCCESS,
};

fn memory(n: usize) -> InternalMemoryInst {
    InternalMemoryInst { data: vec![0; n], max: None }
}

#[test]
fn arguments_are_put_as_pointers_and_strings() {
    let mut mem = memory(32);
    let args = vec![b"ab".to_vec(), b"c".to_vec()];
    assert_eq!(put_strings(&mut mem, &args, 0, 16), ERRNO_SUCCESS);
    assert_eq!(read_uint(&mem, 0, 4), Ok(16));
    assert_eq!(read_uint(&mem, 4, 4), Ok(19));
    assert_eq!(&mem.data[16..21], b"ab\0c\0");
    assert_eq!(put_sizes(&mut mem, &args, 8, 12), Ok(()));
    assert_eq!(read_uint(&mem, 8, 4), Ok(2));
    assert_eq!(read_uint(&mem, 12, 4), Ok(5));
    // the second string does not fit: the first stays, with the second pointer
    let mut small = memory(12);
    assert_eq!(put_strings(&mut small, &args, 0, 8), ERRNO_INVAL);
    assert_eq!(&small.data[8..11], b"ab\0");
    assert_eq!(read_uint(&small, 4, 4), Ok(11));
    assert_eq!(put_sizes(&mut small, &args, 0, 10), Err(RuntimeError::OutOfBoundsMemoryAccess));
}

#[test]
fn an_empty_environment_is_one_empty_string() {
    let mut mem = memory(8);
    assert_eq!(put_empty_environ(&mut mem, 0, 6), ERRNO_SUCCESS);
    assert_eq!(read_uint(&mem, 0, 4), Ok(6));
    assert_eq!(mem.data[6], 0);
    assert_eq!(put_empty_environ(&mut mem, 0, 8), ERRNO_INVAL);
    assert_eq!(put_empty_environ(&mut mem, 5, 0), ERRNO_INVAL);
}

#[test]
fn io_vectors_name_ranges_of_memory() {
    let mut mem = memory(32);
    assert_eq!(write_uint(&mut mem, 0, 4, 16), Ok(()));
    assert_eq!(write_uint(&mut mem, 4, 4, 5), Ok(()));
    assert_eq!(write_uint(&mut mem, 8, 4, 24), Ok(()));
    assert_eq!(write_uint(&mut mem, 12, 4, 8), Ok(()));
    assert_eq!(iovec_ranges(&mem, 0, 2), Ok(vec![(16, 21), (24, 32)]));
    assert_eq!(write_uint(&mut mem, 12, 4, 9), Ok(()));
    assert_eq!(iovec_ranges(&mem, 0, 2), Err(RuntimeError::OutOfBoundsMemoryAccess));
    assert_eq!(iovec_ranges(&mem, 28, 1), Err(RuntimeError::OutOfBoundsMemoryAccess));
    assert_eq!(iovec_ranges(&mem, 28, 0), Ok(vec![]));
}

#[test]
fn file_state_layout() {
    let mut mem = memory(24);
    let stat = FdStat { filetype: FileType::RegularFile, caps: FileCaps::Read, flags: FdFlags::Append };
    assert_eq!(put_fdstat(&mut mem, 0, stat), Ok(()));
    assert_eq!(mem.data[0], 4);
    assert_eq!(read_uint(&mem, 2, 2), Ok(1));
    assert_eq!(read_uint(&mem, 8, 8), Ok(u64::MAX));
    assert_eq!(read_uint(&mem, 16, 8), Ok(u64::MAX));
    assert_eq!(put_fdstat(&mut mem, 1, stat), Err(RuntimeError::OutOfBoundsMemoryAccess));
    assert_eq!(write_bytes(&mut mem, 22, b"xyz"), Err(RuntimeError::OutOfBoundsMemoryAccess));
    assert_eq!(write_bytes(&mut mem, 21, b"xyz"), Ok(()));
    assert_eq!(&mem.data[21..24], b"xyz");
}

#[test]
fn a_filestat_is_put_field_by_field() {
    let mut mem = InternalMemoryInst { data: vec![0xaa; 72], max: None };
    let st = Filestat { filetype: FileType::RegularFile, size: 1234, atim: 5, mtim: 6, ctim: 7 };
    assert_eq!(put_filestat(&mut mem, 4, st), Ok(()));
    assert_eq!(read_uint(&mem, 4, 8), Ok(0));
    assert_eq!(read_uint(&mem, 12, 8), Ok(0));
    assert_eq!(mem.data[20], 4);
    assert_eq!(mem.data[21], 0xaa);
    assert_eq!(read_uint(&mem, 28, 8), Ok(0));
    assert_eq!(read_uint(&mem, 36, 8), Ok(1234));
    assert_eq!(read_uint(&mem, 44, 8), Ok(5));
    assert_eq!(read_uint(&mem, 52, 8), Ok(6));
    assert_eq!(read_uint(&mem, 60, 8), Ok(7));
    assert_eq!(mem.data[68], 0xaa);
    // the fields are written one by one: those before the one out of memory stay
    let mut mem = InternalMemoryInst { data: vec![0xaa; 72], max: None };
    assert_eq!(put_filestat(&mut mem, 9, st), Err(RuntimeError::OutOfBoundsMemoryAccess));
    assert_eq!(read_uint(&mem, 9, 8), Ok(0));
    assert_eq!(mem.data[25], 4);
    assert_eq!(read_uint(&mem, 41, 8), Ok(1234));
    assert_eq!(read_uint(&mem, 57, 8), Ok(6));
    assert_eq!(&mem.data[65..72], &[0xaa; 7]);
}

#[test]
fn a_preopened_directory_is_put_with_its_name() {
    let mut mem = InternalMemoryInst { data: vec![0xaa; 16], max: None };
    assert_eq!(put_prestat(&mut mem, 0, 1), Ok(()));
    assert_eq!(mem.data[0], 0);
    assert_eq!(mem.data[1], 0xaa);
    assert_eq!(read_uint(&mem, 4, 4), Ok(1));
    mem.data[12] = 0xaa;
    assert_eq!(put_prestat(&mut mem, 12, 1), Err(RuntimeError::OutOfBoundsMemoryAccess));
    assert_eq!(mem.data[12], 0);
    assert_eq!(put_prestat_dir_name(&mut mem, 8, 0, b"/"), Ok(ERRNO_INVAL));
    assert_eq!(mem.data[8], 0xaa);
    assert_eq!(put_prestat_dir_name(&mut mem, 8, 1, b"/"), Ok(ERRNO_SUCCESS));
    assert_eq!(mem.data[8], b'/');
    assert_eq!(put_prestat_dir_name(&mut mem, 16, 4, b"/"), Err(RuntimeError::OutOfBoundsMemoryAccess));
}

#[test]
fn directory_entries_fill_the_buffer_from_the_cookie() {
    let entries = vec![
        (b"a".to_vec(), FileType::RegularFile),
        (b"bc".to_vec(), FileType::Directory),
        (b"def".to_vec(), FileType::SymbolicLink),
    ];
    let mut mem = memory(128);
    // from the second entry, with room for it (26 bytes) but not the third (27)
    assert_eq!(put_dirents(&mut mem, &entries, 0, 40, 1, 100), Ok(()));
    assert_eq!(read_uint(&mem, 0, 8), Ok(2));
    assert_eq!(read_uint(&mem, 8, 8), Ok(0));
    assert_eq!(read_uint(&mem, 16, 4), Ok(2));
    assert_eq!(mem.data[20], 3);
    assert_eq!(&mem.data[24..26], b"bc");
    assert_eq!(mem.data[26], 0);
    assert_eq!(read_uint(&mem, 100, 4), Ok(26));
    // all of them
    let mut mem = memory(128);
    assert_eq!(put_dirents(&mut mem, &entries, 0, 100, 0, 100), Ok(()));
    assert_eq!(read_uint(&mem, 100, 4), Ok(25 + 26 + 27));
    assert_eq!(read_uint(&mem, 51, 8), Ok(3));
    assert_eq!(&mem.data[75..78], b"def");
    // a cookie past the end uses nothing
    assert_eq!(put_dirents(&mut mem, &entries, 0, 100, 7, 120), Ok(()));
    assert_eq!(read_uint(&mem, 120, 4), Ok(0));
    // what fits in the buffer must fit in memory
    // the first entry is written; the second stops at its first field out of memory
    let mut small = memory(40);
    assert_eq!(put_dirents(&mut small, &entries, 0, 100, 0, 0), Err(RuntimeError::OutOfBoundsMemoryAccess));
    assert_eq!(read_uint(&small, 0, 8), Ok(1));
    assert_eq!(small.data[24], b'a');
    assert_eq!(read_uint(&small, 25, 8), Ok(2));
    assert_eq!(&small.data[33..40], &[0; 7]);
}

#[test]
fn subscriptions_are_read_and_answered() {
    let mut mem = memory(256);
    // a relative clock of 500 ns
    write_uint(&mut mem, 0, 8, 77).unwrap();
    mem.data[8] = 0;
    write_uint(&mut mem, 16, 4, 1).unwrap();
    write_uint(&mut mem, 24, 8, 500).unwrap();
    // an absolute real-time clock 300 ns from now (now = 1000)
    write_uint(&mut mem, 48, 8, 78).unwrap();
    mem.data[56] = 0;
    write_uint(&mut mem, 64, 4, 0).unwrap();
    write_uint(&mut mem, 72, 8, 1300).unwrap();
    write_uint(&mut mem, 88, 2, 1).unwrap();
    // a kind that is not a clock
    write_uint(&mut mem, 96, 8, 79).unwrap();
    mem.data[104] = 1;
    let (events, wait) = read_subscriptions(&mem, 0, 3, 1000).unwrap();
    assert_eq!(wait, Some(300));
    assert_eq!(
        events,
        vec![
            PollEvent { userdata: 77, kind: 0, error: ERRNO_SUCCESS },
            PollEvent { userdata: 78, kind: 0, error: ERRNO_SUCCESS },
            PollEvent { userdata: 79, kind: 1, error: ERRNO_INVAL },
        ]
    );
    // an absolute time already past waits for nothing
    let (_, wait) = read_subscriptions(&mem, 48, 1, 5000).unwrap();
    assert_eq!(wait, Some(0));
    assert_eq!(read_subscriptions(&mem, 240, 1, 0), Err(RuntimeError::OutOfBoundsMemoryAccess));
    assert_eq!(put_events(&mut mem, 128, &events, 252), Ok(()));
    assert_eq!(read_uint(&mem, 128, 8), Ok(77));
    assert_eq!(read_uint(&mem, 128 + 64 + 8, 2), Ok(ERRNO_INVAL as u64));
    assert_eq!(mem.data[128 + 64 + 10], 1);
    assert_eq!(read_uint(&mem, 252, 4), Ok(3));
    assert_eq!(put_events(&mut mem, 200, &events, 252), Err(RuntimeError::OutOfBoundsMemoryAccess));
}

#[test]
fn a_link_target_is_cut_to_the_buffer() {
    let mut mem = memory(16);
    assert_eq!(put_link_target(&mut mem, 0, 3, b"abcdef", 12), Ok(()));
    assert_eq!(&mem.data[0..4], b"abc\0");
    assert_eq!(read_uint(&mem, 12, 4), Ok(3));
    assert_eq!(put_link_target(&mut mem, 4, 8, b"xy", 12), Ok(()));
    assert_eq!(&mem.data[4..6], b"xy");
    assert_eq!(read_uint(&mem, 12, 4), Ok(2));
    assert_eq!(put_link_target(&mut mem, 14, 8, b"xyz", 0), Err(RuntimeError::OutOfBoundsMemoryAccess));
}

#[test]
fn call_arguments_and_flags_are_read() {
    let args = vec![Value::I32(-1), Value::I64(0x1_0000_0002), Value::F32(0)];
    assert_eq!(arg_i32(&args, 0), -1);
    assert_eq!(arg_i32(&args, 1), 2);
    assert_eq!(arg_i32(&args, 2), 0);
    assert_eq!(arg_i64(&args, 0), -1);
    assert_eq!(arg_i64(&args, 1), 0x1_0000_0002);
    assert_eq!(arg_i64(&args, 2), 0);
    assert_eq!(seek_target(0, -1), SeekTarget::Start(u64::MAX));
    assert_eq!(seek_target(1, -1), SeekTarget::Current(-1));
    assert_eq!(seek_target(2, 5), SeekTarget::End(5));
    assert_eq!(seek_target(3, 5), SeekTarget::Start(0));
    assert_eq!(open_plan(2), OpenPlan { directory: true, create: false, truncate: false, create_new: false });
    assert_eq!(open_plan(1 | 4 | 8), OpenPlan { directory: false, create: true, truncate: true, create_new: true });
    assert_eq!(filetype_of(true, false, false), FileType::RegularFile);
    assert_eq!(filetype_of(false, true, false), FileType::Directory);
    assert_eq!(filetype_of(false, false, true), FileType::SymbolicLink);
    assert_eq!(filetype_of(false, false, false), FileType::Unknown);
}

#[test]
fn paths_stay_under_the_root_by_components() {
    assert!(path_within(b"/home/me", b"/home/me"));
    assert!(path_within(b"/home/me", b"/home/me/a/b"));
    assert!(path_within(b"/home/me/", b"//home//me/a"));
    assert!(!path_within(b"/home/me", b"/home/meow"));
    assert!(!path_within(b"/home/me", b"/home"));
    assert!(!path_within(b"/home/me", b"/etc/passwd"));
    assert!(path_within(b"/", b"/anything"));
}
