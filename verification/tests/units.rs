use chibiwasm::binary::error::DecodeError;
use chibiwasm::binary::instruction::{Instruction, MemoryArg};
use chibiwasm::binary::leb::{read_signed, read_unsigned};
use chibiwasm::binary::module::Decoder;
use chibiwasm::binary::reader::SectionReader;
use chibiwasm::binary::section::{decode, Section, SectionID};
use chibiwasm::binary::types::{Block, BlockType, ValueType};
use chibiwasm::execution::error::RuntimeError;
use chibiwasm::execution::module::{InternalGlobalInst, InternalMemoryInst, PAGE_SIZE};
use chibiwasm::execution::op::{
    br, get_else_or_end_address, get_end_address, global_get, global_set, local_set, stack_unwind,
};
use chibiwasm::execution::value::{Label, LabelKind};
use chibiwasm::wasi::file::{DirFile, FdFlags, File, FileCaps, FileEntry, FileError, FileType};
use chibiwasm::wasi::file_table::FileTable;
use chibiwasm::wasi::virtual_file::VirtualFile;
use chibiwasm::Value;

fn block() -> Block {
    Block { block_type: BlockType::Empty }
}

#[test]
fn end_address_skips_nested_blocks() {
    // block, if, block, end, else, end, end
    let insts = vec![
        Instruction::Block(block()),
        Instruction::If(block()),
        Instruction::Block(block()),
        Instruction::End,
        Instruction::Else,
        Instruction::End,
        Instruction::End,
    ];
    assert_eq!(get_end_address(&insts, 0), Ok(6));
    assert_eq!(get_end_address(&insts, 1), Ok(5));
    assert_eq!(get_else_or_end_address(&insts, 1), Ok(4));
    assert_eq!(get_end_address(&insts, 6), Err(RuntimeError::NotFoundInstruction(7)));
    let no_else = vec![Instruction::If(block()), Instruction::Nop, Instruction::End];
    assert_eq!(get_else_or_end_address(&no_else, 0), Ok(2));
}

#[test]
fn unwinding_keeps_the_result() {
    let mut stack = vec![Value::I32(1), Value::I32(2), Value::I32(3), Value::I32(4)];
    assert_eq!(stack_unwind(&mut stack, 1, 1), Ok(()));
    assert_eq!(stack, vec![Value::I32(1), Value::I32(4)]);
    assert_eq!(stack_unwind(&mut stack, 0, 0), Ok(()));
    assert!(stack.is_empty());
    assert_eq!(stack_unwind(&mut stack, 0, 1), Err(RuntimeError::StackPopError));
    let mut short = vec![Value::I32(1)];
    assert_eq!(stack_unwind(&mut short, 3, 0), Err(RuntimeError::StackUnderflow));
    assert_eq!(short, vec![Value::I32(1)]);
}

#[test]
fn branches_to_loops_and_blocks() {
    let block_label = Label { kind: LabelKind::Block, start: None, pc: 9, sp: 1, arity: 1 };
    let loop_label = Label { kind: LabelKind::Loop, start: Some(3), pc: 7, sp: 2, arity: 0 };
    let mut labels = vec![block_label, loop_label];
    let mut stack = vec![Value::I32(0), Value::I32(1), Value::I32(2), Value::I32(3)];
    // to the loop: back to its start, label kept, stack down to its height
    assert_eq!(br(&mut labels, &mut stack, 0), Ok(3));
    assert_eq!(labels.len(), 2);
    assert_eq!(stack, vec![Value::I32(0), Value::I32(1)]);
    // to the block: to its end, label dropped, result kept
    assert_eq!(br(&mut labels, &mut stack, 1), Ok(9));
    assert!(labels.is_empty());
    assert_eq!(stack, vec![Value::I32(0), Value::I32(1)]);
    assert_eq!(br(&mut labels, &mut stack, 0), Err(RuntimeError::NotFoundLabel(0)));
}

#[test]
fn setting_a_local_past_the_end_adds_zeros() {
    let mut locals = vec![Value::I64(5)];
    let mut stack = vec![Value::I32(9)];
    assert_eq!(local_set(&mut locals, &mut stack, 3), Ok(()));
    assert_eq!(locals, vec![Value::I64(5), Value::I32(0), Value::I32(0), Value::I32(9)]);
    assert_eq!(local_set(&mut locals, &mut stack, 0), Err(RuntimeError::StackPopError));
}

#[test]
fn memory_grows_by_pages_within_its_limits() {
    let mut mem = InternalMemoryInst { data: vec![7; PAGE_SIZE as usize], max: Some(2) };
    assert_eq!(mem.size(), 1);
    assert_eq!(mem.grow(1), Ok(()));
    assert_eq!(mem.size(), 2);
    assert_eq!(mem.data[0], 7);
    assert_eq!(mem.data[PAGE_SIZE as usize], 0);
    assert_eq!(mem.grow(1), Err(RuntimeError::MemoryPageOverflow(2, 3)));
    assert_eq!(mem.size(), 2);
    let mut odd = InternalMemoryInst { data: vec![0; 10], max: None };
    assert_eq!(odd.grow(1), Err(RuntimeError::MemorySizeNotPageAligned(PAGE_SIZE)));
    let mut unbounded = InternalMemoryInst { data: vec![], max: None };
    assert_eq!(unbounded.grow(65537), Err(RuntimeError::MemoryPageOverflow(65536, 65537)));
    assert_eq!(unbounded.grow(0), Ok(()));
}

#[test]
fn memory_reads_back_what_was_written() {
    let mut mem = InternalMemoryInst { data: vec![0; 16], max: None };
    let arg = MemoryArg { align: 0, offset: 4 };
    assert_eq!(mem.write::<i64>(0, &arg, -2), Ok(()));
    assert_eq!(mem.load::<i64>(0, &arg), Ok(-2));
    assert_eq!(mem.data[4], 0xfe);
    assert_eq!(mem.data[11], 0xff);
    assert_eq!(mem.load::<u16>(4, &arg), Ok(0xffff));
    assert_eq!(mem.write::<i8>(8, &arg, 0x12), Ok(()));
    assert_eq!(mem.load::<u32>(8, &arg), Ok(0x12));
    assert_eq!(mem.load::<i32>(9, &arg), Err(RuntimeError::OutOfBoundsMemoryAccess));
    assert_eq!(mem.write::<u32>(usize::MAX, &arg, 1), Err(RuntimeError::OutOfBoundsMemoryAccess));
    assert_eq!(mem.load::<u8>(0, &MemoryArg { align: 0, offset: 0 }), Ok(0));
}

#[test]
fn integer_values() {
    let a = Value::I32(i32::MAX);
    assert_eq!(a.add(&Value::I32(1)), Ok(Value::I32(i32::MIN)));
    assert_eq!(Value::I32(7).div_s(&Value::I32(0)), Err(RuntimeError::IntegerDivideByZero));
    assert_eq!(Value::I64(i64::MIN).div_s(&Value::I64(-1)), Err(RuntimeError::DivisionOverflow));
    assert_eq!(Value::I32(-7).rem_s(&Value::I32(2)), Ok(Value::I32(-1)));
    assert_eq!(Value::I32(-7).rem_u(&Value::I32(2)), Ok(Value::I32(1)));
    assert_eq!(Value::I32(-1).div_u(&Value::I32(2)), Ok(Value::I32(i32::MAX)));
    assert_eq!(Value::I32(-8).shr_u(&Value::I32(1)), Ok(Value::I32(0x7fff_fffc)));
    assert_eq!(Value::I32(-8).shr_s(&Value::I32(33)), Ok(Value::I32(-4)));
    assert_eq!(Value::I32(1).shl(&Value::I32(31)), Ok(Value::I32(i32::MIN)));
    assert_eq!(Value::I32(i32::MIN).rotl(&Value::I32(1)), Ok(Value::I32(1)));
    assert_eq!(Value::I64(1).rotr(&Value::I64(1)), Ok(Value::I64(i64::MIN)));
    assert_eq!(Value::I32(1).clz(), Ok(Value::I32(31)));
    assert_eq!(Value::I64(8).ctz(), Ok(Value::I64(3)));
    assert_eq!(Value::I32(-1).popcnt(), Ok(Value::I32(32)));
    assert_eq!(Value::I64(0).eqz(), Ok(Value::I32(1)));
    assert_eq!(Value::I32(0x80).extend8_s(), Ok(Value::I32(-128)));
    assert_eq!(Value::I64(0x8000).extend16_s(), Ok(Value::I64(-32768)));
    assert_eq!(Value::I64(0x8000_0000).i64_extend_32s(), Ok(Value::I64(-2147483648)));
    assert_eq!(Value::I32(-1).lt_u(&Value::I32(1)), Ok(Value::I32(0)));
    assert_eq!(Value::I32(-1).lt_s(&Value::I32(1)), Ok(Value::I32(1)));
    assert_eq!(Value::I64(3).ge_u(&Value::I64(3)), Ok(Value::I32(1)));
    assert_eq!(Value::I32(1).add(&Value::I64(1)), Err(RuntimeError::UnexpectedStackValueType));
    assert_eq!(Value::F32(0).clz(), Err(RuntimeError::UnexpectedStackValueType));
    assert_eq!(Value::I64(-1).i32_wrap_i64(), Ok(Value::I32(-1)));
    assert_eq!(Value::I32(-1).i64_extend_i32_u(), Ok(Value::I64(0xffff_ffff)));
    assert_eq!(Value::I32(1.5f32.to_bits() as i32).f32_reinterpret_i32(), Ok(Value::F32(1.5f32.to_bits())));
}

#[test]
fn file_table_reuses_the_lowest_free_descriptor() {
    let mut table = FileTable::with_io(vec!["in", "out", "err"]);
    assert_eq!(table.get(1), Some(&"out"));
    assert_eq!(table.add("a"), 3);
    assert!(table.close(1));
    assert_eq!(table.get(1), None);
    assert_eq!(table.add("b"), 1);
    assert_eq!(table.take(3), Some("a"));
    assert_eq!(table.take(3), None);
    table.set(6, Some("c"));
    assert_eq!(table.0.len(), 7);
    assert_eq!(table.get(6), Some(&"c"));
    assert_eq!(table.add("d"), 3);
    assert!(!table.close(10));
}

#[test]
fn virtual_file_is_a_cursor() {
    let mut f = VirtualFile::new(b"hello");
    assert_eq!(f.read(3), Ok(b"hel".to_vec()));
    assert_eq!(f.write(b"LOWORLD"), Ok(7));
    assert_eq!(f.data, b"helLOWORLD".to_vec());
    assert_eq!(f.seek(12), Ok(12));
    assert_eq!(f.write(b"!"), Ok(1));
    assert_eq!(f.data, b"helLOWORLD\0\0!".to_vec());
    assert_eq!(f.size(), 13);
    assert_eq!(f.seek(0), Ok(0));
    assert_eq!(f.read_string(), Ok("helLOWORLD\0\0!".to_string()));
    assert_eq!(f.read(4), Ok(vec![]));
    assert_eq!(f.set_len(2), Ok(()));
    assert_eq!(f.data, b"he".to_vec());
    let mut bad = VirtualFile::new(&[0xff, 0xfe]);
    assert_eq!(bad.read_string(), Err(FileError::InvalidUtf8));
    assert_eq!(bad.filetype(), Ok(FileType::RegularFile));
}

#[test]
fn file_entries_report_their_state() {
    let mut entry = FileEntry::new(DirFile, FileCaps::Read);
    let stat = entry.get_fdstat().unwrap();
    assert_eq!(stat.filetype, FileType::Directory);
    assert_eq!(stat.caps, FileCaps::Read);
    assert_eq!(stat.flags, FdFlags::Append);
    assert_eq!(entry.capbable(FileCaps::Write).write(b"x"), Ok(0));
    assert_eq!(FdFlags::Nonblock.bits(), 8);
    assert_eq!(FileCaps::Write.bits(), 64);
    assert_eq!(FileType::Pipe.to_u8(), 8);
}

#[test]
fn leb128_numbers() {
    assert_eq!(read_unsigned(&[0xe5, 0x8e, 0x26], 0), Ok((624485, 3)));
    assert_eq!(read_signed(&[0xc0, 0xbb, 0x78], 0), Ok((-123456, 3)));
    assert_eq!(read_unsigned(&[0x80], 0), Err(DecodeError::InvalidLeb128));
    let mut r = SectionReader::new(&[0x7f, 0x80, 0x80, 0x80, 0x80, 0x10, 0x03, b'a', b'b', b'c']);
    assert_eq!(r.i32(), Ok(-1));
    assert_eq!(r.u32(), Err(DecodeError::IntegerOutOfRange));
    let mut r = SectionReader::new(&[0x03, b'a', b'b', b'c', 0x02, 0xc3, 0x28]);
    assert_eq!(r.name(), Ok("abc".to_string()));
    assert_eq!(r.name(), Err(DecodeError::InvalidUtf8));
}

#[test]
fn sections_decode() {
    // one function type (i32) -> i64
    let types = decode(SectionID::Type, &[0x01, 0x60, 0x01, 0x7f, 0x01, 0x7e]).unwrap();
    match types {
        Section::Type(ts) => {
            assert_eq!(ts.len(), 1);
            assert_eq!(ts[0].params, vec![ValueType::I32]);
            assert_eq!(ts[0].results, vec![ValueType::I64]);
        },
        _ => panic!("not a type section"),
    }
    assert_eq!(decode(SectionID::Type, &[0x01, 0x61]).err(), Some(DecodeError::InvalidFuncType(0x61)));
    assert!(matches!(decode(SectionID::Start, &[0x05]), Ok(Section::Start(5))));
    let mut d = Decoder::new(&[0x00, 0x61, 0x73, 0x6d, 0x01, 0x00, 0x00, 0x00, 0x0d, 0x00]);
    assert_eq!(d.decode().err(), Some(DecodeError::InvalidSectionId(13)));
}

#[test]
fn globals_are_read_and_written() {
    let mut globals = vec![InternalGlobalInst { value: Value::I32(7), mutability: true }];
    let mut stack = vec![];
    assert_eq!(global_get(&globals, &mut stack, 0), Ok(()));
    assert_eq!(stack, vec![Value::I32(7)]);
    assert_eq!(global_get(&globals, &mut stack, 1), Err(RuntimeError::NotFoundGlobalVariable(1)));
    stack.push(Value::I32(9));
    assert_eq!(global_set(&mut globals, &mut stack, 0), Ok(()));
    assert_eq!(globals[0].value, Value::I32(9));
    assert!(globals[0].mutability);
    assert_eq!(stack, vec![Value::I32(7)]);
    // a missing global changes nothing, not even the stack
    assert_eq!(global_set(&mut globals, &mut stack, 4), Err(RuntimeError::NotFoundGlobalVariable(4)));
    assert_eq!(stack, vec![Value::I32(7)]);
    let mut empty = vec![];
    assert_eq!(global_set(&mut globals, &mut empty, 0), Err(RuntimeError::StackPopError));
}

#[test]
fn a_virtual_file_reads_back_what_was_written() {
    let mut f = VirtualFile::new(b"xy");
    assert_eq!(f.seek(4), Ok(4));
    assert_eq!(f.write(b"abc"), Ok(3));
    assert_eq!(f.seek(4), Ok(4));
    assert_eq!(f.read(3), Ok(b"abc".to_vec()));
    // the bytes before the write are kept
    assert_eq!(f.seek(0), Ok(0));
    assert_eq!(f.read(2), Ok(b"xy".to_vec()));
}
