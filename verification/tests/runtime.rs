use chibiwasm::execution::error::RuntimeError;
use chibiwasm::binary::instruction::Opcode;
use chibiwasm::{LoadError, Runtime, Step, Store, Value};

/// Unsigned LEB128.
fn leb_u32(mut v: u32, out: &mut Vec<u8>) {
    loop {
        let byte = (v & 0x7f) as u8;
        v >>= 7;
        if v == 0 {
            out.push(byte);
            break;
        }
        out.push(byte | 0x80);
    }
}

fn section(id: u8, body: Vec<u8>, out: &mut Vec<u8>) {
    out.push(id);
    leb_u32(body.len() as u32, out);
    out.extend(body);
}

struct Func {
    name: &'static str,
    params: Vec<u8>,
    results: Vec<u8>,
    locals: Vec<(u32, u8)>,
    code: Vec<u8>,
}

/// A module of one function type per entry of `funcs`, each exported under
/// its name, with an optional memory of one page.
fn module(funcs: &[Func], memory: bool) -> Vec<u8> {
    let mut out = vec![0x00, 0x61, 0x73, 0x6d, 0x01, 0x00, 0x00, 0x00];
    let mut types = Vec::new();
    leb_u32(funcs.len() as u32, &mut types);
    for f in funcs {
        types.push(0x60);
        leb_u32(f.params.len() as u32, &mut types);
        types.extend(&f.params);
        leb_u32(f.results.len() as u32, &mut types);
        types.extend(&f.results);
    }
    section(1, types, &mut out);
    let mut fsec = Vec::new();
    leb_u32(funcs.len() as u32, &mut fsec);
    for i in 0..funcs.len() {
        leb_u32(i as u32, &mut fsec);
    }
    section(3, fsec, &mut out);
    if memory {
        section(5, vec![0x01, 0x00, 0x01], &mut out);
    }
    let mut exports = Vec::new();
    leb_u32(funcs.len() as u32, &mut exports);
    for (i, f) in funcs.iter().enumerate() {
        leb_u32(f.name.len() as u32, &mut exports);
        exports.extend(f.name.as_bytes());
        exports.push(0x00);
        leb_u32(i as u32, &mut exports);
    }
    section(7, exports, &mut out);
    let mut code = Vec::new();
    leb_u32(funcs.len() as u32, &mut code);
    for f in funcs {
        let mut body = Vec::new();
        leb_u32(f.locals.len() as u32, &mut body);
        for (n, t) in &f.locals {
            leb_u32(*n, &mut body);
            body.push(*t);
        }
        body.extend(&f.code);
        leb_u32(body.len() as u32, &mut code);
        code.extend(body);
    }
    section(10, code, &mut out);
    out
}

const I32: u8 = 0x7f;
const I64: u8 = 0x7e;
const F32: u8 = 0x7d;

/// Computes the floating-point steps that the runtime hands out, for the few
/// operations these tests use.
fn float_op(op: Opcode, args: &[Value]) -> Value {
    match (op, args) {
        (Opcode::F32Add, [Value::F32(a), Value::F32(b)]) => Value::F32((f32::from_bits(*a) + f32::from_bits(*b)).to_bits()),
        (Opcode::F32Mul, [Value::F32(a), Value::F32(b)]) => Value::F32((f32::from_bits(*a) * f32::from_bits(*b)).to_bits()),
        (Opcode::F32Lt, [Value::F32(a), Value::F32(b)]) => Value::I32((f32::from_bits(*a) < f32::from_bits(*b)) as i32),
        _ => panic!("float operation not used in these tests: {:?}", op),
    }
}

/// Calls an exported function to its end.
fn call(rt: &mut Runtime, name: &str, args: Vec<Value>, arity: usize) -> Result<Option<Value>, RuntimeError> {
    let mut step = rt.call(&name.to_string(), args);
    loop {
        match step {
            Step::Continue => step = rt.execute(10_000),
            Step::Finished => return rt.take_result(arity),
            Step::Trap(e) => {
                return Err(e);
            }
            Step::Float(op, args) => {
                rt.resume(Some(float_op(op, &args)));
                step = Step::Continue;
            }
            Step::Call(..) => panic!("no imports in these tests"),
        }
    }
}

fn runtime(funcs: &[Func], memory: bool) -> Runtime {
    let bytes = module(funcs, memory);
    let store = Store::from_bytes(&bytes, None).expect("module instantiates");
    Runtime::new(store)
}

#[test]
fn add_two_numbers() {
    let mut rt = runtime(
        &[Func { name: "add", params: vec![I32, I32], results: vec![I32], locals: vec![], code: vec![0x20, 0x00, 0x20, 0x01, 0x6a, 0x0b] }],
        false,
    );
    assert_eq!(call(&mut rt, "add", vec![Value::I32(1), Value::I32(2)], 1), Ok(Some(Value::I32(3))));
    assert_eq!(call(&mut rt, "add", vec![Value::I32(i32::MAX), Value::I32(1)], 1), Ok(Some(Value::I32(i32::MIN))));
    assert!(rt.stack.is_empty());
}

#[test]
fn recursive_fib() {
    // fib(n) = if n < 2 { n } else { fib(n - 1) + fib(n - 2) }
    let code = vec![
        0x20, 0x00, 0x41, 0x02, 0x48, // local.get 0; i32.const 2; i32.lt_s
        0x04, 0x7f, // if (result i32)
        0x20, 0x00, // local.get 0
        0x05, // else
        0x20, 0x00, 0x41, 0x01, 0x6b, 0x10, 0x00, // fib(n - 1)
        0x20, 0x00, 0x41, 0x02, 0x6b, 0x10, 0x00, // fib(n - 2)
        0x6a, // i32.add
        0x0b, // end
        0x0b,
    ];
    let mut rt = runtime(&[Func { name: "fib", params: vec![I32], results: vec![I32], locals: vec![], code }], false);
    assert_eq!(call(&mut rt, "fib", vec![Value::I32(10)], 1), Ok(Some(Value::I32(55))));
    assert_eq!(call(&mut rt, "fib", vec![Value::I32(1)], 1), Ok(Some(Value::I32(1))));
}

#[test]
fn fib_of_ten_is_89() {
    // fib(n) = if n < 2 { 1 } else { fib(n - 1) + fib(n - 2) }
    let code = vec![
        0x20, 0x00, 0x41, 0x02, 0x48, // local.get 0; i32.const 2; i32.lt_s
        0x04, 0x7f, // if (result i32)
        0x41, 0x01, // i32.const 1
        0x05, // else
        0x20, 0x00, 0x41, 0x01, 0x6b, 0x10, 0x00, // fib(n - 1)
        0x20, 0x00, 0x41, 0x02, 0x6b, 0x10, 0x00, // fib(n - 2)
        0x6a, // i32.add
        0x0b, // end
        0x0b,
    ];
    let mut rt = runtime(&[Func { name: "fib", params: vec![I32], results: vec![I32], locals: vec![], code }], false);
    assert_eq!(call(&mut rt, "fib", vec![Value::I32(10)], 1), Ok(Some(Value::I32(89))));
}

#[test]
fn factorial_with_a_loop() {
    // acc = 1; while n > 0 { acc *= n; n -= 1 }; acc
    let code = vec![
        0x41, 0x01, 0x21, 0x01, // acc = 1
        0x02, 0x40, // block
        0x03, 0x40, // loop
        0x20, 0x00, 0x45, 0x0d, 0x01, // br_if 1 when n == 0
        0x20, 0x01, 0x20, 0x00, 0x6c, 0x21, 0x01, // acc *= n
        0x20, 0x00, 0x41, 0x01, 0x6b, 0x21, 0x00, // n -= 1
        0x0c, 0x00, // br 0
        0x0b, 0x0b, // end loop, end block
        0x20, 0x01, 0x0b,
    ];
    let mut rt = runtime(&[Func { name: "while", params: vec![I32], results: vec![I32], locals: vec![(1, I32)], code }], false);
    assert_eq!(call(&mut rt, "while", vec![Value::I32(5)], 1), Ok(Some(Value::I32(120))));
    assert_eq!(call(&mut rt, "while", vec![Value::I32(0)], 1), Ok(Some(Value::I32(1))));
}

#[test]
fn if_without_else_skips_when_false() {
    // r = 7; if (x) { r = 9 }; r
    let code = vec![
        0x41, 0x07, 0x21, 0x01, 0x20, 0x00, 0x04, 0x40, 0x41, 0x09, 0x21, 0x01, 0x0b, 0x20, 0x01, 0x0b,
    ];
    let mut rt = runtime(&[Func { name: "pick", params: vec![I32], results: vec![I32], locals: vec![(1, I32)], code }], false);
    assert_eq!(call(&mut rt, "pick", vec![Value::I32(0)], 1), Ok(Some(Value::I32(7))));
    assert_eq!(call(&mut rt, "pick", vec![Value::I32(1)], 1), Ok(Some(Value::I32(9))));
}

#[test]
fn branch_out_of_the_function_returns() {
    // i32.const 15; br 0 ... acts as return
    let code = vec![0x41, 0x0f, 0x0c, 0x00, 0x41, 0x01, 0x0b];
    let mut rt = runtime(&[Func { name: "ret", params: vec![], results: vec![I32], locals: vec![], code }], false);
    assert_eq!(call(&mut rt, "ret", vec![], 1), Ok(Some(Value::I32(15))));
}

#[test]
fn br_table_picks_a_label() {
    // block block block (br_table 0 1 2 (local 0)) return 10 end return 11 end return 12 end 13
    let code = vec![
        0x02, 0x40, 0x02, 0x40, 0x02, 0x40, 0x20, 0x00, 0x0e, 0x02, 0x00, 0x01, 0x02, 0x0b, 0x41, 0x0a, 0x0f,
        0x0b, 0x41, 0x0b, 0x0f, 0x0b, 0x41, 0x0c, 0x0b,
    ];
    let mut rt = runtime(&[Func { name: "table", params: vec![I32], results: vec![I32], locals: vec![], code }], false);
    assert_eq!(call(&mut rt, "table", vec![Value::I32(0)], 1), Ok(Some(Value::I32(10))));
    assert_eq!(call(&mut rt, "table", vec![Value::I32(1)], 1), Ok(Some(Value::I32(11))));
    assert_eq!(call(&mut rt, "table", vec![Value::I32(2)], 1), Ok(Some(Value::I32(12))));
    assert_eq!(call(&mut rt, "table", vec![Value::I32(-1)], 1), Ok(Some(Value::I32(12))));
}

#[test]
fn memory_store_and_load() {
    let store_load = vec![
        0x41, 0x08, 0x41, 0xe2, 0xc6, 0x89, 0x8b, 0x06, 0x36, 0x02, 0x00, // i32.store at 8 of 0x61626362
        0x41, 0x08, 0x28, 0x02, 0x00, 0x0b, // i32.load at 8
    ];
    let load8 = vec![0x41, 0x08, 0x2c, 0x00, 0x00, 0x0b]; // i32.load8_s at 8
    let grow = vec![0x41, 0x02, 0x40, 0x00, 0x0b]; // memory.grow 2
    let size = vec![0x3f, 0x00, 0x0b];
    let oob = vec![0x41, 0xfe, 0xff, 0x03, 0x28, 0x02, 0x00, 0x0b]; // i32.load at 65534
    let mut rt = runtime(
        &[
            Func { name: "store_load", params: vec![], results: vec![I32], locals: vec![], code: store_load },
            Func { name: "load8", params: vec![], results: vec![I32], locals: vec![], code: load8 },
            Func { name: "grow", params: vec![], results: vec![I32], locals: vec![], code: grow },
            Func { name: "size", params: vec![], results: vec![I32], locals: vec![], code: size },
            Func { name: "oob", params: vec![], results: vec![I32], locals: vec![], code: oob },
        ],
        true,
    );
    assert_eq!(call(&mut rt, "store_load", vec![], 1), Ok(Some(Value::I32(0x6162_6362))));
    assert_eq!(call(&mut rt, "load8", vec![], 1), Ok(Some(Value::I32(0x62))));
    assert_eq!(call(&mut rt, "oob", vec![], 1), Err(RuntimeError::OutOfBoundsMemoryAccess));
    assert_eq!(call(&mut rt, "size", vec![], 1), Ok(Some(Value::I32(1))));
    assert_eq!(call(&mut rt, "grow", vec![], 1), Ok(Some(Value::I32(1))));
    assert_eq!(call(&mut rt, "size", vec![], 1), Ok(Some(Value::I32(3))));
    assert_eq!(rt.store.memory[0].data.len(), 3 * 65536);
}

#[test]
fn traps_leave_the_runtime_usable() {
    let mut rt = runtime(
        &[
            Func { name: "unreachable", params: vec![], results: vec![], locals: vec![], code: vec![0x00, 0x0b] },
            Func { name: "div", params: vec![I32, I32], results: vec![I32], locals: vec![], code: vec![0x20, 0x00, 0x20, 0x01, 0x6d, 0x0b] },
        ],
        false,
    );
    assert_eq!(call(&mut rt, "unreachable", vec![], 0), Err(RuntimeError::Unreachable));
    assert!(rt.stack.is_empty() && rt.call_stack.is_empty());
    assert_eq!(call(&mut rt, "div", vec![Value::I32(7), Value::I32(0)], 1), Err(RuntimeError::IntegerDivideByZero));
    assert!(rt.stack.is_empty() && rt.call_stack.is_empty());
    assert_eq!(call(&mut rt, "div", vec![Value::I32(i32::MIN), Value::I32(-1)], 1), Err(RuntimeError::DivisionOverflow));
    assert_eq!(call(&mut rt, "div", vec![Value::I32(-7), Value::I32(2)], 1), Ok(Some(Value::I32(-3))));
    // a name that is no exported function runs nothing and leaves the arguments
    assert_eq!(call(&mut rt, "missing", vec![Value::I32(1)], 0), Err(RuntimeError::NotFoundExport));
    assert_eq!(rt.stack, vec![Value::I32(1)]);
}

#[test]
fn floats_go_to_the_host() {
    // f32: (a + b) * a
    let code = vec![0x20, 0x00, 0x20, 0x01, 0x92, 0x20, 0x00, 0x94, 0x0b];
    let mut rt = runtime(&[Func { name: "f", params: vec![F32, F32], results: vec![F32], locals: vec![], code }], false);
    let r = call(&mut rt, "f", vec![Value::F32(1.5f32.to_bits()), Value::F32(2.0f32.to_bits())], 1);
    assert_eq!(r, Ok(Some(Value::F32(5.25f32.to_bits()))));
}

#[test]
fn i64_arithmetic_and_conversions() {
    // i64.extend_i32_s(x) * 3, then wrap
    let code = vec![0x20, 0x00, 0xac, 0x42, 0x03, 0x7e, 0xa7, 0x0b];
    let mut rt = runtime(&[Func { name: "m", params: vec![I32], results: vec![I32], locals: vec![], code }], false);
    assert_eq!(call(&mut rt, "m", vec![Value::I32(-5)], 1), Ok(Some(Value::I32(-15))));
    let code = vec![0x20, 0x00, 0x42, 0x01, 0x86, 0x0b]; // i64.shl by 1
    let mut rt = runtime(&[Func { name: "shl", params: vec![I64], results: vec![I64], locals: vec![], code }], false);
    assert_eq!(call(&mut rt, "shl", vec![Value::I64(i64::MIN + 1)], 1), Ok(Some(Value::I64(2))));
}

#[test]
fn bad_magic_is_a_decode_error() {
    let mut bytes = module(&[], false);
    bytes[1] = b'x';
    assert!(matches!(Store::from_bytes(&bytes, None), Err(LoadError::Decode(_))));
}

#[test]
fn a_runtime_loads_from_bytes() {
    let add = Func { name: "add", params: vec![I32, I32], results: vec![I32], locals: vec![], code: vec![0x20, 0x00, 0x20, 0x01, 0x6a, 0x0b] };
    let bytes = module(&[add], false);
    let mut rt = Runtime::from_bytes(&bytes, None).expect("module instantiates");
    assert!(rt.stack.is_empty() && rt.call_stack.is_empty());
    assert_eq!(rt.start, None);
    assert_eq!(call(&mut rt, "add", vec![Value::I32(2), Value::I32(40)], 1), Ok(Some(Value::I32(42))));
    let mut bad = bytes.clone();
    bad[0] = 1;
    assert!(matches!(Runtime::from_bytes(&bad, None), Err(LoadError::Decode(_))));
}
