use chibiwasm::execution::error::RuntimeError;
use chibiwasm::execution::value::ExternalVal;
use chibiwasm::{Importer, LoadError, Runtime, Step, Store, Value};

/// The bytes of a module of the given sections.
fn module_of(sections: Vec<(u8, Vec<u8>)>) -> Vec<u8> {
    let mut out = vec![0x00, 0x61, 0x73, 0x6d, 0x01, 0x00, 0x00, 0x00];
    for (id, body) in sections {
        out.push(id);
        assert!(body.len() < 128);
        out.push(body.len() as u8);
        out.extend(body);
    }
    out
}

/// A name as the binary format writes it.
fn name(s: &str) -> Vec<u8> {
    let mut v = vec![s.len() as u8];
    v.extend(s.as_bytes());
    v
}

fn export_section(names: &[(&str, u8, u8)]) -> Vec<u8> {
    let mut v = vec![names.len() as u8];
    for (n, kind, idx) in names {
        v.extend(name(n));
        v.push(*kind);
        v.push(*idx);
    }
    v
}

fn code_section(bodies: &[Vec<u8>]) -> Vec<u8> {
    let mut v = vec![bodies.len() as u8];
    for b in bodies {
        v.push((b.len() + 1) as u8);
        v.push(0x00);
        v.extend(b);
    }
    v
}

/// Calls an exported function to its end; there are no floats here.
fn call(rt: &mut Runtime, f: &str, args: Vec<Value>, arity: usize) -> Result<Option<Value>, RuntimeError> {
    let mut step = rt.call(&f.to_string(), args);
    loop {
        match step {
            Step::Continue => step = rt.execute(1000),
            Step::Finished => return rt.take_result(arity),
            Step::Trap(e) => {
                return Err(e);
            },
            other => panic!("unexpected step {:?}", other),
        }
    }
}

#[test]
fn globals_and_data_segments() {
    let bytes = module_of(vec![
        (1, vec![0x03, 0x60, 0x00, 0x01, 0x7f, 0x60, 0x01, 0x7f, 0x00, 0x60, 0x00, 0x01, 0x7f]),
        (3, vec![0x03, 0x00, 0x01, 0x02]),
        (5, vec![0x01, 0x00, 0x01]),
        (6, vec![0x01, 0x7f, 0x01, 0x41, 0x2a, 0x0b]),
        (7, export_section(&[("get", 0, 0), ("set", 0, 1), ("load", 0, 2), ("mem", 2, 0), ("g", 3, 0)])),
        (10, code_section(&[vec![0x23, 0x00, 0x0b], vec![0x20, 0x00, 0x24, 0x00, 0x0b], vec![0x41, 0x05, 0x2d, 0x00, 0x00, 0x0b]])),
        (11, vec![0x01, 0x00, 0x41, 0x04, 0x0b, 0x03, b'a', b'b', b'c']),
    ]);
    let store = Store::from_bytes(&bytes, None).unwrap();
    assert_eq!(store.memory[0].data[4..7].to_vec(), b"abc".to_vec());
    assert_eq!(store.globals[0].value, Value::I32(42));
    assert!(store.globals[0].mutability);
    let mut rt = Runtime::new(store);
    assert_eq!(call(&mut rt, "get", vec![], 1), Ok(Some(Value::I32(42))));
    assert_eq!(call(&mut rt, "set", vec![Value::I32(-3)], 0), Ok(None));
    assert_eq!(call(&mut rt, "get", vec![], 1), Ok(Some(Value::I32(-3))));
    assert_eq!(call(&mut rt, "load", vec![], 1), Ok(Some(Value::I32(b'b' as i32))));
    assert_eq!(rt.exports(&"mem".to_string()), Ok(ExternalVal::Memory(0)));
    assert_eq!(rt.exports(&"g".to_string()), Ok(ExternalVal::Global(0)));
    assert_eq!(rt.exports(&"nothing".to_string()), Err(RuntimeError::NotFoundExport));
    assert_eq!(call(&mut rt, "mem", vec![], 0), Err(RuntimeError::InvalidExportDesc));
}

#[test]
fn data_that_does_not_fit_is_refused() {
    let bytes = module_of(vec![(5, vec![0x01, 0x00, 0x00]), (11, vec![0x01, 0x00, 0x41, 0x00, 0x0b, 0x01, 0x01])]);
    assert_eq!(Store::from_bytes(&bytes, None).err(), Some(LoadError::Instantiate(RuntimeError::DataTooLarge)));
}

#[test]
fn call_indirect_checks_the_table_and_the_type() {
    let bytes = module_of(vec![
        (1, vec![0x02, 0x60, 0x00, 0x01, 0x7f, 0x60, 0x01, 0x7f, 0x01, 0x7f]),
        (3, vec![0x03, 0x00, 0x00, 0x01]),
        (4, vec![0x01, 0x70, 0x00, 0x04]),
        (7, export_section(&[("dispatch", 0, 2)])),
        (9, vec![0x01, 0x00, 0x41, 0x00, 0x0b, 0x03, 0x00, 0x01, 0x02]),
        (10, code_section(&[vec![0x41, 0x01, 0x0b], vec![0x41, 0x02, 0x0b], vec![0x20, 0x00, 0x11, 0x00, 0x00, 0x0b]])),
    ]);
    let mut rt = Runtime::new(Store::from_bytes(&bytes, None).unwrap());
    assert_eq!(rt.store.tables[0].funcs.len(), 4);
    assert_eq!(call(&mut rt, "dispatch", vec![Value::I32(0)], 1), Ok(Some(Value::I32(1))));
    assert_eq!(call(&mut rt, "dispatch", vec![Value::I32(1)], 1), Ok(Some(Value::I32(2))));
    assert_eq!(call(&mut rt, "dispatch", vec![Value::I32(2)], 1), Err(RuntimeError::TypeMismatchIndirectCall));
    assert_eq!(call(&mut rt, "dispatch", vec![Value::I32(3)], 1), Err(RuntimeError::UninitializedElement(3)));
    assert_eq!(call(&mut rt, "dispatch", vec![Value::I32(4)], 1), Err(RuntimeError::UndefinedElement));
}

#[test]
fn imports_resolve_against_importers() {
    // "env" exports a global of 7
    let env = module_of(vec![(6, vec![0x01, 0x7f, 0x00, 0x41, 0x07, 0x0b]), (7, export_section(&[("seven", 3, 0)]))]);
    let env_store = Store::from_bytes(&env, None).unwrap();
    // imports env.seven and env.twice (a function), exports "get" and "twice"
    let mut imports = vec![0x02];
    imports.extend(name("env"));
    imports.extend(name("seven"));
    imports.extend(vec![0x03, 0x7f, 0x00]);
    imports.extend(name("env"));
    imports.extend(name("twice"));
    imports.extend(vec![0x00, 0x01]);
    let user = module_of(vec![
        (1, vec![0x02, 0x60, 0x00, 0x01, 0x7f, 0x60, 0x01, 0x7f, 0x01, 0x7f]),
        (2, imports),
        (3, vec![0x01, 0x00]),
        (7, export_section(&[("get", 0, 1), ("twice", 0, 0)])),
        (10, code_section(&[vec![0x23, 0x00, 0x10, 0x00, 0x0b]])),
    ]);
    assert_eq!(Store::from_bytes(&user, None).err(), Some(LoadError::Instantiate(RuntimeError::NoImporters)));
    let others = vec![Importer { name: "other".to_string(), store: Store::default() }];
    assert_eq!(Store::from_bytes(&user, Some(&others)).err(), Some(LoadError::Instantiate(RuntimeError::NotFoundImportModule)));
    let importers = vec![Importer { name: "env".to_string(), store: env_store }];
    let store = Store::from_bytes(&user, Some(&importers)).unwrap();
    assert_eq!(store.globals[0].value, Value::I32(7));
    let mut rt = Runtime::new(store);
    // get: global.get 0 (7), then the imported "twice" of it, which the host computes
    let step = rt.call(&"get".to_string(), vec![]);
    assert!(matches!(step, Step::Continue));
    match rt.execute(100) {
        Step::Call(module, field, args) => {
            assert_eq!(module, "env");
            assert_eq!(field, "twice");
            assert_eq!(args, vec![Value::I32(7)]);
        },
        other => panic!("expected a call of the host, got {:?}", other),
    }
    rt.resume(Some(Value::I32(14)));
    assert!(matches!(rt.execute(100), Step::Finished));
    assert_eq!(rt.take_result(1), Ok(Some(Value::I32(14))));
}

#[test]
fn the_start_function_is_called_on_request() {
    let bytes = module_of(vec![
        (1, vec![0x01, 0x60, 0x00, 0x00]),
        (3, vec![0x01, 0x00]),
        (6, vec![0x01, 0x7f, 0x01, 0x41, 0x00, 0x0b]),
        (8, vec![0x00]),
        (10, code_section(&[vec![0x41, 0x05, 0x24, 0x00, 0x0b]])),
    ]);
    let store = Store::from_bytes(&bytes, None).unwrap();
    assert_eq!(store.start, Some(0));
    let mut rt = Runtime::new(store);
    assert_eq!(rt.start, Some(0));
    let step = rt.call_start(0, vec![]);
    assert!(matches!(step, Step::Continue));
    assert!(matches!(rt.execute(100), Step::Finished));
    assert_eq!(rt.store.globals[0].value, Value::I32(5));
    assert!(matches!(rt.call_start(9, vec![Value::I32(1)]), Step::Trap(RuntimeError::NotFoundFunction(9))));
    assert!(rt.stack.is_empty());
}

#[test]
fn exports_are_kept_one_per_name_the_last_winning() {
    let bytes = module_of(vec![
        (1, vec![0x01, 0x60, 0x00, 0x01, 0x7f]),
        (3, vec![0x02, 0x00, 0x00]),
        (7, export_section(&[("f", 0, 0), ("g", 0, 0), ("f", 0, 1)])),
        (10, code_section(&[vec![0x41, 0x01, 0x0b], vec![0x41, 0x02, 0x0b]])),
    ]);
    let store = Store::from_bytes(&bytes, None).unwrap();
    assert_eq!(store.module.exports.len(), 2);
    assert_eq!(store.module.exports[0].name, "f");
    assert_eq!(store.module.exports[0].desc, ExternalVal::Func(1));
    assert_eq!(store.module.exports[1].name, "g");
    let mut rt = Runtime::new(store);
    assert_eq!(call(&mut rt, "f", vec![], 1), Ok(Some(Value::I32(2))));
}
