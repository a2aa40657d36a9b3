use chibiwasm::binary::instruction::Instruction;
use chibiwasm::binary::instruction::Instruction as I;
use chibiwasm::binary::module::{Decoder, Module};
use chibiwasm::binary::types::{
    Block, BlockType, Data, ElemType, Element, Export, ExportDesc, Expr, ExprValue, FuncType, Global, GlobalType,
    Import, ImportKind, Limits, Memory, Mutability, Table, ValueType,
};

fn decode(source: &str) -> Module {
    let wasm = wat::parse_str(source).expect("valid text format");
    let mut decoder = Decoder::new(&wasm);
    decoder.decode().expect("module decodes")
}

fn empty_block() -> Block {
    Block { block_type: BlockType::Empty }
}

fn i32_block() -> Block {
    Block { block_type: BlockType::Value(vec![ValueType::I32]) }
}

#[test]
fn test_decode_module() {
    let source = r#"
(module
  ;; import section
  (import "test" "print_i32" (func $print_i32 (param i32)))
  (import "test" "memory-2-inf" (table 10 funcref))
  (import "test" "global-i32" (global i32))

  ;; memory section
  (memory 1 256)

  ;; table section
  (table 1 256 funcref)

  ;; global section
  (global $a i32 (i32.const -2))
  (global $x (mut f32) (f32.const 5.5))

  ;; function section
  (func (export "test") (param i32)
    (i32.add
      (local.get 0)
      (i32.const 1)
    )
    (drop)
  )
  (func (export "test2") (param i32) (param i32) (result i32)
    (i32.add
      (local.get 0)
      (local.get 1)
    )
  )
  (func $main (call $print_i32 (i32.const 2)))

  ;; data section
  (data (memory 0x0) (i32.const 1) "a" "" "bcd")

  ;; element_section
  (elem (i32.const 0) $main)

  ;; start section
  (start $main)
)
            "#;
    let module = decode(source);
    assert_eq!(module.magic, "\0asm");
    assert_eq!(module.version, 1);
    assert_eq!(
        module.type_section,
        Some(vec![
            FuncType { params: vec![ValueType::I32], results: vec![] },
            FuncType { params: vec![ValueType::I32, ValueType::I32], results: vec![ValueType::I32] },
            FuncType { params: vec![], results: vec![] },
        ])
    );
    assert_eq!(
        module.import_section,
        Some(vec![
            Import { module: "test".into(), field: "print_i32".into(), kind: ImportKind::Func(0) },
            Import {
                module: "test".into(),
                field: "memory-2-inf".into(),
                kind: ImportKind::Table(Table { elem_type: ElemType::FuncRef, limits: Limits { min: 10, max: None } }),
            },
            Import {
                module: "test".into(),
                field: "global-i32".into(),
                kind: ImportKind::Global(GlobalType { value_type: ValueType::I32, mutability: Mutability::Const }),
            },
        ])
    );
    assert_eq!(module.function_section, Some(vec![0, 1, 2]));
    assert_eq!(
        module.table_section,
        Some(vec![Table { elem_type: ElemType::FuncRef, limits: Limits { min: 1, max: Some(256) } }])
    );
    assert_eq!(module.memory_section, Some(vec![Memory { limits: Limits { min: 1, max: Some(256) } }]));
    assert_eq!(
        module.global_section,
        Some(vec![
            Global {
                global_type: GlobalType { value_type: ValueType::I32, mutability: Mutability::Const },
                init_expr: ExprValue::I32(-2),
            },
            Global {
                global_type: GlobalType { value_type: ValueType::F32, mutability: Mutability::Var },
                init_expr: ExprValue::F32(5.5f32.to_bits()),
            },
        ])
    );
    assert_eq!(
        module.export_section,
        Some(vec![
            Export { name: "test".into(), desc: ExportDesc::Func(1) },
            Export { name: "test2".into(), desc: ExportDesc::Func(2) },
        ])
    );
    assert_eq!(module.start_section, Some(3));
    assert_eq!(
        module.element_section,
        Some(vec![Element { table_index: 0, offset: Expr::Value(ExprValue::I32(0)), init: vec![3] }])
    );
    assert_eq!(
        module.data,
        Some(vec![Data { memory_index: 0, offset: Expr::Value(ExprValue::I32(1)), init: b"abcd".to_vec() }])
    );
    let code = module.code_section.expect("code section");
    assert_eq!(code.len(), 3);
    assert!(code.iter().all(|body| body.locals.is_empty()));
    assert_eq!(
        code[0].code,
        vec![Instruction::LocalGet(0), Instruction::I32Const(1), Instruction::I32Add, Instruction::Drop, Instruction::End]
    );
    assert_eq!(
        code[1].code,
        vec![Instruction::LocalGet(0), Instruction::LocalGet(1), Instruction::I32Add, Instruction::End]
    );
    assert_eq!(code[2].code, vec![Instruction::I32Const(2), Instruction::Call(0), Instruction::End]);
}

#[test]
fn test_nested_if() {
    let source = r#"
(module
  ;; Auxiliary definition
  (memory 1)

  (func $dummy)
  (func (export "nested") (param i32 i32) (result i32)
    (if (result i32) (local.get 0)
      (then
        (if (local.get 1) (then (call $dummy) (block) (nop)))
        (if (local.get 1) (then) (else (call $dummy) (block) (nop)))
        (if (result i32) (local.get 1)
          (then (call $dummy) (i32.const 9))
          (else (call $dummy) (i32.const 10))
        )
      )
      (else
        (if (local.get 1) (then (call $dummy) (block) (nop)))
        (if (local.get 1) (then) (else (call $dummy) (block) (nop)))
        (if (result i32) (local.get 1)
          (then (call $dummy) (i32.const 10))
          (else (call $dummy) (i32.const 11))
        )
      )
    )
  )
)
            "#;
    let module = decode(source);
    assert_eq!(module.memory_section, Some(vec![Memory { limits: Limits { min: 1, max: None } }]));
    assert_eq!(module.export_section, Some(vec![Export { name: "nested".into(), desc: ExportDesc::Func(1) }]));
    let code = module.code_section.expect("code section");
    assert_eq!(code[0].code, vec![Instruction::End]);
    let arm = |then: i32, other: i32| {
        vec![
            I::LocalGet(1),
            I::If(empty_block()),
            I::Call(0),
            I::Block(empty_block()),
            I::End,
            I::Nop,
            I::End,
            I::LocalGet(1),
            I::If(empty_block()),
            I::Else,
            I::Call(0),
            I::Block(empty_block()),
            I::End,
            I::Nop,
            I::End,
            I::LocalGet(1),
            I::If(i32_block()),
            I::Call(0),
            I::I32Const(then),
            I::Else,
            I::Call(0),
            I::I32Const(other),
            I::End,
        ]
    };
    let mut expected = vec![I::LocalGet(0), I::If(i32_block())];
    expected.extend(arm(9, 10));
    expected.push(I::Else);
    expected.extend(arm(10, 11));
    expected.push(I::End);
    expected.push(I::End);
    assert_eq!(code[1].code, expected);
}

#[test]
fn test_return() {
    let source = r#"
(module
  (func (export "type-i32-value") (result i32)
    (block (result i32) (i32.ctz (return (i32.const 1))))
  )
)
            "#;
    let module = decode(source);
    assert_eq!(module.type_section, Some(vec![FuncType { params: vec![], results: vec![ValueType::I32] }]));
    assert_eq!(
        module.export_section,
        Some(vec![Export { name: "type-i32-value".into(), desc: ExportDesc::Func(0) }])
    );
    let code = module.code_section.expect("code section");
    assert_eq!(
        code[0].code,
        vec![
            Instruction::Block(i32_block()),
            Instruction::I32Const(1),
            Instruction::Return,
            Instruction::I32Ctz,
            Instruction::End,
            Instruction::End,
        ]
    );
}
