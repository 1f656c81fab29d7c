use wasm_vm::control::{call_indirect_target, FuncType, ValueType};
use wasm_vm::instruction::{decode_body, decode_instruction, Instruction};
use wasm_vm::memory::MemInst;
use wasm_vm::interp::{invoke, match_block, Function, Global};
use wasm_vm::leb128::{read_i32, read_i64, read_leb, read_u32, DecodeError};
use wasm_vm::runtime::{step, Runtime};
use wasm_vm::value::{Error, Trap, Value};

fn add_function() -> Function {
    Function {
        ty: FuncType { params: vec![ValueType::I32, ValueType::I32], results: vec![ValueType::I32] },
        locals: vec![],
        body: decode_body(&vec![0x20, 0x00, 0x20, 0x01, 0x6a, 0x0b]).unwrap(),
    }
}

fn factorial_function() -> Function {
    let body = vec![
        0x20, 0x00, 0x50, 0x04, 0x7e, 0x42, 0x01, 0x05, 0x20, 0x00, 0x20, 0x00, 0x42, 0x01, 0x7d,
        0x10, 0x00, 0x7e, 0x0b, 0x0b,
    ];
    Function {
        ty: FuncType { params: vec![ValueType::I64], results: vec![ValueType::I64] },
        locals: vec![],
        body: decode_body(&body).unwrap(),
    }
}

fn no_memory() -> MemInst {
    MemInst::new(0, None).unwrap()
}

#[test]
fn invoke_add() {
    let funcs = vec![add_function()];
    assert_eq!(invoke(&funcs, &mut no_memory(), &mut vec![], &vec![], &vec![], 0, vec![Value::I32(2), Value::I32(3)], 1000), Ok(vec![Value::I32(5)]));
}

#[test]
fn invoke_factorial() {
    let funcs = vec![factorial_function()];
    assert_eq!(invoke(&funcs, &mut no_memory(), &mut vec![], &vec![], &vec![], 0, vec![Value::I64(10)], 100_000), Ok(vec![Value::I64(3628800)]));
}

#[test]
fn invoke_checks_arguments_and_budget() {
    let funcs = vec![add_function()];
    assert_eq!(invoke(&funcs, &mut no_memory(), &mut vec![], &vec![], &vec![], 1, vec![], 10), Err(Error::NoFunction));
    assert_eq!(invoke(&funcs, &mut no_memory(), &mut vec![], &vec![], &vec![], 0, vec![Value::I32(2)], 10), Err(Error::ArgumentMismatch));
    assert_eq!(invoke(&funcs, &mut no_memory(), &mut vec![], &vec![], &vec![], 0, vec![Value::I32(2), Value::I64(3)], 10), Err(Error::ArgumentMismatch));
    assert_eq!(invoke(&funcs, &mut no_memory(), &mut vec![], &vec![], &vec![], 0, vec![Value::I32(2), Value::I32(3)], 0), Err(Error::Exhausted));
    let fac = vec![factorial_function()];
    assert_eq!(invoke(&fac, &mut no_memory(), &mut vec![], &vec![], &vec![], 0, vec![Value::I64(10)], 20), Err(Error::Exhausted));
}

#[test]
fn invoke_unreachable_traps() {
    let funcs = vec![Function {
        ty: FuncType { params: vec![], results: vec![] },
        locals: vec![ValueType::I32],
        body: vec![Instruction::Unreachable, Instruction::End],
    }];
    assert_eq!(invoke(&funcs, &mut no_memory(), &mut vec![], &vec![], &vec![], 0, vec![], 10), Err(Error::Trap(Trap::Unreachable)));
}

#[test]
fn invoke_if_without_else_skips_body() {
    // if (local 0) { i32.const 7; return }; i32.const 9
    let body = vec![0x20, 0x00, 0x04, 0x40, 0x41, 0x07, 0x0f, 0x0b, 0x41, 0x09, 0x0b];
    let funcs = vec![Function {
        ty: FuncType { params: vec![ValueType::I32], results: vec![ValueType::I32] },
        locals: vec![],
        body: decode_body(&body).unwrap(),
    }];
    assert_eq!(invoke(&funcs, &mut no_memory(), &mut vec![], &vec![], &vec![], 0, vec![Value::I32(1)], 100), Ok(vec![Value::I32(7)]));
    assert_eq!(invoke(&funcs, &mut no_memory(), &mut vec![], &vec![], &vec![], 0, vec![Value::I32(0)], 100), Ok(vec![Value::I32(9)]));
}

#[test]
fn leb_numbers() {
    assert_eq!(read_u32(&vec![0xE5, 0x8E, 0x26], 0), Ok((624485, 3)));
    assert_eq!(read_i32(&vec![0xC0, 0xBB, 0x78], 0), Ok((-123456, 3)));
    assert_eq!(read_i32(&vec![0x7f], 0), Ok((-1, 1)));
    assert_eq!(read_i64(&vec![0x80, 0x80, 0x80, 0x80, 0x80, 0x80, 0x80, 0x80, 0x80, 0x7f], 0), Ok((i64::MIN, 10)));
    assert_eq!(read_u32(&vec![0xff, 0xff, 0xff, 0xff, 0x0f], 0), Ok((u32::MAX, 5)));
    assert_eq!(read_leb(&vec![0x00, 0x80, 0x01], 1, 5, false), Ok((128, 3)));
}

#[test]
fn leb_errors() {
    assert_eq!(read_u32(&vec![0x80, 0x80], 0), Err(DecodeError::TruncatedInput));
    assert_eq!(read_u32(&vec![0x80, 0x80, 0x80, 0x80, 0x80, 0x01], 0), Err(DecodeError::BadLEB));
    assert_eq!(read_u32(&vec![0xff, 0xff, 0xff, 0xff, 0x1f], 0), Err(DecodeError::BadLEB));
    assert_eq!(read_u32(&vec![], 0), Err(DecodeError::TruncatedInput));
}

#[test]
fn instruction_decoding() {
    assert_eq!(decode_instruction(&vec![0x41, 0x7f], 0), Ok((Instruction::I32Const(-1), 2)));
    assert_eq!(decode_instruction(&vec![0x43, 0x00, 0x00, 0x80, 0x3f], 0), Ok((Instruction::F32Const(0x3f80_0000), 5)));
    assert_eq!(decode_instruction(&vec![0x43, 0x00], 0), Err(DecodeError::TruncatedInput));
    assert_eq!(decode_instruction(&vec![0x04, 0x01], 0), Err(DecodeError::BadValueType));
    assert_eq!(decode_instruction(&vec![0xff], 0), Err(DecodeError::UnknownOpcode));
    assert_eq!(decode_body(&vec![0x01, 0x6a, 0x0b]), Ok(vec![Instruction::Nop, Instruction::I32Add, Instruction::End]));
    assert_eq!(decode_body(&vec![0x20]), Err(DecodeError::TruncatedInput));
}

#[test]
fn step_dispatch() {
    let mut rt = Runtime::new();
    assert_eq!(step(&mut rt, Instruction::I64Const(5)), Ok(true));
    assert_eq!(step(&mut rt, Instruction::I64Const(0)), Ok(true));
    assert_eq!(step(&mut rt, Instruction::I64DivU), Err(Error::Trap(Trap::IntegerDivideByZero)));
    assert_eq!(step(&mut rt, Instruction::End), Ok(false));
    assert_eq!(step(&mut rt, Instruction::F32Add), Err(Error::Unsupported));
    assert_eq!(step(&mut rt, Instruction::Unreachable), Err(Error::Trap(Trap::Unreachable)));
}

#[test]
fn call_indirect_runs_table_entry() {
    let t = FuncType { params: vec![], results: vec![ValueType::I32] };
    let funcs = vec![
        Function { ty: t.clone(), locals: vec![], body: decode_body(&vec![0x41, 0x2a, 0x0b]).unwrap() },
        Function { ty: t.clone(), locals: vec![], body: decode_body(&vec![0x41, 0x07, 0x0b]).unwrap() },
    ];
    let types: Vec<FuncType> = funcs.iter().map(|f| f.ty.clone()).collect();
    let table = vec![Some(0usize), Some(1usize)];
    let f = call_indirect_target(&table, &types, &t, 0).unwrap();
    assert_eq!(invoke(&funcs, &mut no_memory(), &mut vec![], &vec![], &vec![], f, vec![], 100), Ok(vec![Value::I32(42)]));
    assert_eq!(call_indirect_target(&table, &types, &t, 2), Err(Trap::UndefinedElement));
}

#[test]
fn match_block_skips_nested_blocks() {
    // if; [block; else; end]; else; nop; end
    let body = vec![
        Instruction::If(None),
        Instruction::Block(Some(ValueType::I32)),
        Instruction::Else,
        Instruction::End,
        Instruction::Else,
        Instruction::Nop,
        Instruction::End,
    ];
    assert_eq!(match_block(&body, 1), Some((Some(4), 6)));
    assert_eq!(match_block(&body, 2), Some((Some(2), 3)));
    assert_eq!(match_block(&body[..5].to_vec(), 1), None);
}

#[test]
fn nested_if_else_runs() {
    // if (local 0) { if (local 1) { 1 } else { 2 } } else { 3 }
    let body = vec![
        0x20, 0x00, 0x04, 0x7f, 0x20, 0x01, 0x04, 0x7f, 0x41, 0x01, 0x05, 0x41, 0x02, 0x0b, 0x05,
        0x41, 0x03, 0x0b, 0x0b,
    ];
    let funcs = vec![Function {
        ty: FuncType { params: vec![ValueType::I32, ValueType::I32], results: vec![ValueType::I32] },
        locals: vec![],
        body: decode_body(&body).unwrap(),
    }];
    let run = |a: i32, b: i32| invoke(&funcs, &mut no_memory(), &mut vec![], &vec![], &vec![], 0, vec![Value::I32(a), Value::I32(b)], 100);
    assert_eq!(run(1, 1), Ok(vec![Value::I32(1)]));
    assert_eq!(run(1, 0), Ok(vec![Value::I32(2)]));
    assert_eq!(run(0, 1), Ok(vec![Value::I32(3)]));
}

#[test]
fn encoded_stream_decodes_back() {
    // local.get 300; call 2; i32.const -64; i64.const 64; f32.const 1.0; if; else; end
    let bytes = vec![
        0x20, 0xac, 0x02, 0x10, 0x02, 0x41, 0x40, 0x42, 0xc0, 0x00, 0x43, 0x00, 0x00, 0x80, 0x3f,
        0x04, 0x40, 0x05, 0x0b,
    ];
    assert_eq!(
        decode_body(&bytes),
        Ok(vec![
            Instruction::LocalGet(300),
            Instruction::Call(2),
            Instruction::I32Const(-64),
            Instruction::I64Const(64),
            Instruction::F32Const(0x3f80_0000),
            Instruction::If(None),
            Instruction::Else,
            Instruction::End,
        ])
    );
}

#[test]
fn locals_start_at_zero() {
    let funcs = vec![Function {
        ty: FuncType { params: vec![ValueType::I32], results: vec![ValueType::I64] },
        locals: vec![ValueType::I64],
        body: decode_body(&vec![0x20, 0x01, 0x0b]).unwrap(),
    }];
    assert_eq!(invoke(&funcs, &mut no_memory(), &mut vec![], &vec![], &vec![], 0, vec![Value::I32(9)], 10), Ok(vec![Value::I64(0)]));
}

fn run_i32(body: Vec<u8>, locals: Vec<ValueType>, args: Vec<i32>) -> Result<Vec<Value>, Error> {
    let params = args.iter().map(|_| ValueType::I32).collect();
    let funcs = vec![Function {
        ty: FuncType { params, results: vec![ValueType::I32] },
        locals,
        body: decode_body(&body).unwrap(),
    }];
    invoke(&funcs, &mut no_memory(), &mut vec![], &vec![], &vec![], 0, args.into_iter().map(Value::I32).collect(), 100_000)
}

#[test]
fn loop_with_branches_sums() {
    let body = vec![
        0x02, 0x40, 0x03, 0x40, 0x20, 0x00, 0x45, 0x0d, 0x01, 0x20, 0x01, 0x20, 0x00, 0x6a, 0x21,
        0x01, 0x20, 0x00, 0x41, 0x01, 0x6b, 0x21, 0x00, 0x0c, 0x00, 0x0b, 0x0b, 0x20, 0x01, 0x0b,
    ];
    assert_eq!(run_i32(body.clone(), vec![ValueType::I32], vec![10]), Ok(vec![Value::I32(55)]));
    assert_eq!(run_i32(body, vec![ValueType::I32], vec![0]), Ok(vec![Value::I32(0)]));
}

#[test]
fn branch_out_of_block_keeps_result() {
    // block (result i32) i32.const 1; i32.const 7; br 0 end
    let body = vec![0x02, 0x7f, 0x41, 0x01, 0x41, 0x07, 0x0c, 0x00, 0x0b, 0x0b];
    assert_eq!(run_i32(body, vec![], vec![]), Ok(vec![Value::I32(7)]));
}

#[test]
fn branch_to_function_level_returns() {
    // i32.const 4; br 0; unreachable
    let body = vec![0x41, 0x04, 0x0c, 0x00, 0x00, 0x0b];
    assert_eq!(run_i32(body, vec![], vec![]), Ok(vec![Value::I32(4)]));
}

#[test]
fn select_and_tee() {
    let select = vec![0x41, 0x01, 0x41, 0x02, 0x20, 0x00, 0x1b, 0x0b];
    assert_eq!(run_i32(select.clone(), vec![], vec![5]), Ok(vec![Value::I32(1)]));
    assert_eq!(run_i32(select, vec![], vec![0]), Ok(vec![Value::I32(2)]));
    let tee = vec![0x20, 0x00, 0x22, 0x01, 0x20, 0x01, 0x6a, 0x0b];
    assert_eq!(run_i32(tee, vec![ValueType::I32], vec![21]), Ok(vec![Value::I32(42)]));
    let drop = vec![0x41, 0x09, 0x41, 0x03, 0x1a, 0x0b];
    assert_eq!(run_i32(drop, vec![], vec![]), Ok(vec![Value::I32(9)]));
}

#[test]
fn loads_and_stores_through_memory() {
    // i32.const 8; local.get 0; i32.store offset=4; i32.const 0; i32.load offset=12
    let body = vec![0x41, 0x08, 0x20, 0x00, 0x36, 0x02, 0x04, 0x41, 0x00, 0x28, 0x02, 0x0c, 0x0b];
    let funcs = vec![Function {
        ty: FuncType { params: vec![ValueType::I32], results: vec![ValueType::I32] },
        locals: vec![],
        body: decode_body(&body).unwrap(),
    }];
    let mut mem = MemInst::new(1, None).unwrap();
    assert_eq!(invoke(&funcs, &mut mem, &mut vec![], &vec![], &vec![], 0, vec![Value::I32(-2)], 100), Ok(vec![Value::I32(-2)]));
    assert_eq!(&mem.data[12..16], &[0xfe, 0xff, 0xff, 0xff]);
}

#[test]
fn load_past_memory_end_traps() {
    // local.get 0; i32.load8_u; end
    let body = vec![0x20, 0x00, 0x2d, 0x00, 0x00, 0x0b];
    let funcs = vec![Function {
        ty: FuncType { params: vec![ValueType::I32], results: vec![ValueType::I32] },
        locals: vec![],
        body: decode_body(&body).unwrap(),
    }];
    let mut mem = MemInst::new(1, None).unwrap();
    assert_eq!(invoke(&funcs, &mut mem, &mut vec![], &vec![], &vec![], 0, vec![Value::I32(65535)], 100), Ok(vec![Value::I32(0)]));
    assert_eq!(
        invoke(&funcs, &mut mem, &mut vec![], &vec![], &vec![], 0, vec![Value::I32(65536)], 100),
        Err(Error::Trap(Trap::OutOfBoundsMemoryAccess))
    );
}

#[test]
fn globals_read_and_written() {
    // global.get 0; i32.const 1; i32.add; global.set 0; global.get 0
    let body = vec![0x23, 0x00, 0x41, 0x01, 0x6a, 0x24, 0x00, 0x23, 0x00, 0x0b];
    let funcs = vec![Function {
        ty: FuncType { params: vec![], results: vec![ValueType::I32] },
        locals: vec![],
        body: decode_body(&body).unwrap(),
    }];
    let mut globals = vec![Global { value: Value::I32(41), mutable: true }];
    assert_eq!(invoke(&funcs, &mut no_memory(), &mut globals, &vec![], &vec![], 0, vec![], 100), Ok(vec![Value::I32(42)]));
    assert_eq!(globals[0].value, Value::I32(42));
    let mut fixed = vec![Global { value: Value::I32(41), mutable: false }];
    assert_eq!(invoke(&funcs, &mut no_memory(), &mut fixed, &vec![], &vec![], 0, vec![], 100), Err(Error::NoGlobal));
    assert_eq!(fixed[0].value, Value::I32(41));
}

#[test]
fn memory_grow_and_size_instructions() {
    let grow = Function {
        ty: FuncType { params: vec![ValueType::I32], results: vec![ValueType::I32] },
        locals: vec![],
        body: decode_body(&vec![0x20, 0x00, 0x40, 0x00, 0x0b]).unwrap(),
    };
    let size = Function {
        ty: FuncType { params: vec![], results: vec![ValueType::I32] },
        locals: vec![],
        body: decode_body(&vec![0x3f, 0x00, 0x0b]).unwrap(),
    };
    // store8(a, v) and load8(a)
    let store8 = Function {
        ty: FuncType { params: vec![ValueType::I32, ValueType::I32], results: vec![] },
        locals: vec![],
        body: decode_body(&vec![0x20, 0x00, 0x20, 0x01, 0x3a, 0x00, 0x00, 0x0b]).unwrap(),
    };
    let load8 = Function {
        ty: FuncType { params: vec![ValueType::I32], results: vec![ValueType::I32] },
        locals: vec![],
        body: decode_body(&vec![0x20, 0x00, 0x2d, 0x00, 0x00, 0x0b]).unwrap(),
    };
    let funcs = vec![grow, size, store8, load8];
    let mut mem = MemInst::new(1, None).unwrap();
    let mut g: Vec<Global> = vec![];
    assert_eq!(invoke(&funcs, &mut mem, &mut g, &vec![], &vec![], 0, vec![Value::I32(1)], 100), Ok(vec![Value::I32(1)]));
    assert_eq!(invoke(&funcs, &mut mem, &mut g, &vec![], &vec![], 1, vec![], 100), Ok(vec![Value::I32(2)]));
    assert_eq!(invoke(&funcs, &mut mem, &mut g, &vec![], &vec![], 2, vec![Value::I32(65536), Value::I32(0x1ab)], 100), Ok(vec![]));
    assert_eq!(invoke(&funcs, &mut mem, &mut g, &vec![], &vec![], 3, vec![Value::I32(65536)], 100), Ok(vec![Value::I32(0xab)]));
    let mut small = MemInst::new(1, Some(1)).unwrap();
    assert_eq!(invoke(&funcs, &mut small, &mut g, &vec![], &vec![], 0, vec![Value::I32(1)], 100), Ok(vec![Value::I32(-1)]));
}

#[test]
fn call_indirect_through_table() {
    // f0: i32.const 42; f1: i32.const 7; f2: local.get 0; call_indirect type 0 table 0
    let t = FuncType { params: vec![], results: vec![ValueType::I32] };
    let caller_ty = FuncType { params: vec![ValueType::I32], results: vec![ValueType::I32] };
    let funcs = vec![
        Function { ty: t.clone(), locals: vec![], body: decode_body(&vec![0x41, 0x2a, 0x0b]).unwrap() },
        Function { ty: caller_ty.clone(), locals: vec![], body: decode_body(&vec![0x41, 0x07, 0x0b]).unwrap() },
        Function { ty: caller_ty.clone(), locals: vec![], body: decode_body(&vec![0x20, 0x00, 0x11, 0x00, 0x00, 0x0b]).unwrap() },
    ];
    let types = vec![t.clone()];
    let table = vec![Some(0usize), Some(1usize), None];
    let mut mem = no_memory();
    let mut g: Vec<Global> = vec![];
    assert_eq!(invoke(&funcs, &mut mem, &mut g, &types, &table, 2, vec![Value::I32(0)], 100), Ok(vec![Value::I32(42)]));
    assert_eq!(invoke(&funcs, &mut mem, &mut g, &types, &table, 2, vec![Value::I32(1)], 100), Err(Error::Trap(Trap::IndirectCallTypeMismatch)));
    assert_eq!(invoke(&funcs, &mut mem, &mut g, &types, &table, 2, vec![Value::I32(2)], 100), Err(Error::Trap(Trap::UndefinedElement)));
    assert_eq!(invoke(&funcs, &mut mem, &mut g, &types, &table, 2, vec![Value::I32(3)], 100), Err(Error::Trap(Trap::UndefinedElement)));
}

#[test]
fn narrow_loads_extend_and_stores_truncate() {
    let run = |body: Vec<u8>, params: Vec<ValueType>, result: ValueType, args: Vec<Value>, mem: &mut MemInst| {
        let funcs = vec![Function {
            ty: FuncType { params, results: vec![result] },
            locals: vec![],
            body: decode_body(&body).unwrap(),
        }];
        invoke(&funcs, mem, &mut vec![], &vec![], &vec![], 0, args, 100)
    };
    let mut mem = MemInst::new(1, None).unwrap();
    mem.store(0, 0, 8, 0xfedc_ba98_8765_8180).unwrap();
    let i32s = |op: u8| vec![0x41, 0x00, op, 0x00, 0x00, 0x0b];
    assert_eq!(run(i32s(0x2c), vec![], ValueType::I32, vec![], &mut mem), Ok(vec![Value::I32(-128)]));
    assert_eq!(run(i32s(0x2d), vec![], ValueType::I32, vec![], &mut mem), Ok(vec![Value::I32(0x80)]));
    assert_eq!(run(i32s(0x2e), vec![], ValueType::I32, vec![], &mut mem), Ok(vec![Value::I32(-0x7e80)]));
    assert_eq!(run(i32s(0x2f), vec![], ValueType::I32, vec![], &mut mem), Ok(vec![Value::I32(0x8180)]));
    assert_eq!(run(i32s(0x30), vec![], ValueType::I64, vec![], &mut mem), Ok(vec![Value::I64(-128)]));
    assert_eq!(run(i32s(0x31), vec![], ValueType::I64, vec![], &mut mem), Ok(vec![Value::I64(0x80)]));
    assert_eq!(run(i32s(0x34), vec![], ValueType::I64, vec![], &mut mem), Ok(vec![Value::I64(0xffff_ffff_8765_8180u64 as i64)]));
    assert_eq!(run(i32s(0x35), vec![], ValueType::I64, vec![], &mut mem), Ok(vec![Value::I64(0x8765_8180)]));
    // i64.store16 at 16 of the parameter, then i64.load32_u at 16
    let store = vec![0x41, 0x10, 0x20, 0x00, 0x3d, 0x00, 0x00, 0x41, 0x10, 0x35, 0x00, 0x00, 0x0b];
    assert_eq!(run(store, vec![ValueType::I64], ValueType::I64, vec![Value::I64(0x1234_5678)], &mut mem), Ok(vec![Value::I64(0x5678)]));
}

#[test]
fn br_table_picks_label_or_default() {
    let body = vec![
        0x02, 0x40, 0x02, 0x40, 0x02, 0x40, 0x20, 0x00, 0x0e, 0x03, 0x00, 0x01, 0x02, 0x00, 0x0b,
        0x41, 0x0a, 0x0f, 0x0b, 0x41, 0x0b, 0x0f, 0x0b, 0x41, 0x0c, 0x0b,
    ];
    let decoded = decode_body(&body).unwrap();
    assert_eq!(&decoded[4..9], &[
        Instruction::BrTable(3),
        Instruction::BrTarget(0),
        Instruction::BrTarget(1),
        Instruction::BrTarget(2),
        Instruction::BrTarget(0),
    ]);
    assert_eq!(run_i32(body.clone(), vec![], vec![0]), Ok(vec![Value::I32(10)]));
    assert_eq!(run_i32(body.clone(), vec![], vec![1]), Ok(vec![Value::I32(11)]));
    assert_eq!(run_i32(body.clone(), vec![], vec![2]), Ok(vec![Value::I32(12)]));
    assert_eq!(run_i32(body, vec![], vec![9]), Ok(vec![Value::I32(10)]));
    assert_eq!(decode_body(&vec![0x0e, 0x02, 0x00]), Err(DecodeError::TruncatedInput));
}
