use wasm_vm::control::{branch, br_table_depth, call_indirect_target, FuncType, Label, LabelKind, ValueType};
use wasm_vm::memory::MemInst;
use wasm_vm::numeric::{IBinOp, IUnOp};
use wasm_vm::runtime::{binary, i32const, i64extend_32s, local_get, pop_rl, popcnt, push, unary, Frame, Runtime};
use wasm_vm::value::{Error, Trap, Value};

fn runtime_with_locals(locals: Vec<Value>) -> Runtime {
    let mut rt = Runtime::new();
    rt.frames.push(Frame { func: 0, local_stack: locals, labels: Vec::new(), pc: 0, arity: 1, base: 0 });
    rt
}

#[test]
fn add_function_body() {
    let mut rt = runtime_with_locals(vec![Value::I32(2), Value::I32(3)]);
    local_get(&mut rt, 0).unwrap();
    local_get(&mut rt, 1).unwrap();
    binary(&mut rt, IBinOp::Add).unwrap();
    assert_eq!(rt.stack, vec![Value::I32(5)]);
}

#[test]
fn local_get_errors() {
    let mut rt = Runtime::new();
    assert_eq!(local_get(&mut rt, 0), Err(Error::NoFrame));
    let mut rt = runtime_with_locals(vec![Value::I32(1)]);
    assert_eq!(local_get(&mut rt, 1), Err(Error::LocalNotFound));
    assert!(rt.stack.is_empty());
}

#[test]
fn pop_rl_order_and_underflow() {
    let mut rt = Runtime::new();
    push(&mut rt, Value::I32(1)).unwrap();
    i32const(&mut rt, 2).unwrap();
    assert_eq!(pop_rl(&mut rt), Ok((Value::I32(2), Value::I32(1))));
    assert_eq!(pop_rl(&mut rt), Err(Error::StackPopError));
}

#[test]
fn subtraction_takes_left_operand_first() {
    let mut rt = Runtime::new();
    i32const(&mut rt, 10).unwrap();
    i32const(&mut rt, 3).unwrap();
    binary(&mut rt, IBinOp::Sub).unwrap();
    assert_eq!(rt.stack, vec![Value::I32(7)]);
}

#[test]
fn binary_trap_reported() {
    let mut rt = Runtime::new();
    i32const(&mut rt, i32::MIN).unwrap();
    i32const(&mut rt, -1).unwrap();
    assert_eq!(binary(&mut rt, IBinOp::DivS), Err(Error::Trap(Trap::IntegerOverflow)));
    assert!(rt.stack.is_empty());
}

#[test]
fn popcnt_and_extend_on_stack() {
    let mut rt = Runtime::new();
    push(&mut rt, Value::I64(0xff)).unwrap();
    popcnt(&mut rt).unwrap();
    assert_eq!(rt.stack, vec![Value::I64(8)]);
    push(&mut rt, Value::I64(0x1_8000_0000)).unwrap();
    i64extend_32s(&mut rt).unwrap();
    assert_eq!(rt.stack.last(), Some(&Value::I64(-0x8000_0000)));
    i32const(&mut rt, 1).unwrap();
    assert_eq!(i64extend_32s(&mut rt), Err(Error::UnexpectedValue));
    unary(&mut rt, IUnOp::Eqz).unwrap();
    assert_eq!(rt.stack.last(), Some(&Value::I32(0)));
}

#[test]
fn memory_grow_then_access_new_page() {
    let mut m = MemInst::new(1, None).unwrap();
    assert_eq!(m.size(), 1);
    assert_eq!(m.grow(1), 1);
    assert_eq!(m.size(), 2);
    assert_eq!(m.load(65536, 0, 1), Ok(0));
    m.store(65536, 0, 1, 0x5a).unwrap();
    assert_eq!(m.load(65536, 0, 1), Ok(0x5a));
}

#[test]
fn memory_grow_past_maximum_fails() {
    let mut m = MemInst::new(1, Some(2)).unwrap();
    assert_eq!(m.grow(2), -1);
    assert_eq!(m.size(), 1);
    assert_eq!(m.grow(1), 1);
    assert_eq!(m.grow(0), 2);
    assert!(MemInst::new(3, Some(2)).is_none());
}

#[test]
fn load_at_memory_end() {
    let m = MemInst::new(1, None).unwrap();
    assert_eq!(m.load(65536 - 4, 0, 4), Ok(0));
    assert_eq!(m.load(65536 - 3, 0, 4), Err(Trap::OutOfBoundsMemoryAccess));
    assert_eq!(m.load(65532, 1, 4), Err(Trap::OutOfBoundsMemoryAccess));
}

#[test]
fn store_is_little_endian() {
    let mut m = MemInst::new(1, None).unwrap();
    m.store(8, 2, 4, 0x1122_3344_5566_7788).unwrap();
    assert_eq!(&m.data[10..14], &[0x88, 0x77, 0x66, 0x55]);
    assert_eq!(m.load(10, 0, 4), Ok(0x5566_7788));
    assert_eq!(m.load(10, 0, 2), Ok(0x7788));
    assert_eq!(m.store(65535, 0, 2, 1), Err(Trap::OutOfBoundsMemoryAccess));
}

#[test]
fn branch_keeps_result_values() {
    let mut stack = vec![Value::I32(1), Value::I32(2), Value::I32(3), Value::I32(4)];
    let mut labels = vec![
        Label { arity: 1, continuation: 40, kind: LabelKind::Block, base: 1 },
        Label { arity: 0, continuation: 7, kind: LabelKind::Loop, base: 2 },
    ];
    assert_eq!(branch(&mut stack, &mut labels, 1), Ok(40));
    assert_eq!(stack, vec![Value::I32(1), Value::I32(4)]);
    assert!(labels.is_empty());
    assert_eq!(branch(&mut stack, &mut labels, 0), Err(Error::NoLabel));
}

#[test]
fn branch_to_loop_resumes_at_header() {
    let mut stack = vec![Value::I32(9)];
    let mut labels = vec![Label { arity: 0, continuation: 3, kind: LabelKind::Loop, base: 0 }];
    assert_eq!(branch(&mut stack, &mut labels, 0), Ok(3));
    assert!(stack.is_empty());
}

#[test]
fn br_table_selects_label() {
    let depths = vec![0u32, 1, 2];
    assert_eq!(br_table_depth(&depths, 0, 1), 1);
    assert_eq!(br_table_depth(&depths, 0, 9), 0);
}

#[test]
fn call_indirect_checks() {
    let t = FuncType { params: vec![], results: vec![ValueType::I32] };
    let other = FuncType { params: vec![ValueType::I32], results: vec![ValueType::I32] };
    let types = vec![t.clone(), t.clone(), other];
    let table = vec![Some(0usize), Some(2), None];
    assert_eq!(call_indirect_target(&table, &types, &t, 0), Ok(0));
    assert_eq!(call_indirect_target(&table, &types, &t, 1), Err(Trap::IndirectCallTypeMismatch));
    assert_eq!(call_indirect_target(&table, &types, &t, 2), Err(Trap::UndefinedElement));
    assert_eq!(call_indirect_target(&table, &types, &t, 3), Err(Trap::UndefinedElement));
}

#[test]
fn trap_messages() {
    assert_eq!(Trap::Unreachable.message(), "unreachable");
    assert_eq!(Trap::IntegerOverflow.message(), "integer overflow");
    assert_eq!(Trap::IndirectCallTypeMismatch.message(), "indirect call type mismatch");
}
