use vstd::prelude::*;
use crate::control::Label;
use crate::instruction::Instruction;
use crate::numeric::{binary_value, eval_binary, eval_unary, unary_value, IBinOp, IUnOp};
use crate::value::{Error, Trap, Value};

verus! {

/// The activation record of a function call.
pub struct Frame {
    /// Index of the function being run.
    pub func: usize,
    /// Parameters followed by the declared locals.
    pub local_stack: Vec<Value>,
    pub labels: Vec<Label>,
    pub pc: usize,
    pub arity: usize,
    /// Operand-stack height at entry.
    pub base: usize,
}

/// The interpreter's operand stack and call-frame stack.
pub struct Runtime {
    pub stack: Vec<Value>,
    pub frames: Vec<Frame>,
}

/// The operand stack left after popping two operands, and what the pop gives.
pub open spec fn pop_two(s: Seq<Value>) -> (Result<(Value, Value), Error>, Seq<Value>) {
    if s.len() >= 2 {
        (Ok((s[s.len() - 1], s[s.len() - 2])), s.subrange(0, s.len() - 2))
    } else {
        (Err(Error::StackPopError), Seq::empty())
    }
}

/// A binary instruction on the operand stack: the result, and the stack after it.
pub open spec fn binary_step(s: Seq<Value>, op: IBinOp) -> (Result<(), Error>, Seq<Value>) {
    match pop_two(s) {
        (Ok((r, l)), rest) => match eval_binary(op, l, r) {
            Ok(v) => (Ok(()), rest.push(v)),
            Err(e) => (Err(e), rest),
        },
        (Err(e), rest) => (Err(e), rest),
    }
}

/// A unary instruction on the operand stack: the result, and the stack after it.
pub open spec fn unary_step(s: Seq<Value>, op: IUnOp) -> (Result<(), Error>, Seq<Value>) {
    if s.len() == 0 {
        (Err(Error::StackPopError), s)
    } else {
        let rest = s.drop_last();
        match eval_unary(op, s.last()) {
            Ok(v) => (Ok(()), rest.push(v)),
            Err(e) => (Err(e), rest),
        }
    }
}

impl Runtime {
    pub fn new() -> (r: Runtime)
        ensures
            r.stack@.len() == 0,
            r.frames@.len() == 0,
    {
        Runtime { stack: Vec::new(), frames: Vec::new() }
    }

    /// Pops the top operand.
    pub fn stack_pop(&mut self) -> (r: Result<Value, Error>)
        ensures
            old(self).stack@.len() == 0 ==> r == Err::<Value, Error>(Error::StackPopError)
                && final(self).stack@ == old(self).stack@,
            old(self).stack@.len() > 0 ==> r == Ok::<Value, Error>(old(self).stack@.last())
                && final(self).stack@ == old(self).stack@.drop_last(),
            final(self).frames == old(self).frames,
    {
        match self.stack.pop() {
            Some(v) => Ok(v),
            None => Err(Error::StackPopError),
        }
    }
}

/// Pops the right operand, then the left one, and returns them in that order.
pub fn pop_rl(runtime: &mut Runtime) -> (r: Result<(Value, Value), Error>)
    ensures
        (r, final(runtime).stack@) == pop_two(old(runtime).stack@),
        final(runtime).frames == old(runtime).frames,
{
    let r = match runtime.stack.pop() {
        Some(v) => v,
        None => return Err(Error::StackPopError),
    };
    let l = match runtime.stack.pop() {
        Some(v) => v,
        None => return Err(Error::StackPopError),
    };
    Ok((r, l))
}

/// Pushes local `idx` of the current frame.
pub fn local_get(runtime: &mut Runtime, idx: usize) -> (r: Result<(), Error>)
    ensures
        final(runtime).frames == old(runtime).frames,
        old(runtime).frames@.len() == 0 ==> r == Err::<(), Error>(Error::NoFrame)
            && final(runtime).stack == old(runtime).stack,
        old(runtime).frames@.len() > 0 ==> {
            let locals = old(runtime).frames@.last().local_stack@;
            if idx < locals.len() {
                &&& r == Ok::<(), Error>(())
                &&& final(runtime).stack@ == old(runtime).stack@.push(locals[idx as int])
            } else {
                &&& r == Err::<(), Error>(Error::LocalNotFound)
                &&& final(runtime).stack == old(runtime).stack
            }
        },
{
    let n = runtime.frames.len();
    if n == 0 {
        return Err(Error::NoFrame);
    }
    let frame = &runtime.frames[n - 1];
    if idx >= frame.local_stack.len() {
        return Err(Error::LocalNotFound);
    }
    let value = frame.local_stack[idx];
    runtime.stack.push(value);
    Ok(())
}

/// Executes a binary instruction: pops the right and then the left operand
/// and pushes the result. Floating-point operands are refused.
pub fn binary(runtime: &mut Runtime, op: IBinOp) -> (r: Result<(), Error>)
    ensures
        (r, final(runtime).stack@) == binary_step(old(runtime).stack@, op),
        final(runtime).frames == old(runtime).frames,
{
    let (r, l) = pop_rl(runtime)?;
    let v = binary_value(op, l, r)?;
    runtime.stack.push(v);
    Ok(())
}

/// Executes a unary instruction: pops the operand and pushes the result.
pub fn unary(runtime: &mut Runtime, op: IUnOp) -> (r: Result<(), Error>)
    ensures
        (r, final(runtime).stack@) == unary_step(old(runtime).stack@, op),
        final(runtime).frames == old(runtime).frames,
{
    let value = runtime.stack_pop()?;
    let v = unary_value(op, value)?;
    runtime.stack.push(v);
    Ok(())
}

/// Replaces the top integer with the number of its set bits.
pub fn popcnt(runtime: &mut Runtime) -> (r: Result<(), Error>)
    ensures
        (r, final(runtime).stack@) == unary_step(old(runtime).stack@, IUnOp::Popcnt),
        final(runtime).frames == old(runtime).frames,
{
    unary(runtime, IUnOp::Popcnt)
}

/// Replaces the top `i64` with the sign extension of its low 32 bits.
pub fn i64extend_32s(runtime: &mut Runtime) -> (r: Result<(), Error>)
    ensures
        (r, final(runtime).stack@) == unary_step(old(runtime).stack@, IUnOp::Extend32S),
        final(runtime).frames == old(runtime).frames,
{
    unary(runtime, IUnOp::Extend32S)
}

/// Pushes an `i32` constant.
pub fn i32const(runtime: &mut Runtime, value: i32) -> (r: Result<(), Error>)
    ensures
        r == Ok::<(), Error>(()),
        final(runtime).stack@ == old(runtime).stack@.push(Value::I32(value)),
        final(runtime).frames == old(runtime).frames,
{
    runtime.stack.push(Value::I32(value));
    Ok(())
}

/// Pushes a value.
pub fn push(runtime: &mut Runtime, value: Value) -> (r: Result<(), Error>)
    ensures
        r == Ok::<(), Error>(()),
        final(runtime).stack@ == old(runtime).stack@.push(value),
        final(runtime).frames == old(runtime).frames,
{
    runtime.stack.push(value);
    Ok(())
}

/// What an instruction does to the operand stack.
#[derive(Debug, Clone, Copy, PartialEq, Eq, Structural)]
pub enum Step {
    Binary(IBinOp),
    Unary(IUnOp),
    Push(Value),
    LocalGet(u32),
    Nop,
    Trap(Trap),
    /// A floating-point operation, which this library does not carry out.
    Float,
    /// Control flow, calls, memory and global accesses, and the
    /// instructions that write locals or drop and select operands, which the
    /// caller of `step` carries out.
    Control,
}

pub open spec fn step_of(i: Instruction) -> Step {
    match i {
        Instruction::I32Eqz => Step::Unary(IUnOp::Eqz),
        Instruction::I32Eq => Step::Binary(IBinOp::Eq),
        Instruction::I32Ne => Step::Binary(IBinOp::Ne),
        Instruction::I32LtS => Step::Binary(IBinOp::LtS),
        Instruction::I32LtU => Step::Binary(IBinOp::LtU),
        Instruction::I32GtS => Step::Binary(IBinOp::GtS),
        Instruction::I32GtU => Step::Binary(IBinOp::GtU),
        Instruction::I32LeS => Step::Binary(IBinOp::LeS),
        Instruction::I32LeU => Step::Binary(IBinOp::LeU),
        Instruction::I32GeS => Step::Binary(IBinOp::GeS),
        Instruction::I32GeU => Step::Binary(IBinOp::GeU),
        Instruction::I32Clz => Step::Unary(IUnOp::Clz),
        Instruction::I32Ctz => Step::Unary(IUnOp::Ctz),
        Instruction::I32Popcnt => Step::Unary(IUnOp::Popcnt),
        Instruction::I32Add => Step::Binary(IBinOp::Add),
        Instruction::I32Sub => Step::Binary(IBinOp::Sub),
        Instruction::I32Mul => Step::Binary(IBinOp::Mul),
        Instruction::I32DivS => Step::Binary(IBinOp::DivS),
        Instruction::I32DivU => Step::Binary(IBinOp::DivU),
        Instruction::I32RemS => Step::Binary(IBinOp::RemS),
        Instruction::I32RemU => Step::Binary(IBinOp::RemU),
        Instruction::I32And => Step::Binary(IBinOp::And),
        Instruction::I32Or => Step::Binary(IBinOp::Or),
        Instruction::I32Xor => Step::Binary(IBinOp::Xor),
        Instruction::I32ShL => Step::Binary(IBinOp::Shl),
        Instruction::I32ShrS => Step::Binary(IBinOp::ShrS),
        Instruction::I32ShrU => Step::Binary(IBinOp::ShrU),
        Instruction::I32RtoL => Step::Binary(IBinOp::Rotl),
        Instruction::I32RtoR => Step::Binary(IBinOp::Rotr),
        Instruction::I32Extend8S => Step::Unary(IUnOp::Extend8S),
        Instruction::I32Extend16S => Step::Unary(IUnOp::Extend16S),
        Instruction::I64Eqz => Step::Unary(IUnOp::Eqz),
        Instruction::I64Eq => Step::Binary(IBinOp::Eq),
        Instruction::I64Ne => Step::Binary(IBinOp::Ne),
        Instruction::I64LtS => Step::Binary(IBinOp::LtS),
        Instruction::I64LtU => Step::Binary(IBinOp::LtU),
        Instruction::I64GtS => Step::Binary(IBinOp::GtS),
        Instruction::I64GtU => Step::Binary(IBinOp::GtU),
        Instruction::I64LeS => Step::Binary(IBinOp::LeS),
        Instruction::I64LeU => Step::Binary(IBinOp::LeU),
        Instruction::I64GeS => Step::Binary(IBinOp::GeS),
        Instruction::I64GeU => Step::Binary(IBinOp::GeU),
        Instruction::I64Clz => Step::Unary(IUnOp::Clz),
        Instruction::I64Ctz => Step::Unary(IUnOp::Ctz),
        Instruction::I64Popcnt => Step::Unary(IUnOp::Popcnt),
        Instruction::I64Add => Step::Binary(IBinOp::Add),
        Instruction::I64Sub => Step::Binary(IBinOp::Sub),
        Instruction::I64Mul => Step::Binary(IBinOp::Mul),
        Instruction::I64DivS => Step::Binary(IBinOp::DivS),
        Instruction::I64DivU => Step::Binary(IBinOp::DivU),
        Instruction::I64RemS => Step::Binary(IBinOp::RemS),
        Instruction::I64RemU => Step::Binary(IBinOp::RemU),
        Instruction::I64And => Step::Binary(IBinOp::And),
        Instruction::I64Or => Step::Binary(IBinOp::Or),
        Instruction::I64Xor => Step::Binary(IBinOp::Xor),
        Instruction::I64ShL => Step::Binary(IBinOp::Shl),
        Instruction::I64ShrS => Step::Binary(IBinOp::ShrS),
        Instruction::I64ShrU => Step::Binary(IBinOp::ShrU),
        Instruction::I64RtoL => Step::Binary(IBinOp::Rotl),
        Instruction::I64RtoR => Step::Binary(IBinOp::Rotr),
        Instruction::I64Extend8S => Step::Unary(IUnOp::Extend8S),
        Instruction::I64Extend16S => Step::Unary(IUnOp::Extend16S),
        Instruction::I64Extend32S => Step::Unary(IUnOp::Extend32S),
        Instruction::Unreachable => Step::Trap(Trap::Unreachable),
        Instruction::Nop => Step::Nop,
        Instruction::LocalGet(x) => Step::LocalGet(x),
        Instruction::I32Const(v) => Step::Push(Value::I32(v)),
        Instruction::I64Const(v) => Step::Push(Value::I64(v)),
        Instruction::F32Const(bits) => Step::Push(Value::F32(bits)),
        Instruction::Call(_) | Instruction::Return | Instruction::If(_) | Instruction::Else
        | Instruction::End | Instruction::MemorySize | Instruction::MemoryGrow | Instruction::Block(_) | Instruction::Loop(_)
        | Instruction::Br(_) | Instruction::BrIf(_) | Instruction::BrTable(_) | Instruction::BrTarget(_) | Instruction::Drop | Instruction::Select
        | Instruction::LocalSet(_) | Instruction::LocalTee(_) | Instruction::I32Load(..)
        | Instruction::I64Load(..) | Instruction::I32Load8U(..) | Instruction::I32Store(..) | Instruction::I32Load8S(..) | Instruction::I32Load16S(..) | Instruction::I32Load16U(..) | Instruction::I64Load8S(..) | Instruction::I64Load8U(..) | Instruction::I64Load16S(..) | Instruction::I64Load16U(..) | Instruction::I64Load32S(..) | Instruction::I64Load32U(..) | Instruction::I32Store16(..) | Instruction::I64Store8(..) | Instruction::I64Store16(..) | Instruction::I64Store32(..) | Instruction::CallIndirect(..)
        | Instruction::I64Store(..) | Instruction::I32Store8(..) | Instruction::GlobalGet(_)
        | Instruction::GlobalSet(_) => Step::Control,
        _ => Step::Float,
    }
}

/// How an instruction is carried out.
pub fn step_kind(i: Instruction) -> (r: Step)
    ensures
        r == step_of(i),
{
    match i {
        Instruction::I32Eqz => Step::Unary(IUnOp::Eqz),
        Instruction::I32Eq => Step::Binary(IBinOp::Eq),
        Instruction::I32Ne => Step::Binary(IBinOp::Ne),
        Instruction::I32LtS => Step::Binary(IBinOp::LtS),
        Instruction::I32LtU => Step::Binary(IBinOp::LtU),
        Instruction::I32GtS => Step::Binary(IBinOp::GtS),
        Instruction::I32GtU => Step::Binary(IBinOp::GtU),
        Instruction::I32LeS => Step::Binary(IBinOp::LeS),
        Instruction::I32LeU => Step::Binary(IBinOp::LeU),
        Instruction::I32GeS => Step::Binary(IBinOp::GeS),
        Instruction::I32GeU => Step::Binary(IBinOp::GeU),
        Instruction::I32Clz => Step::Unary(IUnOp::Clz),
        Instruction::I32Ctz => Step::Unary(IUnOp::Ctz),
        Instruction::I32Popcnt => Step::Unary(IUnOp::Popcnt),
        Instruction::I32Add => Step::Binary(IBinOp::Add),
        Instruction::I32Sub => Step::Binary(IBinOp::Sub),
        Instruction::I32Mul => Step::Binary(IBinOp::Mul),
        Instruction::I32DivS => Step::Binary(IBinOp::DivS),
        Instruction::I32DivU => Step::Binary(IBinOp::DivU),
        Instruction::I32RemS => Step::Binary(IBinOp::RemS),
        Instruction::I32RemU => Step::Binary(IBinOp::RemU),
        Instruction::I32And => Step::Binary(IBinOp::And),
        Instruction::I32Or => Step::Binary(IBinOp::Or),
        Instruction::I32Xor => Step::Binary(IBinOp::Xor),
        Instruction::I32ShL => Step::Binary(IBinOp::Shl),
        Instruction::I32ShrS => Step::Binary(IBinOp::ShrS),
        Instruction::I32ShrU => Step::Binary(IBinOp::ShrU),
        Instruction::I32RtoL => Step::Binary(IBinOp::Rotl),
        Instruction::I32RtoR => Step::Binary(IBinOp::Rotr),
        Instruction::I32Extend8S => Step::Unary(IUnOp::Extend8S),
        Instruction::I32Extend16S => Step::Unary(IUnOp::Extend16S),
        Instruction::I64Eqz => Step::Unary(IUnOp::Eqz),
        Instruction::I64Eq => Step::Binary(IBinOp::Eq),
        Instruction::I64Ne => Step::Binary(IBinOp::Ne),
        Instruction::I64LtS => Step::Binary(IBinOp::LtS),
        Instruction::I64LtU => Step::Binary(IBinOp::LtU),
        Instruction::I64GtS => Step::Binary(IBinOp::GtS),
        Instruction::I64GtU => Step::Binary(IBinOp::GtU),
        Instruction::I64LeS => Step::Binary(IBinOp::LeS),
        Instruction::I64LeU => Step::Binary(IBinOp::LeU),
        Instruction::I64GeS => Step::Binary(IBinOp::GeS),
        Instruction::I64GeU => Step::Binary(IBinOp::GeU),
        Instruction::I64Clz => Step::Unary(IUnOp::Clz),
        Instruction::I64Ctz => Step::Unary(IUnOp::Ctz),
        Instruction::I64Popcnt => Step::Unary(IUnOp::Popcnt),
        Instruction::I64Add => Step::Binary(IBinOp::Add),
        Instruction::I64Sub => Step::Binary(IBinOp::Sub),
        Instruction::I64Mul => Step::Binary(IBinOp::Mul),
        Instruction::I64DivS => Step::Binary(IBinOp::DivS),
        Instruction::I64DivU => Step::Binary(IBinOp::DivU),
        Instruction::I64RemS => Step::Binary(IBinOp::RemS),
        Instruction::I64RemU => Step::Binary(IBinOp::RemU),
        Instruction::I64And => Step::Binary(IBinOp::And),
        Instruction::I64Or => Step::Binary(IBinOp::Or),
        Instruction::I64Xor => Step::Binary(IBinOp::Xor),
        Instruction::I64ShL => Step::Binary(IBinOp::Shl),
        Instruction::I64ShrS => Step::Binary(IBinOp::ShrS),
        Instruction::I64ShrU => Step::Binary(IBinOp::ShrU),
        Instruction::I64RtoL => Step::Binary(IBinOp::Rotl),
        Instruction::I64RtoR => Step::Binary(IBinOp::Rotr),
        Instruction::I64Extend8S => Step::Unary(IUnOp::Extend8S),
        Instruction::I64Extend16S => Step::Unary(IUnOp::Extend16S),
        Instruction::I64Extend32S => Step::Unary(IUnOp::Extend32S),
        Instruction::Unreachable => Step::Trap(Trap::Unreachable),
        Instruction::Nop => Step::Nop,
        Instruction::LocalGet(x) => Step::LocalGet(x),
        Instruction::I32Const(v) => Step::Push(Value::I32(v)),
        Instruction::I64Const(v) => Step::Push(Value::I64(v)),
        Instruction::F32Const(bits) => Step::Push(Value::F32(bits)),
        Instruction::Call(_) | Instruction::Return | Instruction::If(_) | Instruction::Else
        | Instruction::End | Instruction::MemorySize | Instruction::MemoryGrow | Instruction::Block(_) | Instruction::Loop(_)
        | Instruction::Br(_) | Instruction::BrIf(_) | Instruction::BrTable(_) | Instruction::BrTarget(_) | Instruction::Drop | Instruction::Select
        | Instruction::LocalSet(_) | Instruction::LocalTee(_) | Instruction::I32Load(..)
        | Instruction::I64Load(..) | Instruction::I32Load8U(..) | Instruction::I32Store(..) | Instruction::I32Load8S(..) | Instruction::I32Load16S(..) | Instruction::I32Load16U(..) | Instruction::I64Load8S(..) | Instruction::I64Load8U(..) | Instruction::I64Load16S(..) | Instruction::I64Load16U(..) | Instruction::I64Load32S(..) | Instruction::I64Load32U(..) | Instruction::I32Store16(..) | Instruction::I64Store8(..) | Instruction::I64Store16(..) | Instruction::I64Store32(..) | Instruction::CallIndirect(..)
        | Instruction::I64Store(..) | Instruction::I32Store8(..) | Instruction::GlobalGet(_)
        | Instruction::GlobalSet(_) => Step::Control,
        _ => Step::Float,
    }
}

/// Executes one instruction that works on the operand stack and locals
/// alone. Returns `Ok(false)`, changing nothing, for a control instruction,
/// which the caller carries out.
pub fn step(runtime: &mut Runtime, instr: Instruction) -> (r: Result<bool, Error>)
    ensures
        final(runtime).frames == old(runtime).frames,
        match step_of(instr) {
            Step::Binary(op) => {
                let (res, s) = binary_step(old(runtime).stack@, op);
                &&& final(runtime).stack@ == s
                &&& r == (match res {
                    Ok(_) => Ok::<bool, Error>(true),
                    Err(e) => Err(e),
                })
            },
            Step::Unary(op) => {
                let (res, s) = unary_step(old(runtime).stack@, op);
                &&& final(runtime).stack@ == s
                &&& r == (match res {
                    Ok(_) => Ok::<bool, Error>(true),
                    Err(e) => Err(e),
                })
            },
            Step::Push(v) => r == Ok::<bool, Error>(true) && final(runtime).stack@ == old(
                runtime,
            ).stack@.push(v),
            Step::LocalGet(x) => if old(runtime).frames@.len() == 0 {
                r == Err::<bool, Error>(Error::NoFrame) && final(runtime).stack == old(runtime).stack
            } else if x < old(runtime).frames@.last().local_stack@.len() {
                r == Ok::<bool, Error>(true) && final(runtime).stack@ == old(runtime).stack@.push(
                    old(runtime).frames@.last().local_stack@[x as int],
                )
            } else {
                r == Err::<bool, Error>(Error::LocalNotFound) && final(runtime).stack
                    == old(runtime).stack
            },
            Step::Nop => r == Ok::<bool, Error>(true) && final(runtime).stack == old(runtime).stack,
            Step::Trap(t) => r == Err::<bool, Error>(Error::Trap(t)) && final(runtime).stack
                == old(runtime).stack,
            Step::Float => r == Err::<bool, Error>(Error::Unsupported) && final(runtime).stack
                == old(runtime).stack,
            Step::Control => r == Ok::<bool, Error>(false) && final(runtime).stack
                == old(runtime).stack,
        },
{
    match step_kind(instr) {
        Step::Binary(op) => {
            binary(runtime, op)?;
            Ok(true)
        },
        Step::Unary(op) => {
            unary(runtime, op)?;
            Ok(true)
        },
        Step::Push(v) => {
            runtime.stack.push(v);
            Ok(true)
        },
        Step::LocalGet(x) => {
            local_get(runtime, x as usize)?;
            Ok(true)
        },
        Step::Nop => Ok(true),
        Step::Trap(t) => Err(Error::Trap(t)),
        Step::Float => Err(Error::Unsupported),
        Step::Control => Ok(false),
    }
}

} // verus!
