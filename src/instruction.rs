use vstd::prelude::*;
use crate::control::ValueType;
use crate::module::{decode_value_type, value_type_of};
use crate::leb128::{i32_at, i64_at, read_i32, read_i64, read_u32, u32_at, DecodeError};
use crate::memory::{le_value, read_le};
use crate::opcode::{opcode_of, Opcode};

verus! {

/// A decoded instruction with its immediate operands. The `f32` constant is
/// carried as its raw bits.
#[derive(Debug, Clone, Copy, PartialEq, Eq, Structural)]
pub enum Instruction {
    Unreachable,
    Nop,
    /// A block with its result type (`None` for no result).
    Block(Option<ValueType>),
    Loop(Option<ValueType>),
    Br(u32),
    /// `br_table` with the number of its labels; the labels follow as
    /// `BrTarget` entries, the default last.
    BrTable(u32),
    BrTarget(u32),
    BrIf(u32),
    Drop,
    Select,
    LocalSet(u32),
    LocalTee(u32),
    GlobalGet(u32),
    GlobalSet(u32),
    /// A memory access with its alignment hint and its offset.
    I32Load(u32, u32),
    I64Load(u32, u32),
    I32Load8U(u32, u32),
    I32Load8S(u32, u32),
    I32Load16S(u32, u32),
    I32Load16U(u32, u32),
    I64Load8S(u32, u32),
    I64Load8U(u32, u32),
    I64Load16S(u32, u32),
    I64Load16U(u32, u32),
    I64Load32S(u32, u32),
    I64Load32U(u32, u32),
    I32Store16(u32, u32),
    I64Store8(u32, u32),
    I64Store16(u32, u32),
    I64Store32(u32, u32),
    /// `call_indirect` with its type index and table index.
    CallIndirect(u32, u32),
    I32Store(u32, u32),
    I64Store(u32, u32),
    I32Store8(u32, u32),
    LocalGet(u32),
    Call(u32),
    I32Const(i32),
    I32Eqz,
    I32Eq,
    I32Ne,
    I32LtS,
    I32LtU,
    I32GtS,
    I32GtU,
    I32LeS,
    I32LeU,
    I32GeS,
    I32GeU,
    I32Clz,
    I32Ctz,
    I32Popcnt,
    I32Add,
    I32Sub,
    I32Mul,
    I32DivS,
    I32DivU,
    I32RemS,
    I32RemU,
    I32And,
    I32Or,
    I32Xor,
    I32ShL,
    I32ShrS,
    I32ShrU,
    I32RtoL,
    I32RtoR,
    I32Extend8S,
    I32Extend16S,
    I64Const(i64),
    I64Eqz,
    I64Eq,
    I64Ne,
    I64LtS,
    I64LtU,
    I64GtS,
    I64GtU,
    I64LeS,
    I64LeU,
    I64GeS,
    I64GeU,
    I64Clz,
    I64Ctz,
    I64Popcnt,
    I64Add,
    I64Sub,
    I64Mul,
    I64DivS,
    I64DivU,
    I64RemS,
    I64RemU,
    I64And,
    I64Or,
    I64Xor,
    I64ShL,
    I64ShrS,
    I64ShrU,
    I64RtoL,
    I64RtoR,
    I64Extend8S,
    I64Extend16S,
    I64Extend32S,
    F32Const(u32),
    F32Eq,
    F32Ne,
    F32Lt,
    F32Gt,
    F32Le,
    F32Ge,
    F32Abs,
    F32Neg,
    F32Ceil,
    F32Floor,
    F32Trunc,
    F32Nearest,
    F32Sqrt,
    F32Add,
    F32Sub,
    F32Mul,
    F32Div,
    F32Min,
    F32Max,
    F32Copysign,
    F64Eq,
    F64Ne,
    F64Lt,
    F64Gt,
    F64Le,
    F64Ge,
    Return,
    If(Option<ValueType>),
    Else,
    End,
    /// `memory.size` and `memory.grow` on memory 0.
    MemorySize,
    MemoryGrow,
}

/// The instruction of an opcode that takes no immediate operand.
pub open spec fn plain_instruction(op: Opcode) -> Instruction {
    match op {
        Opcode::Unreachable => Instruction::Unreachable,
        Opcode::Nop => Instruction::Nop,
        Opcode::Drop => Instruction::Drop,
        Opcode::Select => Instruction::Select,
        Opcode::I32Eqz => Instruction::I32Eqz,
        Opcode::I32Eq => Instruction::I32Eq,
        Opcode::I32Ne => Instruction::I32Ne,
        Opcode::I32LtS => Instruction::I32LtS,
        Opcode::I32LtU => Instruction::I32LtU,
        Opcode::I32GtS => Instruction::I32GtS,
        Opcode::I32GtU => Instruction::I32GtU,
        Opcode::I32LeS => Instruction::I32LeS,
        Opcode::I32LeU => Instruction::I32LeU,
        Opcode::I32GeS => Instruction::I32GeS,
        Opcode::I32GeU => Instruction::I32GeU,
        Opcode::I32Add => Instruction::I32Add,
        Opcode::I32Sub => Instruction::I32Sub,
        Opcode::I32Mul => Instruction::I32Mul,
        Opcode::I32Clz => Instruction::I32Clz,
        Opcode::I32Ctz => Instruction::I32Ctz,
        Opcode::I32Popcnt => Instruction::I32Popcnt,
        Opcode::I32DivS => Instruction::I32DivS,
        Opcode::I32DivU => Instruction::I32DivU,
        Opcode::I32RemS => Instruction::I32RemS,
        Opcode::I32RemU => Instruction::I32RemU,
        Opcode::I32And => Instruction::I32And,
        Opcode::I32Or => Instruction::I32Or,
        Opcode::I32Xor => Instruction::I32Xor,
        Opcode::I32ShL => Instruction::I32ShL,
        Opcode::I32ShrS => Instruction::I32ShrS,
        Opcode::I32ShrU => Instruction::I32ShrU,
        Opcode::I32RtoL => Instruction::I32RtoL,
        Opcode::I32RtoR => Instruction::I32RtoR,
        Opcode::I32Extend8S => Instruction::I32Extend8S,
        Opcode::I32Extend16S => Instruction::I32Extend16S,
        Opcode::I64Eqz => Instruction::I64Eqz,
        Opcode::I64Eq => Instruction::I64Eq,
        Opcode::I64Ne => Instruction::I64Ne,
        Opcode::I64LtS => Instruction::I64LtS,
        Opcode::I64LtU => Instruction::I64LtU,
        Opcode::I64GtS => Instruction::I64GtS,
        Opcode::I64GtU => Instruction::I64GtU,
        Opcode::I64LeS => Instruction::I64LeS,
        Opcode::I64LeU => Instruction::I64LeU,
        Opcode::I64GeS => Instruction::I64GeS,
        Opcode::I64GeU => Instruction::I64GeU,
        Opcode::I64Clz => Instruction::I64Clz,
        Opcode::I64Ctz => Instruction::I64Ctz,
        Opcode::I64Popcnt => Instruction::I64Popcnt,
        Opcode::I64Add => Instruction::I64Add,
        Opcode::I64Sub => Instruction::I64Sub,
        Opcode::I64Mul => Instruction::I64Mul,
        Opcode::I64DivS => Instruction::I64DivS,
        Opcode::I64DivU => Instruction::I64DivU,
        Opcode::I64RemS => Instruction::I64RemS,
        Opcode::I64RemU => Instruction::I64RemU,
        Opcode::I64And => Instruction::I64And,
        Opcode::I64Or => Instruction::I64Or,
        Opcode::I64Xor => Instruction::I64Xor,
        Opcode::I64ShL => Instruction::I64ShL,
        Opcode::I64ShrS => Instruction::I64ShrS,
        Opcode::I64ShrU => Instruction::I64ShrU,
        Opcode::I64RtoL => Instruction::I64RtoL,
        Opcode::I64RtoR => Instruction::I64RtoR,
        Opcode::I64Extend8S => Instruction::I64Extend8S,
        Opcode::I64Extend16S => Instruction::I64Extend16S,
        Opcode::I64Extend32S => Instruction::I64Extend32S,
        Opcode::F32Eq => Instruction::F32Eq,
        Opcode::F32Ne => Instruction::F32Ne,
        Opcode::F32Lt => Instruction::F32Lt,
        Opcode::F32Gt => Instruction::F32Gt,
        Opcode::F32Le => Instruction::F32Le,
        Opcode::F32Ge => Instruction::F32Ge,
        Opcode::F32Abs => Instruction::F32Abs,
        Opcode::F32Neg => Instruction::F32Neg,
        Opcode::F32Ceil => Instruction::F32Ceil,
        Opcode::F32Floor => Instruction::F32Floor,
        Opcode::F32Trunc => Instruction::F32Trunc,
        Opcode::F32Nearest => Instruction::F32Nearest,
        Opcode::F32Sqrt => Instruction::F32Sqrt,
        Opcode::F32Add => Instruction::F32Add,
        Opcode::F32Sub => Instruction::F32Sub,
        Opcode::F32Mul => Instruction::F32Mul,
        Opcode::F32Div => Instruction::F32Div,
        Opcode::F32Min => Instruction::F32Min,
        Opcode::F32Max => Instruction::F32Max,
        Opcode::F64Eq => Instruction::F64Eq,
        Opcode::F64Ne => Instruction::F64Ne,
        Opcode::F64Lt => Instruction::F64Lt,
        Opcode::F64Gt => Instruction::F64Gt,
        Opcode::F64Le => Instruction::F64Le,
        Opcode::F64Ge => Instruction::F64Ge,
        Opcode::F32Copysign => Instruction::F32Copysign,
        Opcode::Return => Instruction::Return,
        Opcode::Else => Instruction::Else,
        Opcode::End => Instruction::End,
        _ => Instruction::Nop,
    }
}

/// The block type that a byte encodes: `Some(None)` for the empty type
/// `0x40`, `Some(Some(t))` for one value type.
pub open spec fn block_type_of(b: u8) -> Option<Option<ValueType>> {
    if b == 0x40 {
        Some(None)
    } else {
        match value_type_of(b) {
            Some(t) => Some(Some(t)),
            None => None,
        }
    }
}

/// The block type at `pos`, and the position after it.
pub open spec fn block_type_at(s: Seq<u8>, pos: int) -> Result<(Option<ValueType>, int), DecodeError> {
    if pos < 0 || pos >= s.len() {
        Err(DecodeError::TruncatedInput)
    } else {
        match block_type_of(s[pos]) {
            Some(bt) => Ok((bt, pos + 1)),
            None => Err(DecodeError::BadValueType),
        }
    }
}

/// Two LEB128 `u32` immediates at `pos`: for a memory access the alignment
/// hint and the offset, for `call_indirect` the type and table indices.
pub open spec fn memarg_at(s: Seq<u8>, pos: int) -> Result<((u32, u32), int), DecodeError> {
    match u32_at(s, pos) {
        Ok((a, p)) => match u32_at(s, p) {
            Ok((o, e)) => Ok(((a, o), e)),
            Err(x) => Err(x),
        },
        Err(x) => Err(x),
    }
}

/// The instruction that starts at `pos`, and the position after it.
pub open spec fn decode_instruction_spec(s: Seq<u8>, pos: int) -> Result<(Instruction, int), DecodeError> {
    if pos < 0 || pos >= s.len() {
        Err(DecodeError::TruncatedInput)
    } else {
        match opcode_of(s[pos]) {
            None => Err(DecodeError::UnknownOpcode),
            Some(op) => match op {
                Opcode::LocalGet => match u32_at(s, pos + 1) {
                    Ok((v, e)) => Ok((Instruction::LocalGet(v), e)),
                    Err(x) => Err(x),
                },
                Opcode::Call => match u32_at(s, pos + 1) {
                    Ok((v, e)) => Ok((Instruction::Call(v), e)),
                    Err(x) => Err(x),
                },
                Opcode::I32Const => match i32_at(s, pos + 1) {
                    Ok((v, e)) => Ok((Instruction::I32Const(v), e)),
                    Err(x) => Err(x),
                },
                Opcode::I64Const => match i64_at(s, pos + 1) {
                    Ok((v, e)) => Ok((Instruction::I64Const(v), e)),
                    Err(x) => Err(x),
                },
                Opcode::F32Const => if pos + 5 > s.len() {
                    Err(DecodeError::TruncatedInput)
                } else {
                    Ok((Instruction::F32Const(le_value(s.subrange(pos + 1, pos + 5)) as u32), pos + 5))
                },
                Opcode::If => match block_type_at(s, pos + 1) {
                    Ok((bt, e)) => Ok((Instruction::If(bt), e)),
                    Err(x) => Err(x),
                },
                Opcode::Block => match block_type_at(s, pos + 1) {
                    Ok((bt, e)) => Ok((Instruction::Block(bt), e)),
                    Err(x) => Err(x),
                },
                Opcode::Loop => match block_type_at(s, pos + 1) {
                    Ok((bt, e)) => Ok((Instruction::Loop(bt), e)),
                    Err(x) => Err(x),
                },
                Opcode::BrTable => match u32_at(s, pos + 1) {
                    Ok((v, e)) => Ok((Instruction::BrTable(v), e)),
                    Err(x) => Err(x),
                },
                Opcode::Br => match u32_at(s, pos + 1) {
                    Ok((v, e)) => Ok((Instruction::Br(v), e)),
                    Err(x) => Err(x),
                },
                Opcode::BrIf => match u32_at(s, pos + 1) {
                    Ok((v, e)) => Ok((Instruction::BrIf(v), e)),
                    Err(x) => Err(x),
                },
                Opcode::LocalSet => match u32_at(s, pos + 1) {
                    Ok((v, e)) => Ok((Instruction::LocalSet(v), e)),
                    Err(x) => Err(x),
                },
                Opcode::LocalTee => match u32_at(s, pos + 1) {
                    Ok((v, e)) => Ok((Instruction::LocalTee(v), e)),
                    Err(x) => Err(x),
                },
                Opcode::I32Load => match memarg_at(s, pos + 1) {
                    Ok(((a, o), e)) => Ok((Instruction::I32Load(a, o), e)),
                    Err(x) => Err(x),
                },
                Opcode::I64Load => match memarg_at(s, pos + 1) {
                    Ok(((a, o), e)) => Ok((Instruction::I64Load(a, o), e)),
                    Err(x) => Err(x),
                },
                Opcode::I32Load8U => match memarg_at(s, pos + 1) {
                    Ok(((a, o), e)) => Ok((Instruction::I32Load8U(a, o), e)),
                    Err(x) => Err(x),
                },
                Opcode::I32Store => match memarg_at(s, pos + 1) {
                    Ok(((a, o), e)) => Ok((Instruction::I32Store(a, o), e)),
                    Err(x) => Err(x),
                },
                Opcode::I64Store => match memarg_at(s, pos + 1) {
                    Ok(((a, o), e)) => Ok((Instruction::I64Store(a, o), e)),
                    Err(x) => Err(x),
                },
                Opcode::I32Store8 => match memarg_at(s, pos + 1) {
                    Ok(((a, o), e)) => Ok((Instruction::I32Store8(a, o), e)),
                    Err(x) => Err(x),
                },
                Opcode::GlobalGet => match u32_at(s, pos + 1) {
                    Ok((v, e)) => Ok((Instruction::GlobalGet(v), e)),
                    Err(x) => Err(x),
                },
                Opcode::GlobalSet => match u32_at(s, pos + 1) {
                    Ok((v, e)) => Ok((Instruction::GlobalSet(v), e)),
                    Err(x) => Err(x),
                },
                Opcode::MemorySize | Opcode::MemoryGrow => if pos + 1 >= s.len() {
                    Err(DecodeError::TruncatedInput)
                } else if s[pos + 1] != 0 {
                    Err(DecodeError::BadIndex)
                } else {
                    Ok((if op == Opcode::MemorySize { Instruction::MemorySize } else { Instruction::MemoryGrow }, pos + 2))
                },
                Opcode::I32Load8S => match memarg_at(s, pos + 1) {
                    Ok(((a, o), e)) => Ok((Instruction::I32Load8S(a, o), e)),
                    Err(x) => Err(x),
                },
                Opcode::I32Load16S => match memarg_at(s, pos + 1) {
                    Ok(((a, o), e)) => Ok((Instruction::I32Load16S(a, o), e)),
                    Err(x) => Err(x),
                },
                Opcode::I32Load16U => match memarg_at(s, pos + 1) {
                    Ok(((a, o), e)) => Ok((Instruction::I32Load16U(a, o), e)),
                    Err(x) => Err(x),
                },
                Opcode::I64Load8S => match memarg_at(s, pos + 1) {
                    Ok(((a, o), e)) => Ok((Instruction::I64Load8S(a, o), e)),
                    Err(x) => Err(x),
                },
                Opcode::I64Load8U => match memarg_at(s, pos + 1) {
                    Ok(((a, o), e)) => Ok((Instruction::I64Load8U(a, o), e)),
                    Err(x) => Err(x),
                },
                Opcode::I64Load16S => match memarg_at(s, pos + 1) {
                    Ok(((a, o), e)) => Ok((Instruction::I64Load16S(a, o), e)),
                    Err(x) => Err(x),
                },
                Opcode::I64Load16U => match memarg_at(s, pos + 1) {
                    Ok(((a, o), e)) => Ok((Instruction::I64Load16U(a, o), e)),
                    Err(x) => Err(x),
                },
                Opcode::I64Load32S => match memarg_at(s, pos + 1) {
                    Ok(((a, o), e)) => Ok((Instruction::I64Load32S(a, o), e)),
                    Err(x) => Err(x),
                },
                Opcode::I64Load32U => match memarg_at(s, pos + 1) {
                    Ok(((a, o), e)) => Ok((Instruction::I64Load32U(a, o), e)),
                    Err(x) => Err(x),
                },
                Opcode::I32Store16 => match memarg_at(s, pos + 1) {
                    Ok(((a, o), e)) => Ok((Instruction::I32Store16(a, o), e)),
                    Err(x) => Err(x),
                },
                Opcode::I64Store8 => match memarg_at(s, pos + 1) {
                    Ok(((a, o), e)) => Ok((Instruction::I64Store8(a, o), e)),
                    Err(x) => Err(x),
                },
                Opcode::I64Store16 => match memarg_at(s, pos + 1) {
                    Ok(((a, o), e)) => Ok((Instruction::I64Store16(a, o), e)),
                    Err(x) => Err(x),
                },
                Opcode::I64Store32 => match memarg_at(s, pos + 1) {
                    Ok(((a, o), e)) => Ok((Instruction::I64Store32(a, o), e)),
                    Err(x) => Err(x),
                },
                Opcode::CallIndirect => match memarg_at(s, pos + 1) {
                    Ok(((a, o), e)) => Ok((Instruction::CallIndirect(a, o), e)),
                    Err(x) => Err(x),
                },
                _ => Ok((plain_instruction(op), pos + 1)),
            },
        }
    }
}

/// Reads a block type byte.
pub fn read_block_type(bytes: &Vec<u8>, pos: usize) -> (r: Result<(Option<ValueType>, usize), DecodeError>)
    ensures
        match block_type_at(bytes@, pos as int) {
            Ok((bt, e)) => r == Ok::<(Option<ValueType>, usize), DecodeError>((bt, e as usize)) && e == e as usize,
            Err(x) => r == Err::<(Option<ValueType>, usize), DecodeError>(x),
        },
{
    if pos >= bytes.len() {
        return Err(DecodeError::TruncatedInput);
    }
    let b = bytes[pos];
    if b == 0x40 {
        return Ok((None, pos + 1));
    }
    match decode_value_type(b) {
        Ok(t) => Ok((Some(t), pos + 1)),
        Err(_) => Err(DecodeError::BadValueType),
    }
}

/// Reads a memory argument: the alignment hint, then the offset.
pub fn read_memarg(bytes: &Vec<u8>, pos: usize) -> (r: Result<(u32, u32, usize), DecodeError>)
    ensures
        match memarg_at(bytes@, pos as int) {
            Ok(((a, o), e)) => r == Ok::<(u32, u32, usize), DecodeError>((a, o, e as usize)) && e == e as usize,
            Err(x) => r == Err::<(u32, u32, usize), DecodeError>(x),
        },
{
    let (a, p) = match read_u32(bytes, pos) {
        Ok(x) => x,
        Err(x) => return Err(x),
    };
    let (o, e) = match read_u32(bytes, p) {
        Ok(x) => x,
        Err(x) => return Err(x),
    };
    Ok((a, o, e))
}

fn plain(op: Opcode) -> (r: Instruction)
    ensures
        r == plain_instruction(op),
{
    match op {
        Opcode::Unreachable => Instruction::Unreachable,
        Opcode::Nop => Instruction::Nop,
        Opcode::Drop => Instruction::Drop,
        Opcode::Select => Instruction::Select,
        Opcode::I32Eqz => Instruction::I32Eqz,
        Opcode::I32Eq => Instruction::I32Eq,
        Opcode::I32Ne => Instruction::I32Ne,
        Opcode::I32LtS => Instruction::I32LtS,
        Opcode::I32LtU => Instruction::I32LtU,
        Opcode::I32GtS => Instruction::I32GtS,
        Opcode::I32GtU => Instruction::I32GtU,
        Opcode::I32LeS => Instruction::I32LeS,
        Opcode::I32LeU => Instruction::I32LeU,
        Opcode::I32GeS => Instruction::I32GeS,
        Opcode::I32GeU => Instruction::I32GeU,
        Opcode::I32Add => Instruction::I32Add,
        Opcode::I32Sub => Instruction::I32Sub,
        Opcode::I32Mul => Instruction::I32Mul,
        Opcode::I32Clz => Instruction::I32Clz,
        Opcode::I32Ctz => Instruction::I32Ctz,
        Opcode::I32Popcnt => Instruction::I32Popcnt,
        Opcode::I32DivS => Instruction::I32DivS,
        Opcode::I32DivU => Instruction::I32DivU,
        Opcode::I32RemS => Instruction::I32RemS,
        Opcode::I32RemU => Instruction::I32RemU,
        Opcode::I32And => Instruction::I32And,
        Opcode::I32Or => Instruction::I32Or,
        Opcode::I32Xor => Instruction::I32Xor,
        Opcode::I32ShL => Instruction::I32ShL,
        Opcode::I32ShrS => Instruction::I32ShrS,
        Opcode::I32ShrU => Instruction::I32ShrU,
        Opcode::I32RtoL => Instruction::I32RtoL,
        Opcode::I32RtoR => Instruction::I32RtoR,
        Opcode::I32Extend8S => Instruction::I32Extend8S,
        Opcode::I32Extend16S => Instruction::I32Extend16S,
        Opcode::I64Eqz => Instruction::I64Eqz,
        Opcode::I64Eq => Instruction::I64Eq,
        Opcode::I64Ne => Instruction::I64Ne,
        Opcode::I64LtS => Instruction::I64LtS,
        Opcode::I64LtU => Instruction::I64LtU,
        Opcode::I64GtS => Instruction::I64GtS,
        Opcode::I64GtU => Instruction::I64GtU,
        Opcode::I64LeS => Instruction::I64LeS,
        Opcode::I64LeU => Instruction::I64LeU,
        Opcode::I64GeS => Instruction::I64GeS,
        Opcode::I64GeU => Instruction::I64GeU,
        Opcode::I64Clz => Instruction::I64Clz,
        Opcode::I64Ctz => Instruction::I64Ctz,
        Opcode::I64Popcnt => Instruction::I64Popcnt,
        Opcode::I64Add => Instruction::I64Add,
        Opcode::I64Sub => Instruction::I64Sub,
        Opcode::I64Mul => Instruction::I64Mul,
        Opcode::I64DivS => Instruction::I64DivS,
        Opcode::I64DivU => Instruction::I64DivU,
        Opcode::I64RemS => Instruction::I64RemS,
        Opcode::I64RemU => Instruction::I64RemU,
        Opcode::I64And => Instruction::I64And,
        Opcode::I64Or => Instruction::I64Or,
        Opcode::I64Xor => Instruction::I64Xor,
        Opcode::I64ShL => Instruction::I64ShL,
        Opcode::I64ShrS => Instruction::I64ShrS,
        Opcode::I64ShrU => Instruction::I64ShrU,
        Opcode::I64RtoL => Instruction::I64RtoL,
        Opcode::I64RtoR => Instruction::I64RtoR,
        Opcode::I64Extend8S => Instruction::I64Extend8S,
        Opcode::I64Extend16S => Instruction::I64Extend16S,
        Opcode::I64Extend32S => Instruction::I64Extend32S,
        Opcode::F32Eq => Instruction::F32Eq,
        Opcode::F32Ne => Instruction::F32Ne,
        Opcode::F32Lt => Instruction::F32Lt,
        Opcode::F32Gt => Instruction::F32Gt,
        Opcode::F32Le => Instruction::F32Le,
        Opcode::F32Ge => Instruction::F32Ge,
        Opcode::F32Abs => Instruction::F32Abs,
        Opcode::F32Neg => Instruction::F32Neg,
        Opcode::F32Ceil => Instruction::F32Ceil,
        Opcode::F32Floor => Instruction::F32Floor,
        Opcode::F32Trunc => Instruction::F32Trunc,
        Opcode::F32Nearest => Instruction::F32Nearest,
        Opcode::F32Sqrt => Instruction::F32Sqrt,
        Opcode::F32Add => Instruction::F32Add,
        Opcode::F32Sub => Instruction::F32Sub,
        Opcode::F32Mul => Instruction::F32Mul,
        Opcode::F32Div => Instruction::F32Div,
        Opcode::F32Min => Instruction::F32Min,
        Opcode::F32Max => Instruction::F32Max,
        Opcode::F64Eq => Instruction::F64Eq,
        Opcode::F64Ne => Instruction::F64Ne,
        Opcode::F64Lt => Instruction::F64Lt,
        Opcode::F64Gt => Instruction::F64Gt,
        Opcode::F64Le => Instruction::F64Le,
        Opcode::F64Ge => Instruction::F64Ge,
        Opcode::F32Copysign => Instruction::F32Copysign,
        Opcode::Return => Instruction::Return,
        Opcode::Else => Instruction::Else,
        Opcode::End => Instruction::End,
        _ => Instruction::Nop,
    }
}

/// Decodes the instruction that starts at `pos`; returns it with the
/// position after it.
pub fn decode_instruction(bytes: &Vec<u8>, pos: usize) -> (r: Result<(Instruction, usize), DecodeError>)
    ensures
        match decode_instruction_spec(bytes@, pos as int) {
            Ok((i, e)) => r == Ok::<(Instruction, usize), DecodeError>((i, e as usize)) && e == e as usize,
            Err(x) => r == Err::<(Instruction, usize), DecodeError>(x),
        },
{
    if pos >= bytes.len() {
        return Err(DecodeError::TruncatedInput);
    }
    let op = match Opcode::from_u8(bytes[pos]) {
        Some(op) => op,
        None => return Err(DecodeError::UnknownOpcode),
    };
    assert(opcode_of(bytes@[pos as int]) == Some(op));
    match op {
        Opcode::LocalGet => {
            let (v, e) = read_u32(bytes, pos + 1)?;
            Ok((Instruction::LocalGet(v), e))
        },
        Opcode::Call => {
            let (v, e) = read_u32(bytes, pos + 1)?;
            Ok((Instruction::Call(v), e))
        },
        Opcode::I32Const => {
            let (v, e) = read_i32(bytes, pos + 1)?;
            Ok((Instruction::I32Const(v), e))
        },
        Opcode::I64Const => {
            let (v, e) = read_i64(bytes, pos + 1)?;
            Ok((Instruction::I64Const(v), e))
        },
        Opcode::F32Const => {
            if bytes.len() - pos < 5 {
                return Err(DecodeError::TruncatedInput);
            }
            let bits = read_le(bytes, pos + 1, 4);
            proof {
                crate::memory::lemma_pow256_le_8(4);
                reveal_with_fuel(crate::memory::pow256, 5);
            }
            assert(decode_instruction_spec(bytes@, pos as int) == Ok::<(Instruction, int), DecodeError>((Instruction::F32Const(bits as u32), pos + 5)));
            Ok((Instruction::F32Const(bits as u32), pos + 5))
        },
        Opcode::If => {
            let (bt, e) = read_block_type(bytes, pos + 1)?;
            Ok((Instruction::If(bt), e))
        },
        Opcode::Block => {
            let (bt, e) = read_block_type(bytes, pos + 1)?;
            Ok((Instruction::Block(bt), e))
        },
        Opcode::Loop => {
            let (bt, e) = read_block_type(bytes, pos + 1)?;
            Ok((Instruction::Loop(bt), e))
        },
        Opcode::BrTable => {
            let (v, e) = read_u32(bytes, pos + 1)?;
            Ok((Instruction::BrTable(v), e))
        },
        Opcode::Br => {
            let (v, e) = read_u32(bytes, pos + 1)?;
            Ok((Instruction::Br(v), e))
        },
        Opcode::BrIf => {
            let (v, e) = read_u32(bytes, pos + 1)?;
            Ok((Instruction::BrIf(v), e))
        },
        Opcode::LocalSet => {
            let (v, e) = read_u32(bytes, pos + 1)?;
            Ok((Instruction::LocalSet(v), e))
        },
        Opcode::LocalTee => {
            let (v, e) = read_u32(bytes, pos + 1)?;
            Ok((Instruction::LocalTee(v), e))
        },
        Opcode::I32Load => {
            let (a, o, e) = read_memarg(bytes, pos + 1)?;
            Ok((Instruction::I32Load(a, o), e))
        },
        Opcode::I64Load => {
            let (a, o, e) = read_memarg(bytes, pos + 1)?;
            Ok((Instruction::I64Load(a, o), e))
        },
        Opcode::I32Load8U => {
            let (a, o, e) = read_memarg(bytes, pos + 1)?;
            Ok((Instruction::I32Load8U(a, o), e))
        },
        Opcode::I32Store => {
            let (a, o, e) = read_memarg(bytes, pos + 1)?;
            Ok((Instruction::I32Store(a, o), e))
        },
        Opcode::I64Store => {
            let (a, o, e) = read_memarg(bytes, pos + 1)?;
            Ok((Instruction::I64Store(a, o), e))
        },
        Opcode::I32Store8 => {
            let (a, o, e) = read_memarg(bytes, pos + 1)?;
            Ok((Instruction::I32Store8(a, o), e))
        },
        Opcode::GlobalGet => {
            let (v, e) = read_u32(bytes, pos + 1)?;
            Ok((Instruction::GlobalGet(v), e))
        },
        Opcode::GlobalSet => {
            let (v, e) = read_u32(bytes, pos + 1)?;
            Ok((Instruction::GlobalSet(v), e))
        },
        Opcode::MemorySize | Opcode::MemoryGrow => {
            if bytes.len() - pos < 2 {
                return Err(DecodeError::TruncatedInput);
            }
            if bytes[pos + 1] != 0 {
                return Err(DecodeError::BadIndex);
            }
            Ok((if op == Opcode::MemorySize { Instruction::MemorySize } else { Instruction::MemoryGrow }, pos + 2))
        },
        Opcode::I32Load8S => {
            let (a, o, e) = read_memarg(bytes, pos + 1)?;
            Ok((Instruction::I32Load8S(a, o), e))
        },
        Opcode::I32Load16S => {
            let (a, o, e) = read_memarg(bytes, pos + 1)?;
            Ok((Instruction::I32Load16S(a, o), e))
        },
        Opcode::I32Load16U => {
            let (a, o, e) = read_memarg(bytes, pos + 1)?;
            Ok((Instruction::I32Load16U(a, o), e))
        },
        Opcode::I64Load8S => {
            let (a, o, e) = read_memarg(bytes, pos + 1)?;
            Ok((Instruction::I64Load8S(a, o), e))
        },
        Opcode::I64Load8U => {
            let (a, o, e) = read_memarg(bytes, pos + 1)?;
            Ok((Instruction::I64Load8U(a, o), e))
        },
        Opcode::I64Load16S => {
            let (a, o, e) = read_memarg(bytes, pos + 1)?;
            Ok((Instruction::I64Load16S(a, o), e))
        },
        Opcode::I64Load16U => {
            let (a, o, e) = read_memarg(bytes, pos + 1)?;
            Ok((Instruction::I64Load16U(a, o), e))
        },
        Opcode::I64Load32S => {
            let (a, o, e) = read_memarg(bytes, pos + 1)?;
            Ok((Instruction::I64Load32S(a, o), e))
        },
        Opcode::I64Load32U => {
            let (a, o, e) = read_memarg(bytes, pos + 1)?;
            Ok((Instruction::I64Load32U(a, o), e))
        },
        Opcode::I32Store16 => {
            let (a, o, e) = read_memarg(bytes, pos + 1)?;
            Ok((Instruction::I32Store16(a, o), e))
        },
        Opcode::I64Store8 => {
            let (a, o, e) = read_memarg(bytes, pos + 1)?;
            Ok((Instruction::I64Store8(a, o), e))
        },
        Opcode::I64Store16 => {
            let (a, o, e) = read_memarg(bytes, pos + 1)?;
            Ok((Instruction::I64Store16(a, o), e))
        },
        Opcode::I64Store32 => {
            let (a, o, e) = read_memarg(bytes, pos + 1)?;
            Ok((Instruction::I64Store32(a, o), e))
        },
        Opcode::CallIndirect => {
            let (a, o, e) = read_memarg(bytes, pos + 1)?;
            Ok((Instruction::CallIndirect(a, o), e))
        },
        _ => Ok((plain(op), pos + 1)),
    }
}

/// The instructions of a code body from `pos` to its end, where the first
/// `pending` entries are labels of a `br_table` (plain LEB128 numbers).
pub open spec fn decode_body_spec(s: Seq<u8>, pos: int, pending: nat) -> Result<Seq<Instruction>, DecodeError>
    decreases s.len() - pos,
{
    if pos >= s.len() {
        if pending > 0 { Err(DecodeError::TruncatedInput) } else { Ok(Seq::empty()) }
    } else {
        let next: Result<(Instruction, int), DecodeError> = if pending > 0 {
            match u32_at(s, pos) {
                Ok((l, e)) => Ok((Instruction::BrTarget(l), e)),
                Err(x) => Err(x),
            }
        } else {
            decode_instruction_spec(s, pos)
        };
        match next {
            Ok((i, e)) => if e <= pos || e > s.len() {
                Err(DecodeError::TruncatedInput)
            } else {
                let p2: nat = if pending > 0 {
                    (pending - 1) as nat
                } else {
                    match i {
                        Instruction::BrTable(n) => n as nat + 1,
                        _ => 0,
                    }
                };
                match decode_body_spec(s, e, p2) {
                    Ok(rest) => Ok(seq![i] + rest),
                    Err(x) => Err(x),
                }
            },
            Err(x) => Err(x),
        }
    }
}

pub open spec fn prepend(
    done: Seq<Instruction>,
    r: Result<Seq<Instruction>, DecodeError>,
) -> Result<Seq<Instruction>, DecodeError> {
    match r {
        Ok(rest) => Ok(done + rest),
        Err(x) => Err(x),
    }
}

/// Decodes a whole code body into its instruction list; `End` and `Else`
/// stay in the list as markers of the structured boundaries, and the labels
/// of a `br_table` follow it as `BrTarget` entries.
pub fn decode_body(body: &Vec<u8>) -> (r: Result<Vec<Instruction>, DecodeError>)
    ensures
        match decode_body_spec(body@, 0, 0) {
            Ok(v) => r matches Ok(w) && w@ == v,
            Err(x) => r == Err::<Vec<Instruction>, DecodeError>(x),
        },
{
    let mut out: Vec<Instruction> = Vec::new();
    let mut pos: usize = 0;
    let mut pending: u64 = 0;
    assert(out@ + Seq::<Instruction>::empty() =~= out@);
    while pos < body.len()
        invariant
            pos <= body@.len(),
            decode_body_spec(body@, 0, 0) == prepend(out@, decode_body_spec(body@, pos as int, pending as nat)),
        decreases body@.len() - pos,
    {
        let (i, e) = if pending > 0 {
            let (l, e) = match read_u32(body, pos) {
                Ok(x) => x,
                Err(x) => return Err(x),
            };
            (Instruction::BrTarget(l), e)
        } else {
            match decode_instruction(body, pos) {
                Ok(x) => x,
                Err(x) => return Err(x),
            }
        };
        if e <= pos || e > body.len() {
            return Err(DecodeError::TruncatedInput);
        }
        let p2: u64 = if pending > 0 {
            pending - 1
        } else {
            match i {
                Instruction::BrTable(n) => n as u64 + 1,
                _ => 0,
            }
        };
        proof {
            match decode_body_spec(body@, e as int, p2 as nat) {
                Ok(rest) => {
                    assert(out@ + (seq![i] + rest) =~= out@.push(i) + rest);
                },
                Err(x) => {},
            }
        }
        out.push(i);
        pos = e;
        pending = p2;
    }
    if pending > 0 {
        return Err(DecodeError::TruncatedInput);
    }
    assert(out@ + Seq::<Instruction>::empty() =~= out@);
    Ok(out)
}

} // verus!
