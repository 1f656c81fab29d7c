use vstd::prelude::*;

verus! {

/// The single-byte opcodes that the decoder recognises.
#[derive(Debug, Clone, Copy, PartialEq, Eq, Structural)]
pub enum Opcode {
    Unreachable,
    Nop,
    BrTable,
    I32Load8S,
    I32Load16S,
    I32Load16U,
    I64Load8S,
    I64Load8U,
    I64Load16S,
    I64Load16U,
    I64Load32S,
    I64Load32U,
    I32Store16,
    I64Store8,
    I64Store16,
    I64Store32,
    CallIndirect,
    GlobalGet,
    GlobalSet,
    I32Load,
    I64Load,
    I32Load8U,
    I32Store,
    I64Store,
    I32Store8,
    Block,
    Loop,
    Br,
    BrIf,
    Drop,
    Select,
    LocalSet,
    LocalTee,
    LocalGet,
    Call,
    I32Const,
    I32Eqz,
    I32Eq,
    I32Ne,
    I32LtS,
    I32LtU,
    I32GtS,
    I32GtU,
    I32LeS,
    I32LeU,
    I32GeS,
    I32GeU,
    I32Add,
    I32Sub,
    I32Mul,
    I32Clz,
    I32Ctz,
    I32Popcnt,
    I32DivS,
    I32DivU,
    I32RemS,
    I32RemU,
    I32And,
    I32Or,
    I32Xor,
    I32ShL,
    I32ShrS,
    I32ShrU,
    I32RtoL,
    I32RtoR,
    I32Extend8S,
    I32Extend16S,
    I64Const,
    I64Eqz,
    I64Eq,
    I64Ne,
    I64LtS,
    I64LtU,
    I64GtS,
    I64GtU,
    I64LeS,
    I64LeU,
    I64GeS,
    I64GeU,
    I64Clz,
    I64Ctz,
    I64Popcnt,
    I64Add,
    I64Sub,
    I64Mul,
    I64DivS,
    I64DivU,
    I64RemS,
    I64RemU,
    I64And,
    I64Or,
    I64Xor,
    I64ShL,
    I64ShrS,
    I64ShrU,
    I64RtoL,
    I64RtoR,
    I64Extend8S,
    I64Extend16S,
    I64Extend32S,
    F32Const,
    F32Eq,
    F32Ne,
    F32Lt,
    F32Gt,
    F32Le,
    F32Ge,
    F32Abs,
    F32Neg,
    F32Ceil,
    F32Floor,
    F32Trunc,
    F32Nearest,
    F32Sqrt,
    F32Add,
    F32Sub,
    F32Mul,
    F32Div,
    F32Min,
    F32Max,
    F64Eq,
    F64Ne,
    F64Lt,
    F64Gt,
    F64Le,
    F64Ge,
    F32Copysign,
    Return,
    If,
    Else,
    End,
    MemorySize,
    MemoryGrow,
}

/// The byte that encodes each opcode.
pub open spec fn opcode_byte(op: Opcode) -> u8 {
    match op {
        Opcode::Unreachable => 0x00,
        Opcode::Nop => 0x01,
        Opcode::BrTable => 0x0e,
        Opcode::I32Load8S => 0x2c,
        Opcode::I32Load16S => 0x2e,
        Opcode::I32Load16U => 0x2f,
        Opcode::I64Load8S => 0x30,
        Opcode::I64Load8U => 0x31,
        Opcode::I64Load16S => 0x32,
        Opcode::I64Load16U => 0x33,
        Opcode::I64Load32S => 0x34,
        Opcode::I64Load32U => 0x35,
        Opcode::I32Store16 => 0x3b,
        Opcode::I64Store8 => 0x3c,
        Opcode::I64Store16 => 0x3d,
        Opcode::I64Store32 => 0x3e,
        Opcode::CallIndirect => 0x11,
        Opcode::GlobalGet => 0x23,
        Opcode::GlobalSet => 0x24,
        Opcode::I32Load => 0x28,
        Opcode::I64Load => 0x29,
        Opcode::I32Load8U => 0x2d,
        Opcode::I32Store => 0x36,
        Opcode::I64Store => 0x37,
        Opcode::I32Store8 => 0x3a,
        Opcode::Block => 0x02,
        Opcode::Loop => 0x03,
        Opcode::Br => 0x0c,
        Opcode::BrIf => 0x0d,
        Opcode::Drop => 0x1a,
        Opcode::Select => 0x1b,
        Opcode::LocalSet => 0x21,
        Opcode::LocalTee => 0x22,
        Opcode::LocalGet => 0x20,
        Opcode::Call => 0x10,
        Opcode::I32Const => 0x41,
        Opcode::I32Eqz => 0x45,
        Opcode::I32Eq => 0x46,
        Opcode::I32Ne => 0x47,
        Opcode::I32LtS => 0x48,
        Opcode::I32LtU => 0x49,
        Opcode::I32GtS => 0x4a,
        Opcode::I32GtU => 0x4b,
        Opcode::I32LeS => 0x4c,
        Opcode::I32LeU => 0x4d,
        Opcode::I32GeS => 0x4e,
        Opcode::I32GeU => 0x4f,
        Opcode::I32Add => 0x6a,
        Opcode::I32Sub => 0x6b,
        Opcode::I32Mul => 0x6c,
        Opcode::I32Clz => 0x67,
        Opcode::I32Ctz => 0x68,
        Opcode::I32Popcnt => 0x69,
        Opcode::I32DivS => 0x6d,
        Opcode::I32DivU => 0x6e,
        Opcode::I32RemS => 0x6f,
        Opcode::I32RemU => 0x70,
        Opcode::I32And => 0x71,
        Opcode::I32Or => 0x72,
        Opcode::I32Xor => 0x73,
        Opcode::I32ShL => 0x74,
        Opcode::I32ShrS => 0x75,
        Opcode::I32ShrU => 0x76,
        Opcode::I32RtoL => 0x77,
        Opcode::I32RtoR => 0x78,
        Opcode::I32Extend8S => 0xc0,
        Opcode::I32Extend16S => 0xc1,
        Opcode::I64Const => 0x42,
        Opcode::I64Eqz => 0x50,
        Opcode::I64Eq => 0x51,
        Opcode::I64Ne => 0x52,
        Opcode::I64LtS => 0x53,
        Opcode::I64LtU => 0x54,
        Opcode::I64GtS => 0x55,
        Opcode::I64GtU => 0x56,
        Opcode::I64LeS => 0x57,
        Opcode::I64LeU => 0x58,
        Opcode::I64GeS => 0x59,
        Opcode::I64GeU => 0x5a,
        Opcode::I64Clz => 0x79,
        Opcode::I64Ctz => 0x7a,
        Opcode::I64Popcnt => 0x7b,
        Opcode::I64Add => 0x7c,
        Opcode::I64Sub => 0x7d,
        Opcode::I64Mul => 0x7e,
        Opcode::I64DivS => 0x7f,
        Opcode::I64DivU => 0x80,
        Opcode::I64RemS => 0x81,
        Opcode::I64RemU => 0x82,
        Opcode::I64And => 0x83,
        Opcode::I64Or => 0x84,
        Opcode::I64Xor => 0x85,
        Opcode::I64ShL => 0x86,
        Opcode::I64ShrS => 0x87,
        Opcode::I64ShrU => 0x88,
        Opcode::I64RtoL => 0x89,
        Opcode::I64RtoR => 0x8a,
        Opcode::I64Extend8S => 0xc2,
        Opcode::I64Extend16S => 0xc3,
        Opcode::I64Extend32S => 0xc4,
        Opcode::F32Const => 0x43,
        Opcode::F32Eq => 0x5b,
        Opcode::F32Ne => 0x5c,
        Opcode::F32Lt => 0x5d,
        Opcode::F32Gt => 0x5e,
        Opcode::F32Le => 0x5f,
        Opcode::F32Ge => 0x60,
        Opcode::F32Abs => 0x8b,
        Opcode::F32Neg => 0x8c,
        Opcode::F32Ceil => 0x8d,
        Opcode::F32Floor => 0x8e,
        Opcode::F32Trunc => 0x8f,
        Opcode::F32Nearest => 0x90,
        Opcode::F32Sqrt => 0x91,
        Opcode::F32Add => 0x92,
        Opcode::F32Sub => 0x93,
        Opcode::F32Mul => 0x94,
        Opcode::F32Div => 0x95,
        Opcode::F32Min => 0x96,
        Opcode::F32Max => 0x97,
        Opcode::F64Eq => 0x61,
        Opcode::F64Ne => 0x62,
        Opcode::F64Lt => 0x63,
        Opcode::F64Gt => 0x64,
        Opcode::F64Le => 0x65,
        Opcode::F64Ge => 0x66,
        Opcode::F32Copysign => 0x98,
        Opcode::Return => 0x0f,
        Opcode::If => 0x04,
        Opcode::Else => 0x05,
        Opcode::End => 0x0b,
        Opcode::MemorySize => 0x3f,
        Opcode::MemoryGrow => 0x40,
    }
}

/// The opcode that a byte encodes, if any.
pub open spec fn opcode_of(b: u8) -> Option<Opcode> {
    match b {
        0x00 => Some(Opcode::Unreachable),
        0x01 => Some(Opcode::Nop),
        0x0e => Some(Opcode::BrTable),
        0x2c => Some(Opcode::I32Load8S),
        0x2e => Some(Opcode::I32Load16S),
        0x2f => Some(Opcode::I32Load16U),
        0x30 => Some(Opcode::I64Load8S),
        0x31 => Some(Opcode::I64Load8U),
        0x32 => Some(Opcode::I64Load16S),
        0x33 => Some(Opcode::I64Load16U),
        0x34 => Some(Opcode::I64Load32S),
        0x35 => Some(Opcode::I64Load32U),
        0x3b => Some(Opcode::I32Store16),
        0x3c => Some(Opcode::I64Store8),
        0x3d => Some(Opcode::I64Store16),
        0x3e => Some(Opcode::I64Store32),
        0x11 => Some(Opcode::CallIndirect),
        0x23 => Some(Opcode::GlobalGet),
        0x24 => Some(Opcode::GlobalSet),
        0x28 => Some(Opcode::I32Load),
        0x29 => Some(Opcode::I64Load),
        0x2d => Some(Opcode::I32Load8U),
        0x36 => Some(Opcode::I32Store),
        0x37 => Some(Opcode::I64Store),
        0x3a => Some(Opcode::I32Store8),
        0x02 => Some(Opcode::Block),
        0x03 => Some(Opcode::Loop),
        0x0c => Some(Opcode::Br),
        0x0d => Some(Opcode::BrIf),
        0x1a => Some(Opcode::Drop),
        0x1b => Some(Opcode::Select),
        0x21 => Some(Opcode::LocalSet),
        0x22 => Some(Opcode::LocalTee),
        0x04 => Some(Opcode::If),
        0x05 => Some(Opcode::Else),
        0x0b => Some(Opcode::End),
        0x0f => Some(Opcode::Return),
        0x10 => Some(Opcode::Call),
        0x20 => Some(Opcode::LocalGet),
        0x3f => Some(Opcode::MemorySize),
        0x40 => Some(Opcode::MemoryGrow),
        0x41 => Some(Opcode::I32Const),
        0x42 => Some(Opcode::I64Const),
        0x43 => Some(Opcode::F32Const),
        0x45 => Some(Opcode::I32Eqz),
        0x46 => Some(Opcode::I32Eq),
        0x47 => Some(Opcode::I32Ne),
        0x48 => Some(Opcode::I32LtS),
        0x49 => Some(Opcode::I32LtU),
        0x4a => Some(Opcode::I32GtS),
        0x4b => Some(Opcode::I32GtU),
        0x4c => Some(Opcode::I32LeS),
        0x4d => Some(Opcode::I32LeU),
        0x4e => Some(Opcode::I32GeS),
        0x4f => Some(Opcode::I32GeU),
        0x50 => Some(Opcode::I64Eqz),
        0x51 => Some(Opcode::I64Eq),
        0x52 => Some(Opcode::I64Ne),
        0x53 => Some(Opcode::I64LtS),
        0x54 => Some(Opcode::I64LtU),
        0x55 => Some(Opcode::I64GtS),
        0x56 => Some(Opcode::I64GtU),
        0x57 => Some(Opcode::I64LeS),
        0x58 => Some(Opcode::I64LeU),
        0x59 => Some(Opcode::I64GeS),
        0x5a => Some(Opcode::I64GeU),
        0x5b => Some(Opcode::F32Eq),
        0x5c => Some(Opcode::F32Ne),
        0x5d => Some(Opcode::F32Lt),
        0x5e => Some(Opcode::F32Gt),
        0x5f => Some(Opcode::F32Le),
        0x60 => Some(Opcode::F32Ge),
        0x61 => Some(Opcode::F64Eq),
        0x62 => Some(Opcode::F64Ne),
        0x63 => Some(Opcode::F64Lt),
        0x64 => Some(Opcode::F64Gt),
        0x65 => Some(Opcode::F64Le),
        0x66 => Some(Opcode::F64Ge),
        0x67 => Some(Opcode::I32Clz),
        0x68 => Some(Opcode::I32Ctz),
        0x69 => Some(Opcode::I32Popcnt),
        0x6a => Some(Opcode::I32Add),
        0x6b => Some(Opcode::I32Sub),
        0x6c => Some(Opcode::I32Mul),
        0x6d => Some(Opcode::I32DivS),
        0x6e => Some(Opcode::I32DivU),
        0x6f => Some(Opcode::I32RemS),
        0x70 => Some(Opcode::I32RemU),
        0x71 => Some(Opcode::I32And),
        0x72 => Some(Opcode::I32Or),
        0x73 => Some(Opcode::I32Xor),
        0x74 => Some(Opcode::I32ShL),
        0x75 => Some(Opcode::I32ShrS),
        0x76 => Some(Opcode::I32ShrU),
        0x77 => Some(Opcode::I32RtoL),
        0x78 => Some(Opcode::I32RtoR),
        0x79 => Some(Opcode::I64Clz),
        0x7a => Some(Opcode::I64Ctz),
        0x7b => Some(Opcode::I64Popcnt),
        0x7c => Some(Opcode::I64Add),
        0x7d => Some(Opcode::I64Sub),
        0x7e => Some(Opcode::I64Mul),
        0x7f => Some(Opcode::I64DivS),
        0x80 => Some(Opcode::I64DivU),
        0x81 => Some(Opcode::I64RemS),
        0x82 => Some(Opcode::I64RemU),
        0x83 => Some(Opcode::I64And),
        0x84 => Some(Opcode::I64Or),
        0x85 => Some(Opcode::I64Xor),
        0x86 => Some(Opcode::I64ShL),
        0x87 => Some(Opcode::I64ShrS),
        0x88 => Some(Opcode::I64ShrU),
        0x89 => Some(Opcode::I64RtoL),
        0x8a => Some(Opcode::I64RtoR),
        0x8b => Some(Opcode::F32Abs),
        0x8c => Some(Opcode::F32Neg),
        0x8d => Some(Opcode::F32Ceil),
        0x8e => Some(Opcode::F32Floor),
        0x8f => Some(Opcode::F32Trunc),
        0x90 => Some(Opcode::F32Nearest),
        0x91 => Some(Opcode::F32Sqrt),
        0x92 => Some(Opcode::F32Add),
        0x93 => Some(Opcode::F32Sub),
        0x94 => Some(Opcode::F32Mul),
        0x95 => Some(Opcode::F32Div),
        0x96 => Some(Opcode::F32Min),
        0x97 => Some(Opcode::F32Max),
        0x98 => Some(Opcode::F32Copysign),
        0xc0 => Some(Opcode::I32Extend8S),
        0xc1 => Some(Opcode::I32Extend16S),
        0xc2 => Some(Opcode::I64Extend8S),
        0xc3 => Some(Opcode::I64Extend16S),
        0xc4 => Some(Opcode::I64Extend32S),
        _ => None,
    }
}

impl Opcode {
    /// The byte that encodes this opcode.
    pub fn to_u8(&self) -> (r: u8)
        ensures
            r == opcode_byte(*self),
    {
        match self {
            Opcode::Unreachable => 0x00,
            Opcode::Nop => 0x01,
            Opcode::BrTable => 0x0e,
            Opcode::I32Load8S => 0x2c,
            Opcode::I32Load16S => 0x2e,
            Opcode::I32Load16U => 0x2f,
            Opcode::I64Load8S => 0x30,
            Opcode::I64Load8U => 0x31,
            Opcode::I64Load16S => 0x32,
            Opcode::I64Load16U => 0x33,
            Opcode::I64Load32S => 0x34,
            Opcode::I64Load32U => 0x35,
            Opcode::I32Store16 => 0x3b,
            Opcode::I64Store8 => 0x3c,
            Opcode::I64Store16 => 0x3d,
            Opcode::I64Store32 => 0x3e,
            Opcode::CallIndirect => 0x11,
            Opcode::GlobalGet => 0x23,
            Opcode::GlobalSet => 0x24,
            Opcode::I32Load => 0x28,
            Opcode::I64Load => 0x29,
            Opcode::I32Load8U => 0x2d,
            Opcode::I32Store => 0x36,
            Opcode::I64Store => 0x37,
            Opcode::I32Store8 => 0x3a,
            Opcode::Block => 0x02,
            Opcode::Loop => 0x03,
            Opcode::Br => 0x0c,
            Opcode::BrIf => 0x0d,
            Opcode::Drop => 0x1a,
            Opcode::Select => 0x1b,
            Opcode::LocalSet => 0x21,
            Opcode::LocalTee => 0x22,
            Opcode::LocalGet => 0x20,
            Opcode::Call => 0x10,
            Opcode::I32Const => 0x41,
            Opcode::I32Eqz => 0x45,
            Opcode::I32Eq => 0x46,
            Opcode::I32Ne => 0x47,
            Opcode::I32LtS => 0x48,
            Opcode::I32LtU => 0x49,
            Opcode::I32GtS => 0x4a,
            Opcode::I32GtU => 0x4b,
            Opcode::I32LeS => 0x4c,
            Opcode::I32LeU => 0x4d,
            Opcode::I32GeS => 0x4e,
            Opcode::I32GeU => 0x4f,
            Opcode::I32Add => 0x6a,
            Opcode::I32Sub => 0x6b,
            Opcode::I32Mul => 0x6c,
            Opcode::I32Clz => 0x67,
            Opcode::I32Ctz => 0x68,
            Opcode::I32Popcnt => 0x69,
            Opcode::I32DivS => 0x6d,
            Opcode::I32DivU => 0x6e,
            Opcode::I32RemS => 0x6f,
            Opcode::I32RemU => 0x70,
            Opcode::I32And => 0x71,
            Opcode::I32Or => 0x72,
            Opcode::I32Xor => 0x73,
            Opcode::I32ShL => 0x74,
            Opcode::I32ShrS => 0x75,
            Opcode::I32ShrU => 0x76,
            Opcode::I32RtoL => 0x77,
            Opcode::I32RtoR => 0x78,
            Opcode::I32Extend8S => 0xc0,
            Opcode::I32Extend16S => 0xc1,
            Opcode::I64Const => 0x42,
            Opcode::I64Eqz => 0x50,
            Opcode::I64Eq => 0x51,
            Opcode::I64Ne => 0x52,
            Opcode::I64LtS => 0x53,
            Opcode::I64LtU => 0x54,
            Opcode::I64GtS => 0x55,
            Opcode::I64GtU => 0x56,
            Opcode::I64LeS => 0x57,
            Opcode::I64LeU => 0x58,
            Opcode::I64GeS => 0x59,
            Opcode::I64GeU => 0x5a,
            Opcode::I64Clz => 0x79,
            Opcode::I64Ctz => 0x7a,
            Opcode::I64Popcnt => 0x7b,
            Opcode::I64Add => 0x7c,
            Opcode::I64Sub => 0x7d,
            Opcode::I64Mul => 0x7e,
            Opcode::I64DivS => 0x7f,
            Opcode::I64DivU => 0x80,
            Opcode::I64RemS => 0x81,
            Opcode::I64RemU => 0x82,
            Opcode::I64And => 0x83,
            Opcode::I64Or => 0x84,
            Opcode::I64Xor => 0x85,
            Opcode::I64ShL => 0x86,
            Opcode::I64ShrS => 0x87,
            Opcode::I64ShrU => 0x88,
            Opcode::I64RtoL => 0x89,
            Opcode::I64RtoR => 0x8a,
            Opcode::I64Extend8S => 0xc2,
            Opcode::I64Extend16S => 0xc3,
            Opcode::I64Extend32S => 0xc4,
            Opcode::F32Const => 0x43,
            Opcode::F32Eq => 0x5b,
            Opcode::F32Ne => 0x5c,
            Opcode::F32Lt => 0x5d,
            Opcode::F32Gt => 0x5e,
            Opcode::F32Le => 0x5f,
            Opcode::F32Ge => 0x60,
            Opcode::F32Abs => 0x8b,
            Opcode::F32Neg => 0x8c,
            Opcode::F32Ceil => 0x8d,
            Opcode::F32Floor => 0x8e,
            Opcode::F32Trunc => 0x8f,
            Opcode::F32Nearest => 0x90,
            Opcode::F32Sqrt => 0x91,
            Opcode::F32Add => 0x92,
            Opcode::F32Sub => 0x93,
            Opcode::F32Mul => 0x94,
            Opcode::F32Div => 0x95,
            Opcode::F32Min => 0x96,
            Opcode::F32Max => 0x97,
            Opcode::F64Eq => 0x61,
            Opcode::F64Ne => 0x62,
            Opcode::F64Lt => 0x63,
            Opcode::F64Gt => 0x64,
            Opcode::F64Le => 0x65,
            Opcode::F64Ge => 0x66,
            Opcode::F32Copysign => 0x98,
            Opcode::Return => 0x0f,
            Opcode::If => 0x04,
            Opcode::Else => 0x05,
            Opcode::End => 0x0b,
            Opcode::MemorySize => 0x3f,
            Opcode::MemoryGrow => 0x40,
        }
    }

    /// The opcode that `b` encodes; `None` for a byte outside the supported set.
    pub fn from_u8(b: u8) -> (r: Option<Opcode>)
        ensures
            r == opcode_of(b),
    {
        match b {
            0x00 => Some(Opcode::Unreachable),
            0x01 => Some(Opcode::Nop),
            0x0e => Some(Opcode::BrTable),
            0x2c => Some(Opcode::I32Load8S),
            0x2e => Some(Opcode::I32Load16S),
            0x2f => Some(Opcode::I32Load16U),
            0x30 => Some(Opcode::I64Load8S),
            0x31 => Some(Opcode::I64Load8U),
            0x32 => Some(Opcode::I64Load16S),
            0x33 => Some(Opcode::I64Load16U),
            0x34 => Some(Opcode::I64Load32S),
            0x35 => Some(Opcode::I64Load32U),
            0x3b => Some(Opcode::I32Store16),
            0x3c => Some(Opcode::I64Store8),
            0x3d => Some(Opcode::I64Store16),
            0x3e => Some(Opcode::I64Store32),
            0x11 => Some(Opcode::CallIndirect),
            0x23 => Some(Opcode::GlobalGet),
            0x24 => Some(Opcode::GlobalSet),
            0x28 => Some(Opcode::I32Load),
            0x29 => Some(Opcode::I64Load),
            0x2d => Some(Opcode::I32Load8U),
            0x36 => Some(Opcode::I32Store),
            0x37 => Some(Opcode::I64Store),
            0x3a => Some(Opcode::I32Store8),
            0x02 => Some(Opcode::Block),
            0x03 => Some(Opcode::Loop),
            0x0c => Some(Opcode::Br),
            0x0d => Some(Opcode::BrIf),
            0x1a => Some(Opcode::Drop),
            0x1b => Some(Opcode::Select),
            0x21 => Some(Opcode::LocalSet),
            0x22 => Some(Opcode::LocalTee),
            0x04 => Some(Opcode::If),
            0x05 => Some(Opcode::Else),
            0x0b => Some(Opcode::End),
            0x0f => Some(Opcode::Return),
            0x10 => Some(Opcode::Call),
            0x20 => Some(Opcode::LocalGet),
            0x3f => Some(Opcode::MemorySize),
            0x40 => Some(Opcode::MemoryGrow),
            0x41 => Some(Opcode::I32Const),
            0x42 => Some(Opcode::I64Const),
            0x43 => Some(Opcode::F32Const),
            0x45 => Some(Opcode::I32Eqz),
            0x46 => Some(Opcode::I32Eq),
            0x47 => Some(Opcode::I32Ne),
            0x48 => Some(Opcode::I32LtS),
            0x49 => Some(Opcode::I32LtU),
            0x4a => Some(Opcode::I32GtS),
            0x4b => Some(Opcode::I32GtU),
            0x4c => Some(Opcode::I32LeS),
            0x4d => Some(Opcode::I32LeU),
            0x4e => Some(Opcode::I32GeS),
            0x4f => Some(Opcode::I32GeU),
            0x50 => Some(Opcode::I64Eqz),
            0x51 => Some(Opcode::I64Eq),
            0x52 => Some(Opcode::I64Ne),
            0x53 => Some(Opcode::I64LtS),
            0x54 => Some(Opcode::I64LtU),
            0x55 => Some(Opcode::I64GtS),
            0x56 => Some(Opcode::I64GtU),
            0x57 => Some(Opcode::I64LeS),
            0x58 => Some(Opcode::I64LeU),
            0x59 => Some(Opcode::I64GeS),
            0x5a => Some(Opcode::I64GeU),
            0x5b => Some(Opcode::F32Eq),
            0x5c => Some(Opcode::F32Ne),
            0x5d => Some(Opcode::F32Lt),
            0x5e => Some(Opcode::F32Gt),
            0x5f => Some(Opcode::F32Le),
            0x60 => Some(Opcode::F32Ge),
            0x61 => Some(Opcode::F64Eq),
            0x62 => Some(Opcode::F64Ne),
            0x63 => Some(Opcode::F64Lt),
            0x64 => Some(Opcode::F64Gt),
            0x65 => Some(Opcode::F64Le),
            0x66 => Some(Opcode::F64Ge),
            0x67 => Some(Opcode::I32Clz),
            0x68 => Some(Opcode::I32Ctz),
            0x69 => Some(Opcode::I32Popcnt),
            0x6a => Some(Opcode::I32Add),
            0x6b => Some(Opcode::I32Sub),
            0x6c => Some(Opcode::I32Mul),
            0x6d => Some(Opcode::I32DivS),
            0x6e => Some(Opcode::I32DivU),
            0x6f => Some(Opcode::I32RemS),
            0x70 => Some(Opcode::I32RemU),
            0x71 => Some(Opcode::I32And),
            0x72 => Some(Opcode::I32Or),
            0x73 => Some(Opcode::I32Xor),
            0x74 => Some(Opcode::I32ShL),
            0x75 => Some(Opcode::I32ShrS),
            0x76 => Some(Opcode::I32ShrU),
            0x77 => Some(Opcode::I32RtoL),
            0x78 => Some(Opcode::I32RtoR),
            0x79 => Some(Opcode::I64Clz),
            0x7a => Some(Opcode::I64Ctz),
            0x7b => Some(Opcode::I64Popcnt),
            0x7c => Some(Opcode::I64Add),
            0x7d => Some(Opcode::I64Sub),
            0x7e => Some(Opcode::I64Mul),
            0x7f => Some(Opcode::I64DivS),
            0x80 => Some(Opcode::I64DivU),
            0x81 => Some(Opcode::I64RemS),
            0x82 => Some(Opcode::I64RemU),
            0x83 => Some(Opcode::I64And),
            0x84 => Some(Opcode::I64Or),
            0x85 => Some(Opcode::I64Xor),
            0x86 => Some(Opcode::I64ShL),
            0x87 => Some(Opcode::I64ShrS),
            0x88 => Some(Opcode::I64ShrU),
            0x89 => Some(Opcode::I64RtoL),
            0x8a => Some(Opcode::I64RtoR),
            0x8b => Some(Opcode::F32Abs),
            0x8c => Some(Opcode::F32Neg),
            0x8d => Some(Opcode::F32Ceil),
            0x8e => Some(Opcode::F32Floor),
            0x8f => Some(Opcode::F32Trunc),
            0x90 => Some(Opcode::F32Nearest),
            0x91 => Some(Opcode::F32Sqrt),
            0x92 => Some(Opcode::F32Add),
            0x93 => Some(Opcode::F32Sub),
            0x94 => Some(Opcode::F32Mul),
            0x95 => Some(Opcode::F32Div),
            0x96 => Some(Opcode::F32Min),
            0x97 => Some(Opcode::F32Max),
            0x98 => Some(Opcode::F32Copysign),
            0xc0 => Some(Opcode::I32Extend8S),
            0xc1 => Some(Opcode::I32Extend16S),
            0xc2 => Some(Opcode::I64Extend8S),
            0xc3 => Some(Opcode::I64Extend16S),
            0xc4 => Some(Opcode::I64Extend32S),
            _ => None,
        }
    }
}

/// Encoding an opcode and decoding the byte gives back the opcode, and a
/// byte that decodes is the encoding of what it decodes to.
pub proof fn law_opcode_round_trip(op: Opcode, b: u8)
    ensures
        opcode_of(opcode_byte(op)) == Some(op),
        opcode_of(b) matches Some(o) ==> opcode_byte(o) == b,
{
}

} // verus!
