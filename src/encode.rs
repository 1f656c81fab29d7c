use vstd::prelude::*;
use crate::control::ValueType;
use crate::instruction::{decode_body_spec, decode_instruction_spec, plain_instruction, Instruction};
use crate::leb128::{leb, pow128, DecodeError};
use crate::memory::le_value;
use crate::opcode::{opcode_byte, opcode_of, Opcode};

verus! {

/// The unsigned LEB128 encoding of `v`: seven bits per byte, low bits first.
pub open spec fn uleb_enc(v: nat) -> Seq<u8>
    decreases v,
{
    if v < 128 {
        seq![v as u8]
    } else {
        seq![(v % 128 + 128) as u8] + uleb_enc(v / 128)
    }
}

proof fn lemma_uleb_enc(s: Seq<u8>, pos: int, v: nat, k: nat)
    requires
        0 <= pos,
        pos + uleb_enc(v).len() <= s.len(),
        s.subrange(pos, pos + uleb_enc(v).len()) == uleb_enc(v),
        uleb_enc(v).len() <= k,
    ensures
        leb(s, pos, k, false) == Ok::<(int, int), crate::leb128::DecodeError>(
            (v as int, pos + uleb_enc(v).len()),
        ),
    decreases v,
{
    let e = uleb_enc(v);
    assert(s[pos] == e[0]) by {
        assert(s.subrange(pos, pos + e.len())[0] == s[pos]);
    }
    if v >= 128 {
        let t = uleb_enc(v / 128);
        assert(e == seq![(v % 128 + 128) as u8] + t);
        assert(s.subrange(pos + 1, pos + 1 + t.len()) =~= t) by {
            assert forall|j: int| 0 <= j < t.len() implies s.subrange(pos + 1, pos + 1 + t.len())[j] == t[j] by {
                assert(s.subrange(pos, pos + e.len())[j + 1] == e[j + 1]);
            }
        }
        lemma_uleb_enc(s, pos + 1, v / 128, (k - 1) as nat);
    }
}

/// The signed LEB128 encoding of `v`: seven bits per byte, low bits first,
/// ending once the rest is the sign extension of bit 6 of the last byte.
pub open spec fn sleb_enc(v: int) -> Seq<u8>
    decreases (if v < 0 { -v } else { v }),
{
    if -64 <= v < 64 {
        seq![(if v < 0 { v + 128 } else { v }) as u8]
    } else {
        seq![(v % 128 + 128) as u8] + sleb_enc(v / 128)
    }
}

proof fn lemma_sleb_enc(s: Seq<u8>, pos: int, v: int, k: nat)
    requires
        0 <= pos,
        pos + sleb_enc(v).len() <= s.len(),
        s.subrange(pos, pos + sleb_enc(v).len()) == sleb_enc(v),
        sleb_enc(v).len() <= k,
    ensures
        leb(s, pos, k, true) == Ok::<(int, int), DecodeError>((v, pos + sleb_enc(v).len())),
    decreases (if v < 0 { -v } else { v }),
{
    let e = sleb_enc(v);
    assert(s[pos] == e[0]) by {
        assert(s.subrange(pos, pos + e.len())[0] == s[pos]);
    }
    if !(-64 <= v < 64) {
        let t = sleb_enc(v / 128);
        assert(e == seq![(v % 128 + 128) as u8] + t);
        assert(s.subrange(pos + 1, pos + 1 + t.len()) =~= t) by {
            assert forall|j: int| 0 <= j < t.len() implies s.subrange(pos + 1, pos + 1 + t.len())[j] == t[j] by {
                assert(s.subrange(pos, pos + e.len())[j + 1] == e[j + 1]);
            }
        }
        lemma_sleb_enc(s, pos + 1, v / 128, (k - 1) as nat);
    }
}

proof fn lemma_uleb_len(v: nat, k: nat)
    requires
        k >= 1,
        v < pow128(k),
    ensures
        uleb_enc(v).len() <= k,
    decreases k,
{
    if v >= 128 {
        assert(k >= 2) by {
            reveal_with_fuel(pow128, 2);
        }
        assert(v / 128 < pow128((k - 1) as nat));
        lemma_uleb_len(v / 128, (k - 1) as nat);
    }
}

proof fn lemma_sleb_len(v: int, k: nat)
    requires
        k >= 1,
        -64 * pow128((k - 1) as nat) <= v < 64 * pow128((k - 1) as nat),
    ensures
        sleb_enc(v).len() <= k,
    decreases k,
{
    if !(-64 <= v < 64) {
        assert(k >= 2) by {
            if k == 1 {
                assert(pow128(0) == 1);
            }
        }
        let p = pow128((k - 2) as nat);
        assert(pow128((k - 1) as nat) == 128 * p);
        assert(-64 * p <= v / 128 < 64 * p);
        lemma_sleb_len(v / 128, (k - 1) as nat);
    }
}

/// The opcode of an instruction that takes no immediate.
pub open spec fn plain_opcode(i: Instruction) -> Opcode {
    match i {
        Instruction::Unreachable => Opcode::Unreachable,
        Instruction::Nop => Opcode::Nop,
        Instruction::Drop => Opcode::Drop,
        Instruction::Select => Opcode::Select,
        Instruction::I32Eqz => Opcode::I32Eqz,
        Instruction::I32Eq => Opcode::I32Eq,
        Instruction::I32Ne => Opcode::I32Ne,
        Instruction::I32LtS => Opcode::I32LtS,
        Instruction::I32LtU => Opcode::I32LtU,
        Instruction::I32GtS => Opcode::I32GtS,
        Instruction::I32GtU => Opcode::I32GtU,
        Instruction::I32LeS => Opcode::I32LeS,
        Instruction::I32LeU => Opcode::I32LeU,
        Instruction::I32GeS => Opcode::I32GeS,
        Instruction::I32GeU => Opcode::I32GeU,
        Instruction::I32Add => Opcode::I32Add,
        Instruction::I32Sub => Opcode::I32Sub,
        Instruction::I32Mul => Opcode::I32Mul,
        Instruction::I32Clz => Opcode::I32Clz,
        Instruction::I32Ctz => Opcode::I32Ctz,
        Instruction::I32Popcnt => Opcode::I32Popcnt,
        Instruction::I32DivS => Opcode::I32DivS,
        Instruction::I32DivU => Opcode::I32DivU,
        Instruction::I32RemS => Opcode::I32RemS,
        Instruction::I32RemU => Opcode::I32RemU,
        Instruction::I32And => Opcode::I32And,
        Instruction::I32Or => Opcode::I32Or,
        Instruction::I32Xor => Opcode::I32Xor,
        Instruction::I32ShL => Opcode::I32ShL,
        Instruction::I32ShrS => Opcode::I32ShrS,
        Instruction::I32ShrU => Opcode::I32ShrU,
        Instruction::I32RtoL => Opcode::I32RtoL,
        Instruction::I32RtoR => Opcode::I32RtoR,
        Instruction::I32Extend8S => Opcode::I32Extend8S,
        Instruction::I32Extend16S => Opcode::I32Extend16S,
        Instruction::I64Eqz => Opcode::I64Eqz,
        Instruction::I64Eq => Opcode::I64Eq,
        Instruction::I64Ne => Opcode::I64Ne,
        Instruction::I64LtS => Opcode::I64LtS,
        Instruction::I64LtU => Opcode::I64LtU,
        Instruction::I64GtS => Opcode::I64GtS,
        Instruction::I64GtU => Opcode::I64GtU,
        Instruction::I64LeS => Opcode::I64LeS,
        Instruction::I64LeU => Opcode::I64LeU,
        Instruction::I64GeS => Opcode::I64GeS,
        Instruction::I64GeU => Opcode::I64GeU,
        Instruction::I64Clz => Opcode::I64Clz,
        Instruction::I64Ctz => Opcode::I64Ctz,
        Instruction::I64Popcnt => Opcode::I64Popcnt,
        Instruction::I64Add => Opcode::I64Add,
        Instruction::I64Sub => Opcode::I64Sub,
        Instruction::I64Mul => Opcode::I64Mul,
        Instruction::I64DivS => Opcode::I64DivS,
        Instruction::I64DivU => Opcode::I64DivU,
        Instruction::I64RemS => Opcode::I64RemS,
        Instruction::I64RemU => Opcode::I64RemU,
        Instruction::I64And => Opcode::I64And,
        Instruction::I64Or => Opcode::I64Or,
        Instruction::I64Xor => Opcode::I64Xor,
        Instruction::I64ShL => Opcode::I64ShL,
        Instruction::I64ShrS => Opcode::I64ShrS,
        Instruction::I64ShrU => Opcode::I64ShrU,
        Instruction::I64RtoL => Opcode::I64RtoL,
        Instruction::I64RtoR => Opcode::I64RtoR,
        Instruction::I64Extend8S => Opcode::I64Extend8S,
        Instruction::I64Extend16S => Opcode::I64Extend16S,
        Instruction::I64Extend32S => Opcode::I64Extend32S,
        Instruction::F32Eq => Opcode::F32Eq,
        Instruction::F32Ne => Opcode::F32Ne,
        Instruction::F32Lt => Opcode::F32Lt,
        Instruction::F32Gt => Opcode::F32Gt,
        Instruction::F32Le => Opcode::F32Le,
        Instruction::F32Ge => Opcode::F32Ge,
        Instruction::F32Abs => Opcode::F32Abs,
        Instruction::F32Neg => Opcode::F32Neg,
        Instruction::F32Ceil => Opcode::F32Ceil,
        Instruction::F32Floor => Opcode::F32Floor,
        Instruction::F32Trunc => Opcode::F32Trunc,
        Instruction::F32Nearest => Opcode::F32Nearest,
        Instruction::F32Sqrt => Opcode::F32Sqrt,
        Instruction::F32Add => Opcode::F32Add,
        Instruction::F32Sub => Opcode::F32Sub,
        Instruction::F32Mul => Opcode::F32Mul,
        Instruction::F32Div => Opcode::F32Div,
        Instruction::F32Min => Opcode::F32Min,
        Instruction::F32Max => Opcode::F32Max,
        Instruction::F64Eq => Opcode::F64Eq,
        Instruction::F64Ne => Opcode::F64Ne,
        Instruction::F64Lt => Opcode::F64Lt,
        Instruction::F64Gt => Opcode::F64Gt,
        Instruction::F64Le => Opcode::F64Le,
        Instruction::F64Ge => Opcode::F64Ge,
        Instruction::F32Copysign => Opcode::F32Copysign,
        Instruction::Return => Opcode::Return,
        Instruction::Else => Opcode::Else,
        Instruction::End => Opcode::End,
        _ => Opcode::Nop,
    }
}

/// The four little-endian bytes of a 32-bit pattern.
pub open spec fn le_bytes32(b: u32) -> Seq<u8> {
    seq![(b % 256) as u8, ((b / 256) % 256) as u8, ((b / 65536) % 256) as u8, (b / 16777216) as u8]
}

/// The byte of a block type.
pub open spec fn block_type_byte(bt: Option<ValueType>) -> u8 {
    match bt {
        None => 0x40,
        Some(ValueType::I32) => 0x7f,
        Some(ValueType::I64) => 0x7e,
        Some(ValueType::F32) => 0x7d,
        Some(ValueType::F64) => 0x7c,
    }
}

/// The binary encoding of an instruction.
pub open spec fn encode_instruction(i: Instruction) -> Seq<u8> {
    match i {
        Instruction::Block(bt) => seq![0x02u8, block_type_byte(bt)],
        Instruction::Loop(bt) => seq![0x03u8, block_type_byte(bt)],
        Instruction::Br(x) => seq![0x0cu8] + uleb_enc(x as nat),
        Instruction::BrTable(n) => seq![0x0eu8] + uleb_enc(n as nat),
        Instruction::BrTarget(l) => uleb_enc(l as nat),
        Instruction::BrIf(x) => seq![0x0du8] + uleb_enc(x as nat),
        Instruction::LocalSet(x) => seq![0x21u8] + uleb_enc(x as nat),
        Instruction::LocalTee(x) => seq![0x22u8] + uleb_enc(x as nat),
        Instruction::MemorySize => seq![0x3fu8, 0x00u8],
        Instruction::MemoryGrow => seq![0x40u8, 0x00u8],
        Instruction::GlobalGet(x) => seq![0x23u8] + uleb_enc(x as nat),
        Instruction::GlobalSet(x) => seq![0x24u8] + uleb_enc(x as nat),
        Instruction::I32Load(a, o) => seq![0x28u8] + uleb_enc(a as nat) + uleb_enc(o as nat),
        Instruction::I64Load(a, o) => seq![0x29u8] + uleb_enc(a as nat) + uleb_enc(o as nat),
        Instruction::I32Load8S(a, o) => seq![0x2cu8] + uleb_enc(a as nat) + uleb_enc(o as nat),
        Instruction::I32Load16S(a, o) => seq![0x2eu8] + uleb_enc(a as nat) + uleb_enc(o as nat),
        Instruction::I32Load16U(a, o) => seq![0x2fu8] + uleb_enc(a as nat) + uleb_enc(o as nat),
        Instruction::I64Load8S(a, o) => seq![0x30u8] + uleb_enc(a as nat) + uleb_enc(o as nat),
        Instruction::I64Load8U(a, o) => seq![0x31u8] + uleb_enc(a as nat) + uleb_enc(o as nat),
        Instruction::I64Load16S(a, o) => seq![0x32u8] + uleb_enc(a as nat) + uleb_enc(o as nat),
        Instruction::I64Load16U(a, o) => seq![0x33u8] + uleb_enc(a as nat) + uleb_enc(o as nat),
        Instruction::I64Load32S(a, o) => seq![0x34u8] + uleb_enc(a as nat) + uleb_enc(o as nat),
        Instruction::I64Load32U(a, o) => seq![0x35u8] + uleb_enc(a as nat) + uleb_enc(o as nat),
        Instruction::I32Store16(a, o) => seq![0x3bu8] + uleb_enc(a as nat) + uleb_enc(o as nat),
        Instruction::I64Store8(a, o) => seq![0x3cu8] + uleb_enc(a as nat) + uleb_enc(o as nat),
        Instruction::I64Store16(a, o) => seq![0x3du8] + uleb_enc(a as nat) + uleb_enc(o as nat),
        Instruction::I64Store32(a, o) => seq![0x3eu8] + uleb_enc(a as nat) + uleb_enc(o as nat),
        Instruction::CallIndirect(a, o) => seq![0x11u8] + uleb_enc(a as nat) + uleb_enc(o as nat),
        Instruction::I32Load8U(a, o) => seq![0x2du8] + uleb_enc(a as nat) + uleb_enc(o as nat),
        Instruction::I32Store(a, o) => seq![0x36u8] + uleb_enc(a as nat) + uleb_enc(o as nat),
        Instruction::I64Store(a, o) => seq![0x37u8] + uleb_enc(a as nat) + uleb_enc(o as nat),
        Instruction::I32Store8(a, o) => seq![0x3au8] + uleb_enc(a as nat) + uleb_enc(o as nat),
        Instruction::LocalGet(x) => seq![0x20u8] + uleb_enc(x as nat),
        Instruction::Call(x) => seq![0x10u8] + uleb_enc(x as nat),
        Instruction::I32Const(v) => seq![0x41u8] + sleb_enc(v as int),
        Instruction::I64Const(v) => seq![0x42u8] + sleb_enc(v as int),
        Instruction::F32Const(b) => seq![0x43u8] + le_bytes32(b),
        Instruction::If(bt) => seq![0x04u8, block_type_byte(bt)],
        _ => seq![opcode_byte(plain_opcode(i))],
    }
}

/// The encoding of an instruction stream: each instruction's bytes in turn.
pub open spec fn encode_all(is: Seq<Instruction>) -> Seq<u8>
    decreases is.len(),
{
    if is.len() == 0 {
        Seq::empty()
    } else {
        encode_instruction(is[0]) + encode_all(is.drop_first())
    }
}

proof fn lemma_le_bytes32(b: u32)
    ensures
        le_value(le_bytes32(b)) == b,
{
    let e = le_bytes32(b);
    reveal_with_fuel(le_value, 5);
    assert(e.drop_first() =~= seq![e[1], e[2], e[3]]);
    assert(e.drop_first().drop_first() =~= seq![e[2], e[3]]);
    assert(e.drop_first().drop_first().drop_first() =~= seq![e[3]]);
    assert(e.drop_first().drop_first().drop_first().drop_first() =~= Seq::<u8>::empty());
    let x = b as int;
    assert(x == x % 256 + 256 * ((x / 256) % 256 + 256 * ((x / 65536) % 256 + 256 * (x / 16777216)))) by (nonlinear_arith)
        requires 0 <= x < 0x1_0000_0000;
}

proof fn lemma_tail(s: Seq<u8>, pos: int, head: Seq<u8>, tail: Seq<u8>)
    requires
        0 <= pos,
        pos + head.len() + tail.len() <= s.len(),
        s.subrange(pos, pos + head.len() + tail.len()) == head + tail,
    ensures
        s.subrange(pos + head.len(), pos + head.len() + tail.len()) == tail,
        forall|j: int| 0 <= j < head.len() ==> s[pos + j] == head[j],
        head.len() > 0 ==> s[pos] == head[0],
        head.len() > 1 ==> s[pos + 1] == head[1],
{
    let whole = head + tail;
    assert(s.subrange(pos + head.len(), pos + head.len() + tail.len()) =~= tail) by {
        assert forall|j: int| 0 <= j < tail.len() implies s.subrange(pos + head.len(), pos + head.len() + tail.len())[j] == tail[j] by {
            assert(s.subrange(pos, pos + whole.len())[head.len() + j] == whole[head.len() + j]);
        }
    }
    assert forall|j: int| 0 <= j < head.len() implies s[pos + j] == head[j] by {
        assert(s.subrange(pos, pos + whole.len())[j] == whole[j]);
    }
    if head.len() > 0 {
        assert(s.subrange(pos, pos + whole.len())[0] == whole[0]);
    }
    if head.len() > 1 {
        assert(s.subrange(pos, pos + whole.len())[1] == whole[1]);
    }
}

proof fn lemma_memarg(s: Seq<u8>, pos: int, op: u8, a: u32, o: u32)
    requires
        0 <= pos,
        pos + (seq![op] + uleb_enc(a as nat) + uleb_enc(o as nat)).len() <= s.len(),
        s.subrange(pos, pos + (seq![op] + uleb_enc(a as nat) + uleb_enc(o as nat)).len()) == seq![op]
            + uleb_enc(a as nat) + uleb_enc(o as nat),
    ensures
        s[pos] == op,
        crate::instruction::memarg_at(s, pos + 1) == Ok::<((u32, u32), int), DecodeError>(
            ((a, o), pos + (seq![op] + uleb_enc(a as nat) + uleb_enc(o as nat)).len()),
        ),
{
    reveal_with_fuel(pow128, 6);
    let ea = uleb_enc(a as nat);
    let eo = uleb_enc(o as nat);
    assert(seq![op] + ea + eo =~= (seq![op] + ea) + eo);
    lemma_tail(s, pos, seq![op] + ea, eo);
    assert(s.subrange(pos, pos + 1 + ea.len()) =~= seq![op] + ea) by {
        assert forall|j: int| 0 <= j < 1 + ea.len() implies s.subrange(pos, pos + 1 + ea.len())[j] == (seq![op] + ea)[j] by {
            assert(s[pos + j] == (seq![op] + ea)[j]);
        }
    }
    lemma_tail(s, pos, seq![op], ea);
    lemma_uleb_len(a as nat, 5);
    lemma_uleb_enc(s, pos + 1, a as nat, 5);
    lemma_uleb_len(o as nat, 5);
    lemma_uleb_enc(s, pos + 1 + ea.len(), o as nat, 5);
}

/// Decoding the encoding of an instruction, wherever it stands, gives the
/// instruction back and ends right after its bytes.
proof fn lemma_decode_encoded(s: Seq<u8>, pos: int, i: Instruction)
    requires
        !(i is BrTarget),
        0 <= pos,
        pos + encode_instruction(i).len() <= s.len(),
        s.subrange(pos, pos + encode_instruction(i).len()) == encode_instruction(i),
    ensures
        decode_instruction_spec(s, pos) == Ok::<(Instruction, int), DecodeError>(
            (i, pos + encode_instruction(i).len()),
        ),
{
    reveal_with_fuel(pow128, 11);
    match i {
        Instruction::LocalGet(x) => {
            lemma_tail(s, pos, seq![0x20u8], uleb_enc(x as nat));
            lemma_uleb_len(x as nat, 5);
            lemma_uleb_enc(s, pos + 1, x as nat, 5);
        },
        Instruction::Call(x) => {
            lemma_tail(s, pos, seq![0x10u8], uleb_enc(x as nat));
            lemma_uleb_len(x as nat, 5);
            lemma_uleb_enc(s, pos + 1, x as nat, 5);
        },
        Instruction::I32Const(v) => {
            lemma_tail(s, pos, seq![0x41u8], sleb_enc(v as int));
            lemma_sleb_len(v as int, 5);
            lemma_sleb_enc(s, pos + 1, v as int, 5);
        },
        Instruction::I64Const(v) => {
            lemma_tail(s, pos, seq![0x42u8], sleb_enc(v as int));
            lemma_sleb_len(v as int, 10);
            lemma_sleb_enc(s, pos + 1, v as int, 10);
        },
        Instruction::F32Const(b) => {
            lemma_tail(s, pos, seq![0x43u8], le_bytes32(b));
            lemma_le_bytes32(b);
        },
        Instruction::BrTable(x) => {
            lemma_tail(s, pos, seq![0x0eu8], uleb_enc(x as nat));
            lemma_uleb_len(x as nat, 5);
            lemma_uleb_enc(s, pos + 1, x as nat, 5);
        },
        Instruction::If(bt) => {
            lemma_tail(s, pos, seq![0x04u8, block_type_byte(bt)], Seq::empty());
        },
        Instruction::Block(bt) => {
            lemma_tail(s, pos, seq![0x02u8, block_type_byte(bt)], Seq::empty());
        },
        Instruction::Loop(bt) => {
            lemma_tail(s, pos, seq![0x03u8, block_type_byte(bt)], Seq::empty());
        },
        Instruction::Br(x) => {
            lemma_tail(s, pos, seq![0x0cu8], uleb_enc(x as nat));
            lemma_uleb_len(x as nat, 5);
            lemma_uleb_enc(s, pos + 1, x as nat, 5);
        },
        Instruction::BrIf(x) => {
            lemma_tail(s, pos, seq![0x0du8], uleb_enc(x as nat));
            lemma_uleb_len(x as nat, 5);
            lemma_uleb_enc(s, pos + 1, x as nat, 5);
        },
        Instruction::LocalSet(x) => {
            lemma_tail(s, pos, seq![0x21u8], uleb_enc(x as nat));
            lemma_uleb_len(x as nat, 5);
            lemma_uleb_enc(s, pos + 1, x as nat, 5);
        },
        Instruction::LocalTee(x) => {
            lemma_tail(s, pos, seq![0x22u8], uleb_enc(x as nat));
            lemma_uleb_len(x as nat, 5);
            lemma_uleb_enc(s, pos + 1, x as nat, 5);
        },
        Instruction::I32Load(a, o) => {
            lemma_memarg(s, pos, 0x28u8, a, o);
        },
        Instruction::I64Load(a, o) => {
            lemma_memarg(s, pos, 0x29u8, a, o);
        },
        Instruction::I32Load8S(a, o) => {
            lemma_memarg(s, pos, 0x2cu8, a, o);
        },
        Instruction::I32Load16S(a, o) => {
            lemma_memarg(s, pos, 0x2eu8, a, o);
        },
        Instruction::I32Load16U(a, o) => {
            lemma_memarg(s, pos, 0x2fu8, a, o);
        },
        Instruction::I64Load8S(a, o) => {
            lemma_memarg(s, pos, 0x30u8, a, o);
        },
        Instruction::I64Load8U(a, o) => {
            lemma_memarg(s, pos, 0x31u8, a, o);
        },
        Instruction::I64Load16S(a, o) => {
            lemma_memarg(s, pos, 0x32u8, a, o);
        },
        Instruction::I64Load16U(a, o) => {
            lemma_memarg(s, pos, 0x33u8, a, o);
        },
        Instruction::I64Load32S(a, o) => {
            lemma_memarg(s, pos, 0x34u8, a, o);
        },
        Instruction::I64Load32U(a, o) => {
            lemma_memarg(s, pos, 0x35u8, a, o);
        },
        Instruction::I32Store16(a, o) => {
            lemma_memarg(s, pos, 0x3bu8, a, o);
        },
        Instruction::I64Store8(a, o) => {
            lemma_memarg(s, pos, 0x3cu8, a, o);
        },
        Instruction::I64Store16(a, o) => {
            lemma_memarg(s, pos, 0x3du8, a, o);
        },
        Instruction::I64Store32(a, o) => {
            lemma_memarg(s, pos, 0x3eu8, a, o);
        },
        Instruction::CallIndirect(a, o) => {
            lemma_memarg(s, pos, 0x11u8, a, o);
        },
        Instruction::I32Load8U(a, o) => {
            lemma_memarg(s, pos, 0x2du8, a, o);
        },
        Instruction::I32Store(a, o) => {
            lemma_memarg(s, pos, 0x36u8, a, o);
        },
        Instruction::I64Store(a, o) => {
            lemma_memarg(s, pos, 0x37u8, a, o);
        },
        Instruction::I32Store8(a, o) => {
            lemma_memarg(s, pos, 0x3au8, a, o);
        },
        Instruction::GlobalGet(x) => {
            lemma_tail(s, pos, seq![0x23u8], uleb_enc(x as nat));
            lemma_uleb_len(x as nat, 5);
            lemma_uleb_enc(s, pos + 1, x as nat, 5);
        },
        Instruction::GlobalSet(x) => {
            lemma_tail(s, pos, seq![0x24u8], uleb_enc(x as nat));
            lemma_uleb_len(x as nat, 5);
            lemma_uleb_enc(s, pos + 1, x as nat, 5);
        },
        Instruction::MemorySize => {
            lemma_tail(s, pos, seq![0x3fu8, 0x00u8], Seq::empty());
        },
        Instruction::MemoryGrow => {
            lemma_tail(s, pos, seq![0x40u8, 0x00u8], Seq::empty());
        },
        _ => {
            lemma_tail(s, pos, encode_instruction(i), Seq::empty());
            assert(encode_instruction(i) + Seq::<u8>::empty() =~= encode_instruction(i));
            assert(opcode_of(opcode_byte(plain_opcode(i))) == Some(plain_opcode(i)));
            assert(plain_instruction(plain_opcode(i)) == i);
        },
    }
}

/// Whether every `br_table` in `is` is followed by exactly its labels, as
/// `BrTarget` entries, and no label stands anywhere else; `pending` labels
/// are still owed at the start.
pub open spec fn labels_in_place(is: Seq<Instruction>, pending: nat) -> bool
    decreases is.len(),
{
    if is.len() == 0 {
        pending == 0
    } else if pending > 0 {
        is[0] is BrTarget && labels_in_place(is.drop_first(), (pending - 1) as nat)
    } else {
        !(is[0] is BrTarget) && labels_in_place(
            is.drop_first(),
            match is[0] {
                Instruction::BrTable(n) => n as nat + 1,
                _ => 0,
            },
        )
    }
}

proof fn lemma_decode_all(s: Seq<u8>, pos: int, is: Seq<Instruction>, pending: nat)
    requires
        0 <= pos <= s.len(),
        s.subrange(pos, s.len() as int) == encode_all(is),
        labels_in_place(is, pending),
    ensures
        decode_body_spec(s, pos, pending) == Ok::<Seq<Instruction>, DecodeError>(is),
    decreases is.len(),
{
    if is.len() == 0 {
        assert(s.subrange(pos, s.len() as int).len() == 0);
        assert(is =~= Seq::<Instruction>::empty());
    } else {
        let head = encode_instruction(is[0]);
        let tail = encode_all(is.drop_first());
        assert(encode_all(is) == head + tail);
        assert(s.subrange(pos, s.len() as int).len() == s.len() - pos);
        lemma_tail(s, pos, head, tail);
        assert(s.subrange(pos, pos + head.len()) =~= head) by {
            assert forall|j: int| 0 <= j < head.len() implies s.subrange(pos, pos + head.len())[j] == head[j] by {
                assert(s[pos + j] == head[j]);
            }
        }
        let p2: nat = if pending > 0 {
            (pending - 1) as nat
        } else {
            match is[0] {
                Instruction::BrTable(n) => n as nat + 1,
                _ => 0,
            }
        };
        if pending > 0 {
            let l = is[0]->BrTarget_0;
            reveal_with_fuel(pow128, 6);
            lemma_uleb_len(l as nat, 5);
            lemma_uleb_enc(s, pos, l as nat, 5);
            assert(head.len() >= 1);
        } else {
            lemma_decode_encoded(s, pos, is[0]);
            assert(head.len() >= 1);
        }
        lemma_decode_all(s, pos + head.len(), is.drop_first(), p2);
        assert(seq![is[0]] + is.drop_first() =~= is);
        assert(pos < s.len());
        assert(decode_body_spec(s, pos + head.len(), p2) == Ok::<Seq<Instruction>, DecodeError>(is.drop_first()));
    }
}

/// Decoding an encoded instruction stream gives the same stream back, so a
/// re-encoded body runs exactly as the body it came from. The stream must
/// hold each `br_table`'s labels right after it, as decoding produces them.
pub proof fn law_decode_encode_round_trip(is: Seq<Instruction>)
    requires
        labels_in_place(is, 0),
    ensures
        decode_body_spec(encode_all(is), 0, 0) == Ok::<Seq<Instruction>, DecodeError>(is),
{
    let s = encode_all(is);
    assert(s.subrange(0, s.len() as int) =~= s);
    lemma_decode_all(s, 0, is, 0);
}

} // verus!
