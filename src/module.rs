use vstd::prelude::*;
use crate::control::{FuncType, ValueType};
use crate::instruction::{decode_body, decode_body_spec, Instruction};
use crate::interp::{Function, Global};
use crate::memory::MemInst;
use crate::value::{Error, Trap};
use crate::leb128::{i32_at, i64_at, read_i32, read_i64, read_u32, u32_at, DecodeError};
use crate::memory::{le_value, limit_of, read_le};
use crate::value::Value;

verus! {

/// The preamble of every module: the magic `\0asm` and version 1.
pub open spec fn preamble() -> Seq<u8> {
    seq![0x00u8, 0x61, 0x73, 0x6d, 0x01, 0x00, 0x00, 0x00]
}

/// Checks the eight-byte preamble.
pub fn check_header(bytes: &Vec<u8>) -> (r: Result<(), DecodeError>)
    ensures
        r is Ok <==> bytes@.len() >= 8 && bytes@.subrange(0, 8) == preamble(),
        r is Err ==> r == Err::<(), DecodeError>(DecodeError::MalformedHeader),
{
    if bytes.len() < 8 {
        return Err(DecodeError::MalformedHeader);
    }
    let ok = bytes[0] == 0x00 && bytes[1] == 0x61 && bytes[2] == 0x73 && bytes[3] == 0x6d
        && bytes[4] == 0x01 && bytes[5] == 0x00 && bytes[6] == 0x00 && bytes[7] == 0x00;
    if ok {
        assert(bytes@.subrange(0, 8) =~= preamble());
        Ok(())
    } else {
        assert(bytes@.subrange(0, 8) != preamble()) by {
            if bytes@.subrange(0, 8) == preamble() {
                assert(bytes@.subrange(0, 8)[0] == preamble()[0]);
                assert(bytes@.subrange(0, 8)[1] == preamble()[1]);
                assert(bytes@.subrange(0, 8)[2] == preamble()[2]);
                assert(bytes@.subrange(0, 8)[3] == preamble()[3]);
                assert(bytes@.subrange(0, 8)[4] == preamble()[4]);
                assert(bytes@.subrange(0, 8)[5] == preamble()[5]);
                assert(bytes@.subrange(0, 8)[6] == preamble()[6]);
                assert(bytes@.subrange(0, 8)[7] == preamble()[7]);
            }
        }
        Err(DecodeError::MalformedHeader)
    }
}

/// A section of a module: its id and the byte range of its payload.
#[derive(Debug, Clone, Copy, PartialEq, Eq, Structural)]
pub struct Section {
    pub id: u8,
    pub start: usize,
    pub end: usize,
}

/// The sections from `pos` to the end of the module.
pub open spec fn sections_spec(s: Seq<u8>, pos: int) -> Result<Seq<Section>, DecodeError>
    decreases s.len() - pos,
{
    if pos >= s.len() || pos < 0 {
        Ok(Seq::empty())
    } else if s[pos] > 11 {
        Err(DecodeError::UnknownSection)
    } else {
        match u32_at(s, pos + 1) {
            Ok((size, e)) => if e + size > s.len() || e <= pos {
                Err(DecodeError::TruncatedInput)
            } else {
                match sections_spec(s, e + size) {
                    Ok(rest) => Ok(
                        seq![Section { id: s[pos], start: e as usize, end: (e + size) as usize }]
                            + rest,
                    ),
                    Err(x) => Err(x),
                }
            },
            Err(x) => Err(x),
        }
    }
}

pub open spec fn prepend_sections(
    done: Seq<Section>,
    r: Result<Seq<Section>, DecodeError>,
) -> Result<Seq<Section>, DecodeError> {
    match r {
        Ok(rest) => Ok(done + rest),
        Err(x) => Err(x),
    }
}

/// Splits the module after its preamble into sections: an id byte (0 to 11),
/// a LEB128 payload size, then the payload.
pub fn read_sections(bytes: &Vec<u8>) -> (r: Result<Vec<Section>, DecodeError>)
    ensures
        match sections_spec(bytes@, 8) {
            Ok(v) => r matches Ok(w) && w@ == v,
            Err(x) => r == Err::<Vec<Section>, DecodeError>(x),
        },
{
    let mut out: Vec<Section> = Vec::new();
    let mut pos: usize = 8;
    assert(out@ + Seq::<Section>::empty() =~= out@);
    while pos < bytes.len()
        invariant
            8 <= pos,
            pos <= bytes@.len() || bytes@.len() < 8,
            sections_spec(bytes@, 8) == prepend_sections(out@, sections_spec(bytes@, pos as int)),
        decreases bytes@.len() - pos,
    {
        let id = bytes[pos];
        if id > 11 {
            return Err(DecodeError::UnknownSection);
        }
        let (size, e) = read_u32(bytes, pos + 1)?;
        if e <= pos || e > bytes.len() || size as usize > bytes.len() - e {
            return Err(DecodeError::TruncatedInput);
        }
        let sec = Section { id, start: e, end: e + size as usize };
        proof {
            match sections_spec(bytes@, e + size) {
                Ok(rest) => {
                    assert(out@ + (seq![sec] + rest) =~= out@.push(sec) + rest);
                },
                Err(x) => {},
            }
        }
        out.push(sec);
        pos = e + size as usize;
    }
    assert(out@ + Seq::<Section>::empty() =~= out@);
    Ok(out)
}

/// The value type that a byte encodes.
pub open spec fn value_type_of(b: u8) -> Option<ValueType> {
    if b == 0x7f {
        Some(ValueType::I32)
    } else if b == 0x7e {
        Some(ValueType::I64)
    } else if b == 0x7d {
        Some(ValueType::F32)
    } else if b == 0x7c {
        Some(ValueType::F64)
    } else {
        None
    }
}

/// Decodes a value-type byte.
pub fn decode_value_type(b: u8) -> (r: Result<ValueType, DecodeError>)
    ensures
        match value_type_of(b) {
            Some(t) => r == Ok::<ValueType, DecodeError>(t),
            None => r == Err::<ValueType, DecodeError>(DecodeError::BadValueType),
        },
{
    if b == 0x7f {
        Ok(ValueType::I32)
    } else if b == 0x7e {
        Ok(ValueType::I64)
    } else if b == 0x7d {
        Ok(ValueType::F32)
    } else if b == 0x7c {
        Ok(ValueType::F64)
    } else {
        Err(DecodeError::BadValueType)
    }
}

/// The value types of a vector of `n` type bytes at `pos`, and the position after them.
pub open spec fn value_types_spec(s: Seq<u8>, pos: int, n: nat) -> Result<(Seq<ValueType>, int), DecodeError>
    decreases n,
{
    if n == 0 {
        Ok((Seq::empty(), pos))
    } else if pos < 0 || pos >= s.len() {
        Err(DecodeError::TruncatedInput)
    } else {
        match value_type_of(s[pos]) {
            None => Err(DecodeError::BadValueType),
            Some(t) => match value_types_spec(s, pos + 1, (n - 1) as nat) {
                Ok((rest, e)) => Ok((seq![t] + rest, e)),
                Err(x) => Err(x),
            },
        }
    }
}

/// A LEB128 count at `pos` followed by that many value-type bytes.
pub open spec fn value_types_at(s: Seq<u8>, pos: int) -> Result<(Seq<ValueType>, int), DecodeError> {
    match u32_at(s, pos) {
        Ok((n, p)) => value_types_spec(s, p, n as nat),
        Err(x) => Err(x),
    }
}

/// A function type at `pos`: `0x60`, the parameter types, the result types.
pub open spec fn func_type_at(s: Seq<u8>, pos: int) -> Result<((Seq<ValueType>, Seq<ValueType>), int), DecodeError> {
    if pos < 0 || pos >= s.len() {
        Err(DecodeError::TruncatedInput)
    } else if s[pos] != 0x60 {
        Err(DecodeError::BadValueType)
    } else {
        match value_types_at(s, pos + 1) {
            Ok((ps, p)) => match value_types_at(s, p) {
                Ok((rs, q)) => Ok(((ps, rs), q)),
                Err(x) => Err(x),
            },
            Err(x) => Err(x),
        }
    }
}

/// `n` function types in a row from `pos`.
pub open spec fn func_types_spec(s: Seq<u8>, pos: int, n: nat) -> Result<(Seq<(Seq<ValueType>, Seq<ValueType>)>, int), DecodeError>
    decreases n,
{
    if n == 0 {
        Ok((Seq::empty(), pos))
    } else {
        match func_type_at(s, pos) {
            Ok((ft, p)) => match func_types_spec(s, p, (n - 1) as nat) {
                Ok((rest, e)) => Ok((seq![ft] + rest, e)),
                Err(x) => Err(x),
            },
            Err(x) => Err(x),
        }
    }
}

/// Reads a LEB128 count followed by that many value-type bytes.
pub fn read_value_types(bytes: &Vec<u8>, pos: usize) -> (r: Result<(Vec<ValueType>, usize), DecodeError>)
    ensures
        match value_types_at(bytes@, pos as int) {
            Ok((ts, e)) => r matches Ok((v, e2)) && v@ == ts && e2 == e,
            Err(x) => r == Err::<(Vec<ValueType>, usize), DecodeError>(x),
        },
{
    let (n, p) = match read_u32(bytes, pos) {
        Ok(x) => x,
        Err(x) => return Err(x),
    };
    let mut out: Vec<ValueType> = Vec::new();
    let mut i: u32 = 0;
    let mut q: usize = p;
    while i < n
        invariant
            i <= n,
            u32_at(bytes@, pos as int) == Ok::<(u32, int), DecodeError>((n, p as int)),
            value_types_spec(bytes@, p as int, n as nat) == (match value_types_spec(bytes@, q as int, (n - i) as nat) {
                Ok((rest, e)) => Ok((out@ + rest, e)),
                Err(x) => Err::<(Seq<ValueType>, int), DecodeError>(x),
            }),
        decreases n - i,
    {
        if q >= bytes.len() {
            return Err(DecodeError::TruncatedInput);
        }
        let t = match decode_value_type(bytes[q]) {
            Ok(t) => t,
            Err(x) => return Err(x),
        };
        proof {
            match value_types_spec(bytes@, q + 1, (n - i - 1) as nat) {
                Ok((rest, e)) => {
                    assert(out@ + (seq![t] + rest) =~= out@.push(t) + rest);
                },
                Err(x) => {},
            }
        }
        out.push(t);
        q = q + 1;
        i = i + 1;
    }
    assert(out@ + Seq::<ValueType>::empty() =~= out@);
    Ok((out, q))
}

/// An exported item: its name, kind byte (0 for a function) and index.
#[derive(Debug, Clone)]
pub struct Export {
    pub name: Vec<u8>,
    pub kind: u8,
    pub index: u32,
}

/// A decoded module: the parts that running its functions needs.
pub struct Module {
    /// The declared memory, as its minimum page count and optional maximum.
    pub memory: Option<(u32, Option<u32>)>,
    pub types: Vec<FuncType>,
    pub func_types: Vec<u32>,
    pub exports: Vec<Export>,
    pub functions: Vec<Function>,
    /// Data segments: where each goes in memory, and its bytes.
    pub data: Vec<DataSegment>,
    /// The globals with their initial values.
    pub globals: Vec<Global>,
    /// The declared table, as its minimum size and optional maximum.
    pub table: Option<(u32, Option<u32>)>,
    /// Element segments: where each goes in the table, and its function indices.
    pub elems: Vec<ElemSegment>,
}

/// Function indices to place in the table at `offset` when the module is
/// instantiated.
#[derive(Debug, Clone)]
pub struct ElemSegment {
    pub offset: u32,
    pub funcs: Vec<u32>,
}

/// Bytes to copy into memory at `offset` when the module is instantiated.
#[derive(Debug, Clone)]
pub struct DataSegment {
    pub offset: u32,
    pub bytes: Vec<u8>,
}

/// Reads the type section: a count of function types, each `0x60`, its
/// parameter types and its result types.
pub fn read_type_section(bytes: &Vec<u8>, sec: Section) -> (r: Result<Vec<FuncType>, DecodeError>)
    ensures
        match u32_at(bytes@, sec.start as int) {
            Ok((n, p)) => match func_types_spec(bytes@, p, n as nat) {
                Ok((fts, _)) => r matches Ok(v) && v@.len() == fts.len() && forall|k: int|
                    0 <= k < fts.len() ==> (#[trigger] v@[k]).params@ == fts[k].0
                        && v@[k].results@ == fts[k].1,
                Err(x) => r == Err::<Vec<FuncType>, DecodeError>(x),
            },
            Err(x) => r == Err::<Vec<FuncType>, DecodeError>(x),
        },
{
    let (n, first) = match read_u32(bytes, sec.start) {
        Ok(x) => x,
        Err(x) => return Err(x),
    };
    let mut pos = first;
    let mut out: Vec<FuncType> = Vec::new();
    let ghost mut g: Seq<(Seq<ValueType>, Seq<ValueType>)> = Seq::empty();
    let mut i: u32 = 0;
    while i < n
        invariant
            i <= n,
            u32_at(bytes@, sec.start as int) == Ok::<(u32, int), DecodeError>((n, first as int)),
            out@.len() == g.len(),
            forall|k: int| 0 <= k < g.len() ==> (#[trigger] out@[k]).params@ == g[k].0 && out@[k].results@ == g[k].1,
            func_types_spec(bytes@, first as int, n as nat) == (match func_types_spec(bytes@, pos as int, (n - i) as nat) {
                Ok((rest, e)) => Ok((g + rest, e)),
                Err(x) => Err::<(Seq<(Seq<ValueType>, Seq<ValueType>)>, int), DecodeError>(x),
            }),
        decreases n - i,
    {
        if pos >= bytes.len() {
            return Err(DecodeError::TruncatedInput);
        }
        if bytes[pos] != 0x60 {
            return Err(DecodeError::BadValueType);
        }
        let (params, p) = match read_value_types(bytes, pos + 1) {
            Ok(x) => x,
            Err(x) => return Err(x),
        };
        let (results, q) = match read_value_types(bytes, p) {
            Ok(x) => x,
            Err(x) => return Err(x),
        };
        let ghost ft = (params@, results@);
        proof {
            match func_types_spec(bytes@, q as int, (n - i - 1) as nat) {
                Ok((rest, e)) => {
                    assert(g + (seq![ft] + rest) =~= g.push(ft) + rest);
                },
                Err(x) => {},
            }
            g = g.push(ft);
        }
        out.push(FuncType { params, results });
        pos = q;
        i = i + 1;
    }
    assert(g + Seq::<(Seq<ValueType>, Seq<ValueType>)>::empty() =~= g);
    Ok(out)
}

/// `n` LEB128 `u32` values in a row from `pos`.
pub open spec fn u32s_spec(s: Seq<u8>, pos: int, n: nat) -> Result<(Seq<u32>, int), DecodeError>
    decreases n,
{
    if n == 0 {
        Ok((Seq::empty(), pos))
    } else {
        match u32_at(s, pos) {
            Ok((v, p)) => match u32s_spec(s, p, (n - 1) as nat) {
                Ok((rest, e)) => Ok((seq![v] + rest, e)),
                Err(x) => Err(x),
            },
            Err(x) => Err(x),
        }
    }
}

/// Reads a section that is a vector of LEB128 `u32` values (the function section).
pub fn read_u32_vec(bytes: &Vec<u8>, sec: Section) -> (r: Result<Vec<u32>, DecodeError>)
    ensures
        match u32_at(bytes@, sec.start as int) {
            Ok((n, p)) => match u32s_spec(bytes@, p, n as nat) {
                Ok((vs, _)) => r matches Ok(v) && v@ == vs,
                Err(x) => r == Err::<Vec<u32>, DecodeError>(x),
            },
            Err(x) => r == Err::<Vec<u32>, DecodeError>(x),
        },
{
    let (n, first) = match read_u32(bytes, sec.start) {
        Ok(x) => x,
        Err(x) => return Err(x),
    };
    let mut pos = first;
    let mut out: Vec<u32> = Vec::new();
    let mut i: u32 = 0;
    while i < n
        invariant
            i <= n,
            u32_at(bytes@, sec.start as int) == Ok::<(u32, int), DecodeError>((n, first as int)),
            u32s_spec(bytes@, first as int, n as nat) == (match u32s_spec(bytes@, pos as int, (n - i) as nat) {
                Ok((rest, e)) => Ok((out@ + rest, e)),
                Err(x) => Err::<(Seq<u32>, int), DecodeError>(x),
            }),
        decreases n - i,
    {
        let (v, q) = match read_u32(bytes, pos) {
            Ok(x) => x,
            Err(x) => return Err(x),
        };
        proof {
            match u32s_spec(bytes@, q as int, (n - i - 1) as nat) {
                Ok((rest, e)) => {
                    assert(out@ + (seq![v] + rest) =~= out@.push(v) + rest);
                },
                Err(x) => {},
            }
        }
        out.push(v);
        pos = q;
        i = i + 1;
    }
    assert(out@ + Seq::<u32>::empty() =~= out@);
    Ok(out)
}

/// An export entry at `pos`: the name (a LEB128 length, then its bytes),
/// the kind byte and the index.
pub open spec fn export_at(s: Seq<u8>, pos: int) -> Result<((Seq<u8>, u8, u32), int), DecodeError> {
    match u32_at(s, pos) {
        Ok((len, p)) => if p + len + 1 > s.len() {
            Err(DecodeError::TruncatedInput)
        } else {
            match u32_at(s, p + len + 1) {
                Ok((idx, q)) => Ok(((s.subrange(p, p + len), s[p + len], idx), q)),
                Err(x) => Err(x),
            }
        },
        Err(x) => Err(x),
    }
}

/// `n` export entries in a row from `pos`.
pub open spec fn exports_spec(s: Seq<u8>, pos: int, n: nat) -> Result<(Seq<(Seq<u8>, u8, u32)>, int), DecodeError>
    decreases n,
{
    if n == 0 {
        Ok((Seq::empty(), pos))
    } else {
        match export_at(s, pos) {
            Ok((x, p)) => match exports_spec(s, p, (n - 1) as nat) {
                Ok((rest, e)) => Ok((seq![x] + rest, e)),
                Err(y) => Err(y),
            },
            Err(y) => Err(y),
        }
    }
}

/// Reads the export section: a count of entries, each a name (length and
/// bytes), a kind byte and an index.
pub fn read_export_section(bytes: &Vec<u8>, sec: Section) -> (r: Result<Vec<Export>, DecodeError>)
    ensures
        match u32_at(bytes@, sec.start as int) {
            Ok((n, p)) => match exports_spec(bytes@, p, n as nat) {
                Ok((es, _)) => r matches Ok(v) && v@.len() == es.len() && forall|k: int|
                    0 <= k < es.len() ==> (#[trigger] v@[k]).name@ == es[k].0 && v@[k].kind
                        == es[k].1 && v@[k].index == es[k].2,
                Err(x) => r == Err::<Vec<Export>, DecodeError>(x),
            },
            Err(x) => r == Err::<Vec<Export>, DecodeError>(x),
        },
{
    let (n, first) = match read_u32(bytes, sec.start) {
        Ok(x) => x,
        Err(x) => return Err(x),
    };
    let mut pos = first;
    let mut out: Vec<Export> = Vec::new();
    let ghost mut g: Seq<(Seq<u8>, u8, u32)> = Seq::empty();
    let mut i: u32 = 0;
    while i < n
        invariant
            i <= n,
            u32_at(bytes@, sec.start as int) == Ok::<(u32, int), DecodeError>((n, first as int)),
            out@.len() == g.len(),
            forall|k: int| 0 <= k < g.len() ==> (#[trigger] out@[k]).name@ == g[k].0 && out@[k].kind == g[k].1 && out@[k].index == g[k].2,
            exports_spec(bytes@, first as int, n as nat) == (match exports_spec(bytes@, pos as int, (n - i) as nat) {
                Ok((rest, e)) => Ok((g + rest, e)),
                Err(x) => Err::<(Seq<(Seq<u8>, u8, u32)>, int), DecodeError>(x),
            }),
        decreases n - i,
    {
        let (len, p) = match read_u32(bytes, pos) {
            Ok(x) => x,
            Err(x) => return Err(x),
        };
        if p > bytes.len() || len as usize > bytes.len() - p || bytes.len() - p - (len as usize) < 1 {
            return Err(DecodeError::TruncatedInput);
        }
        let mut name: Vec<u8> = Vec::new();
        let mut k: usize = 0;
        let blen = bytes.len();
        while k < len as usize
            invariant
                k <= len,
                blen == bytes@.len(),
                p + len < bytes@.len(),
                name@ == bytes@.subrange(p as int, p + k),
            decreases len - k,
        {
            name.push(bytes[p + k]);
            proof {
                assert(name@ =~= bytes@.subrange(p as int, p + k + 1));
            }
            k = k + 1;
        }
        let kind = bytes[p + len as usize];
        let (index, q) = match read_u32(bytes, p + len as usize + 1) {
            Ok(x) => x,
            Err(x) => return Err(x),
        };
        let ghost x = (name@, kind, index);
        proof {
            match exports_spec(bytes@, q as int, (n - i - 1) as nat) {
                Ok((rest, e)) => {
                    assert(g + (seq![x] + rest) =~= g.push(x) + rest);
                },
                Err(y) => {},
            }
            g = g.push(x);
        }
        out.push(Export { name, kind, index });
        pos = q;
        i = i + 1;
    }
    assert(g + Seq::<(Seq<u8>, u8, u32)>::empty() =~= g);
    Ok(out)
}

/// `g` groups of local declarations from `pos`, each a LEB128 count and a
/// value type, expanded into the list of the locals' types.
pub open spec fn local_groups_spec(s: Seq<u8>, pos: int, g: nat) -> Result<(Seq<ValueType>, int), DecodeError>
    decreases g,
{
    if g == 0 {
        Ok((Seq::empty(), pos))
    } else {
        match u32_at(s, pos) {
            Ok((c, p)) => if p >= s.len() {
                Err(DecodeError::TruncatedInput)
            } else {
                match value_type_of(s[p]) {
                    None => Err(DecodeError::BadValueType),
                    Some(t) => match local_groups_spec(s, p + 1, (g - 1) as nat) {
                        Ok((rest, e)) => Ok((Seq::new(c as nat, |j: int| t) + rest, e)),
                        Err(x) => Err(x),
                    },
                }
            },
            Err(x) => Err(x),
        }
    }
}

/// A code entry at `pos`: its byte size, then the local declarations and
/// the body within that size.
pub open spec fn code_at(s: Seq<u8>, pos: int) -> Result<((Seq<ValueType>, Seq<Instruction>), int), DecodeError> {
    match u32_at(s, pos) {
        Ok((size, p)) => if p + size > s.len() {
            Err(DecodeError::TruncatedInput)
        } else {
            match u32_at(s, p) {
                Ok((g, q0)) => match local_groups_spec(s, q0, g as nat) {
                    Ok((ls, q)) => if q > p + size {
                        Err(DecodeError::TruncatedInput)
                    } else {
                        match decode_body_spec(s.subrange(q, p + size), 0, 0) {
                            Ok(body) => Ok(((ls, body), p + size)),
                            Err(x) => Err(x),
                        }
                    },
                    Err(x) => Err(x),
                },
                Err(x) => Err(x),
            }
        },
        Err(x) => Err(x),
    }
}

/// `n` code entries in a row from `pos`.
pub open spec fn codes_spec(s: Seq<u8>, pos: int, n: nat) -> Result<(Seq<(Seq<ValueType>, Seq<Instruction>)>, int), DecodeError>
    decreases n,
{
    if n == 0 {
        Ok((Seq::empty(), pos))
    } else {
        match code_at(s, pos) {
            Ok((c, p)) => match codes_spec(s, p, (n - 1) as nat) {
                Ok((rest, e)) => Ok((seq![c] + rest, e)),
                Err(x) => Err(x),
            },
            Err(x) => Err(x),
        }
    }
}

/// Reads the local declarations of a code entry.
fn read_locals(bytes: &Vec<u8>, pos: usize) -> (r: Result<(Vec<ValueType>, usize), DecodeError>)
    ensures
        match u32_at(bytes@, pos as int) {
            Ok((g, q0)) => match local_groups_spec(bytes@, q0, g as nat) {
                Ok((ls, q)) => r matches Ok((v, e)) && v@ == ls && e == q,
                Err(x) => r == Err::<(Vec<ValueType>, usize), DecodeError>(x),
            },
            Err(x) => r == Err::<(Vec<ValueType>, usize), DecodeError>(x),
        },
{
    let (groups, q0) = match read_u32(bytes, pos) {
        Ok(x) => x,
        Err(x) => return Err(x),
    };
    let mut q = q0;
    let mut locals: Vec<ValueType> = Vec::new();
    let mut g: u32 = 0;
    while g < groups
        invariant
            g <= groups,
            u32_at(bytes@, pos as int) == Ok::<(u32, int), DecodeError>((groups, q0 as int)),
            local_groups_spec(bytes@, q0 as int, groups as nat) == (match local_groups_spec(bytes@, q as int, (groups - g) as nat) {
                Ok((rest, e)) => Ok((locals@ + rest, e)),
                Err(x) => Err::<(Seq<ValueType>, int), DecodeError>(x),
            }),
        decreases groups - g,
    {
        let (count, q2) = match read_u32(bytes, q) {
            Ok(x) => x,
            Err(x) => return Err(x),
        };
        if q2 >= bytes.len() {
            return Err(DecodeError::TruncatedInput);
        }
        let t = match decode_value_type(bytes[q2]) {
            Ok(t) => t,
            Err(x) => return Err(x),
        };
        let ghost before = locals@;
        let mut c: u32 = 0;
        while c < count
            invariant
                c <= count,
                locals@ == before + Seq::new(c as nat, |j: int| t),
            decreases count - c,
        {
            locals.push(t);
            proof {
                assert(locals@ =~= before + Seq::new((c + 1) as nat, |j: int| t));
            }
            c = c + 1;
        }
        proof {
            match local_groups_spec(bytes@, q2 + 1, (groups - g - 1) as nat) {
                Ok((rest, e)) => {
                    assert(before + (Seq::new(count as nat, |j: int| t) + rest) =~= locals@ + rest);
                },
                Err(x) => {},
            }
        }
        q = q2 + 1;
        g = g + 1;
    }
    assert(locals@ + Seq::<ValueType>::empty() =~= locals@);
    Ok((locals, q))
}

/// Reads the code section: a count of entries, each a byte size, groups of
/// local declarations (count and type), then the body's instructions.
/// `types_of[k]` is the signature of the `k`-th function; the entry count
/// must be the number of functions.
pub fn read_code_section(bytes: &Vec<u8>, sec: Section, types_of: &Vec<FuncType>) -> (r: Result<Vec<Function>, DecodeError>)
    ensures
        r matches Ok(v) ==> v@.len() == types_of@.len(),
        match u32_at(bytes@, sec.start as int) {
            Ok((n, p)) => if n != types_of@.len() {
                r == Err::<Vec<Function>, DecodeError>(DecodeError::BadIndex)
            } else {
                match codes_spec(bytes@, p, n as nat) {
                    Ok((cs, _)) => r matches Ok(v) && v@.len() == cs.len() && forall|k: int|
                        0 <= k < cs.len() ==> (#[trigger] v@[k]).locals@ == cs[k].0
                            && v@[k].body@ == cs[k].1 && v@[k].ty.params@ == types_of@[k].params@
                            && v@[k].ty.results@ == types_of@[k].results@,
                    Err(x) => r == Err::<Vec<Function>, DecodeError>(x),
                }
            },
            Err(x) => r == Err::<Vec<Function>, DecodeError>(x),
        },
{
    let (n, first) = match read_u32(bytes, sec.start) {
        Ok(x) => x,
        Err(x) => return Err(x),
    };
    if n as usize != types_of.len() {
        return Err(DecodeError::BadIndex);
    }
    let mut pos = first;
    let mut out: Vec<Function> = Vec::new();
    let ghost mut gs: Seq<(Seq<ValueType>, Seq<Instruction>)> = Seq::empty();
    let mut i: usize = 0;
    while i < n as usize
        invariant
            i <= n,
            n == types_of@.len(),
            u32_at(bytes@, sec.start as int) == Ok::<(u32, int), DecodeError>((n, first as int)),
            out@.len() == gs.len() == i,
            forall|k: int| 0 <= k < gs.len() ==> (#[trigger] out@[k]).locals@ == gs[k].0
                && out@[k].body@ == gs[k].1 && out@[k].ty.params@ == types_of@[k].params@
                && out@[k].ty.results@ == types_of@[k].results@,
            codes_spec(bytes@, first as int, n as nat) == (match codes_spec(bytes@, pos as int, (n - i) as nat) {
                Ok((rest, e)) => Ok((gs + rest, e)),
                Err(x) => Err::<(Seq<(Seq<ValueType>, Seq<Instruction>)>, int), DecodeError>(x),
            }),
        decreases n - i,
    {
        let (size, p) = match read_u32(bytes, pos) {
            Ok(x) => x,
            Err(x) => return Err(x),
        };
        if p > bytes.len() || size as usize > bytes.len() - p {
            return Err(DecodeError::TruncatedInput);
        }
        let end = p + size as usize;
        let (locals, q) = match read_locals(bytes, p) {
            Ok(x) => x,
            Err(x) => return Err(x),
        };
        if q > end {
            return Err(DecodeError::TruncatedInput);
        }
        let mut body_bytes: Vec<u8> = Vec::new();
        let mut k: usize = q;
        while k < end
            invariant
                q <= k <= end <= bytes@.len(),
                body_bytes@ == bytes@.subrange(q as int, k as int),
            decreases end - k,
        {
            body_bytes.push(bytes[k]);
            proof {
                assert(body_bytes@ =~= bytes@.subrange(q as int, k + 1));
            }
            k = k + 1;
        }
        let body: Vec<Instruction> = match decode_body(&body_bytes) {
            Ok(b) => b,
            Err(x) => return Err(x),
        };
        let ty = FuncType { params: types_of[i].params.clone(), results: types_of[i].results.clone() };
        let ghost c = (locals@, body@);
        proof {
            match codes_spec(bytes@, end as int, (n - i - 1) as nat) {
                Ok((rest, e)) => {
                    assert(gs + (seq![c] + rest) =~= gs.push(c) + rest);
                },
                Err(x) => {},
            }
            gs = gs.push(c);
        }
        out.push(Function { ty, locals, body });
        pos = end;
        i = i + 1;
    }
    assert(gs + Seq::<(Seq<ValueType>, Seq<Instruction>)>::empty() =~= gs);
    Ok(out)
}

/// Memory limits at `pos`: a flag byte, the minimum, and, where the flag
/// is 1, the maximum.
pub open spec fn limits_at(s: Seq<u8>, pos: int) -> Result<((u32, Option<u32>), int), DecodeError> {
    if pos < 0 || pos >= s.len() {
        Err(DecodeError::TruncatedInput)
    } else if s[pos] == 0 {
        match u32_at(s, pos + 1) {
            Ok((min, e)) => Ok(((min, None), e)),
            Err(x) => Err(x),
        }
    } else if s[pos] == 1 {
        match u32_at(s, pos + 1) {
            Ok((min, p)) => match u32_at(s, p) {
                Ok((max, e)) => Ok(((min, Some(max)), e)),
                Err(x) => Err(x),
            },
            Err(x) => Err(x),
        }
    } else {
        Err(DecodeError::BadValueType)
    }
}

/// What the memory section at `start` declares: no memory or one.
pub open spec fn memory_section_spec(s: Seq<u8>, start: int) -> Result<Option<(u32, Option<u32>)>, DecodeError> {
    match u32_at(s, start) {
        Ok((n, p)) => if n == 0 {
            Ok(None)
        } else if n == 1 {
            match limits_at(s, p) {
                Ok((l, _)) => Ok(Some(l)),
                Err(x) => Err(x),
            }
        } else {
            Err(DecodeError::BadIndex)
        },
        Err(x) => Err(x),
    }
}

/// Reads the memory section: at most one memory, given by its limits.
pub fn read_memory_section(bytes: &Vec<u8>, sec: Section) -> (r: Result<Option<(u32, Option<u32>)>, DecodeError>)
    ensures
        r == memory_section_spec(bytes@, sec.start as int),
{
    let (n, p) = match read_u32(bytes, sec.start) {
        Ok(x) => x,
        Err(x) => return Err(x),
    };
    if n == 0 {
        return Ok(None);
    }
    if n != 1 {
        return Err(DecodeError::BadIndex);
    }
    if p >= bytes.len() {
        return Err(DecodeError::TruncatedInput);
    }
    let flag = bytes[p];
    if flag == 0 {
        match read_u32(bytes, p + 1) {
            Ok((min, _)) => Ok(Some((min, None))),
            Err(x) => Err(x),
        }
    } else if flag == 1 {
        let (min, q) = match read_u32(bytes, p + 1) {
            Ok(x) => x,
            Err(x) => return Err(x),
        };
        match read_u32(bytes, q) {
            Ok((max, _)) => Ok(Some((min, Some(max)))),
            Err(x) => Err(x),
        }
    } else {
        Err(DecodeError::BadValueType)
    }
}

/// A data segment at `pos`: memory index 0, the offset expression
/// `i32.const k; end`, then a LEB128 length and the bytes.
pub open spec fn data_at(s: Seq<u8>, pos: int) -> Result<((u32, Seq<u8>), int), DecodeError> {
    match u32_at(s, pos) {
        Ok((mem, p)) => if mem != 0 {
            Err(DecodeError::BadIndex)
        } else if p < 0 || p >= s.len() {
            Err(DecodeError::TruncatedInput)
        } else if s[p] != 0x41 {
            Err(DecodeError::UnknownOpcode)
        } else {
            match i32_at(s, p + 1) {
                Ok((k, q)) => if q < 0 || q >= s.len() {
                    Err(DecodeError::TruncatedInput)
                } else if s[q] != 0x0b {
                    Err(DecodeError::UnknownOpcode)
                } else {
                    match u32_at(s, q + 1) {
                        Ok((len, b)) => if b + len > s.len() {
                            Err(DecodeError::TruncatedInput)
                        } else {
                            Ok(((k as u32, s.subrange(b, b + len)), b + len))
                        },
                        Err(x) => Err(x),
                    }
                },
                Err(x) => Err(x),
            }
        },
        Err(x) => Err(x),
    }
}

/// `n` data segments in a row from `pos`.
pub open spec fn data_spec(s: Seq<u8>, pos: int, n: nat) -> Result<(Seq<(u32, Seq<u8>)>, int), DecodeError>
    decreases n,
{
    if n == 0 {
        Ok((Seq::empty(), pos))
    } else {
        match data_at(s, pos) {
            Ok((d, p)) => match data_spec(s, p, (n - 1) as nat) {
                Ok((rest, e)) => Ok((seq![d] + rest, e)),
                Err(x) => Err(x),
            },
            Err(x) => Err(x),
        }
    }
}

/// Reads the data section: a count of segments, each for memory 0 with a
/// constant offset.
pub fn read_data_section(bytes: &Vec<u8>, sec: Section) -> (r: Result<Vec<DataSegment>, DecodeError>)
    ensures
        match u32_at(bytes@, sec.start as int) {
            Ok((n, p)) => match data_spec(bytes@, p, n as nat) {
                Ok((ds, _)) => r matches Ok(v) && v@.len() == ds.len() && forall|k: int|
                    0 <= k < ds.len() ==> (#[trigger] v@[k]).offset == ds[k].0 && v@[k].bytes@
                        == ds[k].1,
                Err(x) => r == Err::<Vec<DataSegment>, DecodeError>(x),
            },
            Err(x) => r == Err::<Vec<DataSegment>, DecodeError>(x),
        },
{
    let (n, first) = match read_u32(bytes, sec.start) {
        Ok(x) => x,
        Err(x) => return Err(x),
    };
    let mut pos = first;
    let mut out: Vec<DataSegment> = Vec::new();
    let ghost mut g: Seq<(u32, Seq<u8>)> = Seq::empty();
    let mut i: u32 = 0;
    while i < n
        invariant
            i <= n,
            u32_at(bytes@, sec.start as int) == Ok::<(u32, int), DecodeError>((n, first as int)),
            out@.len() == g.len(),
            forall|k: int| 0 <= k < g.len() ==> (#[trigger] out@[k]).offset == g[k].0 && out@[k].bytes@ == g[k].1,
            data_spec(bytes@, first as int, n as nat) == (match data_spec(bytes@, pos as int, (n - i) as nat) {
                Ok((rest, e)) => Ok((g + rest, e)),
                Err(x) => Err::<(Seq<(u32, Seq<u8>)>, int), DecodeError>(x),
            }),
        decreases n - i,
    {
        let (mem, p) = match read_u32(bytes, pos) {
            Ok(x) => x,
            Err(x) => return Err(x),
        };
        if mem != 0 {
            return Err(DecodeError::BadIndex);
        }
        if p >= bytes.len() {
            return Err(DecodeError::TruncatedInput);
        }
        if bytes[p] != 0x41 {
            return Err(DecodeError::UnknownOpcode);
        }
        let (k, q) = match read_i32(bytes, p + 1) {
            Ok(x) => x,
            Err(x) => return Err(x),
        };
        if q >= bytes.len() {
            return Err(DecodeError::TruncatedInput);
        }
        if bytes[q] != 0x0b {
            return Err(DecodeError::UnknownOpcode);
        }
        let (len, b) = match read_u32(bytes, q + 1) {
            Ok(x) => x,
            Err(x) => return Err(x),
        };
        if b > bytes.len() || len as usize > bytes.len() - b {
            return Err(DecodeError::TruncatedInput);
        }
        let mut seg: Vec<u8> = Vec::new();
        let mut j: usize = b;
        let end = b + len as usize;
        while j < end
            invariant
                end == b + len,
                b <= j <= b + len <= bytes@.len(),
                seg@ == bytes@.subrange(b as int, j as int),
            decreases b + len - j,
        {
            seg.push(bytes[j]);
            proof {
                assert(seg@ =~= bytes@.subrange(b as int, j + 1));
            }
            j = j + 1;
        }
        let ghost d = (k as u32, seg@);
        proof {
            match data_spec(bytes@, b + len, (n - i - 1) as nat) {
                Ok((rest, e)) => {
                    assert(g + (seq![d] + rest) =~= g.push(d) + rest);
                },
                Err(x) => {},
            }
            g = g.push(d);
        }
        out.push(DataSegment { offset: k as u32, bytes: seg });
        pos = end;
        i = i + 1;
    }
    assert(g + Seq::<(u32, Seq<u8>)>::empty() =~= g);
    Ok(out)
}

/// A constant expression at `pos` (`i32.const`, `i64.const`, `f32.const`
/// or `f64.const`, then `end`) and the position after it.
pub open spec fn const_at(s: Seq<u8>, pos: int) -> Result<(Value, int), DecodeError> {
    if pos < 0 || pos >= s.len() {
        Err(DecodeError::TruncatedInput)
    } else {
        let r: Result<(Value, int), DecodeError> = if s[pos] == 0x41 {
            match i32_at(s, pos + 1) {
                Ok((v, e)) => Ok((Value::I32(v), e)),
                Err(x) => Err(x),
            }
        } else if s[pos] == 0x42 {
            match i64_at(s, pos + 1) {
                Ok((v, e)) => Ok((Value::I64(v), e)),
                Err(x) => Err(x),
            }
        } else if s[pos] == 0x43 {
            if pos + 5 > s.len() {
                Err(DecodeError::TruncatedInput)
            } else {
                Ok((Value::F32(le_value(s.subrange(pos + 1, pos + 5)) as u32), pos + 5))
            }
        } else if s[pos] == 0x44 {
            if pos + 9 > s.len() {
                Err(DecodeError::TruncatedInput)
            } else {
                Ok((Value::F64(le_value(s.subrange(pos + 1, pos + 9)) as u64), pos + 9))
            }
        } else {
            Err(DecodeError::UnknownOpcode)
        };
        match r {
            Ok((v, e)) => if e < 0 || e >= s.len() {
                Err(DecodeError::TruncatedInput)
            } else if s[e] != 0x0b {
                Err(DecodeError::UnknownOpcode)
            } else {
                Ok((v, e + 1))
            },
            Err(x) => Err(x),
        }
    }
}

/// Reads a constant expression.
pub fn read_const(bytes: &Vec<u8>, pos: usize) -> (r: Result<(Value, usize), DecodeError>)
    ensures
        match const_at(bytes@, pos as int) {
            Ok((v, e)) => r == Ok::<(Value, usize), DecodeError>((v, e as usize)) && e == e as usize,
            Err(x) => r == Err::<(Value, usize), DecodeError>(x),
        },
{
    if pos >= bytes.len() {
        return Err(DecodeError::TruncatedInput);
    }
    let op = bytes[pos];
    let (v, e) = if op == 0x41 {
        match read_i32(bytes, pos + 1) {
            Ok((v, e)) => (Value::I32(v), e),
            Err(x) => return Err(x),
        }
    } else if op == 0x42 {
        match read_i64(bytes, pos + 1) {
            Ok((v, e)) => (Value::I64(v), e),
            Err(x) => return Err(x),
        }
    } else if op == 0x43 {
        if bytes.len() - pos < 5 {
            return Err(DecodeError::TruncatedInput);
        }
        let bits = read_le(bytes, pos + 1, 4);
        proof {
            crate::memory::lemma_pow256_le_8(4);
            reveal_with_fuel(crate::memory::pow256, 5);
        }
        (Value::F32(bits as u32), pos + 5)
    } else if op == 0x44 {
        if bytes.len() - pos < 9 {
            return Err(DecodeError::TruncatedInput);
        }
        (Value::F64(read_le(bytes, pos + 1, 8)), pos + 9)
    } else {
        return Err(DecodeError::UnknownOpcode);
    };
    if e >= bytes.len() {
        return Err(DecodeError::TruncatedInput);
    }
    if bytes[e] != 0x0b {
        return Err(DecodeError::UnknownOpcode);
    }
    Ok((v, e + 1))
}

/// A global entry at `pos`: its value type, a mutability byte (0 or 1) and
/// its constant initial value.
pub open spec fn global_at(s: Seq<u8>, pos: int) -> Result<(Global, int), DecodeError> {
    if pos < 0 || pos + 1 >= s.len() {
        Err(DecodeError::TruncatedInput)
    } else if value_type_of(s[pos]) is None {
        Err(DecodeError::BadValueType)
    } else if s[pos + 1] > 1 {
        Err(DecodeError::BadValueType)
    } else {
        match const_at(s, pos + 2) {
            Ok((v, e)) => Ok((Global { value: v, mutable: s[pos + 1] == 1 }, e)),
            Err(x) => Err(x),
        }
    }
}

/// `n` global entries in a row from `pos`.
pub open spec fn globals_spec(s: Seq<u8>, pos: int, n: nat) -> Result<(Seq<Global>, int), DecodeError>
    decreases n,
{
    if n == 0 {
        Ok((Seq::empty(), pos))
    } else {
        match global_at(s, pos) {
            Ok((g, p)) => match globals_spec(s, p, (n - 1) as nat) {
                Ok((rest, e)) => Ok((seq![g] + rest, e)),
                Err(x) => Err(x),
            },
            Err(x) => Err(x),
        }
    }
}

/// Reads the global section.
pub fn read_global_section(bytes: &Vec<u8>, sec: Section) -> (r: Result<Vec<Global>, DecodeError>)
    ensures
        match u32_at(bytes@, sec.start as int) {
            Ok((n, p)) => match globals_spec(bytes@, p, n as nat) {
                Ok((gs, _)) => r matches Ok(v) && v@ == gs,
                Err(x) => r == Err::<Vec<Global>, DecodeError>(x),
            },
            Err(x) => r == Err::<Vec<Global>, DecodeError>(x),
        },
{
    let (n, first) = match read_u32(bytes, sec.start) {
        Ok(x) => x,
        Err(x) => return Err(x),
    };
    let mut pos = first;
    let mut out: Vec<Global> = Vec::new();
    let mut i: u32 = 0;
    while i < n
        invariant
            i <= n,
            u32_at(bytes@, sec.start as int) == Ok::<(u32, int), DecodeError>((n, first as int)),
            globals_spec(bytes@, first as int, n as nat) == (match globals_spec(bytes@, pos as int, (n - i) as nat) {
                Ok((rest, e)) => Ok((out@ + rest, e)),
                Err(x) => Err::<(Seq<Global>, int), DecodeError>(x),
            }),
        decreases n - i,
    {
        if pos >= bytes.len() || bytes.len() - pos < 2 {
            return Err(DecodeError::TruncatedInput);
        }
        match decode_value_type(bytes[pos]) {
            Ok(_) => {},
            Err(x) => return Err(x),
        }
        let m = bytes[pos + 1];
        if m > 1 {
            return Err(DecodeError::BadValueType);
        }
        let (v, q) = match read_const(bytes, pos + 2) {
            Ok(x) => x,
            Err(x) => return Err(x),
        };
        let g = Global { value: v, mutable: m == 1 };
        proof {
            match globals_spec(bytes@, q as int, (n - i - 1) as nat) {
                Ok((rest, e)) => {
                    assert(out@ + (seq![g] + rest) =~= out@.push(g) + rest);
                },
                Err(x) => {},
            }
        }
        out.push(g);
        pos = q;
        i = i + 1;
    }
    assert(out@ + Seq::<Global>::empty() =~= out@);
    Ok(out)
}

/// What has been read of a module's sections: function types, the type
/// index of each function, exports, the code section, the memory, data
/// segments and globals.
pub type Parts = (
    Seq<(Seq<ValueType>, Seq<ValueType>)>,
    Seq<u32>,
    Seq<(Seq<u8>, u8, u32)>,
    Option<Section>,
    Option<(u32, Option<u32>)>,
    Seq<(u32, Seq<u8>)>,
    Seq<Global>,
);

/// The items of a vector section: a LEB128 count at `start`, then the items.
pub open spec fn section_items<T>(s: Seq<u8>, start: int, items: spec_fn(int, nat) -> Result<(Seq<T>, int), DecodeError>) -> Result<Seq<T>, DecodeError> {
    match u32_at(s, start) {
        Ok((n, p)) => match items(p, n as nat) {
            Ok((v, _)) => Ok(v),
            Err(x) => Err(x),
        },
        Err(x) => Err(x),
    }
}

/// The parts after one more section has been read.
pub open spec fn read_part(s: Seq<u8>, sec: Section, acc: Parts) -> Result<Parts, DecodeError> {
    let (ts, fs, es, code, mem, ds, gs) = acc;
    let start = sec.start as int;
    if sec.id == 1 {
        match section_items(s, start, |p: int, n: nat| func_types_spec(s, p, n)) {
            Ok(v) => Ok((v, fs, es, code, mem, ds, gs)),
            Err(x) => Err(x),
        }
    } else if sec.id == 2 {
        match u32_at(s, start) {
            Ok((n, _)) => if n != 0 { Err(DecodeError::UnlinkableImport) } else { Ok(acc) },
            Err(x) => Err(x),
        }
    } else if sec.id == 3 {
        match section_items(s, start, |p: int, n: nat| u32s_spec(s, p, n)) {
            Ok(v) => Ok((ts, v, es, code, mem, ds, gs)),
            Err(x) => Err(x),
        }
    } else if sec.id == 5 {
        match memory_section_spec(s, start) {
            Ok(v) => Ok((ts, fs, es, code, v, ds, gs)),
            Err(x) => Err(x),
        }
    } else if sec.id == 6 {
        match section_items(s, start, |p: int, n: nat| globals_spec(s, p, n)) {
            Ok(v) => Ok((ts, fs, es, code, mem, ds, v)),
            Err(x) => Err(x),
        }
    } else if sec.id == 7 {
        match section_items(s, start, |p: int, n: nat| exports_spec(s, p, n)) {
            Ok(v) => Ok((ts, fs, v, code, mem, ds, gs)),
            Err(x) => Err(x),
        }
    } else if sec.id == 11 {
        match section_items(s, start, |p: int, n: nat| data_spec(s, p, n)) {
            Ok(v) => Ok((ts, fs, es, code, mem, v, gs)),
            Err(x) => Err(x),
        }
    } else if sec.id == 10 {
        Ok((ts, fs, es, Some(sec), mem, ds, gs))
    } else {
        Ok(acc)
    }
}

/// The parts after reading the first `n` sections in order; a later
/// section of the same kind replaces an earlier one.
pub open spec fn read_parts(s: Seq<u8>, secs: Seq<Section>, n: nat) -> Result<Parts, DecodeError>
    decreases n,
{
    if n == 0 {
        Ok((Seq::empty(), Seq::empty(), Seq::empty(), None, None, Seq::empty(), Seq::empty()))
    } else {
        match read_parts(s, secs, (n - 1) as nat) {
            Ok(acc) => read_part(s, secs[n - 1], acc),
            Err(x) => Err(x),
        }
    }
}

proof fn lemma_read_parts_err(s: Seq<u8>, secs: Seq<Section>, n: nat, m: nat)
    requires
        n <= m,
    ensures
        read_parts(s, secs, n) is Err ==> read_parts(s, secs, m) == read_parts(s, secs, n),
    decreases m - n,
{
    if n < m {
        lemma_read_parts_err(s, secs, n, (m - 1) as nat);
    }
}

/// A copy of a list of value types.
pub fn copy_types(v: &Vec<ValueType>) -> (r: Vec<ValueType>)
    ensures
        r@ == v@,
{
    let mut r: Vec<ValueType> = Vec::new();
    let mut i: usize = 0;
    while i < v.len()
        invariant
            i <= v@.len(),
            r@ == v@.subrange(0, i as int),
        decreases v@.len() - i,
    {
        r.push(v[i]);
        proof {
            assert(r@ =~= v@.subrange(0, i + 1));
        }
        i = i + 1;
    }
    assert(r@ =~= v@);
    r
}

/// The signature of each function, looked up by its type index; `BadIndex`
/// where an index names no type.
pub fn signatures(types: &Vec<FuncType>, func_types: &Vec<u32>) -> (r: Result<Vec<FuncType>, DecodeError>)
    ensures
        (exists|j: int| 0 <= j < func_types@.len() && func_types@[j] >= types@.len()) ==> r
            == Err::<Vec<FuncType>, DecodeError>(DecodeError::BadIndex),
        !(exists|j: int| 0 <= j < func_types@.len() && func_types@[j] >= types@.len()) ==> (r matches Ok(sigs) && sigs@.len() == func_types@.len() && forall|j: int| 0 <= j < func_types@.len() ==> (#[trigger] sigs@[j]).params@ == types@[func_types@[j] as int].params@
                && sigs@[j].results@ == types@[func_types@[j] as int].results@),
{
    let mut sigs: Vec<FuncType> = Vec::new();
    let mut k: usize = 0;
    while k < func_types.len()
        invariant
            k <= func_types@.len(),
            sigs@.len() == k,
            forall|j: int| 0 <= j < k ==> #[trigger] func_types@[j] < types@.len(),
            forall|j: int| 0 <= j < k ==> (#[trigger] sigs@[j]).params@ == types@[func_types@[j] as int].params@
                && sigs@[j].results@ == types@[func_types@[j] as int].results@,
        decreases func_types@.len() - k,
    {
        let t = func_types[k] as usize;
        if t >= types.len() {
            return Err(DecodeError::BadIndex);
        }
        let params = copy_types(&types[t].params);
        let results = copy_types(&types[t].results);
        assert(params@ == types@[t as int].params@);
        assert(t as int == func_types@[k as int] as int);
        let sig = FuncType { params, results };
        let ghost before = sigs@;
        sigs.push(sig);
        proof {
            assert(sigs@[k as int].params@ == types@[func_types@[k as int] as int].params@);
            assert forall|j: int| 0 <= j < k + 1 implies (#[trigger] sigs@[j]).params@ == types@[func_types@[j] as int].params@
                && sigs@[j].results@ == types@[func_types@[j] as int].results@ by {
                if j < k {
                    assert(sigs@[j] == before[j]);
                }
            }
        }
        k = k + 1;
    }
    Ok(sigs)
}

/// What the table section at `start` declares: no table or one of
/// function references (`0x70`) with its limits.
pub open spec fn table_section_spec(s: Seq<u8>, start: int) -> Result<Option<(u32, Option<u32>)>, DecodeError> {
    match u32_at(s, start) {
        Ok((n, p)) => if n == 0 {
            Ok(None)
        } else if n != 1 {
            Err(DecodeError::BadIndex)
        } else if p < 0 || p >= s.len() {
            Err(DecodeError::TruncatedInput)
        } else if s[p] != 0x70 {
            Err(DecodeError::BadValueType)
        } else {
            match limits_at(s, p + 1) {
                Ok((l, _)) => Ok(Some(l)),
                Err(x) => Err(x),
            }
        },
        Err(x) => Err(x),
    }
}

/// Reads the table section.
pub fn read_table_section(bytes: &Vec<u8>, sec: Section) -> (r: Result<Option<(u32, Option<u32>)>, DecodeError>)
    ensures
        r == table_section_spec(bytes@, sec.start as int),
{
    let (n, p) = match read_u32(bytes, sec.start) {
        Ok(x) => x,
        Err(x) => return Err(x),
    };
    if n == 0 {
        return Ok(None);
    }
    if n != 1 {
        return Err(DecodeError::BadIndex);
    }
    if p >= bytes.len() {
        return Err(DecodeError::TruncatedInput);
    }
    if bytes[p] != 0x70 {
        return Err(DecodeError::BadValueType);
    }
    if p + 1 >= bytes.len() {
        return Err(DecodeError::TruncatedInput);
    }
    let flag = bytes[p + 1];
    if flag == 0 {
        match read_u32(bytes, p + 2) {
            Ok((min, _)) => Ok(Some((min, None))),
            Err(x) => Err(x),
        }
    } else if flag == 1 {
        let (min, q) = match read_u32(bytes, p + 2) {
            Ok(x) => x,
            Err(x) => return Err(x),
        };
        match read_u32(bytes, q) {
            Ok((max, _)) => Ok(Some((min, Some(max)))),
            Err(x) => Err(x),
        }
    } else {
        Err(DecodeError::BadValueType)
    }
}

/// An element segment at `pos`: flags 0 (table 0, constant offset), the
/// offset expression `i32.const k; end`, then a vector of function indices.
pub open spec fn elem_at(s: Seq<u8>, pos: int) -> Result<((u32, Seq<u32>), int), DecodeError> {
    match u32_at(s, pos) {
        Ok((flags, p)) => if flags != 0 {
            Err(DecodeError::BadIndex)
        } else if p < 0 || p >= s.len() {
            Err(DecodeError::TruncatedInput)
        } else if s[p] != 0x41 {
            Err(DecodeError::UnknownOpcode)
        } else {
            match i32_at(s, p + 1) {
                Ok((k, q)) => if q < 0 || q >= s.len() {
                    Err(DecodeError::TruncatedInput)
                } else if s[q] != 0x0b {
                    Err(DecodeError::UnknownOpcode)
                } else {
                    match u32_at(s, q + 1) {
                        Ok((n, b)) => match u32s_spec(s, b, n as nat) {
                            Ok((fs, e)) => Ok(((k as u32, fs), e)),
                            Err(x) => Err(x),
                        },
                        Err(x) => Err(x),
                    }
                },
                Err(x) => Err(x),
            }
        },
        Err(x) => Err(x),
    }
}

/// `n` element segments in a row from `pos`.
pub open spec fn elems_spec(s: Seq<u8>, pos: int, n: nat) -> Result<(Seq<(u32, Seq<u32>)>, int), DecodeError>
    decreases n,
{
    if n == 0 {
        Ok((Seq::empty(), pos))
    } else {
        match elem_at(s, pos) {
            Ok((d, p)) => match elems_spec(s, p, (n - 1) as nat) {
                Ok((rest, e)) => Ok((seq![d] + rest, e)),
                Err(x) => Err(x),
            },
            Err(x) => Err(x),
        }
    }
}

/// Reads a count at `pos` and that many LEB128 `u32` values after it.
fn read_u32s_at(bytes: &Vec<u8>, pos: usize) -> (r: Result<(Vec<u32>, usize), DecodeError>)
    ensures
        match u32_at(bytes@, pos as int) {
            Ok((n, p)) => match u32s_spec(bytes@, p, n as nat) {
                Ok((vs, e)) => r matches Ok((v, e2)) && v@ == vs && e2 == e,
                Err(x) => r == Err::<(Vec<u32>, usize), DecodeError>(x),
            },
            Err(x) => r == Err::<(Vec<u32>, usize), DecodeError>(x),
        },
{
    let (n, first) = match read_u32(bytes, pos) {
        Ok(x) => x,
        Err(x) => return Err(x),
    };
    let mut q = first;
    let mut out: Vec<u32> = Vec::new();
    let mut i: u32 = 0;
    while i < n
        invariant
            i <= n,
            u32_at(bytes@, pos as int) == Ok::<(u32, int), DecodeError>((n, first as int)),
            u32s_spec(bytes@, first as int, n as nat) == (match u32s_spec(bytes@, q as int, (n - i) as nat) {
                Ok((rest, e)) => Ok((out@ + rest, e)),
                Err(x) => Err::<(Seq<u32>, int), DecodeError>(x),
            }),
        decreases n - i,
    {
        let (v, e) = match read_u32(bytes, q) {
            Ok(x) => x,
            Err(x) => return Err(x),
        };
        proof {
            match u32s_spec(bytes@, e as int, (n - i - 1) as nat) {
                Ok((rest, e2)) => {
                    assert(out@ + (seq![v] + rest) =~= out@.push(v) + rest);
                },
                Err(x) => {},
            }
        }
        out.push(v);
        q = e;
        i = i + 1;
    }
    assert(out@ + Seq::<u32>::empty() =~= out@);
    Ok((out, q))
}

pub open spec fn elems_view(v: Seq<ElemSegment>) -> Seq<(u32, Seq<u32>)> {
    Seq::new(v.len(), |k: int| (v[k].offset, v[k].funcs@))
}

/// Reads the element section.
pub fn read_elem_section(bytes: &Vec<u8>, sec: Section) -> (r: Result<Vec<ElemSegment>, DecodeError>)
    ensures
        match u32_at(bytes@, sec.start as int) {
            Ok((n, p)) => match elems_spec(bytes@, p, n as nat) {
                Ok((es, _)) => r matches Ok(v) && elems_view(v@) == es,
                Err(x) => r == Err::<Vec<ElemSegment>, DecodeError>(x),
            },
            Err(x) => r == Err::<Vec<ElemSegment>, DecodeError>(x),
        },
{
    let (n, first) = match read_u32(bytes, sec.start) {
        Ok(x) => x,
        Err(x) => return Err(x),
    };
    let mut pos = first;
    let mut out: Vec<ElemSegment> = Vec::new();
    let mut i: u32 = 0;
    assert(elems_view(out@) =~= Seq::empty());
    while i < n
        invariant
            i <= n,
            u32_at(bytes@, sec.start as int) == Ok::<(u32, int), DecodeError>((n, first as int)),
            elems_spec(bytes@, first as int, n as nat) == (match elems_spec(bytes@, pos as int, (n - i) as nat) {
                Ok((rest, e)) => Ok((elems_view(out@) + rest, e)),
                Err(x) => Err::<(Seq<(u32, Seq<u32>)>, int), DecodeError>(x),
            }),
        decreases n - i,
    {
        let (flags, p) = match read_u32(bytes, pos) {
            Ok(x) => x,
            Err(x) => return Err(x),
        };
        if flags != 0 {
            return Err(DecodeError::BadIndex);
        }
        if p >= bytes.len() {
            return Err(DecodeError::TruncatedInput);
        }
        if bytes[p] != 0x41 {
            return Err(DecodeError::UnknownOpcode);
        }
        let (k, q) = match read_i32(bytes, p + 1) {
            Ok(x) => x,
            Err(x) => return Err(x),
        };
        if q >= bytes.len() {
            return Err(DecodeError::TruncatedInput);
        }
        if bytes[q] != 0x0b {
            return Err(DecodeError::UnknownOpcode);
        }
        let (fs, e) = match read_u32s_at(bytes, q + 1) {
            Ok(x) => x,
            Err(x) => return Err(x),
        };
        let seg = ElemSegment { offset: k as u32, funcs: fs };
        proof {
            let d = (k as u32, seg.funcs@);
            match elems_spec(bytes@, e as int, (n - i - 1) as nat) {
                Ok((rest, e2)) => {
                    assert(elems_view(out@) + (seq![d] + rest) =~= elems_view(out@.push(seg)) + rest);
                },
                Err(x) => {},
            }
        }
        out.push(seg);
        pos = e;
        i = i + 1;
    }
    assert(elems_view(out@) + Seq::<(u32, Seq<u32>)>::empty() =~= elems_view(out@));
    Ok(out)
}

/// The table parts of a module: the table and the element segments.
pub type TableParts = (Option<(u32, Option<u32>)>, Seq<(u32, Seq<u32>)>);

/// The table parts after reading the first `n` sections; sections other
/// than the table and element sections are left to `read_parts`.
pub open spec fn read_table_parts(s: Seq<u8>, secs: Seq<Section>, n: nat) -> Result<TableParts, DecodeError>
    decreases n,
{
    if n == 0 {
        Ok((None, Seq::empty()))
    } else {
        match read_table_parts(s, secs, (n - 1) as nat) {
            Ok((t, es)) => {
                let sec = secs[n - 1];
                if sec.id == 4 {
                    match table_section_spec(s, sec.start as int) {
                        Ok(v) => Ok((v, es)),
                        Err(x) => Err(x),
                    }
                } else if sec.id == 9 {
                    match section_items(s, sec.start as int, |p: int, k: nat| elems_spec(s, p, k)) {
                        Ok(v) => Ok((t, v)),
                        Err(x) => Err(x),
                    }
                } else {
                    Ok((t, es))
                }
            },
            Err(x) => Err(x),
        }
    }
}

proof fn lemma_read_table_parts_err(s: Seq<u8>, secs: Seq<Section>, n: nat, m: nat)
    requires
        n <= m,
    ensures
        read_table_parts(s, secs, n) is Err ==> read_table_parts(s, secs, m) == read_table_parts(s, secs, n),
    decreases m - n,
{
    if n < m {
        lemma_read_table_parts_err(s, secs, n, (m - 1) as nat);
    }
}

/// The code entries (locals and body) of the module's functions, checked
/// against the number of functions.
pub open spec fn code_entries(s: Seq<u8>, code: Option<Section>, nfuncs: nat) -> Result<Seq<(Seq<ValueType>, Seq<Instruction>)>, DecodeError> {
    match code {
        None => if nfuncs != 0 { Err(DecodeError::BadIndex) } else { Ok(Seq::empty()) },
        Some(sec) => match u32_at(s, sec.start as int) {
            Ok((n, p)) => if n != nfuncs {
                Err(DecodeError::BadIndex)
            } else {
                match codes_spec(s, p, n as nat) {
                    Ok((cs, _)) => Ok(cs),
                    Err(x) => Err(x),
                }
            },
            Err(x) => Err(x),
        },
    }
}

/// The decoded module: its parts and its functions' code entries.
pub open spec fn module_spec(s: Seq<u8>) -> Result<(Parts, TableParts, Seq<(Seq<ValueType>, Seq<Instruction>)>), DecodeError> {
    if !(s.len() >= 8 && s.subrange(0, 8) == preamble()) {
        Err(DecodeError::MalformedHeader)
    } else {
        match sections_spec(s, 8) {
            Err(x) => Err(x),
            Ok(secs) => match read_parts(s, secs, secs.len()) {
                Err(x) => Err(x),
                Ok(acc) => match read_table_parts(s, secs, secs.len()) {
                    Err(x) => Err(x),
                    Ok(tp) => if exists|k: int| 0 <= k < acc.1.len() && acc.1[k] >= acc.0.len() {
                        Err(DecodeError::BadIndex)
                    } else {
                        match code_entries(s, acc.3, acc.1.len()) {
                            Ok(cs) => Ok((acc, tp, cs)),
                            Err(x) => Err(x),
                        }
                    },
                },
            },
        }
    }
}

pub open spec fn types_view(v: Seq<FuncType>) -> Seq<(Seq<ValueType>, Seq<ValueType>)> {
    Seq::new(v.len(), |k: int| (v[k].params@, v[k].results@))
}

pub open spec fn exports_view(v: Seq<Export>) -> Seq<(Seq<u8>, u8, u32)> {
    Seq::new(v.len(), |k: int| (v[k].name@, v[k].kind, v[k].index))
}

pub open spec fn data_view(v: Seq<DataSegment>) -> Seq<(u32, Seq<u8>)> {
    Seq::new(v.len(), |k: int| (v[k].offset, v[k].bytes@))
}

/// Decodes a module: the preamble, then its sections. The type, function,
/// memory, global, export, code and data sections are read, a non-empty
/// import section is refused, and the others are skipped. Each function's
/// type index must name a type, and the code section must hold one entry
/// per function.
pub fn decode_module(bytes: &Vec<u8>) -> (r: Result<Module, DecodeError>)
    ensures
        match module_spec(bytes@) {
            Err(x) => r == Err::<Module, DecodeError>(x),
            Ok((acc, tp, cs)) => r matches Ok(m) && {
                &&& m.table == tp.0
                &&& elems_view(m.elems@) == tp.1
                &&& types_view(m.types@) == acc.0
                &&& m.func_types@ == acc.1
                &&& exports_view(m.exports@) == acc.2
                &&& m.memory == acc.4
                &&& data_view(m.data@) == acc.5
                &&& m.globals@ == acc.6
                &&& m.functions@.len() == cs.len() == acc.1.len()
                &&& forall|k: int| 0 <= k < cs.len() ==> {
                    &&& (#[trigger] m.functions@[k]).locals@ == cs[k].0
                    &&& m.functions@[k].body@ == cs[k].1
                    &&& m.functions@[k].ty.params@ == acc.0[acc.1[k] as int].0
                    &&& m.functions@[k].ty.results@ == acc.0[acc.1[k] as int].1
                }
            },
        },
{
    match check_header(bytes) {
        Ok(()) => {},
        Err(x) => return Err(x),
    }
    let sections = match read_sections(bytes) {
        Ok(s) => s,
        Err(x) => return Err(x),
    };
    let mut types: Vec<FuncType> = Vec::new();
    let mut func_types: Vec<u32> = Vec::new();
    let mut exports: Vec<Export> = Vec::new();
    let mut code: Option<Section> = None;
    let mut memory: Option<(u32, Option<u32>)> = None;
    let mut data: Vec<DataSegment> = Vec::new();
    let mut globals: Vec<Global> = Vec::new();
    let mut i: usize = 0;
    assert(types_view(types@) =~= Seq::empty());
    assert(exports_view(exports@) =~= Seq::empty());
    assert(data_view(data@) =~= Seq::empty());
    while i < sections.len()
        invariant
            i <= sections@.len(),
            bytes@.len() >= 8 && bytes@.subrange(0, 8) == preamble(),
            sections_spec(bytes@, 8) == Ok::<Seq<Section>, DecodeError>(sections@),
            read_parts(bytes@, sections@, i as nat) == Ok::<Parts, DecodeError>(
                (types_view(types@), func_types@, exports_view(exports@), code, memory, data_view(data@), globals@),
            ),
        decreases sections@.len() - i,
    {
        proof {
            lemma_read_parts_err(bytes@, sections@, (i + 1) as nat, sections@.len());
        }
        let sec = sections[i];
        if sec.id == 1 {
            types = match read_type_section(bytes, sec) {
                Ok(v) => v,
                Err(x) => return Err(x),
            };
            proof {
                match u32_at(bytes@, sec.start as int) {
                    Ok((n, p)) => match func_types_spec(bytes@, p, n as nat) {
                        Ok((fts, _)) => { assert(types_view(types@) =~= fts); },
                        Err(_) => {},
                    },
                    Err(_) => {},
                }
            }
        } else if sec.id == 2 {
            let (n, _) = match read_u32(bytes, sec.start) {
                Ok(x) => x,
                Err(x) => return Err(x),
            };
            if n != 0 {
                return Err(DecodeError::UnlinkableImport);
            }
        } else if sec.id == 3 {
            func_types = match read_u32_vec(bytes, sec) {
                Ok(v) => v,
                Err(x) => return Err(x),
            };
        } else if sec.id == 5 {
            memory = match read_memory_section(bytes, sec) {
                Ok(v) => v,
                Err(x) => return Err(x),
            };
        } else if sec.id == 6 {
            globals = match read_global_section(bytes, sec) {
                Ok(v) => v,
                Err(x) => return Err(x),
            };
        } else if sec.id == 7 {
            exports = match read_export_section(bytes, sec) {
                Ok(v) => v,
                Err(x) => return Err(x),
            };
            proof {
                match u32_at(bytes@, sec.start as int) {
                    Ok((n, p)) => match exports_spec(bytes@, p, n as nat) {
                        Ok((es, _)) => { assert(exports_view(exports@) =~= es); },
                        Err(_) => {},
                    },
                    Err(_) => {},
                }
            }
        } else if sec.id == 11 {
            data = match read_data_section(bytes, sec) {
                Ok(v) => v,
                Err(x) => return Err(x),
            };
            proof {
                match u32_at(bytes@, sec.start as int) {
                    Ok((n, p)) => match data_spec(bytes@, p, n as nat) {
                        Ok((ds, _)) => { assert(data_view(data@) =~= ds); },
                        Err(_) => {},
                    },
                    Err(_) => {},
                }
            }
        } else if sec.id == 10 {
            code = Some(sec);
        }
        i = i + 1;
    }
    let mut table: Option<(u32, Option<u32>)> = None;
    let mut elems: Vec<ElemSegment> = Vec::new();
    assert(elems_view(elems@) =~= Seq::empty());
    let mut i: usize = 0;
    while i < sections.len()
        invariant
            i <= sections@.len(),
            bytes@.len() >= 8 && bytes@.subrange(0, 8) == preamble(),
            sections_spec(bytes@, 8) == Ok::<Seq<Section>, DecodeError>(sections@),
            read_parts(bytes@, sections@, sections@.len()) == Ok::<Parts, DecodeError>(
                (types_view(types@), func_types@, exports_view(exports@), code, memory, data_view(data@), globals@),
            ),
            read_table_parts(bytes@, sections@, i as nat) == Ok::<TableParts, DecodeError>((table, elems_view(elems@))),
        decreases sections@.len() - i,
    {
        proof {
            lemma_read_table_parts_err(bytes@, sections@, (i + 1) as nat, sections@.len());
        }
        let sec = sections[i];
        if sec.id == 4 {
            table = match read_table_section(bytes, sec) {
                Ok(v) => v,
                Err(x) => return Err(x),
            };
        } else if sec.id == 9 {
            elems = match read_elem_section(bytes, sec) {
                Ok(v) => v,
                Err(x) => return Err(x),
            };
        }
        i = i + 1;
    }
    let ghost acc = (types_view(types@), func_types@, exports_view(exports@), code, memory, data_view(data@), globals@);
    let sigs = match signatures(&types, &func_types) {
        Ok(v) => v,
        Err(x) => return Err(x),
    };
    let functions = match code {
        Some(sec) => match read_code_section(bytes, sec, &sigs) {
            Ok(f) => f,
            Err(x) => return Err(x),
        },
        None => {
            if sigs.len() != 0 {
                return Err(DecodeError::BadIndex);
            }
            Vec::new()
        },
    };
    Ok(Module { memory, types, func_types, exports, functions, data, globals, table, elems })
}

/// Whether two byte strings are equal.
pub fn same_bytes(a: &Vec<u8>, b: &Vec<u8>) -> (r: bool)
    ensures
        r == (a@ == b@),
{
    if a.len() != b.len() {
        return false;
    }
    let mut i: usize = 0;
    while i < a.len()
        invariant
            a@.len() == b@.len(),
            i <= a@.len(),
            forall|k: int| 0 <= k < i ==> a@[k] == b@[k],
        decreases a@.len() - i,
    {
        if a[i] != b[i] {
            return false;
        }
        i = i + 1;
    }
    assert(a@ =~= b@);
    true
}

/// The function index of the first function export named `name`.
pub fn find_function_export(exports: &Vec<Export>, name: &Vec<u8>) -> (r: Option<u32>)
    ensures
        match r {
            Some(idx) => exists|k: int|
                0 <= k < exports@.len() && (#[trigger] exports@[k]).name@ == name@
                    && exports@[k].kind == 0 && exports@[k].index == idx && forall|j: int|
                    0 <= j < k ==> !((#[trigger] exports@[j]).name@ == name@ && exports@[j].kind
                        == 0),
            None => forall|k: int|
                0 <= k < exports@.len() ==> !((#[trigger] exports@[k]).name@ == name@
                    && exports@[k].kind == 0),
        },
{
    let mut i: usize = 0;
    while i < exports.len()
        invariant
            i <= exports@.len(),
            forall|j: int|
                0 <= j < i ==> !((#[trigger] exports@[j]).name@ == name@ && exports@[j].kind == 0),
        decreases exports@.len() - i,
    {
        if exports[i].kind == 0 && same_bytes(&exports[i].name, name) {
            return Some(exports[i].index);
        }
        i = i + 1;
    }
    None
}

/// The memory bytes after copying each segment in, in order; `None` where
/// a segment does not fit.
pub open spec fn apply_segments(mem: Seq<u8>, segs: Seq<DataSegment>) -> Option<Seq<u8>>
    decreases segs.len(),
{
    if segs.len() == 0 {
        Some(mem)
    } else {
        let d = segs[0];
        let off = d.offset as int;
        if off + d.bytes@.len() > mem.len() {
            None
        } else {
            apply_segments(
                mem.subrange(0, off) + d.bytes@ + mem.subrange(off + d.bytes@.len(), mem.len() as int),
                segs.drop_first(),
            )
        }
    }
}

/// The declared limits of a module's memory: none declared means no pages.
pub open spec fn limits_or_empty(memory: Option<(u32, Option<u32>)>) -> (u32, Option<u32>) {
    match memory {
        Some(l) => l,
        None => (0, None),
    }
}

/// The memory a module starts with: its declared pages, zero-filled (no
/// pages where it declares none), with each data segment copied in, in
/// order. Fails with `OutOfBoundsMemoryAccess` where the declared minimum
/// exceeds the maximum or the address space, or where a segment does not fit.
pub fn instantiate_memory(memory: Option<(u32, Option<u32>)>, data: &Vec<DataSegment>) -> (r: Result<MemInst, Error>)
    ensures
        ({
            let (min, max) = limits_or_empty(memory);
            let zeros = Seq::new(min as nat * 65536, |i: int| 0u8);
            if min > limit_of(max) || min as nat * 65536 > usize::MAX {
                r == Err::<MemInst, Error>(Error::Trap(Trap::OutOfBoundsMemoryAccess))
            } else {
                match apply_segments(zeros, data@) {
                    None => r == Err::<MemInst, Error>(Error::Trap(Trap::OutOfBoundsMemoryAccess)),
                    Some(bytes) => r matches Ok(m) && m.wf() && m.max == max && m.data@ == bytes,
                }
            }
        }),
{
    let (min, max) = match memory {
        Some(l) => l,
        None => (0, None),
    };
    let mut m = match MemInst::new(min, max) {
        Some(m) => m,
        None => return Err(Error::Trap(Trap::OutOfBoundsMemoryAccess)),
    };
    let ghost zeros = m.data@;
    assert(!(min > limit_of(max) || min as nat * 65536 > usize::MAX));
    assert(zeros =~= Seq::new(min as nat * 65536, |i: int| 0u8));
    let mut i: usize = 0;
    assert(data@.subrange(0, data@.len() as int) =~= data@);
    while i < data.len()
        invariant
            i <= data@.len(),
            m.wf(),
            m.max == max,
            m.data@.len() == zeros.len(),
            (min, max) == limits_or_empty(memory),
            !(min > limit_of(max) || min as nat * 65536 > usize::MAX),
            zeros == Seq::new(min as nat * 65536, |i: int| 0u8),
            apply_segments(zeros, data@) == apply_segments(m.data@, data@.subrange(i as int, data@.len() as int)),
        decreases data@.len() - i,
    {
        assert(data@.subrange(i as int, data@.len() as int).drop_first() =~= data@.subrange(i + 1, data@.len() as int));
        assert(data@.subrange(i as int, data@.len() as int)[0] == data@[i as int]);
        match m.init_data(data[i].offset, &data[i].bytes) {
            Ok(()) => {},
            Err(t) => return Err(Error::Trap(t)),
        }
        i = i + 1;
    }
    Ok(m)
}

/// The table entries after placing each element segment, in order; `None`
/// where a segment does not fit.
pub open spec fn apply_elems(t: Seq<Option<usize>>, segs: Seq<(u32, Seq<u32>)>) -> Option<Seq<Option<usize>>>
    decreases segs.len(),
{
    if segs.len() == 0 {
        Some(t)
    } else {
        let off = segs[0].0 as int;
        let fs = segs[0].1;
        if off + fs.len() > t.len() {
            None
        } else {
            apply_elems(
                t.subrange(0, off) + Seq::new(fs.len(), |k: int| Some(fs[k] as usize)) + t.subrange(off + fs.len(), t.len() as int),
                segs.drop_first(),
            )
        }
    }
}

/// The table a module starts with: `min` empty slots (none where no table
/// is declared), with each element segment placed in, in order. Traps
/// `UndefinedElement` where a segment does not fit.
pub fn instantiate_table(table: Option<(u32, Option<u32>)>, elems: &Vec<ElemSegment>) -> (r: Result<Vec<Option<usize>>, Error>)
    ensures
        match apply_elems(Seq::new(limits_or_empty(table).0 as nat, |k: int| None), elems_view(elems@)) {
            None => r == Err::<Vec<Option<usize>>, Error>(Error::Trap(Trap::UndefinedElement)),
            Some(t) => r matches Ok(v) && v@ == t,
        },
{
    let (min, _) = match table {
        Some(l) => l,
        None => (0, None),
    };
    let mut t: Vec<Option<usize>> = Vec::new();
    let mut k: u32 = 0;
    while k < min
        invariant
            k <= min,
            t@ == Seq::new(k as nat, |j: int| None::<usize>),
        decreases min - k,
    {
        t.push(None);
        proof {
            assert(t@ =~= Seq::new((k + 1) as nat, |j: int| None::<usize>));
        }
        k = k + 1;
    }
    let ghost start = t@;
    let mut i: usize = 0;
    assert(elems_view(elems@).subrange(0, elems@.len() as int) =~= elems_view(elems@));
    while i < elems.len()
        invariant
            i <= elems@.len(),
            start == Seq::new(min as nat, |j: int| None::<usize>),
            (min, limits_or_empty(table).1) == limits_or_empty(table),
            apply_elems(start, elems_view(elems@)) == apply_elems(t@, elems_view(elems@).subrange(i as int, elems@.len() as int)),
        decreases elems@.len() - i,
    {
        let ghost rest = elems_view(elems@).subrange(i as int, elems@.len() as int);
        assert(rest.drop_first() =~= elems_view(elems@).subrange(i + 1, elems@.len() as int));
        assert(rest[0] == (elems@[i as int].offset, elems@[i as int].funcs@));
        let off = elems[i].offset as usize;
        let fs = &elems[i].funcs;
        if off > t.len() || fs.len() > t.len() - off {
            return Err(Error::Trap(Trap::UndefinedElement));
        }
        let ghost before = t@;
        let n = t.len();
        let mut j: usize = 0;
        while j < fs.len()
            invariant
                j <= fs@.len(),
                off + fs@.len() <= n,
                n == t@.len(),
                n == before.len(),
                t@ == before.subrange(0, off as int) + Seq::new(j as nat, |k: int| Some(fs@[k] as usize))
                    + before.subrange(off + j, n as int),
            decreases fs@.len() - j,
        {
            let ghost prev = t@;
            t.set(off + j, Some(fs[j] as usize));
            proof {
                let a = before.subrange(0, off as int);
                let b = Seq::new(j as nat, |k: int| Some(fs@[k] as usize));
                let c = before.subrange(off + j, n as int);
                let want = a + Seq::new((j + 1) as nat, |k: int| Some(fs@[k] as usize)) + before.subrange(off + j + 1, n as int);
                assert forall|k: int| 0 <= k < n implies #[trigger] t@[k] == want[k] by {
                    if k < off {
                        assert(prev[k] == (a + b)[k]);
                    } else if k < off + j {
                        assert(prev[k] == (a + b)[k]);
                    } else if k > off + j {
                        assert(prev[k] == c[k - off - j]);
                    }
                }
                assert(t@ =~= want);
            }
            j = j + 1;
        }
        i = i + 1;
    }
    assert(elems_view(elems@).subrange(elems@.len() as int, elems@.len() as int) =~= Seq::empty());
    Ok(t)
}

} // verus!
