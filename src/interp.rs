use vstd::prelude::*;
use crate::control::{br_table_depth, branch, call_indirect_target, FuncType, Label, LabelKind, ValueType};
use crate::module::copy_types;
use crate::value::Trap;
use crate::instruction::Instruction;
use crate::memory::MemInst;
use crate::runtime::{pop_rl, step, Frame, Runtime};
use crate::value::{Error, Value};

verus! {

/// A global variable and whether it may be written.
#[derive(Debug, Clone, Copy, PartialEq, Eq, Structural)]
pub struct Global {
    pub value: Value,
    pub mutable: bool,
}

/// A function of the module: its signature, declared locals and body.
pub struct Function {
    pub ty: FuncType,
    pub locals: Vec<ValueType>,
    pub body: Vec<Instruction>,
}

/// The zero value of a type, which locals start with.
pub open spec fn zero_of(t: ValueType) -> Value {
    match t {
        ValueType::I32 => Value::I32(0),
        ValueType::I64 => Value::I64(0),
        ValueType::F32 => Value::F32(0),
        ValueType::F64 => Value::F64(0),
    }
}

pub open spec fn type_of(v: Value) -> ValueType {
    match v {
        Value::I32(_) => ValueType::I32,
        Value::I64(_) => ValueType::I64,
        Value::F32(_) => ValueType::F32,
        Value::F64(_) => ValueType::F64,
    }
}

pub fn zero_value(t: ValueType) -> (r: Value)
    ensures
        r == zero_of(t),
{
    match t {
        ValueType::I32 => Value::I32(0),
        ValueType::I64 => Value::I64(0),
        ValueType::F32 => Value::F32(0),
        ValueType::F64 => Value::F64(0),
    }
}

pub fn value_type(v: Value) -> (r: ValueType)
    ensures
        r == type_of(v),
{
    match v {
        Value::I32(_) => ValueType::I32,
        Value::I64(_) => ValueType::I64,
        Value::F32(_) => ValueType::F32,
        Value::F64(_) => ValueType::F64,
    }
}

/// The width in bytes of a load, whether it sign-extends, and whether it
/// gives an `i64`.
pub open spec fn load_shape_of(i: Instruction) -> (usize, bool, bool) {
    match i {
        Instruction::I32Load(..) => (4, false, false),
        Instruction::I64Load(..) => (8, false, true),
        Instruction::I32Load8U(..) => (1, false, false),
        Instruction::I32Load8S(..) => (1, true, false),
        Instruction::I32Load16S(..) => (2, true, false),
        Instruction::I32Load16U(..) => (2, false, false),
        Instruction::I64Load8S(..) => (1, true, true),
        Instruction::I64Load8U(..) => (1, false, true),
        Instruction::I64Load16S(..) => (2, true, true),
        Instruction::I64Load16U(..) => (2, false, true),
        Instruction::I64Load32S(..) => (4, true, true),
        Instruction::I64Load32U(..) => (4, false, true),
        _ => (4, false, false),
    }
}

pub fn load_shape(i: Instruction) -> (r: (usize, bool, bool))
    ensures
        r == load_shape_of(i),
        r.0 <= 8,
{
    match i {
        Instruction::I32Load(..) => (4, false, false),
        Instruction::I64Load(..) => (8, false, true),
        Instruction::I32Load8U(..) => (1, false, false),
        Instruction::I32Load8S(..) => (1, true, false),
        Instruction::I32Load16S(..) => (2, true, false),
        Instruction::I32Load16U(..) => (2, false, false),
        Instruction::I64Load8S(..) => (1, true, true),
        Instruction::I64Load8U(..) => (1, false, true),
        Instruction::I64Load16S(..) => (2, true, true),
        Instruction::I64Load16U(..) => (2, false, true),
        Instruction::I64Load32S(..) => (4, true, true),
        Instruction::I64Load32U(..) => (4, false, true),
        _ => (4, false, false),
    }
}

/// The width in bytes of a store, and whether it takes an `i64` operand.
pub open spec fn store_shape_of(i: Instruction) -> (usize, bool) {
    match i {
        Instruction::I32Store(..) => (4, false),
        Instruction::I64Store(..) => (8, true),
        Instruction::I32Store8(..) => (1, false),
        Instruction::I32Store16(..) => (2, false),
        Instruction::I64Store8(..) => (1, true),
        Instruction::I64Store16(..) => (2, true),
        Instruction::I64Store32(..) => (4, true),
        _ => (4, false),
    }
}

pub fn store_shape(i: Instruction) -> (r: (usize, bool))
    ensures
        r == store_shape_of(i),
        r.0 <= 8,
{
    match i {
        Instruction::I32Store(..) => (4, false),
        Instruction::I64Store(..) => (8, true),
        Instruction::I32Store8(..) => (1, false),
        Instruction::I32Store16(..) => (2, false),
        Instruction::I64Store8(..) => (1, true),
        Instruction::I64Store16(..) => (2, true),
        Instruction::I64Store32(..) => (4, true),
        _ => (4, false),
    }
}

/// The value a load of `width` bytes pushes for the little-endian integer
/// `v`: sign- or zero-extended to 32 or 64 bits.
pub open spec fn loaded_spec(v: u64, width: usize, signed: bool, wide: bool) -> Value {
    let x: i64 = if !signed {
        v as i64
    } else if width == 1 {
        v as u8 as i8 as i64
    } else if width == 2 {
        v as u16 as i16 as i64
    } else if width == 4 {
        v as u32 as i32 as i64
    } else {
        v as i64
    };
    if wide { Value::I64(x) } else { Value::I32(x as i32) }
}

pub fn loaded_value(v: u64, width: usize, signed: bool, wide: bool) -> (r: Value)
    ensures
        r == loaded_spec(v, width, signed, wide),
{
    let x: i64 = if !signed {
        v as i64
    } else if width == 1 {
        v as u8 as i8 as i64
    } else if width == 2 {
        v as u16 as i16 as i64
    } else if width == 4 {
        v as u32 as i32 as i64
    } else {
        v as i64
    };
    if wide { Value::I64(x) } else { Value::I32(x as i32) }
}

/// The labels of a `br_table` with `n` labels whose entries start at
/// `start`: the `n` depths and the default; `None` where the entries there
/// are not `n + 1` labels.
pub fn table_labels(body: &Vec<Instruction>, start: usize, n: usize) -> (r: Option<(Vec<u32>, u32)>)
    ensures
        match r {
            Some((ds, d)) => {
                &&& start + n < body@.len()
                &&& ds@.len() == n
                &&& forall|j: int| 0 <= j < n ==> body@[start + j] == Instruction::BrTarget(#[trigger] ds@[j])
                &&& body@[start + n] == Instruction::BrTarget(d)
            },
            None => !(start + n < body@.len() && forall|j: int| 0 <= j <= n ==> #[trigger] body@[start + j] is BrTarget),
        },
{
    if start > body.len() || n >= body.len() - start {
        return None;
    }
    let mut depths: Vec<u32> = Vec::new();
    let mut j: usize = 0;
    let len = body.len();
    while j < n
        invariant
            j <= n,
            len == body@.len(),
            start + n < body@.len(),
            depths@.len() == j,
            forall|k: int| 0 <= k < j ==> body@[start + k] == Instruction::BrTarget(#[trigger] depths@[k]),
        decreases n - j,
    {
        match body[start + j] {
            Instruction::BrTarget(d) => depths.push(d),
            _ => return None,
        }
        j = j + 1;
    }
    match body[start + n] {
        Instruction::BrTarget(d) => Some((depths, d)),
        _ => None,
    }
}

/// How many values a block of type `bt` leaves.
pub open spec fn arity_of(bt: Option<ValueType>) -> usize {
    match bt {
        Some(_) => 1,
        None => 0,
    }
}

pub fn block_arity(bt: Option<ValueType>) -> (r: usize)
    ensures
        r == arity_of(bt),
{
    match bt {
        Some(_) => 1,
        None => 0,
    }
}

/// Whether `args` has exactly the types `params`.
pub open spec fn args_match(args: Seq<Value>, params: Seq<ValueType>) -> bool {
    &&& args.len() == params.len()
    &&& forall|k: int| 0 <= k < args.len() ==> type_of(#[trigger] args[k]) == params[k]
}

pub fn check_args(args: &Vec<Value>, params: &Vec<ValueType>) -> (r: bool)
    ensures
        r == args_match(args@, params@),
{
    if args.len() != params.len() {
        return false;
    }
    let mut i: usize = 0;
    while i < args.len()
        invariant
            args@.len() == params@.len(),
            i <= args@.len(),
            forall|k: int| 0 <= k < i ==> type_of(#[trigger] args@[k]) == params@[k],
        decreases args@.len() - i,
    {
        if value_type(args[i]) != params[i] {
            return false;
        }
        i = i + 1;
    }
    true
}

/// The locals of a fresh frame: the arguments, then each declared local
/// at its zero value.
pub fn initial_locals(args: Vec<Value>, locals: &Vec<ValueType>) -> (r: Vec<Value>)
    ensures
        r@.len() == args@.len() + locals@.len(),
        r@.subrange(0, args@.len() as int) == args@,
        forall|k: int|
            0 <= k < locals@.len() ==> r@[args@.len() + k] == zero_of(#[trigger] locals@[k]),
{
    let mut r = args;
    let ghost a = r@;
    let mut i: usize = 0;
    while i < locals.len()
        invariant
            i <= locals@.len(),
            r@.len() == a.len() + i,
            r@.subrange(0, a.len() as int) == a,
            forall|k: int| 0 <= k < i ==> r@[a.len() + k] == zero_of(#[trigger] locals@[k]),
        decreases locals@.len() - i,
    {
        r.push(zero_value(locals[i]));
        proof {
            assert(r@.subrange(0, a.len() as int) =~= a);
        }
        i = i + 1;
    }
    r
}

/// How many structured blocks are open just before position `j`, counting
/// from `from`: each `block`, `loop` and `if` opens one and each `end`
/// closes one.
pub open spec fn nesting(body: Seq<Instruction>, from: int, j: int) -> int
    decreases j - from,
{
    if j <= from {
        0
    } else {
        nesting(body, from, j - 1) + match body[j - 1] {
            Instruction::If(_) | Instruction::Block(_) | Instruction::Loop(_) => 1int,
            Instruction::End => -1int,
            _ => 0int,
        }
    }
}

/// Whether position `j` closes the block that starts at `from`.
pub open spec fn closes(body: Seq<Instruction>, from: int, j: int) -> bool {
    body[j] == Instruction::End && nesting(body, from, j) == 0
}

/// Whether position `j` is the `else` of the block that starts at `from`.
pub open spec fn own_else(body: Seq<Instruction>, from: int, j: int) -> bool {
    body[j] == Instruction::Else && nesting(body, from, j) == 0
}

/// Finds, for the block whose body starts at `from`, its matching `end`
/// (the first `end` with no block left open inside) and its own `else`, if
/// any; `None` where the block is never closed.
pub fn match_block(body: &Vec<Instruction>, from: usize) -> (r: Option<(Option<usize>, usize)>)
    ensures
        match r {
            Some((e, end)) => {
                &&& from <= end < body@.len()
                &&& closes(body@, from as int, end as int)
                &&& forall|j: int| from <= j < end ==> !closes(body@, from as int, j)
                &&& match e {
                    Some(x) => from <= x < end && own_else(body@, from as int, x as int),
                    None => forall|j: int| from <= j < end ==> !own_else(body@, from as int, j),
                }
            },
            None => forall|j: int| from <= j < body@.len() ==> !closes(body@, from as int, j),
        },
{
    if from > body.len() {
        return None;
    }
    let mut depth: usize = 0;
    let mut els: Option<usize> = None;
    let mut i: usize = from;
    while i < body.len()
        invariant
            from <= i <= body@.len(),
            depth as int == nesting(body@, from as int, i as int),
            depth <= i - from,
            forall|j: int| from <= j < i ==> !closes(body@, from as int, j),
            match els {
                Some(x) => from <= x < i && own_else(body@, from as int, x as int),
                None => forall|j: int| from <= j < i ==> !own_else(body@, from as int, j),
            },
        decreases body@.len() - i,
    {
        match body[i] {
            Instruction::If(_) | Instruction::Block(_) | Instruction::Loop(_) => {
                depth = depth + 1;
            },
            Instruction::Else => {
                if depth == 0 && els.is_none() {
                    els = Some(i);
                }
            },
            Instruction::End => {
                if depth == 0 {
                    return Some((els, i));
                }
                depth = depth - 1;
            },
            _ => {},
        }
        i = i + 1;
    }
    None
}

/// Runs function `idx` on `args`, with `memory` as linear memory and
/// `globals` as global variables, until it returns, and gives its results.
/// Only mutable globals change. `call_indirect` looks its callee up in
/// `table` and checks it against `types`, the module's type section.
/// Each executed instruction spends one unit of `budget`; `Exhausted` where
/// the budget runs out first. The arguments must match the parameter types.
pub fn invoke(
    funcs: &Vec<Function>,
    memory: &mut MemInst,
    globals: &mut Vec<Global>,
    types: &Vec<FuncType>,
    table: &Vec<Option<usize>>,
    idx: usize,
    args: Vec<Value>,
    budget: u64,
) -> (r: Result<
    Vec<Value>,
    Error,
>)
    requires
        old(memory).wf(),
    ensures
        idx >= funcs@.len() ==> r == Err::<Vec<Value>, Error>(Error::NoFunction),
        idx < funcs@.len() && !args_match(args@, funcs@[idx as int].ty.params@) ==> r == Err::<
            Vec<Value>,
            Error,
        >(Error::ArgumentMismatch),
        budget == 0 && idx < funcs@.len() && args_match(args@, funcs@[idx as int].ty.params@) ==> r
            == Err::<Vec<Value>, Error>(Error::Exhausted),
        r matches Ok(v) ==> v@.len() == funcs@[idx as int].ty.results@.len(),
        final(memory).wf(),
        final(memory).max == old(memory).max,
        final(globals)@.len() == old(globals)@.len(),
        forall|k: int|
            0 <= k < old(globals)@.len() ==> (#[trigger] final(globals)@[k]).mutable == old(
                globals,
            )@[k].mutable && (!old(globals)@[k].mutable ==> final(globals)@[k] == old(
                globals,
            )@[k]),
{
    if idx >= funcs.len() {
        return Err(Error::NoFunction);
    }
    if !check_args(&args, &funcs[idx].ty.params) {
        return Err(Error::ArgumentMismatch);
    }
    let mut sigs: Vec<FuncType> = Vec::new();
    let mut q: usize = 0;
    while q < funcs.len()
        invariant
            q <= funcs@.len(),
            sigs@.len() == q,
        decreases funcs@.len() - q,
    {
        sigs.push(FuncType { params: copy_types(&funcs[q].ty.params), results: copy_types(&funcs[q].ty.results) });
        q = q + 1;
    }
    let ghost a = args@;
    let locals = initial_locals(args, &funcs[idx].locals);
    let mut cur = Frame {
        func: idx,
        local_stack: locals,
        labels: Vec::new(),
        pc: 0,
        arity: funcs[idx].ty.results.len(),
        base: 0,
    };
    let mut rt = Runtime::new();
    let mut fuel = budget;
    while fuel > 0
        invariant
            idx < funcs@.len(),
            args_match(a, funcs@[idx as int].ty.params@),
            a == args@,
            budget == 0 ==> fuel == 0,
            memory.wf(),
            memory.max == old(memory).max,
            globals@.len() == old(globals)@.len(),
            forall|k: int|
                0 <= k < old(globals)@.len() ==> (#[trigger] globals@[k]).mutable == old(
                    globals,
                )@[k].mutable && (!old(globals)@[k].mutable ==> globals@[k] == old(globals)@[k]),
            rt.frames@.len() == 0 ==> cur.arity == funcs@[idx as int].ty.results@.len(),
            rt.frames@.len() > 0 ==> rt.frames@[0].arity == funcs@[idx as int].ty.results@.len(),
            cur.func < funcs@.len(),
            sigs@.len() == funcs@.len(),
            forall|k: int| 0 <= k < rt.frames@.len() ==> #[trigger] rt.frames@[k].func < funcs@.len(),
        decreases fuel,
    {
        fuel = fuel - 1;
        let mut ret = false;
        if cur.pc >= funcs[cur.func].body.len() {
            ret = true;
        } else {
            let instr = funcs[cur.func].body[cur.pc];
            cur.pc = cur.pc + 1;
            match instr {
                Instruction::LocalGet(x) => {
                    if x as usize >= cur.local_stack.len() {
                        return Err(Error::LocalNotFound);
                    }
                    rt.stack.push(cur.local_stack[x as usize]);
                },
                Instruction::Call(_) | Instruction::CallIndirect(..) => {
                    let x: usize = match instr {
                        Instruction::CallIndirect(ti, _) => {
                            let i = match rt.stack.pop() {
                                Some(Value::I32(i)) => i as u32,
                                Some(_) => return Err(Error::UnexpectedValue),
                                None => return Err(Error::StackPopError),
                            };
                            if ti as usize >= types.len() {
                                return Err(Error::Trap(Trap::IndirectCallTypeMismatch));
                            }
                            match call_indirect_target(table, &sigs, &types[ti as usize], i) {
                                Ok(f) => f,
                                Err(t) => return Err(Error::Trap(t)),
                            }
                        },
                        Instruction::Call(x) => x as usize,
                        _ => 0,
                    };
                    if x >= funcs.len() {
                        return Err(Error::NoFunction);
                    }
                    let n = funcs[x].ty.params.len();
                    if rt.stack.len() < n {
                        return Err(Error::StackPopError);
                    }
                    let call_args = rt.stack.split_off(rt.stack.len() - n);
                    let callee = Frame {
                        func: x,
                        local_stack: initial_locals(call_args, &funcs[x].locals),
                        labels: Vec::new(),
                        pc: 0,
                        arity: funcs[x].ty.results.len(),
                        base: rt.stack.len(),
                    };
                    rt.frames.push(cur);
                    cur = callee;
                },
                Instruction::Return => {
                    ret = true;
                },
                Instruction::If(bt) => {
                    let c = match rt.stack.pop() {
                        Some(Value::I32(c)) => c,
                        Some(_) => return Err(Error::UnexpectedValue),
                        None => return Err(Error::StackPopError),
                    };
                    let (els, end) = match match_block(&funcs[cur.func].body, cur.pc) {
                        Some(m) => m,
                        None => return Err(Error::Unbalanced),
                    };
                    let label = Label {
                        arity: block_arity(bt),
                        continuation: end + 1,
                        kind: LabelKind::If,
                        base: rt.stack.len(),
                    };
                    if c != 0 {
                        cur.labels.push(label);
                    } else {
                        match els {
                            Some(e) => {
                                cur.labels.push(label);
                                cur.pc = e + 1;
                            },
                            None => {
                                cur.pc = end + 1;
                            },
                        }
                    }
                },
                Instruction::Block(bt) => {
                    let end = match match_block(&funcs[cur.func].body, cur.pc) {
                        Some((_, end)) => end,
                        None => return Err(Error::Unbalanced),
                    };
                    cur.labels.push(
                        Label {
                            arity: block_arity(bt),
                            continuation: end + 1,
                            kind: LabelKind::Block,
                            base: rt.stack.len(),
                        },
                    );
                },
                Instruction::Loop(_) => {
                    cur.labels.push(
                        Label {
                            arity: 0,
                            continuation: cur.pc - 1,
                            kind: LabelKind::Loop,
                            base: rt.stack.len(),
                        },
                    );
                },
                Instruction::Br(l) => {
                    if l as usize >= cur.labels.len() {
                        ret = true;
                    } else {
                        cur.pc = branch(&mut rt.stack, &mut cur.labels, l as usize)?;
                    }
                },
                Instruction::BrTable(n) => {
                    let sel = match rt.stack.pop() {
                        Some(Value::I32(c)) => c as u32,
                        Some(_) => return Err(Error::UnexpectedValue),
                        None => return Err(Error::StackPopError),
                    };
                    let (depths, default) = match table_labels(&funcs[cur.func].body, cur.pc, n as usize) {
                        Some(x) => x,
                        None => return Err(Error::Unbalanced),
                    };
                    let n = n as usize;
                    cur.pc = cur.pc + n + 1;
                    let l = br_table_depth(&depths, default, sel);
                    if l as usize >= cur.labels.len() {
                        ret = true;
                    } else {
                        cur.pc = branch(&mut rt.stack, &mut cur.labels, l as usize)?;
                    }
                },
                Instruction::BrTarget(_) => {
                    return Err(Error::Unbalanced);
                },
                Instruction::BrIf(l) => {
                    let c = match rt.stack.pop() {
                        Some(Value::I32(c)) => c,
                        Some(_) => return Err(Error::UnexpectedValue),
                        None => return Err(Error::StackPopError),
                    };
                    if c != 0 {
                        if l as usize >= cur.labels.len() {
                            ret = true;
                        } else {
                            cur.pc = branch(&mut rt.stack, &mut cur.labels, l as usize)?;
                        }
                    }
                },
                Instruction::Drop => {
                    if rt.stack.pop().is_none() {
                        return Err(Error::StackPopError);
                    }
                },
                Instruction::Select => {
                    let c = match rt.stack.pop() {
                        Some(Value::I32(c)) => c,
                        Some(_) => return Err(Error::UnexpectedValue),
                        None => return Err(Error::StackPopError),
                    };
                    let (second, first) = pop_rl(&mut rt)?;
                    rt.stack.push(if c != 0 { first } else { second });
                },
                Instruction::LocalSet(x) | Instruction::LocalTee(x) => {
                    let v = match rt.stack.pop() {
                        Some(v) => v,
                        None => return Err(Error::StackPopError),
                    };
                    if x as usize >= cur.local_stack.len() {
                        return Err(Error::LocalNotFound);
                    }
                    cur.local_stack.set(x as usize, v);
                    if let Instruction::LocalTee(_) = instr {
                        rt.stack.push(v);
                    }
                },
                Instruction::Else => {
                    match cur.labels.pop() {
                        Some(l) => {
                            cur.pc = l.continuation;
                        },
                        None => return Err(Error::Unbalanced),
                    }
                },
                Instruction::End => {
                    if cur.labels.len() == 0 {
                        ret = true;
                    } else {
                        cur.labels.pop();
                    }
                },
                Instruction::MemorySize => {
                    rt.stack.push(Value::I32(memory.size() as i32));
                },
                Instruction::MemoryGrow => {
                    let n = match rt.stack.pop() {
                        Some(Value::I32(n)) => n,
                        Some(_) => return Err(Error::UnexpectedValue),
                        None => return Err(Error::StackPopError),
                    };
                    let prev = memory.grow(n as u32);
                    rt.stack.push(Value::I32(prev));
                },
                Instruction::GlobalGet(x) => {
                    if x as usize >= globals.len() {
                        return Err(Error::NoGlobal);
                    }
                    rt.stack.push(globals[x as usize].value);
                },
                Instruction::GlobalSet(x) => {
                    let v = match rt.stack.pop() {
                        Some(v) => v,
                        None => return Err(Error::StackPopError),
                    };
                    if x as usize >= globals.len() || !globals[x as usize].mutable {
                        return Err(Error::NoGlobal);
                    }
                    globals.set(x as usize, Global { value: v, mutable: true });
                },
                Instruction::I32Load(_, offset)
                | Instruction::I64Load(_, offset)
                | Instruction::I32Load8U(_, offset)
                | Instruction::I32Load8S(_, offset)
                | Instruction::I32Load16S(_, offset)
                | Instruction::I32Load16U(_, offset)
                | Instruction::I64Load8S(_, offset)
                | Instruction::I64Load8U(_, offset)
                | Instruction::I64Load16S(_, offset)
                | Instruction::I64Load16U(_, offset)
                | Instruction::I64Load32S(_, offset)
                | Instruction::I64Load32U(_, offset) => {
                    let addr = match rt.stack.pop() {
                        Some(Value::I32(a)) => a as u32,
                        Some(_) => return Err(Error::UnexpectedValue),
                        None => return Err(Error::StackPopError),
                    };
                    let (width, signed, wide) = load_shape(instr);
                    let v = match memory.load(addr, offset, width) {
                        Ok(v) => v,
                        Err(t) => return Err(Error::Trap(t)),
                    };
                    rt.stack.push(loaded_value(v, width, signed, wide));
                },
                Instruction::I32Store(_, offset)
                | Instruction::I64Store(_, offset)
                | Instruction::I32Store8(_, offset)
                | Instruction::I32Store16(_, offset)
                | Instruction::I64Store8(_, offset)
                | Instruction::I64Store16(_, offset)
                | Instruction::I64Store32(_, offset) => {
                    let (width, wide) = store_shape(instr);
                    let value: u64 = match rt.stack.pop() {
                        Some(Value::I64(v)) => if wide {
                            v as u64
                        } else {
                            return Err(Error::UnexpectedValue);
                        },
                        Some(Value::I32(v)) => if !wide {
                            v as u32 as u64
                        } else {
                            return Err(Error::UnexpectedValue);
                        },
                        Some(_) => return Err(Error::UnexpectedValue),
                        None => return Err(Error::StackPopError),
                    };
                    let addr = match rt.stack.pop() {
                        Some(Value::I32(a)) => a as u32,
                        Some(_) => return Err(Error::UnexpectedValue),
                        None => return Err(Error::StackPopError),
                    };
                    match memory.store(addr, offset, width, value) {
                        Ok(()) => {},
                        Err(t) => return Err(Error::Trap(t)),
                    }
                },
                _ => {
                    step(&mut rt, instr)?;
                },
            }
        }
        if ret {
            let arity = cur.arity;
            let base = cur.base;
            if rt.stack.len() < base || rt.stack.len() - base < arity {
                return Err(Error::StackPopError);
            }
            let mut results = rt.stack.split_off(rt.stack.len() - arity);
            rt.stack.truncate(base);
            match rt.frames.pop() {
                None => return Ok(results),
                Some(caller) => {
                    rt.stack.append(&mut results);
                    cur = caller;
                },
            }
        }
    }
    Err(Error::Exhausted)
}

} // verus!
