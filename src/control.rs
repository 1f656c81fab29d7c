use vstd::prelude::*;
use crate::value::{Error, Trap, Value};

verus! {

#[derive(Debug, Clone, Copy, PartialEq, Eq, Structural)]
pub enum LabelKind {
    Block,
    Loop,
    If,
}

/// A structured control block in flight: how many results it keeps, where
/// execution resumes when it is branched to, and the operand-stack height at
/// its entry.
#[derive(Debug, Clone, Copy, PartialEq, Eq, Structural)]
pub struct Label {
    pub arity: usize,
    pub continuation: usize,
    pub kind: LabelKind,
    pub base: usize,
}

/// The label that `br depth` targets: the `depth`-th from the innermost.
pub open spec fn target_label(labels: Seq<Label>, depth: int) -> Label {
    labels[labels.len() - 1 - depth]
}

/// The operand stack after branching to `target`: the values below the
/// label's base, then the top `arity` values.
pub open spec fn stack_after_branch(stack: Seq<Value>, target: Label) -> Seq<Value> {
    stack.subrange(0, target.base as int) + stack.subrange(
        stack.len() - target.arity,
        stack.len() as int,
    )
}

/// `br depth`: pops `depth + 1` labels, keeps the target's result values on
/// top of its base, and returns where execution resumes.
pub fn branch(stack: &mut Vec<Value>, labels: &mut Vec<Label>, depth: usize) -> (r: Result<
    usize,
    Error,
>)
    ensures
        depth >= old(labels)@.len() ==> r == Err::<usize, Error>(Error::NoLabel) && *final(stack)
            == *old(stack) && *final(labels) == *old(labels),
        depth < old(labels)@.len() ==> {
            let t = target_label(old(labels)@, depth as int);
            if old(stack)@.len() < t.base + t.arity {
                &&& r == Err::<usize, Error>(Error::StackPopError)
                &&& *final(stack) == *old(stack)
                &&& *final(labels) == *old(labels)
            } else {
                &&& r == Ok::<usize, Error>(t.continuation)
                &&& final(stack)@ == stack_after_branch(old(stack)@, t)
                &&& final(labels)@ == old(labels)@.subrange(
                    0,
                    old(labels)@.len() - 1 - depth,
                )
            }
        },
{
    if depth >= labels.len() {
        return Err(Error::NoLabel);
    }
    let idx = labels.len() - 1 - depth;
    let t = labels[idx];
    if stack.len() < t.base || stack.len() - t.base < t.arity {
        return Err(Error::StackPopError);
    }
    let mut top = stack.split_off(stack.len() - t.arity);
    stack.truncate(t.base);
    stack.append(&mut top);
    labels.truncate(idx);
    Ok(t.continuation)
}

/// The branch depth that `br_table` takes for `selector`: the entry at that
/// index, or the default where the index is out of range.
pub fn br_table_depth(depths: &Vec<u32>, default: u32, selector: u32) -> (r: u32)
    ensures
        r == (if (selector as int) < depths@.len() {
            depths@[selector as int]
        } else {
            default
        }),
{
    if (selector as usize) < depths.len() {
        depths[selector as usize]
    } else {
        default
    }
}

#[derive(Debug, Clone, Copy, PartialEq, Eq, Structural)]
pub enum ValueType {
    I32,
    I64,
    F32,
    F64,
}

/// A function signature.
#[derive(Debug, Clone)]
pub struct FuncType {
    pub params: Vec<ValueType>,
    pub results: Vec<ValueType>,
}

/// Whether two value-type lists are the same.
pub fn same_types(a: &Vec<ValueType>, b: &Vec<ValueType>) -> (r: bool)
    ensures
        r == (a@ == b@),
{
    if a.len() != b.len() {
        return false;
    }
    let mut i: usize = 0;
    while i < a.len()
        invariant
            a@.len() == b@.len(),
            i <= a@.len(),
            forall|k: int| 0 <= k < i ==> a@[k] == b@[k],
        decreases a@.len() - i,
    {
        if a[i] != b[i] {
            return false;
        }
        i = i + 1;
    }
    assert(a@ =~= b@);
    true
}

/// The function that `call_indirect` reaches through `table[idx]`, where
/// `table` holds function indices (or empty slots) and `func_types[f]` is
/// the signature of function `f`. Traps `UndefinedElement` for an index
/// past the table, an empty slot or a slot naming no function, and
/// `IndirectCallTypeMismatch` where the function's signature differs from
/// `expected`.
pub fn call_indirect_target(
    table: &Vec<Option<usize>>,
    func_types: &Vec<FuncType>,
    expected: &FuncType,
    idx: u32,
) -> (r: Result<usize, Trap>)
    ensures
        (idx as int) >= table@.len() ==> r == Err::<usize, Trap>(Trap::UndefinedElement),
        (idx as int) < table@.len() ==> match table@[idx as int] {
            None => r == Err::<usize, Trap>(Trap::UndefinedElement),
            Some(f) => if f >= func_types@.len() {
                r == Err::<usize, Trap>(Trap::UndefinedElement)
            } else if func_types@[f as int].params@ == expected.params@
                && func_types@[f as int].results@ == expected.results@ {
                r == Ok::<usize, Trap>(f)
            } else {
                r == Err::<usize, Trap>(Trap::IndirectCallTypeMismatch)
            },
        },
{
    if idx as usize >= table.len() {
        return Err(Trap::UndefinedElement);
    }
    match table[idx as usize] {
        None => Err(Trap::UndefinedElement),
        Some(f) => {
            if f >= func_types.len() {
                return Err(Trap::UndefinedElement);
            }
            let t = &func_types[f];
            if same_types(&t.params, &expected.params) && same_types(&t.results, &expected.results) {
                Ok(f)
            } else {
                Err(Trap::IndirectCallTypeMismatch)
            }
        },
    }
}

/// Branching keeps exactly the target's result values, in order, on top of
/// the values below the target's base, and nothing else.
pub proof fn law_branch_keeps_results(stack: Seq<Value>, target: Label)
    requires
        stack.len() >= target.base + target.arity,
    ensures
        stack_after_branch(stack, target).len() == target.base + target.arity,
        forall|k: int|
            0 <= k < target.base ==> #[trigger] stack_after_branch(stack, target)[k] == stack[k],
        forall|k: int|
            0 <= k < target.arity ==> #[trigger] stack_after_branch(stack, target)[target.base
                + k] == stack[stack.len() - target.arity + k],
{
}

} // verus!
