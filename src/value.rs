use vstd::prelude::*;

verus! {

/// A runtime value. Floating-point values are carried as their raw IEEE-754 bits.
#[derive(Debug, Clone, Copy, PartialEq, Eq, Structural)]
pub enum Value {
    I32(i32),
    I64(i64),
    F32(u32),
    F64(u64),
}

/// A trap raised by executing an instruction.
#[derive(Debug, Clone, Copy, PartialEq, Eq, Structural)]
pub enum Trap {
    IntegerDivideByZero,
    IntegerOverflow,
    OutOfBoundsMemoryAccess,
    UndefinedElement,
    IndirectCallTypeMismatch,
    Unreachable,
}

/// The fixed message of each trap.
pub open spec fn trap_message(t: Trap) -> Seq<char> {
    match t {
        Trap::IntegerDivideByZero => "integer divide by zero"@,
        Trap::IntegerOverflow => "integer overflow"@,
        Trap::OutOfBoundsMemoryAccess => "out of bounds memory access"@,
        Trap::UndefinedElement => "undefined element"@,
        Trap::IndirectCallTypeMismatch => "indirect call type mismatch"@,
        Trap::Unreachable => "unreachable"@,
    }
}

impl Trap {
    pub fn message(&self) -> (r: &'static str)
        ensures
            r@ == trap_message(*self),
    {
        match self {
            Trap::IntegerDivideByZero => "integer divide by zero",
            Trap::IntegerOverflow => "integer overflow",
            Trap::OutOfBoundsMemoryAccess => "out of bounds memory access",
            Trap::UndefinedElement => "undefined element",
            Trap::IndirectCallTypeMismatch => "indirect call type mismatch",
            Trap::Unreachable => "unreachable",
        }
    }
}

/// Failure of an instruction: a trap of the specification, or a broken
/// internal precondition that a validated module never causes.
#[derive(Debug, Clone, Copy, PartialEq, Eq, Structural)]
pub enum Error {
    Trap(Trap),
    StackPopError,
    NoFrame,
    LocalNotFound,
    UnexpectedValue,
    NoLabel,
    /// An operation this library does not carry out (floating point).
    Unsupported,
    NoFunction,
    ArgumentMismatch,
    /// The step budget ran out.
    Exhausted,
    /// A structured instruction without its matching `End`.
    Unbalanced,
    /// A global index past the globals, or a write to an immutable global.
    NoGlobal,
}

} // verus!
