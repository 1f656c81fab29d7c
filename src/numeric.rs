use vstd::prelude::*;
use crate::value::{Error, Trap, Value};

verus! {

/// Binary integer operators, comparisons included.
#[derive(Debug, Clone, Copy, PartialEq, Eq, Structural)]
pub enum IBinOp {
    Add,
    Sub,
    Mul,
    DivS,
    DivU,
    RemS,
    RemU,
    And,
    Or,
    Xor,
    Shl,
    ShrS,
    ShrU,
    Rotl,
    Rotr,
    Eq,
    Ne,
    LtS,
    LtU,
    GtS,
    GtU,
    LeS,
    LeU,
    GeS,
    GeU,
}

/// Unary integer operators and the integer test.
#[derive(Debug, Clone, Copy, PartialEq, Eq, Structural)]
pub enum IUnOp {
    Eqz,
    Clz,
    Ctz,
    Popcnt,
    Extend8S,
    Extend16S,
    Extend32S,
}

pub open spec fn abs(x: int) -> int {
    if x < 0 { -x } else { x }
}

/// Division rounded toward zero.
pub open spec fn trunc_div(a: int, b: int) -> int {
    if (a < 0) == (b < 0) { abs(a) / abs(b) } else { -(abs(a) / abs(b)) }
}

/// Remainder of the division rounded toward zero: it takes the sign of the dividend.
pub open spec fn trunc_rem(a: int, b: int) -> int {
    if a < 0 { -(abs(a) % abs(b)) } else { abs(a) % abs(b) }
}

pub open spec fn bool_i32(b: bool) -> i32 {
    if b { 1 } else { 0 }
}

/// Bit `i` of `x`.
pub open spec fn bit32(x: u32, i: u32) -> bool {
    (x >> i) & 1u32 == 1u32
}

pub open spec fn bit64(x: u64, i: u64) -> bool {
    (x >> i) & 1u64 == 1u64
}

/// The number of indices below `n` at which `x` has a set bit.
pub open spec fn ones32(x: u32, n: nat) -> nat
    decreases n,
{
    if n == 0 {
        0
    } else {
        ones32(x, (n - 1) as nat) + if bit32(x, (n - 1) as u32) { 1nat } else { 0nat }
    }
}

pub open spec fn ones64(x: u64, n: nat) -> nat
    decreases n,
{
    if n == 0 {
        0
    } else {
        ones64(x, (n - 1) as nat) + if bit64(x, (n - 1) as u64) { 1nat } else { 0nat }
    }
}

/// Rotation to the left by `k` modulo the width.
pub open spec fn rotl32(x: u32, k: u32) -> u32 {
    let s = k % 32;
    if s == 0 { x } else { (x << s) | (x >> ((32 - s) as u32)) }
}

pub open spec fn rotr32(x: u32, k: u32) -> u32 {
    let s = k % 32;
    if s == 0 { x } else { (x >> s) | (x << ((32 - s) as u32)) }
}

pub open spec fn rotl64(x: u64, k: u64) -> u64 {
    let s = k % 64;
    if s == 0 { x } else { (x << s) | (x >> ((64 - s) as u64)) }
}

pub open spec fn rotr64(x: u64, k: u64) -> u64 {
    let s = k % 64;
    if s == 0 { x } else { (x >> s) | (x << ((64 - s) as u64)) }
}

/// What a binary operator yields on two `i32` operands.
pub open spec fn i32_binary(op: IBinOp, a: i32, b: i32) -> Result<Value, Trap> {
    let ua = a as u32;
    let ub = b as u32;
    match op {
        IBinOp::Add => Ok(Value::I32(a.wrapping_add(b))),
        IBinOp::Sub => Ok(Value::I32(a.wrapping_sub(b))),
        IBinOp::Mul => Ok(Value::I32(a.wrapping_mul(b))),
        IBinOp::DivS => if b == 0 {
            Err(Trap::IntegerDivideByZero)
        } else if a == i32::MIN && b == -1 {
            Err(Trap::IntegerOverflow)
        } else {
            Ok(Value::I32(trunc_div(a as int, b as int) as i32))
        },
        IBinOp::DivU => if ub == 0 {
            Err(Trap::IntegerDivideByZero)
        } else {
            Ok(Value::I32((ua / ub) as i32))
        },
        IBinOp::RemS => if b == 0 {
            Err(Trap::IntegerDivideByZero)
        } else {
            Ok(Value::I32(trunc_rem(a as int, b as int) as i32))
        },
        IBinOp::RemU => if ub == 0 {
            Err(Trap::IntegerDivideByZero)
        } else {
            Ok(Value::I32((ua % ub) as i32))
        },
        IBinOp::And => Ok(Value::I32((ua & ub) as i32)),
        IBinOp::Or => Ok(Value::I32((ua | ub) as i32)),
        IBinOp::Xor => Ok(Value::I32((ua ^ ub) as i32)),
        IBinOp::Shl => Ok(Value::I32((ua << (ub % 32)) as i32)),
        IBinOp::ShrS => Ok(Value::I32(a >> (ub % 32))),
        IBinOp::ShrU => Ok(Value::I32((ua >> (ub % 32)) as i32)),
        IBinOp::Rotl => Ok(Value::I32(rotl32(ua, ub) as i32)),
        IBinOp::Rotr => Ok(Value::I32(rotr32(ua, ub) as i32)),
        IBinOp::Eq => Ok(Value::I32(bool_i32(a == b))),
        IBinOp::Ne => Ok(Value::I32(bool_i32(a != b))),
        IBinOp::LtS => Ok(Value::I32(bool_i32(a < b))),
        IBinOp::LtU => Ok(Value::I32(bool_i32(ua < ub))),
        IBinOp::GtS => Ok(Value::I32(bool_i32(a > b))),
        IBinOp::GtU => Ok(Value::I32(bool_i32(ua > ub))),
        IBinOp::LeS => Ok(Value::I32(bool_i32(a <= b))),
        IBinOp::LeU => Ok(Value::I32(bool_i32(ua <= ub))),
        IBinOp::GeS => Ok(Value::I32(bool_i32(a >= b))),
        IBinOp::GeU => Ok(Value::I32(bool_i32(ua >= ub))),
    }
}

proof fn lemma_trunc_div_bounds(a: int, b: int)
    requires
        b != 0,
    ensures
        abs(trunc_div(a, b)) <= abs(a),
        a == 0 ==> trunc_div(a, b) == 0,
        a > 0 && b > 0 ==> trunc_div(a, b) == a / b,
        a < 0 && b < 0 ==> trunc_div(a, b) == (a * -1) / (b * -1),
        a < 0 && b > 0 ==> trunc_div(a, b) == ((a * -1) / b) * -1,
        a > 0 && b < 0 ==> trunc_div(a, b) == (a / (b * -1)) * -1,
{
    assert(abs(a) / abs(b) <= abs(a)) by (nonlinear_arith)
        requires abs(b) >= 1, abs(a) >= 0;
    assert(abs(a) / abs(b) >= 0) by (nonlinear_arith)
        requires abs(b) >= 1, abs(a) >= 0;
}

proof fn lemma_trunc_div_range(a: int, b: int, m: int)
    requires
        b != 0,
        m > 0,
        -m <= a < m,
        -m <= b < m,
        !(a == -m && b == -1),
    ensures
        -m <= trunc_div(a, b) < m,
{
    lemma_trunc_div_bounds(a, b);
    if abs(b) >= 2 {
        assert(abs(a) / abs(b) <= abs(a) / 2) by (nonlinear_arith)
            requires abs(b) >= 2, abs(a) >= 0;
    }
}

proof fn lemma_trunc_rem_bounds(a: int, b: int)
    requires
        b != 0,
    ensures
        abs(trunc_rem(a, b)) < abs(b),
        a == 0 ==> trunc_rem(a, b) == 0,
        a > 0 && b > 0 ==> trunc_rem(a, b) == a % b,
        a < 0 && b < 0 ==> trunc_rem(a, b) == ((a * -1) % (b * -1)) * -1,
        a < 0 && b > 0 ==> trunc_rem(a, b) == ((a * -1) % b) * -1,
        a > 0 && b < 0 ==> trunc_rem(a, b) == a % (b * -1),
{
    assert(0 <= abs(a) % abs(b) < abs(b)) by (nonlinear_arith)
        requires abs(b) >= 1;
}

/// Signed division of `i32` values, rounded toward zero.
pub fn i32_div_s(a: i32, b: i32) -> (r: Result<i32, Trap>)
    ensures
        r == (if b == 0 {
            Err::<i32, Trap>(Trap::IntegerDivideByZero)
        } else if a == i32::MIN && b == -1 {
            Err(Trap::IntegerOverflow)
        } else {
            Ok(trunc_div(a as int, b as int) as i32)
        }),
{
    if b == 0 {
        return Err(Trap::IntegerDivideByZero);
    }
    if a == i32::MIN && b == -1 {
        return Err(Trap::IntegerOverflow);
    }
    proof {
        lemma_trunc_div_bounds(a as int, b as int);
        lemma_trunc_div_range(a as int, b as int, 0x8000_0000);
    }
    match a.checked_div(b) {
        Some(q) => Ok(q),
        None => Err(Trap::IntegerOverflow),
    }
}

/// Signed remainder of `i32` values; `i32::MIN` modulo `-1` is zero.
pub fn i32_rem_s(a: i32, b: i32) -> (r: Result<i32, Trap>)
    ensures
        r == (if b == 0 {
            Err::<i32, Trap>(Trap::IntegerDivideByZero)
        } else {
            Ok(trunc_rem(a as int, b as int) as i32)
        }),
{
    if b == 0 {
        return Err(Trap::IntegerDivideByZero);
    }
    if a == i32::MIN && b == -1 {
        assert(trunc_rem(a as int, b as int) == 0);
        return Ok(0);
    }
    proof {
        lemma_trunc_rem_bounds(a as int, b as int);
    }
    match a.checked_rem(b) {
        Some(m) => Ok(m),
        None => Ok(0),
    }
}

/// Rotation of a 32-bit pattern to the left.
pub fn u32_rotl(x: u32, k: u32) -> (r: u32)
    ensures
        r == rotl32(x, k),
{
    let s = k % 32;
    if s == 0 { x } else { (x << s) | (x >> (32 - s)) }
}

/// Rotation of a 32-bit pattern to the right.
pub fn u32_rotr(x: u32, k: u32) -> (r: u32)
    ensures
        r == rotr32(x, k),
{
    let s = k % 32;
    if s == 0 { x } else { (x >> s) | (x << (32 - s)) }
}

/// The number of set bits of a 32-bit pattern.
pub fn u32_popcnt(x: u32) -> (r: u32)
    ensures
        r as nat == ones32(x, 32),
{
    let mut count: u32 = 0;
    let mut i: u32 = 0;
    while i < 32
        invariant
            i <= 32,
            count as nat == ones32(x, i as nat),
            count <= i,
        decreases 32 - i,
    {
        if (x >> i) & 1 == 1 {
            count = count + 1;
        }
        i = i + 1;
    }
    count
}

/// Applies a binary operator to two `i32` operands.
pub fn i32_binop(op: IBinOp, a: i32, b: i32) -> (r: Result<Value, Trap>)
    ensures
        r == i32_binary(op, a, b),
{
    let ua = a as u32;
    let ub = b as u32;
    match op {
        IBinOp::Add => Ok(Value::I32(a.wrapping_add(b))),
        IBinOp::Sub => Ok(Value::I32(a.wrapping_sub(b))),
        IBinOp::Mul => Ok(Value::I32(a.wrapping_mul(b))),
        IBinOp::DivS => match i32_div_s(a, b) {
            Ok(q) => Ok(Value::I32(q)),
            Err(t) => Err(t),
        },
        IBinOp::DivU => if ub == 0 {
            Err(Trap::IntegerDivideByZero)
        } else {
            Ok(Value::I32((ua / ub) as i32))
        },
        IBinOp::RemS => match i32_rem_s(a, b) {
            Ok(m) => Ok(Value::I32(m)),
            Err(t) => Err(t),
        },
        IBinOp::RemU => if ub == 0 {
            Err(Trap::IntegerDivideByZero)
        } else {
            Ok(Value::I32((ua % ub) as i32))
        },
        IBinOp::And => Ok(Value::I32((ua & ub) as i32)),
        IBinOp::Or => Ok(Value::I32((ua | ub) as i32)),
        IBinOp::Xor => Ok(Value::I32((ua ^ ub) as i32)),
        IBinOp::Shl => Ok(Value::I32((ua << (ub % 32)) as i32)),
        IBinOp::ShrS => Ok(Value::I32(a >> (ub % 32))),
        IBinOp::ShrU => Ok(Value::I32((ua >> (ub % 32)) as i32)),
        IBinOp::Rotl => Ok(Value::I32(u32_rotl(ua, ub) as i32)),
        IBinOp::Rotr => Ok(Value::I32(u32_rotr(ua, ub) as i32)),
        IBinOp::Eq => Ok(Value::I32(if a == b { 1 } else { 0 })),
        IBinOp::Ne => Ok(Value::I32(if a != b { 1 } else { 0 })),
        IBinOp::LtS => Ok(Value::I32(if a < b { 1 } else { 0 })),
        IBinOp::LtU => Ok(Value::I32(if ua < ub { 1 } else { 0 })),
        IBinOp::GtS => Ok(Value::I32(if a > b { 1 } else { 0 })),
        IBinOp::GtU => Ok(Value::I32(if ua > ub { 1 } else { 0 })),
        IBinOp::LeS => Ok(Value::I32(if a <= b { 1 } else { 0 })),
        IBinOp::LeU => Ok(Value::I32(if ua <= ub { 1 } else { 0 })),
        IBinOp::GeS => Ok(Value::I32(if a >= b { 1 } else { 0 })),
        IBinOp::GeU => Ok(Value::I32(if ua >= ub { 1 } else { 0 })),
    }
}

/// What a unary operator yields on an `i32` operand.
pub open spec fn i32_unary(op: IUnOp, a: i32) -> Option<Value> {
    let ua = a as u32;
    match op {
        IUnOp::Eqz => Some(Value::I32(bool_i32(a == 0))),
        IUnOp::Clz => Some(Value::I32(ua.leading_zeros() as i32)),
        IUnOp::Ctz => Some(Value::I32(ua.trailing_zeros() as i32)),
        IUnOp::Popcnt => Some(Value::I32(ones32(ua, 32) as i32)),
        IUnOp::Extend8S => Some(Value::I32(a as i8 as i32)),
        IUnOp::Extend16S => Some(Value::I32(a as i16 as i32)),
        IUnOp::Extend32S => None,
    }
}

/// Applies a unary operator to an `i32` operand; `None` where the operator
/// does not apply to `i32`.
pub fn i32_unop(op: IUnOp, a: i32) -> (r: Option<Value>)
    ensures
        r == i32_unary(op, a),
{
    let ua = a as u32;
    match op {
        IUnOp::Eqz => Some(Value::I32(if a == 0 { 1 } else { 0 })),
        IUnOp::Clz => Some(Value::I32(ua.leading_zeros() as i32)),
        IUnOp::Ctz => Some(Value::I32(ua.trailing_zeros() as i32)),
        IUnOp::Popcnt => Some(Value::I32(u32_popcnt(ua) as i32)),
        IUnOp::Extend8S => Some(Value::I32(a as i8 as i32)),
        IUnOp::Extend16S => Some(Value::I32(a as i16 as i32)),
        IUnOp::Extend32S => None,
    }
}

/// What a binary operator yields on two `i64` operands.
pub open spec fn i64_binary(op: IBinOp, a: i64, b: i64) -> Result<Value, Trap> {
    let ua = a as u64;
    let ub = b as u64;
    match op {
        IBinOp::Add => Ok(Value::I64(a.wrapping_add(b))),
        IBinOp::Sub => Ok(Value::I64(a.wrapping_sub(b))),
        IBinOp::Mul => Ok(Value::I64(a.wrapping_mul(b))),
        IBinOp::DivS => if b == 0 {
            Err(Trap::IntegerDivideByZero)
        } else if a == i64::MIN && b == -1 {
            Err(Trap::IntegerOverflow)
        } else {
            Ok(Value::I64(trunc_div(a as int, b as int) as i64))
        },
        IBinOp::DivU => if ub == 0 {
            Err(Trap::IntegerDivideByZero)
        } else {
            Ok(Value::I64((ua / ub) as i64))
        },
        IBinOp::RemS => if b == 0 {
            Err(Trap::IntegerDivideByZero)
        } else {
            Ok(Value::I64(trunc_rem(a as int, b as int) as i64))
        },
        IBinOp::RemU => if ub == 0 {
            Err(Trap::IntegerDivideByZero)
        } else {
            Ok(Value::I64((ua % ub) as i64))
        },
        IBinOp::And => Ok(Value::I64((ua & ub) as i64)),
        IBinOp::Or => Ok(Value::I64((ua | ub) as i64)),
        IBinOp::Xor => Ok(Value::I64((ua ^ ub) as i64)),
        IBinOp::Shl => Ok(Value::I64((ua << (ub % 64)) as i64)),
        IBinOp::ShrS => Ok(Value::I64(a >> (ub % 64))),
        IBinOp::ShrU => Ok(Value::I64((ua >> (ub % 64)) as i64)),
        IBinOp::Rotl => Ok(Value::I64(rotl64(ua, ub) as i64)),
        IBinOp::Rotr => Ok(Value::I64(rotr64(ua, ub) as i64)),
        IBinOp::Eq => Ok(Value::I32(bool_i32(a == b))),
        IBinOp::Ne => Ok(Value::I32(bool_i32(a != b))),
        IBinOp::LtS => Ok(Value::I32(bool_i32(a < b))),
        IBinOp::LtU => Ok(Value::I32(bool_i32(ua < ub))),
        IBinOp::GtS => Ok(Value::I32(bool_i32(a > b))),
        IBinOp::GtU => Ok(Value::I32(bool_i32(ua > ub))),
        IBinOp::LeS => Ok(Value::I32(bool_i32(a <= b))),
        IBinOp::LeU => Ok(Value::I32(bool_i32(ua <= ub))),
        IBinOp::GeS => Ok(Value::I32(bool_i32(a >= b))),
        IBinOp::GeU => Ok(Value::I32(bool_i32(ua >= ub))),
    }
}

/// Signed division of `i64` values, rounded toward zero.
pub fn i64_div_s(a: i64, b: i64) -> (r: Result<i64, Trap>)
    ensures
        r == (if b == 0 {
            Err::<i64, Trap>(Trap::IntegerDivideByZero)
        } else if a == i64::MIN && b == -1 {
            Err(Trap::IntegerOverflow)
        } else {
            Ok(trunc_div(a as int, b as int) as i64)
        }),
{
    if b == 0 {
        return Err(Trap::IntegerDivideByZero);
    }
    if a == i64::MIN && b == -1 {
        return Err(Trap::IntegerOverflow);
    }
    proof {
        lemma_trunc_div_bounds(a as int, b as int);
        lemma_trunc_div_range(a as int, b as int, 0x8000_0000_0000_0000);
    }
    match a.checked_div(b) {
        Some(q) => Ok(q),
        None => Err(Trap::IntegerOverflow),
    }
}

/// Signed remainder of `i64` values; `i64::MIN` modulo `-1` is zero.
pub fn i64_rem_s(a: i64, b: i64) -> (r: Result<i64, Trap>)
    ensures
        r == (if b == 0 {
            Err::<i64, Trap>(Trap::IntegerDivideByZero)
        } else {
            Ok(trunc_rem(a as int, b as int) as i64)
        }),
{
    if b == 0 {
        return Err(Trap::IntegerDivideByZero);
    }
    if a == i64::MIN && b == -1 {
        assert(trunc_rem(a as int, b as int) == 0);
        return Ok(0);
    }
    proof {
        lemma_trunc_rem_bounds(a as int, b as int);
    }
    match a.checked_rem(b) {
        Some(m) => Ok(m),
        None => Ok(0),
    }
}

/// Rotation of a 64-bit pattern to the left.
pub fn u64_rotl(x: u64, k: u64) -> (r: u64)
    ensures
        r == rotl64(x, k),
{
    let s = k % 64;
    if s == 0 { x } else { (x << s) | (x >> (64 - s)) }
}

/// Rotation of a 64-bit pattern to the right.
pub fn u64_rotr(x: u64, k: u64) -> (r: u64)
    ensures
        r == rotr64(x, k),
{
    let s = k % 64;
    if s == 0 { x } else { (x >> s) | (x << (64 - s)) }
}

/// The number of set bits of a 64-bit pattern.
pub fn u64_popcnt(x: u64) -> (r: u64)
    ensures
        r as nat == ones64(x, 64),
{
    let mut count: u64 = 0;
    let mut i: u64 = 0;
    while i < 64
        invariant
            i <= 64,
            count as nat == ones64(x, i as nat),
            count <= i,
        decreases 64 - i,
    {
        if (x >> i) & 1 == 1 {
            count = count + 1;
        }
        i = i + 1;
    }
    count
}

/// Applies a binary operator to two `i64` operands.
pub fn i64_binop(op: IBinOp, a: i64, b: i64) -> (r: Result<Value, Trap>)
    ensures
        r == i64_binary(op, a, b),
{
    let ua = a as u64;
    let ub = b as u64;
    match op {
        IBinOp::Add => Ok(Value::I64(a.wrapping_add(b))),
        IBinOp::Sub => Ok(Value::I64(a.wrapping_sub(b))),
        IBinOp::Mul => Ok(Value::I64(a.wrapping_mul(b))),
        IBinOp::DivS => match i64_div_s(a, b) {
            Ok(q) => Ok(Value::I64(q)),
            Err(t) => Err(t),
        },
        IBinOp::DivU => if ub == 0 {
            Err(Trap::IntegerDivideByZero)
        } else {
            Ok(Value::I64((ua / ub) as i64))
        },
        IBinOp::RemS => match i64_rem_s(a, b) {
            Ok(m) => Ok(Value::I64(m)),
            Err(t) => Err(t),
        },
        IBinOp::RemU => if ub == 0 {
            Err(Trap::IntegerDivideByZero)
        } else {
            Ok(Value::I64((ua % ub) as i64))
        },
        IBinOp::And => Ok(Value::I64((ua & ub) as i64)),
        IBinOp::Or => Ok(Value::I64((ua | ub) as i64)),
        IBinOp::Xor => Ok(Value::I64((ua ^ ub) as i64)),
        IBinOp::Shl => Ok(Value::I64((ua << (ub % 64)) as i64)),
        IBinOp::ShrS => Ok(Value::I64(a >> (ub % 64))),
        IBinOp::ShrU => Ok(Value::I64((ua >> (ub % 64)) as i64)),
        IBinOp::Rotl => Ok(Value::I64(u64_rotl(ua, ub) as i64)),
        IBinOp::Rotr => Ok(Value::I64(u64_rotr(ua, ub) as i64)),
        IBinOp::Eq => Ok(Value::I32(if a == b { 1 } else { 0 })),
        IBinOp::Ne => Ok(Value::I32(if a != b { 1 } else { 0 })),
        IBinOp::LtS => Ok(Value::I32(if a < b { 1 } else { 0 })),
        IBinOp::LtU => Ok(Value::I32(if ua < ub { 1 } else { 0 })),
        IBinOp::GtS => Ok(Value::I32(if a > b { 1 } else { 0 })),
        IBinOp::GtU => Ok(Value::I32(if ua > ub { 1 } else { 0 })),
        IBinOp::LeS => Ok(Value::I32(if a <= b { 1 } else { 0 })),
        IBinOp::LeU => Ok(Value::I32(if ua <= ub { 1 } else { 0 })),
        IBinOp::GeS => Ok(Value::I32(if a >= b { 1 } else { 0 })),
        IBinOp::GeU => Ok(Value::I32(if ua >= ub { 1 } else { 0 })),
    }
}

/// What a unary operator yields on an `i64` operand.
pub open spec fn i64_unary(op: IUnOp, a: i64) -> Option<Value> {
    let ua = a as u64;
    match op {
        IUnOp::Eqz => Some(Value::I32(bool_i32(a == 0))),
        IUnOp::Clz => Some(Value::I64(vstd::std_specs::bits::u64_leading_zeros(ua) as i64)),
        IUnOp::Ctz => Some(Value::I64(ua.trailing_zeros() as i64)),
        IUnOp::Popcnt => Some(Value::I64(ones64(ua, 64) as i64)),
        IUnOp::Extend8S => Some(Value::I64(a as i8 as i64)),
        IUnOp::Extend16S => Some(Value::I64(a as i16 as i64)),
        IUnOp::Extend32S => Some(Value::I64(a as i32 as i64)),
    }
}

/// Applies a unary operator to an `i64` operand.
pub fn i64_unop(op: IUnOp, a: i64) -> (r: Option<Value>)
    ensures
        r == i64_unary(op, a),
{
    let ua = a as u64;
    match op {
        IUnOp::Eqz => Some(Value::I32(if a == 0 { 1 } else { 0 })),
        IUnOp::Clz => Some(Value::I64(ua.leading_zeros() as i64)),
        IUnOp::Ctz => Some(Value::I64(ua.trailing_zeros() as i64)),
        IUnOp::Popcnt => Some(Value::I64(u64_popcnt(ua) as i64)),
        IUnOp::Extend8S => Some(Value::I64(a as i8 as i64)),
        IUnOp::Extend16S => Some(Value::I64(a as i16 as i64)),
        IUnOp::Extend32S => Some(Value::I64(a as i32 as i64)),
    }
}


pub open spec fn trap_to_error(r: Result<Value, Trap>) -> Result<Value, Error> {
    match r {
        Ok(v) => Ok(v),
        Err(t) => Err(Error::Trap(t)),
    }
}

/// What a binary operator yields on two values: both operands must be
/// integers of the same width.
pub open spec fn eval_binary(op: IBinOp, l: Value, r: Value) -> Result<Value, Error> {
    match (l, r) {
        (Value::I32(a), Value::I32(b)) => trap_to_error(i32_binary(op, a, b)),
        (Value::I64(a), Value::I64(b)) => trap_to_error(i64_binary(op, a, b)),
        _ => Err(Error::UnexpectedValue),
    }
}

/// What a unary operator yields on a value.
pub open spec fn eval_unary(op: IUnOp, v: Value) -> Result<Value, Error> {
    let r = match v {
        Value::I32(a) => i32_unary(op, a),
        Value::I64(a) => i64_unary(op, a),
        _ => None,
    };
    match r {
        Some(x) => Ok(x),
        None => Err(Error::UnexpectedValue),
    }
}

/// Applies a binary operator to two values.
pub fn binary_value(op: IBinOp, l: Value, r: Value) -> (res: Result<Value, Error>)
    ensures
        res == eval_binary(op, l, r),
{
    let t = match (l, r) {
        (Value::I32(a), Value::I32(b)) => i32_binop(op, a, b),
        (Value::I64(a), Value::I64(b)) => i64_binop(op, a, b),
        _ => return Err(Error::UnexpectedValue),
    };
    match t {
        Ok(v) => Ok(v),
        Err(e) => Err(Error::Trap(e)),
    }
}

/// Applies a unary operator to a value.
pub fn unary_value(op: IUnOp, v: Value) -> (res: Result<Value, Error>)
    ensures
        res == eval_unary(op, v),
{
    let r = match v {
        Value::I32(a) => i32_unop(op, a),
        Value::I64(a) => i64_unop(op, a),
        _ => None,
    };
    match r {
        Some(x) => Ok(x),
        None => Err(Error::UnexpectedValue),
    }
}


/// Signed division and remainder agree: wherever `i32.div_s` does not trap,
/// quotient times divisor plus remainder gives back the dividend.
pub proof fn law_i32_div_rem(a: i32, b: i32)
    requires
        b != 0,
        !(a == i32::MIN && b == -1),
    ensures
        i32_binary(IBinOp::DivS, a, b) is Ok,
        i32_binary(IBinOp::RemS, a, b) is Ok,
        match (i32_binary(IBinOp::DivS, a, b), i32_binary(IBinOp::RemS, a, b)) {
            (Ok(Value::I32(q)), Ok(Value::I32(r))) => q * b + r == a,
            _ => false,
        },
{
    lemma_trunc_div_range(a as int, b as int, 0x8000_0000);
    lemma_trunc_rem_bounds(a as int, b as int);
    lemma_trunc_div_rem(a as int, b as int);
}

proof fn lemma_trunc_div_rem(a: int, b: int)
    requires
        b != 0,
    ensures
        trunc_div(a, b) * b + trunc_rem(a, b) == a,
{
    let q = abs(a) / abs(b);
    let m = abs(a) % abs(b);
    vstd::arithmetic::div_mod::lemma_fundamental_div_mod(abs(a), abs(b));
    assert(abs(a) == abs(b) * q + m);
    if a >= 0 && b > 0 {
        assert(trunc_div(a, b) * b == q * b);
    } else if a >= 0 && b < 0 {
        assert(trunc_div(a, b) * b == (-q) * b);
        assert((-q) * b == q * (-b)) by (nonlinear_arith);
    } else if a < 0 && b > 0 {
        assert(trunc_div(a, b) * b == (-q) * b);
        assert((-q) * b == -(q * b)) by (nonlinear_arith);
    } else {
        assert(trunc_div(a, b) * b == q * b);
        assert(q * b == -(q * (-b))) by (nonlinear_arith);
    }
}

/// `i32.popcnt` counts the set bits of its operand over the full width.
pub proof fn law_i32_popcnt(a: i32)
    ensures
        i32_unary(IUnOp::Popcnt, a) == Some(Value::I32(ones32(a as u32, 32) as i32)),
        ones32(a as u32, 32) == Set::new(|i: u32| i < 32 && bit32(a as u32, i)).len(),
{
    lemma_ones32_set(a as u32, 32);
    assert(Set::new(|i: u32| i < 32 && bit32(a as u32, i)) =~= bits_below(a as u32, 32));
}

/// The indices below `n` at which `x` has a set bit.
pub open spec fn bits_below(x: u32, n: nat) -> Set<u32> {
    Set::new(|i: u32| i < n && bit32(x, i))
}

proof fn lemma_ones32_set(x: u32, n: nat)
    requires
        n <= 32,
    ensures
        bits_below(x, n).finite(),
        ones32(x, n) == bits_below(x, n).len(),
    decreases n,
{
    if n == 0 {
        assert(bits_below(x, 0) =~= Set::empty());
    } else {
        let k = (n - 1) as nat;
        lemma_ones32_set(x, k);
        if bit32(x, k as u32) {
            assert(bits_below(x, n) =~= bits_below(x, k).insert(k as u32));
        } else {
            assert(bits_below(x, n) =~= bits_below(x, k));
        }
    }
}

} // verus!
