use wasm_vm::numeric::{binary_value, i32_binop, i32_div_s, i32_rem_s, i32_unop, i64_binop, i64_unop, u32_popcnt, u32_rotl, u32_rotr, IBinOp, IUnOp};
use wasm_vm::value::{Error, Trap, Value};

#[test]
fn i32_add_wraps() {
    assert_eq!(i32_binop(IBinOp::Add, 2, 3), Ok(Value::I32(5)));
    assert_eq!(i32_binop(IBinOp::Add, i32::MAX, 1), Ok(Value::I32(i32::MIN)));
    assert_eq!(i32_binop(IBinOp::Mul, 0x10000, 0x10000), Ok(Value::I32(0)));
    assert_eq!(i32_binop(IBinOp::Sub, i32::MIN, 1), Ok(Value::I32(i32::MAX)));
}

#[test]
fn i32_div_s_overflow_traps() {
    assert_eq!(i32_div_s(i32::MIN, -1), Err(Trap::IntegerOverflow));
    assert_eq!(i32_binop(IBinOp::DivS, i32::MIN, -1), Err(Trap::IntegerOverflow));
}

#[test]
fn division_by_zero_traps() {
    assert_eq!(i32_binop(IBinOp::DivU, 7, 0), Err(Trap::IntegerDivideByZero));
    assert_eq!(i32_binop(IBinOp::DivS, 7, 0), Err(Trap::IntegerDivideByZero));
    assert_eq!(i32_binop(IBinOp::RemU, 7, 0), Err(Trap::IntegerDivideByZero));
    assert_eq!(i64_binop(IBinOp::DivU, 7, 0), Err(Trap::IntegerDivideByZero));
    assert_eq!(i64_binop(IBinOp::RemS, 7, 0), Err(Trap::IntegerDivideByZero));
}

#[test]
fn signed_division_truncates() {
    assert_eq!(i32_div_s(-7, 2), Ok(-3));
    assert_eq!(i32_rem_s(-7, 2), Ok(-1));
    assert_eq!(i32_div_s(7, -2), Ok(-3));
    assert_eq!(i32_rem_s(7, -2), Ok(1));
    assert_eq!(i32_rem_s(i32::MIN, -1), Ok(0));
    assert_eq!(i64_binop(IBinOp::DivS, i64::MIN, -1), Err(Trap::IntegerOverflow));
    assert_eq!(i64_binop(IBinOp::RemS, i64::MIN, -1), Ok(Value::I64(0)));
}

#[test]
fn div_rem_identity_on_samples() {
    let samples: [i32; 7] = [i32::MIN, -100, -7, -1, 1, 13, i32::MAX];
    for a in samples {
        for b in samples {
            if b == 0 || (a == i32::MIN && b == -1) {
                continue;
            }
            let q = i32_div_s(a, b).unwrap() as i64;
            let r = i32_rem_s(a, b).unwrap() as i64;
            assert_eq!(q * b as i64 + r, a as i64);
        }
    }
}

#[test]
fn unsigned_division() {
    assert_eq!(i32_binop(IBinOp::DivU, -1, 2), Ok(Value::I32(0x7fff_ffff)));
    assert_eq!(i32_binop(IBinOp::RemU, -1, 10), Ok(Value::I32(5)));
}

#[test]
fn shifts_take_count_modulo_width() {
    assert_eq!(i32_binop(IBinOp::Shl, 1, 33), Ok(Value::I32(2)));
    assert_eq!(i32_binop(IBinOp::ShrS, -8, 1), Ok(Value::I32(-4)));
    assert_eq!(i32_binop(IBinOp::ShrU, -8, 1), Ok(Value::I32(0x7fff_fffc)));
    assert_eq!(i64_binop(IBinOp::Shl, 1, 65), Ok(Value::I64(2)));
    assert_eq!(i64_binop(IBinOp::ShrS, -1, 63), Ok(Value::I64(-1)));
}

#[test]
fn rotations() {
    assert_eq!(u32_rotl(0x8000_0001, 1), 3);
    assert_eq!(u32_rotr(3, 1), 0x8000_0001);
    assert_eq!(u32_rotl(0xabcd, 32), 0xabcd);
    assert_eq!(i64_binop(IBinOp::Rotl, i64::MIN, 1), Ok(Value::I64(1)));
}

#[test]
fn popcnt_counts_bits() {
    assert_eq!(u32_popcnt(0), 0);
    assert_eq!(u32_popcnt(0xffff_ffff), 32);
    assert_eq!(u32_popcnt(0b1011), 3);
    assert_eq!(i32_unop(IUnOp::Popcnt, -1), Some(Value::I32(32)));
    assert_eq!(i64_unop(IUnOp::Popcnt, -1), Some(Value::I64(64)));
}

#[test]
fn leading_and_trailing_zeros() {
    assert_eq!(i32_unop(IUnOp::Clz, 1), Some(Value::I32(31)));
    assert_eq!(i32_unop(IUnOp::Ctz, 0), Some(Value::I32(32)));
    assert_eq!(i64_unop(IUnOp::Clz, 0), Some(Value::I64(64)));
    assert_eq!(i64_unop(IUnOp::Ctz, 8), Some(Value::I64(3)));
}

#[test]
fn sign_extension() {
    assert_eq!(i32_unop(IUnOp::Extend8S, 0x80), Some(Value::I32(-128)));
    assert_eq!(i32_unop(IUnOp::Extend16S, 0x7fff), Some(Value::I32(0x7fff)));
    assert_eq!(i64_unop(IUnOp::Extend32S, 0x8000_0000), Some(Value::I64(-0x8000_0000)));
    assert_eq!(i32_unop(IUnOp::Extend32S, 5), None);
}

#[test]
fn comparisons_yield_i32() {
    assert_eq!(i32_binop(IBinOp::LtS, -1, 0), Ok(Value::I32(1)));
    assert_eq!(i32_binop(IBinOp::LtU, -1, 0), Ok(Value::I32(0)));
    assert_eq!(i64_binop(IBinOp::GeU, 5, 5), Ok(Value::I32(1)));
    assert_eq!(i64_unop(IUnOp::Eqz, 0), Some(Value::I32(1)));
}

#[test]
fn mixed_or_float_operands_refused() {
    assert_eq!(binary_value(IBinOp::Add, Value::I32(1), Value::I64(1)), Err(Error::UnexpectedValue));
    assert_eq!(binary_value(IBinOp::Add, Value::F32(0), Value::F32(0)), Err(Error::UnexpectedValue));
    assert_eq!(binary_value(IBinOp::DivU, Value::I32(1), Value::I32(0)), Err(Error::Trap(Trap::IntegerDivideByZero)));
}
