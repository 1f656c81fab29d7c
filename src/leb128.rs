use vstd::prelude::*;

verus! {

/// Why a module binary could not be decoded.
#[derive(Debug, Clone, Copy, PartialEq, Eq, Structural)]
pub enum DecodeError {
    MalformedHeader,
    UnknownSection,
    TruncatedInput,
    BadLEB,
    UnknownOpcode,
    BadValueType,
    /// An index or a count that does not agree with the rest of the module.
    BadIndex,
    /// An import, which this interpreter has nothing to link to.
    UnlinkableImport,
}

pub open spec fn pow128(k: nat) -> int
    decreases k,
{
    if k == 0 {
        1
    } else {
        128 * pow128((k - 1) as nat)
    }
}

/// The last byte of a LEB128 number as a digit: sign-extended from bit 6
/// for a signed number.
pub open spec fn last_digit(b: u8, signed: bool) -> int {
    if signed && b >= 64 { b - 128 } else { b as int }
}

/// The LEB128 number that starts at `pos` in at most `max_bytes` bytes,
/// and the position after it.
pub open spec fn leb(s: Seq<u8>, pos: int, max_bytes: nat, signed: bool) -> Result<
    (int, int),
    DecodeError,
>
    decreases max_bytes,
{
    if max_bytes == 0 {
        Err(DecodeError::BadLEB)
    } else if pos < 0 || pos >= s.len() {
        Err(DecodeError::TruncatedInput)
    } else if s[pos] < 128 {
        Ok((last_digit(s[pos], signed), pos + 1))
    } else {
        match leb(s, pos + 1, (max_bytes - 1) as nat, signed) {
            Ok((v, e)) => Ok((s[pos] - 128 + 128 * v, e)),
            Err(x) => Err(x),
        }
    }
}

pub open spec fn shifted(acc: int, sh: int, r: Result<(int, int), DecodeError>) -> Result<
    (int, int),
    DecodeError,
> {
    match r {
        Ok((v, e)) => Ok((acc + sh * v, e)),
        Err(x) => Err(x),
    }
}

proof fn lemma_pow128_bound(k: nat)
    requires
        k <= 10,
    ensures
        1 <= pow128(k) <= 0x40_0000_0000_0000_0000,
    decreases k,
{
    reveal_with_fuel(pow128, 11);
}

/// Reads a LEB128 number of at most `max_bytes` bytes at `pos`.
pub fn read_leb(bytes: &Vec<u8>, pos: usize, max_bytes: usize, signed: bool) -> (r: Result<
    (i128, usize),
    DecodeError,
>)
    requires
        max_bytes <= 10,
    ensures
        match leb(bytes@, pos as int, max_bytes as nat, signed) {
            Ok((v, e)) => r == Ok::<(i128, usize), DecodeError>((v as i128, e as usize)) && v
                == v as i128 && e == e as usize,
            Err(x) => r == Err::<(i128, usize), DecodeError>(x),
        },
{
    let mut acc: i128 = 0;
    let mut sh: i128 = 1;
    let mut i: usize = 0;
    let n = bytes.len();
    loop
        invariant
            n == bytes@.len(),
            i <= max_bytes <= 10,
            0 <= acc < sh,
            sh == pow128(i as nat),
            pos + i <= pos + max_bytes,
            leb(bytes@, pos as int, max_bytes as nat, signed) == shifted(
                acc as int,
                sh as int,
                leb(bytes@, pos + i, (max_bytes - i) as nat, signed),
            ),
        decreases max_bytes - i,
    {
        proof {
            lemma_pow128_bound(i as nat);
        }
        if i == max_bytes {
            return Err(DecodeError::BadLEB);
        }
        if pos >= n || i >= n - pos {
            return Err(DecodeError::TruncatedInput);
        }
        let b = bytes[pos + i];
        if b < 128 {
            let d: i128 = if signed && b >= 64 { b as i128 - 128 } else { b as i128 };
            proof {
                assert(-64 * sh <= sh * d <= 127 * sh) by (nonlinear_arith)
                    requires -64 <= d <= 127, sh >= 1;
            }
            let v = acc + sh * d;
            return Ok((v, pos + i + 1));
        }
        proof {
            let rest = leb(bytes@, pos + i + 1, (max_bytes - i - 1) as nat, signed);
            let low = b - 128;
            assert(sh * low + sh * 128 == sh * (low + 128)) by (nonlinear_arith);
            assert(0 <= sh * low <= sh * 127) by (nonlinear_arith)
                requires 0 <= low < 128, sh >= 1;
            match rest {
                Ok((v, e)) => {
                    assert(sh * (low + 128 * v) == sh * low + (sh * 128) * v) by (nonlinear_arith);
                },
                Err(x) => {},
            }
            lemma_pow128_bound((i + 1) as nat);
        }
        acc = acc + sh * (b as i128 - 128);
        sh = sh * 128;
        i = i + 1;
    }
}

/// The value of a decoded number where it falls in `[lo, hi]`.
pub open spec fn in_range(
    r: Result<(int, int), DecodeError>,
    lo: int,
    hi: int,
) -> Result<(int, int), DecodeError> {
    match r {
        Ok((v, e)) => if lo <= v <= hi {
            Ok((v, e))
        } else {
            Err(DecodeError::BadLEB)
        },
        Err(x) => Err(x),
    }
}

/// The `u32` encoded at `pos`, and the position after it.
pub open spec fn u32_at(s: Seq<u8>, pos: int) -> Result<(u32, int), DecodeError> {
    match in_range(leb(s, pos, 5, false), 0, u32::MAX as int) {
        Ok((v, e)) => Ok((v as u32, e)),
        Err(x) => Err(x),
    }
}

/// Reads an unsigned LEB128 `u32` (at most five bytes) at `pos`.
pub fn read_u32(bytes: &Vec<u8>, pos: usize) -> (r: Result<(u32, usize), DecodeError>)
    ensures
        match u32_at(bytes@, pos as int) {
            Ok((v, e)) => r == Ok::<(u32, usize), DecodeError>((v, e as usize)) && e == e as usize,
            Err(x) => r == Err::<(u32, usize), DecodeError>(x),
        },
{
    let (v, e) = read_leb(bytes, pos, 5, false)?;
    if v < 0 || v > u32::MAX as i128 {
        return Err(DecodeError::BadLEB);
    }
    Ok((v as u32, e))
}

/// The `i32` encoded at `pos`, and the position after it.
pub open spec fn i32_at(s: Seq<u8>, pos: int) -> Result<(i32, int), DecodeError> {
    match in_range(leb(s, pos, 5, true), i32::MIN as int, i32::MAX as int) {
        Ok((v, e)) => Ok((v as i32, e)),
        Err(x) => Err(x),
    }
}

/// Reads a signed LEB128 `i32` (at most five bytes) at `pos`.
pub fn read_i32(bytes: &Vec<u8>, pos: usize) -> (r: Result<(i32, usize), DecodeError>)
    ensures
        match i32_at(bytes@, pos as int) {
            Ok((v, e)) => r == Ok::<(i32, usize), DecodeError>((v, e as usize)) && e == e as usize,
            Err(x) => r == Err::<(i32, usize), DecodeError>(x),
        },
{
    let (v, e) = read_leb(bytes, pos, 5, true)?;
    if v < i32::MIN as i128 || v > i32::MAX as i128 {
        return Err(DecodeError::BadLEB);
    }
    Ok((v as i32, e))
}

/// The `i64` encoded at `pos`, and the position after it.
pub open spec fn i64_at(s: Seq<u8>, pos: int) -> Result<(i64, int), DecodeError> {
    match in_range(leb(s, pos, 10, true), i64::MIN as int, i64::MAX as int) {
        Ok((v, e)) => Ok((v as i64, e)),
        Err(x) => Err(x),
    }
}

/// Reads a signed LEB128 `i64` (at most ten bytes) at `pos`.
pub fn read_i64(bytes: &Vec<u8>, pos: usize) -> (r: Result<(i64, usize), DecodeError>)
    ensures
        match i64_at(bytes@, pos as int) {
            Ok((v, e)) => r == Ok::<(i64, usize), DecodeError>((v, e as usize)) && e == e as usize,
            Err(x) => r == Err::<(i64, usize), DecodeError>(x),
        },
{
    let (v, e) = read_leb(bytes, pos, 10, true)?;
    if v < i64::MIN as i128 || v > i64::MAX as i128 {
        return Err(DecodeError::BadLEB);
    }
    Ok((v as i64, e))
}

} // verus!
