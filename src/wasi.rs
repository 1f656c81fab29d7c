use vstd::prelude::*;
use crate::memory::{byte_of, le_value, read_le, MemInst};
use crate::value::Trap;

verus! {

/// The little-endian `u32` at `addr`.
pub open spec fn u32_field(data: Seq<u8>, addr: int) -> int {
    le_value(data.subrange(addr, addr + 4)) as int
}

/// The bytes that the first `n` iovecs at `iovs` point to, in order; `None`
/// where an iovec or the bytes it points to lie outside memory. An iovec is
/// eight bytes: the buffer's address, then its length.
pub open spec fn gathered(data: Seq<u8>, iovs: int, n: nat) -> Option<Seq<u8>>
    decreases n,
{
    if n == 0 {
        Some(Seq::empty())
    } else {
        match gathered(data, iovs, (n - 1) as nat) {
            None => None,
            Some(prev) => {
                let at = iovs + 8 * (n - 1);
                if at + 8 > data.len() {
                    None
                } else {
                    let buf = u32_field(data, at);
                    let len = u32_field(data, at + 4);
                    if buf + len > data.len() {
                        None
                    } else {
                        Some(prev + data.subrange(buf, buf + len))
                    }
                }
            },
        }
    }
}

/// The bytes that `fd_write` writes for `iovs_len` iovecs at `iovs_ptr`;
/// traps where they do not all lie in memory.
pub fn gather_iovecs(mem: &MemInst, iovs_ptr: u32, iovs_len: u32) -> (r: Result<Vec<u8>, Trap>)
    ensures
        match gathered(mem.data@, iovs_ptr as int, iovs_len as nat) {
            Some(bytes) => r matches Ok(v) && v@ == bytes,
            None => r == Err::<Vec<u8>, Trap>(Trap::OutOfBoundsMemoryAccess),
        },
{
    let mut out: Vec<u8> = Vec::new();
    let mut k: u32 = 0;
    let n = mem.data.len();
    while k < iovs_len
        invariant
            k <= iovs_len,
            n == mem.data@.len(),
            gathered(mem.data@, iovs_ptr as int, k as nat) == Some(out@),
        decreases iovs_len - k,
    {
        proof {
            lemma_gathered_prefix(mem.data@, iovs_ptr as int, (k + 1) as nat, iovs_len as nat);
        }
        let at = iovs_ptr as u64 + 8 * k as u64;
        if at > n as u64 || 8 > n as u64 - at {
            return Err(Trap::OutOfBoundsMemoryAccess);
        }
        let at = at as usize;
        let buf64 = read_le(&mem.data, at, 4);
        let len64 = read_le(&mem.data, at + 4, 4);
        assert(buf64 == u32_field(mem.data@, iovs_ptr + 8 * k));
        assert(len64 == u32_field(mem.data@, iovs_ptr + 8 * k + 4));
        proof {
            crate::memory::lemma_pow256_le_8(4);
            reveal_with_fuel(crate::memory::pow256, 5);
        }
        let buf = buf64 as usize;
        let len = len64 as usize;
        if buf > n || len > n - buf {
            return Err(Trap::OutOfBoundsMemoryAccess);
        }
        let ghost before = out@;
        let mut i: usize = buf;
        while i < buf + len
            invariant
                buf <= i <= buf + len <= n,
                n == mem.data@.len(),
                out@ == before + mem.data@.subrange(buf as int, i as int),
            decreases buf + len - i,
        {
            out.push(mem.data[i]);
            proof {
                assert(out@ =~= before + mem.data@.subrange(buf as int, i + 1));
            }
            i = i + 1;
        }
        assert(mem.data@.subrange(buf as int, (buf + len) as int) == mem.data@.subrange(
            u32_field(mem.data@, iovs_ptr + 8 * k),
            u32_field(mem.data@, iovs_ptr + 8 * k) + u32_field(mem.data@, iovs_ptr + 8 * k + 4),
        ));
        k = k + 1;
    }
    Ok(out)
}

/// Where gathering `n` iovecs succeeds, gathering any fewer succeeds too.
proof fn lemma_gathered_prefix(data: Seq<u8>, iovs: int, k: nat, n: nat)
    requires
        k <= n,
    ensures
        gathered(data, iovs, n) is Some ==> gathered(data, iovs, k) is Some,
    decreases n - k,
{
    if k < n {
        lemma_gathered_prefix(data, iovs, k + 1, n);
    }
}

/// `fd_write` on memory: gathers the bytes of `iovs_len` iovecs at
/// `iovs_ptr`, stores their count as a little-endian `u32` at
/// `nwritten_ptr`, and returns the bytes for the caller to write together
/// with errno 0. Traps, changing nothing, where the iovecs or their bytes
/// lie outside memory, the count does not fit in 32 bits, or the count
/// cannot be stored.
pub fn fd_write(mem: &mut MemInst, iovs_ptr: u32, iovs_len: u32, nwritten_ptr: u32) -> (r: Result<(Vec<u8>, i32), Trap>)
    ensures
        final(mem).max == old(mem).max,
        final(mem).data@.len() == old(mem).data@.len(),
        match gathered(old(mem).data@, iovs_ptr as int, iovs_len as nat) {
            None => r == Err::<(Vec<u8>, i32), Trap>(Trap::OutOfBoundsMemoryAccess)
                && final(mem).data@ == old(mem).data@,
            Some(bytes) => if bytes.len() > u32::MAX || nwritten_ptr + 4 > old(mem).data@.len() {
                r == Err::<(Vec<u8>, i32), Trap>(Trap::OutOfBoundsMemoryAccess)
                    && final(mem).data@ == old(mem).data@
            } else {
                &&& r matches Ok((v, errno)) && v@ == bytes && errno == 0
                &&& forall|k: int|
                    0 <= k < old(mem).data@.len() ==> #[trigger] final(mem).data@[k] == if nwritten_ptr
                        <= k < nwritten_ptr + 4 {
                        byte_of(bytes.len() as u64, k - nwritten_ptr)
                    } else {
                        old(mem).data@[k]
                    }
            },
        },
{
    let bytes = gather_iovecs(mem, iovs_ptr, iovs_len)?;
    if bytes.len() as u64 > u32::MAX as u64 {
        return Err(Trap::OutOfBoundsMemoryAccess);
    }
    mem.store(nwritten_ptr, 0, 4, bytes.len() as u64)?;
    Ok((bytes, 0))
}

} // verus!
