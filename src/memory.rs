use vstd::prelude::*;
use crate::value::Trap;

verus! {

pub const PAGE_SIZE: usize = 65536;

/// The most pages a 32-bit address space holds.
pub const MAX_PAGES: u32 = 65536;

/// Little-endian value of a byte sequence.
pub open spec fn le_value(s: Seq<u8>) -> nat
    decreases s.len(),
{
    if s.len() == 0 {
        0
    } else {
        s[0] as nat + 256 * le_value(s.drop_first())
    }
}

pub open spec fn pow256(k: nat) -> nat
    decreases k,
{
    if k == 0 {
        1
    } else {
        256 * pow256((k - 1) as nat)
    }
}

/// Byte `j` of `v` in little-endian order.
pub open spec fn byte_of(v: u64, j: int) -> u8 {
    ((v >> ((8 * j) as u64)) & 0xffu64) as u8
}

/// The little-endian integer held by `width` bytes of `bytes` at `start`.
pub fn read_le(bytes: &Vec<u8>, start: usize, width: usize) -> (v: u64)
    requires
        width <= 8,
        start + width <= bytes@.len(),
    ensures
        v == le_value(bytes@.subrange(start as int, start + width)),
        (v as nat) < pow256(width as nat),
{
    let n = bytes.len();
    let ghost end = start + width;
    let mut v: u64 = 0;
    let mut i: usize = width;
    assert(bytes@.subrange(start + i, end) =~= Seq::<u8>::empty());
    while i > 0
        invariant
            i <= width <= 8,
            end == start + width <= bytes@.len(),
            n == bytes@.len(),
            v as nat == le_value(bytes@.subrange(start + i, end)),
            (v as nat) < pow256((width - i) as nat),
        decreases i,
    {
        let b = bytes[start + i - 1];
        proof {
            let s = bytes@.subrange(start + i - 1, end);
            assert(s.drop_first() =~= bytes@.subrange(start + i, end));
            lemma_pow256_le_8((width - i + 1) as nat);
            let p = pow256((width - i) as nat);
            assert((v as nat) * 256 + (b as nat) < p * 256) by (nonlinear_arith)
                requires (v as nat) < p, b < 256;
        }
        v = v * 256 + b as u64;
        i = i - 1;
    }
    v
}

/// Whether `pages + n` pages stay within `limit` and the machine's address space.
pub open spec fn grow_fits(pages: nat, n: nat, limit: nat) -> bool {
    &&& pages + n <= limit
    &&& (pages + n) * (PAGE_SIZE as nat) <= usize::MAX
}

/// The page count a memory with declared maximum `max` may reach.
pub open spec fn limit_of(max: Option<u32>) -> nat {
    match max {
        Some(m) => if m < MAX_PAGES { m as nat } else { MAX_PAGES as nat },
        None => MAX_PAGES as nat,
    }
}

/// A linear memory: its bytes and its declared maximum page count.
pub struct MemInst {
    pub data: Vec<u8>,
    pub max: Option<u32>,
}

impl MemInst {
    /// The current page count.
    pub open spec fn pages(&self) -> nat {
        self.data@.len() / (PAGE_SIZE as nat)
    }

    /// The page count the memory may grow to.
    pub open spec fn limit(&self) -> nat {
        limit_of(self.max)
    }

    /// Whole pages only, never more than the limit.
    pub open spec fn wf(&self) -> bool {
        &&& self.data@.len() % (PAGE_SIZE as nat) == 0
        &&& self.pages() <= self.limit()
    }

    /// A zero-filled memory of `min` pages; `None` where `min` exceeds the limit.
    pub fn new(min: u32, max: Option<u32>) -> (r: Option<MemInst>)
        ensures
            r is Some <==> !(min > limit_of(max) || min as nat * 65536 > usize::MAX),
            match r {
                Some(m) => {
                    &&& m.wf()
                    &&& m.max == max
                    &&& m.data@ == Seq::new(min as nat * PAGE_SIZE as nat, |i: int| 0u8)
                },
                None => min > limit_of(max) || min as nat
                    * PAGE_SIZE as nat > usize::MAX,
            },
    {
        let limit = match max {
            Some(m) => if m < MAX_PAGES { m } else { MAX_PAGES },
            None => MAX_PAGES,
        };
        if min > limit {
            return None;
        }
        if min as u64 * 65536u64 > usize::MAX as u64 {
            return None;
        }
        let mut data: Vec<u8> = Vec::new();
        data.resize(min as usize * PAGE_SIZE, 0u8);
        let m = MemInst { data, max };
        assert(m.data@ =~= Seq::new(min as nat * PAGE_SIZE as nat, |i: int| 0u8));
        assert((min as nat * PAGE_SIZE as nat) / (PAGE_SIZE as nat) == min as nat) by (nonlinear_arith);
        assert((min as nat * PAGE_SIZE as nat) % (PAGE_SIZE as nat) == 0) by (nonlinear_arith);
        Some(m)
    }

    /// `memory.size`: the current page count.
    pub fn size(&self) -> (r: u32)
        requires
            self.wf(),
        ensures
            r == self.pages(),
    {
        (self.data.len() / PAGE_SIZE) as u32
    }

    /// `memory.grow`: appends `n` zero-filled pages and returns the previous
    /// page count, or returns -1 and changes nothing where the result would
    /// exceed the limit (or the address space of the machine).
    pub fn grow(&mut self, n: u32) -> (r: i32)
        requires
            old(self).wf(),
        ensures
            final(self).wf(),
            final(self).max == old(self).max,
            !grow_fits(old(self).pages(), n as nat, old(self).limit()) ==> r == -1
                && final(self).data@ == old(self).data@,
            grow_fits(old(self).pages(), n as nat, old(self).limit()) ==> {
                &&& r == old(self).pages()
                &&& final(self).pages() == old(self).pages() + n
                &&& final(self).data@ == old(self).data@ + Seq::new(
                    n as nat * PAGE_SIZE as nat,
                    |i: int| 0u8,
                )
            },
    {
        let prev = self.data.len() / PAGE_SIZE;
        let limit = match self.max {
            Some(m) => if m < MAX_PAGES { m } else { MAX_PAGES },
            None => MAX_PAGES,
        };
        if prev as u64 + n as u64 > limit as u64 || (prev as u64 + n as u64) * 65536u64
            > usize::MAX as u64 {
            return -1;
        }
        let ghost old_data = self.data@;
        let new_len = (prev + n as usize) * PAGE_SIZE;
        assert(old_data.len() == prev * PAGE_SIZE) by (nonlinear_arith)
            requires old_data.len() % (PAGE_SIZE as nat) == 0, prev == old_data.len() / (PAGE_SIZE as nat);
        assert(new_len == old_data.len() + n as nat * PAGE_SIZE as nat) by (nonlinear_arith)
            requires new_len == (prev + n) * PAGE_SIZE, old_data.len() == prev * PAGE_SIZE;
        self.data.resize(new_len, 0u8);
        assert(self.data@ =~= old_data + Seq::new(n as nat * PAGE_SIZE as nat, |i: int| 0u8));
        assert((new_len as nat) / (PAGE_SIZE as nat) == prev + n && (new_len as nat) % (
        PAGE_SIZE as nat) == 0) by (nonlinear_arith)
            requires new_len == (prev + n) * PAGE_SIZE;
        prev as i32
    }

    /// Reads `width` bytes at `addr + offset` as a little-endian integer;
    /// traps where the access reaches past the end of memory.
    pub fn load(&self, addr: u32, offset: u32, width: usize) -> (r: Result<u64, Trap>)
        requires
            width <= 8,
        ensures
            addr as nat + offset as nat + width > self.data@.len() ==> r == Err::<u64, Trap>(
                Trap::OutOfBoundsMemoryAccess,
            ),
            addr as nat + offset as nat + width <= self.data@.len() ==> r == Ok::<u64, Trap>(
                le_value(
                    self.data@.subrange(
                        addr as int + offset as int,
                        addr as int + offset as int + width as int,
                    ),
                ) as u64,
            ),
            r is Ok ==> r->Ok_0 < pow256(width as nat),
    {
        let ea = addr as u64 + offset as u64;
        if ea + width as u64 > self.data.len() as u64 {
            return Err(Trap::OutOfBoundsMemoryAccess);
        }
        Ok(read_le(&self.data, ea as usize, width))
    }

    /// Copies a data segment into memory at `offset`; traps, changing
    /// nothing, where it does not fit.
    pub fn init_data(&mut self, offset: u32, bytes: &Vec<u8>) -> (r: Result<(), Trap>)
        ensures
            final(self).max == old(self).max,
            offset as nat + bytes@.len() > old(self).data@.len() ==> r == Err::<(), Trap>(
                Trap::OutOfBoundsMemoryAccess,
            ) && final(self).data@ == old(self).data@,
            offset as nat + bytes@.len() <= old(self).data@.len() ==> r == Ok::<(), Trap>(())
                && final(self).data@ == old(self).data@.subrange(0, offset as int) + bytes@
                + old(self).data@.subrange(offset + bytes@.len(), old(self).data@.len() as int),
    {
        let n = self.data.len();
        if offset as usize > n || bytes.len() > n - offset as usize {
            return Err(Trap::OutOfBoundsMemoryAccess);
        }
        let start = offset as usize;
        let mut j: usize = 0;
        while j < bytes.len()
            invariant
                j <= bytes@.len(),
                start + bytes@.len() <= n,
                n == self.data@.len(),
                n == old(self).data@.len(),
                self.max == old(self).max,
                self.data@ == old(self).data@.subrange(0, start as int) + bytes@.subrange(0, j as int)
                    + old(self).data@.subrange(start + j, n as int),
            decreases bytes@.len() - j,
        {
            let ghost prev = self.data@;
            self.data.set(start + j, bytes[j]);
            proof {
                let o = old(self).data@;
                let want = o.subrange(0, start as int) + bytes@.subrange(0, j + 1) + o.subrange(
                    start + j + 1,
                    n as int,
                );
                let a = o.subrange(0, start as int);
                let b = bytes@.subrange(0, j as int);
                let c = o.subrange(start + j, n as int);
                assert(prev == a + b + c);
                assert forall|k: int| 0 <= k < n implies #[trigger] self.data@[k] == want[k] by {
                    if k < start {
                        assert(prev[k] == (a + b)[k]);
                        assert((a + b)[k] == a[k]);
                    } else if k < start + j {
                        assert(prev[k] == (a + b)[k]);
                        assert((a + b)[k] == b[k - start]);
                    } else if k == start + j {
                    } else {
                        assert(prev[k] == c[k - start - j]);
                    }
                }
                assert(self.data@ =~= want);
            }
            j = j + 1;
        }
        assert(bytes@.subrange(0, bytes@.len() as int) =~= bytes@);
        Ok(())
    }

    /// Writes the low `width` bytes of `value` at `addr + offset` in
    /// little-endian order; traps, changing nothing, where the access reaches
    /// past the end of memory.
    pub fn store(&mut self, addr: u32, offset: u32, width: usize, value: u64) -> (r: Result<
        (),
        Trap,
    >)
        requires
            width <= 8,
        ensures
            final(self).max == old(self).max,
            final(self).data@.len() == old(self).data@.len(),
            addr as nat + offset as nat + width > old(self).data@.len() ==> r == Err::<(), Trap>(
                Trap::OutOfBoundsMemoryAccess,
            ) && final(self).data@ == old(self).data@,
            addr as nat + offset as nat + width <= old(self).data@.len() ==> {
                &&& r == Ok::<(), Trap>(())
                &&& forall|k: int|
                    0 <= k < old(self).data@.len() ==> #[trigger] final(self).data@[k] == if addr
                        + offset <= k < addr + offset + width {
                        byte_of(value, k - addr - offset)
                    } else {
                        old(self).data@[k]
                    }
            },
    {
        let ea = addr as u64 + offset as u64;
        if ea + width as u64 > self.data.len() as u64 {
            return Err(Trap::OutOfBoundsMemoryAccess);
        }
        let start = ea as usize;
        let n = self.data.len();
        let mut j: usize = 0;
        while j < width
            invariant
                j <= width <= 8,
                start + width <= self.data@.len(),
                n == self.data@.len(),
                self.max == old(self).max,
                self.data@.len() == old(self).data@.len(),
                start == addr + offset,
                forall|k: int|
                    0 <= k < old(self).data@.len() ==> #[trigger] self.data@[k] == if start <= k
                        < start + j {
                        byte_of(value, k - start)
                    } else {
                        old(self).data@[k]
                    },
            decreases width - j,
        {
            let b = ((value >> (8 * j as u64)) & 0xff) as u8;
            assert(b == byte_of(value, j as int));
            self.data.set(start + j, b);
            j = j + 1;
        }
        Ok(())
    }
}

pub proof fn lemma_pow256_le_8(k: nat)
    requires
        k <= 8,
    ensures
        pow256(k) <= 0x1_0000_0000_0000_0000,
        pow256(k) >= 1,
    decreases k,
{
    reveal_with_fuel(pow256, 9);
}

} // verus!
