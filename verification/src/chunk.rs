//! The chunk bounds model: a contiguous address interval with a cursor, and
//! the pure address arithmetic (alignment, remaining space) that the prepare
//! engine is built on.

use vstd::prelude::*;

verus! {

/// Which end of the chunk allocations grow from: `Up` advances the cursor
/// toward `end`, `Down` advances it toward `start`.
#[derive(Clone, Copy, Debug, PartialEq, Eq, Structural)]
pub enum Direction {
    Up,
    Down,
}

/// One contiguous chunk `[start, end)` together with the current cursor.
/// Addresses are plain `usize` scalars; nothing is ever dereferenced.
#[derive(Clone, Copy, Debug, PartialEq, Eq, Structural)]
pub struct ChunkState {
    pub start: usize,
    pub end: usize,
    pub cursor: usize,
}

/// A requested allocation shape: a byte count and a power-of-two alignment.
#[derive(Clone, Copy, Debug, PartialEq, Eq, Structural)]
pub struct AllocationRequest {
    pub size: usize,
    pub align: usize,
}

/// A half-open address interval `[lo, hi)` handed back on success.
#[derive(Clone, Copy, Debug, PartialEq, Eq, Structural)]
pub struct AddressRange {
    pub lo: usize,
    pub hi: usize,
}

/// Result of a prepare call: either the region that would be allocated and
/// the cursor the caller should adopt, or the plain fact that nothing fits.
#[derive(Clone, Copy, Debug, PartialEq, Eq, Structural)]
pub enum PrepareOutcome {
    Fits { region: AddressRange, new_cursor: usize },
    DoesNotFit,
}

/// Reported by the remaining-space queries when the cursor lies outside the
/// span they assume, which a well-formed chunk never exhibits.
#[derive(Clone, Copy, Debug, PartialEq, Eq, Structural)]
pub struct InvariantViolation;

/// `a` is a positive power of two.
pub open spec fn power_of_two(a: nat) -> bool
    decreases a,
{
    if a == 0 {
        false
    } else if a == 1 {
        true
    } else {
        a % 2 == 0 && power_of_two(a / 2)
    }
}

/// `addr` rounded up to the next multiple of `align`, as unbounded math.
pub open spec fn align_up_int(addr: int, align: int) -> int {
    addr + ((align - addr % align) % align)
}

/// `addr` rounded down to the previous multiple of `align`.
pub open spec fn align_down_int(addr: int, align: int) -> int {
    addr - addr % align
}

impl AllocationRequest {
    /// The precondition on a request: the alignment is a power of two
    /// (`1` means no constraint). `size` may freely be zero.
    pub open spec fn wf(self) -> bool {
        power_of_two(self.align as nat)
    }
}

impl ChunkState {
    /// The invariant every chunk handed to the engine satisfies.
    pub open spec fn wf(self) -> bool {
        self.start <= self.cursor && self.cursor <= self.end
    }

    /// The same bounds with the cursor moved: how a caller adopts a
    /// successful prepare outcome.
    pub fn with_cursor(self, new_cursor: usize) -> (r: ChunkState)
        ensures
            r.start == self.start,
            r.end == self.end,
            r.cursor == new_cursor,
    {
        ChunkState { start: self.start, end: self.end, cursor: new_cursor }
    }

    /// Free space when growing up: the span `[cursor, end)`.
    pub fn remaining_up(&self) -> (r: Result<usize, InvariantViolation>)
        ensures
            r is Ok <==> self.cursor <= self.end,
            r matches Ok(n) ==> n == self.end - self.cursor,
    {
        if self.cursor <= self.end {
            Ok(self.end - self.cursor)
        } else {
            Err(InvariantViolation)
        }
    }

    /// Free space when growing down: the span `[start, cursor)`.
    pub fn remaining_down(&self) -> (r: Result<usize, InvariantViolation>)
        ensures
            r is Ok <==> self.start <= self.cursor,
            r matches Ok(n) ==> n == self.cursor - self.start,
    {
        if self.start <= self.cursor {
            Ok(self.cursor - self.start)
        } else {
            Err(InvariantViolation)
        }
    }
}

/// Decides `power_of_two` by stripping factors of two.
pub fn is_power_of_two(a: usize) -> (r: bool)
    ensures
        r == power_of_two(a as nat),
{
    if a == 0 {
        return false;
    }
    let mut v: usize = a;
    while v % 2 == 0
        invariant
            1 <= v,
            power_of_two(a as nat) == power_of_two(v as nat),
        decreases v,
    {
        v = v / 2;
    }
    v == 1
}

proof fn lemma_mod_basics(addr: int, align: int)
    by (nonlinear_arith)
    requires
        0 <= addr,
        1 <= align,
    ensures
        0 <= addr % align < align,
        addr % align <= addr,
        (addr - addr % align) % align == 0,
        addr % align == 0 ==> (align - addr % align) % align == 0,
        addr % align != 0 ==> (align - addr % align) % align == align - addr % align,
{
}

proof fn lemma_align_up_is_aligned(addr: int, align: int)
    requires
        0 <= addr,
        1 <= align,
    ensures
        align_up_int(addr, align) % align == 0,
{
    lemma_mod_basics(addr, align);
    let r = addr % align;
    if r == 0 {
        assert(align_up_int(addr, align) == addr);
    } else {
        assert(align_up_int(addr, align) == align + (addr - r));
        vstd::arithmetic::div_mod::lemma_mod_add_multiples_vanish(addr - r, align);
    }
}

proof fn lemma_aligned_at_least(addr: int, align: int, lo: int)
    by (nonlinear_arith)
    requires
        0 <= addr,
        1 <= align,
        lo % align == 0,
        addr <= lo,
    ensures
        addr + ((align - addr % align) % align) <= lo,
{
}

proof fn lemma_aligned_at_most(addr: int, align: int, lo: int)
    by (nonlinear_arith)
    requires
        0 <= addr,
        1 <= align,
        lo % align == 0,
        lo <= addr,
    ensures
        lo <= addr - addr % align,
{
}

/// `align_up_int` yields the least multiple of `align` at or above `addr`,
/// and overshoots by less than one whole alignment.
pub proof fn lemma_align_up_props(addr: int, align: int)
    requires
        0 <= addr,
        1 <= align,
    ensures
        align_up_int(addr, align) % align == 0,
        addr <= align_up_int(addr, align) < addr + align,
        forall|lo: int| (#[trigger] (lo % align)) == 0 && addr <= lo ==> align_up_int(addr, align) <= lo,
{
    lemma_mod_basics(addr, align);
    lemma_align_up_is_aligned(addr, align);
    assert forall|lo: int| (#[trigger] (lo % align)) == 0 && addr <= lo implies align_up_int(
        addr,
        align,
    ) <= lo by {
        lemma_aligned_at_least(addr, align, lo);
    }
}

/// `align_down_int` yields the greatest multiple of `align` at or below
/// `addr`, and undershoots by less than one whole alignment.
pub proof fn lemma_align_down_props(addr: int, align: int)
    requires
        0 <= addr,
        1 <= align,
    ensures
        align_down_int(addr, align) % align == 0,
        addr - align < align_down_int(addr, align) <= addr,
        0 <= align_down_int(addr, align),
        forall|lo: int| (#[trigger] (lo % align)) == 0 && lo <= addr ==> lo <= align_down_int(addr, align),
{
    lemma_mod_basics(addr, align);
    assert forall|lo: int| (#[trigger] (lo % align)) == 0 && lo <= addr implies lo <= align_down_int(
        addr,
        align,
    ) by {
        lemma_aligned_at_most(addr, align, lo);
    }
}

/// Rounds `addr` up to a multiple of `align`, or `None` when the result would
/// not fit in the address space.
pub fn align_up(addr: usize, align: usize) -> (r: Option<usize>)
    requires
        power_of_two(align as nat),
    ensures
        r matches Some(v) ==> v == align_up_int(addr as int, align as int),
        r is None ==> align_up_int(addr as int, align as int) > usize::MAX,
{
    proof {
        lemma_mod_basics(addr as int, align as int);
    }
    let rem = addr % align;
    if rem == 0 {
        Some(addr)
    } else {
        let delta = align - rem;
        if addr <= usize::MAX - delta {
            Some(addr + delta)
        } else {
            None
        }
    }
}

/// Rounds `addr` down to a multiple of `align`; this only decreases the value
/// and can never leave the address space.
pub fn align_down(addr: usize, align: usize) -> (r: usize)
    requires
        power_of_two(align as nat),
    ensures
        r == align_down_int(addr as int, align as int),
{
    proof {
        lemma_mod_basics(addr as int, align as int);
    }
    addr - addr % align
}

} // verus!
