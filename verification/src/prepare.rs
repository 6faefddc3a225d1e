//! The prepare engine: given a chunk, a request and a direction, decide
//! whether the request fits in the free space on that side of the cursor,
//! and if so where the region lies and where the cursor moves. Pure: nothing
//! is committed; the caller adopts the returned cursor explicitly.

use vstd::prelude::*;

use crate::chunk::AddressRange;
use crate::chunk::AllocationRequest;
use crate::chunk::ChunkState;
use crate::chunk::Direction;
use crate::chunk::PrepareOutcome;
use crate::chunk::align_down;
use crate::chunk::align_down_int;
use crate::chunk::align_up;
use crate::chunk::align_up_int;
use crate::chunk::lemma_align_down_props;
use crate::chunk::lemma_align_up_props;

verus! {

/// `lo` is a viable low edge for the request in the upward free span
/// `[cursor, end)`: aligned, at or above the cursor, with room for `size`
/// below `end`.
pub open spec fn candidate_up(state: ChunkState, req: AllocationRequest, lo: int) -> bool {
    lo % (req.align as int) == 0 && state.cursor <= lo && lo + req.size <= state.end
}

/// `lo` is a viable low edge for the request in the downward free span
/// `[start, cursor)`: aligned, at or above `start`, with room for `size`
/// below the cursor.
pub open spec fn candidate_down(state: ChunkState, req: AllocationRequest, lo: int) -> bool {
    lo % (req.align as int) == 0 && state.start <= lo && lo + req.size <= state.cursor
}

/// A viable low edge in the direction's free span.
pub open spec fn candidate(
    state: ChunkState,
    req: AllocationRequest,
    direction: Direction,
    lo: int,
) -> bool {
    match direction {
        Direction::Up => candidate_up(state, req, lo),
        Direction::Down => candidate_down(state, req, lo),
    }
}

/// What growing up prepares: the region starts at the cursor rounded up to
/// the alignment, and the cursor moves to the region's high edge.
pub open spec fn prepare_up_spec(state: ChunkState, req: AllocationRequest) -> PrepareOutcome {
    let aligned = align_up_int(state.cursor as int, req.align as int);
    if aligned + req.size <= state.end {
        PrepareOutcome::Fits {
            region: AddressRange { lo: aligned as usize, hi: (aligned + req.size) as usize },
            new_cursor: (aligned + req.size) as usize,
        }
    } else {
        PrepareOutcome::DoesNotFit
    }
}

/// What growing down prepares: the region ends at most at the cursor, starts
/// at `cursor - size` rounded down to the alignment, and the cursor moves to
/// the region's low edge. Alignment may abandon a gap between the region's
/// high edge and the old cursor; that gap is never reclaimed.
pub open spec fn prepare_down_spec(state: ChunkState, req: AllocationRequest) -> PrepareOutcome {
    if req.size <= state.cursor {
        let aligned = align_down_int(state.cursor - req.size, req.align as int);
        if state.start <= aligned {
            PrepareOutcome::Fits {
                region: AddressRange { lo: aligned as usize, hi: (aligned + req.size) as usize },
                new_cursor: aligned as usize,
            }
        } else {
            PrepareOutcome::DoesNotFit
        }
    } else {
        PrepareOutcome::DoesNotFit
    }
}

/// The prepare outcome as a pure function of the inputs.
pub open spec fn prepare_spec(
    state: ChunkState,
    req: AllocationRequest,
    direction: Direction,
) -> PrepareOutcome {
    match direction {
        Direction::Up => prepare_up_spec(state, req),
        Direction::Down => prepare_down_spec(state, req),
    }
}

/// Grow-up prepare. On success the region is aligned, exactly `size` wide,
/// inside the chunk, and the cursor moves forward to its high edge; on
/// failure no aligned region of this size exists in `[cursor, end)` at all.
pub fn prepare_up(state: ChunkState, req: AllocationRequest) -> (r: PrepareOutcome)
    requires
        state.wf(),
        req.wf(),
    ensures
        r == prepare_up_spec(state, req),
        r matches PrepareOutcome::Fits { region, new_cursor } ==> {
            &&& (region.lo as int) % (req.align as int) == 0
            &&& region.hi - region.lo == req.size
            &&& state.start <= region.lo
            &&& region.hi <= state.end
            &&& new_cursor == region.hi
            &&& state.cursor <= new_cursor
        },
        r is DoesNotFit ==> forall|lo: int| !candidate_up(state, req, lo),
{
    proof {
        lemma_align_up_props(state.cursor as int, req.align as int);
    }
    let ghost aligned_int = align_up_int(state.cursor as int, req.align as int);
    match align_up(state.cursor, req.align) {
        Some(aligned) => {
            if aligned <= state.end && req.size <= state.end - aligned {
                PrepareOutcome::Fits {
                    region: AddressRange { lo: aligned, hi: aligned + req.size },
                    new_cursor: aligned + req.size,
                }
            } else {
                proof {
                    assert forall|lo: int| !candidate_up(state, req, lo) by {
                        if lo % (req.align as int) == 0 && state.cursor <= lo {
                            assert(aligned_int <= lo);
                        }
                    }
                }
                PrepareOutcome::DoesNotFit
            }
        },
        None => {
            proof {
                assert forall|lo: int| !candidate_up(state, req, lo) by {
                    if lo % (req.align as int) == 0 && state.cursor <= lo {
                        assert(aligned_int <= lo);
                    }
                }
            }
            PrepareOutcome::DoesNotFit
        },
    }
}

/// Grow-down prepare. On success the region is aligned, exactly `size` wide,
/// inside the chunk and below the old cursor, and the cursor moves backward
/// to its low edge; on failure no aligned region of this size exists in
/// `[start, cursor)` at all.
pub fn prepare_down(state: ChunkState, req: AllocationRequest) -> (r: PrepareOutcome)
    requires
        state.wf(),
        req.wf(),
    ensures
        r == prepare_down_spec(state, req),
        r matches PrepareOutcome::Fits { region, new_cursor } ==> {
            &&& (region.lo as int) % (req.align as int) == 0
            &&& region.hi - region.lo == req.size
            &&& state.start <= region.lo
            &&& region.hi <= state.cursor
            &&& region.hi <= state.end
            &&& new_cursor == region.lo
            &&& new_cursor <= state.cursor
        },
        r is DoesNotFit ==> forall|lo: int| !candidate_down(state, req, lo),
{
    if req.size > state.cursor {
        proof {
            assert(forall|lo: int| candidate_down(state, req, lo) ==> lo < 0);
        }
        return PrepareOutcome::DoesNotFit;
    }
    let candidate_start = state.cursor - req.size;
    proof {
        lemma_align_down_props(candidate_start as int, req.align as int);
    }
    let ghost aligned_int = align_down_int(candidate_start as int, req.align as int);
    let aligned = align_down(candidate_start, req.align);
    if aligned < state.start {
        proof {
            assert forall|lo: int| !candidate_down(state, req, lo) by {
                if lo % (req.align as int) == 0 && 0 <= lo && lo + req.size <= state.cursor {
                    assert(lo <= aligned_int);
                }
            }
        }
        PrepareOutcome::DoesNotFit
    } else {
        PrepareOutcome::Fits {
            region: AddressRange { lo: aligned, hi: aligned + req.size },
            new_cursor: aligned,
        }
    }
}

/// Prepare in either direction: dispatches to the directional variant.
pub fn prepare(state: ChunkState, req: AllocationRequest, direction: Direction) -> (r:
    PrepareOutcome)
    requires
        state.wf(),
        req.wf(),
    ensures
        r == prepare_spec(state, req, direction),
        r matches PrepareOutcome::Fits { region, new_cursor } ==> {
            &&& (region.lo as int) % (req.align as int) == 0
            &&& region.hi - region.lo == req.size
            &&& state.start <= region.lo
            &&& region.hi <= state.end
            &&& direction is Up ==> new_cursor == region.hi && state.cursor <= new_cursor
            &&& direction is Down ==> new_cursor == region.lo && new_cursor <= state.cursor
        },
        r is DoesNotFit ==> forall|lo: int| !candidate(state, req, direction, lo),
{
    match direction {
        Direction::Up => prepare_up(state, req),
        Direction::Down => prepare_down(state, req),
    }
}

/// Prepare is deterministic: any two outcomes that meet `prepare`'s contract
/// for the same chunk, request and direction are the same outcome.
pub proof fn lemma_prepare_deterministic(
    state: ChunkState,
    req: AllocationRequest,
    direction: Direction,
    r1: PrepareOutcome,
    r2: PrepareOutcome,
)
    requires
        r1 == prepare_spec(state, req, direction),
        r2 == prepare_spec(state, req, direction),
    ensures
        r1 == r2,
{
}

/// A successful prepare never grows the free space, shrinks it strictly
/// whenever `size > 0`, and the chunk stays well formed once the caller
/// adopts the new cursor.
pub proof fn lemma_fits_shrinks_remaining(
    state: ChunkState,
    req: AllocationRequest,
    direction: Direction,
)
    requires
        state.wf(),
        req.wf(),
    ensures
        prepare_spec(state, req, direction) matches PrepareOutcome::Fits { region, new_cursor }
            ==> {
            let after = ChunkState { start: state.start, end: state.end, cursor: new_cursor };
            &&& after.wf()
            &&& direction is Up ==> {
                &&& after.end - after.cursor <= state.end - state.cursor
                &&& req.size > 0 ==> after.end - after.cursor < state.end - state.cursor
            }
            &&& direction is Down ==> {
                &&& after.cursor - after.start <= state.cursor - state.start
                &&& req.size > 0 ==> after.cursor - after.start < state.cursor - state.start
            }
        },
{
    match direction {
        Direction::Up => {
            lemma_align_up_props(state.cursor as int, req.align as int);
        },
        Direction::Down => {
            if req.size <= state.cursor {
                lemma_align_down_props(state.cursor - req.size, req.align as int);
            }
        },
    }
}

/// A zero-size request with unit alignment always fits when the cursor is in
/// bounds, as a zero-width region anchored at the cursor, in either direction.
pub proof fn lemma_zero_size_unit_align(
    state: ChunkState,
    req: AllocationRequest,
    direction: Direction,
)
    requires
        state.wf(),
        req.size == 0,
        req.align == 1,
    ensures
        prepare_spec(state, req, direction) == (PrepareOutcome::Fits {
            region: AddressRange { lo: state.cursor, hi: state.cursor },
            new_cursor: state.cursor,
        }),
{
    lemma_align_up_props(state.cursor as int, 1);
    lemma_align_down_props(state.cursor as int, 1);
}

} // verus!
