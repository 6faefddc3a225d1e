//! The driver for one randomized test case: plain input values for a chunk,
//! a request and a direction, validated and run through the prepare engine.
//! The invariant checks a fuzzing harness would perform at run time are
//! discharged here statically, so `run` can never signal a violation.

use vstd::prelude::*;

use crate::chunk::AllocationRequest;
use crate::chunk::ChunkState;
use crate::chunk::Direction;
use crate::chunk::PrepareOutcome;
use crate::chunk::is_power_of_two;
use crate::prepare::candidate;
use crate::prepare::prepare;

verus! {

/// One test case's inputs, as plain values. A harness fills these from a
/// source of structured random bytes and calls [`Fuzz::run`].
#[derive(Clone, Copy, Debug, PartialEq, Eq, Structural)]
pub struct Fuzz {
    pub state: ChunkState,
    pub request: AllocationRequest,
    pub direction: Direction,
}

impl Fuzz {
    /// Runs one test case. Inputs that break a precondition (bounds out of
    /// order, a cursor outside them, an alignment that is not a power of
    /// two) are discarded, not reported: they are invalid inputs, not
    /// findings. For valid inputs the engine's result is checked against
    /// every invariant the outcome must satisfy; each check is an assertion
    /// proved from `prepare`'s contract.
    pub fn run(self) {
        let Fuzz { state, request, direction } = self;
        if state.start > state.cursor || state.cursor > state.end {
            return;
        }
        if !is_power_of_two(request.align) {
            return;
        }
        let outcome = prepare(state, request, direction);
        match outcome {
            PrepareOutcome::Fits { region, new_cursor } => {
                assert((region.lo as int) % (request.align as int) == 0);
                assert(region.hi - region.lo == request.size);
                assert(state.start <= region.lo && region.hi <= state.end);
                match direction {
                    Direction::Up => {
                        assert(new_cursor == region.hi && state.cursor <= new_cursor);
                    },
                    Direction::Down => {
                        assert(new_cursor == region.lo && new_cursor <= state.cursor);
                    },
                }
                let committed = state.with_cursor(new_cursor);
                assert(committed.wf());
            },
            PrepareOutcome::DoesNotFit => {
                assert(forall|lo: int| !candidate(state, request, direction, lo));
            },
        }
    }
}

} // verus!

