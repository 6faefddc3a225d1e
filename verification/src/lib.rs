//! A bump-pointer ("arena") allocator's preparation step, verified.
//!
//! A chunk is a contiguous half-open address interval `[start, end)` with a
//! cursor inside it. The `prepare` operation decides whether a requested
//! allocation (a size and a power-of-two alignment) fits in the free space on
//! one side of the cursor, and if so where the allocated region lies and where
//! the cursor moves — without committing anything: the caller adopts the new
//! cursor explicitly.

pub mod chunk;
pub mod fuzz;
pub mod prepare;
