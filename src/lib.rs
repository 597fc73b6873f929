//! A fixed-capacity bump arena: one block from a backing allocator, carved
//! from its end toward its start by moving a cursor, and reclaimed all at
//! once by a reset.

mod bump;
mod laws;
mod layout;

pub use bump::{block_in_address_space, block_layout, built_from, AllocErr, ArenaView, BumpAlloc, BumpAllocErr};
pub use laws::{all_wf, lemma_allocations_disjoint, lemma_reset_rewinds, nth_result};
pub use layout::{lemma_mask_rounds_down, lemma_pow2_positive, lemma_round_down, round_down, Layout};
