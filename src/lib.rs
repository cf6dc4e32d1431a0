//! Ownership-preserving extraction of single elements from a growable,
//! indexed sequence: take the tail, swap an interior element to the tail and
//! take it, or substitute a new value and hand back the old one.
mod extract;

pub use extract::{
    lemma_tail_after_append,
    pop_tail,
    replace_at,
    swap_extract,
    swap_extracted,
    tail_result,
    take_at,
    ExtractError,
};
