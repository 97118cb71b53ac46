//! Bounded copying and cloning between slices of possibly different lengths.
//!
//! Each entry point moves as many leading elements as both slices can hold,
//! `min(dst.len(), src.len())`, and returns that count, so that a caller can
//! advance its slices by the number of elements transferred. A length mismatch
//! is never an error.

mod laws;
mod transfer;

pub use laws::{
    lemma_byte_copy_agrees, lemma_copied_prefix, lemma_empty_side, lemma_long_destination,
    lemma_long_source,
};
pub use transfer::{byte_copy, clone, cloned_into, copied, copy, transfer_len};

