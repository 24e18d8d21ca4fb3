//! Canonical type representation and hash-consing interner for a tile
//! compiler's intermediate representation.
//!
//! Every IR type (scalars, pointers, tiles, tensor views, partition views)
//! is stored once, in a canonical slot owned by a [`interner::TypeInterner`],
//! and handed out as a small copyable [`interner::Type`] handle whose
//! equality is an O(1) slot comparison rather than a recursive structural
//! comparison.

pub mod interner;
pub mod laws;
pub mod ty;
