//! Scannable buffers.
//!
//! Every scanning mode reads its input through this one abstraction: a
//! value exposing a read-only byte view with a well-defined length. The
//! spec-level view, [`Scannable::bytes`], is what all scanning contracts
//! are stated over.

use vstd::prelude::*;

verus! {

/// A value the engine can scan: a read-only sequence of bytes.
pub trait Scannable {
    /// The byte content, as the contracts see it.
    spec fn bytes(&self) -> Seq<u8>;

    /// The byte content, as the engine call reads it.
    fn as_bytes(&self) -> (r: &[u8])
        ensures
            r@ == self.bytes(),
    ;
}

impl Scannable for Vec<u8> {
    open spec fn bytes(&self) -> Seq<u8> {
        self@
    }

    fn as_bytes(&self) -> (r: &[u8]) {
        self.as_slice()
    }
}

impl<'a> Scannable for &'a [u8] {
    open spec fn bytes(&self) -> Seq<u8> {
        (*self)@
    }

    fn as_bytes(&self) -> (r: &[u8]) {
        *self
    }
}

} // verus!
