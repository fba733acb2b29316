use vstd::prelude::*;

verus! {

/// An opaque ledger identity: a signer, an account address, or an asset kind.
///
/// The ledger collaborator assigns and resolves these; the core only ever
/// stores them and compares them for equality.
#[derive(Clone, Copy, PartialEq, Eq, Structural, Debug)]
pub struct Pubkey {
    pub id: u64,
}

} // verus!
