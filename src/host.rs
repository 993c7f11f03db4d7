//! What the ledger needs from the system that runs it.

use vstd::prelude::*;
use crate::types::{AccountId, Balance, H256, Moment, Public, Signature};

verus! {

/// The services that a host provides to the ledger: a hash function, a
/// signature scheme, a clock and a currency that funds can be reserved from.
///
/// The host is borrowed for the whole of an operation, so each query answers
/// from one fixed state: within an operation the clock does not move and
/// reservability does not change.
pub trait Trait {
    /// The hash of a byte string.
    spec fn spec_hash(&self, data: Seq<u8>) -> H256;

    /// Whether `signature` is `signer`'s signature over `message`.
    spec fn spec_verify(&self, signature: Signature, message: Seq<u8>, signer: Public) -> bool;

    /// The current time.
    spec fn spec_now(&self) -> Moment;

    /// Whether `who` has `amount` of free funds that could be reserved.
    spec fn spec_can_reserve(&self, who: AccountId, amount: Balance) -> bool;

    /// Hashes a byte string.
    fn hash(&self, data: &[u8]) -> (r: H256)
        ensures
            r == self.spec_hash(data@),
    ;

    /// Checks a signature.
    fn verify(&self, signature: &Signature, message: &[u8], signer: &Public) -> (r: bool)
        ensures
            r == self.spec_verify(*signature, message@, *signer),
    ;

    /// Reads the clock.
    fn now(&self) -> (r: Moment)
        ensures
            r == self.spec_now(),
    ;

    /// Asks whether funds can be reserved.
    fn can_reserve(&self, who: &AccountId, amount: Balance) -> (r: bool)
        ensures
            r == self.spec_can_reserve(*who, amount),
    ;
}

} // verus!
