use vstd::prelude::*;
use vstd::hash_map::StringHashMap;
use crate::types::{AccountId, BlockNumber, Nonce};

verus! {

/// What the system module holds, as mathematical values: the current
/// block number and each account's recorded nonce. Accounts with no
/// recorded nonce read as zero.
pub struct SystemState {
    pub block_number: BlockNumber,
    pub nonces: Map<Seq<char>, Nonce>,
}

/// The nonce recorded for `who`, or zero where none is recorded.
pub open spec fn spec_nonce(nonces: Map<Seq<char>, Nonce>, who: Seq<char>) -> Nonce {
    if nonces.contains_key(who) {
        nonces[who]
    } else {
        0
    }
}

/// The nonce map after `who` uses up one more transaction slot.
pub open spec fn spec_inc_nonce(nonces: Map<Seq<char>, Nonce>, who: Seq<char>) -> Map<
    Seq<char>,
    Nonce,
> {
    nonces.insert(who, (spec_nonce(nonces, who) + 1) as Nonce)
}

/// The System module. It handles the low level state the chain itself
/// needs: the current block number and a per-account nonce counter.
pub struct Pallet {
    /// The current block number.
    block_number: BlockNumber,
    /// A map from an account to their nonce.
    nonce: StringHashMap<Nonce>,
}

impl View for Pallet {
    type V = SystemState;

    closed spec fn view(&self) -> SystemState {
        SystemState { block_number: self.block_number, nonces: self.nonce@ }
    }
}

impl Pallet {
    /// Create a new instance of the System module: height zero, no
    /// nonces recorded.
    pub fn new() -> (result: Self)
        ensures
            result@.block_number == 0,
            result@.nonces == Map::<Seq<char>, Nonce>::empty(),
    {
        Pallet { block_number: 0, nonce: StringHashMap::new() }
    }

    /// Get the current block number. No side effect.
    pub fn block_number(&self) -> (n: BlockNumber)
        ensures
            n == self@.block_number,
    {
        self.block_number
    }

    /// Increase the block number by one. The machine limit of the block
    /// number type is the one input left out.
    pub fn inc_block_number(&mut self)
        requires
            old(self)@.block_number < BlockNumber::MAX,
        ensures
            final(self)@.block_number == old(self)@.block_number + 1,
            final(self)@.nonces == old(self)@.nonces,
    {
        self.block_number = self.block_number + 1;
    }

    /// Get the nonce recorded for `who`, or zero where none is
    /// recorded. No side effect.
    pub fn nonce(&self, who: &AccountId) -> (n: Nonce)
        ensures
            n == spec_nonce(self@.nonces, who@),
    {
        match self.nonce.get(who.as_str()) {
            Some(n) => *n,
            None => 0,
        }
    }

    /// Record that `who` submitted one more extrinsic:
    /// nonce[who] = (nonce[who] or zero) + one. The machine limit of
    /// the nonce type is the one input left out.
    pub fn inc_nonce(&mut self, who: &AccountId)
        requires
            spec_nonce(old(self)@.nonces, who@) < Nonce::MAX,
        ensures
            final(self)@.block_number == old(self)@.block_number,
            final(self)@.nonces == spec_inc_nonce(old(self)@.nonces, who@),
    {
        let current_nonce = self.nonce(who);
        let new_nonce = current_nonce + 1;
        self.nonce.insert(who.clone(), new_nonce);
    }
}

} // verus!
