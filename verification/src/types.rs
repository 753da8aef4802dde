use vstd::prelude::*;

verus! {

/// Identifies a participant. Equality is value equality of the text.
pub type AccountId = String;

/// An account's holdings: unsigned, never observably negative.
pub type Balance = u128;

/// Chain height: unsigned, grows by exactly one per executed block.
pub type BlockNumber = u32;

/// Per-account counter of submitted (not necessarily successful)
/// extrinsics.
pub type Nonce = u32;

/// The thing being claimed in the existence registry.
pub type Content = String;

/// One requested state transition, attributed to its caller.
pub type Extrinsic = crate::support::Extrinsic<AccountId, crate::RuntimeCall>;

/// The header of a concrete block.
pub type Header = crate::support::Header<BlockNumber>;

/// The unit of execution: a numbered, ordered batch of extrinsics.
pub type Block = crate::support::Block<Header, Extrinsic>;

} // verus!
