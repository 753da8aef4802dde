use vstd::prelude::*;

verus! {

/// The closed set of failures a state transition can report.
///
/// Every module returns its own subset of these; block execution adds
/// `BlockNumberMismatch`. Each error is terminal for the unit of work
/// that raised it.
#[derive(Clone, Copy, Debug, PartialEq, Eq, Structural)]
pub enum DispatchError {
    /// A transfer asked for more than the caller holds.
    InsufficientBalance,
    /// A transfer would push the recipient past the balance type's range.
    BalanceOverflow,
    /// A claim was made on content that already has an owner.
    AlreadyClaimed,
    /// A revocation named content that no one has claimed.
    ClaimNotFound,
    /// A revocation came from an account that does not own the claim.
    NotClaimOwner,
    /// A block header's number is not the successor of the current height.
    BlockNumberMismatch,
}

/// The result type shared by every state transition: success carries
/// nothing, failure carries one of the closed error kinds.
pub type DispatchResult = Result<(), DispatchError>;

/// The most primitive representation of a block: metadata plus the
/// ordered state transitions to execute.
pub struct Block<H, E> {
    /// The block header contains metadata about the block.
    pub header: H,
    /// The extrinsics represent the state transitions to be executed
    /// in this block, in sequence order.
    pub extrinsics: Vec<E>,
}

/// A simplified block header which only contains the block number.
pub struct Header<N> {
    pub block_number: N,
}

/// An "extrinsic": an external message from outside of the chain,
/// telling us who is making the call, and which call they are making.
pub struct Extrinsic<Caller, Call> {
    pub caller: Caller,
    pub call: Call,
}

/// Routing an incoming caller-attributed call value to the state
/// transition function that implements it.
///
/// Each module implements this for its own call enum; the runtime
/// aggregate implements it for the global call enum by forwarding to
/// the owning module. Implementations state their exact effect in
/// their own `ensures`.
pub trait Dispatch {
    /// The type used to identify the caller of the function.
    type Caller;

    /// The state transition function call the caller is trying to access.
    type Call;

    /// Takes a `caller` and the `call` they want to make, and returns a
    /// `Result` based on the outcome of that function call.
    fn dispatch(&mut self, caller: Self::Caller, call: Self::Call) -> DispatchResult;
}

} // verus!
