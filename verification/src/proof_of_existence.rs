use vstd::prelude::*;
use vstd::hash_map::StringHashMap;
use crate::support::{Dispatch, DispatchError, DispatchResult};
use crate::types::{AccountId, Content};

verus! {

/// The registry and result after `caller` claims `claim`: content that
/// already has an owner fails with `AlreadyClaimed` and the registry is
/// unchanged; otherwise the content is recorded as owned by the caller.
pub open spec fn spec_create_claim(
    m: Map<Seq<char>, Seq<char>>,
    caller: Seq<char>,
    claim: Seq<char>,
) -> (Map<Seq<char>, Seq<char>>, DispatchResult) {
    if m.contains_key(claim) {
        (m, Err(DispatchError::AlreadyClaimed))
    } else {
        (m.insert(claim, caller), Ok(()))
    }
}

/// The registry and result after `caller` revokes `claim`: absent
/// content fails with `ClaimNotFound`, content owned by someone else
/// fails with `NotClaimOwner`, and neither failure changes the
/// registry; otherwise the entry is removed.
pub open spec fn spec_revoke_claim(
    m: Map<Seq<char>, Seq<char>>,
    caller: Seq<char>,
    claim: Seq<char>,
) -> (Map<Seq<char>, Seq<char>>, DispatchResult) {
    if !m.contains_key(claim) {
        (m, Err(DispatchError::ClaimNotFound))
    } else if m[claim] != caller {
        (m, Err(DispatchError::NotClaimOwner))
    } else {
        (m.remove(claim), Ok(()))
    }
}

/// The Proof of Existence module. It is a simple module that allows
/// accounts to claim existence of some data: a storage map from content
/// to the owner of that content. Accounts can make multiple different
/// claims, but each claim can only have one owner.
pub struct Pallet {
    claims: StringHashMap<AccountId>,
}

impl View for Pallet {
    type V = Map<Seq<char>, Seq<char>>;

    closed spec fn view(&self) -> Map<Seq<char>, Seq<char>> {
        self.claims@.map_values(|owner: AccountId| owner@)
    }
}

impl Pallet {
    /// Create a new instance of the Proof of Existence module: an empty
    /// registry.
    pub fn new() -> (result: Self)
        ensures
            result@ == Map::<Seq<char>, Seq<char>>::empty(),
    {
        let pallet = Pallet { claims: StringHashMap::new() };
        proof {
            assert(pallet@ =~= Map::<Seq<char>, Seq<char>>::empty());
        }
        pallet
    }

    /// Get the owner (if any) of a claim. No side effect.
    pub fn get_claim(&self, claim: &Content) -> (owner: Option<&AccountId>)
        ensures
            match owner {
                Some(o) => self@.contains_key(claim@) && o@ == self@[claim@],
                None => !self@.contains_key(claim@),
            },
    {
        self.claims.get(claim.as_str())
    }

    /// Create a new claim on behalf of the `caller`. This function will
    /// return an error if someone already has claimed that content.
    pub fn create_claim(&mut self, caller: AccountId, claim: Content) -> (r: DispatchResult)
        ensures
            final(self)@ == spec_create_claim(old(self)@, caller@, claim@).0,
            r == spec_create_claim(old(self)@, caller@, claim@).1,
    {
        if self.claims.contains_key(claim.as_str()) {
            return Err(DispatchError::AlreadyClaimed);
        }
        let ghost prior = self.claims@;
        self.claims.insert(claim, caller);
        proof {
            assert(self.claims@.map_values(|owner: AccountId| owner@) =~= prior.map_values(
                |owner: AccountId| owner@,
            ).insert(claim@, caller@));
        }
        Ok(())
    }

    /// Revoke an existing claim on some content. This function should
    /// only succeed if the caller is the owner of an existing claim:
    /// it will return an error if the claim does not exist, or if the
    /// caller is not the owner. Ownership is value equality of the
    /// account identifier.
    pub fn revoke_claim(&mut self, caller: AccountId, claim: Content) -> (r: DispatchResult)
        ensures
            final(self)@ == spec_revoke_claim(old(self)@, caller@, claim@).0,
            r == spec_revoke_claim(old(self)@, caller@, claim@).1,
    {
        let owner = match self.claims.get(claim.as_str()) {
            Some(o) => o,
            None => {
                return Err(DispatchError::ClaimNotFound);
            },
        };
        if *owner != caller {
            return Err(DispatchError::NotClaimOwner);
        }
        let ghost prior = self.claims@;
        self.claims.remove(claim.as_str());
        proof {
            assert(self.claims@.map_values(|owner: AccountId| owner@) =~= prior.map_values(
                |owner: AccountId| owner@,
            ).remove(claim@));
        }
        Ok(())
    }
}

/// The state transitions the Proof of Existence module exposes to the
/// world.
pub enum Call {
    CreateClaim { claim: Content },
    RevokeClaim { claim: Content },
}

/// The registry and result after dispatching `call` on behalf of
/// `caller`: each variant routes to the operation of the same name,
/// whose outcome is returned unchanged.
pub open spec fn spec_dispatch(
    m: Map<Seq<char>, Seq<char>>,
    caller: Seq<char>,
    call: Call,
) -> (Map<Seq<char>, Seq<char>>, DispatchResult) {
    match call {
        Call::CreateClaim { claim } => spec_create_claim(m, caller, claim@),
        Call::RevokeClaim { claim } => spec_revoke_claim(m, caller, claim@),
    }
}

impl Dispatch for Pallet {
    type Caller = AccountId;

    type Call = Call;

    fn dispatch(&mut self, caller: AccountId, call: Call) -> (r: DispatchResult)
        ensures
            final(self)@ == spec_dispatch(old(self)@, caller@, call).0,
            r == spec_dispatch(old(self)@, caller@, call).1,
    {
        match call {
            Call::CreateClaim { claim } => self.create_claim(caller, claim),
            Call::RevokeClaim { claim } => self.revoke_claim(caller, claim),
        }
    }
}

/// Claiming unclaimed content succeeds and records the caller as its
/// owner; a second claim on the same content, by any caller, fails with
/// `AlreadyClaimed` and leaves the original owner in place.
pub proof fn lemma_create_claim_then_reclaim(
    m: Map<Seq<char>, Seq<char>>,
    first_caller: Seq<char>,
    second_caller: Seq<char>,
    claim: Seq<char>,
)
    requires
        !m.contains_key(claim),
    ensures
        ({
            let (m1, r1) = spec_create_claim(m, first_caller, claim);
            let (m2, r2) = spec_create_claim(m1, second_caller, claim);
            r1 == Ok::<(), DispatchError>(()) && m1.contains_key(claim) && m1[claim]
                == first_caller && r2 == Err::<(), DispatchError>(DispatchError::AlreadyClaimed)
                && m2 == m1
        }),
{
}

/// Revoking a claim held by someone else fails with `NotClaimOwner` and
/// leaves the whole registry — in particular the claim's owner —
/// unchanged.
pub proof fn lemma_revoke_claim_non_owner(
    m: Map<Seq<char>, Seq<char>>,
    caller: Seq<char>,
    claim: Seq<char>,
)
    requires
        m.contains_key(claim),
        m[claim] != caller,
    ensures
        spec_revoke_claim(m, caller, claim).0 == m,
        spec_revoke_claim(m, caller, claim).1 == Err::<(), DispatchError>(
            DispatchError::NotClaimOwner,
        ),
{
}

/// Revoking content that no one has claimed fails with `ClaimNotFound`
/// and leaves the registry unchanged.
pub proof fn lemma_revoke_claim_absent(
    m: Map<Seq<char>, Seq<char>>,
    caller: Seq<char>,
    claim: Seq<char>,
)
    requires
        !m.contains_key(claim),
    ensures
        spec_revoke_claim(m, caller, claim).0 == m,
        spec_revoke_claim(m, caller, claim).1 == Err::<(), DispatchError>(
            DispatchError::ClaimNotFound,
        ),
{
}

} // verus!
