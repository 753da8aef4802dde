use vstd::prelude::*;

pub mod balances;
pub mod proof_of_existence;
pub mod support;
pub mod system;
pub mod types;

use crate::support::{Dispatch, DispatchError, DispatchResult};

verus! {

/// All the calls which are exposed to the world: an accumulation of the
/// calls exposed by each module, one variant per module.
pub enum RuntimeCall {
    Balances(balances::Call),
    ProofOfExistence(proof_of_existence::Call),
}

/// The main Runtime: it accumulates one instance of each of the modules
/// it uses, and owns the block-execution state machine.
pub struct Runtime {
    pub system: system::Pallet,
    pub balances: balances::Pallet,
    pub proof_of_existence: proof_of_existence::Pallet,
}

/// Everything the runtime holds, as mathematical values: the system
/// module's state, the ledger, and the claim registry.
pub struct RuntimeState {
    pub system: system::SystemState,
    pub balances: Map<Seq<char>, types::Balance>,
    pub claims: Map<Seq<char>, Seq<char>>,
}

impl View for Runtime {
    type V = RuntimeState;

    open spec fn view(&self) -> RuntimeState {
        RuntimeState {
            system: self.system@,
            balances: self.balances@,
            claims: self.proof_of_existence@,
        }
    }
}

/// The runtime state and result after dispatching `call` on behalf of
/// `caller`: the variant names the owning module, which receives the
/// call's payload; that module's outcome is returned unchanged, and no
/// other module's state is touched.
pub open spec fn spec_dispatch(s: RuntimeState, caller: Seq<char>, call: RuntimeCall) -> (
    RuntimeState,
    DispatchResult,
) {
    match call {
        RuntimeCall::Balances(call) => {
            let (m, r) = balances::spec_dispatch(s.balances, caller, call);
            (RuntimeState { system: s.system, balances: m, claims: s.claims }, r)
        },
        RuntimeCall::ProofOfExistence(call) => {
            let (m, r) = proof_of_existence::spec_dispatch(s.claims, caller, call);
            (RuntimeState { system: s.system, balances: s.balances, claims: m }, r)
        },
    }
}

/// How many of the extrinsics `who` submitted: the number of times it
/// appears as a caller, counted from the front.
pub open spec fn count_caller(exts: Seq<types::Extrinsic>, who: Seq<char>) -> nat
    decreases exts.len(),
{
    if exts.len() == 0 {
        0
    } else {
        (if exts[0].caller@ == who {
            1nat
        } else {
            0nat
        }) + count_caller(exts.drop_first(), who)
    }
}

/// Every account can still absorb one nonce increment per extrinsic it
/// submits in `exts`: the machine limit of the nonce type is not hit.
pub open spec fn nonces_fit(nonces: Map<Seq<char>, types::Nonce>, exts: Seq<types::Extrinsic>) -> bool {
    forall|who: Seq<char>|
        system::spec_nonce(nonces, who) + #[trigger] count_caller(exts, who) <= types::Nonce::MAX
}

/// The runtime state with the block number advanced by one and nothing
/// else touched.
pub open spec fn spec_bump_block(s: RuntimeState) -> RuntimeState {
    RuntimeState {
        system: system::SystemState {
            block_number: (s.system.block_number + 1) as types::BlockNumber,
            nonces: s.system.nonces,
        },
        balances: s.balances,
        claims: s.claims,
    }
}

/// The runtime state once `caller` has used up one transaction slot:
/// its nonce is incremented, nothing else is touched.
pub open spec fn spec_note_extrinsic(s: RuntimeState, caller: Seq<char>) -> RuntimeState {
    RuntimeState {
        system: system::SystemState {
            block_number: s.system.block_number,
            nonces: system::spec_inc_nonce(s.system.nonces, caller),
        },
        balances: s.balances,
        claims: s.claims,
    }
}

/// The runtime state after the extrinsics of a block are attempted in
/// sequence order: each caller's nonce is incremented whether or not
/// its call succeeds, each call's effect is applied through dispatch,
/// and a failed call never stops the ones after it.
pub open spec fn spec_apply_extrinsics(s: RuntimeState, exts: Seq<types::Extrinsic>) -> RuntimeState
    decreases exts.len(),
{
    if exts.len() == 0 {
        s
    } else {
        let extrinsic = exts[0];
        let noted = spec_note_extrinsic(s, extrinsic.caller@);
        let (dispatched, _r) = spec_dispatch(noted, extrinsic.caller@, extrinsic.call);
        spec_apply_extrinsics(dispatched, exts.drop_first())
    }
}

/// Where every nonce increment of `exts` fits, the first extrinsic's
/// increment fits, and the increments of the rest still fit once it is
/// recorded.
pub proof fn lemma_nonces_fit_step(nonces: Map<Seq<char>, types::Nonce>, exts: Seq<types::Extrinsic>)
    requires
        exts.len() > 0,
        nonces_fit(nonces, exts),
    ensures
        system::spec_nonce(nonces, exts[0].caller@) < types::Nonce::MAX,
        nonces_fit(system::spec_inc_nonce(nonces, exts[0].caller@), exts.drop_first()),
{
    let c = exts[0].caller@;
    assert(count_caller(exts, c) == 1 + count_caller(exts.drop_first(), c));
    assert(system::spec_nonce(nonces, c) + count_caller(exts, c) <= types::Nonce::MAX);
    assert forall|who: Seq<char>|
        system::spec_nonce(system::spec_inc_nonce(nonces, c), who) + #[trigger] count_caller(
            exts.drop_first(),
            who,
        ) <= types::Nonce::MAX by {
        assert(system::spec_nonce(nonces, who) + count_caller(exts, who) <= types::Nonce::MAX);
        assert(count_caller(exts, who) == (if exts[0].caller@ == who {
            1nat
        } else {
            0nat
        }) + count_caller(exts.drop_first(), who));
    }
}

impl Runtime {
    /// Create a new instance of the main Runtime, by creating a new
    /// instance of each module: height zero, all maps empty.
    pub fn new() -> (result: Self)
        ensures
            result@.system.block_number == 0,
            result@.system.nonces == Map::<Seq<char>, types::Nonce>::empty(),
            result@.balances == Map::<Seq<char>, types::Balance>::empty(),
            result@.claims == Map::<Seq<char>, Seq<char>>::empty(),
    {
        Runtime {
            system: system::Pallet::new(),
            balances: balances::Pallet::new(),
            proof_of_existence: proof_of_existence::Pallet::new(),
        }
    }

    /// Execute a block of extrinsics.
    ///
    /// The block number is incremented first, before any validation. A
    /// header whose number is not the new height aborts the whole block
    /// with `BlockNumberMismatch`: no extrinsic runs, but the increment
    /// stays. Otherwise the extrinsics are attempted in sequence order:
    /// each caller's nonce is incremented unconditionally, the call is
    /// dispatched, and a call-level failure is contained to its own
    /// extrinsic — the block returns success once every extrinsic has
    /// been attempted. The machine limits of the block number and nonce
    /// types are the only inputs left out.
    pub fn execute_block(&mut self, block: types::Block) -> (r: DispatchResult)
        requires
            old(self)@.system.block_number < types::BlockNumber::MAX,
            block.header.block_number == old(self)@.system.block_number + 1 ==> nonces_fit(
                old(self)@.system.nonces,
                block.extrinsics@,
            ),
        ensures
            block.header.block_number != old(self)@.system.block_number + 1 ==> r == Err::<
                (),
                DispatchError,
            >(DispatchError::BlockNumberMismatch) && final(self)@ == spec_bump_block(old(self)@),
            block.header.block_number == old(self)@.system.block_number + 1 ==> r == Ok::<
                (),
                DispatchError,
            >(()) && final(self)@ == spec_apply_extrinsics(
                spec_bump_block(old(self)@),
                block.extrinsics@,
            ),
    {
        self.system.inc_block_number();

        if self.system.block_number() != block.header.block_number {
            return Err(DispatchError::BlockNumberMismatch);
        }
        let ghost start = self@;
        let ghost all = block.extrinsics@;

        let mut extrinsics = block.extrinsics;
        while extrinsics.len() > 0
            invariant
                nonces_fit(self@.system.nonces, extrinsics@),
                spec_apply_extrinsics(start, all) == spec_apply_extrinsics(self@, extrinsics@),
            decreases extrinsics.len(),
        {
            let ghost pre_exts = extrinsics@;
            let ghost pre_state = self@;
            let extrinsic = extrinsics.remove(0);
            proof {
                assert(extrinsics@ =~= pre_exts.drop_first());
                lemma_nonces_fit_step(pre_state.system.nonces, pre_exts);
            }
            let support::Extrinsic { caller, call } = extrinsic;
            self.system.inc_nonce(&caller);
            proof {
                assert(self@ == spec_note_extrinsic(pre_state, caller@));
            }
            let _res = self.dispatch(caller, call);
        }

        Ok(())
    }
}

/// A dispatch that fails leaves every module's state exactly as it
/// was: partial updates never occur.
pub proof fn lemma_dispatch_failure_unchanged(s: RuntimeState, caller: Seq<char>, call: RuntimeCall)
    requires
        spec_dispatch(s, caller, call).1 is Err,
    ensures
        spec_dispatch(s, caller, call).0 == s,
{
}

/// Attempting a block's extrinsics leaves the block number as it was,
/// and increments the nonce of every extrinsic's caller exactly once
/// per extrinsic it submitted — whether or not the call succeeded.
pub proof fn lemma_apply_extrinsics_effects(s: RuntimeState, exts: Seq<types::Extrinsic>)
    requires
        nonces_fit(s.system.nonces, exts),
    ensures
        spec_apply_extrinsics(s, exts).system.block_number == s.system.block_number,
        forall|who: Seq<char>|
            system::spec_nonce(spec_apply_extrinsics(s, exts).system.nonces, who)
                == system::spec_nonce(s.system.nonces, who) + #[trigger] count_caller(exts, who),
    decreases exts.len(),
{
    if exts.len() == 0 {
    } else {
        let extrinsic = exts[0];
        let c = extrinsic.caller@;
        let noted = spec_note_extrinsic(s, c);
        let dispatched = spec_dispatch(noted, c, extrinsic.call).0;
        lemma_nonces_fit_step(s.system.nonces, exts);
        assert(dispatched.system == noted.system);
        lemma_apply_extrinsics_effects(dispatched, exts.drop_first());
        assert forall|who: Seq<char>|
            system::spec_nonce(spec_apply_extrinsics(s, exts).system.nonces, who)
                == system::spec_nonce(s.system.nonces, who) + #[trigger] count_caller(
                exts,
                who,
            ) by {
            assert(count_caller(exts, who) == (if exts[0].caller@ == who {
                1nat
            } else {
                0nat
            }) + count_caller(exts.drop_first(), who));
        }
    }
}

impl Dispatch for Runtime {
    type Caller = types::AccountId;

    type Call = RuntimeCall;

    /// Dispatch a call on behalf of a caller: route the global call
    /// value to the owning module's own dispatch, and return its
    /// outcome unchanged.
    fn dispatch(&mut self, caller: types::AccountId, runtime_call: RuntimeCall) -> (r:
        DispatchResult)
        ensures
            final(self)@ == spec_dispatch(old(self)@, caller@, runtime_call).0,
            r == spec_dispatch(old(self)@, caller@, runtime_call).1,
    {
        match runtime_call {
            RuntimeCall::Balances(call) => self.balances.dispatch(caller, call),
            RuntimeCall::ProofOfExistence(call) => self.proof_of_existence.dispatch(caller, call),
        }
    }
}

} // verus!
