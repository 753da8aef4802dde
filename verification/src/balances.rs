use vstd::prelude::*;
use vstd::hash_map::StringHashMap;
use crate::support::{Dispatch, DispatchError, DispatchResult};
use crate::types::{AccountId, Balance};

verus! {

/// The stored balance of `who`, or zero where none is stored.
pub open spec fn spec_balance(m: Map<Seq<char>, Balance>, who: Seq<char>) -> Balance {
    if m.contains_key(who) {
        m[who]
    } else {
        0
    }
}

/// The ledger and result after `caller` transfers `amount` to `to`:
/// underflow of the caller's balance fails with `InsufficientBalance`,
/// overflow of the recipient's fails with `BalanceOverflow`, and
/// neither failure changes the ledger; otherwise both new balances are
/// written, the caller's first.
pub open spec fn spec_transfer(
    m: Map<Seq<char>, Balance>,
    caller: Seq<char>,
    to: Seq<char>,
    amount: Balance,
) -> (Map<Seq<char>, Balance>, DispatchResult) {
    if spec_balance(m, caller) < amount {
        (m, Err(DispatchError::InsufficientBalance))
    } else if spec_balance(m, to) + amount > Balance::MAX {
        (m, Err(DispatchError::BalanceOverflow))
    } else {
        (
            m.insert(caller, (spec_balance(m, caller) - amount) as Balance).insert(
                to,
                (spec_balance(m, to) + amount) as Balance,
            ),
            Ok(()),
        )
    }
}

/// The Balances module: a mapping from account identifier to balance.
/// Absence in the ledger means a balance of zero.
pub struct Pallet {
    balances: StringHashMap<Balance>,
}

impl View for Pallet {
    type V = Map<Seq<char>, Balance>;

    closed spec fn view(&self) -> Map<Seq<char>, Balance> {
        self.balances@
    }
}

impl Pallet {
    /// Create a new instance of the Balances module: an empty ledger.
    pub fn new() -> (result: Self)
        ensures
            result@ == Map::<Seq<char>, Balance>::empty(),
    {
        Pallet { balances: StringHashMap::new() }
    }

    /// Set the balance of an account `who` to some `amount`,
    /// overwriting or inserting the stored value.
    pub fn set_balance(&mut self, who: &AccountId, amount: Balance)
        ensures
            final(self)@ == old(self)@.insert(who@, amount),
    {
        self.balances.insert(who.clone(), amount);
    }

    /// Get the balance of an account `who`. If the account has no
    /// stored balance, we return zero. No side effect.
    pub fn balance(&self, who: &AccountId) -> (b: Balance)
        ensures
            b == spec_balance(self@, who@),
    {
        match self.balances.get(who.as_str()) {
            Some(b) => *b,
            None => 0,
        }
    }

    /// Transfer `amount` from one account to another. This function
    /// verifies that `caller` has at least `amount` balance to
    /// transfer, and that no mathematical overflows occur; only after
    /// both checks succeed are the two new balances written. Partial
    /// updates never occur: either both balances change or neither
    /// does.
    pub fn transfer(&mut self, caller: AccountId, to: AccountId, amount: Balance) -> (r:
        DispatchResult)
        ensures
            final(self)@ == spec_transfer(old(self)@, caller@, to@, amount).0,
            r == spec_transfer(old(self)@, caller@, to@, amount).1,
    {
        let caller_balance = self.balance(&caller);
        let to_balance = self.balance(&to);

        let new_caller_balance = match caller_balance.checked_sub(amount) {
            Some(b) => b,
            None => {
                return Err(DispatchError::InsufficientBalance);
            },
        };

        let new_to_balance = match to_balance.checked_add(amount) {
            Some(b) => b,
            None => {
                return Err(DispatchError::BalanceOverflow);
            },
        };

        self.set_balance(&caller, new_caller_balance);
        self.set_balance(&to, new_to_balance);

        Ok(())
    }
}

/// The state transitions the Balances module exposes to the world.
pub enum Call {
    Transfer { to: AccountId, amount: Balance },
}

/// The ledger and result after dispatching `call` on behalf of
/// `caller`: each variant routes to the operation of the same name,
/// whose outcome is returned unchanged.
pub open spec fn spec_dispatch(
    m: Map<Seq<char>, Balance>,
    caller: Seq<char>,
    call: Call,
) -> (Map<Seq<char>, Balance>, DispatchResult) {
    match call {
        Call::Transfer { to, amount } => spec_transfer(m, caller, to@, amount),
    }
}

impl Dispatch for Pallet {
    type Caller = AccountId;

    type Call = Call;

    fn dispatch(&mut self, caller: AccountId, call: Call) -> (r: DispatchResult)
        ensures
            final(self)@ == spec_dispatch(old(self)@, caller@, call).0,
            r == spec_dispatch(old(self)@, caller@, call).1,
    {
        match call {
            Call::Transfer { to, amount } => self.transfer(caller, to, amount),
        }
    }
}

/// An account the ledger does not mention holds zero: reading a
/// balance that was never set returns zero.
pub proof fn lemma_unset_balance_is_zero(m: Map<Seq<char>, Balance>, who: Seq<char>)
    requires
        !m.contains_key(who),
    ensures
        spec_balance(m, who) == 0,
{
}

/// Setting one account's balance does not disturb any other account's.
pub proof fn lemma_set_balance_other(
    m: Map<Seq<char>, Balance>,
    who: Seq<char>,
    other: Seq<char>,
    amount: Balance,
)
    requires
        who != other,
    ensures
        spec_balance(m.insert(other, amount), who) == spec_balance(m, who),
{
}

/// A transfer of more than the caller holds fails with
/// `InsufficientBalance` and leaves the whole ledger — in particular
/// both balances — unchanged.
pub proof fn lemma_transfer_insufficient(
    m: Map<Seq<char>, Balance>,
    caller: Seq<char>,
    to: Seq<char>,
    amount: Balance,
)
    requires
        spec_balance(m, caller) < amount,
    ensures
        spec_transfer(m, caller, to, amount).0 == m,
        spec_transfer(m, caller, to, amount).1 == Err::<(), DispatchError>(
            DispatchError::InsufficientBalance,
        ),
{
}

/// Conservation: a transfer between two distinct accounts that the
/// caller can cover, and that does not overflow the recipient,
/// succeeds and keeps the combined balance of the two accounts
/// exactly as it was.
pub proof fn lemma_transfer_conservation(
    m: Map<Seq<char>, Balance>,
    a: Seq<char>,
    b: Seq<char>,
    amount: Balance,
)
    requires
        a != b,
        amount <= spec_balance(m, a),
        spec_balance(m, b) + amount <= Balance::MAX,
    ensures
        spec_transfer(m, a, b, amount).1 == Ok::<(), DispatchError>(()),
        spec_balance(spec_transfer(m, a, b, amount).0, a) + spec_balance(
            spec_transfer(m, a, b, amount).0,
            b,
        ) == spec_balance(m, a) + spec_balance(m, b),
{
}

} // verus!
