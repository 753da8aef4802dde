use state_machine::support::{Block, DispatchError, Extrinsic, Header};
use state_machine::{balances, proof_of_existence, Runtime, RuntimeCall};

fn transfer(to: &str, amount: u128) -> RuntimeCall {
    RuntimeCall::Balances(balances::Call::Transfer {
        to: to.to_string(),
        amount,
    })
}

fn create_claim(claim: &str) -> RuntimeCall {
    RuntimeCall::ProofOfExistence(proof_of_existence::Call::CreateClaim {
        claim: claim.to_string(),
    })
}

fn revoke_claim(claim: &str) -> RuntimeCall {
    RuntimeCall::ProofOfExistence(proof_of_existence::Call::RevokeClaim {
        claim: claim.to_string(),
    })
}

/// A block whose transfers all succeed: both are applied in order, the
/// block number advances by one, and the caller's nonce counts both
/// extrinsics.
#[test]
fn block_of_transfers() {
    let mut runtime = Runtime::new();
    let alice = String::from("alice");
    let bob = String::from("bob");
    let charlie = String::from("charlie");

    runtime.balances.set_balance(&alice, 100);

    let block_1 = Block {
        header: Header { block_number: 1 },
        extrinsics: vec![
            Extrinsic {
                caller: alice.clone(),
                call: transfer("bob", 30),
            },
            Extrinsic {
                caller: alice.clone(),
                call: transfer("charlie", 20),
            },
        ],
    };

    assert_eq!(runtime.execute_block(block_1), Ok(()));

    assert_eq!(runtime.balances.balance(&alice), 50);
    assert_eq!(runtime.balances.balance(&bob), 30);
    assert_eq!(runtime.balances.balance(&charlie), 20);
    assert_eq!(runtime.system.block_number(), 1);
    assert_eq!(runtime.system.nonce(&alice), 2);
}

/// A block of claim calls where one call fails: the failed revocation
/// is isolated, the extrinsics after it still run, and every caller's
/// nonce is counted whether or not the call succeeded.
#[test]
fn block_of_claims() {
    let mut runtime = Runtime::new();
    let alice = String::from("alice");
    let bob = String::from("bob");
    let charlie = String::from("charlie");

    let block_1 = Block {
        header: Header { block_number: 1 },
        extrinsics: vec![],
    };
    assert_eq!(runtime.execute_block(block_1), Ok(()));

    let block_2 = Block {
        header: Header { block_number: 2 },
        extrinsics: vec![
            Extrinsic {
                caller: alice.clone(),
                call: create_claim("x"),
            },
            Extrinsic {
                caller: bob.clone(),
                call: revoke_claim("x"),
            },
            Extrinsic {
                caller: alice.clone(),
                call: revoke_claim("x"),
            },
            Extrinsic {
                caller: charlie.clone(),
                call: create_claim("y"),
            },
        ],
    };
    assert_eq!(runtime.execute_block(block_2), Ok(()));

    assert_eq!(runtime.proof_of_existence.get_claim(&"x".to_string()), None);
    assert_eq!(
        runtime.proof_of_existence.get_claim(&"y".to_string()),
        Some(&charlie)
    );
    assert_eq!(runtime.system.block_number(), 2);
    assert_eq!(runtime.system.nonce(&alice), 2);
    assert_eq!(runtime.system.nonce(&bob), 1);
    assert_eq!(runtime.system.nonce(&charlie), 1);
}

/// A header whose number is not the successor of the current height
/// aborts the whole block: no extrinsic runs, no nonce moves, no module
/// state changes — but the block number increment itself stays.
#[test]
fn block_number_mismatch() {
    let mut runtime = Runtime::new();
    let alice = String::from("alice");

    runtime.balances.set_balance(&alice, 100);

    let block = Block {
        header: Header { block_number: 5 },
        extrinsics: vec![Extrinsic {
            caller: alice.clone(),
            call: transfer("bob", 30),
        }],
    };

    assert_eq!(
        runtime.execute_block(block),
        Err(DispatchError::BlockNumberMismatch)
    );

    assert_eq!(runtime.system.block_number(), 1);
    assert_eq!(runtime.system.nonce(&alice), 0);
    assert_eq!(runtime.balances.balance(&alice), 100);
    assert_eq!(runtime.balances.balance(&"bob".to_string()), 0);
}

/// A transfer that would push the recipient past the balance type's
/// range fails with `BalanceOverflow` and leaves both balances as they
/// were.
#[test]
fn transfer_overflow() {
    let mut balances = balances::Pallet::new();
    let alice = String::from("alice");
    let bob = String::from("bob");

    balances.set_balance(&alice, 5);
    balances.set_balance(&bob, u128::MAX);

    assert_eq!(
        balances.transfer(alice.clone(), bob.clone(), 1),
        Err(DispatchError::BalanceOverflow)
    );

    assert_eq!(balances.balance(&alice), 5);
    assert_eq!(balances.balance(&bob), u128::MAX);
}

/// A transfer from an account to itself writes the caller's new balance
/// first and the recipient's second, so the second write wins: the
/// account ends up with its old balance plus the amount.
#[test]
fn transfer_to_self() {
    let mut balances = balances::Pallet::new();
    let alice = String::from("alice");

    balances.set_balance(&alice, 15);

    assert_eq!(balances.transfer(alice.clone(), alice.clone(), 10), Ok(()));

    assert_eq!(balances.balance(&alice), 25);
}

/// A second claim on content that already has an owner fails with
/// `AlreadyClaimed`, whoever the second caller is, and the original
/// owner keeps the claim.
#[test]
fn reclaim_fails() {
    let mut proof_of_existence = proof_of_existence::Pallet::new();
    let alice = String::from("alice");
    let bob = String::from("bob");
    let content = String::from("x");

    assert_eq!(
        proof_of_existence.create_claim(alice.clone(), content.clone()),
        Ok(())
    );
    assert_eq!(
        proof_of_existence.create_claim(bob.clone(), content.clone()),
        Err(DispatchError::AlreadyClaimed)
    );
    assert_eq!(proof_of_existence.get_claim(&content), Some(&alice));
}

/// Conservation on concrete values: a successful transfer between two
/// distinct accounts keeps the sum of their balances.
#[test]
fn transfer_conserves_total() {
    let mut balances = balances::Pallet::new();
    let alice = String::from("alice");
    let bob = String::from("bob");

    balances.set_balance(&alice, 70);
    balances.set_balance(&bob, 40);
    let before = balances.balance(&alice) + balances.balance(&bob);

    assert_eq!(balances.transfer(alice.clone(), bob.clone(), 25), Ok(()));

    assert_eq!(balances.balance(&alice), 45);
    assert_eq!(balances.balance(&bob), 65);
    assert_eq!(balances.balance(&alice) + balances.balance(&bob), before);
}

/// Dispatching a failing call through the runtime returns the module's
/// own error unchanged and leaves every module's state as it was.
#[test]
fn failed_call_is_isolated() {
    let mut runtime = Runtime::new();
    let alice = String::from("alice");
    let bob = String::from("bob");

    runtime.balances.set_balance(&alice, 10);

    let block = Block {
        header: Header { block_number: 1 },
        extrinsics: vec![
            Extrinsic {
                caller: alice.clone(),
                call: transfer("bob", 99),
            },
            Extrinsic {
                caller: alice.clone(),
                call: transfer("bob", 7),
            },
        ],
    };

    assert_eq!(runtime.execute_block(block), Ok(()));

    assert_eq!(runtime.balances.balance(&alice), 3);
    assert_eq!(runtime.balances.balance(&bob), 7);
    assert_eq!(runtime.system.nonce(&alice), 2);
}
