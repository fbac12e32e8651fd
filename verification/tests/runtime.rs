use state_machine::balances;
use state_machine::proof_of_existence;
use state_machine::runtime::{BlockExecutionError, Runtime, RuntimeCall};
use state_machine::support::{Block, Dispatch, Extrinsic, Header};
use state_machine::types;

fn transfer(caller: &str, to: &str, amount: u128) -> types::Extrinsic {
    Extrinsic {
        caller: caller.to_string(),
        call: RuntimeCall::Balances(balances::Call::Transfer { to: to.to_string(), amount }),
    }
}

fn create_claim(caller: &str, claim: &'static str) -> types::Extrinsic {
    Extrinsic {
        caller: caller.to_string(),
        call: RuntimeCall::ProofOfExistence(proof_of_existence::Call::CreateClaim { claim }),
    }
}

fn revoke_claim(caller: &str, claim: &'static str) -> types::Extrinsic {
    Extrinsic {
        caller: caller.to_string(),
        call: RuntimeCall::ProofOfExistence(proof_of_existence::Call::RevokeClaim { claim }),
    }
}

fn block(block_number: u32, extrinsics: Vec<types::Extrinsic>) -> types::Block {
    Block { header: Header { block_number }, extrinsics }
}

#[test]
fn fresh_runtime_is_empty() {
    let runtime = Runtime::new();
    assert_eq!(runtime.system.block_number(), 0);
    assert_eq!(runtime.system.nonce(&"alice".to_string()), None);
    assert_eq!(runtime.balances.balance(&"alice".to_string()), 0);
    assert_eq!(runtime.proof_of_existence.get_claim(&"hello"), None);
}

#[test]
fn transfers_through_the_runtime() {
    let mut runtime = Runtime::new();
    assert_eq!(runtime.balances.balance(&"alice".to_string()), 0);
    runtime.balances.set_balance(&"alice".to_string(), 100);

    let sent = runtime.dispatch(
        "alice".to_string(),
        RuntimeCall::Balances(balances::Call::Transfer { to: "bob".to_string(), amount: 51 }),
    );
    assert_eq!(sent, Ok(()));
    assert_eq!(runtime.balances.balance(&"alice".to_string()), 49);
    assert_eq!(runtime.balances.balance(&"bob".to_string()), 51);

    let again = runtime.dispatch(
        "alice".to_string(),
        RuntimeCall::Balances(balances::Call::Transfer { to: "bob".to_string(), amount: 51 }),
    );
    assert_eq!(again, Err("Not enough funds."));
    assert_eq!(runtime.balances.balance(&"alice".to_string()), 49);
    assert_eq!(runtime.balances.balance(&"bob".to_string()), 51);

    assert_eq!(runtime.system.nonce(&"alice".to_string()), None);
    assert_eq!(runtime.system.block_number(), 0);
}

#[test]
fn claims_through_the_runtime() {
    let mut runtime = Runtime::new();
    let claim = |who: &str| (who.to_string(), RuntimeCall::ProofOfExistence(proof_of_existence::Call::CreateClaim { claim: "hello" }));
    let revoke = |who: &str| (who.to_string(), RuntimeCall::ProofOfExistence(proof_of_existence::Call::RevokeClaim { claim: "hello" }));

    let (caller, call) = claim("alice");
    assert_eq!(runtime.dispatch(caller, call), Ok(()));
    let (caller, call) = claim("bob");
    assert_eq!(runtime.dispatch(caller, call), Err("this content is already claimed"));
    assert_eq!(runtime.proof_of_existence.get_claim(&"hello"), Some(&"alice".to_string()));

    let (caller, call) = revoke("bob");
    assert_eq!(runtime.dispatch(caller, call), Err("this content is owned by someone else"));
    let (caller, call) = revoke("alice");
    assert_eq!(runtime.dispatch(caller, call), Ok(()));
    let (caller, call) = claim("bob");
    assert_eq!(runtime.dispatch(caller, call), Ok(()));
    assert_eq!(runtime.proof_of_existence.get_claim(&"hello"), Some(&"bob".to_string()));
}

#[test]
fn block_stops_at_the_first_refusal() {
    let mut runtime = Runtime::new();
    runtime.balances.set_balance(&"alice".to_string(), 100);

    let result = runtime.execute_block(block(
        1,
        vec![transfer("alice", "bob", 30), transfer("bob", "charlie", 31)],
    ));

    assert_eq!(
        result,
        Err(BlockExecutionError::ExtrinsicFailed {
            block_number: 1,
            extrinsic_index: 1,
            reason: "Not enough funds.",
        })
    );
    assert_eq!(runtime.balances.balance(&"alice".to_string()), 70);
    assert_eq!(runtime.balances.balance(&"bob".to_string()), 30);
    assert_eq!(runtime.balances.balance(&"charlie".to_string()), 0);
    assert_eq!(runtime.system.nonce(&"alice".to_string()), Some(1));
    assert_eq!(runtime.system.nonce(&"bob".to_string()), Some(1));
    assert_eq!(runtime.system.block_number(), 1);
}

#[test]
fn extrinsics_behind_a_refusal_are_not_taken_in() {
    let mut runtime = Runtime::new();
    runtime.balances.set_balance(&"alice".to_string(), 100);

    let result = runtime.execute_block(block(
        1,
        vec![
            transfer("alice", "bob", 10),
            create_claim("carol", "doc"),
            transfer("bob", "alice", 11),
            transfer("alice", "bob", 5),
            create_claim("dave", "other"),
            transfer("bob", "alice", 1),
        ],
    ));

    assert_eq!(
        result,
        Err(BlockExecutionError::ExtrinsicFailed {
            block_number: 1,
            extrinsic_index: 2,
            reason: "Not enough funds.",
        })
    );
    assert_eq!(runtime.balances.balance(&"alice".to_string()), 90);
    assert_eq!(runtime.balances.balance(&"bob".to_string()), 10);
    assert_eq!(runtime.proof_of_existence.get_claim(&"doc"), Some(&"carol".to_string()));
    assert_eq!(runtime.proof_of_existence.get_claim(&"other"), None);
    assert_eq!(runtime.system.nonce(&"alice".to_string()), Some(1));
    assert_eq!(runtime.system.nonce(&"bob".to_string()), Some(1));
    assert_eq!(runtime.system.nonce(&"carol".to_string()), Some(1));
    assert_eq!(runtime.system.nonce(&"dave".to_string()), None);
}

#[test]
fn three_blocks_in_a_row() {
    let mut runtime = Runtime::new();
    runtime.balances.set_balance(&"alice".to_string(), 100);

    assert_eq!(
        runtime.execute_block(block(
            1,
            vec![transfer("alice", "bob", 20), transfer("alice", "charlie", 20)],
        )),
        Ok(())
    );
    assert_eq!(runtime.balances.balance(&"alice".to_string()), 60);
    assert_eq!(runtime.balances.balance(&"bob".to_string()), 20);
    assert_eq!(runtime.balances.balance(&"charlie".to_string()), 20);
    assert_eq!(runtime.system.nonce(&"alice".to_string()), Some(2));

    assert_eq!(
        runtime.execute_block(block(
            2,
            vec![create_claim("alice", "Hello, world!"), create_claim("bob", "Hello, world!")],
        )),
        Err(BlockExecutionError::ExtrinsicFailed {
            block_number: 2,
            extrinsic_index: 1,
            reason: "this content is already claimed",
        })
    );
    assert_eq!(
        runtime.proof_of_existence.get_claim(&"Hello, world!"),
        Some(&"alice".to_string())
    );

    assert_eq!(
        runtime.execute_block(block(
            3,
            vec![revoke_claim("alice", "Hello, world!"), create_claim("bob", "Hello, world!")],
        )),
        Ok(())
    );
    assert_eq!(
        runtime.proof_of_existence.get_claim(&"Hello, world!"),
        Some(&"bob".to_string())
    );

    assert_eq!(runtime.system.block_number(), 3);
    assert_eq!(runtime.system.nonce(&"alice".to_string()), Some(4));
    assert_eq!(runtime.system.nonce(&"bob".to_string()), Some(2));
    assert_eq!(runtime.system.nonce(&"charlie".to_string()), None);
}

#[test]
fn nonce_counts_every_attempt() {
    let mut runtime = Runtime::new();
    runtime.balances.set_balance(&"alice".to_string(), 5);

    assert_eq!(
        runtime.execute_block(block(
            1,
            vec![
                transfer("alice", "bob", 1),
                transfer("alice", "bob", 1),
                transfer("bob", "alice", 2),
                transfer("alice", "bob", 1),
            ],
        )),
        Ok(())
    );
    assert_eq!(
        runtime.execute_block(block(2, vec![transfer("alice", "bob", 6)])),
        Err(BlockExecutionError::ExtrinsicFailed {
            block_number: 2,
            extrinsic_index: 0,
            reason: "Not enough funds.",
        })
    );
    assert_eq!(runtime.execute_block(block(3, vec![transfer("alice", "bob", 4)])), Ok(()));

    assert_eq!(runtime.system.nonce(&"alice".to_string()), Some(5));
    assert_eq!(runtime.system.nonce(&"bob".to_string()), Some(1));
    assert_eq!(runtime.balances.balance(&"alice".to_string()), 0);
    assert_eq!(runtime.balances.balance(&"bob".to_string()), 5);
}

#[test]
fn block_of_the_wrong_height_is_refused_untouched() {
    let mut runtime = Runtime::new();
    runtime.balances.set_balance(&"alice".to_string(), 100);

    assert_eq!(
        runtime.execute_block(block(2, vec![transfer("alice", "bob", 20)])),
        Err(BlockExecutionError::UnexpectedBlockNumber { current: 0, declared: 2 })
    );
    assert_eq!(
        runtime.execute_block(block(0, vec![transfer("alice", "bob", 20)])),
        Err(BlockExecutionError::UnexpectedBlockNumber { current: 0, declared: 0 })
    );
    assert_eq!(runtime.system.block_number(), 0);
    assert_eq!(runtime.system.nonce(&"alice".to_string()), None);
    assert_eq!(runtime.balances.balance(&"alice".to_string()), 100);
    assert_eq!(runtime.balances.balance(&"bob".to_string()), 0);

    assert_eq!(runtime.execute_block(block(1, vec![transfer("alice", "bob", 20)])), Ok(()));
    assert_eq!(
        runtime.execute_block(block(1, vec![transfer("alice", "bob", 20)])),
        Err(BlockExecutionError::UnexpectedBlockNumber { current: 1, declared: 1 })
    );
    assert_eq!(runtime.system.block_number(), 1);
    assert_eq!(runtime.balances.balance(&"bob".to_string()), 20);
}

#[test]
fn empty_block_only_raises_the_height() {
    let mut runtime = Runtime::new();
    assert_eq!(runtime.execute_block(block(1, vec![])), Ok(()));
    assert_eq!(runtime.execute_block(block(2, Vec::new())), Ok(()));
    assert_eq!(runtime.system.block_number(), 2);
    assert_eq!(runtime.system.nonce(&"alice".to_string()), None);
}

#[test]
fn runtime_stays_usable_after_a_refused_block() {
    let mut runtime = Runtime::new();
    runtime.balances.set_balance(&"alice".to_string(), 10);

    assert_eq!(
        runtime.execute_block(block(1, vec![revoke_claim("alice", "doc")])),
        Err(BlockExecutionError::ExtrinsicFailed {
            block_number: 1,
            extrinsic_index: 0,
            reason: "claim does not exist",
        })
    );
    assert_eq!(runtime.system.block_number(), 1);
    assert_eq!(
        runtime.execute_block(block(
            2,
            vec![create_claim("alice", "doc"), transfer("alice", "bob", 10)],
        )),
        Ok(())
    );
    assert_eq!(runtime.system.nonce(&"alice".to_string()), Some(3));
    assert_eq!(runtime.balances.balance(&"bob".to_string()), 10);
    assert_eq!(runtime.proof_of_existence.get_claim(&"doc"), Some(&"alice".to_string()));
}

#[test]
fn small_blocks_have_room() {
    let mut runtime = Runtime::new();
    runtime.balances.set_balance(&"alice".to_string(), 100);
    assert!(runtime.callers_have_room(&block(1, vec![])));

    let first = block(1, vec![transfer("alice", "bob", 1), transfer("alice", "bob", 200)]);
    assert!(runtime.callers_have_room(&first));
    assert_eq!(
        runtime.execute_block(first),
        Err(BlockExecutionError::ExtrinsicFailed {
            block_number: 1,
            extrinsic_index: 1,
            reason: "Not enough funds.",
        })
    );
    assert!(runtime.callers_have_room(&block(7, vec![transfer("alice", "bob", 1)])));
}

#[test]
fn dispatch_leaves_height_and_nonces_alone() {
    let mut runtime = Runtime::new();
    runtime.balances.set_balance(&"alice".to_string(), 100);
    assert_eq!(runtime.execute_block(block(1, vec![transfer("alice", "bob", 1)])), Ok(()));

    let call = RuntimeCall::Balances(balances::Call::Transfer { to: "bob".to_string(), amount: 9 });
    assert_eq!(runtime.dispatch("alice".to_string(), call), Ok(()));
    let call = RuntimeCall::ProofOfExistence(proof_of_existence::Call::RevokeClaim { claim: "doc" });
    assert_eq!(runtime.dispatch("alice".to_string(), call), Err("claim does not exist"));

    assert_eq!(runtime.system.block_number(), 1);
    assert_eq!(runtime.system.nonce(&"alice".to_string()), Some(1));
    assert_eq!(runtime.system.nonce(&"bob".to_string()), None);
    assert_eq!(runtime.balances.balance(&"bob".to_string()), 10);
}
