//! End-to-end scenarios: a small token contract, hand-assembled for the
//! interpreter, deployed and driven through the engine.
//!
//! The token keeps `balances` in a mapping at base slot 6, mints a fixed
//! supply of 1_000_000_000 to its deployer, and exposes
//! `balanceOf(address)` and `transfer(address,uint256)`; `transfer` emits
//! the conventional three-topic transfer event and reverts when the sender's
//! balance is short.

use evm_harness::bench::{run_benchmark, CallSpec};
use evm_harness::bytes::{Address, Word};
use evm_harness::encode::{encode_call, FunctionDecl, Interface, ParamType, Token};
use evm_harness::engine::{Engine, Outcome, SeedError};
use evm_harness::logs::{decode, decode_topic, DecodedValue, FieldType};
use evm_harness::slots::resolve;
use evm_harness::state::{Account, Store};

/// Field-by-field equality of two ledger snapshots.
fn ledgers_equal(a: &Store, b: &Store) -> bool {
    if a.entries.len() != b.entries.len() {
        return false;
    }
    for (ea, eb) in a.entries.iter().zip(b.entries.iter()) {
        if ea.addr.as_bytes() != eb.addr.as_bytes()
            || ea.acct.nonce.as_bytes() != eb.acct.nonce.as_bytes()
            || ea.acct.balance.as_bytes() != eb.acct.balance.as_bytes()
            || ea.acct.code != eb.acct.code
            || ea.acct.storage.slots.len() != eb.acct.storage.slots.len()
        {
            return false;
        }
        for (sa, sb) in ea.acct.storage.slots.iter().zip(eb.acct.storage.slots.iter()) {
            if sa.key.as_bytes() != sb.key.as_bytes() || sa.value.as_bytes() != sb.value.as_bytes()
            {
                return false;
            }
        }
    }
    true
}

const SUPPLY: u64 = 1_000_000_000;
const GAS: u64 = u64::MAX;

/// Deploy bytecode: a constructor that stores the supply under
/// `keccak(caller ∥ 6)` and returns the runtime code appended after it.
fn token_deploy_code() -> Vec<u8> {
    let mut code = String::new();
    // constructor: balances[caller] = SUPPLY at keccak(pad(caller) ++ pad(6))
    code.push_str("3360005260066020526");
    code.push_str("33b9aca00");
    code.push_str("6040600020");
    code.push_str("55");
    // copy the 174-byte runtime (offset 32) to memory and return it
    code.push_str("60ae602060003960ae6000f3");
    // runtime: dispatch on selector
    code.push_str("600035");
    code.push_str("60e01c");
    code.push_str("80");
    code.push_str("6370a08231");
    code.push_str("14");
    code.push_str("61002157");
    code.push_str("80");
    code.push_str("63a9059cbb");
    code.push_str("14");
    code.push_str("61003b57");
    code.push_str("60006000fd");
    // balanceOf(address): sload(keccak(pad(arg) ++ pad(6)))
    code.push_str("5b");
    code.push_str("600435");
    code.push_str("600052");
    code.push_str("6006602052");
    code.push_str("6040600020");
    code.push_str("54");
    code.push_str("600052");
    code.push_str("60206000f3");
    // transfer(address,uint256)
    code.push_str("5b");
    code.push_str("33600052");
    code.push_str("6006602052");
    code.push_str("6040600020"); // fromKey
    code.push_str("8054"); // fromBal
    code.push_str("602435"); // amount
    code.push_str("808210"); // fromBal < amount ?
    code.push_str("6100a857"); // then revert
    code.push_str("809103909155"); // balances[caller] = fromBal - amount
    code.push_str("600435"); // to
    code.push_str("80600052");
    code.push_str("6006602052");
    code.push_str("6040600020"); // toKey
    code.push_str("805483019055"); // balances[to] += amount
    code.push_str("81600052"); // mem[0] = amount
    code.push_str("33");
    code.push_str("7fddf252ad1be2c89b69c2b068fc378daa952ba7f163c4a11628f55a4df523b3ef");
    code.push_str("60206000a3"); // log3(amount; sig, from, to)
    code.push_str("6001600052");
    code.push_str("60206000f3"); // return true
    // fallback revert target
    code.push_str("5b60006000fd");
    hex::decode(code).expect("valid hex")
}

fn addr(first: u8) -> Address {
    let mut bytes = vec![0u8; 20];
    bytes[0] = first;
    Address::from_bytes(bytes).expect("20 bytes")
}

fn word_of_address(a: &Address) -> Word {
    let mut bytes = vec![0u8; 12];
    bytes.extend_from_slice(a.as_bytes());
    Word::from_bytes(bytes).expect("32 bytes")
}

fn token_interface() -> Interface {
    Interface {
        functions: vec![
            FunctionDecl { name: b"balanceOf".to_vec(), params: vec![ParamType::Address] },
            FunctionDecl {
                name: b"transfer".to_vec(),
                params: vec![ParamType::Address, ParamType::Uint256],
            },
        ],
    }
}

/// Seeds the deployer account and deploys the token; returns the engine,
/// the deployer, and the contract address.
fn deployed_token() -> (Engine, Address, Address) {
    let owner = addr(0xf0);
    let mut store = Store::new();
    let mut acct = Account::zero();
    acct.balance = Word::from_u64(10_000_000_000_000_000);
    store.set(&owner, acct);
    let mut engine = Engine::new();
    engine.seed(&store).expect("fresh engine accepts a seed");
    let res = engine.deploy(&owner, &Word::zero(), &token_deploy_code(), GAS);
    assert_eq!(res.outcome, Outcome::Succeeded, "deploy: {:?}", res.output);
    let contract = res.created.expect("succeeding deploy yields an address");
    (engine, owner, contract)
}

fn balance_of(engine: &mut Engine, contract: &Address, who: &Address) -> Vec<u8> {
    let payload = encode_call(
        &token_interface(),
        &b"balanceOf".to_vec(),
        &vec![Token::Address(who.duplicate())],
    )
    .expect("balanceOf encodes");
    let res = engine.query(&addr(0xf0), contract, &payload, GAS);
    assert_eq!(res.outcome, Outcome::Succeeded);
    res.output
}

#[test]
fn deploy_mints_supply_to_deployer() {
    let (mut engine, owner, contract) = deployed_token();
    let out = balance_of(&mut engine, &contract, &owner);
    assert_eq!(out, *Word::from_u64(SUPPLY).as_bytes());
}

#[test]
fn deploys_at_two_nonces_get_distinct_addresses() {
    let (mut engine, owner, first) = deployed_token();
    let res = engine.deploy(&owner, &Word::zero(), &token_deploy_code(), GAS);
    assert_eq!(res.outcome, Outcome::Succeeded);
    let second = res.created.expect("succeeding deploy yields an address");
    assert_ne!(first.as_bytes(), second.as_bytes());
}

#[test]
fn transfer_moves_exact_amount_and_emits_log() {
    let (mut engine, owner, contract) = deployed_token();
    let to = addr(0x10);
    let payload = encode_call(
        &token_interface(),
        &b"transfer".to_vec(),
        &vec![Token::Address(to.duplicate()), Token::Uint(Word::from_u64(9999))],
    )
    .expect("transfer encodes");
    let res = engine.call(&owner, &contract, &Word::zero(), &payload, GAS);
    assert_eq!(res.outcome, Outcome::Succeeded);

    assert_eq!(
        balance_of(&mut engine, &contract, &owner),
        *Word::from_u64(SUPPLY - 9999).as_bytes()
    );
    assert_eq!(balance_of(&mut engine, &contract, &to), *Word::from_u64(9999).as_bytes());

    assert_eq!(res.logs.len(), 1);
    let log = &res.logs[0];
    assert_eq!(log.address.as_bytes(), contract.as_bytes());
    assert_eq!(log.topics.len(), 3);
    match decode_topic(&log.topics[1], FieldType::Address) {
        DecodedValue::Address(a) => assert_eq!(a.as_bytes(), owner.as_bytes()),
        _ => panic!("topic 1 should decode as an address"),
    }
    match decode_topic(&log.topics[2], FieldType::Address) {
        DecodedValue::Address(a) => assert_eq!(a.as_bytes(), to.as_bytes()),
        _ => panic!("topic 2 should decode as an address"),
    }
    let fields = decode(log, 3, &vec![FieldType::Uint256]).expect("shape matches");
    assert_eq!(fields.len(), 1);
    match &fields[0] {
        DecodedValue::Uint(w) => assert_eq!(w.as_bytes(), Word::from_u64(9999).as_bytes()),
        _ => panic!("data should decode as an integer"),
    }
}

#[test]
fn transfer_beyond_balance_reverts_and_changes_nothing() {
    let (mut engine, owner, contract) = deployed_token();
    let before = balance_of(&mut engine, &contract, &owner);
    let payload = encode_call(
        &token_interface(),
        &b"transfer".to_vec(),
        &vec![Token::Address(addr(0x10).duplicate()), Token::Uint(Word::from_u64(SUPPLY + 1))],
    )
    .expect("transfer encodes");
    let snapshot_before = engine.snapshot();
    let res = engine.call(&owner, &contract, &Word::zero(), &payload, GAS);
    assert_eq!(res.outcome, Outcome::Reverted);
    let after = balance_of(&mut engine, &contract, &owner);
    assert_eq!(before, after);
    // Every account's nonce, balance and storage is exactly as snapshotted.
    assert!(ledgers_equal(&snapshot_before, &engine.snapshot()));
}

#[test]
fn resolver_reads_the_balance_slot_directly() {
    let (mut engine, owner, contract) = deployed_token();
    let slot_key = resolve(&Word::from_u64(6), &word_of_address(&owner));
    let direct = engine.storage_at(&contract, &slot_key);
    let via_call = balance_of(&mut engine, &contract, &owner);
    assert_eq!(*direct.as_bytes(), via_call);
    assert_eq!(*direct.as_bytes(), *Word::from_u64(SUPPLY).as_bytes());
}

#[test]
fn static_query_cannot_mutate_state() {
    let (mut engine, owner, contract) = deployed_token();
    let transfer_payload = encode_call(
        &token_interface(),
        &b"transfer".to_vec(),
        &vec![Token::Address(addr(0x10).duplicate()), Token::Uint(Word::from_u64(5))],
    )
    .expect("transfer encodes");
    // A state-mutating payload behind the static flag must not succeed...
    let snapshot_before = engine.snapshot();
    let res = engine.query(&owner, &contract, &transfer_payload, GAS);
    assert_ne!(res.outcome, Outcome::Succeeded);
    assert!(ledgers_equal(&snapshot_before, &engine.snapshot()));
    // ...and balances are exactly as minted.
    assert_eq!(balance_of(&mut engine, &contract, &owner), *Word::from_u64(SUPPLY).as_bytes());
    assert_eq!(
        balance_of(&mut engine, &contract, &addr(0x10)),
        *Word::from_u64(0).as_bytes()
    );
}

#[test]
fn seeding_after_execution_is_refused() {
    let (mut engine, _, _) = deployed_token();
    let err = engine.seed(&Store::new()).expect_err("seed after execution must fail");
    assert_eq!(err, SeedError::AlreadyExecuted);
}

#[test]
fn gas_accumulates_across_invocations() {
    let (mut engine, owner, contract) = deployed_token();
    let after_deploy = engine.used_gas();
    assert!(after_deploy > 0);
    balance_of(&mut engine, &contract, &owner);
    assert!(engine.used_gas() > after_deploy);
}

#[test]
fn benchmark_reports_mean_of_total() {
    let (mut engine, owner, contract) = deployed_token();
    let payload = encode_call(
        &token_interface(),
        &b"transfer".to_vec(),
        &vec![Token::Address(addr(0x10).duplicate()), Token::Uint(Word::from_u64(1))],
    )
    .expect("transfer encodes");
    let spec = CallSpec {
        caller: owner.duplicate(),
        target: contract.duplicate(),
        value: Word::zero(),
        payload,
        gas_limit: GAS,
    };
    let report = run_benchmark(&mut engine, &spec, 3);
    assert_eq!(report.iterations, 3);
    assert_eq!(report.mean_nanos, report.total_nanos / 3);
    // Three one-token transfers really ran against the evolving state.
    assert_eq!(
        balance_of(&mut engine, &contract, &addr(0x10)),
        *Word::from_u64(3).as_bytes()
    );
}

#[test]
fn benchmark_of_zero_iterations_is_a_noop() {
    let (mut engine, owner, contract) = deployed_token();
    let gas_before = engine.used_gas();
    let spec = CallSpec {
        caller: owner.duplicate(),
        target: contract.duplicate(),
        value: Word::zero(),
        payload: Vec::new(),
        gas_limit: GAS,
    };
    let report = run_benchmark(&mut engine, &spec, 0);
    assert_eq!(report.iterations, 0);
    assert_eq!(report.total_nanos, 0);
    assert_eq!(report.mean_nanos, 0);
    assert_eq!(engine.used_gas(), gas_before);
}

#[test]
fn accounts_read_back_with_zero_default() {
    let (engine, owner, contract) = deployed_token();
    // The deployer's nonce advanced to one at its first deployment.
    let deployer = engine.get_account(&owner);
    assert_eq!(*deployer.nonce.as_bytes(), *Word::from_u64(1).as_bytes());
    // The contract account carries the runtime code and the minted slot.
    let token = engine.get_account(&contract);
    assert!(!token.code.is_empty());
    assert_eq!(token.storage.slots.len(), 1);
    // An address nobody touched is the zero account.
    let unseen = engine.get_account(&addr(0x77));
    assert_eq!(*unseen.balance.as_bytes(), vec![0u8; 32]);
    assert!(unseen.code.is_empty());
}

#[test]
fn repeated_queries_of_one_ledger_return_identical_bytes() {
    let (mut engine, owner, contract) = deployed_token();
    let payload = encode_call(
        &token_interface(),
        &b"balanceOf".to_vec(),
        &vec![Token::Address(owner.duplicate())],
    )
    .expect("balanceOf encodes");
    let first = engine.query(&owner, &contract, &payload, GAS);
    let second = engine.query(&owner, &contract, &payload, GAS);
    assert_eq!(first.outcome, second.outcome);
    assert_eq!(first.output, second.output);
    assert_eq!(first.gas_used, second.gas_used);
}
