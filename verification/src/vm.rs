//! The interpreter boundary: the only trusted seam of the crate.
//!
//! A `Vm` owns the interpreter-side ledger — the fixed execution context and
//! the account map the interpreter reads and writes. Verified code sees a
//! `Vm` only through `vm_accounts`, its mathematical contents, and through
//! the operations below, whose contracts state what the interpreter's own
//! source shows. An invocation's verdict is a fixed function of the ledger
//! model and the call parameters — the execution context, configuration and
//! precompile set are the same for every `Vm` this crate can build — so each
//! operation's outcome, output, gas, logs and post-state are pinned to a
//! named result; the verified engine around the boundary decides what is
//! committed.

use std::collections::BTreeMap;
use evm::backend::{ApplyBackend, Log, MemoryAccount, MemoryBackend, MemoryVicinity};
use evm::executor::stack::{MemoryStackState, StackExecutor, StackSubstateMetadata};
use evm::{Capture, Config, Context, CreateScheme, ExitError, ExitReason, Handler};
use primitive_types::{H160, H256, U256};
use vstd::prelude::*;
use crate::bytes::{be_nat, Address, Word};
use crate::engine::{ExecResult, FailureKind, Outcome};
use crate::logs::{log_views, LogRecord, LogView};
use crate::state::{Account, AccountView, SlotEntry, Storage, Store, StoreEntry};

verus! {

#[verifier::external_type_specification]
#[verifier::external_body]
pub struct ExH160(H160);

#[verifier::external_type_specification]
#[verifier::external_body]
pub struct ExH256(H256);

#[verifier::external_type_specification]
#[verifier::external_body]
pub struct ExU256(U256);

#[verifier::external_type_specification]
#[verifier::external_body]
pub struct ExMemoryAccount(MemoryAccount);

#[verifier::external_type_specification]
#[verifier::external_body]
pub struct ExMemoryVicinity(MemoryVicinity);

#[verifier::external_type_specification]
#[verifier::external_body]
pub struct ExExitReason(ExitReason);

#[verifier::external_type_specification]
#[verifier::external_body]
pub struct ExLog(Log);

/// The interpreter-side ledger: a fixed execution context (neutral gas
/// price, origin, block parameters) and the account map.
#[verifier::external_body]
pub struct Vm {
    vicinity: MemoryVicinity,
    state: BTreeMap<H160, MemoryAccount>,
}

/// The accounts a `Vm` holds, as the ledger model: address bytes to account
/// record. An address outside the map's domain was never seeded or touched.
pub uninterp spec fn vm_accounts(vm: Vm) -> Map<Seq<u8>, AccountView>;

/// The address the interpreter assigns to a contract created by `deployer`
/// at creation nonce `nonce`. It is a fixed function of those two values
/// alone (the digest of their canonical joint encoding); its definition is
/// not restated here.
pub uninterp spec fn created_address(deployer: Seq<u8>, nonce: nat) -> Seq<u8>;

/// Within one run a contract address is a fixed function of the deployer
/// and the creation nonce: equal inputs always derive the equal address.
/// That distinct nonces derive distinct addresses is a property of the
/// underlying digest, which this boundary deliberately does not assert; a
/// harness test checks it on real deployments.
pub proof fn lemma_created_address_deterministic(d1: Seq<u8>, n1: nat, d2: Seq<u8>, n2: nat)
    requires
        d1 == d2,
        n1 == n2,
    ensures
        created_address(d1, n1) == created_address(d2, n2),
{
}

/// The interpreter's verdict on one deployment transaction, a fixed
/// function of the pre-state ledger and the given parameters alone: the
/// post-state ledger, the outcome, the returned bytes, the gas consumed,
/// and the emitted log records, in that order.
pub uninterp spec fn evm_create_of(
    pre: Map<Seq<u8>, AccountView>,
    deployer: Seq<u8>,
    value: nat,
    init_code: Seq<u8>,
    gas_limit: nat,
) -> (Map<Seq<u8>, AccountView>, Outcome, Seq<u8>, nat, Seq<LogView>);

/// The interpreter's verdict on one call transaction, a fixed function of
/// the pre-state ledger and the given parameters alone: the post-state
/// ledger, the outcome, the returned bytes, the gas consumed, and the
/// emitted log records, in that order.
pub uninterp spec fn evm_call_of(
    pre: Map<Seq<u8>, AccountView>,
    caller: Seq<u8>,
    target: Seq<u8>,
    value: nat,
    payload: Seq<u8>,
    gas_limit: nat,
) -> (Map<Seq<u8>, AccountView>, Outcome, Seq<u8>, nat, Seq<LogView>);

/// The interpreter's verdict on one static query, a fixed function of the
/// ledger and the given parameters alone: the outcome, the returned bytes,
/// and the gas consumed, in that order. A query has no post-state: its
/// changes are never applied.
pub uninterp spec fn evm_query_of(
    pre: Map<Seq<u8>, AccountView>,
    caller: Seq<u8>,
    target: Seq<u8>,
    payload: Seq<u8>,
    gas_limit: nat,
) -> (Outcome, Seq<u8>, nat);

/// The nonce recorded for `a`, zero if the address is absent.
pub open spec fn nonce_of(m: Map<Seq<u8>, AccountView>, a: Seq<u8>) -> nat {
    if m.dom().contains(a) {
        m[a].nonce
    } else {
        0
    }
}

/// The storage value recorded for slot `k` of account `a`, zero if absent.
pub open spec fn slot_value_of(m: Map<Seq<u8>, AccountView>, a: Seq<u8>, k: Seq<u8>) -> nat {
    if m.dom().contains(a) && m[a].storage.dom().contains(k) {
        m[a].storage[k]
    } else {
        0
    }
}

/// Every record in a log sequence is well-formed.
pub open spec fn logs_wf(s: Seq<LogRecord>) -> bool {
    forall|i: int| 0 <= i < s.len() ==> (#[trigger] s[i]).wf()
}

/// Relies on `H160::from_slice`: the 20 given bytes, nothing else; it
/// panics on any other length. Called only from the trusted bodies below.
#[verifier::external_body]
fn h160_of(a: &Address) -> H160
    requires
        a.wf(),
{
    H160::from_slice(a.bytes.as_slice())
}

/// Relies on `H256::from_slice`: the 32 given bytes; it panics on any
/// other length. Called only from the trusted bodies below.
#[verifier::external_body]
fn h256_of(w: &Word) -> H256
    requires
        w.wf(),
{
    H256::from_slice(w.bytes.as_slice())
}

/// Relies on `U256::from_big_endian`: the big-endian value of the 32 given
/// bytes; it panics past 32. Called only from the trusted bodies below.
#[verifier::external_body]
fn u256_of(w: &Word) -> U256
    requires
        w.wf(),
{
    U256::from_big_endian(w.bytes.as_slice())
}

/// Relies on `H160::as_bytes`: the address's 20 bytes. Called only from the
/// trusted bodies below.
#[verifier::external_body]
fn addr_of_h160(a: &H160) -> Address {
    Address { bytes: a.as_bytes().to_vec() }
}

/// Relies on `H256::as_bytes`: the word's 32 bytes. Called only from the
/// trusted bodies below.
#[verifier::external_body]
fn word_of_h256(h: &H256) -> Word {
    Word { bytes: h.as_bytes().to_vec() }
}

/// Relies on `U256::to_big_endian`: the value's 32-byte big-endian
/// encoding. Called only from the trusted bodies below.
#[verifier::external_body]
fn word_of_u256(v: &U256) -> Word {
    let mut bytes = [0u8; 32];
    v.to_big_endian(&mut bytes);
    Word { bytes: bytes.to_vec() }
}

/// Tells the interpreter's exit variants apart, one arm each: success,
/// explicit revert, gas exhaustion, anything else. Called only from the
/// trusted bodies below.
#[verifier::external_body]
fn outcome_of(reason: ExitReason) -> Outcome {
    match reason {
        ExitReason::Succeed(_) => Outcome::Succeeded,
        ExitReason::Revert(_) => Outcome::Reverted,
        ExitReason::Error(ExitError::OutOfGas) => Outcome::Failed(FailureKind::OutOfGas),
        ExitReason::Error(_) => Outcome::Failed(FailureKind::Other),
        ExitReason::Fatal(_) => Outcome::Failed(FailureKind::Other),
    }
}

/// Moves each emitted log's fields over: address, topic words, data bytes.
/// Called only from the trusted bodies below.
#[verifier::external_body]
fn records_of(logs: Vec<Log>) -> Vec<LogRecord> {
    logs.into_iter().map(
        |l| LogRecord {
            address: addr_of_h160(&l.address),
            topics: l.topics.iter().map(|t| word_of_h256(t)).collect(),
            data: l.data,
        },
    ).collect()
}

/// Builds one interpreter-side account from a store record, each field
/// converted one for one. Called only from the trusted bodies below.
#[verifier::external_body]
fn account_to_memory(acct: &Account) -> MemoryAccount {
    let mut storage: BTreeMap<H256, H256> = BTreeMap::new();
    for se in acct.storage.slots.iter() {
        storage.insert(h256_of(&se.key), h256_of(&se.value));
    }
    MemoryAccount { nonce: u256_of(&acct.nonce), balance: u256_of(&acct.balance), storage, code: acct.code.clone() }
}

/// Reads one interpreter-side account back into a store record, each field
/// converted one for one. Called only from the trusted bodies below.
#[verifier::external_body]
fn memory_to_account(acc: &MemoryAccount) -> Account {
    let mut slots: Vec<SlotEntry> = Vec::new();
    for (k, v) in acc.storage.iter() {
        slots.push(SlotEntry { key: word_of_h256(k), value: word_of_h256(v) });
    }
    Account { nonce: word_of_u256(&acc.nonce), balance: word_of_u256(&acc.balance), storage: Storage { slots }, code: acc.code.clone() }
}

/// The fixed execution context, held at neutral defaults: zero gas price,
/// zero origin, chain id one, zeroed block parameters. Called only from the
/// trusted bodies below.
#[verifier::external_body]
fn neutral_vicinity() -> MemoryVicinity {
    MemoryVicinity {
        gas_price: U256::zero(),
        origin: H160::default(),
        chain_id: U256::one(),
        block_hashes: Vec::new(),
        block_number: U256::zero(),
        block_coinbase: H160::default(),
        block_timestamp: U256::zero(),
        block_difficulty: U256::one(),
        block_gas_limit: U256::zero(),
        block_base_fee_per_gas: U256::zero(),
    }
}

/// One raw interpreter exit, before conversion: kept private to the
/// boundary.
struct RawExit {
    reason: ExitReason,
    output: Vec<u8>,
    gas_used: u64,
    logs: Vec<Log>,
}

/// Relies on `StackExecutor::create_address` with the legacy scheme: the
/// address derived from the caller and the caller's current nonce. Called
/// only from the trusted bodies below.
#[verifier::external_body]
fn legacy_address(vm: &Vm, who: H160) -> H160 {
    let config = Config::istanbul();
    let backend = MemoryBackend::new(&vm.vicinity, vm.state.clone());
    let precompiles = BTreeMap::new();
    let ex = StackExecutor::new_with_precompiles(MemoryStackState::new(StackSubstateMetadata::new(0, &config), &backend), &config, &precompiles);
    ex.create_address(CreateScheme::Legacy { caller: who })
}

/// Relies on `StackExecutor::transact_create` and `ApplyBackend::apply`:
/// runs the constructor and commits the executor's changes back to the
/// state map. Called only from the trusted bodies below.
#[verifier::external_body]
fn exec_create(vm: &mut Vm, who: H160, value: U256, init: Vec<u8>, gas_limit: u64) -> RawExit {
    let config = Config::istanbul();
    let mut backend = MemoryBackend::new(&vm.vicinity, core::mem::take(&mut vm.state));
    let precompiles = BTreeMap::new();
    let mut ex = StackExecutor::new_with_precompiles(MemoryStackState::new(StackSubstateMetadata::new(gas_limit, &config), &backend), &config, &precompiles);
    let (reason, output) = ex.transact_create(who, value, init, gas_limit, Vec::new());
    let gas_used = ex.used_gas();
    let (applies, logs) = ex.into_state().deconstruct();
    backend.apply(applies, Vec::new(), false);
    vm.state = backend.state().clone();
    RawExit { reason, output, gas_used, logs: logs.into_iter().collect() }
}

/// Relies on `StackExecutor::transact_call` and `ApplyBackend::apply`: runs
/// the payload against the target and commits the executor's changes back
/// to the state map. Called only from the trusted bodies below.
#[verifier::external_body]
fn exec_call(vm: &mut Vm, who: H160, target: H160, value: U256, data: Vec<u8>, gas_limit: u64) -> RawExit {
    let config = Config::istanbul();
    let mut backend = MemoryBackend::new(&vm.vicinity, core::mem::take(&mut vm.state));
    let precompiles = BTreeMap::new();
    let mut ex = StackExecutor::new_with_precompiles(MemoryStackState::new(StackSubstateMetadata::new(gas_limit, &config), &backend), &config, &precompiles);
    let (reason, output) = ex.transact_call(who, target, value, data, gas_limit, Vec::new());
    let gas_used = ex.used_gas();
    let (applies, logs) = ex.into_state().deconstruct();
    backend.apply(applies, Vec::new(), false);
    vm.state = backend.state().clone();
    RawExit { reason, output, gas_used, logs: logs.into_iter().collect() }
}

/// Relies on `StackExecutor::call` with the static flag set, on a copy of
/// the state map that is dropped afterwards. Called only from the trusted
/// bodies below.
#[verifier::external_body]
fn exec_query(vm: &Vm, who: H160, target: H160, data: Vec<u8>, gas_limit: u64) -> RawExit {
    let config = Config::istanbul();
    let backend = MemoryBackend::new(&vm.vicinity, vm.state.clone());
    let precompiles = BTreeMap::new();
    let mut ex = StackExecutor::new_with_precompiles(MemoryStackState::new(StackSubstateMetadata::new(gas_limit, &config), &backend), &config, &precompiles);
    let context = Context { address: target, caller: who, apparent_value: U256::zero() };
    let capture = ex.call(target, None, data, Some(gas_limit), true, context);
    let (reason, output) = match capture { Capture::Exit(exit) => exit, Capture::Trap(i) => match i {} };
    RawExit { reason, output, gas_used: ex.used_gas(), logs: Vec::new() }
}

impl Vm {
    /// Relies on `MemoryBackend`'s state map: a `BTreeMap` built from the
    /// store's entries holds exactly those accounts (addresses unique by the
    /// store's well-formedness), each converted one for one.
    #[verifier::external_body]
    pub(crate) fn from_accounts(s: &Store) -> (r: Vm)
        requires
            s.wf(),
        ensures
            vm_accounts(r) == s@,
    {
        let mut state: BTreeMap<H160, MemoryAccount> = BTreeMap::new();
        for e in s.entries.iter() {
            state.insert(h160_of(&e.addr), account_to_memory(&e.acct));
        }
        Vm { vicinity: neutral_vicinity(), state }
    }

    /// Relies on `MemoryBackend`'s state map again: iterating the `BTreeMap`
    /// yields each held account once (keys unique), converted back one for
    /// one; the interpreter's `apply` never records an explicit zero storage
    /// value, so every read-back slot entry is non-zero.
    #[verifier::external_body]
    pub(crate) fn dump(&self) -> (r: Store)
        ensures
            r.wf(),
            r@ == vm_accounts(*self),
    {
        let mut entries: Vec<StoreEntry> = Vec::new();
        for (a, acc) in self.state.iter() {
            entries.push(StoreEntry { addr: addr_of_h160(a), acct: memory_to_account(acc) });
        }
        Store { entries }
    }

    /// Relies on `StackExecutor::transact_create` with the legacy scheme,
    /// whose verdict is deterministic in the state map and the parameters
    /// (`evm_create_of`) and is applied back to the state map whatever the
    /// outcome: a succeeding deployment lands at the address derived from
    /// the caller and the caller's nonce at entry (`create_address`), any
    /// other exit reports no address; `used_gas` never exceeds the metadata
    /// gas limit.
    #[verifier::external_body]
    pub(crate) fn raw_create(&mut self, caller: &Address, value: &Word, init_code: &Vec<u8>, gas_limit: u64) -> (r: ExecResult)
        requires
            caller.wf(),
            value.wf(),
        ensures
            vm_accounts(*final(self)) == evm_create_of(vm_accounts(*old(self)), caller@, value.value(), init_code@, gas_limit as nat).0,
            r.outcome == evm_create_of(vm_accounts(*old(self)), caller@, value.value(), init_code@, gas_limit as nat).1,
            r.output@ == evm_create_of(vm_accounts(*old(self)), caller@, value.value(), init_code@, gas_limit as nat).2,
            r.gas_used as nat == evm_create_of(vm_accounts(*old(self)), caller@, value.value(), init_code@, gas_limit as nat).3,
            log_views(r.logs@) == evm_create_of(vm_accounts(*old(self)), caller@, value.value(), init_code@, gas_limit as nat).4,
            r.gas_used <= gas_limit,
            r.outcome is Succeeded ==> r.created is Some && r.created.unwrap().wf()
                && r.created.unwrap()@ == created_address(caller@, nonce_of(vm_accounts(*old(self)), caller@)),
            !(r.outcome is Succeeded) ==> r.created is None,
            logs_wf(r.logs@),
    {
        let who = h160_of(caller);
        let made = legacy_address(self, who);
        let raw = exec_create(self, who, u256_of(value), init_code.clone(), gas_limit);
        let created = if raw.reason.is_succeed() { Some(addr_of_h160(&made)) } else { None };
        ExecResult { outcome: outcome_of(raw.reason), output: raw.output, created, gas_used: raw.gas_used, logs: records_of(raw.logs) }
    }

    /// Relies on `StackExecutor::transact_call`, whose verdict is
    /// deterministic in the state map and the parameters (`evm_call_of`)
    /// and is applied back to the state map whatever the outcome;
    /// `used_gas` never exceeds the metadata gas limit.
    #[verifier::external_body]
    pub(crate) fn raw_call(&mut self, caller: &Address, target: &Address, value: &Word, payload: &Vec<u8>, gas_limit: u64) -> (r: ExecResult)
        requires
            caller.wf(),
            target.wf(),
            value.wf(),
        ensures
            vm_accounts(*final(self)) == evm_call_of(vm_accounts(*old(self)), caller@, target@, value.value(), payload@, gas_limit as nat).0,
            r.outcome == evm_call_of(vm_accounts(*old(self)), caller@, target@, value.value(), payload@, gas_limit as nat).1,
            r.output@ == evm_call_of(vm_accounts(*old(self)), caller@, target@, value.value(), payload@, gas_limit as nat).2,
            r.gas_used as nat == evm_call_of(vm_accounts(*old(self)), caller@, target@, value.value(), payload@, gas_limit as nat).3,
            log_views(r.logs@) == evm_call_of(vm_accounts(*old(self)), caller@, target@, value.value(), payload@, gas_limit as nat).4,
            r.gas_used <= gas_limit,
            r.created is None,
            logs_wf(r.logs@),
    {
        let raw = exec_call(self, h160_of(caller), h160_of(target), u256_of(value), payload.clone(), gas_limit);
        ExecResult { outcome: outcome_of(raw.reason), output: raw.output, created: None, gas_used: raw.gas_used, logs: records_of(raw.logs) }
    }

    /// Relies on `StackExecutor::call` with the static flag set, whose
    /// verdict is deterministic in the state map and the parameters
    /// (`evm_query_of`): the interpreter rejects every state-mutating path,
    /// the executor works on a copy of the state map that is dropped
    /// afterwards, and the receiver is shared, so the held ledger cannot
    /// change; `used_gas` never exceeds the metadata gas limit.
    #[verifier::external_body]
    pub(crate) fn raw_query(&self, caller: &Address, target: &Address, payload: &Vec<u8>, gas_limit: u64) -> (r: ExecResult)
        requires
            caller.wf(),
            target.wf(),
        ensures
            r.outcome == evm_query_of(vm_accounts(*self), caller@, target@, payload@, gas_limit as nat).0,
            r.output@ == evm_query_of(vm_accounts(*self), caller@, target@, payload@, gas_limit as nat).1,
            r.gas_used as nat == evm_query_of(vm_accounts(*self), caller@, target@, payload@, gas_limit as nat).2,
            r.gas_used <= gas_limit,
            r.created is None,
            r.logs@.len() == 0,
    {
        let raw = exec_query(self, h160_of(caller), h160_of(target), payload.clone(), gas_limit);
        ExecResult { outcome: outcome_of(raw.reason), output: raw.output, created: None, gas_used: raw.gas_used, logs: Vec::new() }
    }

    /// Relies on the `BTreeMap` reads mirroring `MemoryBackend::storage`:
    /// the value recorded under the slot key, all-zero if the account or the
    /// slot is absent.
    #[verifier::external_body]
    pub(crate) fn storage_word(&self, addr: &Address, slot: &Word) -> (r: Word)
        requires
            addr.wf(),
            slot.wf(),
        ensures
            r.wf(),
            be_nat(r@) == slot_value_of(vm_accounts(*self), addr@, slot@),
    {
        let held = self.state.get(&h160_of(addr)).map(|acc| acc.storage.get(&h256_of(slot)).cloned().unwrap_or_default()).unwrap_or_default();
        word_of_h256(&held)
    }
}

} // verus!
