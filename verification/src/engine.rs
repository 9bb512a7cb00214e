//! The execution engine: deploy, call and static query against the ledger.
//!
//! The engine owns the interpreter-side ledger and commits an invocation's
//! changes only when it succeeds: a reverted or failed invocation leaves
//! every account exactly as it was, and a static query can never change the
//! ledger at all. The engine also accumulates the gas consumed by every
//! invocation issued so far.

use vstd::prelude::*;
use crate::bytes::{Address, Word};
use crate::logs::LogRecord;
use crate::state::{Account, AccountView, Store};
use crate::logs::log_views;
use crate::vm::{
    created_address, evm_call_of, evm_create_of, evm_query_of, logs_wf, nonce_of, slot_value_of,
    vm_accounts, Vm,
};

verus! {

/// Why an invocation failed short of an explicit revert.
#[derive(Clone, Copy, PartialEq, Eq, Structural, Debug)]
pub enum FailureKind {
    /// The caller-supplied gas budget was exhausted.
    OutOfGas,
    /// Any other interpreter-reported failure.
    Other,
}

/// The terminal state of one invocation.
#[derive(Clone, Copy, PartialEq, Eq, Structural, Debug)]
pub enum Outcome {
    /// The invocation ran to completion; its changes are committed.
    Succeeded,
    /// The code reverted explicitly; its changes are discarded.
    Reverted,
    /// The invocation failed; its changes are discarded.
    Failed(FailureKind),
}

impl Outcome {
    /// Whether the outcome is `Succeeded`.
    pub fn is_succeeded(&self) -> (r: bool)
        ensures
            r == (*self is Succeeded),
    {
        match self {
            Outcome::Succeeded => true,
            _ => false,
        }
    }
}

/// What one invocation produced: its outcome, return or output bytes, the
/// created contract's address for a deployment, the gas it consumed, and the
/// event records it emitted.
pub struct ExecResult {
    pub outcome: Outcome,
    pub output: Vec<u8>,
    pub created: Option<Address>,
    pub gas_used: u64,
    pub logs: Vec<LogRecord>,
}

/// Seeding refused because execution has already occurred.
#[derive(Clone, Copy, PartialEq, Eq, Structural, Debug)]
pub enum SeedError {
    AlreadyExecuted,
}

/// The sum of two gas counts, capped at the counter's width.
pub open spec fn sum_or_cap(a: nat, b: nat) -> nat {
    if a + b <= u128::MAX {
        (a + b) as nat
    } else {
        u128::MAX as nat
    }
}

/// The cumulative gas counter never decreases: whatever one invocation
/// consumed, the running total after charging it is at least the total
/// before.
pub proof fn lemma_gas_total_monotone(total: nat, gas_used: nat)
    requires
        total <= u128::MAX,
    ensures
        sum_or_cap(total, gas_used) >= total,
{
}

/// The execution engine. `ledger()` is the current account state,
/// `gas_total()` the gas consumed by every invocation so far, and
/// `has_executed()` whether any invocation has been issued.
pub struct Engine {
    vm: Vm,
    cumulative_gas: u128,
    executed: bool,
}

impl Engine {
    /// The current ledger: address bytes to account model.
    pub closed spec fn ledger(self) -> Map<Seq<u8>, AccountView> {
        vm_accounts(self.vm)
    }

    /// Gas consumed by all invocations issued so far, capped at `u128::MAX`.
    pub closed spec fn gas_total(self) -> nat {
        self.cumulative_gas as nat
    }

    /// Whether any deploy, call or query has been issued.
    pub closed spec fn has_executed(self) -> bool {
        self.executed
    }

    /// A fresh engine over an empty ledger.
    pub fn new() -> (r: Engine)
        ensures
            r.ledger() == Map::<Seq<u8>, AccountView>::empty(),
            r.gas_total() == 0,
            !r.has_executed(),
    {
        let store = Store::new();
        Engine { vm: Vm::from_accounts(&store), cumulative_gas: 0, executed: false }
    }

    /// Installs the starting snapshot. Fails — leaving the ledger untouched
    /// — exactly when any execution has already occurred.
    pub fn seed(&mut self, store: &Store) -> (r: Result<(), SeedError>)
        requires
            store.wf(),
        ensures
            r is Ok <==> !old(self).has_executed(),
            r is Ok ==> final(self).ledger() == store@,
            r is Err ==> final(self).ledger() == old(self).ledger(),
            final(self).has_executed() == old(self).has_executed(),
            final(self).gas_total() == old(self).gas_total(),
    {
        if self.executed {
            return Err(SeedError::AlreadyExecuted);
        }
        self.vm = Vm::from_accounts(store);
        Ok(())
    }

    /// Adds one invocation's gas to the cumulative counter.
    fn charge(&mut self, gas_used: u64)
        ensures
            final(self).gas_total() == sum_or_cap(old(self).gas_total(), gas_used as nat),
            final(self).vm == old(self).vm,
            final(self).executed == old(self).executed,
    {
        let g = gas_used as u128;
        if self.cumulative_gas <= u128::MAX - g {
            self.cumulative_gas = self.cumulative_gas + g;
        } else {
            self.cumulative_gas = u128::MAX;
        }
    }

    /// Deploys a contract: runs `init_code` as a constructor from `deployer`
    /// with the given endowment. The outcome, output bytes, gas and logs
    /// are the interpreter's verdict on the prior ledger and these
    /// parameters. A succeeding deployment commits that verdict's
    /// post-state and reports the deterministic address derived from the
    /// deployer and the deployer's prior nonce; any other outcome leaves
    /// every account unchanged and reports no address.
    pub fn deploy(
        &mut self,
        deployer: &Address,
        value: &Word,
        init_code: &Vec<u8>,
        gas_limit: u64,
    ) -> (r: ExecResult)
        requires
            deployer.wf(),
            value.wf(),
        ensures
            final(self).has_executed(),
            r.outcome == evm_create_of(old(self).ledger(), deployer@, value.value(), init_code@, gas_limit as nat).1,
            r.output@ == evm_create_of(old(self).ledger(), deployer@, value.value(), init_code@, gas_limit as nat).2,
            r.gas_used as nat == evm_create_of(old(self).ledger(), deployer@, value.value(), init_code@, gas_limit as nat).3,
            log_views(r.logs@) == evm_create_of(old(self).ledger(), deployer@, value.value(), init_code@, gas_limit as nat).4,
            r.outcome is Succeeded ==> final(self).ledger() == evm_create_of(old(self).ledger(), deployer@, value.value(), init_code@, gas_limit as nat).0,
            r.gas_used <= gas_limit,
            final(self).gas_total() == sum_or_cap(old(self).gas_total(), r.gas_used as nat),
            !(r.outcome is Succeeded) ==> final(self).ledger() == old(self).ledger()
                && r.created is None,
            r.outcome is Succeeded ==> r.created is Some && r.created.unwrap().wf()
                && r.created.unwrap()@ == created_address(
                deployer@,
                nonce_of(old(self).ledger(), deployer@),
            ),
            logs_wf(r.logs@),
    {
        let pre = self.vm.dump();
        let raw = self.vm.raw_create(deployer, value, init_code, gas_limit);
        if !raw.outcome.is_succeeded() {
            self.vm = Vm::from_accounts(&pre);
        }
        self.charge(raw.gas_used);
        self.executed = true;
        raw
    }

    /// Invokes the contract at `target` with the given payload, caller and
    /// value. The outcome, output bytes, gas and logs are the interpreter's
    /// verdict on the prior ledger and these parameters. The verdict's
    /// post-state is committed only on a `Succeeded` outcome: a reverted or
    /// failed call leaves every account's nonce, balance and storage
    /// exactly as before it, though its gas is still charged.
    pub fn call(
        &mut self,
        caller: &Address,
        target: &Address,
        value: &Word,
        payload: &Vec<u8>,
        gas_limit: u64,
    ) -> (r: ExecResult)
        requires
            caller.wf(),
            target.wf(),
            value.wf(),
        ensures
            final(self).has_executed(),
            r.outcome == evm_call_of(old(self).ledger(), caller@, target@, value.value(), payload@, gas_limit as nat).1,
            r.output@ == evm_call_of(old(self).ledger(), caller@, target@, value.value(), payload@, gas_limit as nat).2,
            r.gas_used as nat == evm_call_of(old(self).ledger(), caller@, target@, value.value(), payload@, gas_limit as nat).3,
            log_views(r.logs@) == evm_call_of(old(self).ledger(), caller@, target@, value.value(), payload@, gas_limit as nat).4,
            r.outcome is Succeeded ==> final(self).ledger() == evm_call_of(old(self).ledger(), caller@, target@, value.value(), payload@, gas_limit as nat).0,
            r.gas_used <= gas_limit,
            final(self).gas_total() == sum_or_cap(old(self).gas_total(), r.gas_used as nat),
            !(r.outcome is Succeeded) ==> final(self).ledger() == old(self).ledger(),
            r.created is None,
            logs_wf(r.logs@),
    {
        let pre = self.vm.dump();
        let raw = self.vm.raw_call(caller, target, value, payload, gas_limit);
        if !raw.outcome.is_succeeded() {
            self.vm = Vm::from_accounts(&pre);
        }
        self.charge(raw.gas_used);
        self.executed = true;
        raw
    }

    /// Issues a static query: the payload runs against `target` with the
    /// static flag set and no value, and the ledger is never changed,
    /// whatever the payload does. The outcome, output bytes and gas are the
    /// interpreter's verdict on the current ledger and these parameters —
    /// so two queries of one unchanged ledger return the same bytes. Only
    /// the gas counter advances.
    pub fn query(
        &mut self,
        caller: &Address,
        target: &Address,
        payload: &Vec<u8>,
        gas_limit: u64,
    ) -> (r: ExecResult)
        requires
            caller.wf(),
            target.wf(),
        ensures
            final(self).has_executed(),
            final(self).ledger() == old(self).ledger(),
            r.outcome == evm_query_of(old(self).ledger(), caller@, target@, payload@, gas_limit as nat).0,
            r.output@ == evm_query_of(old(self).ledger(), caller@, target@, payload@, gas_limit as nat).1,
            r.gas_used as nat == evm_query_of(old(self).ledger(), caller@, target@, payload@, gas_limit as nat).2,
            r.gas_used <= gas_limit,
            final(self).gas_total() == sum_or_cap(old(self).gas_total(), r.gas_used as nat),
            r.created is None,
            r.logs@.len() == 0,
    {
        let raw = self.vm.raw_query(caller, target, payload, gas_limit);
        self.charge(raw.gas_used);
        self.executed = true;
        raw
    }

    /// The account recorded at `addr`: the zero account if the address was
    /// never seeded or touched.
    pub fn get_account(&self, addr: &Address) -> (r: Account)
        requires
            addr.wf(),
        ensures
            r.wf(),
            self.ledger().dom().contains(addr@) ==> r@ == self.ledger()[addr@],
            !self.ledger().dom().contains(addr@) ==> r@ == crate::state::zero_account_view(),
    {
        let snapshot = self.vm.dump();
        snapshot.get(addr)
    }

    /// Reads one storage slot of one account directly from the ledger;
    /// absent account or slot reads as the zero word.
    pub fn storage_at(&self, addr: &Address, slot: &Word) -> (r: Word)
        requires
            addr.wf(),
            slot.wf(),
        ensures
            r.wf(),
            r.value() == slot_value_of(self.ledger(), addr@, slot@),
    {
        self.vm.storage_word(addr, slot)
    }

    /// The full current ledger as a snapshot store.
    pub fn snapshot(&self) -> (r: Store)
        ensures
            r.wf(),
            r@ == self.ledger(),
    {
        self.vm.dump()
    }

    /// Gas consumed by every invocation issued so far.
    pub fn used_gas(&self) -> (r: u128)
        ensures
            r as nat == self.gas_total(),
    {
        self.cumulative_gas
    }
}

} // verus!
