//! The benchmark runner: repeats one call and reports timing.
//!
//! Each iteration issues the same call through the engine against the same
//! evolving state — deliberately not reset, to exercise amortized costs. The
//! run is purely observational: it reports wall-clock figures and never
//! decides anything.

use vstd::prelude::*;
use crate::bytes::{Address, Word};
use crate::engine::Engine;
use crate::state::AccountView;
use crate::vm::evm_call_of;

verus! {

/// The fixed call a benchmark repeats.
pub struct CallSpec {
    pub caller: Address,
    pub target: Address,
    pub value: Word,
    pub payload: Vec<u8>,
    pub gas_limit: u64,
}

impl CallSpec {
    pub open spec fn wf(&self) -> bool {
        self.caller.wf() && self.target.wf() && self.value.wf()
    }
}

/// What a benchmark run measured.
pub struct BenchReport {
    /// Iterations issued.
    pub iterations: u64,
    /// Wall-clock nanoseconds over the whole run.
    pub total_nanos: u128,
    /// Mean wall-clock nanoseconds per iteration.
    pub mean_nanos: u128,
}

/// The ledger after `n` repetitions of one call, each committed exactly
/// when its verdict succeeds, as the engine commits them.
pub open spec fn ledger_after_calls(
    pre: Map<Seq<u8>, AccountView>,
    caller: Seq<u8>,
    target: Seq<u8>,
    value: nat,
    payload: Seq<u8>,
    gas_limit: nat,
    n: nat,
) -> Map<Seq<u8>, AccountView>
    decreases n,
{
    if n == 0 {
        pre
    } else {
        let prev = ledger_after_calls(pre, caller, target, value, payload, gas_limit, (n - 1) as nat);
        let verdict = evm_call_of(prev, caller, target, value, payload, gas_limit);
        if verdict.1 is Succeeded {
            verdict.0
        } else {
            prev
        }
    }
}

/// Relies on `std::time::SystemTime::now` and `duration_since`: a wall-clock
/// reading in nanoseconds. Nothing is promised of the value; the clock may
/// even step backwards between two readings.
#[verifier::external_body]
fn now_nanos() -> u128 {
    match std::time::SystemTime::now().duration_since(std::time::UNIX_EPOCH) {
        Ok(d) => d.as_nanos(),
        Err(_) => 0,
    }
}

/// Issues the call `iterations` times against the evolving state and reports
/// total and mean latency. The ledger afterwards is the `iterations`-fold
/// application of the call's verdict, each step committed exactly when it
/// succeeds. Zero iterations is a valid no-op run: it issues no call,
/// changes nothing, and reports zero. The mean is the integer quotient of
/// the total by the iteration count; the wall-clock figures themselves are
/// owed nothing more.
pub fn run_benchmark(engine: &mut Engine, spec: &CallSpec, iterations: u64) -> (r: BenchReport)
    requires
        spec.wf(),
    ensures
        r.iterations == iterations,
        final(engine).ledger() == ledger_after_calls(
            old(engine).ledger(),
            spec.caller@,
            spec.target@,
            spec.value.value(),
            spec.payload@,
            spec.gas_limit as nat,
            iterations as nat,
        ),
        iterations == 0 ==> r.total_nanos == 0 && r.mean_nanos == 0 && *final(engine) == *old(
            engine,
        ),
        iterations > 0 ==> r.mean_nanos == r.total_nanos / (iterations as u128),
        iterations > 0 ==> final(engine).has_executed(),
{
    if iterations == 0 {
        return BenchReport { iterations: 0, total_nanos: 0, mean_nanos: 0 };
    }
    let start = now_nanos();
    let mut done: u64 = 0;
    while done < iterations
        invariant
            spec.wf(),
            done <= iterations,
            iterations > 0,
            done > 0 ==> engine.has_executed(),
            engine.ledger() == ledger_after_calls(
                old(engine).ledger(),
                spec.caller@,
                spec.target@,
                spec.value.value(),
                spec.payload@,
                spec.gas_limit as nat,
                done as nat,
            ),
        decreases iterations - done,
    {
        let res = engine.call(&spec.caller, &spec.target, &spec.value, &spec.payload, spec.gas_limit);
        proof {
            assert(ledger_after_calls(
                old(engine).ledger(),
                spec.caller@,
                spec.target@,
                spec.value.value(),
                spec.payload@,
                spec.gas_limit as nat,
                (done + 1) as nat,
            ) == engine.ledger());
        }
        done = done + 1;
    }
    let end = now_nanos();
    let total_nanos = if end >= start {
        end - start
    } else {
        0
    };
    let mean_nanos = total_nanos / (iterations as u128);
    BenchReport { iterations, total_nanos, mean_nanos }
}

} // verus!
