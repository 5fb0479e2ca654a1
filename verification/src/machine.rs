//! The vault as a transition system over whole call sequences, and the laws
//! that hold along every sequence: the one-time initialization guard and the
//! net-accounting of the locked balance.
//!
//! `call_outcome` is the transition function; each executable operation's
//! `ensures` states that it refines `call_outcome`, so the trace laws proved
//! here hold of the executable vault.

use vstd::prelude::*;
use crate::contract::{
    deposit_allowed, withdraw_allowed, Address, VaultContract, VaultError, VaultState,
};

verus! {

/// One call of a state-mutating vault operation, with its arguments.
pub enum VaultCall {
    /// A call of `initialize`.
    Initialize { owner: Address, token_id: Address, unlock_timestamp: u64 },
    /// A call of `deposit`.
    Deposit { from: Address, amount: i128 },
    /// A call of `withdraw`.
    Withdraw { caller: Address, to: Address, amount: i128, now: u64 },
}

/// The state and result one call produces, exactly as the operations'
/// contracts state them.
pub open spec fn call_outcome(
    v: VaultContract,
    call: VaultCall,
) -> (VaultContract, Result<(), VaultError>) {
    match call {
        VaultCall::Initialize { owner, token_id, unlock_timestamp } => {
            if v.is_initialized() {
                (v, Err(VaultError::AlreadyInitialized))
            } else {
                (
                    VaultContract {
                        state: VaultState::Active {
                            owner,
                            token_id,
                            unlock_timestamp,
                            locked_amount: 0,
                        },
                    },
                    Ok(()),
                )
            }
        },
        VaultCall::Deposit { from, amount } => {
            if amount <= 0 {
                (v, Err(VaultError::InvalidAmount))
            } else if !v.is_initialized() {
                (v, Err(VaultError::NotInitialized))
            } else if v.locked_spec() + amount > i128::MAX {
                (v, Err(VaultError::Overflow))
            } else {
                (v.with_locked((v.locked_spec() + amount) as i128), Ok(()))
            }
        },
        VaultCall::Withdraw { caller, to, amount, now } => {
            if !v.is_initialized() {
                (v, Err(VaultError::NotInitialized))
            } else if caller != v.owner_spec() {
                (v, Err(VaultError::Unauthorized))
            } else if amount <= 0 {
                (v, Err(VaultError::InvalidAmount))
            } else if now < v.unlock_time_spec() {
                (v, Err(VaultError::StillLocked))
            } else if amount > v.locked_spec() {
                (v, Err(VaultError::InsufficientFunds))
            } else {
                (v.with_locked((v.locked_spec() - amount) as i128), Ok(()))
            }
        },
    }
}

/// The state after one call.
pub open spec fn step_state(v: VaultContract, call: VaultCall) -> VaultContract {
    call_outcome(v, call).0
}

/// The result of one call.
pub open spec fn step_result(v: VaultContract, call: VaultCall) -> Result<(), VaultError> {
    call_outcome(v, call).1
}

/// The state after a whole sequence of calls, failing calls included (a
/// failing call leaves the state as it was).
pub open spec fn run_calls(v: VaultContract, calls: Seq<VaultCall>) -> VaultContract
    decreases calls.len(),
{
    if calls.len() == 0 {
        v
    } else {
        step_state(run_calls(v, calls.drop_last()), calls.last())
    }
}

/// The net amount the successful calls of the sequence moved into the
/// vault: the sum of successfully deposited amounts minus the sum of
/// successfully withdrawn amounts. Failing calls and `initialize` move
/// nothing.
pub open spec fn net_moved(v: VaultContract, calls: Seq<VaultCall>) -> int
    decreases calls.len(),
{
    if calls.len() == 0 {
        0
    } else {
        let pre = run_calls(v, calls.drop_last());
        net_moved(v, calls.drop_last()) + if step_result(pre, calls.last()) is Ok {
            match calls.last() {
                VaultCall::Initialize { .. } => 0,
                VaultCall::Deposit { amount, .. } => amount as int,
                VaultCall::Withdraw { amount, .. } => -(amount as int),
            }
        } else {
            0
        }
    }
}

/// LAW: after any sequence of calls, the locked balance has changed by
/// exactly the sum of the successfully deposited amounts minus the sum of
/// the successfully withdrawn amounts, and is never negative. On a freshly
/// initialized vault (balance zero) the balance therefore always equals
/// that net.
pub proof fn lemma_locked_amount_is_net_of_calls(v: VaultContract, calls: Seq<VaultCall>)
    requires
        v.wf(),
    ensures
        run_calls(v, calls).wf(),
        run_calls(v, calls).locked_spec() == v.locked_spec() + net_moved(v, calls),
        run_calls(v, calls).locked_spec() >= 0,
    decreases calls.len(),
{
    if calls.len() > 0 {
        lemma_locked_amount_is_net_of_calls(v, calls.drop_last());
    }
}

/// LAW: `initialize` succeeds exactly once per instance. Once a vault is
/// active — as it is right after a successful `initialize` — no sequence of
/// calls deactivates it or changes its owner, asset or unlock time, and
/// every further `initialize`, whatever its arguments, fails with
/// `AlreadyInitialized` and changes nothing.
pub proof fn lemma_initialize_only_once(
    v: VaultContract,
    calls: Seq<VaultCall>,
    retry: VaultCall,
)
    requires
        v.is_initialized(),
        retry is Initialize,
    ensures
        run_calls(v, calls).is_initialized(),
        run_calls(v, calls).owner_spec() == v.owner_spec(),
        run_calls(v, calls).token_id_spec() == v.token_id_spec(),
        run_calls(v, calls).unlock_time_spec() == v.unlock_time_spec(),
        step_result(run_calls(v, calls), retry) == Err::<(), VaultError>(
            VaultError::AlreadyInitialized,
        ),
        step_state(run_calls(v, calls), retry) == run_calls(v, calls),
    decreases calls.len(),
{
    if calls.len() > 0 {
        lemma_initialize_only_once(v, calls.drop_last(), retry);
    }
}

} // verus!
