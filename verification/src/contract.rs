//! The vault state machine: lifecycle, authorization and accounting rules.

use vstd::prelude::*;
use crate::machine::{call_outcome, VaultCall};

verus! {

/// An identity handle: an account or contract identifier as the host's
/// identity system hands it out. The vault only stores these and compares
/// them for equality; proving that a caller actually controls an identity is
/// the host's cryptographic authentication, done before the vault is asked
/// to act.
#[derive(Clone, Copy, Debug, PartialEq, Eq, Structural)]
pub struct Address(pub u64);

/// Every way a vault operation can be refused. Each operation reports the
/// first failing check and leaves the state unchanged.
#[derive(Clone, Copy, Debug, PartialEq, Eq, Structural)]
pub enum VaultError {
    /// `initialize` was called on a vault that is already active.
    AlreadyInitialized,
    /// An operation other than `initialize` or `get_locked_amount` was
    /// called before the vault was initialized.
    NotInitialized,
    /// `withdraw` was called by an identity other than the stored owner.
    Unauthorized,
    /// A deposit or withdrawal amount was zero or negative.
    InvalidAmount,
    /// `withdraw` was called before the unlock time.
    StillLocked,
    /// `withdraw` asked for more than the current locked balance.
    InsufficientFunds,
    /// Crediting a deposit would exceed the representable balance range.
    Overflow,
    /// Debiting a withdrawal would fall below the representable balance
    /// range. Defensive: the balance checks make this unreachable, but the
    /// guard stays so that no invariant violation elsewhere could ever
    /// corrupt the ledger silently.
    Underflow,
}

/// The names of the four persistent fields of a vault, the keys under which
/// a host's key/value store files them.
#[derive(Clone, Copy, Debug, PartialEq, Eq, Structural)]
pub enum DataKey {
    /// The identity allowed to withdraw.
    Owner,
    /// The identity of the asset the vault custodies.
    TokenId,
    /// The timestamp (seconds) from which withdrawals are allowed.
    UnlockTimestamp,
    /// The balance currently locked in the vault.
    LockedAmount,
}

/// The vault's lifecycle, kept as a tagged variant so that a partially
/// initialized state is unrepresentable: either nothing is set, or all four
/// fields are.
#[derive(Clone, Copy, Debug)]
pub enum VaultState {
    /// `initialize` has not run yet.
    Uninitialized,
    /// `initialize` has run; this state is terminal and only
    /// `locked_amount` ever changes again.
    Active {
        /// The identity allowed to withdraw; immutable once set.
        owner: Address,
        /// The asset the vault custodies; immutable once set.
        token_id: Address,
        /// Withdrawals are refused before this time; immutable once set.
        unlock_timestamp: u64,
        /// The custodied balance: the net of all successful deposits and
        /// withdrawals, never negative.
        locked_amount: i128,
    },
}

/// A deposit of `amount` on a balance of `locked` succeeds exactly when the
/// amount is strictly positive and crediting it stays in range.
pub open spec fn deposit_allowed(locked: int, amount: int) -> bool {
    0 < amount && locked + amount <= i128::MAX
}

/// A withdrawal of `amount` from a balance of `locked` succeeds exactly when
/// the amount is strictly positive and covered by the balance (authorization
/// and timing are checked separately).
pub open spec fn withdraw_allowed(locked: int, amount: int) -> bool {
    0 < amount && amount <= locked
}

/// One vault instance: the whole contract is this single state machine.
#[derive(Clone, Copy, Debug)]
pub struct VaultContract {
    /// The persistent state of the instance.
    pub state: VaultState,
}

impl VaultContract {
    /// Whether `initialize` has already run.
    pub open spec fn is_initialized(self) -> bool {
        self.state is Active
    }

    /// The stored owner identity; meaningful only once initialized.
    pub open spec fn owner_spec(self) -> Address {
        self.state->owner
    }

    /// The stored asset identity; meaningful only once initialized.
    pub open spec fn token_id_spec(self) -> Address {
        self.state->token_id
    }

    /// The stored unlock time; meaningful only once initialized.
    pub open spec fn unlock_time_spec(self) -> u64 {
        self.state->unlock_timestamp
    }

    /// The locked balance as a mathematical integer; zero before
    /// initialization.
    pub open spec fn locked_spec(self) -> int {
        if self.state is Active {
            self.state->locked_amount as int
        } else {
            0
        }
    }

    /// The same vault with only the locked balance replaced; meaningful
    /// only once initialized.
    pub open spec fn with_locked(self, locked_amount: i128) -> VaultContract {
        VaultContract {
            state: VaultState::Active {
                owner: self.owner_spec(),
                token_id: self.token_id_spec(),
                unlock_timestamp: self.unlock_time_spec(),
                locked_amount,
            },
        }
    }

    /// Well-formedness: an active vault never holds a negative balance.
    /// Constructors establish it and every operation preserves it.
    pub open spec fn wf(self) -> bool {
        self.is_initialized() ==> self.locked_spec() >= 0
    }

    /// A fresh, never-initialized vault instance.
    pub fn new() -> (v: VaultContract)
        ensures
            !v.is_initialized(),
            v.wf(),
    {
        VaultContract { state: VaultState::Uninitialized }
    }

    /// Sets up the vault exactly once: records the owner, the custodied
    /// asset and the unlock time, and starts the locked balance at zero.
    /// Fails with `AlreadyInitialized`, changing nothing, on every call
    /// after the first successful one.
    ///
    /// Deliberately requires no authorization of its own, so whoever calls
    /// it first becomes the permanent owner. A deployment whose flow does
    /// not restrict who may make that first call leaves the vault open to
    /// being claimed by a stranger; whether to demand that the deployer be
    /// the caller is left open here.
    pub fn initialize(
        &mut self,
        owner: Address,
        token_id: Address,
        unlock_timestamp: u64,
    ) -> (r: Result<(), VaultError>)
        requires
            old(self).wf(),
        ensures
            final(self).wf(),
            r is Ok <==> !old(self).is_initialized(),
            r is Ok ==> final(self).state == (VaultState::Active {
                owner,
                token_id,
                unlock_timestamp,
                locked_amount: 0i128,
            }),
            r is Err ==> r == Err::<(), VaultError>(VaultError::AlreadyInitialized)
                && *final(self) == *old(self),
            (*final(self), r) == call_outcome(
                *old(self),
                (VaultCall::Initialize { owner, token_id, unlock_timestamp }),
            ),
    {
        match self.state {
            VaultState::Active { .. } => Err(VaultError::AlreadyInitialized),
            VaultState::Uninitialized => {
                self.state = VaultState::Active {
                    owner,
                    token_id,
                    unlock_timestamp,
                    locked_amount: 0,
                };
                Ok(())
            },
        }
    }

    /// Credits a deposit by `from` to the vault. Any account may deposit
    /// (the host authenticates that the caller is `from`, and moves the
    /// asset from `from` into the vault's custody, around this call). Fails
    /// with `InvalidAmount` on a non-positive amount, `NotInitialized`
    /// before `initialize`, and `Overflow` when crediting would leave the
    /// representable balance range; every failure leaves the state
    /// unchanged.
    pub fn deposit(&mut self, from: Address, amount: i128) -> (r: Result<(), VaultError>)
        requires
            old(self).wf(),
        ensures
            final(self).wf(),
            r is Ok <==> old(self).is_initialized()
                && deposit_allowed(old(self).locked_spec(), amount as int),
            r is Ok ==> final(self).is_initialized()
                && final(self).owner_spec() == old(self).owner_spec()
                && final(self).token_id_spec() == old(self).token_id_spec()
                && final(self).unlock_time_spec() == old(self).unlock_time_spec()
                && final(self).locked_spec() == old(self).locked_spec() + amount,
            amount <= 0 ==> r == Err::<(), VaultError>(VaultError::InvalidAmount),
            amount > 0 && !old(self).is_initialized()
                ==> r == Err::<(), VaultError>(VaultError::NotInitialized),
            amount > 0 && old(self).is_initialized()
                && old(self).locked_spec() + amount > i128::MAX
                ==> r == Err::<(), VaultError>(VaultError::Overflow),
            r is Err ==> *final(self) == *old(self),
            (*final(self), r) == call_outcome(*old(self), (VaultCall::Deposit { from, amount })),
    {
        if amount <= 0 {
            return Err(VaultError::InvalidAmount);
        }
        match self.state {
            VaultState::Uninitialized => Err(VaultError::NotInitialized),
            VaultState::Active { owner, token_id, unlock_timestamp, locked_amount } => {
                match locked_amount.checked_add(amount) {
                    None => Err(VaultError::Overflow),
                    Some(new_amount) => {
                        self.state = VaultState::Active {
                            owner,
                            token_id,
                            unlock_timestamp,
                            locked_amount: new_amount,
                        };
                        Ok(())
                    },
                }
            },
        }
    }

    /// Debits a withdrawal to `to`, on behalf of `caller`, at host time
    /// `now` (the host authenticates that the call was authorized by
    /// `caller`, and moves the asset from the vault's custody to `to`,
    /// around this call). The checks run in order, each failure leaving the
    /// state unchanged: `NotInitialized` before `initialize`; `Unauthorized`
    /// unless `caller` is the stored owner; `InvalidAmount` on a
    /// non-positive amount; `StillLocked` while `now` is before the unlock
    /// time; `InsufficientFunds` when the amount exceeds the locked balance;
    /// and a defensive `Underflow` guard on the final debit, unreachable
    /// given the checks before it.
    pub fn withdraw(
        &mut self,
        caller: Address,
        to: Address,
        amount: i128,
        now: u64,
    ) -> (r: Result<(), VaultError>)
        requires
            old(self).wf(),
        ensures
            final(self).wf(),
            r is Ok <==> old(self).is_initialized()
                && caller == old(self).owner_spec()
                && now >= old(self).unlock_time_spec()
                && withdraw_allowed(old(self).locked_spec(), amount as int),
            r is Ok ==> final(self).is_initialized()
                && final(self).owner_spec() == old(self).owner_spec()
                && final(self).token_id_spec() == old(self).token_id_spec()
                && final(self).unlock_time_spec() == old(self).unlock_time_spec()
                && final(self).locked_spec() == old(self).locked_spec() - amount,
            !old(self).is_initialized()
                ==> r == Err::<(), VaultError>(VaultError::NotInitialized),
            old(self).is_initialized() && caller != old(self).owner_spec()
                ==> r == Err::<(), VaultError>(VaultError::Unauthorized),
            old(self).is_initialized() && caller == old(self).owner_spec() && amount <= 0
                ==> r == Err::<(), VaultError>(VaultError::InvalidAmount),
            old(self).is_initialized() && caller == old(self).owner_spec() && amount > 0
                && now < old(self).unlock_time_spec()
                ==> r == Err::<(), VaultError>(VaultError::StillLocked),
            old(self).is_initialized() && caller == old(self).owner_spec() && amount > 0
                && now >= old(self).unlock_time_spec()
                && amount > old(self).locked_spec()
                ==> r == Err::<(), VaultError>(VaultError::InsufficientFunds),
            r is Err ==> *final(self) == *old(self),
            (*final(self), r) == call_outcome(
                *old(self),
                (VaultCall::Withdraw { caller, to, amount, now }),
            ),
    {
        match self.state {
            VaultState::Uninitialized => Err(VaultError::NotInitialized),
            VaultState::Active { owner, token_id, unlock_timestamp, locked_amount } => {
                if caller != owner {
                    return Err(VaultError::Unauthorized);
                }
                if amount <= 0 {
                    return Err(VaultError::InvalidAmount);
                }
                if now < unlock_timestamp {
                    return Err(VaultError::StillLocked);
                }
                if amount > locked_amount {
                    return Err(VaultError::InsufficientFunds);
                }
                match locked_amount.checked_sub(amount) {
                    None => Err(VaultError::Underflow),
                    Some(new_amount) => {
                        self.state = VaultState::Active {
                            owner,
                            token_id,
                            unlock_timestamp,
                            locked_amount: new_amount,
                        };
                        Ok(())
                    },
                }
            },
        }
    }

    /// The locked balance; zero on a never-initialized vault (the one read
    /// allowed to succeed before `initialize`).
    pub fn get_locked_amount(&self) -> (r: i128)
        ensures
            r as int == self.locked_spec(),
    {
        match self.state {
            VaultState::Uninitialized => 0,
            VaultState::Active { locked_amount, .. } => locked_amount,
        }
    }

    /// The stored unlock time; `NotInitialized` before `initialize`.
    pub fn get_unlock_time(&self) -> (r: Result<u64, VaultError>)
        ensures
            r == if self.is_initialized() {
                Ok::<u64, VaultError>(self.unlock_time_spec())
            } else {
                Err::<u64, VaultError>(VaultError::NotInitialized)
            },
    {
        match self.state {
            VaultState::Uninitialized => Err(VaultError::NotInitialized),
            VaultState::Active { unlock_timestamp, .. } => Ok(unlock_timestamp),
        }
    }

    /// The stored owner identity; `NotInitialized` before `initialize`.
    pub fn get_owner(&self) -> (r: Result<Address, VaultError>)
        ensures
            r == if self.is_initialized() {
                Ok::<Address, VaultError>(self.owner_spec())
            } else {
                Err::<Address, VaultError>(VaultError::NotInitialized)
            },
    {
        match self.state {
            VaultState::Uninitialized => Err(VaultError::NotInitialized),
            VaultState::Active { owner, .. } => Ok(owner),
        }
    }

    /// The stored asset identity; `NotInitialized` before `initialize`.
    pub fn get_token_id(&self) -> (r: Result<Address, VaultError>)
        ensures
            r == if self.is_initialized() {
                Ok::<Address, VaultError>(self.token_id_spec())
            } else {
                Err::<Address, VaultError>(VaultError::NotInitialized)
            },
    {
        match self.state {
            VaultState::Uninitialized => Err(VaultError::NotInitialized),
            VaultState::Active { token_id, .. } => Ok(token_id),
        }
    }
}

} // verus!
