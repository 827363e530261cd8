//! The Lock unit: holds a balance for one owner and releases it, whole,
//! only after a deadline has strictly passed.

use vstd::prelude::*;

use crate::host::same_balances;
use crate::host::same_meta;
use crate::host::unchanged;
use crate::host::Host;
use crate::host::Identity;
use crate::host::Timestamp;
use crate::host::TransferError;
use crate::host::Value;

verus! {

/// Why an `unlock` invocation failed. Every failure is fatal to the
/// invocation: the host rolls all its effects back.
#[derive(Clone, Copy, Debug, PartialEq, Eq, Structural)]
pub enum LockError {
    /// The current timestamp is not strictly greater than the deadline.
    TooEarly,
    /// The caller is not the stored owner.
    Unauthorized,
    /// The payout would leave the owner below the host's dust threshold.
    BelowThreshold,
    /// The host reported any other transfer failure.
    TransferFailed,
}

/// A Lock unit's persistent storage. Both fields are set exactly once at
/// construction and never mutated; the unit's balance lives in the host's
/// ledger under the unit's address.
#[derive(Clone, Copy, Debug, PartialEq, Eq, Structural)]
pub struct Lock {
    /// The one identity authorized to withdraw.
    pub owner: Identity,
    /// The balance may leave only at a timestamp strictly greater than this.
    pub unlock_after: Timestamp,
}

/// The full behavior of [`Lock::unlock`], as one relation between the host
/// state before the call (`h0`), the state after it (`h1`) and the result.
/// Exactly one arm's conditions hold of any call, so the relation pins the
/// result down; every failing arm leaves the host exactly as it was.
pub open spec fn unlock_post(
    l: Lock,
    self_addr: Identity,
    caller: Identity,
    attached: Value,
    h0: Host,
    h1: Host,
    r: Result<(), LockError>,
) -> bool {
    match r {
        Ok(()) => {
            &&& h0.now > l.unlock_after
            &&& caller == l.owner
            &&& same_meta(h0, h1)
            &&& h1.locks@ == h0.locks@
            &&& if l.owner == self_addr || h0.bal(self_addr) + attached == 0 {
                same_balances(h0, h1)
            } else {
                &&& h0.bal(l.owner) + h0.bal(self_addr) <= u128::MAX
                &&& h0.bal(l.owner) + h0.bal(self_addr) >= h0.dust
                &&& h1.bal(self_addr) == 0
                &&& h1.bal(l.owner) == h0.bal(l.owner) + h0.bal(self_addr)
                &&& forall|x: Identity|
                    x != self_addr && x != l.owner ==> h1.bal(x) == h0.bal(x)
            }
        },
        Err(LockError::TooEarly) => {
            &&& unchanged(h0, h1)
            &&& h0.now <= l.unlock_after
        },
        Err(LockError::Unauthorized) => {
            &&& unchanged(h0, h1)
            &&& h0.now > l.unlock_after
            &&& caller != l.owner
        },
        Err(LockError::BelowThreshold) => {
            &&& unchanged(h0, h1)
            &&& h0.now > l.unlock_after
            &&& caller == l.owner
            &&& l.owner != self_addr
            &&& h0.bal(self_addr) + attached > 0
            &&& h0.bal(l.owner) + h0.bal(self_addr) <= u128::MAX
            &&& h0.bal(l.owner) + h0.bal(self_addr) < h0.dust
        },
        Err(LockError::TransferFailed) => {
            &&& unchanged(h0, h1)
            &&& h0.now > l.unlock_after
            &&& caller == l.owner
            &&& l.owner != self_addr
            &&& h0.bal(self_addr) + attached > 0
            &&& h0.bal(l.owner) + h0.bal(self_addr) > u128::MAX
        },
    }
}

impl Lock {
    /// Constructs the unit's storage from its constructor arguments.
    pub fn new(owner: Identity, unlock_after: Timestamp) -> (l: Lock)
        ensures
            l.owner == owner,
            l.unlock_after == unlock_after,
    {
        Lock { owner, unlock_after }
    }

    /// Authorized withdrawal. The host hands the unit the caller's identity
    /// and the value attached to the call; the current timestamp is read from
    /// the host. In this fixed order: the deadline must have strictly passed
    /// (else `TooEarly`), the caller must be the owner (else `Unauthorized`);
    /// then the unit's entire balance, attached value included, is
    /// transferred to the owner. On any failure the host rolls the whole
    /// invocation back, attached value included.
    ///
    /// The two `requires` are the host's own call preconditions: a caller can
    /// attach only value it holds, and the unit's balance stays representable.
    pub fn unlock(
        &self,
        host: &mut Host,
        self_addr: Identity,
        caller: Identity,
        attached: Value,
    ) -> (r: Result<(), LockError>)
        requires
            attached <= old(host).bal(caller),
            caller != self_addr ==> old(host).bal(self_addr) + attached <= u128::MAX,
        ensures
            unlock_post(*self, self_addr, caller, attached, *old(host), *final(host), r),
    {
        let now = host.now;
        if !(now > self.unlock_after) {
            return Err(LockError::TooEarly);
        }
        if caller != self.owner {
            return Err(LockError::Unauthorized);
        }
        host.move_value(caller, self_addr, attached);
        let amount = host.balance_of(self_addr);
        match host.transfer(self_addr, self.owner, amount) {
            Ok(()) => Ok(()),
            Err(TransferError::BelowThreshold) => {
                host.move_value(self_addr, caller, attached);
                Err(LockError::BelowThreshold)
            },
            Err(TransferError::Other) => {
                host.move_value(self_addr, caller, attached);
                Err(LockError::TransferFailed)
            },
        }
    }

    /// Read-only: the unit's current host-held balance. No preconditions,
    /// no side effects.
    pub fn balance(&self, host: &Host, self_addr: Identity) -> (r: Value)
        ensures
            r == host.bal(self_addr),
    {
        host.balance_of(self_addr)
    }
}

/// A successful `unlock` happened only because, at the moment of the call,
/// the deadline had strictly passed and the caller was the owner; and
/// immediately after it the unit's balance is zero.
pub proof fn lemma_successful_unlock_drains(
    l: Lock,
    self_addr: Identity,
    caller: Identity,
    attached: Value,
    h0: Host,
    h1: Host,
    r: Result<(), LockError>,
)
    requires
        unlock_post(l, self_addr, caller, attached, h0, h1, r),
        r is Ok,
        l.owner != self_addr,
    ensures
        h0.now > l.unlock_after,
        caller == l.owner,
        h1.bal(self_addr) == 0,
{
}

/// A failed `unlock` leaves the host exactly as it was: the unit's balance,
/// the owner's balance, every other balance, the unit registry and the
/// host's clock and rules are all unchanged.
pub proof fn lemma_failed_unlock_changes_nothing(
    l: Lock,
    self_addr: Identity,
    caller: Identity,
    attached: Value,
    h0: Host,
    h1: Host,
    r: Result<(), LockError>,
)
    requires
        unlock_post(l, self_addr, caller, attached, h0, h1, r),
        !(r is Ok),
    ensures
        unchanged(h0, h1),
        h1.bal(self_addr) == h0.bal(self_addr),
        h1.bal(l.owner) == h0.bal(l.owner),
{
}

/// `balance` reads are stable: between state-changing calls the host state is
/// one value, and any two reads of a balance of that one state — what
/// [`Lock::balance`]'s `ensures` pins each result to — are equal.
pub proof fn lemma_balance_reads_are_stable(host: Host, self_addr: Identity, r1: Value, r2: Value)
    requires
        r1 == host.bal(self_addr),
        r2 == host.bal(self_addr),
    ensures
        r1 == r2,
{
}

/// Two successive successful `unlock` calls with nothing attached: the first
/// drains the unit, so the second transfers zero — the owner's balance, and
/// every other, is exactly what the first call left.
pub proof fn lemma_second_unlock_transfers_zero(
    l: Lock,
    self_addr: Identity,
    h0: Host,
    h1: Host,
    h2: Host,
    r1: Result<(), LockError>,
    r2: Result<(), LockError>,
)
    requires
        l.owner != self_addr,
        unlock_post(l, self_addr, l.owner, 0, h0, h1, r1),
        r1 is Ok,
        unlock_post(l, self_addr, l.owner, 0, h1, h2, r2),
        r2 is Ok,
    ensures
        h2.bal(l.owner) == h1.bal(l.owner),
        same_balances(h1, h2),
{
}

/// At exactly `now == unlock_after` an `unlock` fails with `TooEarly`: the
/// deadline comparison is strict.
pub proof fn lemma_unlock_at_deadline_is_too_early(
    l: Lock,
    self_addr: Identity,
    caller: Identity,
    attached: Value,
    h0: Host,
    h1: Host,
    r: Result<(), LockError>,
)
    requires
        unlock_post(l, self_addr, caller, attached, h0, h1, r),
        h0.now == l.unlock_after,
    ensures
        r == Err::<(), LockError>(LockError::TooEarly),
        unchanged(h0, h1),
{
}

/// At `now == unlock_after + 1` an authorized `unlock` succeeds, provided the
/// payout itself can land: the combined balance of owner and unit must be
/// representable, and — unless there is nothing to pay out — must not sit
/// below the host's dust threshold.
pub proof fn lemma_unlock_past_deadline_succeeds(
    l: Lock,
    self_addr: Identity,
    attached: Value,
    h0: Host,
    h1: Host,
    r: Result<(), LockError>,
)
    requires
        unlock_post(l, self_addr, l.owner, attached, h0, h1, r),
        h0.now == l.unlock_after + 1,
        l.owner != self_addr ==> h0.bal(l.owner) + h0.bal(self_addr) <= u128::MAX,
        l.owner != self_addr && h0.bal(self_addr) + attached > 0 ==> h0.bal(l.owner) + h0.bal(
            self_addr,
        ) >= h0.dust,
    ensures
        r is Ok,
{
}

} // verus!
