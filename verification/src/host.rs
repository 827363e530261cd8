//! A model of the ledger host: the deterministic transaction-execution
//! environment that keeps every account's balance, the current block
//! timestamp, and the storage of every Lock unit it has materialized.
//!
//! The two escrow units never touch balances themselves; everything moves
//! through the host's primitives below, whose contracts state exactly which
//! calls succeed and what every outcome does to the ledger.

use std::collections::HashMap;
use vstd::prelude::*;

use crate::lock::Lock;

verus! {

broadcast use vstd::std_specs::hash::group_hash_axioms;

/// A participant or unit address: an opaque fixed-width tag, compared bitwise.
pub type Identity = u64;

/// A nonnegative quantity of the host's native fungible asset.
pub type Value = u128;

/// A block timestamp in host ticks, nondecreasing across invocations.
pub type Timestamp = u64;

/// A content-addressed tag naming a deployable unit template.
pub type CodeDigest = u64;

/// A per-call ingredient of deterministic child-address derivation.
pub type Salt = u64;

/// How the host's transfer primitive can fail.
#[derive(Clone, Copy, Debug, PartialEq, Eq, Structural)]
pub enum TransferError {
    /// The transfer would leave the recipient below the dust threshold.
    BelowThreshold,
    /// Any other failure: the sender cannot cover the amount, or the
    /// recipient's balance cannot represent the result.
    Other,
}

/// How the host's deploy-child primitive can fail.
#[derive(Clone, Copy, Debug, PartialEq, Eq, Structural)]
pub enum DeployError {
    /// The digest names no template this host can instantiate.
    UnknownCode,
    /// The derived address is already occupied by a unit.
    AddressCollision,
    /// The parent cannot cover the endowment, or the endowment cannot land.
    Rejected,
}

/// The ledger host's whole observable state.
pub struct Host {
    /// The balance held for each account; an account never credited holds zero.
    pub balances: HashMap<Identity, Value>,
    /// The storage of every Lock unit materialized so far, by address.
    pub locks: HashMap<Identity, Lock>,
    /// The current block timestamp.
    pub now: Timestamp,
    /// The minimum balance a transfer may leave its recipient with.
    pub dust: Value,
    /// The one code digest this host can instantiate: the Lock template.
    pub lock_digest: CodeDigest,
}

impl Host {
    /// The balance the host holds for `a`.
    pub open spec fn bal(self, a: Identity) -> Value {
        if self.balances@.contains_key(a) {
            self.balances@[a]
        } else {
            0
        }
    }
}

/// Every account holds in `h1` what it held in `h0`.
pub open spec fn same_balances(h0: Host, h1: Host) -> bool {
    forall|a: Identity| h0.bal(a) == h1.bal(a)
}

/// Timestamp, dust threshold and known template are the same in both states.
pub open spec fn same_meta(h0: Host, h1: Host) -> bool {
    &&& h1.now == h0.now
    &&& h1.dust == h0.dust
    &&& h1.lock_digest == h0.lock_digest
}

/// Nothing observable distinguishes the two states: a rolled-back invocation.
pub open spec fn unchanged(h0: Host, h1: Host) -> bool {
    &&& same_balances(h0, h1)
    &&& same_meta(h0, h1)
    &&& h1.locks@ == h0.locks@
}

/// Deterministic child-address derivation: a fixed mixing of the parent's
/// address, the template digest and the salt. For one parent and digest,
/// distinct salts give distinct addresses.
pub open spec fn derive_spec(parent: Identity, digest: CodeDigest, salt: Salt) -> Identity {
    parent ^ digest ^ salt
}

/// Whether a deploy-child call succeeds in state `h`: the digest must name
/// the template the host knows, the derived address must be free, the parent
/// must cover the endowment, and the endowment must land representably.
pub open spec fn deploy_ok(
    h: Host,
    parent: Identity,
    digest: CodeDigest,
    endowment: Value,
    salt: Salt,
) -> bool {
    let addr = derive_spec(parent, digest, salt);
    &&& digest == h.lock_digest
    &&& !h.locks@.contains_key(addr)
    &&& endowment <= h.bal(parent)
    &&& (addr == parent || h.bal(addr) + endowment <= u128::MAX)
}

impl Host {
    /// A fresh host: no balances, no units, timestamp zero.
    pub fn new(dust: Value, lock_digest: CodeDigest) -> (h: Host)
        ensures
            h.now == 0,
            h.dust == dust,
            h.lock_digest == lock_digest,
            forall|a: Identity| h.bal(a) == 0,
            h.locks@ == Map::<Identity, Lock>::empty(),
    {
        Host { balances: HashMap::new(), locks: HashMap::new(), now: 0, dust, lock_digest }
    }

    /// Any account's current host-held balance.
    pub fn balance_of(&self, a: Identity) -> (r: Value)
        ensures
            r == self.bal(a),
    {
        match self.balances.get(&a) {
            Some(v) => *v,
            None => 0,
        }
    }

    /// Writes one account's balance; the host's own bookkeeping step.
    fn set_balance(&mut self, a: Identity, v: Value)
        ensures
            final(self).bal(a) == v,
            forall|x: Identity| x != a ==> final(self).bal(x) == old(self).bal(x),
            same_meta(*old(self), *final(self)),
            final(self).locks@ == old(self).locks@,
    {
        self.balances.insert(a, v);
    }

    /// Host-mediated inbound payment: credits `to` from outside the model.
    pub fn fund(&mut self, to: Identity, amount: Value)
        requires
            old(self).bal(to) + amount <= u128::MAX,
        ensures
            final(self).bal(to) == old(self).bal(to) + amount,
            forall|x: Identity| x != to ==> final(self).bal(x) == old(self).bal(x),
            same_meta(*old(self), *final(self)),
            final(self).locks@ == old(self).locks@,
    {
        let b = self.balance_of(to);
        self.set_balance(to, b + amount);
    }

    /// Moves the block timestamp forward; the host clock never goes back.
    pub fn advance_time(&mut self, t: Timestamp)
        requires
            t >= old(self).now,
        ensures
            final(self).now == t,
            final(self).dust == old(self).dust,
            final(self).lock_digest == old(self).lock_digest,
            same_balances(*old(self), *final(self)),
            final(self).locks@ == old(self).locks@,
    {
        self.now = t;
    }

    /// Unconditional movement of value, used by the host's own call plumbing:
    /// absorbing a call's attached value, and rolling that absorption back.
    pub(crate) fn move_value(&mut self, from: Identity, to: Identity, amount: Value)
        requires
            amount <= old(self).bal(from),
            from != to ==> old(self).bal(to) + amount <= u128::MAX,
        ensures
            same_meta(*old(self), *final(self)),
            final(self).locks@ == old(self).locks@,
            if from == to {
                same_balances(*old(self), *final(self))
            } else {
                &&& final(self).bal(from) == old(self).bal(from) - amount
                &&& final(self).bal(to) == old(self).bal(to) + amount
                &&& forall|x: Identity|
                    x != from && x != to ==> final(self).bal(x) == old(self).bal(x)
            },
    {
        if from != to {
            let bf = self.balance_of(from);
            let bt = self.balance_of(to);
            self.set_balance(from, bf - amount);
            self.set_balance(to, bt + amount);
        }
    }

    /// The host's transfer primitive. A zero amount or a self-transfer the
    /// sender can cover succeeds without effect; otherwise the sender must
    /// cover the amount, the recipient's new balance must be representable,
    /// and it must not sit below the dust threshold.
    pub fn transfer(&mut self, from: Identity, to: Identity, amount: Value) -> (r: Result<
        (),
        TransferError,
    >)
        ensures
            same_meta(*old(self), *final(self)),
            final(self).locks@ == old(self).locks@,
            match r {
                Ok(()) => {
                    &&& amount <= old(self).bal(from)
                    &&& if from == to || amount == 0 {
                        same_balances(*old(self), *final(self))
                    } else {
                        &&& old(self).bal(to) + amount <= u128::MAX
                        &&& old(self).bal(to) + amount >= old(self).dust
                        &&& final(self).bal(from) == old(self).bal(from) - amount
                        &&& final(self).bal(to) == old(self).bal(to) + amount
                        &&& forall|x: Identity|
                            x != from && x != to ==> final(self).bal(x) == old(self).bal(x)
                    }
                },
                Err(TransferError::Other) => {
                    &&& same_balances(*old(self), *final(self))
                    &&& (amount > old(self).bal(from) || (from != to && amount > 0 && old(
                        self,
                    ).bal(to) + amount > u128::MAX))
                },
                Err(TransferError::BelowThreshold) => {
                    &&& same_balances(*old(self), *final(self))
                    &&& amount <= old(self).bal(from)
                    &&& from != to
                    &&& amount > 0
                    &&& old(self).bal(to) + amount <= u128::MAX
                    &&& old(self).bal(to) + amount < old(self).dust
                },
            },
    {
        let bf = self.balance_of(from);
        if amount > bf {
            return Err(TransferError::Other);
        }
        if from == to || amount == 0 {
            return Ok(());
        }
        let bt = self.balance_of(to);
        if bt > u128::MAX - amount {
            return Err(TransferError::Other);
        }
        let bt_new = bt + amount;
        if bt_new < self.dust {
            return Err(TransferError::BelowThreshold);
        }
        self.set_balance(from, bf - amount);
        self.set_balance(to, bt_new);
        Ok(())
    }

    /// The host's deploy-child primitive, specialized to the one template it
    /// knows: materializes a Lock at the derived address, runs the Lock
    /// constructor on the given arguments, and moves the endowment from the
    /// parent to the child.
    pub fn deploy_lock(
        &mut self,
        parent: Identity,
        digest: CodeDigest,
        owner: Identity,
        unlock_after: Timestamp,
        endowment: Value,
        salt: Salt,
    ) -> (r: Result<Identity, DeployError>)
        ensures
            same_meta(*old(self), *final(self)),
            match r {
                Ok(addr) => {
                    &&& deploy_ok(*old(self), parent, digest, endowment, salt)
                    &&& addr == derive_spec(parent, digest, salt)
                    &&& final(self).locks@ == old(self).locks@.insert(
                        addr,
                        (Lock { owner, unlock_after }),
                    )
                    &&& if addr == parent {
                        same_balances(*old(self), *final(self))
                    } else {
                        &&& final(self).bal(parent) == old(self).bal(parent) - endowment
                        &&& final(self).bal(addr) == old(self).bal(addr) + endowment
                        &&& forall|x: Identity|
                            x != parent && x != addr ==> final(self).bal(x) == old(self).bal(x)
                    }
                },
                Err(e) => {
                    &&& unchanged(*old(self), *final(self))
                    &&& !deploy_ok(*old(self), parent, digest, endowment, salt)
                    &&& match e {
                        DeployError::UnknownCode => digest != old(self).lock_digest,
                        DeployError::AddressCollision => {
                            &&& digest == old(self).lock_digest
                            &&& old(self).locks@.contains_key(derive_spec(parent, digest, salt))
                        },
                        DeployError::Rejected => {
                            let addr = derive_spec(parent, digest, salt);
                            &&& digest == old(self).lock_digest
                            &&& !old(self).locks@.contains_key(addr)
                            &&& (endowment > old(self).bal(parent) || (addr != parent && old(
                                self,
                            ).bal(addr) + endowment > u128::MAX))
                        },
                    }
                },
            },
    {
        if digest != self.lock_digest {
            return Err(DeployError::UnknownCode);
        }
        let addr = derive_address(parent, digest, salt);
        if self.locks.contains_key(&addr) {
            return Err(DeployError::AddressCollision);
        }
        let bp = self.balance_of(parent);
        if endowment > bp {
            return Err(DeployError::Rejected);
        }
        if addr != parent {
            let ba = self.balance_of(addr);
            if ba > u128::MAX - endowment {
                return Err(DeployError::Rejected);
            }
        }
        let child = Lock::new(owner, unlock_after);
        self.locks.insert(addr, child);
        self.move_value(parent, addr, endowment);
        Ok(addr)
    }
}

/// The executable form of [`derive_spec`]: what address the host will give a
/// child deployed by `parent` from template `digest` with `salt`.
pub fn derive_address(parent: Identity, digest: CodeDigest, salt: Salt) -> (r: Identity)
    ensures
        r == derive_spec(parent, digest, salt),
{
    parent ^ digest ^ salt
}

} // verus!
