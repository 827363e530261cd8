//! The Factory (lockdrop) unit: accepts a deposit, instantiates a fresh Lock
//! unit parameterized to the depositor, and forwards the funds into it.

use vstd::prelude::*;

use crate::host::derive_spec;
use crate::host::same_meta;
use crate::host::unchanged;
use crate::host::CodeDigest;
use crate::host::Host;
use crate::host::Identity;
use crate::host::Salt;
use crate::host::Timestamp;
use crate::host::Value;
use crate::lock::Lock;

verus! {

/// How much of a deposit endows the child Lock.
#[derive(Clone, Copy, Debug, PartialEq, Eq, Structural)]
pub enum Policy {
    /// The entire deposit endows the child.
    FullForward,
    /// Half the deposit (rounded down) endows the child; the remainder stays
    /// with the factory, with no path back out.
    HalfRetain,
}

/// The share of deposit `v` that a factory under policy `p` endows its child
/// with.
pub open spec fn endowment_of(p: Policy, v: Value) -> Value {
    match p {
        Policy::FullForward => v,
        Policy::HalfRetain => v / 2,
    }
}

/// Why a `lock` invocation failed. Every failure is fatal to the invocation:
/// the host rolls all its effects back.
#[derive(Clone, Copy, Debug, PartialEq, Eq, Structural)]
pub enum FactoryError {
    /// The host could not deploy the child: unknown code digest, or an
    /// address collision with an existing unit, or the endowment could not
    /// be applied.
    InstantiationFailed,
    /// The deployed child's observed balance fell short of the intended
    /// endowment.
    EndowmentMismatch,
}

/// The Factory unit's persistent storage. The digest, delay and policy are
/// set once at construction and never mutated; the salt counter advances by
/// one for each child successfully instantiated, so that no two calls derive
/// the same child address.
pub struct Lockdrop {
    /// The code digest of the Lock template each child is deployed from.
    pub lock_code_digest: CodeDigest,
    /// The delay, in host ticks, between a deposit and its unlock deadline.
    pub delta: Timestamp,
    /// How much of each deposit endows the child.
    pub policy: Policy,
    /// The salt the next `lock` call will use.
    pub next_salt: Salt,
}

/// Whether the host will accept the factory's deploy-child call, judged
/// against the host state `h0` before the invocation (the attached value is
/// absorbed into the factory's own balance before the child is deployed, so
/// the factory always covers the endowment; what remains is that the digest
/// names the host's template, the derived address is free, and the endowment
/// lands representably).
pub open spec fn instantiation_ok(
    f: Lockdrop,
    self_addr: Identity,
    caller: Identity,
    attached: Value,
    salt: Salt,
    h0: Host,
) -> bool {
    let addr = derive_spec(self_addr, f.lock_code_digest, salt);
    let e = endowment_of(f.policy, attached);
    &&& f.lock_code_digest == h0.lock_digest
    &&& !h0.locks@.contains_key(addr)
    &&& (addr == self_addr || h0.bal(addr) as int - (
    if addr == caller {
        attached as int
    } else {
        0
    }) + e as int <= u128::MAX as int)
}

/// The full behavior of [`Lockdrop::lock`] (for the salt it chose), as one
/// relation between the host state before the call (`h0`), the state after
/// it (`h1`) and the result. On success a fresh Lock owned by the caller
/// stands at the derived address with the endowment as its balance, the
/// caller has paid the whole deposit, and what the endowment left behind
/// stays with the factory. On failure the host is exactly as it was.
pub open spec fn lock_post(
    f: Lockdrop,
    self_addr: Identity,
    caller: Identity,
    attached: Value,
    salt: Salt,
    h0: Host,
    h1: Host,
    r: Result<Identity, FactoryError>,
) -> bool {
    let addr = derive_spec(self_addr, f.lock_code_digest, salt);
    let e = endowment_of(f.policy, attached);
    match r {
        Ok(a) => {
            &&& a == addr
            &&& instantiation_ok(f, self_addr, caller, attached, salt, h0)
            &&& h0.now + f.delta <= u64::MAX
            &&& same_meta(h0, h1)
            &&& h1.locks@ == h0.locks@.insert(
                addr,
                (Lock { owner: caller, unlock_after: (h0.now + f.delta) as u64 }),
            )
            &&& forall|x: Identity|
                #[trigger] h1.bal(x) as int == h0.bal(x) as int + (
                if x == caller {
                    -(attached as int)
                } else {
                    0
                }) + (
                if x == self_addr {
                    attached as int - e as int
                } else {
                    0
                }) + (
                if x == addr {
                    e as int
                } else {
                    0
                })
        },
        Err(FactoryError::InstantiationFailed) => {
            &&& unchanged(h0, h1)
            &&& !instantiation_ok(f, self_addr, caller, attached, salt, h0)
        },
        Err(FactoryError::EndowmentMismatch) => false,
    }
}

impl Lockdrop {
    /// Constructs the unit's storage: the template digest, the configured
    /// delay and endowment policy, and a salt counter starting at zero.
    pub fn new(lock_code_digest: CodeDigest, delta: Timestamp, policy: Policy) -> (f: Lockdrop)
        ensures
            f.lock_code_digest == lock_code_digest,
            f.delta == delta,
            f.policy == policy,
            f.next_salt == 0,
    {
        Lockdrop { lock_code_digest, delta, policy, next_salt: 0 }
    }

    /// Deposit and delegate, with the salt given by the caller. The host
    /// hands the unit the caller's identity and the attached deposit; the
    /// current timestamp is read from the host. The unlock deadline is
    /// `now + delta`; the endowment is the policy's share of the deposit;
    /// the child is deployed at the address derived from the factory's own
    /// address, the template digest and the salt. After deployment the child's
    /// balance is checked against the intended endowment. On any failure the
    /// host rolls the whole invocation back, attached value included.
    ///
    /// The `requires` are the host's own call preconditions: a caller can
    /// attach only value it holds, the factory's balance stays representable,
    /// and the deadline fits a timestamp.
    pub fn lock_with_salt(
        &self,
        host: &mut Host,
        self_addr: Identity,
        caller: Identity,
        attached: Value,
        salt: Salt,
    ) -> (r: Result<Identity, FactoryError>)
        requires
            attached <= old(host).bal(caller),
            caller != self_addr ==> old(host).bal(self_addr) + attached <= u128::MAX,
            old(host).now + self.delta <= u64::MAX,
        ensures
            lock_post(*self, self_addr, caller, attached, salt, *old(host), *final(host), r),
    {
        let now = host.now;
        let unlock_after = now + self.delta;
        let e = match self.policy {
            Policy::FullForward => attached,
            Policy::HalfRetain => attached / 2,
        };
        host.move_value(caller, self_addr, attached);
        match host.deploy_lock(self_addr, self.lock_code_digest, caller, unlock_after, e, salt) {
            Ok(addr) => {
                let child_balance = host.balance_of(addr);
                if child_balance < e {
                    return Err(FactoryError::EndowmentMismatch);
                }
                Ok(addr)
            },
            Err(_) => {
                host.move_value(self_addr, caller, attached);
                Err(FactoryError::InstantiationFailed)
            },
        }
    }

    /// Deposit and delegate: [`Lockdrop::lock_with_salt`] on the stored salt
    /// counter, which a success advances by one, so that each successful call
    /// derives a child address no earlier call has taken. A failed call
    /// leaves the counter, like everything else, as it was.
    pub fn lock(
        &mut self,
        host: &mut Host,
        self_addr: Identity,
        caller: Identity,
        attached: Value,
    ) -> (r: Result<Identity, FactoryError>)
        requires
            attached <= old(host).bal(caller),
            caller != self_addr ==> old(host).bal(self_addr) + attached <= u128::MAX,
            old(host).now + old(self).delta <= u64::MAX,
            old(self).next_salt < u64::MAX,
        ensures
            lock_post(
                *old(self),
                self_addr,
                caller,
                attached,
                old(self).next_salt,
                *old(host),
                *final(host),
                r,
            ),
            final(self).lock_code_digest == old(self).lock_code_digest,
            final(self).delta == old(self).delta,
            final(self).policy == old(self).policy,
            final(self).next_salt as int == if r is Ok {
                old(self).next_salt + 1
            } else {
                old(self).next_salt as int
            },
    {
        let salt = self.next_salt;
        match self.lock_with_salt(host, self_addr, caller, attached, salt) {
            Ok(addr) => {
                self.next_salt = salt + 1;
                Ok(addr)
            },
            Err(e) => Err(e),
        }
    }
}

/// A successful `lock` call with deposit `attached` by `caller` leaves a
/// fresh Lock unit standing at the derived address: one the host had no unit
/// at before, owned by the caller, with `now + delta` as its deadline, and —
/// when the derived address is a genuinely fresh account — holding exactly
/// the policy's share of the deposit.
pub proof fn lemma_successful_lock_creates_fresh_lock(
    f: Lockdrop,
    self_addr: Identity,
    caller: Identity,
    attached: Value,
    salt: Salt,
    h0: Host,
    h1: Host,
    r: Result<Identity, FactoryError>,
)
    requires
        lock_post(f, self_addr, caller, attached, salt, h0, h1, r),
        r is Ok,
        attached <= h0.bal(caller),
    ensures
        ({
            let addr = derive_spec(self_addr, f.lock_code_digest, salt);
            &&& !h0.locks@.contains_key(addr)
            &&& h1.locks@.contains_key(addr)
            &&& h1.locks@[addr].owner == caller
            &&& h1.locks@[addr].unlock_after == h0.now + f.delta
            &&& (addr != caller && addr != self_addr ==> h1.bal(addr) as int == h0.bal(addr)
                + endowment_of(f.policy, attached))
            &&& h1.bal(addr) >= endowment_of(f.policy, attached)
        }),
{
    let addr = derive_spec(self_addr, f.lock_code_digest, salt);
    let e = endowment_of(f.policy, attached);
    assert(h1.bal(addr) as int == h0.bal(addr) as int + (
    if addr == caller {
        -(attached as int)
    } else {
        0
    }) + (
    if addr == self_addr {
        attached as int - e as int
    } else {
        0
    }) + e as int);
    assert(e <= attached) by {
        if f.policy is HalfRetain {
            assert(attached / 2 <= attached);
        }
    }
}

/// Address determinism, the protocol half: a successful instantiation
/// occupies the derived address, so a second `lock` call from the same
/// factory address, with the same template digest and the same salt — which
/// derives the same child address — cannot also succeed, whoever calls it and
/// whatever it attaches. (The derivation itself is a spec function of
/// `(parent, digest, salt)` alone, so it is the same across runs by
/// construction.)
pub proof fn lemma_same_salt_cannot_succeed_twice(
    f: Lockdrop,
    g: Lockdrop,
    self_addr: Identity,
    caller1: Identity,
    caller2: Identity,
    attached1: Value,
    attached2: Value,
    salt: Salt,
    h0: Host,
    h1: Host,
    h2: Host,
    r1: Result<Identity, FactoryError>,
    r2: Result<Identity, FactoryError>,
)
    requires
        lock_post(f, self_addr, caller1, attached1, salt, h0, h1, r1),
        r1 is Ok,
        g.lock_code_digest == f.lock_code_digest,
        lock_post(g, self_addr, caller2, attached2, salt, h1, h2, r2),
    ensures
        r2 == Err::<Identity, FactoryError>(FactoryError::InstantiationFailed),
        unchanged(h1, h2),
{
    let addr = derive_spec(self_addr, f.lock_code_digest, salt);
    assert(h1.locks@.contains_key(addr));
}

/// A full-forward factory holds no balance of its own across calls: a
/// successful `lock` forwards the entire deposit into the child's endowment
/// within the same invocation, and a failed one is rolled back whole — either
/// way the factory's own balance ends where it began. (The factory's address
/// is a unit of its own, distinct from depositors and from the children it
/// derives.)
pub proof fn lemma_full_forward_factory_retains_nothing(
    f: Lockdrop,
    self_addr: Identity,
    caller: Identity,
    attached: Value,
    salt: Salt,
    h0: Host,
    h1: Host,
    r: Result<Identity, FactoryError>,
)
    requires
        lock_post(f, self_addr, caller, attached, salt, h0, h1, r),
        f.policy == Policy::FullForward,
        self_addr != caller,
        self_addr != derive_spec(self_addr, f.lock_code_digest, salt),
    ensures
        h1.bal(self_addr) == h0.bal(self_addr),
{
}

/// A stored Lock's fields are forever those given at its construction: no
/// host transition mutates an existing registry entry. A `lock` call only
/// inserts at an address the registry did not contain, so every unit already
/// deployed keeps its owner and deadline; `unlock` leaves the registry
/// untouched altogether (its contract says `h1.locks@ == h0.locks@`).
pub proof fn lemma_deployed_lock_fields_persist(
    f: Lockdrop,
    self_addr: Identity,
    caller: Identity,
    attached: Value,
    salt: Salt,
    h0: Host,
    h1: Host,
    r: Result<Identity, FactoryError>,
    deployed: Identity,
)
    requires
        lock_post(f, self_addr, caller, attached, salt, h0, h1, r),
        h0.locks@.contains_key(deployed),
    ensures
        h1.locks@.contains_key(deployed),
        h1.locks@[deployed] == h0.locks@[deployed],
{
}

} // verus!
