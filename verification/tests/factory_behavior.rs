use lockdrop::factory::FactoryError;
use lockdrop::factory::Lockdrop;
use lockdrop::factory::Policy;
use lockdrop::host::derive_address;
use lockdrop::host::DeployError;
use lockdrop::host::Host;
use lockdrop::lock::LockError;

const DIGEST: u64 = 7;
const FACTORY: u64 = 99;
const ALICE: u64 = 11;
const BOB: u64 = 12;

#[test]
fn factory_fields_are_construction_arguments() {
    let f = Lockdrop::new(DIGEST, 5, Policy::FullForward);
    assert_eq!(f.lock_code_digest, DIGEST);
    assert_eq!(f.delta, 5);
    assert_eq!(f.policy, Policy::FullForward);
    assert_eq!(f.next_salt, 0);
}

#[test]
fn full_forward_deposit_creates_an_endowed_lock() {
    let mut h = Host::new(0, DIGEST);
    h.advance_time(1000);
    h.fund(ALICE, 100);
    let mut f = Lockdrop::new(DIGEST, 5, Policy::FullForward);
    let addr = f.lock(&mut h, FACTORY, ALICE, 100).unwrap();
    assert_eq!(addr, derive_address(FACTORY, DIGEST, 0));
    let child = h.locks.get(&addr).unwrap();
    assert_eq!(child.owner, ALICE);
    assert_eq!(child.unlock_after, 1005);
    assert_eq!(h.balance_of(addr), 100);
    assert_eq!(h.balance_of(ALICE), 0);
    assert_eq!(h.balance_of(FACTORY), 0);
    assert_eq!(f.next_salt, 1);
}

#[test]
fn deposited_funds_come_back_through_the_child_lock() {
    let mut h = Host::new(0, DIGEST);
    h.advance_time(1000);
    h.fund(ALICE, 100);
    let mut f = Lockdrop::new(DIGEST, 5, Policy::FullForward);
    let addr = f.lock(&mut h, FACTORY, ALICE, 100).unwrap();
    let child = *h.locks.get(&addr).unwrap();
    h.advance_time(1006);
    assert_eq!(child.unlock(&mut h, addr, ALICE, 0), Ok(()));
    assert_eq!(h.balance_of(ALICE), 100);
    assert_eq!(h.balance_of(addr), 0);
}

#[test]
fn half_retain_deposit_endows_half() {
    let mut h = Host::new(0, DIGEST);
    h.fund(BOB, 99);
    let mut f = Lockdrop::new(DIGEST, 5, Policy::HalfRetain);
    let addr = f.lock(&mut h, FACTORY, BOB, 99).unwrap();
    assert_eq!(h.balance_of(addr), 49);
    assert_eq!(h.balance_of(FACTORY), 50);
    assert_eq!(h.balance_of(BOB), 0);
}

#[test]
fn zero_deposit_creates_an_immediately_drained_lock() {
    let mut h = Host::new(0, DIGEST);
    h.advance_time(1000);
    let mut f = Lockdrop::new(DIGEST, 5, Policy::FullForward);
    let addr = f.lock(&mut h, FACTORY, ALICE, 0).unwrap();
    assert_eq!(h.balance_of(addr), 0);
    let child = *h.locks.get(&addr).unwrap();
    h.advance_time(1006);
    assert_eq!(child.unlock(&mut h, addr, ALICE, 0), Ok(()));
    assert_eq!(h.balance_of(ALICE), 0);
}

#[test]
fn half_retain_of_an_indivisible_deposit_endows_nothing() {
    let mut h = Host::new(0, DIGEST);
    h.fund(ALICE, 1);
    let mut f = Lockdrop::new(DIGEST, 5, Policy::HalfRetain);
    let addr = f.lock(&mut h, FACTORY, ALICE, 1).unwrap();
    assert_eq!(h.balance_of(addr), 0);
    assert_eq!(h.balance_of(FACTORY), 1);
}

#[test]
fn same_salt_twice_fails_with_instantiation_failed() {
    let mut h = Host::new(0, DIGEST);
    h.fund(ALICE, 100);
    let f = Lockdrop::new(DIGEST, 5, Policy::FullForward);
    let salt = 2;
    let first = f.lock_with_salt(&mut h, FACTORY, ALICE, 60, salt);
    assert!(first.is_ok());
    let second = f.lock_with_salt(&mut h, FACTORY, ALICE, 40, salt);
    assert_eq!(second, Err(FactoryError::InstantiationFailed));
    // the failing call's attached value is refunded
    assert_eq!(h.balance_of(ALICE), 40);
    assert_eq!(h.balance_of(first.unwrap()), 60);
}

#[test]
fn distinct_salts_give_distinct_children() {
    let mut h = Host::new(0, DIGEST);
    h.fund(ALICE, 100);
    let mut f = Lockdrop::new(DIGEST, 5, Policy::FullForward);
    let a1 = f.lock(&mut h, FACTORY, ALICE, 60).unwrap();
    let a2 = f.lock(&mut h, FACTORY, ALICE, 40).unwrap();
    assert_ne!(a1, a2);
    assert_eq!(h.balance_of(a1), 60);
    assert_eq!(h.balance_of(a2), 40);
    assert_eq!(f.next_salt, 2);
}

#[test]
fn unknown_code_digest_fails_and_refunds() {
    let mut h = Host::new(0, DIGEST);
    h.fund(ALICE, 100);
    let mut f = Lockdrop::new(DIGEST + 1, 5, Policy::FullForward);
    let r = f.lock(&mut h, FACTORY, ALICE, 100);
    assert_eq!(r, Err(FactoryError::InstantiationFailed));
    assert_eq!(h.balance_of(ALICE), 100);
    assert_eq!(h.balance_of(FACTORY), 0);
    assert_eq!(f.next_salt, 0);
}

#[test]
fn derived_addresses_are_deterministic() {
    assert_eq!(derive_address(FACTORY, DIGEST, 3), derive_address(FACTORY, DIGEST, 3));
    assert_ne!(derive_address(FACTORY, DIGEST, 3), derive_address(FACTORY, DIGEST, 4));
}

#[test]
fn deploy_at_an_occupied_address_reports_a_collision() {
    let mut h = Host::new(0, DIGEST);
    h.fund(FACTORY, 10);
    assert!(h.deploy_lock(FACTORY, DIGEST, ALICE, 50, 5, 1).is_ok());
    let r = h.deploy_lock(FACTORY, DIGEST, BOB, 60, 5, 1);
    assert_eq!(r, Err(DeployError::AddressCollision));
}

#[test]
fn deploy_with_an_unknown_digest_is_refused() {
    let mut h = Host::new(0, DIGEST);
    let r = h.deploy_lock(FACTORY, DIGEST + 1, ALICE, 50, 0, 1);
    assert_eq!(r, Err(DeployError::UnknownCode));
}

#[test]
fn deploy_beyond_the_parents_means_is_rejected() {
    let mut h = Host::new(0, DIGEST);
    h.fund(FACTORY, 10);
    let r = h.deploy_lock(FACTORY, DIGEST, ALICE, 50, 11, 1);
    assert_eq!(r, Err(DeployError::Rejected));
    assert_eq!(h.balance_of(FACTORY), 10);
}

#[test]
fn a_deposit_locks_until_its_own_deadline() {
    // delta = 0: the deadline is the deposit's own timestamp, so an unlock
    // in the same tick is still too early and one tick later succeeds
    let mut h = Host::new(0, DIGEST);
    h.advance_time(500);
    h.fund(ALICE, 30);
    let mut f = Lockdrop::new(DIGEST, 0, Policy::FullForward);
    let addr = f.lock(&mut h, FACTORY, ALICE, 30).unwrap();
    let child = *h.locks.get(&addr).unwrap();
    assert_eq!(child.unlock_after, 500);
    assert_eq!(child.unlock(&mut h, addr, ALICE, 0), Err(LockError::TooEarly));
    h.advance_time(501);
    assert_eq!(child.unlock(&mut h, addr, ALICE, 0), Ok(()));
    assert_eq!(h.balance_of(ALICE), 30);
}
