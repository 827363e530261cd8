//! A timelock escrow pair on a modeled ledger host.
//!
//! Two cooperating units run on a deterministic ledger host: a [`lock::Lock`]
//! holds a balance for one owner and releases it only after a deadline, and a
//! [`factory::Lockdrop`] accepts deposits and instantiates fresh Lock units
//! endowed with a share of each deposit.
//!
//! The host itself — its balance ledger, block timestamp, transfer primitive
//! and deterministic deploy-child primitive — is modeled explicitly by
//! [`host::Host`], so that every value movement, precondition and rollback
//! the two units rely on is stated and proved rather than assumed.

pub mod factory;
pub mod host;
pub mod lock;
