//! Verification core of an on-chain identity registrar.
//!
//! A claimant asserts that a blockchain address controls a set of off-chain
//! accounts. The registrar issues one random challenge per account and
//! accepts the claim once the challenge comes back signed by the key of the
//! address. This crate holds the data model, the mailboxes between the
//! registry and the per-account-type channels, the registry itself and the
//! signature verification engine with its messages.

pub mod comms;
pub mod hexcode;
pub mod identity;
pub mod manager;
pub mod primitives;
pub mod report;
pub mod sr25519;
pub mod verification;

pub use comms::{CommsMain, CommsMessage, CommsVerifier, Fatal};
pub use identity::{AccountState, AccountStateView, AccountValidity, OnChainIdentity};
pub use manager::{Effect, IdentityManager};
pub use primitives::{
    Address, AddressType, Challenge, ChallengeStatus, KeyError, NetAccount, NetworkAddress,
    PubKey, RoomId, Signature,
};
pub use report::invalid_accounts_message;
pub use verification::{verification_handler, StatusChange, Verifier2, VerifierError};
