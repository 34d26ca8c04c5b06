//! Vaultpad: the decision logic of an anti-manipulation token launchpad.
//!
//! Every instruction of the launchpad is a verified function from plain
//! account state (and the clock, where the instruction reads it) to new
//! account state plus the token and lamport movements the runtime has to
//! carry out. A refused instruction leaves every account untouched.
pub mod constants;
pub mod errors;
pub mod pubkey;
pub mod state;
pub mod lock_timer;
pub mod fees;
pub mod buy;
pub mod sell;
pub mod create_launch;
pub mod claim_buyer_lock;
pub mod flag_same_funder;
pub mod initialize_protocol;
pub mod update_protocol;
pub mod claim_creator_lock;
pub mod withdraw_charity;
pub mod laws;
pub mod ledger;
pub mod outcomes;
