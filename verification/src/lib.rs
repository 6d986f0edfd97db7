//! A ledger-resident token sale: buyers exchange a native settlement
//! currency for a fungible token at an administrator-set price.
//!
//! The verified core covers the sale configuration (creation, price and
//! ownership updates, each gated on the owner's identity), the purchase
//! engine (input validation, floor-division price arithmetic with a
//! fail-closed overflow policy, and per-buyer accounting), and the
//! derivation of the program-controlled signing authority under which the
//! sale's token pool releases sold tokens. The ledger runtime that moves
//! the settlement currency and the tokens acts only on decisions made
//! here.

pub mod address;
pub mod authority;
pub mod errors;
pub mod purchase;
pub mod records;
pub mod sale;

pub use address::Address;
pub use authority::{derive_authority, Authority};
pub use errors::CustomError;
pub use purchase::{buy, calculate_value, User};
pub use sale::{initialize, transfer_ownership, update_price, update_treasury, Ico};
