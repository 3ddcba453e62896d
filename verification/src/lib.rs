//! The accounting core of a lending protocol in which non-fungible items
//! are the collateral for loans of fungible tokens.
//!
//! Depositors put tokens into a reserve and get deposit notes for them;
//! borrowers post an item with an obligation and take tokens from a
//! reserve against loan notes; an obligation whose collateral no longer
//! covers its loans is liquidated by a bidder who has funded an escrow.
//!
//! - `number`: fixed-point numbers, computed by `jet_proto_math`.
//! - `cache`: values that are trusted only while fresh.
//! - `common`, `market`: amounts in tokens and notes, the snapshots that
//!   a market keeps of its reserves, and the conversions between units.
//! - `reserve`, `interest`: what a reserve holds and is owed, its fees
//!   and exchange rates, and how interest accrues.
//! - `slots`, `obligation`, `valuation`: the positions of a borrower,
//!   what they are worth and whether the collateral covers the loans.
//! - `bid`: a liquidator's bid and its escrow.
//! - `keys`, `utils`: identities of accounts, the addresses derived for
//!   them, and small checks.
//! - `instructions`: each operation of the protocol as one decision on
//!   plain values, which says what is to change and to be moved or why
//!   nothing is; an operation that fails changes nothing.
//!
//! Every function carries a contract that Verus has proved of its body.
//! The exceptions are the few private functions that call
//! `jet_proto_math` and `solana_program`: their contracts say what the
//! sources of those crates show, and are believed.

pub mod bid;
pub mod cache;
pub mod common;
pub mod errors;
pub mod instructions;
pub mod interest;
pub mod keys;
pub mod market;
pub mod number;
pub mod obligation;
pub mod reserve;
pub mod slots;
pub mod utils;
pub mod valuation;
