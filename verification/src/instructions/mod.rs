//! The operations of the protocol, each as one decision on plain
//! values: what changes, what is to be moved, or why nothing is.

pub mod borrow;
pub mod deposit_nft;
pub mod deposit_tokens;
pub mod execute_liquidate_bid;
pub mod increase_liquidate_bid;
pub mod init_loan_account;
pub mod init_obligation;
pub mod init_reserve;
pub mod liquidate_solvent;
pub mod place_liquidate_bid;
pub mod refresh_reserve;
pub mod repay;
pub mod revoke_liquidate_bid;
pub mod update_reserve_config;
pub mod withdraw_nft;
pub mod withdraw_tokens;
