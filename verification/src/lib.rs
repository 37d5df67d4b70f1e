//! Record store for a claim/redeem workflow on a rent-accounted account
//! substrate, with the closure protocol that retires a record for good.
//!
//! A user enters a lottery, which creates a record in a storage cell of
//! its own; later the user redeems a reward computed from the record, and
//! the record is closed. A closed cell stays where it is, and anybody can
//! pay into it. The secure closure leaves a tombstone in the cell, so that
//! it never reads as a record again, and a sweeper reclaims what was paid
//! into it.

pub mod address;
pub mod error;
pub mod laws;
pub mod ledger;
pub mod program;
pub mod record;
pub mod reward;
pub mod store;

pub use crate::address::{Address, DATA_PDA_SEED, MINT_SEED};
pub use crate::error::{IssueError, MyError};
pub use crate::ledger::Ledger;
pub use crate::program::{
    enter_lottery, redeem_winnings_insecure, redeem_winnings_secure, EnterLottery, MintOrder,
    MintTo, Receipt, RedeemAccounts, RedeemWinnings, RedeemWinningsSecure, TokenAccount,
};
pub use crate::record::{LotteryAccount, DISCRIMINATOR_SIZE};
pub use crate::reward::{reward, REWARD_RATE};
pub use crate::store::{close, create, load_active, phase, sweep, ClosureStrategy, Phase};
