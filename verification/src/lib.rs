//! A goal-based lottery: participants pay a fixed entry price into a shared
//! pool, and once the pool reaches its goal the creator draws one winner from
//! a random value that an oracle committed to beforehand.
//!
//! The operations work on plain values: [`initialize`] creates a lottery and
//! enters it in its creator's registry, [`get_active_lotteries`] lists a
//! registry, [`buy_lottery`] records a paid entry and [`pick_winner`] draws
//! the winner. What they do is stated over the mathematical values of
//! [`model`], and [`laws`] holds what follows for every lottery.

pub mod accounts;
pub mod error;
pub mod instructions;
pub mod laws;
pub mod model;
pub mod pubkey;
pub mod randomness;
pub mod state;

pub use crate::accounts::{
    Account, BuyLottery, GetActiveLotteries, Initialize, PickWinner, UncheckedAccount,
};
pub use crate::error::LotteryError;
pub use crate::instructions::{
    buy_lottery, draw_refusal, entry_transfer, get_active_lotteries, initialize, pick_winner,
    pick_winner_with_randomness, Transfer,
};
pub use crate::pubkey::Pubkey;
pub use crate::randomness::{
    get_value, le_number, random_number, randomness_of, read_randomness, RandomnessData,
    RawRandomness, RANDOMNESS_ACCOUNT_LEN, RANDOMNESS_REVEAL_SLOT_OFFSET,
    RANDOMNESS_SEED_SLOT_OFFSET, RANDOMNESS_VALUE_OFFSET,
};
pub use crate::state::{LotteryAccount, LotteryRegistry, LotteryState};
