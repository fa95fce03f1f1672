use crate::pubkey::Pubkey;
use crate::state::{LotteryAccount, LotteryRegistry};
use vstd::prelude::*;

verus! {

/// A stored value together with the address at which it is stored.
#[derive(Debug)]
pub struct Account<T> {
    pub key: Pubkey,
    pub data: T,
}

/// An account of which only the address and the raw bytes are known.
#[derive(Debug)]
pub struct UncheckedAccount {
    pub key: Pubkey,
    pub data: Vec<u8>,
}

/// What creating a lottery works on.
#[derive(Debug)]
pub struct Initialize {
    /// The account, newly allocated, that will hold the lottery.
    pub lottery_account: Account<LotteryAccount>,
    /// The creator.
    pub authority: Pubkey,
    /// Where the raised funds are meant to go. It is taken as given.
    pub treasury: Pubkey,
    /// The creator's registry, newly allocated if this is their first lottery.
    pub registry: Account<LotteryRegistry>,
}

/// What listing a creator's active lotteries works on.
#[derive(Debug)]
pub struct GetActiveLotteries {
    pub registry: Account<LotteryRegistry>,
}

/// What buying an entry works on.
#[derive(Debug)]
pub struct BuyLottery {
    pub lottery_account: Account<LotteryAccount>,
    /// Who pays and joins.
    pub buyer: Pubkey,
}

/// What drawing the winner works on.
#[derive(Debug)]
pub struct PickWinner {
    pub lottery_account: Account<LotteryAccount>,
    /// The oracle's randomness account, as raw bytes.
    pub randomness_account_data: UncheckedAccount,
    /// Who asks for the draw.
    pub authority: Pubkey,
}

} // verus!
