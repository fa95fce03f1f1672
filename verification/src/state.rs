use crate::model::{LotteryView, RegistryView};
use crate::pubkey::Pubkey;
use vstd::prelude::*;

verus! {

/// Where a lottery stands in its life.
#[derive(Clone, Copy, Debug, PartialEq, Eq, Structural)]
pub enum LotteryState {
    /// Open for entries.
    Active,
    /// The pool has reached the goal: a winner can be drawn.
    GoalMet,
    /// A winner has been drawn.
    Completed,
    /// The goal was missed and the entries were paid back. No operation
    /// leads here.
    FailedRefunded,
}

impl LotteryState {
    /// How far along a state is: no operation takes a lottery to a lower rank.
    pub open spec fn rank(self) -> nat {
        match self {
            LotteryState::Active => 0,
            LotteryState::GoalMet => 1,
            LotteryState::Completed => 2,
            LotteryState::FailedRefunded => 3,
        }
    }
}

/// A lottery: its terms, what it has raised, who is in it and who won.
#[derive(Debug)]
pub struct LotteryAccount {
    /// The creator, who alone may draw the winner.
    pub authority: Pubkey,
    /// Where the raised funds are meant to go.
    pub treasury: Pubkey,
    /// The creator's own number for this lottery.
    pub id: u64,
    /// What each participant pays.
    pub entry_price: u64,
    /// The pool at which a winner can be drawn.
    pub goal_amount: u64,
    /// The entry prices collected so far.
    pub total_raised: u64,
    /// Stored, and read by no operation.
    pub start_time: i64,
    /// Stored, and read by no operation.
    pub end_time: i64,
    pub state: LotteryState,
    pub winner: Option<Pubkey>,
    /// The participants, each once, in the order in which they joined.
    pub participants: Vec<Pubkey>,
    /// The oracle account noted by the last call that came outside the seed slot.
    pub randomness_account: Option<Pubkey>,
}

impl View for LotteryAccount {
    type V = LotteryView;

    open spec fn view(&self) -> LotteryView {
        LotteryView {
            authority: self.authority,
            treasury: self.treasury,
            id: self.id,
            entry_price: self.entry_price,
            goal_amount: self.goal_amount,
            total_raised: self.total_raised,
            start_time: self.start_time,
            end_time: self.end_time,
            state: self.state,
            winner: self.winner,
            participants: self.participants@,
            randomness_account: self.randomness_account,
        }
    }
}

/// The lotteries that one creator has created.
#[derive(Debug)]
pub struct LotteryRegistry {
    pub creator: Pubkey,
    /// Every lottery of the creator, oldest first.
    pub lotteries: Vec<Pubkey>,
    /// The lotteries listed as active, oldest first. None is ever taken out.
    pub active_lotteries: Vec<Pubkey>,
}

impl View for LotteryRegistry {
    type V = RegistryView;

    open spec fn view(&self) -> RegistryView {
        RegistryView {
            creator: self.creator,
            lotteries: self.lotteries@,
            active_lotteries: self.active_lotteries@,
        }
    }
}

} // verus!
