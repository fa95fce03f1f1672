use crate::error::LotteryError;
use crate::pubkey::Pubkey;
use crate::randomness::{winner_index, RandomnessView};
use crate::state::LotteryState;
use vstd::prelude::*;

verus! {

/// A lottery as a mathematical value: the participants are a sequence, in the
/// order in which they joined.
#[verifier::ext_equal]
pub struct LotteryView {
    pub authority: Pubkey,
    pub treasury: Pubkey,
    pub id: u64,
    pub entry_price: u64,
    pub goal_amount: u64,
    pub total_raised: u64,
    pub start_time: i64,
    pub end_time: i64,
    pub state: LotteryState,
    pub winner: Option<Pubkey>,
    pub participants: Seq<Pubkey>,
    pub randomness_account: Option<Pubkey>,
}

impl LotteryView {
    /// What every lottery satisfies that was created and then only joined and
    /// drawn: the pool is the entry price times the number of participants,
    /// nobody is listed twice, and a winner is one of the participants.
    pub open spec fn wf(self) -> bool {
        &&& self.total_raised == self.entry_price * self.participants.len()
        &&& self.participants.no_duplicates()
        &&& self.winner matches Some(winner) ==> self.participants.contains(winner)
    }

    /// The lottery as it is created: nothing raised, nobody in it, no winner,
    /// no oracle account noted.
    pub open spec fn created(
        authority: Pubkey,
        treasury: Pubkey,
        id: u64,
        entry_price: u64,
        goal_amount: u64,
        start_time: i64,
        end_time: i64,
    ) -> LotteryView {
        LotteryView {
            authority,
            treasury,
            id,
            entry_price,
            goal_amount,
            total_raised: 0,
            start_time,
            end_time,
            state: LotteryState::Active,
            winner: None,
            participants: Seq::empty(),
            randomness_account: None,
        }
    }

    /// The state after an entry brought the pool to `total_raised`: an active
    /// lottery whose pool has reached the goal has met it.
    pub open spec fn state_after_entry(self, total_raised: u64) -> LotteryState {
        if total_raised >= self.goal_amount && self.state == LotteryState::Active {
            LotteryState::GoalMet
        } else {
            self.state
        }
    }

    /// The lottery after `buyer` has paid the entry price. Who is in it
    /// already stays in it once and the lottery is as before. A new
    /// participant is added at the end and the entry price is added to the
    /// pool, unless the pool cannot hold it.
    pub open spec fn join(self, buyer: Pubkey) -> Result<LotteryView, LotteryError> {
        if self.participants.contains(buyer) {
            Ok(self)
        } else if self.total_raised + self.entry_price > u64::MAX {
            Err(LotteryError::Overflow)
        } else {
            let total_raised = (self.total_raised + self.entry_price) as u64;
            Ok(
                LotteryView {
                    total_raised,
                    state: self.state_after_entry(total_raised),
                    participants: self.participants.push(buyer),
                    ..self
                },
            )
        }
    }

    /// The lottery after each of `buyers` has joined in turn, or the first
    /// error on the way.
    pub open spec fn join_all(self, buyers: Seq<Pubkey>) -> Result<LotteryView, LotteryError>
        decreases buyers.len(),
    {
        if buyers.len() == 0 {
            Ok(self)
        } else {
            match self.join_all(buyers.drop_last()) {
                Ok(before) => before.join(buyers.last()),
                Err(error) => Err(error),
            }
        }
    }

    /// Why `caller` may not draw a winner now, if anything stands against it.
    /// The conditions are tested in this order: the caller is the creator,
    /// no winner is set, the goal is met, and somebody has joined. So once
    /// a winner is set the creator is told that the lottery is completed,
    /// whatever its state.
    pub open spec fn draw_refusal(self, caller: Pubkey) -> Option<LotteryError> {
        if caller != self.authority {
            Some(LotteryError::Unauthorized)
        } else if self.winner is Some {
            Some(LotteryError::AlreadyCompleted)
        } else if self.state != LotteryState::GoalMet {
            Some(LotteryError::LotteryNotActive)
        } else if self.participants.len() == 0 {
            Some(LotteryError::NoWinner)
        } else {
            None
        }
    }

    /// The lottery after `caller` asked for the draw in slot `current_slot`,
    /// with what could be read of the oracle's account at address `oracle`
    /// (`None` where it could not be read).
    ///
    /// Before the seed slot, or after it, the call only notes the oracle's
    /// account. In the seed slot the value must have been revealed in that
    /// same slot; it then picks the winner.
    pub open spec fn draw(
        self,
        caller: Pubkey,
        oracle: Pubkey,
        randomness: Option<RandomnessView>,
        current_slot: u64,
    ) -> Result<LotteryView, LotteryError> {
        match self.draw_refusal(caller) {
            Some(error) => Err(error),
            None => match randomness {
                None => Err(LotteryError::NoWinner),
                Some(data) => if data.seed_slot != current_slot {
                    Ok(LotteryView { randomness_account: Some(oracle), ..self })
                } else if data.reveal_slot != current_slot {
                    Err(LotteryError::NoWinner)
                } else {
                    Ok(
                        LotteryView {
                            winner: Some(
                                self.participants[winner_index(
                                    data.value,
                                    self.participants.len(),
                                )],
                            ),
                            state: LotteryState::Completed,
                            ..self
                        },
                    )
                },
            },
        }
    }
}

/// A creator's registry as a mathematical value.
#[verifier::ext_equal]
pub struct RegistryView {
    pub creator: Pubkey,
    pub lotteries: Seq<Pubkey>,
    pub active_lotteries: Seq<Pubkey>,
}

impl RegistryView {
    /// The registry after `creator` has created the lottery at `lottery`: the
    /// address is added at the end of both lists.
    pub open spec fn registered(self, creator: Pubkey, lottery: Pubkey) -> RegistryView {
        RegistryView {
            creator,
            lotteries: self.lotteries.push(lottery),
            active_lotteries: self.active_lotteries.push(lottery),
        }
    }
}

} // verus!
