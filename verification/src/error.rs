use vstd::prelude::*;

verus! {

/// Why an operation on a lottery was refused.
#[derive(Clone, Copy, Debug, PartialEq, Eq, Structural)]
pub enum LotteryError {
    /// The lottery is not in the state that the operation needs.
    LotteryNotActive,
    /// Reserved: no operation returns it.
    LotteryEnded,
    /// The entry price does not fit on top of what was raised.
    Overflow,
    /// Reserved: no operation returns it.
    LotteryFull,
    /// A winner has been drawn already.
    AlreadyCompleted,
    /// Nobody has joined, or the oracle has no value to give.
    NoWinner,
    /// The caller is not the creator of the lottery.
    Unauthorized,
}

impl LotteryError {
    /// The sentence that describes each error.
    pub open spec fn spec_message(self) -> Seq<char> {
        match self {
            LotteryError::LotteryNotActive => "Lottery is not active."@,
            LotteryError::LotteryEnded => "Lottery has already ended."@,
            LotteryError::Overflow => "Math overflow occurred."@,
            LotteryError::LotteryFull => "Lottery is full."@,
            LotteryError::AlreadyCompleted => "Lottery already completed."@,
            LotteryError::NoWinner => "No winner available."@,
            LotteryError::Unauthorized => "Only the creator can perform this action."@,
        }
    }

    /// The error in words, for a caller to show.
    pub fn message(&self) -> (text: &'static str)
        ensures
            text@ == self.spec_message(),
    {
        match self {
            LotteryError::LotteryNotActive => "Lottery is not active.",
            LotteryError::LotteryEnded => "Lottery has already ended.",
            LotteryError::Overflow => "Math overflow occurred.",
            LotteryError::LotteryFull => "Lottery is full.",
            LotteryError::AlreadyCompleted => "Lottery already completed.",
            LotteryError::NoWinner => "No winner available.",
            LotteryError::Unauthorized => "Only the creator can perform this action.",
        }
    }
}

} // verus!
