use crate::error::LotteryError;
use crate::model::LotteryView;
use crate::pubkey::Pubkey;
use crate::randomness::{winner_index, RandomnessView};
use crate::state::LotteryState;
use vstd::prelude::*;

verus! {

/// A lottery is well formed as it is created.
pub proof fn lemma_created_is_wf(
    authority: Pubkey,
    treasury: Pubkey,
    id: u64,
    entry_price: u64,
    goal_amount: u64,
    start_time: i64,
    end_time: i64,
)
    ensures
        LotteryView::created(
            authority,
            treasury,
            id,
            entry_price,
            goal_amount,
            start_time,
            end_time,
        ).wf(),
{
}

/// Joining keeps a lottery well formed: after a successful join the pool is
/// still the entry price times the number of participants, nobody is listed
/// twice, and a winner is still one of the participants.
pub proof fn lemma_join_keeps_wf(lottery: LotteryView, buyer: Pubkey)
    requires
        lottery.wf(),
    ensures
        lottery.join(buyer) matches Ok(after) ==> after.wf(),
{
    if let Ok(after) = lottery.join(buyer) {
        if !lottery.participants.contains(buyer) {
            let before = lottery.participants;
            assert(after.participants == before.push(buyer));
            assert(after.participants.no_duplicates()) by {
                assert forall|i: int, j: int|
                    0 <= i < after.participants.len() && 0 <= j < after.participants.len() && i
                        != j implies after.participants[i] != after.participants[j] by {
                    if i < before.len() {
                        assert(before.contains(before[i]));
                    }
                    if j < before.len() {
                        assert(before.contains(before[j]));
                    }
                }
            }
            assert(after.total_raised == after.entry_price * after.participants.len()) by {
                assert(lottery.entry_price * (before.len() + 1) == lottery.entry_price
                    * before.len() + lottery.entry_price) by (nonlinear_arith);
            }
            if let Some(winner) = after.winner {
                let k = choose|k: int| 0 <= k < before.len() && before[k] == winner;
                assert(after.participants[k] == winner);
            }
        }
    }
}

/// The accounting holds after each of any run of joins: however many of
/// `buyers` have joined a well-formed lottery, if they all succeeded the pool
/// is the entry price times the number of participants.
pub proof fn lemma_joins_keep_accounting(lottery: LotteryView, buyers: Seq<Pubkey>, joined: int)
    requires
        lottery.wf(),
        0 <= joined <= buyers.len(),
    ensures
        lottery.join_all(buyers.take(joined)) matches Ok(after) ==> after.wf() && after.total_raised
            == after.entry_price * after.participants.len(),
    decreases joined,
{
    let run = buyers.take(joined);
    if joined > 0 {
        assert(run.drop_last() == buyers.take(joined - 1));
        lemma_joins_keep_accounting(lottery, buyers, joined - 1);
        if let Ok(before) = lottery.join_all(run.drop_last()) {
            lemma_join_keeps_wf(before, run.last());
        }
    }
}

/// Buyers who are all different, and none of them in the lottery yet, are
/// added in their order, and each adds one entry price to the pool. Such a
/// run of joins fails only where the pool cannot hold the entry prices.
pub proof fn lemma_distinct_joins(lottery: LotteryView, buyers: Seq<Pubkey>)
    requires
        buyers.no_duplicates(),
        forall|i: int| 0 <= i < buyers.len() ==> !lottery.participants.contains(buyers[i]),
    ensures
        match lottery.join_all(buyers) {
            Ok(after) => {
                &&& after.participants == lottery.participants + buyers
                &&& after.total_raised == lottery.total_raised + lottery.entry_price
                    * buyers.len()
                &&& after.entry_price == lottery.entry_price
            },
            Err(error) => {
                &&& error == LotteryError::Overflow
                &&& lottery.total_raised + lottery.entry_price * buyers.len() > u64::MAX
            },
        },
    decreases buyers.len(),
{
    if buyers.len() > 0 {
        let earlier = buyers.drop_last();
        let last = buyers.last();
        lemma_distinct_joins(lottery, earlier);
        assert(lottery.entry_price * buyers.len() == lottery.entry_price * earlier.len()
            + lottery.entry_price) by (nonlinear_arith)
            requires
                buyers.len() == earlier.len() + 1,
        ;
        assert(lottery.entry_price * earlier.len() >= 0) by (nonlinear_arith);
        if let Ok(before) = lottery.join_all(earlier) {
            assert(!before.participants.contains(last)) by {
                if before.participants.contains(last) {
                    let k = choose|k: int|
                        0 <= k < before.participants.len() && before.participants[k] == last;
                    if k < lottery.participants.len() {
                        assert(lottery.participants.contains(last));
                    } else {
                        assert(earlier[k - lottery.participants.len()] == buyers[buyers.len() - 1]);
                    }
                }
            }
            if let Ok(after) = before.join(last) {
                assert(after.participants == lottery.participants + buyers);
            }
        }
    } else {
        assert(lottery.participants + buyers == lottery.participants);
        assert(lottery.entry_price * buyers.len() == 0) by (nonlinear_arith)
            requires
                buyers.len() == 0,
        ;
    }
}

/// Joining twice is joining once: the second call of the same buyer succeeds,
/// so it is no overflow, and leaves the lottery as the first call left it,
/// with the buyer in it at one place only.
pub proof fn lemma_join_is_idempotent(lottery: LotteryView, buyer: Pubkey)
    requires
        lottery.wf(),
    ensures
        lottery.join(buyer) matches Ok(once) ==> {
            &&& once.join(buyer) == Ok::<LotteryView, LotteryError>(once)
            &&& once.participants.contains(buyer)
            &&& forall|i: int, j: int|
                0 <= i < once.participants.len() && 0 <= j < once.participants.len()
                    && once.participants[i] == buyer && once.participants[j] == buyer ==> i == j
            &&& lottery.participants.len() == 0 ==> once.participants == seq![buyer]
        },
{
    if let Ok(once) = lottery.join(buyer) {
        lemma_join_keeps_wf(lottery, buyer);
        if !lottery.participants.contains(buyer) {
            assert(once.participants.last() == buyer);
        }
        if lottery.participants.len() == 0 {
            assert(once.participants == seq![buyer]);
        }
    }
}

/// A join never takes a lottery back to an earlier state, and never touches
/// its terms, its winner or the oracle account it has noted.
pub proof fn lemma_join_moves_forward(lottery: LotteryView, buyer: Pubkey)
    ensures
        lottery.join(buyer) matches Ok(after) ==> {
            &&& lottery.state.rank() <= after.state.rank()
            &&& lottery.total_raised <= after.total_raised
            &&& lottery.participants.is_prefix_of(after.participants)
            &&& after.winner == lottery.winner
            &&& after.randomness_account == lottery.randomness_account
            &&& after.authority == lottery.authority
            &&& after.entry_price == lottery.entry_price
            &&& after.goal_amount == lottery.goal_amount
        },
{
}

/// Whoever is not the creator is refused as unauthorized, whatever the state
/// of the lottery and whatever the oracle says.
pub proof fn lemma_only_creator_draws(
    lottery: LotteryView,
    caller: Pubkey,
    oracle: Pubkey,
    randomness: Option<RandomnessView>,
    current_slot: u64,
)
    requires
        caller != lottery.authority,
    ensures
        lottery.draw(caller, oracle, randomness, current_slot) == Err::<LotteryView, LotteryError>(
            LotteryError::Unauthorized,
        ),
{
}

/// A lottery that has met its goal with nobody in it has no winner to draw.
pub proof fn lemma_empty_lottery_has_no_winner(
    lottery: LotteryView,
    oracle: Pubkey,
    randomness: Option<RandomnessView>,
    current_slot: u64,
)
    requires
        lottery.state == LotteryState::GoalMet,
        lottery.winner is None,
        lottery.participants.len() == 0,
    ensures
        lottery.draw(lottery.authority, oracle, randomness, current_slot) == Err::<
            LotteryView,
            LotteryError,
        >(LotteryError::NoWinner),
{
}

/// The draw is decided by the revealed value alone: in the seed slot, with
/// a value revealed in that slot, the winner is the participant whose place
/// is the number in the first eight bytes of the value modulo the number of
/// participants. The lottery is then completed and nothing else changes.
pub proof fn lemma_reveal_picks_by_value(
    lottery: LotteryView,
    oracle: Pubkey,
    data: RandomnessView,
    current_slot: u64,
)
    requires
        lottery.draw_refusal(lottery.authority) is None,
        data.seed_slot == current_slot,
        data.reveal_slot == current_slot,
    ensures
        0 <= winner_index(data.value, lottery.participants.len()) < lottery.participants.len(),
        lottery.draw(lottery.authority, oracle, Some(data), current_slot) == Ok::<
            LotteryView,
            LotteryError,
        >(
            LotteryView {
                winner: Some(
                    lottery.participants[winner_index(data.value, lottery.participants.len())],
                ),
                state: LotteryState::Completed,
                ..lottery
            },
        ),
{
}

/// Outside the seed slot a permitted call only notes the oracle's account:
/// the state, the winner, the pool and the participants stay as they are,
/// and calling again is harmless.
pub proof fn lemma_commit_only_notes_oracle(
    lottery: LotteryView,
    oracle: Pubkey,
    data: RandomnessView,
    current_slot: u64,
)
    requires
        lottery.draw_refusal(lottery.authority) is None,
        data.seed_slot != current_slot,
    ensures
        lottery.draw(lottery.authority, oracle, Some(data), current_slot) matches Ok(after) && {
            &&& after == LotteryView { randomness_account: Some(oracle), ..lottery }
            &&& after.draw(lottery.authority, oracle, Some(data), current_slot) == Ok::<
                LotteryView,
                LotteryError,
            >(after)
        },
{
}

/// Once a winner is set the draw cannot be repeated: every further call
/// fails and the creator is told that the lottery is completed already,
/// whatever the state, the oracle and the slot.
pub proof fn lemma_no_second_draw(
    lottery: LotteryView,
    caller: Pubkey,
    oracle: Pubkey,
    randomness: Option<RandomnessView>,
    current_slot: u64,
)
    requires
        lottery.winner is Some,
    ensures
        lottery.draw(caller, oracle, randomness, current_slot) == Err::<LotteryView, LotteryError>(
            if caller != lottery.authority {
                LotteryError::Unauthorized
            } else {
                LotteryError::AlreadyCompleted
            },
        ),
{
}

/// A reveal is final: after a call that set the winner, whatever the creator
/// asks again, with whatever oracle account and in whatever slot, is refused
/// as already completed, and the winner and the state stay.
pub proof fn lemma_reveal_is_final(
    lottery: LotteryView,
    oracle: Pubkey,
    randomness: Option<RandomnessView>,
    current_slot: u64,
    next_oracle: Pubkey,
    next_randomness: Option<RandomnessView>,
    next_slot: u64,
)
    requires
        lottery.winner is None,
    ensures
        lottery.draw(lottery.authority, oracle, randomness, current_slot) matches Ok(after) ==> (
        after.winner is Some ==> {
            &&& after.state == LotteryState::Completed
            &&& after.draw(after.authority, next_oracle, next_randomness, next_slot) == Err::<
                LotteryView,
                LotteryError,
            >(LotteryError::AlreadyCompleted)
        }),
{
}

/// A draw keeps a lottery well formed and never takes it back to an earlier
/// state; a winner is one of the participants.
pub proof fn lemma_draw_keeps_wf(
    lottery: LotteryView,
    caller: Pubkey,
    oracle: Pubkey,
    randomness: Option<RandomnessView>,
    current_slot: u64,
)
    requires
        lottery.wf(),
    ensures
        lottery.draw(caller, oracle, randomness, current_slot) matches Ok(after) ==> {
            &&& after.wf()
            &&& lottery.state.rank() <= after.state.rank()
            &&& after.participants == lottery.participants
            &&& after.total_raised == lottery.total_raised
        },
{
    if let Ok(after) = lottery.draw(caller, oracle, randomness, current_slot) {
        if let Some(winner) = after.winner {
            let index = winner_index(randomness->Some_0.value, lottery.participants.len());
            assert(lottery.participants[index] == winner);
        }
    }
}

} // verus!
