use crate::accounts::{BuyLottery, GetActiveLotteries, Initialize, PickWinner};
use crate::error::LotteryError;
use crate::laws::lemma_join_keeps_wf;
use crate::model::LotteryView;
use crate::pubkey::Pubkey;
use crate::randomness::{
    get_value, is_randomness_account, parsed, random_number, randomness_value, read_randomness,
    reading, winner_index, RandomnessData, RandomnessView,
};
use crate::state::{LotteryAccount, LotteryState};
use vstd::prelude::*;

verus! {

/// Creates the lottery of `ctx.authority` with the given number and terms in
/// `ctx.lottery_account`, and enters its address at the end of both lists of
/// the creator's registry. The terms are taken as they are: a goal of zero
/// is accepted.
pub fn initialize(
    ctx: &mut Initialize,
    id: u64,
    entry_price: u64,
    goal_amount: u64,
    start_time: i64,
    end_time: i64,
) -> (res: Result<(), LotteryError>)
    ensures
        res is Ok,
        final(ctx).lottery_account.data@ == LotteryView::created(
            old(ctx).authority,
            old(ctx).treasury,
            id,
            entry_price,
            goal_amount,
            start_time,
            end_time,
        ),
        final(ctx).lottery_account.data@.wf(),
        final(ctx).registry.data@ == old(ctx).registry.data@.registered(
            old(ctx).authority,
            old(ctx).lottery_account.key,
        ),
        final(ctx).lottery_account.key == old(ctx).lottery_account.key,
        final(ctx).registry.key == old(ctx).registry.key,
        final(ctx).authority == old(ctx).authority,
        final(ctx).treasury == old(ctx).treasury,
{
    ctx.lottery_account.data.authority = ctx.authority;
    ctx.lottery_account.data.treasury = ctx.treasury;
    ctx.lottery_account.data.id = id;
    ctx.lottery_account.data.entry_price = entry_price;
    ctx.lottery_account.data.goal_amount = goal_amount;
    ctx.lottery_account.data.total_raised = 0;
    ctx.lottery_account.data.start_time = start_time;
    ctx.lottery_account.data.end_time = end_time;
    ctx.lottery_account.data.state = LotteryState::Active;
    ctx.lottery_account.data.winner = None;
    ctx.lottery_account.data.participants = Vec::new();
    ctx.lottery_account.data.randomness_account = None;

    ctx.registry.data.creator = ctx.authority;
    ctx.registry.data.lotteries.push(ctx.lottery_account.key);
    ctx.registry.data.active_lotteries.push(ctx.lottery_account.key);

    Ok(())
}

/// Whether `key` is one of `keys`.
fn contains_key(keys: &Vec<Pubkey>, key: &Pubkey) -> (found: bool)
    ensures
        found == keys@.contains(*key),
{
    let mut i: usize = 0;
    while i < keys.len()
        invariant
            i <= keys.len(),
            forall|j: int| 0 <= j < i ==> keys@[j] != *key,
        decreases keys.len() - i,
    {
        if keys[i] == *key {
            return true;
        }
        i += 1;
    }
    false
}

/// A payment to be made: `lamports` from the account `from` to the account `to`.
#[derive(Clone, Copy, Debug)]
pub struct Transfer {
    pub from: Pubkey,
    pub to: Pubkey,
    pub lamports: u64,
}

/// What the buyer has to pay before [`buy_lottery`] records the entry:
/// exactly the entry price, from the buyer to the lottery's own account.
pub fn entry_transfer(ctx: &BuyLottery) -> (transfer: Transfer)
    ensures
        transfer.from == ctx.buyer,
        transfer.to == ctx.lottery_account.key,
        transfer.lamports == ctx.lottery_account.data.entry_price,
{
    Transfer {
        from: ctx.buyer,
        to: ctx.lottery_account.key,
        lamports: ctx.lottery_account.data.entry_price,
    }
}

/// Records that `ctx.buyer` has paid the entry price of [`entry_transfer`].
///
/// A buyer who is in the lottery already is not added again: the call
/// succeeds and changes nothing. A new buyer is added at the end of the
/// participants and the entry price is added to the pool; an active lottery
/// whose pool reaches the goal thereby has met it. Where the pool cannot hold
/// the entry price the call fails and changes nothing.
pub fn buy_lottery(ctx: &mut BuyLottery) -> (res: Result<(), LotteryError>)
    ensures
        match old(ctx).lottery_account.data@.join(old(ctx).buyer) {
            Ok(lottery) => res is Ok && final(ctx).lottery_account.data@ == lottery,
            Err(error) => res == Err::<(), LotteryError>(error) && *final(ctx) == *old(ctx),
        },
        final(ctx).lottery_account.key == old(ctx).lottery_account.key,
        final(ctx).buyer == old(ctx).buyer,
        old(ctx).lottery_account.data@.participants.contains(old(ctx).buyer) ==> res is Ok
            && *final(ctx) == *old(ctx),
        res is Err <==> !old(ctx).lottery_account.data@.participants.contains(old(ctx).buyer)
            && old(ctx).lottery_account.data.total_raised + old(ctx).lottery_account.data.entry_price
            > u64::MAX,
        res is Err ==> res == Err::<(), LotteryError>(LotteryError::Overflow),
        old(ctx).lottery_account.data@.wf() ==> final(ctx).lottery_account.data@.wf(),
        old(ctx).lottery_account.data.state.rank() <= final(ctx).lottery_account.data.state.rank(),
{
    if contains_key(&ctx.lottery_account.data.participants, &ctx.buyer) {
        return Ok(());
    }
    let total_raised = match ctx.lottery_account.data.total_raised.checked_add(
        ctx.lottery_account.data.entry_price,
    ) {
        Some(total) => total,
        None => {
            return Err(LotteryError::Overflow);
        },
    };
    proof {
        if ctx.lottery_account.data@.wf() {
            lemma_join_keeps_wf(ctx.lottery_account.data@, ctx.buyer);
        }
    }
    ctx.lottery_account.data.participants.push(ctx.buyer);
    ctx.lottery_account.data.total_raised = total_raised;
    if total_raised >= ctx.lottery_account.data.goal_amount && ctx.lottery_account.data.state
        == LotteryState::Active {
        ctx.lottery_account.data.state = LotteryState::GoalMet;
    }
    Ok(())
}

/// The active lotteries of the registry, oldest first. An empty list is an
/// error.
pub fn get_active_lotteries(ctx: &GetActiveLotteries) -> (res: Result<Vec<Pubkey>, LotteryError>)
    ensures
        ctx.registry.data@.active_lotteries.len() == 0 ==> res == Err::<Vec<Pubkey>, LotteryError>(
            LotteryError::LotteryNotActive,
        ),
        ctx.registry.data@.active_lotteries.len() > 0 ==> res is Ok && res->Ok_0@
            == ctx.registry.data@.active_lotteries,
{
    let active = &ctx.registry.data.active_lotteries;
    if active.len() == 0 {
        return Err(LotteryError::LotteryNotActive);
    }
    let mut listed: Vec<Pubkey> = Vec::new();
    let mut i: usize = 0;
    while i < active.len()
        invariant
            i <= active.len(),
            listed@ == active@.subrange(0, i as int),
        decreases active.len() - i,
    {
        listed.push(active[i]);
        i += 1;
    }
    Ok(listed)
}

/// Why `caller` may not draw the winner of `lottery` now, if anything stands
/// against it: the first of the conditions of the draw that fails. It can be
/// asked before the oracle and the clock are read.
pub fn draw_refusal(lottery: &LotteryAccount, caller: &Pubkey) -> (refusal: Option<LotteryError>)
    ensures
        refusal == lottery@.draw_refusal(*caller),
{
    if !(lottery.authority == *caller) {
        Some(LotteryError::Unauthorized)
    } else if lottery.winner.is_some() {
        Some(LotteryError::AlreadyCompleted)
    } else if lottery.state != LotteryState::GoalMet {
        Some(LotteryError::LotteryNotActive)
    } else if lottery.participants.len() == 0 {
        Some(LotteryError::NoWinner)
    } else {
        None
    }
}

/// Whether a call of [`pick_winner_with_randomness`] that found `before` and
/// was given `randomness` and `current_slot` may leave `after` and return
/// `res`: the lottery is drawn as [`LotteryView::draw`] says, and a refused
/// call changes nothing.
pub open spec fn drawn(
    before: PickWinner,
    randomness: Option<RandomnessView>,
    current_slot: u64,
    after: PickWinner,
    res: Result<(), LotteryError>,
) -> bool {
    &&& after.lottery_account.key == before.lottery_account.key
    &&& after.randomness_account_data == before.randomness_account_data
    &&& after.authority == before.authority
    &&& match before.lottery_account.data@.draw(
        before.authority,
        before.randomness_account_data.key,
        randomness,
        current_slot,
    ) {
        Ok(lottery) => res is Ok && after.lottery_account.data@ == lottery,
        Err(error) => res == Err::<(), LotteryError>(error) && after == before,
    }
}

/// Draws the winner, given what was read of the oracle's randomness account
/// (`None` where it could not be read).
///
/// Only the creator may call, while no winner is set, once the goal is met
/// and somebody has joined; a refusal names the first of these that fails,
/// so a draw that was completed is refused as completed. Outside the seed
/// slot of the oracle's value the call notes the address of the oracle's
/// account and changes nothing else. In the seed slot it takes the value
/// that the oracle revealed in that slot, reads its first eight bytes as a
/// number, lowest byte first, and the participant at that number modulo the
/// number of participants wins.
pub fn pick_winner_with_randomness(
    ctx: &mut PickWinner,
    randomness: Option<RandomnessData>,
    current_slot: u64,
) -> (res: Result<(), LotteryError>)
    ensures
        drawn(*old(ctx), reading(randomness), current_slot, *final(ctx), res),
        old(ctx).authority != old(ctx).lottery_account.data.authority ==> res == Err::<
            (),
            LotteryError,
        >(LotteryError::Unauthorized),
        old(ctx).authority == old(ctx).lottery_account.data.authority
            && old(ctx).lottery_account.data.winner is Some ==> res == Err::<(), LotteryError>(
            LotteryError::AlreadyCompleted,
        ),
        old(ctx).lottery_account.data@.wf() ==> final(ctx).lottery_account.data@.wf(),
        old(ctx).lottery_account.data.state.rank() <= final(ctx).lottery_account.data.state.rank(),
{
    if let Some(error) = draw_refusal(&ctx.lottery_account.data, &ctx.authority) {
        return Err(error);
    }
    let data = match randomness {
        Some(data) => data,
        None => {
            return Err(LotteryError::NoWinner);
        },
    };
    if data.seed_slot != current_slot {
        ctx.lottery_account.data.randomness_account = Some(ctx.randomness_account_data.key);
        return Ok(());
    }
    let value = match get_value(&data, current_slot) {
        Ok(value) => value,
        Err(error) => {
            return Err(error);
        },
    };
    let count = ctx.lottery_account.data.participants.len();
    let index = (random_number(&value) % (count as u64)) as usize;
    let winner = ctx.lottery_account.data.participants[index];
    proof {
        assert(ctx.lottery_account.data@.participants.contains(winner));
    }
    ctx.lottery_account.data.winner = Some(winner);
    ctx.lottery_account.data.state = LotteryState::Completed;
    Ok(())
}

/// Draws the winner with the oracle's randomness account read from the raw
/// bytes in `ctx.randomness_account_data`, in the slot `current_slot`.
///
/// The call does what [`pick_winner_with_randomness`] does with what is
/// read of the bytes, which is nothing unless they are long enough for a
/// randomness account and begin as one. The bytes and the slot decide the
/// outcome: where the call draws, the winner is decided by the eight bytes
/// at which the account holds its random value.
pub fn pick_winner(ctx: &mut PickWinner, current_slot: u64) -> (res: Result<(), LotteryError>)
    ensures
        drawn(
            *old(ctx),
            parsed(old(ctx).randomness_account_data.data@),
            current_slot,
            *final(ctx),
            res,
        ),
        old(ctx).lottery_account.data@.draw_refusal(old(ctx).authority) matches Some(error)
            ==> res == Err::<(), LotteryError>(error) && *final(ctx) == *old(ctx),
        old(ctx).lottery_account.data@.draw_refusal(old(ctx).authority) is None
            && !is_randomness_account(old(ctx).randomness_account_data.data@) ==> res == Err::<
            (),
            LotteryError,
        >(LotteryError::NoWinner) && *final(ctx) == *old(ctx),
        old(ctx).authority != old(ctx).lottery_account.data.authority ==> res == Err::<
            (),
            LotteryError,
        >(LotteryError::Unauthorized),
        old(ctx).authority == old(ctx).lottery_account.data.authority
            && old(ctx).lottery_account.data.winner is Some ==> res == Err::<(), LotteryError>(
            LotteryError::AlreadyCompleted,
        ),
        res is Ok && final(ctx).lottery_account.data.state != old(ctx).lottery_account.data.state
            ==> {
            &&& final(ctx).lottery_account.data.state == LotteryState::Completed
            &&& final(ctx).lottery_account.data.winner == Some(
                old(ctx).lottery_account.data@.participants[winner_index(
                    randomness_value(old(ctx).randomness_account_data.data@),
                    old(ctx).lottery_account.data@.participants.len(),
                )],
            )
        },
        res is Err ==> *final(ctx) == *old(ctx),
        old(ctx).lottery_account.data@.wf() ==> final(ctx).lottery_account.data@.wf(),
        old(ctx).lottery_account.data.state.rank() <= final(ctx).lottery_account.data.state.rank(),
{
    let randomness = read_randomness(&ctx.randomness_account_data.data);
    pick_winner_with_randomness(ctx, randomness, current_slot)
}

} // verus!
