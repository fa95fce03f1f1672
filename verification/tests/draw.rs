use lottery_solana::{
    buy_lottery, draw_refusal, get_active_lotteries, get_value, initialize, le_number,
    pick_winner, pick_winner_with_randomness, random_number, randomness_of, read_randomness,
    Account, BuyLottery,
    GetActiveLotteries, Initialize, LotteryAccount, LotteryError, LotteryRegistry, LotteryState,
    PickWinner, Pubkey, RandomnessData, RawRandomness, UncheckedAccount, RANDOMNESS_ACCOUNT_LEN,
    RANDOMNESS_REVEAL_SLOT_OFFSET, RANDOMNESS_SEED_SLOT_OFFSET, RANDOMNESS_VALUE_OFFSET,
};
use switchboard_on_demand::{Discriminator, OnDemandError, RandomnessAccountData};

const DISCRIMINATOR: [u8; 8] = [10, 66, 229, 135, 220, 239, 217, 114];

fn pk(n: u8) -> Pubkey {
    Pubkey::new_from_array([n; 32])
}

fn lottery_with(state: LotteryState, participants: Vec<Pubkey>, winner: Option<Pubkey>) -> LotteryAccount {
    LotteryAccount {
        authority: pk(1),
        treasury: pk(2),
        id: 7,
        entry_price: 50,
        goal_amount: 100,
        total_raised: 50 * participants.len() as u64,
        start_time: 0,
        end_time: 0,
        state,
        winner,
        participants,
        randomness_account: None,
    }
}

fn draw_of(lottery: LotteryAccount, caller: Pubkey, oracle_data: Vec<u8>) -> PickWinner {
    PickWinner {
        lottery_account: Account { key: pk(100), data: lottery },
        randomness_account_data: UncheckedAccount { key: pk(200), data: oracle_data },
        authority: caller,
    }
}

fn value_of(number: u64) -> [u8; 32] {
    let mut value = [0xAB_u8; 32];
    value[..8].copy_from_slice(&number.to_le_bytes());
    value
}

fn revealed(slot: u64, number: u64) -> Option<RandomnessData> {
    Some(RandomnessData { seed_slot: slot, reveal_slot: slot, value: value_of(number) })
}

/// The bytes of a randomness account as the oracle's own library lays them out.
fn oracle_bytes(seed_slot: u64, reveal_slot: u64, value: [u8; 32]) -> Vec<u8> {
    let mut account: RandomnessAccountData = bytemuck::Zeroable::zeroed();
    account.seed_slot = seed_slot;
    account.reveal_slot = reveal_slot;
    account.value = value;
    let mut bytes = RandomnessAccountData::DISCRIMINATOR.to_vec();
    bytes.extend_from_slice(bytemuck::bytes_of(&account));
    bytes
}

fn five() -> Vec<Pubkey> {
    vec![pk(10), pk(11), pk(12), pk(13), pk(14)]
}

#[test]
fn random_number_reads_the_lowest_byte_first() {
    let mut value = [0u8; 32];
    value[..8].copy_from_slice(&[1, 2, 3, 4, 5, 6, 7, 8]);
    value[8] = 9;
    assert_eq!(random_number(&value), 0x0807_0605_0403_0201);
    assert_eq!(random_number(&[0xFF; 32]), u64::MAX);
    assert_eq!(random_number(&[0; 32]), 0);
    assert_eq!(random_number(&value_of(123_456_789_012)), 123_456_789_012);
}

#[test]
fn a_value_is_given_only_in_its_reveal_slot() {
    let data = RandomnessData { seed_slot: 3, reveal_slot: 9, value: value_of(77) };
    assert_eq!(get_value(&data, 9), Ok(value_of(77)));
    assert_eq!(get_value(&data, 3), Err(LotteryError::NoWinner));
    assert_eq!(get_value(&data, 10), Err(LotteryError::NoWinner));
}

#[test]
fn reveal_picks_the_participant_at_the_value_modulo_the_count() {
    for number in [0u64, 1, 4, 5, 7, 12_345, u64::MAX] {
        let mut ctx = draw_of(lottery_with(LotteryState::GoalMet, five(), None), pk(1), Vec::new());
        let res = pick_winner_with_randomness(&mut ctx, revealed(42, number), 42);
        assert_eq!(res, Ok(()));
        let expected = five()[(number % 5) as usize];
        assert_eq!(ctx.lottery_account.data.winner, Some(expected));
        assert_eq!(ctx.lottery_account.data.state, LotteryState::Completed);
        assert_eq!(ctx.lottery_account.data.participants, five());
        assert_eq!(ctx.lottery_account.data.total_raised, 250);
        assert_eq!(ctx.lottery_account.data.randomness_account, None);
    }
}

#[test]
fn the_largest_value_picks_the_first_of_five() {
    let mut ctx = draw_of(lottery_with(LotteryState::GoalMet, five(), None), pk(1), Vec::new());
    assert_eq!(pick_winner_with_randomness(&mut ctx, revealed(1, u64::MAX), 1), Ok(()));
    assert_eq!(ctx.lottery_account.data.winner, Some(pk(10)));
}

#[test]
fn a_single_participant_always_wins() {
    let mut ctx = draw_of(lottery_with(LotteryState::GoalMet, vec![pk(10)], None), pk(1), Vec::new());
    assert_eq!(pick_winner_with_randomness(&mut ctx, revealed(1, 987_654_321), 1), Ok(()));
    assert_eq!(ctx.lottery_account.data.winner, Some(pk(10)));
}

#[test]
fn outside_the_seed_slot_only_the_oracle_is_noted() {
    let mut ctx = draw_of(lottery_with(LotteryState::GoalMet, five(), None), pk(1), Vec::new());
    let early = Some(RandomnessData { seed_slot: 43, reveal_slot: 0, value: [0; 32] });
    assert_eq!(pick_winner_with_randomness(&mut ctx, early, 42), Ok(()));
    assert_eq!(ctx.lottery_account.data.randomness_account, Some(pk(200)));
    assert_eq!(ctx.lottery_account.data.state, LotteryState::GoalMet);
    assert_eq!(ctx.lottery_account.data.winner, None);
    assert_eq!(ctx.lottery_account.data.total_raised, 250);
    assert_eq!(ctx.lottery_account.data.participants, five());

    ctx.randomness_account_data.key = pk(201);
    assert_eq!(pick_winner_with_randomness(&mut ctx, early, 42), Ok(()));
    assert_eq!(ctx.lottery_account.data.randomness_account, Some(pk(201)));
    assert_eq!(ctx.lottery_account.data.state, LotteryState::GoalMet);

    let late = Some(RandomnessData { seed_slot: 41, reveal_slot: 42, value: value_of(3) });
    assert_eq!(pick_winner_with_randomness(&mut ctx, late, 42), Ok(()));
    assert_eq!(ctx.lottery_account.data.winner, None);
    assert_eq!(ctx.lottery_account.data.state, LotteryState::GoalMet);
}

#[test]
fn a_value_not_revealed_in_the_seed_slot_gives_no_winner() {
    let mut ctx = draw_of(lottery_with(LotteryState::GoalMet, five(), None), pk(1), Vec::new());
    let unrevealed = Some(RandomnessData { seed_slot: 42, reveal_slot: 0, value: value_of(3) });
    assert_eq!(pick_winner_with_randomness(&mut ctx, unrevealed, 42), Err(LotteryError::NoWinner));
    assert_eq!(ctx.lottery_account.data.winner, None);
    assert_eq!(ctx.lottery_account.data.state, LotteryState::GoalMet);
    assert_eq!(ctx.lottery_account.data.randomness_account, None);
}

#[test]
fn unreadable_oracle_gives_no_winner() {
    let mut ctx = draw_of(lottery_with(LotteryState::GoalMet, five(), None), pk(1), Vec::new());
    assert_eq!(pick_winner_with_randomness(&mut ctx, None, 42), Err(LotteryError::NoWinner));
    assert_eq!(ctx.lottery_account.data.state, LotteryState::GoalMet);
    assert_eq!(ctx.lottery_account.data.randomness_account, None);
}

#[test]
fn a_stranger_is_unauthorized_in_every_state() {
    let states = [
        LotteryState::Active,
        LotteryState::GoalMet,
        LotteryState::Completed,
        LotteryState::FailedRefunded,
    ];
    for state in states {
        for winner in [None, Some(pk(10))] {
            for participants in [Vec::new(), five()] {
                let mut ctx = draw_of(lottery_with(state, participants.clone(), winner), pk(9), Vec::new());
                let res = pick_winner_with_randomness(&mut ctx, revealed(42, 3), 42);
                assert_eq!(res, Err(LotteryError::Unauthorized));
                assert_eq!(ctx.lottery_account.data.state, state);
                assert_eq!(ctx.lottery_account.data.winner, winner);
                let mut ctx = draw_of(
                    lottery_with(state, participants, winner),
                    pk(9),
                    oracle_bytes(42, 42, value_of(3)),
                );
                assert_eq!(pick_winner(&mut ctx, 42), Err(LotteryError::Unauthorized));
            }
        }
    }
}

#[test]
fn the_goal_must_be_met() {
    for state in [LotteryState::Active, LotteryState::Completed, LotteryState::FailedRefunded] {
        let mut ctx = draw_of(lottery_with(state, five(), None), pk(1), Vec::new());
        let res = pick_winner_with_randomness(&mut ctx, revealed(42, 3), 42);
        assert_eq!(res, Err(LotteryError::LotteryNotActive));
        assert_eq!(ctx.lottery_account.data.state, state);
        assert_eq!(ctx.lottery_account.data.winner, None);
    }
}

#[test]
fn a_set_winner_is_not_drawn_again() {
    let mut ctx = draw_of(lottery_with(LotteryState::GoalMet, five(), Some(pk(11))), pk(1), Vec::new());
    let res = pick_winner_with_randomness(&mut ctx, revealed(42, 3), 42);
    assert_eq!(res, Err(LotteryError::AlreadyCompleted));
    assert_eq!(ctx.lottery_account.data.winner, Some(pk(11)));
    assert_eq!(ctx.lottery_account.data.state, LotteryState::GoalMet);
}

#[test]
fn a_completed_draw_cannot_be_repeated() {
    let mut ctx = draw_of(lottery_with(LotteryState::GoalMet, five(), None), pk(1), Vec::new());
    assert_eq!(pick_winner_with_randomness(&mut ctx, revealed(42, 3), 42), Ok(()));
    assert_eq!(ctx.lottery_account.data.winner, Some(pk(13)));
    let again = pick_winner_with_randomness(&mut ctx, revealed(42, 4), 42);
    assert_eq!(again, Err(LotteryError::AlreadyCompleted));
    assert_eq!(ctx.lottery_account.data.winner, Some(pk(13)));
    assert_eq!(ctx.lottery_account.data.state, LotteryState::Completed);
    let later = pick_winner_with_randomness(&mut ctx, revealed(50, 0), 43);
    assert_eq!(later, Err(LotteryError::AlreadyCompleted));
    let unread = pick_winner_with_randomness(&mut ctx, None, 44);
    assert_eq!(unread, Err(LotteryError::AlreadyCompleted));
    assert_eq!(ctx.lottery_account.data.winner, Some(pk(13)));
    assert_eq!(ctx.lottery_account.data.state, LotteryState::Completed);
    assert_eq!(ctx.lottery_account.data.randomness_account, None);
}

#[test]
fn a_set_winner_is_refused_in_every_state() {
    let states = [
        LotteryState::Active,
        LotteryState::GoalMet,
        LotteryState::Completed,
        LotteryState::FailedRefunded,
    ];
    for state in states {
        let mut ctx = draw_of(lottery_with(state, five(), Some(pk(11))), pk(1), Vec::new());
        let res = pick_winner_with_randomness(&mut ctx, revealed(42, 3), 42);
        assert_eq!(res, Err(LotteryError::AlreadyCompleted));
        assert_eq!(ctx.lottery_account.data.winner, Some(pk(11)));
        assert_eq!(ctx.lottery_account.data.state, state);
    }
}

#[test]
fn nobody_in_the_lottery_gives_no_winner() {
    let mut ctx = draw_of(lottery_with(LotteryState::GoalMet, Vec::new(), None), pk(1), Vec::new());
    let res = pick_winner_with_randomness(&mut ctx, revealed(42, 3), 42);
    assert_eq!(res, Err(LotteryError::NoWinner));
    assert_eq!(ctx.lottery_account.data.state, LotteryState::GoalMet);
    let mut ctx = draw_of(
        lottery_with(LotteryState::GoalMet, Vec::new(), None),
        pk(1),
        oracle_bytes(42, 42, value_of(3)),
    );
    assert_eq!(pick_winner(&mut ctx, 42), Err(LotteryError::NoWinner));
}

#[test]
fn oracle_bytes_are_read_by_the_oracle_library() {
    let bytes = oracle_bytes(42, 43, value_of(99));
    assert_eq!(bytes.len(), RANDOMNESS_ACCOUNT_LEN);
    assert_eq!(&bytes[..8], &DISCRIMINATOR[..]);
    let data = read_randomness(&bytes).expect("a randomness account");
    assert_eq!(data.seed_slot, 42);
    assert_eq!(data.reveal_slot, 43);
    assert_eq!(data.value, value_of(99));

    let mut longer = bytes.clone();
    longer.extend_from_slice(&[1, 2, 3]);
    let data = read_randomness(&longer).expect("a randomness account and more");
    assert_eq!(data.seed_slot, 42);
}

#[test]
fn oracle_bytes_written_by_hand_are_read() {
    let mut bytes = vec![0u8; 408];
    bytes[..8].copy_from_slice(&DISCRIMINATOR);
    bytes[104..112].copy_from_slice(&[0x2A, 0x01, 0, 0, 0, 0, 0, 0]);
    bytes[144..152].copy_from_slice(&[0x2B, 0, 0x01, 0, 0, 0, 0, 0x80]);
    bytes[152..184].copy_from_slice(&value_of(99));
    let data = read_randomness(&bytes).expect("a randomness account");
    assert_eq!(data.seed_slot, 0x012A);
    assert_eq!(data.reveal_slot, 0x8000_0000_0001_002B);
    assert_eq!(data.value, value_of(99));
    assert_eq!(RANDOMNESS_SEED_SLOT_OFFSET, 104);
    assert_eq!(RANDOMNESS_REVEAL_SLOT_OFFSET, 144);
    assert_eq!(RANDOMNESS_VALUE_OFFSET, 152);
}

#[test]
fn a_randomness_account_of_any_length_is_read() {
    for extra in 0..40usize {
        let mut bytes = oracle_bytes(7 + extra as u64, 9, value_of(99));
        bytes.extend(std::iter::repeat(0xEE).take(extra));
        let data = read_randomness(&bytes).expect("a randomness account");
        assert_eq!(data.seed_slot, 7 + extra as u64);
        assert_eq!(data.reveal_slot, 9);
        assert_eq!(data.value, value_of(99));
    }
    for cut in 1..=40usize {
        let bytes = oracle_bytes(7, 9, value_of(99))[..RANDOMNESS_ACCOUNT_LEN - cut].to_vec();
        assert!(read_randomness(&bytes).is_none());
    }
}

#[test]
fn le_number_reads_the_lowest_byte_first() {
    assert_eq!(le_number(&[1, 2, 3, 4, 5, 6, 7, 8]), 0x0807_0605_0403_0201);
    assert_eq!(le_number(&[0xFF; 8]), u64::MAX);
    assert_eq!(le_number(&[0; 8]), 0);
    assert_eq!(le_number(&[0, 1, 0, 0, 0, 0, 0, 0]), 256);
    assert_eq!(le_number(&987_654_321_987u64.to_le_bytes()), 987_654_321_987);
}

#[test]
fn the_first_failing_condition_of_the_draw_is_named() {
    let ready = lottery_with(LotteryState::GoalMet, five(), None);
    assert_eq!(draw_refusal(&ready, &pk(1)), None);
    assert_eq!(draw_refusal(&ready, &pk(9)), Some(LotteryError::Unauthorized));
    let won = lottery_with(LotteryState::Completed, five(), Some(pk(10)));
    assert_eq!(draw_refusal(&won, &pk(1)), Some(LotteryError::AlreadyCompleted));
    assert_eq!(draw_refusal(&won, &pk(9)), Some(LotteryError::Unauthorized));
    let open = lottery_with(LotteryState::Active, five(), None);
    assert_eq!(draw_refusal(&open, &pk(1)), Some(LotteryError::LotteryNotActive));
    let done = lottery_with(LotteryState::Completed, five(), None);
    assert_eq!(draw_refusal(&done, &pk(1)), Some(LotteryError::LotteryNotActive));
    let empty = lottery_with(LotteryState::GoalMet, Vec::new(), None);
    assert_eq!(draw_refusal(&empty, &pk(1)), Some(LotteryError::NoWinner));
    let empty_and_open = lottery_with(LotteryState::Active, Vec::new(), None);
    assert_eq!(draw_refusal(&empty_and_open, &pk(1)), Some(LotteryError::LotteryNotActive));
}

#[test]
fn short_or_foreign_oracle_bytes_are_not_read() {
    let bytes = oracle_bytes(42, 42, value_of(99));
    assert!(read_randomness(&Vec::new()).is_none());
    assert!(read_randomness(&bytes[..7].to_vec()).is_none());
    assert!(read_randomness(&bytes[..8].to_vec()).is_none());
    assert!(read_randomness(&bytes[..407].to_vec()).is_none());
    let mut foreign = bytes.clone();
    foreign[0] = 11;
    assert!(read_randomness(&foreign).is_none());
    let mut foreign = bytes;
    foreign[7] = 0;
    assert!(read_randomness(&foreign).is_none());
}

#[test]
fn pick_winner_reveals_from_the_oracle_account() {
    let mut ctx = draw_of(
        lottery_with(LotteryState::GoalMet, five(), None),
        pk(1),
        oracle_bytes(42, 42, value_of(1_000_002)),
    );
    assert_eq!(pick_winner(&mut ctx, 42), Ok(()));
    assert_eq!(ctx.lottery_account.data.winner, Some(pk(12)));
    assert_eq!(ctx.lottery_account.data.state, LotteryState::Completed);
    assert_eq!(ctx.lottery_account.data.randomness_account, None);
    assert_eq!(pick_winner(&mut ctx, 42), Err(LotteryError::AlreadyCompleted));
    assert_eq!(ctx.lottery_account.data.winner, Some(pk(12)));
    assert_eq!(ctx.lottery_account.data.state, LotteryState::Completed);
}

#[test]
fn pick_winner_commits_outside_the_seed_slot() {
    let mut ctx = draw_of(
        lottery_with(LotteryState::GoalMet, five(), None),
        pk(1),
        oracle_bytes(50, 0, [0; 32]),
    );
    assert_eq!(pick_winner(&mut ctx, 42), Ok(()));
    assert_eq!(ctx.lottery_account.data.randomness_account, Some(pk(200)));
    assert_eq!(ctx.lottery_account.data.winner, None);
    assert_eq!(ctx.lottery_account.data.state, LotteryState::GoalMet);
    assert_eq!(pick_winner(&mut ctx, 43), Ok(()));
    assert_eq!(ctx.lottery_account.data.state, LotteryState::GoalMet);
}

#[test]
fn pick_winner_needs_the_value_revealed_in_the_seed_slot() {
    let mut ctx = draw_of(
        lottery_with(LotteryState::GoalMet, five(), None),
        pk(1),
        oracle_bytes(42, 41, value_of(3)),
    );
    assert_eq!(pick_winner(&mut ctx, 42), Err(LotteryError::NoWinner));
    assert_eq!(ctx.lottery_account.data.winner, None);
    assert_eq!(ctx.lottery_account.data.state, LotteryState::GoalMet);
    assert_eq!(ctx.lottery_account.data.randomness_account, None);
}

#[test]
fn pick_winner_refuses_unreadable_oracle_bytes() {
    let mut foreign = oracle_bytes(42, 42, value_of(3));
    foreign[3] ^= 1;
    for data in [Vec::new(), vec![0u8; 408], foreign, oracle_bytes(42, 42, value_of(3))[..400].to_vec()] {
        let mut ctx = draw_of(lottery_with(LotteryState::GoalMet, five(), None), pk(1), data);
        assert_eq!(pick_winner(&mut ctx, 42), Err(LotteryError::NoWinner));
        assert_eq!(ctx.lottery_account.data.winner, None);
        assert_eq!(ctx.lottery_account.data.state, LotteryState::GoalMet);
        assert_eq!(ctx.lottery_account.data.randomness_account, None);
    }
}

#[test]
fn pick_winner_checks_the_lottery_before_the_oracle() {
    let mut ctx = draw_of(lottery_with(LotteryState::Active, five(), None), pk(1), Vec::new());
    assert_eq!(pick_winner(&mut ctx, 42), Err(LotteryError::LotteryNotActive));
    let mut ctx = draw_of(lottery_with(LotteryState::GoalMet, five(), Some(pk(10))), pk(1), Vec::new());
    assert_eq!(pick_winner(&mut ctx, 42), Err(LotteryError::AlreadyCompleted));
}

#[test]
fn pick_winner_reads_the_value_at_its_offset() {
    let mut bytes = vec![0u8; RANDOMNESS_ACCOUNT_LEN];
    bytes[..8].copy_from_slice(&DISCRIMINATOR);
    bytes[104..112].copy_from_slice(&[42, 0, 0, 0, 0, 0, 0, 0]);
    bytes[144..152].copy_from_slice(&[42, 0, 0, 0, 0, 0, 0, 0]);
    bytes[RANDOMNESS_VALUE_OFFSET..RANDOMNESS_VALUE_OFFSET + 8]
        .copy_from_slice(&[3, 1, 0, 0, 0, 0, 0, 0]);
    bytes[RANDOMNESS_VALUE_OFFSET + 8] = 77;
    let mut ctx = draw_of(lottery_with(LotteryState::GoalMet, five(), None), pk(1), bytes);
    assert_eq!(pick_winner(&mut ctx, 42), Ok(()));
    assert_eq!(ctx.lottery_account.data.winner, Some(pk(14)));
    assert_eq!(ctx.lottery_account.data.state, LotteryState::Completed);
}

#[test]
fn a_refused_draw_leaves_the_oracle_account_unread() {
    let bytes = oracle_bytes(42, 42, value_of(3));
    let mut ctx = draw_of(lottery_with(LotteryState::Active, five(), None), pk(1), bytes.clone());
    assert_eq!(pick_winner(&mut ctx, 42), Err(LotteryError::LotteryNotActive));
    assert_eq!(ctx.randomness_account_data.data, bytes);
    assert_eq!(ctx.randomness_account_data.key, pk(200));
    assert_eq!(ctx.lottery_account.key, pk(100));
    assert_eq!(ctx.authority, pk(1));
    assert_eq!(ctx.lottery_account.data.randomness_account, None);
}

#[test]
fn a_lottery_runs_from_creation_to_its_winner() {
    let mut create = Initialize {
        lottery_account: Account { key: pk(100), data: lottery_with(LotteryState::Completed, five(), None) },
        authority: pk(1),
        treasury: pk(2),
        registry: Account {
            key: pk(101),
            data: LotteryRegistry { creator: pk(0), lotteries: Vec::new(), active_lotteries: Vec::new() },
        },
    };
    assert_eq!(initialize(&mut create, 1, 50, 100, 0, 0), Ok(()));
    let listing = GetActiveLotteries { registry: create.registry };
    assert_eq!(get_active_lotteries(&listing), Ok(vec![pk(100)]));

    let mut entry = BuyLottery { lottery_account: create.lottery_account, buyer: pk(20) };
    assert_eq!(buy_lottery(&mut entry), Ok(()));
    entry.buyer = pk(21);
    assert_eq!(buy_lottery(&mut entry), Ok(()));
    entry.buyer = pk(20);
    assert_eq!(buy_lottery(&mut entry), Ok(()));
    assert_eq!(entry.lottery_account.data.state, LotteryState::GoalMet);
    assert_eq!(entry.lottery_account.data.total_raised, 100);

    let mut draw = PickWinner {
        lottery_account: entry.lottery_account,
        randomness_account_data: UncheckedAccount {
            key: pk(200),
            data: oracle_bytes(60, 0, [0; 32]),
        },
        authority: pk(1),
    };
    assert_eq!(pick_winner(&mut draw, 59), Ok(()));
    assert_eq!(draw.lottery_account.data.randomness_account, Some(pk(200)));
    assert_eq!(draw.lottery_account.data.winner, None);

    draw.randomness_account_data.data = oracle_bytes(60, 60, value_of(9));
    assert_eq!(pick_winner(&mut draw, 60), Ok(()));
    assert_eq!(draw.lottery_account.data.winner, Some(pk(21)));
    assert_eq!(draw.lottery_account.data.state, LotteryState::Completed);
    assert_eq!(draw.lottery_account.data.participants, vec![pk(20), pk(21)]);
    assert_eq!(draw.lottery_account.data.total_raised, 100);
}

#[test]
fn an_answer_of_the_oracle_library_is_kept_or_dropped() {
    let raw = RawRandomness {
        seed_slot: [5, 1, 0, 0, 0, 0, 0, 0],
        reveal_slot: [6, 0, 0, 0, 0, 0, 0, 1],
        value: value_of(77),
    };
    let kept = randomness_of(Ok(raw)).expect("what was read");
    assert_eq!(kept.seed_slot, 261);
    assert_eq!(kept.reveal_slot, 0x0100_0000_0000_0006);
    assert_eq!(kept.value, value_of(77));
    assert!(randomness_of(Err(OnDemandError::InvalidDiscriminator)).is_none());
    assert!(randomness_of(Err(OnDemandError::InvalidData)).is_none());
    assert!(randomness_of(Err(OnDemandError::AccountDeserializeError)).is_none());
}
