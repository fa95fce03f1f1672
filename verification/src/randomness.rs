use crate::error::LotteryError;
use switchboard_on_demand::{OnDemandError, RandomnessAccountData};
use vstd::prelude::*;

verus! {

/// The errors of the oracle's library. Nothing is known of a value but that
/// it is one.
#[verifier::external_type_specification]
#[verifier::external_body]
pub struct ExOnDemandError(OnDemandError);

/// What the lottery reads of an oracle's randomness account.
#[derive(Clone, Copy, Debug)]
pub struct RandomnessData {
    /// The slot whose hash seeds the value: the value can be revealed in it.
    pub seed_slot: u64,
    /// The slot in which the oracle revealed the value.
    pub reveal_slot: u64,
    /// The random value.
    pub value: [u8; 32],
}

/// What the lottery reads of a randomness account, as a mathematical value.
#[verifier::ext_equal]
pub struct RandomnessView {
    pub seed_slot: nat,
    pub reveal_slot: nat,
    pub value: Seq<u8>,
}

impl View for RandomnessData {
    type V = RandomnessView;

    open spec fn view(&self) -> RandomnessView {
        RandomnessView {
            seed_slot: self.seed_slot as nat,
            reveal_slot: self.reveal_slot as nat,
            value: self.value@,
        }
    }
}

/// The mathematical value of what was read, where anything was read.
pub open spec fn reading(randomness: Option<RandomnessData>) -> Option<RandomnessView> {
    match randomness {
        Some(read) => Some(read@),
        None => None,
    }
}

/// The three fields that the lottery reads, as the bytes that hold them in
/// the account.
#[derive(Clone, Copy, Debug)]
pub struct RawRandomness {
    pub seed_slot: [u8; 8],
    pub reveal_slot: [u8; 8],
    pub value: [u8; 32],
}

impl RawRandomness {
    /// The fields as values: a slot is a number stored lowest byte first.
    pub open spec fn decoded(self) -> RandomnessView {
        RandomnessView {
            seed_slot: le_u64(self.seed_slot@),
            reveal_slot: le_u64(self.reveal_slot@),
            value: self.value@,
        }
    }

    /// Whether the fields are the bytes at their places in `data`.
    pub open spec fn lies_in(self, data: Seq<u8>) -> bool {
        &&& self.seed_slot@ == seed_slot_bytes(data)
        &&& self.reveal_slot@ == reveal_slot_bytes(data)
        &&& self.value@ == randomness_value(data)
    }
}

/// The bytes that a randomness account begins with.
pub open spec fn randomness_discriminator() -> Seq<u8> {
    seq![10u8, 66u8, 229u8, 135u8, 220u8, 239u8, 217u8, 114u8]
}

/// The length of a randomness account: the eight bytes it begins with, and
/// the 400 bytes of its fields.
pub const RANDOMNESS_ACCOUNT_LEN: usize = 408;

/// Where the seed slot begins in a randomness account: behind the eight
/// leading bytes and three fields of 32 bytes.
pub const RANDOMNESS_SEED_SLOT_OFFSET: usize = 104;

/// Where the reveal slot begins: behind the seed slot and one more field of
/// 32 bytes.
pub const RANDOMNESS_REVEAL_SLOT_OFFSET: usize = 144;

/// Where the random value begins: behind the reveal slot.
pub const RANDOMNESS_VALUE_OFFSET: usize = 152;

/// Whether `data` is long enough for a randomness account and begins as one.
pub open spec fn is_randomness_account(data: Seq<u8>) -> bool {
    data.len() >= RANDOMNESS_ACCOUNT_LEN && data.subrange(0, 8) == randomness_discriminator()
}

/// The eight bytes that hold the seed slot in the bytes of a randomness account.
pub open spec fn seed_slot_bytes(data: Seq<u8>) -> Seq<u8>
    recommends
        is_randomness_account(data),
{
    data.subrange(RANDOMNESS_SEED_SLOT_OFFSET as int, RANDOMNESS_SEED_SLOT_OFFSET + 8)
}

/// The eight bytes that hold the reveal slot in the bytes of a randomness account.
pub open spec fn reveal_slot_bytes(data: Seq<u8>) -> Seq<u8>
    recommends
        is_randomness_account(data),
{
    data.subrange(RANDOMNESS_REVEAL_SLOT_OFFSET as int, RANDOMNESS_REVEAL_SLOT_OFFSET + 8)
}

/// The 32 bytes that hold the random value in the bytes of a randomness account.
pub open spec fn randomness_value(data: Seq<u8>) -> Seq<u8>
    recommends
        is_randomness_account(data),
{
    data.subrange(RANDOMNESS_VALUE_OFFSET as int, RANDOMNESS_VALUE_OFFSET + 32)
}

/// What is read of the bytes of an account: nothing unless they are long
/// enough for a randomness account and begin as one, and then the two slots
/// and the value from their places.
pub open spec fn parsed(data: Seq<u8>) -> Option<RandomnessView> {
    if is_randomness_account(data) {
        Some(
            RandomnessView {
                seed_slot: le_u64(seed_slot_bytes(data)),
                reveal_slot: le_u64(reveal_slot_bytes(data)),
                value: randomness_value(data),
            },
        )
    } else {
        None
    }
}

/// Calls `RandomnessAccountData::parse` of switchboard-on-demand on a copy of
/// `data` and hands out three fields of what it returns, each as its bytes.
///
/// The outside function reads the account in place and refuses bytes that
/// lie at an address unfit for its fields, so the copy is made into
/// `scratch`: a buffer of whole words is aligned for a field of eight bytes,
/// and the fields begin eight bytes into it.
///
/// Trusted: on such a buffer the call succeeds exactly where `data` holds at
/// least 408 bytes and begins with the eight bytes that mark a randomness
/// account, and the three fields are the bytes at offsets 104, 144 and 152.
#[verifier::external_body]
fn parse_randomness(data: &[u8], scratch: Vec<u64>) -> (res: Result<RawRandomness, OnDemandError>)
    requires
        data@.len() <= scratch@.len() * 8,
    ensures
        res is Ok <==> is_randomness_account(data@),
        res matches Ok(raw) ==> raw.lies_in(data@),
{
    let mut words = scratch;
    let bytes = &mut bytemuck::cast_slice_mut::<u64, u8>(&mut words)[..data.len()];
    bytes.copy_from_slice(data);
    let cell = std::cell::RefCell::new(bytes);
    let parsed = RandomnessAccountData::parse(cell.borrow());
    match parsed {
        Ok(account) => Ok(
            RawRandomness {
                seed_slot: account.seed_slot.to_ne_bytes(),
                reveal_slot: account.reveal_slot.to_ne_bytes(),
                value: account.value,
            },
        ),
        Err(error) => Err(error),
    }
}

/// Calls `RandomnessAccountData::get_value` of switchboard-on-demand on an
/// account that holds the fields of `data`.
///
/// Trusted: the value is handed out if and only if it was revealed in the
/// slot `clock_slot`, and it is the one that the account holds.
#[verifier::external_body]
fn revealed_value(data: &RandomnessData, clock_slot: u64) -> (res: Result<[u8; 32], OnDemandError>)
    ensures
        res is Ok <==> clock_slot == data.reveal_slot,
        res matches Ok(value) ==> value == data.value,
{
    let mut account: RandomnessAccountData = bytemuck::Zeroable::zeroed();
    account.seed_slot = data.seed_slot;
    account.reveal_slot = data.reveal_slot;
    account.value = data.value;
    account.get_value(clock_slot)
}

/// Reads an oracle's randomness account from its raw bytes: the two slots
/// and the value where the bytes are long enough for a randomness account
/// and begin as one, and `None` where they do not.
pub fn read_randomness(data: &Vec<u8>) -> (randomness: Option<RandomnessData>)
    ensures
        reading(randomness) == parsed(data@),
{
    let words = data.len() / 8 + 1;
    let scratch: Vec<u64> = vec![0u64; words];
    randomness_of(parse_randomness(data.as_slice(), scratch))
}

/// What the lottery keeps of an answer of the oracle's library: the fields
/// that it read, the slots as numbers, and nothing where it refused the
/// bytes, whatever its reason.
pub fn randomness_of(parsed: Result<RawRandomness, OnDemandError>) -> (randomness: Option<
    RandomnessData,
>)
    ensures
        reading(randomness) == match parsed {
            Ok(raw) => Some(raw.decoded()),
            Err(_) => None::<RandomnessView>,
        },
{
    match parsed {
        Ok(raw) => Some(
            RandomnessData {
                seed_slot: le_number(&raw.seed_slot),
                reveal_slot: le_number(&raw.reveal_slot),
                value: raw.value,
            },
        ),
        Err(_) => None,
    }
}

/// The random value that the oracle revealed in the slot `current_slot`,
/// if it revealed one in that slot.
pub fn get_value(data: &RandomnessData, current_slot: u64) -> (res: Result<[u8; 32], LotteryError>)
    ensures
        res == if current_slot == data.reveal_slot {
            Ok::<[u8; 32], LotteryError>(data.value)
        } else {
            Err::<[u8; 32], LotteryError>(LotteryError::NoWinner)
        },
{
    match revealed_value(data, current_slot) {
        Ok(value) => Ok(value),
        Err(_) => Err(LotteryError::NoWinner),
    }
}

/// The number that the first eight bytes spell, lowest byte first.
pub open spec fn le_u64(bytes: Seq<u8>) -> nat
    recommends
        bytes.len() >= 8,
{
    (bytes[0] + 0x100 * bytes[1] + 0x1_0000 * bytes[2] + 0x100_0000 * bytes[3] + 0x1_0000_0000
        * bytes[4] + 0x100_0000_0000 * bytes[5] + 0x1_0000_0000_0000 * bytes[6]
        + 0x100_0000_0000_0000 * bytes[7]) as nat
}

/// The place in a list of `count` participants that a random value points at.
pub open spec fn winner_index(value: Seq<u8>, count: nat) -> int
    recommends
        value.len() >= 8,
        count > 0,
{
    (le_u64(value) % count) as int
}

/// Reads eight bytes as a number, lowest byte first.
pub fn le_number(bytes: &[u8; 8]) -> (number: u64)
    ensures
        number == le_u64(bytes@),
{
    let b0: u64 = bytes[0] as u64;
    let b1: u64 = bytes[1] as u64;
    let b2: u64 = bytes[2] as u64;
    let b3: u64 = bytes[3] as u64;
    let b4: u64 = bytes[4] as u64;
    let b5: u64 = bytes[5] as u64;
    let b6: u64 = bytes[6] as u64;
    let b7: u64 = bytes[7] as u64;
    b0 + 0x100 * b1 + 0x1_0000 * b2 + 0x100_0000 * b3 + 0x1_0000_0000 * b4 + 0x100_0000_0000 * b5
        + 0x1_0000_0000_0000 * b6 + 0x100_0000_0000_0000 * b7
}

/// Reads the first eight bytes of a random value as a number, lowest byte first.
pub fn random_number(value: &[u8; 32]) -> (number: u64)
    ensures
        number == le_u64(value@),
{
    let b0: u64 = value[0] as u64;
    let b1: u64 = value[1] as u64;
    let b2: u64 = value[2] as u64;
    let b3: u64 = value[3] as u64;
    let b4: u64 = value[4] as u64;
    let b5: u64 = value[5] as u64;
    let b6: u64 = value[6] as u64;
    let b7: u64 = value[7] as u64;
    b0 + 0x100 * b1 + 0x1_0000 * b2 + 0x100_0000 * b3 + 0x1_0000_0000 * b4 + 0x100_0000_0000 * b5
        + 0x1_0000_0000_0000 * b6 + 0x100_0000_0000_0000 * b7
}

} // verus!
