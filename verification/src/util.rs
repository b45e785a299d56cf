//! Phase-transition timelocks, fairness-seed material, and the seeded
//! winner-index draw.

use vstd::prelude::*;

use crate::error::LotteryError;
use crate::storage::{
    LotteryStatus, LotteryStore, MIN_BUYIN_TIME_IN_LEDGERS, MIN_ENDED_TIME_IN_LEDGERS,
    MIN_YIELD_TIME_IN_LEDGERS,
};

verus! {

/// The edges of the phase cycle: these and only these transitions can
/// succeed.
pub open spec fn valid_transition(current: LotteryStatus, new: LotteryStatus) -> bool {
    match (current, new) {
        (LotteryStatus::BuyIn, LotteryStatus::YieldFarming) => true,
        (LotteryStatus::YieldFarming, LotteryStatus::Ended) => true,
        (LotteryStatus::Ended, LotteryStatus::BuyIn) => true,
        _ => false,
    }
}

/// Whether the current phase, begun at the height its start key records,
/// has lasted its minimum dwell by `current_ledger`. Only a valid edge can
/// have its timelock passed.
pub open spec fn spec_timelock_passed(
    s: LotteryStore,
    current: LotteryStatus,
    new: LotteryStatus,
    current_ledger: u32,
) -> bool {
    match (current, new) {
        (LotteryStatus::BuyIn, LotteryStatus::YieldFarming) => current_ledger
            >= s.buyin_started_ledger + MIN_BUYIN_TIME_IN_LEDGERS,
        (LotteryStatus::YieldFarming, LotteryStatus::Ended) => current_ledger
            >= s.farming_started_ledger + MIN_YIELD_TIME_IN_LEDGERS,
        (LotteryStatus::Ended, LotteryStatus::BuyIn) => current_ledger
            >= s.ended_started_ledger + MIN_ENDED_TIME_IN_LEDGERS,
        _ => false,
    }
}

/// Decides whether the requested transition's timelock has elapsed at
/// `current_ledger`; a requested edge outside the phase cycle never has.
/// Skipped or repeated clock readings are harmless: the check compares
/// heights, never subtracts them.
pub fn is_timelock_passed(
    s: &LotteryStore,
    current_status: &LotteryStatus,
    new_status: &LotteryStatus,
    current_ledger: u32,
) -> (r: Result<bool, LotteryError>)
    ensures
        r == Ok::<bool, LotteryError>(
            spec_timelock_passed(*s, *current_status, *new_status, current_ledger),
        ),
{
    let required_ledgers: u32 = match (current_status, new_status) {
        (LotteryStatus::BuyIn, LotteryStatus::YieldFarming) => MIN_BUYIN_TIME_IN_LEDGERS,
        (LotteryStatus::YieldFarming, LotteryStatus::Ended) => MIN_YIELD_TIME_IN_LEDGERS,
        (LotteryStatus::Ended, LotteryStatus::BuyIn) => MIN_ENDED_TIME_IN_LEDGERS,
        _ => {
            return Ok(false);
        },
    };
    let started_ledger: u32 = match current_status {
        LotteryStatus::BuyIn => s.buyin_started_ledger,
        LotteryStatus::YieldFarming => s.farming_started_ledger,
        LotteryStatus::Ended => s.ended_started_ledger,
    };
    Ok((current_ledger as u64) >= (started_ledger as u64) + (required_ledgers as u64))
}

/// The twelve bytes the fairness seed is derived from: the ledger timestamp
/// and the ledger height, each big-endian.
pub open spec fn spec_seed_material(timestamp: u64, sequence: u32) -> Seq<u8> {
    seq![
        (timestamp >> 56) as u8,
        (timestamp >> 48) as u8,
        (timestamp >> 40) as u8,
        (timestamp >> 32) as u8,
        (timestamp >> 24) as u8,
        (timestamp >> 16) as u8,
        (timestamp >> 8) as u8,
        timestamp as u8,
        (sequence >> 24) as u8,
        (sequence >> 16) as u8,
        (sequence >> 8) as u8,
        sequence as u8,
    ]
}

/// Packs the clock readings taken on entering the ended phase into the byte
/// string whose digest becomes the fairness seed. The digest itself is the
/// host hash primitive's work.
pub fn seed_material(timestamp: u64, sequence: u32) -> (r: Vec<u8>)
    ensures
        r@ == spec_seed_material(timestamp, sequence),
{
    let mut material: Vec<u8> = Vec::new();
    material.push((timestamp >> 56) as u8);
    material.push((timestamp >> 48) as u8);
    material.push((timestamp >> 40) as u8);
    material.push((timestamp >> 32) as u8);
    material.push((timestamp >> 24) as u8);
    material.push((timestamp >> 16) as u8);
    material.push((timestamp >> 8) as u8);
    material.push(timestamp as u8);
    material.push((sequence >> 24) as u8);
    material.push((sequence >> 16) as u8);
    material.push((sequence >> 8) as u8);
    material.push(sequence as u8);
    proof {
        assert(material@ =~= spec_seed_material(timestamp, sequence));
    }
    material
}

/// The value packed from the first `k` seed bytes, big-endian.
pub open spec fn seed_prefix_value(seed: Seq<u8>, k: int) -> u64
    decreases k,
{
    if k <= 0 {
        0u64
    } else {
        (seed_prefix_value(seed, k - 1) << 8) | (seed[k - 1] as u64)
    }
}

/// How many leading seed bytes feed the draw: eight, or fewer if the seed
/// is shorter.
pub open spec fn seed_prefix_len(seed: Seq<u8>) -> int {
    if seed.len() < 8 {
        seed.len() as int
    } else {
        8
    }
}

/// The winner index the seed selects among `n` active tickets: the leading
/// seed bytes read as one big-endian value, reduced modulo `n`.
pub open spec fn spec_seeded_index(seed: Seq<u8>, n: u32) -> u32
    recommends
        n > 0,
{
    (seed_prefix_value(seed, seed_prefix_len(seed)) % (n as u64)) as u32
}

/// Draws the winner index from the fairness seed: a reproducible function
/// of the seed bytes and the number of active tickets alone, covering every
/// index below `n`. Reducing a 64-bit value modulo `n` is uniform up to a
/// bias below `n` in `2^64` — negligible for any realistic ticket count.
pub fn seeded_index(seed: &Vec<u8>, n: u32) -> (r: u32)
    requires
        n > 0,
    ensures
        r == spec_seeded_index(seed@, n),
        r < n,
{
    let len = seed.len();
    let kmax: usize = if len < 8 {
        len
    } else {
        8
    };
    let mut acc: u64 = 0;
    let mut i: usize = 0;
    while i < kmax
        invariant
            kmax == seed_prefix_len(seed@),
            kmax <= seed@.len(),
            0 <= i <= kmax,
            acc == seed_prefix_value(seed@, i as int),
        decreases kmax - i,
    {
        acc = (acc << 8) | (seed[i] as u64);
        i += 1;
    }
    (acc % (n as u64)) as u32
}

} // verus!
