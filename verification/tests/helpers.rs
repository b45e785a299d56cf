//! The seed material, the seeded draw, the timelock check, and the
//! reserve-index scan.

use no_loss_lottery::contract::find_reserve_index;
use no_loss_lottery::storage::{
    LotteryStatus, LotteryStore, MIN_BUYIN_TIME_IN_LEDGERS,
};
use no_loss_lottery::util::{is_timelock_passed, seed_material, seeded_index};

#[test]
fn timelock_check_follows_the_phase_start() {
    let store = LotteryStore::__constructor(1, 10, 10_000_000, 20, 100);
    let dwell = MIN_BUYIN_TIME_IN_LEDGERS;

    // one short of the dwell: not passed; at the dwell: passed
    let early = is_timelock_passed(
        &store,
        &LotteryStatus::BuyIn,
        &LotteryStatus::YieldFarming,
        100 + dwell - 1,
    );
    assert_eq!(Ok(false), early);
    let due = is_timelock_passed(
        &store,
        &LotteryStatus::BuyIn,
        &LotteryStatus::YieldFarming,
        100 + dwell,
    );
    assert_eq!(Ok(true), due);

    // an edge outside the cycle never has its timelock passed
    let invalid = is_timelock_passed(
        &store,
        &LotteryStatus::BuyIn,
        &LotteryStatus::Ended,
        u32::MAX,
    );
    assert_eq!(Ok(false), invalid);
}

#[test]
fn seed_material_is_timestamp_then_height_big_endian() {
    let material = seed_material(0x0102030405060708, 0x0A0B0C0D);
    assert_eq!(
        vec![1u8, 2, 3, 4, 5, 6, 7, 8, 0x0A, 0x0B, 0x0C, 0x0D],
        material
    );
}

#[test]
fn seed_material_of_zero_readings() {
    assert_eq!(vec![0u8; 12], seed_material(0, 0));
}

#[test]
fn seeded_index_is_reproducible() {
    let seed = vec![0xDEu8, 0xAD, 0xBE, 0xEF, 1, 2, 3, 4, 5, 6];
    let first = seeded_index(&seed, 7);
    let second = seeded_index(&seed, 7);
    assert_eq!(first, second);
    assert!(first < 7);
}

#[test]
fn seeded_index_reads_leading_bytes_big_endian() {
    // eight leading bytes read as the value 5
    let seed = vec![0u8, 0, 0, 0, 0, 0, 0, 5];
    assert_eq!(2, seeded_index(&seed, 3));
    assert_eq!(5, seeded_index(&seed, 100));

    // a seed shorter than eight bytes still draws
    let short = vec![1u8];
    assert_eq!(1, seeded_index(&short, 10));
    let empty: Vec<u8> = Vec::new();
    assert_eq!(0, seeded_index(&empty, 10));

    // bytes beyond the eighth do not matter
    let long = vec![0u8, 0, 0, 0, 0, 0, 0, 5, 99, 42];
    assert_eq!(5, seeded_index(&long, 100));
}

#[test]
fn seeded_index_covers_every_slot() {
    // with n = 1 the only slot is always drawn
    let seed = vec![9u8; 32];
    assert_eq!(0, seeded_index(&seed, 1));

    // the last slot is reachable: value 2 modulo 3
    let seed2 = vec![0u8, 0, 0, 0, 0, 0, 0, 2];
    assert_eq!(2, seeded_index(&seed2, 3));
}

#[test]
fn reserve_index_of_listed_asset() {
    let list: Vec<u64> = vec![5, 7, 9];
    assert_eq!(0, find_reserve_index(&list, &5));
    assert_eq!(1, find_reserve_index(&list, &7));
    assert_eq!(2, find_reserve_index(&list, &9));
}

#[test]
fn reserve_index_defaults_to_zero() {
    let list: Vec<u64> = vec![5, 7, 9];
    assert_eq!(0, find_reserve_index(&list, &11));
    let empty: Vec<u64> = Vec::new();
    assert_eq!(0, find_reserve_index(&empty, &5));
}
