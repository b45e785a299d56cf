//! The phase cycle and its timelocks.

use no_loss_lottery::error::LotteryError;
use no_loss_lottery::storage::{
    LotteryStatus, LotteryStore, MIN_BUYIN_TIME_IN_LEDGERS,
};

const ADMIN: u64 = 1;
const XLM: u64 = 10;
const BLEND: u64 = 20;
const TICKET_PRICE: i128 = 10_000_000;

fn setup_lottery() -> LotteryStore {
    LotteryStore::__constructor(ADMIN, XLM, TICKET_PRICE, BLEND, 1)
}

#[test]
fn set_status_yieldfarming() {
    let mut lottery = setup_lottery();

    lottery
        .set_status(LotteryStatus::YieldFarming, 100_000, &Vec::new())
        .unwrap();

    let state = lottery.get_lottery_state().unwrap();
    assert_eq!(LotteryStatus::YieldFarming, state.status);
}

#[test]
fn set_status_ended() {
    let mut lottery = setup_lottery();

    lottery
        .set_status(LotteryStatus::YieldFarming, 100_000, &Vec::new())
        .unwrap();
    lottery
        .set_status(LotteryStatus::Ended, 300_000, &vec![7u8; 32])
        .unwrap();

    let state = lottery.get_lottery_state().unwrap();
    assert_eq!(LotteryStatus::Ended, state.status);
}

#[test]
fn set_status_buyin() {
    let mut lottery = setup_lottery();

    lottery
        .set_status(LotteryStatus::YieldFarming, 100_000, &Vec::new())
        .unwrap();
    lottery
        .set_status(LotteryStatus::Ended, 300_000, &vec![7u8; 32])
        .unwrap();
    lottery
        .set_status(LotteryStatus::BuyIn, 400_000, &Vec::new())
        .unwrap();

    let state = lottery.get_lottery_state().unwrap();
    assert_eq!(LotteryStatus::BuyIn, state.status);
}

#[test]
fn set_status_ended_after_buyin() {
    let mut lottery = setup_lottery();
    let result = lottery.set_status(LotteryStatus::Ended, 500_000, &vec![7u8; 32]);
    assert_eq!(result, Err(LotteryError::WrongStatus));
}

#[test]
fn set_status_yieldfarming_after_ended() {
    let mut lottery = setup_lottery();
    lottery
        .set_status(LotteryStatus::YieldFarming, 100_000, &Vec::new())
        .unwrap();
    lottery
        .set_status(LotteryStatus::Ended, 300_000, &vec![7u8; 32])
        .unwrap();
    let result = lottery.set_status(LotteryStatus::YieldFarming, 300_000, &Vec::new());
    assert_eq!(result, Err(LotteryError::WrongStatus));
}

#[test]
fn set_status_buyin_after_yieldfarming() {
    let mut lottery = setup_lottery();
    lottery
        .set_status(LotteryStatus::YieldFarming, 100_000, &Vec::new())
        .unwrap();
    let result = lottery.set_status(LotteryStatus::BuyIn, 100_000, &Vec::new());
    assert_eq!(result, Err(LotteryError::WrongStatus));
}

#[test]
fn timelock_blocks_early_transition() {
    let mut lottery = setup_lottery();

    // one ledger short of the dwell
    let early = MIN_BUYIN_TIME_IN_LEDGERS; // started at 1, so 1 + dwell - 1
    let result = lottery.set_status(LotteryStatus::YieldFarming, early, &Vec::new());
    assert_eq!(result, Err(LotteryError::MinimumTimeLockNotEnded));

    // exactly at the dwell it succeeds
    lottery
        .set_status(LotteryStatus::YieldFarming, 1 + MIN_BUYIN_TIME_IN_LEDGERS, &Vec::new())
        .unwrap();
    let state = lottery.get_lottery_state().unwrap();
    assert_eq!(LotteryStatus::YieldFarming, state.status);
}

#[test]
fn phase_start_heights_are_recorded() {
    let mut lottery = setup_lottery();
    assert_eq!(1, lottery.get_status_started_ledger().unwrap());

    lottery
        .set_status(LotteryStatus::YieldFarming, 100_000, &Vec::new())
        .unwrap();
    assert_eq!(100_000, lottery.get_status_started_ledger().unwrap());

    lottery
        .set_status(LotteryStatus::Ended, 300_000, &vec![7u8; 32])
        .unwrap();
    assert_eq!(300_000, lottery.get_status_started_ledger().unwrap());

    lottery
        .set_status(LotteryStatus::BuyIn, 400_000, &Vec::new())
        .unwrap();
    assert_eq!(400_000, lottery.get_status_started_ledger().unwrap());
}
