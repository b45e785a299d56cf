//! The winner draw.

use no_loss_lottery::error::LotteryError;
use no_loss_lottery::storage::{LotteryStatus, LotteryStore};

const ADMIN: u64 = 1;
const USER: u64 = 2;
const XLM: u64 = 10;
const BLEND: u64 = 20;
const TICKET_PRICE: i128 = 10_000_000;

fn setup_lottery() -> LotteryStore {
    LotteryStore::__constructor(ADMIN, XLM, TICKET_PRICE, BLEND, 1)
}

#[test]
fn raffle_status_buyin() {
    let mut lottery = setup_lottery();
    let result = lottery.raffle();
    assert_eq!(result, Err(LotteryError::WrongStatus));
}

#[test]
fn raffle_status_yieldfarming() {
    let mut lottery = setup_lottery();
    lottery
        .set_status(LotteryStatus::YieldFarming, 100_000, &Vec::new())
        .unwrap();
    let result = lottery.raffle();
    assert_eq!(result, Err(LotteryError::WrongStatus));
}

#[test]
fn raffle_status_ended() {
    let mut lottery = setup_lottery();

    let mut user_ticket = lottery.buy_ticket(USER).unwrap();

    lottery
        .set_status(LotteryStatus::YieldFarming, 100_000, &Vec::new())
        .unwrap();
    lottery
        .set_status(LotteryStatus::Ended, 300_000, &vec![7u8; 32])
        .unwrap();
    let winner = lottery.raffle().unwrap();

    user_ticket.won = true;

    assert_eq!(user_ticket, winner)
}

#[test]
fn raffle_only_once_per_cycle() {
    let mut lottery = setup_lottery();

    lottery.buy_ticket(USER).unwrap();
    lottery
        .set_status(LotteryStatus::YieldFarming, 100_000, &Vec::new())
        .unwrap();
    lottery
        .set_status(LotteryStatus::Ended, 300_000, &vec![7u8; 32])
        .unwrap();

    lottery.raffle().unwrap();
    let second = lottery.raffle();
    assert_eq!(second, Err(LotteryError::WinnerAlreadySelected));

    // re-entering buy-in resets the flag for the next cycle
    lottery
        .set_status(LotteryStatus::BuyIn, 400_000, &Vec::new())
        .unwrap();
    assert_eq!(Some(false), lottery.winner_selected);
}

#[test]
fn raffle_without_tickets() {
    let mut lottery = setup_lottery();
    lottery
        .set_status(LotteryStatus::YieldFarming, 100_000, &Vec::new())
        .unwrap();
    lottery
        .set_status(LotteryStatus::Ended, 300_000, &vec![7u8; 32])
        .unwrap();

    // no ticket was ever written, so the active list itself is missing;
    // an absent list reads as an empty draw pool
    let result = lottery.raffle();
    assert_eq!(result, Err(LotteryError::NoParticipants));
}

#[test]
fn raffle_after_all_redeemed() {
    let mut lottery = setup_lottery();

    let ticket = lottery.buy_ticket(USER).unwrap();
    lottery.redeem_ticket(ticket).unwrap();
    lottery
        .set_status(LotteryStatus::YieldFarming, 100_000, &Vec::new())
        .unwrap();
    lottery
        .set_status(LotteryStatus::Ended, 300_000, &vec![7u8; 32])
        .unwrap();

    let result = lottery.raffle();
    assert_eq!(result, Err(LotteryError::NoParticipants));
}

#[test]
fn raffle_while_funds_in_reserve() {
    let mut lottery = setup_lottery();

    lottery.buy_ticket(USER).unwrap();
    lottery
        .set_status(LotteryStatus::YieldFarming, 100_000, &Vec::new())
        .unwrap();
    lottery.blend_it(ADMIN, TICKET_PRICE).unwrap();
    lottery
        .set_status(LotteryStatus::Ended, 300_000, &vec![7u8; 32])
        .unwrap();

    let result = lottery.raffle();
    assert_eq!(result, Err(LotteryError::BalancesInBlender));
}
