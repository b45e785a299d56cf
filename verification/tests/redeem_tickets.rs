//! Ticket redemption, gated by the phase and the reserve flag.

use no_loss_lottery::error::LotteryError;
use no_loss_lottery::storage::{LotteryStatus, LotteryStore, Ticket};

const ADMIN: u64 = 1;
const USER: u64 = 2;
const XLM: u64 = 10;
const BLEND: u64 = 20;
const TICKET_PRICE: i128 = 10_000_000;

fn setup_lottery() -> LotteryStore {
    LotteryStore::__constructor(ADMIN, XLM, TICKET_PRICE, BLEND, 1)
}

#[test]
fn redeem_status_buyin() {
    let mut lottery = setup_lottery();

    let ticket = lottery.buy_ticket(USER).unwrap();
    lottery.redeem_ticket(ticket).unwrap();

    let user_tickets = lottery.get_user_tickets(USER).unwrap();
    let user_tickets_should_be: Vec<Ticket> = vec![];

    assert_eq!(user_tickets_should_be, user_tickets);
}

#[test]
fn redeem_status_yieldfarming() {
    let mut lottery = setup_lottery();

    let ticket = lottery.buy_ticket(USER).unwrap();
    lottery
        .set_status(LotteryStatus::YieldFarming, 100_000, &Vec::new())
        .unwrap();

    let result = lottery.redeem_ticket(ticket);
    assert_eq!(result, Err(LotteryError::WrongStatus));
}

#[test]
fn redeem_status_ended() {
    let mut lottery = setup_lottery();

    let ticket = lottery.buy_ticket(USER).unwrap();
    lottery
        .set_status(LotteryStatus::YieldFarming, 100_000, &Vec::new())
        .unwrap();
    lottery
        .set_status(LotteryStatus::Ended, 300_000, &vec![7u8; 32])
        .unwrap();
    lottery.redeem_ticket(ticket).unwrap();

    let user_tickets = lottery.get_user_tickets(USER).unwrap();
    let user_tickets_should_be: Vec<Ticket> = vec![];

    assert_eq!(user_tickets_should_be, user_tickets);
}

#[test]
fn redeem_multiple() {
    let mut lottery = setup_lottery();

    let ticket = lottery.buy_ticket(USER).unwrap();
    let ticket2 = lottery.buy_ticket(USER).unwrap();

    lottery.redeem_ticket(ticket).unwrap();
    lottery.redeem_ticket(ticket2).unwrap();

    let user_tickets = lottery.get_user_tickets(USER).unwrap();
    let user_tickets_should_be: Vec<Ticket> = vec![];

    assert_eq!(user_tickets_should_be, user_tickets);
}

#[test]
fn redeem_while_funds_in_reserve() {
    let mut lottery = setup_lottery();

    let ticket = lottery.buy_ticket(USER).unwrap();
    lottery
        .set_status(LotteryStatus::YieldFarming, 100_000, &Vec::new())
        .unwrap();
    lottery.blend_it(ADMIN, TICKET_PRICE).unwrap();
    lottery
        .set_status(LotteryStatus::Ended, 300_000, &vec![7u8; 32])
        .unwrap();

    // the pooled funds still sit in the reserve: no redemption
    let result = lottery.redeem_ticket(ticket);
    assert_eq!(result, Err(LotteryError::WrongStatus));
}

#[test]
fn redeem_unknown_ticket_changes_nothing() {
    let mut lottery = setup_lottery();

    let ticket = lottery.buy_ticket(USER).unwrap();
    let fake = Ticket {
        id: 99,
        user: USER,
        token: XLM,
        amount: TICKET_PRICE,
        won: false,
    };

    let result = lottery.redeem_ticket(fake);
    assert_eq!(result, Err(LotteryError::TicketNotFound));

    // the real ticket is untouched
    let user_tickets = lottery.get_user_tickets(USER).unwrap();
    assert_eq!(vec![ticket], user_tickets);
    assert_eq!(1, lottery.get_lottery_state().unwrap().no_participants);
}
