//! Every error kind, with an input that produces it.

use no_loss_lottery::error::LotteryError;
use no_loss_lottery::storage::{
    LotteryState, LotteryStatus, LotteryStore, Ticket,
};

const ADMIN: u64 = 1;
const USER: u64 = 2;
const XLM: u64 = 10;
const BLEND: u64 = 20;
const TICKET_PRICE: i128 = 10_000_000;

fn setup_lottery() -> LotteryStore {
    LotteryStore::__constructor(ADMIN, XLM, TICKET_PRICE, BLEND, 1)
}

fn empty_store() -> LotteryStore {
    LotteryStore {
        admin: None,
        lottery_status: None,
        currency: None,
        token_amount: None,
        lottery_state: None,
        tickets: Vec::new(),
        ticket_counter: 0,
        user_tickets: Vec::new(),
        sent_balance: None,
        blend_address: None,
        ids: None,
        winner_selected: None,
        seed: None,
        buyin_started_ledger: 0,
        farming_started_ledger: 0,
        ended_started_ledger: 0,
    }
}

#[test]
fn missing_status_key() {
    let mut store = empty_store();
    assert_eq!(Err(LotteryError::LotteryStatusNotFound), store.buy_ticket(USER));
    assert_eq!(
        Err(LotteryError::LotteryStatusNotFound),
        store.set_status(LotteryStatus::YieldFarming, 100_000, &Vec::new())
    );
}

#[test]
fn missing_currency_key() {
    let mut store = empty_store();
    store.lottery_status = Some(LotteryStatus::BuyIn);
    assert_eq!(
        Err(LotteryError::LotteryCurrencyNotFound),
        store.buy_ticket(USER)
    );
}

#[test]
fn missing_price_key() {
    let mut store = empty_store();
    store.lottery_status = Some(LotteryStatus::BuyIn);
    store.currency = Some(XLM);
    assert_eq!(Err(LotteryError::TokenAmountNotFound), store.buy_ticket(USER));
}

#[test]
fn missing_state_record() {
    let mut store = empty_store();
    store.lottery_status = Some(LotteryStatus::BuyIn);
    store.currency = Some(XLM);
    store.token_amount = Some(TICKET_PRICE);
    // the first ticket of a new owner needs the participant count
    assert_eq!(
        Err(LotteryError::LotteryStateNotFound),
        store.buy_ticket(USER)
    );

    let fake = Ticket {
        id: 1,
        user: USER,
        token: XLM,
        amount: TICKET_PRICE,
        won: false,
    };
    assert_eq!(
        Err(LotteryError::LotteryStateNotFound),
        store.redeem_ticket(fake)
    );
}

#[test]
fn redeem_ticket_not_found() {
    let mut lottery = setup_lottery();
    let fake = Ticket {
        id: 1,
        user: USER,
        token: XLM,
        amount: TICKET_PRICE,
        won: false,
    };
    assert_eq!(Err(LotteryError::TicketNotFound), lottery.redeem_ticket(fake));
}

#[test]
fn redeem_mismatched_record() {
    let mut lottery = setup_lottery();
    let mut ticket = lottery.buy_ticket(USER).unwrap();
    // a record that differs from what is stored is refused
    ticket.amount = TICKET_PRICE + 1;
    assert_eq!(
        Err(LotteryError::TicketNotFound),
        lottery.redeem_ticket(ticket)
    );
}

#[test]
fn blend_it_requires_admin() {
    let mut lottery = setup_lottery();
    lottery
        .set_status(LotteryStatus::YieldFarming, 100_000, &Vec::new())
        .unwrap();
    assert_eq!(
        Err(LotteryError::NotAuthorized),
        lottery.blend_it(USER, TICKET_PRICE)
    );
}

#[test]
fn blend_it_wrong_phase() {
    let mut lottery = setup_lottery();
    assert_eq!(
        Err(LotteryError::WrongStatus),
        lottery.blend_it(ADMIN, TICKET_PRICE)
    );
}

#[test]
fn blend_it_missing_admin_key() {
    let mut store = empty_store();
    store.lottery_status = Some(LotteryStatus::YieldFarming);
    assert_eq!(
        Err(LotteryError::AdminNotFound),
        store.blend_it(ADMIN, TICKET_PRICE)
    );
}

#[test]
fn claim_missing_admin_key() {
    let store = empty_store();
    assert_eq!(
        Err(LotteryError::AdminNotFound),
        store.admin_claim_emissions(ADMIN, &vec![XLM])
    );
}

#[test]
fn claim_requires_admin() {
    let lottery = setup_lottery();
    assert_eq!(
        Err(LotteryError::NotAuthorized),
        lottery.admin_claim_emissions(USER, &vec![XLM])
    );
}

#[test]
fn missing_blend_address_key() {
    let mut store = empty_store();
    store.lottery_status = Some(LotteryStatus::Ended);
    store.admin = Some(ADMIN);
    store.currency = Some(XLM);
    assert_eq!(
        Err(LotteryError::BlenderNotFound),
        store.prepare_withdraw_from_blend(ADMIN, &vec![XLM], &vec![0])
    );
}

#[test]
fn withdraw_without_position() {
    let mut lottery = setup_lottery();
    lottery
        .set_status(LotteryStatus::YieldFarming, 100_000, &Vec::new())
        .unwrap();
    lottery
        .set_status(LotteryStatus::Ended, 300_000, &vec![7u8; 32])
        .unwrap();
    // the reserve reports no supply position for the pool
    assert_eq!(
        Err(LotteryError::BlendPositionNotFound),
        lottery.prepare_withdraw_from_blend(ADMIN, &vec![XLM], &Vec::new())
    );
}

#[test]
fn withdraw_wrong_phase() {
    let mut lottery = setup_lottery();
    assert_eq!(
        Err(LotteryError::WrongStatus),
        lottery.prepare_withdraw_from_blend(ADMIN, &vec![XLM], &vec![0])
    );
    assert_eq!(
        Err(LotteryError::WrongStatus),
        lottery.withdraw_from_blend(ADMIN, 0, 0)
    );
}

#[test]
fn withdraw_requires_admin() {
    let mut lottery = setup_lottery();
    lottery
        .set_status(LotteryStatus::YieldFarming, 100_000, &Vec::new())
        .unwrap();
    lottery.blend_it(ADMIN, TICKET_PRICE).unwrap();
    lottery
        .set_status(LotteryStatus::Ended, 300_000, &vec![7u8; 32])
        .unwrap();

    assert_eq!(
        Err(LotteryError::NotAuthorized),
        lottery.prepare_withdraw_from_blend(USER, &vec![XLM], &vec![0])
    );
    assert_eq!(
        Err(LotteryError::NotAuthorized),
        lottery.withdraw_from_blend(USER, 0, TICKET_PRICE)
    );
    // nothing changed: the pool still sits in the reserve
    assert!(lottery.get_lottery_state().unwrap().in_blender);
}

#[test]
fn withdraw_missing_sent_balance_key() {
    let mut store = empty_store();
    store.lottery_status = Some(LotteryStatus::Ended);
    store.admin = Some(ADMIN);
    assert_eq!(
        Err(LotteryError::SentToBlendNotFound),
        store.withdraw_from_blend(ADMIN, 0, 0)
    );
}

#[test]
fn missing_active_list_key() {
    let store = empty_store();
    assert_eq!(
        Err(LotteryError::IdsNotFound),
        no_loss_lottery::storage::read_ids(&store)
    );
}

#[test]
fn raffle_missing_winner_flag_key() {
    let mut store = empty_store();
    store.lottery_status = Some(LotteryStatus::Ended);
    store.lottery_state = Some(LotteryState {
        status: LotteryStatus::Ended,
        no_participants: 0,
        amount_of_yield: 0,
        token: XLM,
        in_blender: false,
    });
    assert_eq!(
        Err(LotteryError::WinnerSelectedNotFound),
        store.raffle()
    );
}

#[test]
fn raffle_missing_seed_key() {
    let mut store = empty_store();
    store.lottery_status = Some(LotteryStatus::Ended);
    store.lottery_state = Some(LotteryState {
        status: LotteryStatus::Ended,
        no_participants: 0,
        amount_of_yield: 0,
        token: XLM,
        in_blender: false,
    });
    store.winner_selected = Some(false);
    store.ids = Some(Vec::new());
    assert_eq!(Err(LotteryError::SeedNotFound), store.raffle());
}
