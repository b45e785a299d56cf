//! The lottery's data model: ticket records, the per-user ticket index, the
//! active-id list, the phase record, and the configuration written once at
//! initialization.
//!
//! The surrounding host owns a durable key-value store; the core works on an
//! explicit [`LotteryStore`] snapshot of it. An `Option` field stands for a
//! key that may be absent, and reading an absent key surfaces the matching
//! [`LotteryError`] exactly as the underlying store would.

use vstd::prelude::*;

use crate::error::LotteryError;

verus! {

/// A principal or contract account, abstracted to a plain identifier. The
/// host's opaque address values map one-to-one onto these.
pub type Address = u64;

/// Minimum dwell of the buy-in phase, in ledger-height units, before the
/// transition to yield farming may succeed.
pub const MIN_BUYIN_TIME_IN_LEDGERS: u32 = 17280;

/// Minimum dwell of the yield-farming phase before the transition to the
/// ended phase may succeed.
pub const MIN_YIELD_TIME_IN_LEDGERS: u32 = 17280;

/// Minimum dwell of the ended phase before the transition back to buy-in
/// may succeed.
pub const MIN_ENDED_TIME_IN_LEDGERS: u32 = 17280;

/// The lottery phase. Exactly one value is active at a time, and the only
/// transitions that can succeed follow the cycle
/// `BuyIn -> YieldFarming -> Ended -> BuyIn`.
#[derive(Clone, Copy, PartialEq, Eq, Structural, Debug)]
pub enum LotteryStatus {
    /// Tickets may be bought or redeemed.
    BuyIn,
    /// The pooled deposits sit in the yield reserve; no redemption.
    YieldFarming,
    /// Farming is over: the yield is reconciled and a winner is drawn.
    Ended,
}

/// The summary record of the lottery.
#[derive(Clone, Copy, PartialEq, Eq, Structural, Debug)]
pub struct LotteryState {
    /// The current phase, kept in step with the stored phase key.
    pub status: LotteryStatus,
    /// The number of distinct owners currently holding at least one ticket.
    pub no_participants: u32,
    /// The yield reconciled after the last withdrawal from the reserve and
    /// not yet awarded; zeroed when a winner is drawn.
    pub amount_of_yield: i128,
    /// The configured currency.
    pub token: Address,
    /// True exactly while the pooled funds are deposited in the reserve.
    pub in_blender: bool,
}

/// One ticket: created on purchase, mutated at most once by the raffle,
/// destroyed on redemption.
#[derive(Clone, Copy, PartialEq, Eq, Structural, Debug)]
pub struct Ticket {
    /// Unique id, never reused; allocated from a monotonic counter.
    pub id: u32,
    /// The owner who deposited for this ticket.
    pub user: Address,
    /// The currency the deposit was made in.
    pub token: Address,
    /// The deposit held for this ticket; the raffle adds the yield to the
    /// winning ticket's amount.
    pub amount: i128,
    /// Set once the ticket has won a raffle.
    pub won: bool,
}

/// One owner's entry in the per-user ticket index: the ids of the tickets
/// the owner currently holds, in purchase order. An empty list is equivalent
/// to the entry being absent.
#[derive(Debug)]
pub struct UserTickets {
    /// The owner.
    pub user: Address,
    /// The owner's ticket ids, oldest first.
    pub ids: Vec<u32>,
}

/// The full persistent state of one lottery, as the core sees it: every key
/// the host's durable store may hold, made explicit. `Option` marks keys
/// that may be absent; the ticket records, the per-user index and the
/// counters default to empty.
pub struct LotteryStore {
    /// The administrator, set at initialization.
    pub admin: Option<Address>,
    /// The current phase key.
    pub lottery_status: Option<LotteryStatus>,
    /// The configured currency.
    pub currency: Option<Address>,
    /// The configured ticket price.
    pub token_amount: Option<i128>,
    /// The summary record.
    pub lottery_state: Option<LotteryState>,
    /// Every stored ticket record, in insertion order.
    pub tickets: Vec<Ticket>,
    /// The last ticket id handed out; ids start at 1.
    pub ticket_counter: u32,
    /// The per-user ticket index.
    pub user_tickets: Vec<UserTickets>,
    /// The principal amount last sent to the reserve.
    pub sent_balance: Option<i128>,
    /// The reserve's address.
    pub blend_address: Option<Address>,
    /// The active ticket ids, kept consistent with the stored records.
    pub ids: Option<Vec<u32>>,
    /// True once a winner has been drawn in the current ended period.
    pub winner_selected: Option<bool>,
    /// The fairness seed derived when the current ended period began.
    pub seed: Option<Vec<u8>>,
    /// The ledger height at which the last buy-in period began.
    pub buyin_started_ledger: u32,
    /// The ledger height at which the last farming period began.
    pub farming_started_ledger: u32,
    /// The ledger height at which the last ended period began.
    pub ended_started_ledger: u32,
}

/// The ids of a sequence of ticket records, in the same order.
pub open spec fn ticket_ids(tickets: Seq<Ticket>) -> Seq<u32> {
    tickets.map_values(|t: Ticket| t.id)
}

/// The first position in `tickets` holding the id, or `tickets.len()` if no
/// record holds it.
pub open spec fn first_ticket_index(tickets: Seq<Ticket>, id: u32) -> int
    decreases tickets.len(),
{
    if tickets.len() == 0 {
        0
    } else if tickets[0].id == id {
        0
    } else {
        1 + first_ticket_index(tickets.drop_first(), id)
    }
}

/// Whether some stored record holds the id.
pub open spec fn has_ticket_id(tickets: Seq<Ticket>, id: u32) -> bool {
    first_ticket_index(tickets, id) < tickets.len()
}

/// The first position of `id` in a plain id list, or its length.
pub open spec fn first_id_index(ids: Seq<u32>, id: u32) -> int
    decreases ids.len(),
{
    if ids.len() == 0 {
        0
    } else if ids[0] == id {
        0
    } else {
        1 + first_id_index(ids.drop_first(), id)
    }
}

/// The first position of the owner's entry in the per-user index, or the
/// index's length if the owner has no entry.
pub open spec fn first_user_index(entries: Seq<UserTickets>, user: Address) -> int
    decreases entries.len(),
{
    if entries.len() == 0 {
        0
    } else if entries[0].user == user {
        0
    } else {
        1 + first_user_index(entries.drop_first(), user)
    }
}

/// Whether the owner has an entry in the per-user index.
pub open spec fn has_user(entries: Seq<UserTickets>, user: Address) -> bool {
    first_user_index(entries, user) < entries.len()
}

/// The ids the per-user index lists for the owner; empty when the owner has
/// no entry.
pub open spec fn user_entry_ids(entries: Seq<UserTickets>, user: Address) -> Seq<u32> {
    if has_user(entries, user) {
        entries[first_user_index(entries, user)].ids@
    } else {
        Seq::empty()
    }
}

/// How many owners the per-user index lists with at least one ticket.
pub open spec fn nonempty_count(entries: Seq<UserTickets>) -> nat
    decreases entries.len(),
{
    if entries.len() == 0 {
        0
    } else {
        (if entries[0].ids@.len() > 0 {
            1nat
        } else {
            0nat
        }) + nonempty_count(entries.drop_first())
    }
}

impl LotteryStore {
    /// The active ticket ids, reading an absent list as empty.
    pub open spec fn active_ids(self) -> Seq<u32> {
        match self.ids {
            Some(v) => v@,
            None => Seq::empty(),
        }
    }

    /// Well-formedness of a reachable store: the active-id list mirrors the
    /// stored records one for one, ids are unique and bounded by the
    /// counter, the per-user index names each owner once, and the summary
    /// record's participant count matches the index.
    pub open spec fn wf(self) -> bool {
        &&& self.active_ids() == ticket_ids(self.tickets@)
        &&& forall|i: int, j: int|
            0 <= i < j < self.tickets@.len() ==> self.tickets@[i].id != self.tickets@[j].id
        &&& forall|i: int|
            0 <= i < self.tickets@.len() ==> 1 <= #[trigger] self.tickets@[i].id
                <= self.ticket_counter
        &&& forall|i: int, j: int|
            0 <= i < j < self.user_tickets@.len() ==> self.user_tickets@[i].user
                != self.user_tickets@[j].user
        &&& self.tickets@.len() <= self.ticket_counter
        &&& self.user_tickets@.len() <= self.ticket_counter
        &&& match self.lottery_state {
            Some(state) => {
                &&& state.no_participants == nonempty_count(self.user_tickets@)
                &&& self.lottery_status == Some(state.status)
            },
            None => true,
        }
    }
}

/// The owners the per-user index lists with at least one ticket.
pub open spec fn participating_owners(entries: Seq<UserTickets>) -> Set<Address> {
    Set::new(|u: Address| user_entry_ids(entries, u).len() > 0)
}

/// In an index that names each owner at most once, the owners holding at
/// least one ticket are exactly counted by `nonempty_count`.
pub proof fn lemma_participating_owners_count(entries: Seq<UserTickets>)
    requires
        forall|i: int, j: int|
            0 <= i < j < entries.len() ==> entries[i].user != entries[j].user,
    ensures
        participating_owners(entries).finite(),
        participating_owners(entries).len() == nonempty_count(entries),
    decreases entries.len(),
{
    if entries.len() == 0 {
        assert(participating_owners(entries) =~= Set::<Address>::empty());
    } else {
        let rest = entries.drop_first();
        let u0 = entries[0].user;
        lemma_participating_owners_count(rest);
        lemma_first_user_index(rest, u0);
        assert(user_entry_ids(rest, u0).len() == 0) by {
            assert(forall|k: int| 0 <= k < rest.len() ==> rest[k] == entries[k + 1]);
        }
        assert forall|u: Address| u != u0 implies user_entry_ids(entries, u) == user_entry_ids(
            rest,
            u,
        ) by {
            lemma_first_user_index(entries, u);
            lemma_first_user_index(rest, u);
            let f = first_user_index(rest, u);
            assert(first_user_index(entries, u) == 1 + f);
            if f < rest.len() {
                assert(entries[1 + f] == rest[f]);
            }
        }
        assert(user_entry_ids(entries, u0) == entries[0].ids@) by {
            lemma_first_user_index(entries, u0);
        }
        if entries[0].ids@.len() > 0 {
            assert(participating_owners(entries) =~= participating_owners(rest).insert(u0));
            assert(!participating_owners(rest).contains(u0));
        } else {
            assert(participating_owners(entries) =~= participating_owners(rest));
        }
    }
}

/// Participant-count invariant: in every well-formed store that carries a
/// summary record, `no_participants` equals the number of distinct owners
/// holding at least one ticket.
pub proof fn lemma_participant_count_invariant(s: LotteryStore)
    requires
        s.wf(),
        s.lottery_state is Some,
    ensures
        participating_owners(s.user_tickets@).finite(),
        s.lottery_state.unwrap().no_participants == participating_owners(s.user_tickets@).len(),
{
    lemma_participating_owners_count(s.user_tickets@);
}

/// Active-set consistency: in every well-formed store, the active id list
/// holds exactly the ids of the stored ticket records — no dangling ids
/// and no orphan records.
pub proof fn lemma_active_set_consistency(s: LotteryStore)
    requires
        s.wf(),
    ensures
        forall|id: u32| s.active_ids().contains(id) <==> has_ticket_id(s.tickets@, id),
        s.active_ids().to_set() == ticket_ids(s.tickets@).to_set(),
{
    assert forall|id: u32| s.active_ids().contains(id) <==> has_ticket_id(s.tickets@, id) by {
        lemma_first_ticket_index(s.tickets@, id);
        if s.active_ids().contains(id) {
            let k = choose|k: int| 0 <= k < s.active_ids().len() && s.active_ids()[k] == id;
            assert(s.tickets@[k].id == id);
            assert(has_ticket_id(s.tickets@, id)) by {
                if first_ticket_index(s.tickets@, id) >= s.tickets@.len() {
                    assert(s.tickets@[k].id != id);
                }
            }
        }
        if has_ticket_id(s.tickets@, id) {
            let f = first_ticket_index(s.tickets@, id);
            assert(s.active_ids()[f] == ticket_ids(s.tickets@)[f]);
        }
    }
}

/// Records the administrator.
pub fn write_admin(s: &mut LotteryStore, admin: &Address)
    ensures
        *final(s) == (LotteryStore { admin: Some(*admin), ..*old(s) }),
{
    s.admin = Some(*admin);
}

/// Reads the administrator, if one was recorded.
pub fn read_admin(s: &LotteryStore) -> (r: Option<Address>)
    ensures
        r == s.admin,
{
    s.admin
}

/// Whether the address is the recorded administrator.
pub fn is_admin(s: &LotteryStore, address: &Address) -> (r: bool)
    ensures
        r == (s.admin == Some(*address)),
{
    if let Some(admin) = read_admin(s) {
        admin == *address
    } else {
        false
    }
}

/// Records the phase key.
pub fn write_lottery_status(s: &mut LotteryStore, status: &LotteryStatus)
    ensures
        *final(s) == (LotteryStore { lottery_status: Some(*status), ..*old(s) }),
{
    s.lottery_status = Some(*status);
}

/// Reads the phase key.
pub fn read_lottery_status(s: &LotteryStore) -> (r: Result<LotteryStatus, LotteryError>)
    ensures
        r == match s.lottery_status {
            Some(status) => Ok::<LotteryStatus, LotteryError>(status),
            None => Err::<LotteryStatus, LotteryError>(LotteryError::LotteryStatusNotFound),
        },
{
    match s.lottery_status {
        Some(status) => Ok(status),
        None => Err(LotteryError::LotteryStatusNotFound),
    }
}

/// Records the configured currency.
pub fn write_currency(s: &mut LotteryStore, token: &Address)
    ensures
        *final(s) == (LotteryStore { currency: Some(*token), ..*old(s) }),
{
    s.currency = Some(*token);
}

/// Reads the configured currency.
pub fn read_currency(s: &LotteryStore) -> (r: Result<Address, LotteryError>)
    ensures
        r == match s.currency {
            Some(token) => Ok::<Address, LotteryError>(token),
            None => Err::<Address, LotteryError>(LotteryError::LotteryCurrencyNotFound),
        },
{
    match s.currency {
        Some(token) => Ok(token),
        None => Err(LotteryError::LotteryCurrencyNotFound),
    }
}

/// Records the configured ticket price.
pub fn write_token_amount(s: &mut LotteryStore, amount: &i128)
    ensures
        *final(s) == (LotteryStore { token_amount: Some(*amount), ..*old(s) }),
{
    s.token_amount = Some(*amount);
}

/// Reads the configured ticket price.
pub fn read_token_amount(s: &LotteryStore) -> (r: Result<i128, LotteryError>)
    ensures
        r == match s.token_amount {
            Some(amount) => Ok::<i128, LotteryError>(amount),
            None => Err::<i128, LotteryError>(LotteryError::TokenAmountNotFound),
        },
{
    match s.token_amount {
        Some(amount) => Ok(amount),
        None => Err(LotteryError::TokenAmountNotFound),
    }
}

/// Records the summary record.
pub fn write_lottery_state(s: &mut LotteryStore, state: &LotteryState)
    ensures
        *final(s) == (LotteryStore { lottery_state: Some(*state), ..*old(s) }),
{
    s.lottery_state = Some(*state);
}

/// Reads the summary record.
pub fn read_lottery_state(s: &LotteryStore) -> (r: Result<LotteryState, LotteryError>)
    ensures
        r == match s.lottery_state {
            Some(state) => Ok::<LotteryState, LotteryError>(state),
            None => Err::<LotteryState, LotteryError>(LotteryError::LotteryStateNotFound),
        },
{
    match s.lottery_state {
        Some(state) => Ok(state),
        None => Err(LotteryError::LotteryStateNotFound),
    }
}

/// Records the principal amount sent to the reserve.
pub fn write_sent_balance(s: &mut LotteryStore, sent_amount: &i128)
    ensures
        *final(s) == (LotteryStore { sent_balance: Some(*sent_amount), ..*old(s) }),
{
    s.sent_balance = Some(*sent_amount);
}

/// Reads the principal amount sent to the reserve.
pub fn read_sent_balance(s: &LotteryStore) -> (r: Result<i128, LotteryError>)
    ensures
        r == match s.sent_balance {
            Some(sent) => Ok::<i128, LotteryError>(sent),
            None => Err::<i128, LotteryError>(LotteryError::SentToBlendNotFound),
        },
{
    match s.sent_balance {
        Some(sent) => Ok(sent),
        None => Err(LotteryError::SentToBlendNotFound),
    }
}

/// Records the reserve's address.
pub fn write_blend_address(s: &mut LotteryStore, blend_address: &Address)
    ensures
        *final(s) == (LotteryStore { blend_address: Some(*blend_address), ..*old(s) }),
{
    s.blend_address = Some(*blend_address);
}

/// Reads the reserve's address.
pub fn read_blend_address(s: &LotteryStore) -> (r: Result<Address, LotteryError>)
    ensures
        r == match s.blend_address {
            Some(blend) => Ok::<Address, LotteryError>(blend),
            None => Err::<Address, LotteryError>(LotteryError::BlenderNotFound),
        },
{
    match s.blend_address {
        Some(blend) => Ok(blend),
        None => Err(LotteryError::BlenderNotFound),
    }
}

/// Reads the active ticket id list, which exists once the first ticket has
/// been written.
pub fn read_ids(s: &LotteryStore) -> (r: Result<Vec<u32>, LotteryError>)
    ensures
        r is Ok <==> s.ids is Some,
        r is Ok ==> r.unwrap()@ == s.active_ids(),
        r is Err ==> r == Err::<Vec<u32>, LotteryError>(LotteryError::IdsNotFound),
{
    match &s.ids {
        Some(v) => Ok(v.clone()),
        None => Err(LotteryError::IdsNotFound),
    }
}

/// Records the winner-selected flag.
pub fn write_winner_selected(s: &mut LotteryStore, value: bool)
    ensures
        *final(s) == (LotteryStore { winner_selected: Some(value), ..*old(s) }),
{
    s.winner_selected = Some(value);
}

/// Reads the winner-selected flag.
pub fn read_winner_selected(s: &LotteryStore) -> (r: Result<bool, LotteryError>)
    ensures
        r == match s.winner_selected {
            Some(value) => Ok::<bool, LotteryError>(value),
            None => Err::<bool, LotteryError>(LotteryError::WinnerSelectedNotFound),
        },
{
    match s.winner_selected {
        Some(value) => Ok(value),
        None => Err(LotteryError::WinnerSelectedNotFound),
    }
}

/// Records the fairness seed.
pub fn write_seed(s: &mut LotteryStore, seed: &Vec<u8>)
    ensures
        final(s).seed is Some,
        final(s).seed.unwrap()@ == seed@,
        *final(s) == (LotteryStore { seed: final(s).seed, ..*old(s) }),
{
    s.seed = Some(seed.clone());
}

/// Reads the fairness seed.
pub fn read_seed(s: &LotteryStore) -> (r: Result<Vec<u8>, LotteryError>)
    ensures
        r is Ok <==> s.seed is Some,
        r is Ok ==> r.unwrap()@ == s.seed.unwrap()@,
        r is Err ==> r == Err::<Vec<u8>, LotteryError>(LotteryError::SeedNotFound),
{
    match &s.seed {
        Some(seed) => Ok(seed.clone()),
        None => Err(LotteryError::SeedNotFound),
    }
}

/// Records the ledger height at which the buy-in period began.
pub fn write_buyin_started_ledger(s: &mut LotteryStore, ledger: u32)
    ensures
        *final(s) == (LotteryStore { buyin_started_ledger: ledger, ..*old(s) }),
{
    s.buyin_started_ledger = ledger;
}

/// Reads the ledger height at which the buy-in period began.
pub fn read_buyin_started_ledger(s: &LotteryStore) -> (r: u32)
    ensures
        r == s.buyin_started_ledger,
{
    s.buyin_started_ledger
}

/// Records the ledger height at which the farming period began.
pub fn write_farming_started_ledger(s: &mut LotteryStore, ledger: u32)
    ensures
        *final(s) == (LotteryStore { farming_started_ledger: ledger, ..*old(s) }),
{
    s.farming_started_ledger = ledger;
}

/// Reads the ledger height at which the farming period began.
pub fn read_farming_started_ledger(s: &LotteryStore) -> (r: u32)
    ensures
        r == s.farming_started_ledger,
{
    s.farming_started_ledger
}

/// Records the ledger height at which the ended period began.
pub fn write_ended_started_ledger(s: &mut LotteryStore, ledger: u32)
    ensures
        *final(s) == (LotteryStore { ended_started_ledger: ledger, ..*old(s) }),
{
    s.ended_started_ledger = ledger;
}

/// Reads the ledger height at which the ended period began.
pub fn read_ended_started_ledger(s: &LotteryStore) -> (r: u32)
    ensures
        r == s.ended_started_ledger,
{
    s.ended_started_ledger
}

/// `first_ticket_index` points at the first record holding the id, and at
/// the length when no record holds it.
pub proof fn lemma_first_ticket_index(tickets: Seq<Ticket>, id: u32)
    ensures
        0 <= first_ticket_index(tickets, id) <= tickets.len(),
        first_ticket_index(tickets, id) < tickets.len() ==> tickets[first_ticket_index(
            tickets,
            id,
        )].id == id,
        forall|k: int| 0 <= k < first_ticket_index(tickets, id) ==> tickets[k].id != id,
    decreases tickets.len(),
{
    if tickets.len() == 0 {
    } else if tickets[0].id == id {
    } else {
        lemma_first_ticket_index(tickets.drop_first(), id);
        assert forall|k: int| 0 <= k < first_ticket_index(tickets, id) implies tickets[k].id
            != id by {
            if k > 0 {
                assert(tickets.drop_first()[k - 1] == tickets[k]);
            }
        }
    }
}

/// `first_id_index` points at the first position of the id, and at the
/// length when the list does not hold it.
pub proof fn lemma_first_id_index(ids: Seq<u32>, id: u32)
    ensures
        0 <= first_id_index(ids, id) <= ids.len(),
        first_id_index(ids, id) < ids.len() ==> ids[first_id_index(ids, id)] == id,
        forall|k: int| 0 <= k < first_id_index(ids, id) ==> ids[k] != id,
    decreases ids.len(),
{
    if ids.len() == 0 {
    } else if ids[0] == id {
    } else {
        lemma_first_id_index(ids.drop_first(), id);
        assert forall|k: int| 0 <= k < first_id_index(ids, id) implies ids[k] != id by {
            if k > 0 {
                assert(ids.drop_first()[k - 1] == ids[k]);
            }
        }
    }
}

/// `first_user_index` points at the first entry of the owner, and at the
/// length when the owner has no entry.
pub proof fn lemma_first_user_index(entries: Seq<UserTickets>, user: Address)
    ensures
        0 <= first_user_index(entries, user) <= entries.len(),
        first_user_index(entries, user) < entries.len() ==> entries[first_user_index(
            entries,
            user,
        )].user == user,
        forall|k: int| 0 <= k < first_user_index(entries, user) ==> entries[k].user != user,
    decreases entries.len(),
{
    if entries.len() == 0 {
    } else if entries[0].user == user {
    } else {
        lemma_first_user_index(entries.drop_first(), user);
        assert forall|k: int| 0 <= k < first_user_index(entries, user) implies entries[k].user
            != user by {
            if k > 0 {
                assert(entries.drop_first()[k - 1] == entries[k]);
            }
        }
    }
}

/// `nonempty_count` never exceeds the number of entries.
pub proof fn lemma_nonempty_count_le_len(entries: Seq<UserTickets>)
    ensures
        nonempty_count(entries) <= entries.len(),
    decreases entries.len(),
{
    if entries.len() > 0 {
        lemma_nonempty_count_le_len(entries.drop_first());
    }
}

/// Replacing one entry changes `nonempty_count` by exactly the difference
/// the replaced entry makes.
pub proof fn lemma_nonempty_count_update(entries: Seq<UserTickets>, j: int, e: UserTickets)
    requires
        0 <= j < entries.len(),
    ensures
        nonempty_count(entries.update(j, e)) + (if entries[j].ids@.len() > 0 {
            1nat
        } else {
            0nat
        }) == nonempty_count(entries) + (if e.ids@.len() > 0 {
            1nat
        } else {
            0nat
        }),
    decreases entries.len(),
{
    if j == 0 {
        assert(entries.update(0, e).drop_first() =~= entries.drop_first());
    } else {
        assert(entries.update(j, e).drop_first() =~= entries.drop_first().update(j - 1, e));
        lemma_nonempty_count_update(entries.drop_first(), j - 1, e);
    }
}

/// Appending an entry adds its own contribution to `nonempty_count`.
pub proof fn lemma_nonempty_count_push(entries: Seq<UserTickets>, e: UserTickets)
    ensures
        nonempty_count(entries.push(e)) == nonempty_count(entries) + (if e.ids@.len() > 0 {
            1nat
        } else {
            0nat
        }),
    decreases entries.len(),
{
    let pushed = entries.push(e);
    assert(nonempty_count(pushed) == (if pushed[0].ids@.len() > 0 {
        1nat
    } else {
        0nat
    }) + nonempty_count(pushed.drop_first()));
    if entries.len() == 0 {
        assert(pushed[0] == e);
        assert(pushed.drop_first() =~= Seq::<UserTickets>::empty());
        assert(nonempty_count(Seq::<UserTickets>::empty()) == 0);
    } else {
        assert(pushed[0] == entries[0]);
        assert(pushed.drop_first() =~= entries.drop_first().push(e));
        lemma_nonempty_count_push(entries.drop_first(), e);
    }
}

/// An entry with at least one ticket makes `nonempty_count` positive.
pub proof fn lemma_nonempty_count_pos(entries: Seq<UserTickets>, j: int)
    requires
        0 <= j < entries.len(),
        entries[j].ids@.len() > 0,
    ensures
        nonempty_count(entries) >= 1,
    decreases entries.len(),
{
    if j > 0 {
        lemma_nonempty_count_pos(entries.drop_first(), j - 1);
    }
}

/// Reads one ticket record by id.
pub fn read_ticket(s: &LotteryStore, id: u32) -> (r: Result<Ticket, LotteryError>)
    ensures
        has_ticket_id(s.tickets@, id) ==> r == Ok::<Ticket, LotteryError>(
            s.tickets@[first_ticket_index(s.tickets@, id)],
        ),
        !has_ticket_id(s.tickets@, id) ==> r == Err::<Ticket, LotteryError>(
            LotteryError::TicketNotFound,
        ),
{
    let n = s.tickets.len();
    let mut i: usize = 0;
    while i < n && s.tickets[i].id != id
        invariant
            n == s.tickets@.len(),
            0 <= i <= n,
            forall|k: int| 0 <= k < i ==> s.tickets@[k].id != id,
        decreases n - i,
    {
        i += 1;
    }
    proof {
        lemma_first_ticket_index(s.tickets@, id);
    }
    if i < n {
        Ok(s.tickets[i])
    } else {
        Err(LotteryError::TicketNotFound)
    }
}

/// Writes one ticket record: replaces the record already holding the id, or
/// stores a fresh record and appends its id to the active list.
pub fn write_ticket(s: &mut LotteryStore, ticket: &Ticket)
    ensures
        ({
            let t0 = old(s).tickets@;
            let j = first_ticket_index(t0, ticket.id);
            if j < t0.len() {
                &&& final(s).tickets@ == t0.update(j, *ticket)
                &&& final(s).ids == old(s).ids
            } else {
                &&& final(s).tickets@ == t0.push(*ticket)
                &&& final(s).ids is Some
                &&& final(s).active_ids() == old(s).active_ids().push(ticket.id)
            }
        }),
        *final(s) == (LotteryStore { tickets: final(s).tickets, ids: final(s).ids, ..*old(s) }),
{
    let n = s.tickets.len();
    let mut i: usize = 0;
    while i < n && s.tickets[i].id != ticket.id
        invariant
            n == s.tickets@.len(),
            0 <= i <= n,
            forall|k: int| 0 <= k < i ==> s.tickets@[k].id != ticket.id,
        decreases n - i,
    {
        i += 1;
    }
    proof {
        lemma_first_ticket_index(s.tickets@, ticket.id);
    }
    if i < n {
        s.tickets[i] = *ticket;
    } else {
        s.tickets.push(*ticket);
        let mut ids: Vec<u32> = match &s.ids {
            Some(v) => v.clone(),
            None => Vec::new(),
        };
        ids.push(ticket.id);
        s.ids = Some(ids);
    }
}

/// Removes one ticket record and its id from the active list; a record that
/// is not stored leaves the store unchanged.
pub fn remove_ticket(s: &mut LotteryStore, ticket: Ticket)
    ensures
        ({
            let t0 = old(s).tickets@;
            let j = first_ticket_index(t0, ticket.id);
            if j < t0.len() {
                final(s).tickets@ == t0.remove(j)
            } else {
                final(s).tickets == old(s).tickets
            }
        }),
        ({
            let a0 = old(s).active_ids();
            let m = first_id_index(a0, ticket.id);
            if old(s).ids is Some && m < a0.len() {
                final(s).ids is Some && final(s).active_ids() == a0.remove(m)
            } else {
                final(s).ids == old(s).ids
            }
        }),
        *final(s) == (LotteryStore { tickets: final(s).tickets, ids: final(s).ids, ..*old(s) }),
{
    let n = s.tickets.len();
    let mut i: usize = 0;
    while i < n && s.tickets[i].id != ticket.id
        invariant
            n == s.tickets@.len(),
            0 <= i <= n,
            forall|k: int| 0 <= k < i ==> s.tickets@[k].id != ticket.id,
        decreases n - i,
    {
        i += 1;
    }
    proof {
        lemma_first_ticket_index(s.tickets@, ticket.id);
    }
    if i < n {
        s.tickets.remove(i);
    }
    let ids_opt: Option<Vec<u32>> = match &s.ids {
        Some(v) => Some(v.clone()),
        None => None,
    };
    if let Some(mut ids) = ids_opt {
        let m = ids.len();
        let mut k: usize = 0;
        while k < m && ids[k] != ticket.id
            invariant
                m == ids@.len(),
                0 <= k <= m,
                forall|j: int| 0 <= j < k ==> ids@[j] != ticket.id,
            decreases m - k,
        {
            k += 1;
        }
        proof {
            lemma_first_id_index(ids@, ticket.id);
        }
        if k < m {
            ids.remove(k);
            s.ids = Some(ids);
        }
    }
}

/// Appends a ticket id to the owner's entry in the per-user index, creating
/// the entry with the owner's first ticket.
pub fn add_ticket_to_user(s: &mut LotteryStore, user: &Address, ticket_id: u32)
    ensures
        ({
            let e0 = old(s).user_tickets@;
            let j = first_user_index(e0, *user);
            if j < e0.len() {
                &&& final(s).user_tickets@.len() == e0.len()
                &&& final(s).user_tickets@[j].user == *user
                &&& final(s).user_tickets@[j].ids@ == e0[j].ids@.push(ticket_id)
                &&& forall|k: int|
                    0 <= k < e0.len() && k != j ==> final(s).user_tickets@[k] == e0[k]
            } else {
                &&& final(s).user_tickets@.len() == e0.len() + 1
                &&& final(s).user_tickets@[e0.len() as int].user == *user
                &&& final(s).user_tickets@[e0.len() as int].ids@ == seq![ticket_id]
                &&& forall|k: int| 0 <= k < e0.len() ==> final(s).user_tickets@[k] == e0[k]
            }
        }),
        *final(s) == (LotteryStore { user_tickets: final(s).user_tickets, ..*old(s) }),
{
    let n = s.user_tickets.len();
    let mut i: usize = 0;
    while i < n && s.user_tickets[i].user != *user
        invariant
            n == s.user_tickets@.len(),
            0 <= i <= n,
            forall|k: int| 0 <= k < i ==> s.user_tickets@[k].user != *user,
        decreases n - i,
    {
        i += 1;
    }
    proof {
        lemma_first_user_index(s.user_tickets@, *user);
    }
    if i < n {
        s.user_tickets[i].ids.push(ticket_id);
    } else {
        let mut ids: Vec<u32> = Vec::new();
        ids.push(ticket_id);
        s.user_tickets.push(UserTickets { user: *user, ids });
    }
}

/// Reads the owner's entry in the per-user index; an absent entry reads as
/// an empty list.
pub fn get_user_tickets(s: &LotteryStore, user: &Address) -> (r: Vec<u32>)
    ensures
        r@ == user_entry_ids(s.user_tickets@, *user),
{
    let n = s.user_tickets.len();
    let mut i: usize = 0;
    while i < n && s.user_tickets[i].user != *user
        invariant
            n == s.user_tickets@.len(),
            0 <= i <= n,
            forall|k: int| 0 <= k < i ==> s.user_tickets@[k].user != *user,
        decreases n - i,
    {
        i += 1;
    }
    proof {
        lemma_first_user_index(s.user_tickets@, *user);
    }
    if i < n {
        s.user_tickets[i].ids.clone()
    } else {
        Vec::new()
    }
}

/// Removes a ticket id from the owner's entry in the per-user index; an
/// absent entry, or an id the entry does not list, leaves the store
/// unchanged.
pub fn remove_ticket_from_user(s: &mut LotteryStore, user: &Address, ticket_id: u32)
    ensures
        ({
            let e0 = old(s).user_tickets@;
            let j = first_user_index(e0, *user);
            if j < e0.len() {
                let m = first_id_index(e0[j].ids@, ticket_id);
                if m < e0[j].ids@.len() {
                    &&& final(s).user_tickets@.len() == e0.len()
                    &&& final(s).user_tickets@[j].user == e0[j].user
                    &&& final(s).user_tickets@[j].ids@ == e0[j].ids@.remove(m)
                    &&& forall|k: int|
                        0 <= k < e0.len() && k != j ==> final(s).user_tickets@[k] == e0[k]
                } else {
                    final(s).user_tickets == old(s).user_tickets
                }
            } else {
                final(s).user_tickets == old(s).user_tickets
            }
        }),
        *final(s) == (LotteryStore { user_tickets: final(s).user_tickets, ..*old(s) }),
{
    let n = s.user_tickets.len();
    let mut i: usize = 0;
    while i < n && s.user_tickets[i].user != *user
        invariant
            n == s.user_tickets@.len(),
            0 <= i <= n,
            forall|k: int| 0 <= k < i ==> s.user_tickets@[k].user != *user,
        decreases n - i,
    {
        i += 1;
    }
    proof {
        lemma_first_user_index(s.user_tickets@, *user);
    }
    if i < n {
        let m = s.user_tickets[i].ids.len();
        let mut k: usize = 0;
        while k < m && s.user_tickets[i].ids[k] != ticket_id
            invariant
                i < s.user_tickets@.len(),
                m == s.user_tickets@[i as int].ids@.len(),
                0 <= k <= m,
                forall|j: int| 0 <= j < k ==> s.user_tickets@[i as int].ids@[j] != ticket_id,
            decreases m - k,
        {
            k += 1;
        }
        proof {
            lemma_first_id_index(s.user_tickets@[i as int].ids@, ticket_id);
        }
        if k < m {
            s.user_tickets[i].ids.remove(k);
        }
    }
}

/// Hands out the next ticket id: ids are monotonically increasing from 1 and
/// never reused.
pub fn get_and_increment_ticket_counter(s: &mut LotteryStore) -> (r: u32)
    requires
        old(s).ticket_counter < u32::MAX,
    ensures
        r == old(s).ticket_counter + 1,
        *final(s) == (LotteryStore { ticket_counter: r, ..*old(s) }),
{
    let next = s.ticket_counter + 1;
    s.ticket_counter = next;
    next
}

} // verus!
