//! The lottery operations: ticket purchase and redemption, the phase state
//! machine, the raffle, and the yield-reserve protocol.
//!
//! Each operation works on a [`LotteryStore`] snapshot and either commits
//! all of its changes or, on any failure, none. What only the host can do —
//! authenticate the caller, move funds, read the clock, hash the seed
//! material, and talk to the reserve — happens around these calls: an
//! operation takes the host's readings as plain values and hands back the
//! requests the host must submit.

use vstd::prelude::*;

use crate::error::LotteryError;
use crate::storage::{
    self, Address, LotteryState, LotteryStatus, LotteryStore, Ticket, first_id_index,
    first_ticket_index, first_user_index, has_ticket_id, lemma_first_id_index,
    lemma_first_ticket_index, lemma_first_user_index, lemma_nonempty_count_le_len,
    lemma_nonempty_count_pos, lemma_nonempty_count_push, lemma_nonempty_count_update, ticket_ids,
    user_entry_ids,
};
use crate::util::{self, spec_timelock_passed, valid_transition};

verus! {

/// A deposit or withdrawal the host must submit to the yield reserve,
/// together with a transfer authorization for the same amount, scoped to
/// this one submission.
#[derive(Clone, Copy, PartialEq, Eq, Structural, Debug)]
pub struct ReserveRequest {
    /// The asset the request is denominated in.
    pub address: Address,
    /// The amount to move; a withdrawal asks for the maximum representable
    /// amount, which the reserve reads as "everything owed".
    pub amount: i128,
    /// The reserve's request kind tag.
    pub request_type: u32,
}

/// The reserve's tag for a deposit request.
pub const REQUEST_TYPE_DEPOSIT: u32 = 0;

/// The reserve's tag for a withdrawal request.
pub const REQUEST_TYPE_WITHDRAW: u32 = 1;

/// The first position of the asset in the reserve's asset list, or zero if
/// the list does not name it.
pub open spec fn first_address_index(list: Seq<Address>, token: Address) -> int
    decreases list.len(),
{
    if list.len() == 0 {
        0
    } else if list[0] == token {
        0
    } else {
        1 + first_address_index(list.drop_first(), token)
    }
}

/// `first_address_index` points at the first position of the asset, and at
/// the length when the list does not name it.
pub proof fn lemma_first_address_index(list: Seq<Address>, token: Address)
    ensures
        0 <= first_address_index(list, token) <= list.len(),
        first_address_index(list, token) < list.len() ==> list[first_address_index(
            list,
            token,
        )] == token,
        forall|k: int| 0 <= k < first_address_index(list, token) ==> list[k] != token,
    decreases list.len(),
{
    if list.len() == 0 {
    } else if list[0] == token {
    } else {
        lemma_first_address_index(list.drop_first(), token);
        assert forall|k: int| 0 <= k < first_address_index(list, token) implies list[k]
            != token by {
            if k > 0 {
                assert(list.drop_first()[k - 1] == list[k]);
            }
        }
    }
}

/// The reserve index the core uses for the asset: its first position in the
/// reserve's asset list, defaulting to zero when the list does not name it.
pub open spec fn spec_reserve_index(list: Seq<Address>, token: Address) -> int {
    if first_address_index(list, token) < list.len() {
        first_address_index(list, token)
    } else {
        0
    }
}

/// Finds the reserve index of the asset by a linear scan of the reserve's
/// asset list, defaulting to zero when the list does not name it.
pub fn find_reserve_index(reserve_list: &Vec<Address>, token: &Address) -> (r: u32)
    requires
        reserve_list@.len() <= u32::MAX,
    ensures
        r as int == spec_reserve_index(reserve_list@, *token),
{
    let n = reserve_list.len();
    let mut i: usize = 0;
    while i < n && reserve_list[i] != *token
        invariant
            n == reserve_list@.len(),
            n <= u32::MAX,
            0 <= i <= n,
            forall|k: int| 0 <= k < i ==> reserve_list@[k] != *token,
        decreases n - i,
    {
        i += 1;
    }
    proof {
        lemma_first_address_index(reserve_list@, *token);
    }
    if i < n {
        i as u32
    } else {
        0
    }
}

/// The records the owner's listed ticket ids resolve to, in listing order;
/// an id no stored record holds is skipped.
pub open spec fn resolved_tickets(s: LotteryStore, ids: Seq<u32>) -> Seq<Ticket>
    decreases ids.len(),
{
    if ids.len() == 0 {
        Seq::empty()
    } else {
        resolved_tickets(s, ids.drop_last()) + (if has_ticket_id(s.tickets@, ids.last()) {
            seq![s.tickets@[first_ticket_index(s.tickets@, ids.last())]]
        } else {
            Seq::empty()
        })
    }
}

impl LotteryStore {
    /// Sets a lottery up: the administrator, the currency, the ticket
    /// price and the reserve's address are fixed here once; the lottery
    /// opens in the buy-in phase at the given ledger height, with no
    /// tickets, no participants and no yield.
    pub fn __constructor(
        admin: Address,
        token: Address,
        ticket_amount: i128,
        blend_address: Address,
        current_ledger: u32,
    ) -> (s: LotteryStore)
        ensures
            s.wf(),
            s.admin == Some(admin),
            s.lottery_status == Some(LotteryStatus::BuyIn),
            s.currency == Some(token),
            s.token_amount == Some(ticket_amount),
            s.lottery_state == Some(
                LotteryState {
                    status: LotteryStatus::BuyIn,
                    no_participants: 0,
                    amount_of_yield: 0,
                    token,
                    in_blender: false,
                },
            ),
            s.tickets@ == Seq::<Ticket>::empty(),
            s.ticket_counter == 0,
            s.user_tickets@ == Seq::<storage::UserTickets>::empty(),
            s.sent_balance == Some(0i128),
            s.blend_address == Some(blend_address),
            s.ids is None,
            s.winner_selected == Some(false),
            s.seed is None,
            s.buyin_started_ledger == current_ledger,
            s.farming_started_ledger == 0,
            s.ended_started_ledger == 0,
    {
        let s = LotteryStore {
            admin: Some(admin),
            lottery_status: Some(LotteryStatus::BuyIn),
            currency: Some(token),
            token_amount: Some(ticket_amount),
            lottery_state: Some(
                LotteryState {
                    status: LotteryStatus::BuyIn,
                    no_participants: 0,
                    amount_of_yield: 0,
                    token,
                    in_blender: false,
                },
            ),
            tickets: Vec::new(),
            ticket_counter: 0,
            user_tickets: Vec::new(),
            sent_balance: Some(0),
            blend_address: Some(blend_address),
            ids: None,
            winner_selected: Some(false),
            seed: None,
            buyin_started_ledger: current_ledger,
            farming_started_ledger: 0,
            ended_started_ledger: 0,
        };
        proof {
            assert(s.active_ids() =~= ticket_ids(s.tickets@));
        }
        s
    }

    /// Reads the summary record.
    pub fn get_lottery_state(&self) -> (r: Result<LotteryState, LotteryError>)
        ensures
            r == match self.lottery_state {
                Some(state) => Ok::<LotteryState, LotteryError>(state),
                None => Err::<LotteryState, LotteryError>(LotteryError::LotteryStateNotFound),
            },
    {
        storage::read_lottery_state(self)
    }

    /// Reads the administrator, if one was recorded.
    pub fn get_admin(&self) -> (r: Option<Address>)
        ensures
            r == self.admin,
    {
        storage::read_admin(self)
    }

    /// Reads the configured ticket price.
    pub fn get_ticket_amount(&self) -> (r: Result<i128, LotteryError>)
        ensures
            r == match self.token_amount {
                Some(amount) => Ok::<i128, LotteryError>(amount),
                None => Err::<i128, LotteryError>(LotteryError::TokenAmountNotFound),
            },
    {
        storage::read_token_amount(self)
    }

    /// Reads the ledger height at which the current phase began.
    pub fn get_status_started_ledger(&self) -> (r: Result<u32, LotteryError>)
        ensures
            r == match self.lottery_status {
                Some(LotteryStatus::BuyIn) => Ok::<u32, LotteryError>(self.buyin_started_ledger),
                Some(LotteryStatus::YieldFarming) => Ok::<u32, LotteryError>(
                    self.farming_started_ledger,
                ),
                Some(LotteryStatus::Ended) => Ok::<u32, LotteryError>(self.ended_started_ledger),
                None => Err::<u32, LotteryError>(LotteryError::LotteryStatusNotFound),
            },
    {
        let status = storage::read_lottery_status(self)?;
        match status {
            LotteryStatus::BuyIn => Ok(storage::read_buyin_started_ledger(self)),
            LotteryStatus::YieldFarming => Ok(storage::read_farming_started_ledger(self)),
            LotteryStatus::Ended => Ok(storage::read_ended_started_ledger(self)),
        }
    }

    /// Resolves the owner's listed tickets to their stored records, oldest
    /// first; an id that no longer resolves is skipped rather than failing
    /// the whole read.
    pub fn get_user_tickets(&self, user: Address) -> (r: Result<Vec<Ticket>, LotteryError>)
        ensures
            r is Ok,
            r.unwrap()@ == resolved_tickets(*self, user_entry_ids(self.user_tickets@, user)),
    {
        let ticket_ids = storage::get_user_tickets(self, &user);
        let mut tickets: Vec<Ticket> = Vec::new();
        let n = ticket_ids.len();
        let mut i: usize = 0;
        while i < n
            invariant
                n == ticket_ids@.len(),
                0 <= i <= n,
                tickets@ == resolved_tickets(*self, ticket_ids@.take(i as int)),
            decreases n - i,
        {
            proof {
                assert(ticket_ids@.take(i + 1).drop_last() =~= ticket_ids@.take(i as int));
                assert(ticket_ids@.take(i + 1).last() == ticket_ids@[i as int]);
            }
            match storage::read_ticket(self, ticket_ids[i]) {
                Ok(ticket) => tickets.push(ticket),
                Err(_) => (),
            }
            i += 1;
        }
        proof {
            assert(ticket_ids@.take(n as int) =~= ticket_ids@);
        }
        Ok(tickets)
    }

    /// Sells one ticket to `user`, who the host has already authenticated.
    /// Only during buy-in; the deposit — the configured price, moved from
    /// the buyer to the pool — is the single point where funds enter the
    /// system, and the host performs that transfer exactly when this call
    /// returns the new ticket. The ticket gets the next id, never reused;
    /// a buyer holding no ticket yet becomes one more participant.
    pub fn buy_ticket(&mut self, user: Address) -> (r: Result<Ticket, LotteryError>)
        requires
            old(self).wf(),
            old(self).ticket_counter < u32::MAX,
        ensures
            final(self).wf(),
            ({
                let s0 = *old(self);
                if s0.lottery_status is None {
                    r == Err::<Ticket, LotteryError>(LotteryError::LotteryStatusNotFound) && *final(self) == s0
                } else if s0.lottery_status != Some(LotteryStatus::BuyIn) {
                    r == Err::<Ticket, LotteryError>(LotteryError::WrongStatus) && *final(self) == s0
                } else if s0.currency is None {
                    r == Err::<Ticket, LotteryError>(LotteryError::LotteryCurrencyNotFound) && *final(self) == s0
                } else if s0.token_amount is None {
                    r == Err::<Ticket, LotteryError>(LotteryError::TokenAmountNotFound) && *final(self) == s0
                } else if user_entry_ids(s0.user_tickets@, user).len() == 0 && s0.lottery_state is None {
                    r == Err::<Ticket, LotteryError>(LotteryError::LotteryStateNotFound) && *final(self) == s0
                } else {
                    let t = Ticket {
                        id: (s0.ticket_counter + 1) as u32,
                        user,
                        token: s0.currency.unwrap(),
                        amount: s0.token_amount.unwrap(),
                        won: false,
                    };
                    &&& r == Ok::<Ticket, LotteryError>(t)
                    &&& final(self).ticket_counter == s0.ticket_counter + 1
                    &&& final(self).tickets@ == s0.tickets@.push(t)
                    &&& final(self).ids is Some
                    &&& final(self).active_ids() == s0.active_ids().push(t.id)
                    &&& user_entry_ids(final(self).user_tickets@, user) == user_entry_ids(
                        s0.user_tickets@,
                        user,
                    ).push(t.id)
                    &&& forall|u2: Address|
                        u2 != user ==> user_entry_ids(final(self).user_tickets@, u2)
                            == user_entry_ids(s0.user_tickets@, u2)
                    &&& final(self).lottery_state == (if user_entry_ids(
                        s0.user_tickets@,
                        user,
                    ).len() == 0 {
                        Some(
                            LotteryState {
                                no_participants: (s0.lottery_state.unwrap().no_participants
                                    + 1) as u32,
                                ..s0.lottery_state.unwrap()
                            },
                        )
                    } else {
                        s0.lottery_state
                    })
                    &&& final(self).admin == s0.admin
                    &&& final(self).lottery_status == s0.lottery_status
                    &&& final(self).currency == s0.currency
                    &&& final(self).token_amount == s0.token_amount
                    &&& final(self).sent_balance == s0.sent_balance
                    &&& final(self).blend_address == s0.blend_address
                    &&& final(self).winner_selected == s0.winner_selected
                    &&& final(self).seed == s0.seed
                    &&& final(self).buyin_started_ledger == s0.buyin_started_ledger
                    &&& final(self).farming_started_ledger == s0.farming_started_ledger
                    &&& final(self).ended_started_ledger == s0.ended_started_ledger
                }
            }),
    {
        let ghost s0 = *self;
        let status = storage::read_lottery_status(self)?;
        if status != LotteryStatus::BuyIn {
            return Err(LotteryError::WrongStatus);
        }
        let token = storage::read_currency(self)?;
        let amount = storage::read_token_amount(self)?;
        // The deposit itself — `amount` moved from the buyer to the pool —
        // is the host's transfer, made for exactly the ticket this call
        // returns.
        let user_tickets_before = storage::get_user_tickets(self, &user);
        let first_ticket = user_tickets_before.is_empty();
        let state_before: Option<LotteryState> = if first_ticket {
            match storage::read_lottery_state(self) {
                Ok(state) => Some(state),
                Err(e) => {
                    return Err(e);
                },
            }
        } else {
            None
        };
        let ticket_id = storage::get_and_increment_ticket_counter(self);
        let ticket = Ticket { id: ticket_id, user, token, amount, won: false };
        proof {
            lemma_first_ticket_index(self.tickets@, ticket_id);
        }
        storage::write_ticket(self, &ticket);
        let ghost s1 = *self;
        proof {
            assert(s1.active_ids() =~= ticket_ids(s1.tickets@));
        }
        storage::add_ticket_to_user(self, &user, ticket_id);
        let ghost e0 = s1.user_tickets@;
        let ghost e1 = self.user_tickets@;
        proof {
            lemma_first_user_index(e0, user);
            let j = first_user_index(e0, user);
            if j < e0.len() {
                assert(e1 =~= e0.update(j, e1[j]));
                lemma_nonempty_count_update(e0, j, e1[j]);
            } else {
                assert(e1 =~= e0.push(e1[e0.len() as int]));
                lemma_nonempty_count_push(e0, e1[e0.len() as int]);
            }
            assert(user_entry_ids(e1, user) == user_entry_ids(e0, user).push(ticket_id)) by {
                lemma_first_user_index(e1, user);
                if j < e0.len() {
                } else {
                    assert(user_entry_ids(e0, user).push(ticket_id) =~= seq![ticket_id]);
                }
            }
            assert forall|u2: Address| u2 != user implies user_entry_ids(e1, u2) == user_entry_ids(
                e0,
                u2,
            ) by {
                lemma_first_user_index(e0, u2);
                lemma_first_user_index(e1, u2);
                let f0 = first_user_index(e0, u2);
                let f1 = first_user_index(e1, u2);
                if f0 < e0.len() {
                    assert(e1[f0] == e0[f0]);
                    assert(f1 == f0);
                } else {
                    assert(f1 >= e1.len()) by {
                        if f1 < e1.len() && f1 < e0.len() {
                            assert(e1[f1] == e0[f1]);
                        }
                    }
                }
            }
            lemma_nonempty_count_le_len(e0);
        }
        if first_ticket {
            let mut state = match state_before {
                Some(state) => state,
                None => {
                    proof {
                        assert(false);
                    }
                    return Err(LotteryError::LotteryStateNotFound);
                },
            };
            state.no_participants = state.no_participants + 1;
            storage::write_lottery_state(self, &state);
        }
        Ok(ticket)
    }

    /// Gives the owner the deposit back and destroys the ticket. The host
    /// authenticates the owner before this call and transfers the ticket's
    /// amount from the pool back to the owner exactly when it succeeds.
    /// Redemption is refused while the pooled funds sit in the reserve or
    /// during yield farming, and it is atomic: either the record, its
    /// active-list entry and its index entry all go — with the participant
    /// count dropping when the owner's last ticket goes — or, on any
    /// failure, nothing changes.
    pub fn redeem_ticket(&mut self, ticket: Ticket) -> (r: Result<(), LotteryError>)
        requires
            old(self).wf(),
        ensures
            final(self).wf(),
            ({
                let s0 = *old(self);
                if s0.lottery_state is None {
                    r == Err::<(), LotteryError>(LotteryError::LotteryStateNotFound) && *final(self) == s0
                } else if s0.lottery_state.unwrap().status is YieldFarming
                    || s0.lottery_state.unwrap().in_blender {
                    r == Err::<(), LotteryError>(LotteryError::WrongStatus) && *final(self) == s0
                } else if !has_ticket_id(s0.tickets@, ticket.id) || s0.tickets@[first_ticket_index(
                    s0.tickets@,
                    ticket.id,
                )] != ticket {
                    r == Err::<(), LotteryError>(LotteryError::TicketNotFound) && *final(self) == s0
                } else {
                    let j = first_ticket_index(s0.tickets@, ticket.id);
                    let eids = user_entry_ids(s0.user_tickets@, ticket.user);
                    let m = first_id_index(eids, ticket.id);
                    &&& r == Ok::<(), LotteryError>(())
                    &&& final(self).tickets@ == s0.tickets@.remove(j)
                    &&& final(self).ids is Some
                    &&& final(self).active_ids() == s0.active_ids().remove(j)
                    &&& (if m < eids.len() {
                        &&& user_entry_ids(final(self).user_tickets@, ticket.user) == eids.remove(m)
                        &&& forall|u2: Address|
                            u2 != ticket.user ==> user_entry_ids(final(self).user_tickets@, u2)
                                == user_entry_ids(s0.user_tickets@, u2)
                    } else {
                        final(self).user_tickets == s0.user_tickets
                    })
                    &&& final(self).lottery_state == (if m < eids.len() && eids.remove(m).len()
                        == 0 {
                        Some(
                            LotteryState {
                                no_participants: (s0.lottery_state.unwrap().no_participants
                                    - 1) as u32,
                                ..s0.lottery_state.unwrap()
                            },
                        )
                    } else {
                        s0.lottery_state
                    })
                    &&& final(self).admin == s0.admin
                    &&& final(self).lottery_status == s0.lottery_status
                    &&& final(self).currency == s0.currency
                    &&& final(self).token_amount == s0.token_amount
                    &&& final(self).ticket_counter == s0.ticket_counter
                    &&& final(self).sent_balance == s0.sent_balance
                    &&& final(self).blend_address == s0.blend_address
                    &&& final(self).winner_selected == s0.winner_selected
                    &&& final(self).seed == s0.seed
                    &&& final(self).buyin_started_ledger == s0.buyin_started_ledger
                    &&& final(self).farming_started_ledger == s0.farming_started_ledger
                    &&& final(self).ended_started_ledger == s0.ended_started_ledger
                }
            }),
    {
        let ghost s0 = *self;
        let state = storage::read_lottery_state(self)?;
        if state.status == LotteryStatus::YieldFarming || state.in_blender {
            return Err(LotteryError::WrongStatus);
        }
        let stored = storage::read_ticket(self, ticket.id)?;
        if stored != ticket {
            return Err(LotteryError::TicketNotFound);
        }
        // The refund — `ticket.amount` moved from the pool back to the
        // owner — is the host's transfer, made exactly when this call
        // returns success.
        let ghost j = first_ticket_index(s0.tickets@, ticket.id);
        let user_ids_before = storage::get_user_tickets(self, &ticket.user);
        storage::remove_ticket_from_user(self, &ticket.user, ticket.id);
        let ghost e0 = s0.user_tickets@;
        let ghost e1 = self.user_tickets@;
        proof {
            lemma_first_user_index(e0, ticket.user);
            let ju = first_user_index(e0, ticket.user);
            let eids = user_entry_ids(e0, ticket.user);
            let m = first_id_index(eids, ticket.id);
            lemma_first_id_index(eids, ticket.id);
            if ju < e0.len() && m < eids.len() {
                assert(e1 =~= e0.update(ju, e1[ju]));
                lemma_nonempty_count_update(e0, ju, e1[ju]);
                lemma_nonempty_count_pos(e0, ju);
                assert(user_entry_ids(e1, ticket.user) == eids.remove(m)) by {
                    lemma_first_user_index(e1, ticket.user);
                }
                assert forall|u2: Address| u2 != ticket.user implies user_entry_ids(e1, u2)
                    == user_entry_ids(e0, u2) by {
                    lemma_first_user_index(e0, u2);
                    lemma_first_user_index(e1, u2);
                    let f0 = first_user_index(e0, u2);
                    let f1 = first_user_index(e1, u2);
                    if f0 < e0.len() {
                        assert(e1[f0] == e0[f0]);
                        assert(f1 == f0);
                    } else {
                        assert(f1 >= e1.len()) by {
                            if f1 < e1.len() {
                                assert(e1[f1] == e0[f1]);
                            }
                        }
                    }
                }
            }
        }
        storage::remove_ticket(self, ticket);
        proof {
            lemma_first_ticket_index(s0.tickets@, ticket.id);
            lemma_first_id_index(s0.active_ids(), ticket.id);
            let m2 = first_id_index(s0.active_ids(), ticket.id);
            assert(s0.active_ids()[j] == ticket_ids(s0.tickets@)[j]);
            assert(m2 == j) by {
                if m2 < j {
                    assert(s0.active_ids()[m2] == s0.tickets@[m2].id);
                }
            }
            assert(self.active_ids() =~= ticket_ids(self.tickets@)) by {
                assert(forall|k: int|
                    0 <= k < self.tickets@.len() ==> self.tickets@[k] == (if k < j {
                        s0.tickets@[k]
                    } else {
                        s0.tickets@[k + 1]
                    }));
            }
        }
        let remaining = storage::get_user_tickets(self, &ticket.user);
        if !user_ids_before.is_empty() && remaining.is_empty() {
            let mut st = match storage::read_lottery_state(self) {
                Ok(state) => state,
                Err(e) => {
                    proof {
                        assert(false);
                    }
                    return Err(e);
                },
            };
            st.no_participants = st.no_participants - 1;
            storage::write_lottery_state(self, &st);
        }
        Ok(())
    }

    /// Draws the winner of the current cycle. Only in the ended phase,
    /// only once per cycle, and only with the pooled funds back from the
    /// reserve. An empty draw pool — whether the active list is empty or
    /// was never created at all — is the reportable failure
    /// `NoParticipants`. The winner index is a reproducible function of the stored
    /// fairness seed and the number of active tickets alone, and every
    /// active ticket can be selected. The winning ticket is marked, the
    /// reconciled yield moves onto its amount — paid out when the winner
    /// redeems — and the yield account is zeroed. A second draw in the
    /// same ended period always fails with `WinnerAlreadySelected`.
    pub fn raffle(&mut self) -> (r: Result<Ticket, LotteryError>)
        requires
            old(self).wf(),
            old(self).lottery_state is Some ==> forall|k: int|
                0 <= k < old(self).tickets@.len() ==> i128::MIN <= #[trigger] old(
                    self,
                ).tickets@[k].amount + old(self).lottery_state.unwrap().amount_of_yield
                    <= i128::MAX,
        ensures
            final(self).wf(),
            ({
                let s0 = *old(self);
                if s0.lottery_state is None {
                    r == Err::<Ticket, LotteryError>(LotteryError::LotteryStateNotFound) && *final(self) == s0
                } else if s0.lottery_status is None {
                    r == Err::<Ticket, LotteryError>(LotteryError::LotteryStatusNotFound) && *final(self) == s0
                } else if s0.lottery_status != Some(LotteryStatus::Ended) {
                    r == Err::<Ticket, LotteryError>(LotteryError::WrongStatus) && *final(self) == s0
                } else if s0.winner_selected is None {
                    r == Err::<Ticket, LotteryError>(LotteryError::WinnerSelectedNotFound) && *final(self) == s0
                } else if s0.winner_selected == Some(true) {
                    r == Err::<Ticket, LotteryError>(LotteryError::WinnerAlreadySelected) && *final(self) == s0
                } else if s0.lottery_state.unwrap().in_blender {
                    r == Err::<Ticket, LotteryError>(LotteryError::BalancesInBlender) && *final(self) == s0
                } else if s0.seed is None {
                    r == Err::<Ticket, LotteryError>(LotteryError::SeedNotFound) && *final(self) == s0
                } else if s0.active_ids().len() == 0 {
                    r == Err::<Ticket, LotteryError>(LotteryError::NoParticipants) && *final(self) == s0
                } else {
                    let idx = util::spec_seeded_index(
                        s0.seed.unwrap()@,
                        s0.active_ids().len() as u32,
                    ) as int;
                    let w0 = s0.tickets@[idx];
                    let w = Ticket {
                        won: true,
                        amount: (w0.amount + s0.lottery_state.unwrap().amount_of_yield) as i128,
                        ..w0
                    };
                    &&& r == Ok::<Ticket, LotteryError>(w)
                    &&& final(self).tickets@ == s0.tickets@.update(idx, w)
                    &&& final(self).winner_selected == Some(true)
                    &&& final(self).lottery_state == Some(
                        LotteryState { amount_of_yield: 0, ..s0.lottery_state.unwrap() },
                    )
                    &&& final(self).ids == s0.ids
                    &&& final(self).seed == s0.seed
                    &&& final(self).user_tickets == s0.user_tickets
                    &&& final(self).ticket_counter == s0.ticket_counter
                    &&& final(self).admin == s0.admin
                    &&& final(self).lottery_status == s0.lottery_status
                    &&& final(self).currency == s0.currency
                    &&& final(self).token_amount == s0.token_amount
                    &&& final(self).sent_balance == s0.sent_balance
                    &&& final(self).blend_address == s0.blend_address
                    &&& final(self).buyin_started_ledger == s0.buyin_started_ledger
                    &&& final(self).farming_started_ledger == s0.farming_started_ledger
                    &&& final(self).ended_started_ledger == s0.ended_started_ledger
                }
            }),
    {
        let ghost s0 = *self;
        let lottery_state = storage::read_lottery_state(self)?;
        let status = storage::read_lottery_status(self)?;
        if status != LotteryStatus::Ended {
            return Err(LotteryError::WrongStatus);
        }
        let winner_selected = storage::read_winner_selected(self)?;
        if winner_selected {
            return Err(LotteryError::WinnerAlreadySelected);
        }
        if lottery_state.in_blender {
            return Err(LotteryError::BalancesInBlender);
        }
        // An active list that was never created reads as empty: either way
        // an empty draw pool is the reportable failure, not a missing key.
        let active_ids: Vec<u32> = match storage::read_ids(self) {
            Ok(ids) => ids,
            Err(_) => Vec::new(),
        };
        let seed_bytes = storage::read_seed(self)?;
        if active_ids.len() == 0 {
            return Err(LotteryError::NoParticipants);
        }
        let n = active_ids.len() as u32;
        let winner_id_index = util::seeded_index(&seed_bytes, n);
        let winner_id = active_ids[winner_id_index as usize];
        let prize = lottery_state.amount_of_yield;

        let ghost idx = winner_id_index as int;
        proof {
            assert(s0.active_ids()[idx] == ticket_ids(s0.tickets@)[idx]);
            lemma_first_ticket_index(s0.tickets@, winner_id);
            let f = first_ticket_index(s0.tickets@, winner_id);
            assert(f == idx) by {
                if f < idx {
                    assert(s0.tickets@[f].id == s0.tickets@[idx].id);
                }
            }
        }
        let mut winner_ticket = storage::read_ticket(self, winner_id)?;
        winner_ticket.won = true;
        winner_ticket.amount = winner_ticket.amount + prize;
        storage::write_ticket(self, &winner_ticket);
        storage::write_winner_selected(self, true);

        let mut state = lottery_state;
        state.amount_of_yield = 0;
        storage::write_lottery_state(self, &state);
        proof {
            assert(self.active_ids() =~= ticket_ids(self.tickets@));
        }
        Ok(winner_ticket)
    }

    /// Advances the phase state machine. Only the three edges of the cycle
    /// `BuyIn -> YieldFarming -> Ended -> BuyIn` can succeed, and only once
    /// the current phase has lasted its minimum dwell measured from the
    /// height at which it began; any other requested edge fails regardless
    /// of the clock. A successful transition records the new phase's start
    /// height; entering the ended phase stores the fresh fairness seed the
    /// host derived from the clock, and re-entering buy-in resets the
    /// winner-selected flag for the next cycle.
    pub fn set_status(
        &mut self,
        new_status: LotteryStatus,
        current_ledger: u32,
        fresh_seed: &Vec<u8>,
    ) -> (r: Result<(), LotteryError>)
        requires
            old(self).wf(),
        ensures
            final(self).wf(),
            ({
                let s0 = *old(self);
                if s0.lottery_status is None {
                    r == Err::<(), LotteryError>(LotteryError::LotteryStatusNotFound) && *final(self) == s0
                } else if !valid_transition(s0.lottery_status.unwrap(), new_status) {
                    r == Err::<(), LotteryError>(LotteryError::WrongStatus) && *final(self) == s0
                } else if !spec_timelock_passed(
                    s0,
                    s0.lottery_status.unwrap(),
                    new_status,
                    current_ledger,
                ) {
                    r == Err::<(), LotteryError>(LotteryError::MinimumTimeLockNotEnded) && *final(self) == s0
                } else if s0.lottery_state is None {
                    r == Err::<(), LotteryError>(LotteryError::LotteryStateNotFound) && *final(self) == s0
                } else {
                    &&& r == Ok::<(), LotteryError>(())
                    &&& final(self).lottery_status == Some(new_status)
                    &&& final(self).lottery_state == Some(
                        LotteryState { status: new_status, ..s0.lottery_state.unwrap() },
                    )
                    &&& final(self).winner_selected == (if new_status is BuyIn {
                        Some(false)
                    } else {
                        s0.winner_selected
                    })
                    &&& (if new_status is Ended {
                        final(self).seed is Some && final(self).seed.unwrap()@ == fresh_seed@
                    } else {
                        final(self).seed == s0.seed
                    })
                    &&& final(self).buyin_started_ledger == (if new_status is BuyIn {
                        current_ledger
                    } else {
                        s0.buyin_started_ledger
                    })
                    &&& final(self).farming_started_ledger == (if new_status is YieldFarming {
                        current_ledger
                    } else {
                        s0.farming_started_ledger
                    })
                    &&& final(self).ended_started_ledger == (if new_status is Ended {
                        current_ledger
                    } else {
                        s0.ended_started_ledger
                    })
                    &&& final(self).admin == s0.admin
                    &&& final(self).currency == s0.currency
                    &&& final(self).token_amount == s0.token_amount
                    &&& final(self).tickets == s0.tickets
                    &&& final(self).ticket_counter == s0.ticket_counter
                    &&& final(self).user_tickets == s0.user_tickets
                    &&& final(self).sent_balance == s0.sent_balance
                    &&& final(self).blend_address == s0.blend_address
                    &&& final(self).ids == s0.ids
                }
            }),
    {
        let current_status = storage::read_lottery_status(self)?;

        let is_valid_transition = matches!(
            (current_status, new_status),
            (LotteryStatus::BuyIn, LotteryStatus::YieldFarming)
                | (LotteryStatus::YieldFarming, LotteryStatus::Ended)
                | (LotteryStatus::Ended, LotteryStatus::BuyIn)
        );
        if !is_valid_transition {
            return Err(LotteryError::WrongStatus);
        }
        let timelock_passed = util::is_timelock_passed(
            self,
            &current_status,
            &new_status,
            current_ledger,
        )?;
        if !timelock_passed {
            return Err(LotteryError::MinimumTimeLockNotEnded);
        }
        let mut state = storage::read_lottery_state(self)?;

        if new_status == LotteryStatus::BuyIn {
            storage::write_winner_selected(self, false);
            storage::write_buyin_started_ledger(self, current_ledger);
        }
        if new_status == LotteryStatus::Ended {
            storage::write_seed(self, fresh_seed);
            storage::write_ended_started_ledger(self, current_ledger);
        }
        if new_status == LotteryStatus::YieldFarming {
            storage::write_farming_started_ledger(self, current_ledger);
        }
        storage::write_lottery_status(self, &new_status);

        state.status = new_status;
        storage::write_lottery_state(self, &state);
        Ok(())
    }

    /// Validates a deposit into the yield reserve and records it: only the
    /// administrator may move the pool, and only during yield farming. On
    /// success the full pool balance is recorded as sent, the pool is
    /// marked as sitting in the reserve, and the returned request — a
    /// deposit of exactly that balance — is what the host must submit,
    /// with a single-use transfer authorization for the same amount.
    pub fn blend_it(&mut self, caller: Address, contract_balance: i128) -> (r: Result<
        ReserveRequest,
        LotteryError,
    >)
        requires
            old(self).wf(),
        ensures
            final(self).wf(),
            ({
                let s0 = *old(self);
                if s0.lottery_status is None {
                    r == Err::<ReserveRequest, LotteryError>(LotteryError::LotteryStatusNotFound)
                        && *final(self) == s0
                } else if s0.lottery_status != Some(LotteryStatus::YieldFarming) {
                    r == Err::<ReserveRequest, LotteryError>(LotteryError::WrongStatus) && *final(self) == s0
                } else if s0.admin is None {
                    r == Err::<ReserveRequest, LotteryError>(LotteryError::AdminNotFound) && *final(self) == s0
                } else if s0.admin != Some(caller) {
                    r == Err::<ReserveRequest, LotteryError>(LotteryError::NotAuthorized) && *final(self) == s0
                } else if s0.currency is None {
                    r == Err::<ReserveRequest, LotteryError>(LotteryError::LotteryCurrencyNotFound)
                        && *final(self) == s0
                } else if s0.blend_address is None {
                    r == Err::<ReserveRequest, LotteryError>(LotteryError::BlenderNotFound)
                        && *final(self) == s0
                } else if s0.lottery_state is None {
                    r == Err::<ReserveRequest, LotteryError>(LotteryError::LotteryStateNotFound)
                        && *final(self) == s0
                } else {
                    &&& r == Ok::<ReserveRequest, LotteryError>(
                        ReserveRequest {
                            address: s0.currency.unwrap(),
                            amount: contract_balance,
                            request_type: REQUEST_TYPE_DEPOSIT,
                        },
                    )
                    &&& *final(self) == (LotteryStore {
                        sent_balance: Some(contract_balance),
                        lottery_state: Some(
                            LotteryState { in_blender: true, ..s0.lottery_state.unwrap() },
                        ),
                        ..s0
                    })
                }
            }),
    {
        let status = storage::read_lottery_status(self)?;
        if status != LotteryStatus::YieldFarming {
            return Err(LotteryError::WrongStatus);
        }
        let admin = match storage::read_admin(self) {
            Some(admin) => admin,
            None => {
                return Err(LotteryError::AdminNotFound);
            },
        };
        if caller != admin {
            return Err(LotteryError::NotAuthorized);
        }
        let token_address = storage::read_currency(self)?;
        let _blend_address = storage::read_blend_address(self)?;
        let mut state = storage::read_lottery_state(self)?;

        let deposit_request = ReserveRequest {
            address: token_address,
            amount: contract_balance,
            request_type: REQUEST_TYPE_DEPOSIT,
        };
        storage::write_sent_balance(self, &contract_balance);
        state.in_blender = true;
        storage::write_lottery_state(self, &state);
        Ok(deposit_request)
    }

    /// Validates a withdrawal from the yield reserve: only the
    /// administrator may move the pool, only during the ended
    /// phase, and only while the pool actually holds a supply position at
    /// the reserve index of the configured currency. The returned request —
    /// a withdrawal of the maximum representable amount, which the reserve
    /// reads as "everything owed" — is what the host must submit, with the
    /// matching transfer authorization. The store is not touched; the
    /// withdrawal is recorded by [`LotteryStore::withdraw_from_blend`] once
    /// the host has read the balances around the submission.
    pub fn prepare_withdraw_from_blend(
        &self,
        caller: Address,
        reserve_list: &Vec<Address>,
        supply_ids: &Vec<u32>,
    ) -> (r: Result<ReserveRequest, LotteryError>)
        requires
            reserve_list@.len() <= u32::MAX,
        ensures
            ({
                let s0 = *self;
                if s0.lottery_status is None {
                    r == Err::<ReserveRequest, LotteryError>(LotteryError::LotteryStatusNotFound)
                } else if s0.lottery_status != Some(LotteryStatus::Ended) {
                    r == Err::<ReserveRequest, LotteryError>(LotteryError::WrongStatus)
                } else if s0.admin is None {
                    r == Err::<ReserveRequest, LotteryError>(LotteryError::AdminNotFound)
                } else if s0.admin != Some(caller) {
                    r == Err::<ReserveRequest, LotteryError>(LotteryError::NotAuthorized)
                } else if s0.currency is None {
                    r == Err::<ReserveRequest, LotteryError>(LotteryError::LotteryCurrencyNotFound)
                } else if s0.blend_address is None {
                    r == Err::<ReserveRequest, LotteryError>(LotteryError::BlenderNotFound)
                } else if !supply_ids@.contains(
                    spec_reserve_index(reserve_list@, s0.currency.unwrap()) as u32,
                ) {
                    r == Err::<ReserveRequest, LotteryError>(LotteryError::BlendPositionNotFound)
                } else {
                    r == Ok::<ReserveRequest, LotteryError>(
                        ReserveRequest {
                            address: s0.currency.unwrap(),
                            amount: i128::MAX,
                            request_type: REQUEST_TYPE_WITHDRAW,
                        },
                    )
                }
            }),
    {
        let status = storage::read_lottery_status(self)?;
        if status != LotteryStatus::Ended {
            return Err(LotteryError::WrongStatus);
        }
        let admin = match storage::read_admin(self) {
            Some(admin) => admin,
            None => {
                return Err(LotteryError::AdminNotFound);
            },
        };
        if caller != admin {
            return Err(LotteryError::NotAuthorized);
        }
        let token_address = storage::read_currency(self)?;
        let _blend_address = storage::read_blend_address(self)?;
        let reserve_index = find_reserve_index(reserve_list, &token_address);

        let n = supply_ids.len();
        let mut i: usize = 0;
        while i < n && supply_ids[i] != reserve_index
            invariant
                n == supply_ids@.len(),
                0 <= i <= n,
                forall|k: int| 0 <= k < i ==> supply_ids@[k] != reserve_index,
            decreases n - i,
        {
            i += 1;
        }
        if i >= n {
            return Err(LotteryError::BlendPositionNotFound);
        }
        Ok(
            ReserveRequest {
                address: token_address,
                amount: i128::MAX,
                request_type: REQUEST_TYPE_WITHDRAW,
            },
        )
    }

    /// Records a completed withdrawal from the reserve and reconciles the
    /// yield; administrator-only, like the withdrawal it settles. The pool
    /// balance grew by what the reserve paid back, and what
    /// it paid back beyond the recorded principal is the yield. On success
    /// the yield is stored, the pool is no longer marked as sitting in the
    /// reserve, and the yield is returned.
    pub fn withdraw_from_blend(
        &mut self,
        caller: Address,
        balance_before: i128,
        balance_after: i128,
    ) -> (r: Result<i128, LotteryError>)
        requires
            old(self).wf(),
            old(self).lottery_status == Some(LotteryStatus::Ended) && old(self).sent_balance
                is Some ==> {
                &&& i128::MIN <= balance_after - balance_before <= i128::MAX
                &&& i128::MIN <= balance_after - balance_before - old(
                    self,
                ).sent_balance.unwrap() <= i128::MAX
            },
        ensures
            final(self).wf(),
            ({
                let s0 = *old(self);
                if s0.lottery_status is None {
                    r == Err::<i128, LotteryError>(LotteryError::LotteryStatusNotFound) && *final(self) == s0
                } else if s0.lottery_status != Some(LotteryStatus::Ended) {
                    r == Err::<i128, LotteryError>(LotteryError::WrongStatus) && *final(self) == s0
                } else if s0.admin is None {
                    r == Err::<i128, LotteryError>(LotteryError::AdminNotFound) && *final(self) == s0
                } else if s0.admin != Some(caller) {
                    r == Err::<i128, LotteryError>(LotteryError::NotAuthorized) && *final(self) == s0
                } else if s0.sent_balance is None {
                    r == Err::<i128, LotteryError>(LotteryError::SentToBlendNotFound) && *final(self) == s0
                } else if s0.lottery_state is None {
                    r == Err::<i128, LotteryError>(LotteryError::LotteryStateNotFound) && *final(self) == s0
                } else {
                    let yield_gained = balance_after - balance_before - s0.sent_balance.unwrap();
                    &&& r == Ok::<i128, LotteryError>(yield_gained as i128)
                    &&& *final(self) == (LotteryStore {
                        lottery_state: Some(
                            LotteryState {
                                amount_of_yield: yield_gained as i128,
                                in_blender: false,
                                ..s0.lottery_state.unwrap()
                            },
                        ),
                        ..s0
                    })
                }
            }),
    {
        let status = storage::read_lottery_status(self)?;
        if status != LotteryStatus::Ended {
            return Err(LotteryError::WrongStatus);
        }
        let admin = match storage::read_admin(self) {
            Some(admin) => admin,
            None => {
                return Err(LotteryError::AdminNotFound);
            },
        };
        if caller != admin {
            return Err(LotteryError::NotAuthorized);
        }
        let sent_to_blend = storage::read_sent_balance(self)?;
        let mut state = storage::read_lottery_state(self)?;

        let balance_from_blend = balance_after - balance_before;
        let yield_gained = balance_from_blend - sent_to_blend;

        state.amount_of_yield = yield_gained;
        state.in_blender = false;
        storage::write_lottery_state(self, &state);
        Ok(yield_gained)
    }

    /// Computes the emission claim the administrator may make at the
    /// reserve: the reward-token id of the configured currency's supply
    /// side, and the administrator as recipient. Only the administrator —
    /// authenticated by the host — may claim. The claim is a side channel:
    /// it touches neither the recorded principal, nor the yield, nor any
    /// ticket — this operation never changes the store.
    pub fn admin_claim_emissions(&self, caller: Address, reserve_list: &Vec<Address>) -> (r: Result<
        (Address, u32),
        LotteryError,
    >)
        requires
            reserve_list@.len() < 0x8000_0000,
        ensures
            ({
                let s0 = *self;
                if s0.admin is None {
                    r == Err::<(Address, u32), LotteryError>(LotteryError::AdminNotFound)
                } else if s0.admin != Some(caller) {
                    r == Err::<(Address, u32), LotteryError>(LotteryError::NotAuthorized)
                } else if s0.currency is None {
                    r == Err::<(Address, u32), LotteryError>(LotteryError::LotteryCurrencyNotFound)
                } else if s0.blend_address is None {
                    r == Err::<(Address, u32), LotteryError>(LotteryError::BlenderNotFound)
                } else {
                    r == Ok::<(Address, u32), LotteryError>(
                        (
                            s0.admin.unwrap(),
                            (2 * spec_reserve_index(reserve_list@, s0.currency.unwrap())
                                + 1) as u32,
                        ),
                    )
                }
            }),
    {
        let admin = match storage::read_admin(self) {
            Some(admin) => admin,
            None => {
                return Err(LotteryError::AdminNotFound);
            },
        };
        if caller != admin {
            return Err(LotteryError::NotAuthorized);
        }
        let token_address = storage::read_currency(self)?;
        let _blend_address = storage::read_blend_address(self)?;
        let reserve_index = find_reserve_index(reserve_list, &token_address);
        let reserve_token_id = reserve_index * 2 + 1;
        Ok((admin, reserve_token_id))
    }
}

} // verus!
