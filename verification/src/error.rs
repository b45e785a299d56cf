//! Error kinds surfaced by the lottery core.

use vstd::prelude::*;

verus! {

/// Every failure a lottery operation can report. All of them are recoverable
/// from the caller's point of view: an operation that returns an error leaves
/// the store exactly as it found it.
#[derive(Clone, Copy, PartialEq, Eq, Structural, Debug)]
pub enum LotteryError {
    /// The operation is not permitted in the current lottery phase, or the
    /// requested phase transition is not an edge of the phase cycle.
    WrongStatus,
    /// The lottery phase was never written to the store.
    LotteryStatusNotFound,
    /// The configured currency was never written to the store.
    LotteryCurrencyNotFound,
    /// The configured ticket price was never written to the store.
    TokenAmountNotFound,
    /// The lottery state record was never written to the store.
    LotteryStateNotFound,
    /// No stored ticket carries the requested id.
    TicketNotFound,
    /// The caller is not the administrator.
    NotAuthorized,
    /// The balance sent to the reserve was never recorded.
    SentToBlendNotFound,
    /// The reserve's address was never written to the store.
    BlenderNotFound,
    /// The administrator was never written to the store.
    AdminNotFound,
    /// The pool holds no supply position at the reserve.
    BlendPositionNotFound,
    /// The active ticket id list was never written to the store.
    IdsNotFound,
    /// A winner has already been selected in the current ended period.
    WinnerAlreadySelected,
    /// The pooled funds are still deposited in the reserve.
    BalancesInBlender,
    /// The current phase has not yet lasted its minimum dwell time.
    MinimumTimeLockNotEnded,
    /// The fairness seed was never written to the store.
    SeedNotFound,
    /// The winner-selected flag was never written to the store.
    WinnerSelectedNotFound,
    /// No active ticket is left to draw a winner from.
    NoParticipants,
}

} // verus!
