//! What holds of the ledger across operations: who may act, how a position
//! lives, and how a balance moves over a whole history.
//!
//! The statements are about the spec functions by which the operations
//! state their results, so each of them holds of what the operations return.

use vstd::prelude::*;
use crate::account::UserAccount;
use crate::error::ErrorCode;
use crate::fixed_point::{lemma_round_trip_never_gains, shares_for, MAX_PRICE};
use crate::position::{ClosePosition, PositionStatus, PredictionType, Trade, MAX_MARKET_ID_LEN};

verus! {

/// Only the owner of an account buys on it: a purchase by anyone else is
/// refused as `Unauthorized`, whatever else is asked.
pub proof fn lemma_stranger_cannot_buy(ctx: Trade, amount_usdc: u64, price_per_share: u64)
    requires
        ctx.user != ctx.user_account.owner,
    ensures
        ctx.rejection(amount_usdc, price_per_share) == Some(ErrorCode::Unauthorized),
{
}

/// Only the owner of an account closes a position into it: a closing by
/// anyone else is refused as `Unauthorized`, whatever the position and the
/// price.
pub proof fn lemma_stranger_cannot_close(ctx: ClosePosition, current_price: u64)
    requires
        ctx.user != ctx.user_account.owner,
    ensures
        ctx.rejection(current_price) == Some(ErrorCode::Unauthorized),
{
}

/// A purchase at the price 0 by the owner, within the balance, is refused as
/// `InvalidPrice`.
pub proof fn lemma_zero_price_is_refused(ctx: Trade, amount_usdc: u64)
    requires
        ctx.user == ctx.user_account.owner,
        amount_usdc <= ctx.user_account.usdc_balance,
    ensures
        ctx.rejection(amount_usdc, 0) == Some(ErrorCode::InvalidPrice),
{
}

/// A purchase opens an active, well-formed position that belongs to the
/// owner of the account and takes the account's trade counter as its id.
pub proof fn lemma_purchase_opens_active_position(
    ctx: Trade,
    prediction_type: PredictionType,
    market_id: String,
    amount_usdc: u64,
    price_per_share: u64,
    now: i64,
)
    requires
        market_id@.len() <= MAX_MARKET_ID_LEN,
        ctx.rejection(amount_usdc, price_per_share) is None,
    ensures
        ({
            let position = ctx.bought(prediction_type, market_id, amount_usdc, price_per_share, now).position_account;
            &&& position.status == PositionStatus::Active
            &&& position.well_formed()
            &&& position.owner == ctx.user
            &&& position.position_id == ctx.user_account.total_trades
            &&& position.shares == shares_for(amount_usdc as nat, price_per_share as nat)
        }),
{
}

/// The buyer can close what it bought: the closing of a freshly opened
/// position by its buyer, at any price up to the highest, is refused only
/// where the payout would take the balance beyond 64 bits.
pub proof fn lemma_buyer_can_close(
    trade: Trade,
    prediction_type: PredictionType,
    market_id: String,
    amount_usdc: u64,
    price_per_share: u64,
    now: i64,
    current_price: u64,
)
    requires
        trade.rejection(amount_usdc, price_per_share) is None,
        current_price <= MAX_PRICE,
    ensures
        ({
            let bought = trade.bought(prediction_type, market_id, amount_usdc, price_per_share, now);
            let closing = ClosePosition {
                user_account: bought.user_account,
                position_account: bought.position_account,
                user: bought.user,
            };
            closing.rejection(current_price) == if bought.user_account.usdc_balance + closing.payout(
                current_price,
            ) > u64::MAX {
                Some(ErrorCode::ArithmeticOverflow)
            } else {
                None
            }
        }),
{
}

/// A position closes once: a closing takes an active position to `Closed`,
/// and every further closing of that position by the owner of the account
/// it is closed into is refused as `PositionNotActive`, at any price.
pub proof fn lemma_position_closes_once(
    ctx: ClosePosition,
    current_price: u64,
    now: i64,
    again: ClosePosition,
    price_again: u64,
)
    requires
        ctx.rejection(current_price) is None,
        again.position_account == ctx.closed(current_price, now).position_account,
        again.user == again.user_account.owner,
    ensures
        ctx.position_account.status == PositionStatus::Active,
        ctx.closed(current_price, now).position_account.status == PositionStatus::Closed,
        again.rejection(price_again) == Some(ErrorCode::PositionNotActive),
{
}

/// Closing a position at the price paid for it never returns more than was
/// spent on it.
pub proof fn lemma_closing_at_entry_price_never_gains(ctx: ClosePosition)
    requires
        ctx.position_account.well_formed(),
    ensures
        ctx.payout(ctx.position_account.price_per_share) <= ctx.position_account.amount_usdc,
{
    lemma_round_trip_never_gains(
        ctx.position_account.amount_usdc as nat,
        ctx.position_account.price_per_share as nat,
    );
}

/// One operation of a history, with the context that was handed to it.
pub enum Operation {
    /// A purchase of `amount_usdc` at `price_per_share`.
    Bought { trade: Trade, amount_usdc: u64, price_per_share: u64 },
    /// The closing of the position in `closing` at `current_price`.
    Closed { closing: ClosePosition, current_price: u64 },
}

impl Operation {
    /// Whether the operation was carried out and not refused.
    pub open spec fn succeeded(self) -> bool {
        match self {
            Operation::Bought { trade, amount_usdc, price_per_share } => trade.rejection(
                amount_usdc,
                price_per_share,
            ) is None,
            Operation::Closed { closing, current_price } => closing.rejection(current_price) is None,
        }
    }

    /// The account as the operation found it.
    pub open spec fn account_before(self) -> UserAccount {
        match self {
            Operation::Bought { trade, .. } => trade.user_account,
            Operation::Closed { closing, .. } => closing.user_account,
        }
    }

    /// The account as the operation left it.
    pub open spec fn account_after(self) -> UserAccount {
        match self {
            Operation::Bought { trade, amount_usdc, .. } => trade.debited(amount_usdc),
            Operation::Closed { closing, current_price } => closing.credited(current_price),
        }
    }

    /// What the operation adds to the balance: the amount spent, taken
    /// negative, or the payout.
    pub open spec fn balance_change(self) -> int {
        match self {
            Operation::Bought { amount_usdc, .. } => -(amount_usdc as int),
            Operation::Closed { closing, current_price } => closing.payout(current_price) as int,
        }
    }

    /// The purchases that the operation counts for: 1 or 0.
    pub open spec fn purchases(self) -> nat {
        match self {
            Operation::Bought { .. } => 1,
            Operation::Closed { .. } => 0,
        }
    }
}

/// The account at the end of the operations `ops` that began on `account`.
pub open spec fn account_after_all(account: UserAccount, ops: Seq<Operation>) -> UserAccount {
    if ops.len() == 0 {
        account
    } else {
        ops.last().account_after()
    }
}

/// Whether `ops` is a history of `account`: every operation succeeded, the
/// first found the account as `account`, and each later one found it as the
/// one before had left it.
pub open spec fn is_history(account: UserAccount, ops: Seq<Operation>) -> bool
    decreases ops.len(),
{
    if ops.len() == 0 {
        true
    } else {
        &&& is_history(account, ops.drop_last())
        &&& ops.last().succeeded()
        &&& ops.last().account_before() == account_after_all(account, ops.drop_last())
    }
}

/// The sum of the balance changes of `ops`.
pub open spec fn net_change(ops: Seq<Operation>) -> int
    decreases ops.len(),
{
    if ops.len() == 0 {
        0
    } else {
        net_change(ops.drop_last()) + ops.last().balance_change()
    }
}

/// The number of purchases among `ops`.
pub open spec fn purchases(ops: Seq<Operation>) -> nat
    decreases ops.len(),
{
    if ops.len() == 0 {
        0
    } else {
        purchases(ops.drop_last()) + ops.last().purchases()
    }
}

/// Over any history the balance moves by exactly the amounts spent and the
/// payouts received and by nothing else, and never falls below zero; the
/// trade counter counts the purchases; the account keeps its owner and the
/// time of its opening.
pub proof fn lemma_balance_follows_history(account: UserAccount, ops: Seq<Operation>)
    requires
        is_history(account, ops),
    ensures
        account_after_all(account, ops).usdc_balance == account.usdc_balance + net_change(ops),
        account.usdc_balance + net_change(ops) >= 0,
        account_after_all(account, ops).total_trades == account.total_trades + purchases(ops),
        account_after_all(account, ops).owner == account.owner,
        account_after_all(account, ops).created_at == account.created_at,
    decreases ops.len(),
{
    if ops.len() > 0 {
        lemma_balance_follows_history(account, ops.drop_last());
    }
}

/// Every prefix of a history is a history.
pub proof fn lemma_history_prefix(account: UserAccount, ops: Seq<Operation>, n: int)
    requires
        is_history(account, ops),
        0 <= n <= ops.len(),
    ensures
        is_history(account, ops.take(n)),
    decreases ops.len(),
{
    if n == ops.len() {
        assert(ops.take(n) =~= ops);
    } else {
        lemma_history_prefix(account, ops.drop_last(), n);
        assert(ops.drop_last().take(n) =~= ops.take(n));
    }
}

/// The positions of an owner have ids of their own. A position takes as its
/// id the trade counter that its purchase finds, and of two purchases in one
/// history the later finds the higher counter.
pub proof fn lemma_position_ids_increase(
    account: UserAccount,
    ops: Seq<Operation>,
    i: int,
    j: int,
)
    requires
        is_history(account, ops),
        0 <= i < j < ops.len(),
        ops[i] is Bought,
        ops[j] is Bought,
    ensures
        ops[i].account_before().total_trades < ops[j].account_before().total_trades,
{
    // The purchase at `i` has been counted by the time the one at `j` begins:
    // the counter stands at its value before `i` plus one after `i`, has not
    // fallen up to `j`, and is what the purchase at `j` finds.
    let upto_i = ops.take(i + 1);
    let upto_j = ops.take(j);
    lemma_history_prefix(account, ops, i + 1);
    lemma_history_prefix(account, ops, j);
    lemma_history_prefix(account, ops, j + 1);
    lemma_balance_follows_history(account, upto_i);
    lemma_balance_follows_history(account, upto_j);
    lemma_purchases_grow(upto_j, i + 1);
    assert(upto_j.take(i + 1) =~= upto_i);
}

/// A prefix holds no more purchases than the whole.
proof fn lemma_purchases_grow(ops: Seq<Operation>, n: int)
    requires
        0 <= n <= ops.len(),
    ensures
        purchases(ops.take(n)) <= purchases(ops),
    decreases ops.len(),
{
    if n == ops.len() {
        assert(ops.take(n) =~= ops);
    } else {
        lemma_purchases_grow(ops.drop_last(), n);
        assert(ops.drop_last().take(n) =~= ops.take(n));
    }
}

} // verus!
