//! Positions: one record per purchase, opened by a buy and closed once.

use vstd::prelude::*;
use crate::account::UserAccount;
use crate::error::ErrorCode;
use crate::fixed_point::{
    lemma_payout_within_shares, payout_for, payout_from_shares, shares_for, shares_from_spend, MAX_PRICE,
};
use crate::pubkey::Pubkey;

verus! {

/// The longest market identifier, in characters.
pub const MAX_MARKET_ID_LEN: usize = 32;

/// Whether `market_id` is short enough to name a market.
pub fn is_valid_market_id(market_id: &str) -> (r: bool)
    ensures
        r == (market_id@.len() <= MAX_MARKET_ID_LEN),
{
    market_id.unicode_len() <= MAX_MARKET_ID_LEN
}

/// The outcome that a position backs.
#[derive(Clone, Copy, Debug, PartialEq, Eq, Structural)]
pub enum PredictionType {
    Yes,
    No,
}

impl Default for PredictionType {
    fn default() -> (side: PredictionType)
        ensures
            side == PredictionType::Yes,
    {
        PredictionType::Yes
    }
}

/// Where a position stands in its life. A position is opened `Active` and
/// becomes `Closed` once; nothing leads back.
#[derive(Clone, Copy, Debug, PartialEq, Eq, Structural)]
pub enum PositionStatus {
    Active,
    Closed,
}

impl Default for PositionStatus {
    fn default() -> (status: PositionStatus)
        ensures
            status == PositionStatus::Active,
    {
        PositionStatus::Active
    }
}

/// The record of one purchase.
#[derive(Debug, PartialEq, Eq)]
pub struct PredictionPosition {
    /// The owner of the account that paid for the position.
    pub owner: Pubkey,
    /// The market that the position is in.
    pub market_id: String,
    /// The number of purchases that the owner had made before this one.
    pub position_id: u64,
    /// The outcome backed.
    pub prediction_type: PredictionType,
    /// The amount spent, in millionths of a currency unit.
    pub amount_usdc: u64,
    /// The price paid per share, in millionths of a currency unit.
    pub price_per_share: u64,
    /// The shares bought, in millionths of a share.
    pub shares: u64,
    pub status: PositionStatus,
    /// When the position was opened.
    pub opened_at: i64,
    /// When the position was closed; 0 while it is active.
    pub closed_at: i64,
}

impl Clone for PredictionPosition {
    fn clone(&self) -> (copy: PredictionPosition)
        ensures
            copy == *self,
    {
        PredictionPosition {
            owner: self.owner,
            market_id: self.market_id.clone(),
            position_id: self.position_id,
            prediction_type: self.prediction_type,
            amount_usdc: self.amount_usdc,
            price_per_share: self.price_per_share,
            shares: self.shares,
            status: self.status,
            opened_at: self.opened_at,
            closed_at: self.closed_at,
        }
    }
}

impl Default for PredictionPosition {
    /// The blank record, as a purchase finds it: the zero key as owner, no
    /// market, `Yes`, `Active`, and zero everywhere else.
    fn default() -> (position: PredictionPosition)
        ensures
            position.owner.is_zero(),
            position.market_id@ == Seq::<char>::empty(),
            position.position_id == 0,
            position.prediction_type == PredictionType::Yes,
            position.amount_usdc == 0,
            position.price_per_share == 0,
            position.shares == 0,
            position.status == PositionStatus::Active,
            position.opened_at == 0,
            position.closed_at == 0,
    {
        PredictionPosition {
            owner: Pubkey::default(),
            market_id: String::new(),
            position_id: 0,
            prediction_type: PredictionType::Yes,
            amount_usdc: 0,
            price_per_share: 0,
            shares: 0,
            status: PositionStatus::Active,
            opened_at: 0,
            closed_at: 0,
        }
    }
}

impl PredictionPosition {
    /// What holds of every position that a purchase has opened, before and
    /// after it is closed.
    pub open spec fn well_formed(&self) -> bool {
        &&& self.market_id@.len() <= MAX_MARKET_ID_LEN
        &&& 0 < self.price_per_share <= MAX_PRICE
        &&& self.shares == shares_for(self.amount_usdc as nat, self.price_per_share as nat)
        &&& (self.status == PositionStatus::Active ==> self.closed_at == 0)
    }

    /// Whether `caller` is the owner of the position.
    pub fn is_owned_by(&self, caller: &Pubkey) -> (r: bool)
        ensures
            r == (self.owner == *caller),
    {
        self.owner == *caller
    }

    /// Whether the position can still be closed.
    pub fn is_active(&self) -> (r: bool)
        ensures
            r == (self.status == PositionStatus::Active),
    {
        self.status == PositionStatus::Active
    }
}

/// Published when a position has been opened.
#[derive(Debug, PartialEq, Eq)]
pub struct PredictionMade {
    pub user: Pubkey,
    pub market_id: String,
    pub prediction_type: PredictionType,
    pub amount_usdc: u64,
    pub price_per_share: u64,
    pub shares: u64,
    pub timestamp: i64,
}

impl Clone for PredictionMade {
    fn clone(&self) -> (copy: PredictionMade)
        ensures
            copy == *self,
    {
        PredictionMade {
            user: self.user,
            market_id: self.market_id.clone(),
            prediction_type: self.prediction_type,
            amount_usdc: self.amount_usdc,
            price_per_share: self.price_per_share,
            shares: self.shares,
            timestamp: self.timestamp,
        }
    }
}

/// Published when a position has been closed.
#[derive(Debug, PartialEq, Eq)]
pub struct PositionClosed {
    pub user: Pubkey,
    pub market_id: String,
    pub position_id: u64,
    pub close_price: u64,
    pub payout: u64,
    pub timestamp: i64,
}

impl Clone for PositionClosed {
    fn clone(&self) -> (copy: PositionClosed)
        ensures
            copy == *self,
    {
        PositionClosed {
            user: self.user,
            market_id: self.market_id.clone(),
            position_id: self.position_id,
            close_price: self.close_price,
            payout: self.payout,
            timestamp: self.timestamp,
        }
    }
}

/// What the host hands to a purchase.
#[derive(Debug, PartialEq, Eq)]
pub struct Trade {
    /// The account that pays.
    pub user_account: UserAccount,
    /// The blank record that the purchase fills in. What it holds before the
    /// purchase is of no account.
    pub position_account: PredictionPosition,
    /// The caller.
    pub user: Pubkey,
}

impl Clone for Trade {
    fn clone(&self) -> (copy: Trade)
        ensures
            copy == *self,
    {
        Trade {
            user_account: self.user_account,
            position_account: self.position_account.clone(),
            user: self.user,
        }
    }
}

impl Trade {
    /// Why the purchase is refused, if it is. The checks are made in this
    /// order, and the first that fails decides: the caller owns the account;
    /// the balance covers the amount; the price is above 0 and at most one
    /// currency unit; the shares and the trade counter fit 64 bits.
    pub open spec fn rejection(self, amount_usdc: u64, price_per_share: u64) -> Option<ErrorCode> {
        if self.user_account.owner != self.user {
            Some(ErrorCode::Unauthorized)
        } else if self.user_account.usdc_balance < amount_usdc {
            Some(ErrorCode::InsufficientBalance)
        } else if price_per_share == 0 || price_per_share > MAX_PRICE {
            Some(ErrorCode::InvalidPrice)
        } else if shares_for(amount_usdc as nat, price_per_share as nat) > u64::MAX
            || self.user_account.total_trades == u64::MAX {
            Some(ErrorCode::ArithmeticOverflow)
        } else {
            None
        }
    }

    /// The position that the purchase opens.
    pub open spec fn opened(
        self,
        prediction_type: PredictionType,
        market_id: String,
        amount_usdc: u64,
        price_per_share: u64,
        now: i64,
    ) -> PredictionPosition {
        PredictionPosition {
            owner: self.user_account.owner,
            market_id,
            position_id: self.user_account.total_trades,
            prediction_type,
            amount_usdc,
            price_per_share,
            shares: shares_for(amount_usdc as nat, price_per_share as nat) as u64,
            status: PositionStatus::Active,
            opened_at: now,
            closed_at: 0,
        }
    }

    /// The account after the purchase: debited by the amount, with one more
    /// trade counted.
    pub open spec fn debited(self, amount_usdc: u64) -> UserAccount {
        UserAccount {
            usdc_balance: (self.user_account.usdc_balance - amount_usdc) as u64,
            total_trades: (self.user_account.total_trades + 1) as u64,
            ..self.user_account
        }
    }

    /// The context after the purchase.
    pub open spec fn bought(
        self,
        prediction_type: PredictionType,
        market_id: String,
        amount_usdc: u64,
        price_per_share: u64,
        now: i64,
    ) -> Trade {
        Trade {
            user_account: self.debited(amount_usdc),
            position_account: self.opened(prediction_type, market_id, amount_usdc, price_per_share, now),
            user: self.user,
        }
    }

    /// The event of the purchase.
    pub open spec fn event(
        self,
        prediction_type: PredictionType,
        market_id: String,
        amount_usdc: u64,
        price_per_share: u64,
        now: i64,
    ) -> PredictionMade {
        PredictionMade {
            user: self.user_account.owner,
            market_id,
            prediction_type,
            amount_usdc,
            price_per_share,
            shares: shares_for(amount_usdc as nat, price_per_share as nat) as u64,
            timestamp: now,
        }
    }
}

/// Buys shares of the outcome `prediction_type` in the market `market_id`
/// for `amount_usdc`, at `price_per_share`.
///
/// The account is debited by exactly the amount, its trade counter goes up by
/// one, and the position record is filled in as an active position whose id
/// is the counter's value before the purchase. A refused purchase changes
/// nothing.
///
/// The market identifier has at most 32 characters: `is_valid_market_id`
/// tells.
pub fn buy(
    ctx: &mut Trade,
    prediction_type: PredictionType,
    market_id: String,
    amount_usdc: u64,
    price_per_share: u64,
    now: i64,
) -> (r: Result<PredictionMade, ErrorCode>)
    requires
        market_id@.len() <= MAX_MARKET_ID_LEN,
    ensures
        match old(ctx).rejection(amount_usdc, price_per_share) {
            Some(e) => r == Err::<PredictionMade, ErrorCode>(e) && *final(ctx) == *old(ctx),
            None => r == Ok::<PredictionMade, ErrorCode>(
                old(ctx).event(prediction_type, market_id, amount_usdc, price_per_share, now),
            ) && *final(ctx) == old(ctx).bought(prediction_type, market_id, amount_usdc, price_per_share, now),
        },
        r is Ok ==> final(ctx).user_account.usdc_balance == old(ctx).user_account.usdc_balance - amount_usdc,
        r is Ok ==> final(ctx).user_account.total_trades == old(ctx).user_account.total_trades + 1,
        r is Ok ==> final(ctx).position_account.position_id == old(ctx).user_account.total_trades,
        r is Ok ==> final(ctx).position_account.status == PositionStatus::Active,
        r is Ok ==> final(ctx).position_account.well_formed(),
        r is Err ==> *final(ctx) == *old(ctx),
        old(ctx).user != old(ctx).user_account.owner ==> r == Err::<PredictionMade, ErrorCode>(
            ErrorCode::Unauthorized,
        ),
{
    if !ctx.user_account.is_owned_by(&ctx.user) {
        return Err(ErrorCode::Unauthorized);
    }
    if ctx.user_account.usdc_balance < amount_usdc {
        return Err(ErrorCode::InsufficientBalance);
    }
    if price_per_share == 0 || price_per_share > MAX_PRICE {
        return Err(ErrorCode::InvalidPrice);
    }
    let shares = match shares_from_spend(amount_usdc, price_per_share) {
        Ok(shares) => shares,
        Err(e) => { return Err(e); },
    };
    let balance = match ctx.user_account.usdc_balance.checked_sub(amount_usdc) {
        Some(balance) => balance,
        None => { return Err(ErrorCode::ArithmeticOverflow); },
    };
    let trades = match ctx.user_account.total_trades.checked_add(1) {
        Some(trades) => trades,
        None => { return Err(ErrorCode::ArithmeticOverflow); },
    };
    let position_id = ctx.user_account.total_trades;
    ctx.user_account.usdc_balance = balance;
    ctx.user_account.total_trades = trades;
    ctx.position_account = PredictionPosition {
        owner: ctx.user_account.owner,
        market_id: market_id.clone(),
        position_id,
        prediction_type,
        amount_usdc,
        price_per_share,
        shares,
        status: PositionStatus::Active,
        opened_at: now,
        closed_at: 0,
    };
    Ok(
        PredictionMade {
            user: ctx.user_account.owner,
            market_id,
            prediction_type,
            amount_usdc,
            price_per_share,
            shares,
            timestamp: now,
        },
    )
}

/// Buys YES shares: `buy` with the outcome `Yes`, for a market identifier
/// of at most 32 characters.
pub fn buy_yes(ctx: &mut Trade, market_id: String, amount_usdc: u64, price_per_share: u64, now: i64) -> (r:
    Result<PredictionMade, ErrorCode>)
    requires
        market_id@.len() <= MAX_MARKET_ID_LEN,
    ensures
        match old(ctx).rejection(amount_usdc, price_per_share) {
            Some(e) => r == Err::<PredictionMade, ErrorCode>(e) && *final(ctx) == *old(ctx),
            None => r == Ok::<PredictionMade, ErrorCode>(
                old(ctx).event(PredictionType::Yes, market_id, amount_usdc, price_per_share, now),
            ) && *final(ctx) == old(ctx).bought(PredictionType::Yes, market_id, amount_usdc, price_per_share, now),
        },
        r is Ok ==> final(ctx).user_account.usdc_balance == old(ctx).user_account.usdc_balance - amount_usdc,
        r is Ok ==> final(ctx).position_account.prediction_type == PredictionType::Yes,
        r is Ok ==> final(ctx).position_account.status == PositionStatus::Active,
        r is Ok ==> final(ctx).position_account.well_formed(),
        r is Err ==> *final(ctx) == *old(ctx),
        old(ctx).user != old(ctx).user_account.owner ==> r == Err::<PredictionMade, ErrorCode>(
            ErrorCode::Unauthorized,
        ),
{
    buy(ctx, PredictionType::Yes, market_id, amount_usdc, price_per_share, now)
}

/// Buys NO shares: `buy` with the outcome `No`, for a market identifier of
/// at most 32 characters.
pub fn buy_no(ctx: &mut Trade, market_id: String, amount_usdc: u64, price_per_share: u64, now: i64) -> (r:
    Result<PredictionMade, ErrorCode>)
    requires
        market_id@.len() <= MAX_MARKET_ID_LEN,
    ensures
        match old(ctx).rejection(amount_usdc, price_per_share) {
            Some(e) => r == Err::<PredictionMade, ErrorCode>(e) && *final(ctx) == *old(ctx),
            None => r == Ok::<PredictionMade, ErrorCode>(
                old(ctx).event(PredictionType::No, market_id, amount_usdc, price_per_share, now),
            ) && *final(ctx) == old(ctx).bought(PredictionType::No, market_id, amount_usdc, price_per_share, now),
        },
        r is Ok ==> final(ctx).user_account.usdc_balance == old(ctx).user_account.usdc_balance - amount_usdc,
        r is Ok ==> final(ctx).position_account.prediction_type == PredictionType::No,
        r is Ok ==> final(ctx).position_account.status == PositionStatus::Active,
        r is Ok ==> final(ctx).position_account.well_formed(),
        r is Err ==> *final(ctx) == *old(ctx),
        old(ctx).user != old(ctx).user_account.owner ==> r == Err::<PredictionMade, ErrorCode>(
            ErrorCode::Unauthorized,
        ),
{
    buy(ctx, PredictionType::No, market_id, amount_usdc, price_per_share, now)
}

/// What the host hands to the closing of a position.
#[derive(Debug, PartialEq, Eq)]
pub struct ClosePosition {
    /// The account that is credited.
    pub user_account: UserAccount,
    /// The position to close.
    pub position_account: PredictionPosition,
    /// The caller.
    pub user: Pubkey,
}

impl Clone for ClosePosition {
    fn clone(&self) -> (copy: ClosePosition)
        ensures
            copy == *self,
    {
        ClosePosition {
            user_account: self.user_account,
            position_account: self.position_account.clone(),
            user: self.user,
        }
    }
}

impl ClosePosition {
    /// What the position pays out at `current_price`.
    pub open spec fn payout(self, current_price: u64) -> nat {
        payout_for(self.position_account.shares as nat, current_price as nat)
    }

    /// Why the closing is refused, if it is. The checks are made in this
    /// order, and the first that fails decides: the caller owns the account;
    /// the position is active; the caller owns the position; the price is at
    /// most one currency unit; the credited balance fits 64 bits.
    pub open spec fn rejection(self, current_price: u64) -> Option<ErrorCode> {
        if self.user_account.owner != self.user {
            Some(ErrorCode::Unauthorized)
        } else if self.position_account.status != PositionStatus::Active {
            Some(ErrorCode::PositionNotActive)
        } else if self.position_account.owner != self.user {
            Some(ErrorCode::Unauthorized)
        } else if current_price > MAX_PRICE {
            Some(ErrorCode::InvalidPrice)
        } else if self.user_account.usdc_balance + self.payout(current_price) > u64::MAX {
            Some(ErrorCode::ArithmeticOverflow)
        } else {
            None
        }
    }

    /// The account after the closing: credited with the payout.
    pub open spec fn credited(self, current_price: u64) -> UserAccount {
        UserAccount {
            usdc_balance: (self.user_account.usdc_balance + self.payout(current_price)) as u64,
            ..self.user_account
        }
    }

    /// The position after the closing at `now`.
    pub open spec fn settled(self, now: i64) -> PredictionPosition {
        PredictionPosition { status: PositionStatus::Closed, closed_at: now, ..self.position_account }
    }

    /// The context after the closing.
    pub open spec fn closed(self, current_price: u64, now: i64) -> ClosePosition {
        ClosePosition {
            user_account: self.credited(current_price),
            position_account: self.settled(now),
            user: self.user,
        }
    }

    /// The event of the closing.
    pub open spec fn event(self, current_price: u64, now: i64) -> PositionClosed {
        PositionClosed {
            user: self.position_account.owner,
            market_id: self.position_account.market_id,
            position_id: self.position_account.position_id,
            close_price: current_price,
            payout: self.payout(current_price) as u64,
            timestamp: now,
        }
    }
}

/// Closes an active position at `current_price` and credits the payout to
/// the account.
///
/// The account is credited with exactly the payout, and the position becomes
/// `Closed` with `now` as its closing time; nothing else changes. A refused
/// closing changes nothing.
pub fn close_position(ctx: &mut ClosePosition, current_price: u64, now: i64) -> (r: Result<
    PositionClosed,
    ErrorCode,
>)
    ensures
        match old(ctx).rejection(current_price) {
            Some(e) => r == Err::<PositionClosed, ErrorCode>(e) && *final(ctx) == *old(ctx),
            None => r == Ok::<PositionClosed, ErrorCode>(old(ctx).event(current_price, now)) && *final(ctx)
                == old(ctx).closed(current_price, now),
        },
        r is Ok ==> final(ctx).user_account.usdc_balance == old(ctx).user_account.usdc_balance + old(
            ctx,
        ).payout(current_price),
        r is Ok ==> old(ctx).position_account.status == PositionStatus::Active,
        r is Ok ==> final(ctx).position_account.status == PositionStatus::Closed,
        r is Ok ==> final(ctx).position_account.closed_at == now,
        r is Ok && old(ctx).position_account.well_formed() ==> final(ctx).position_account.well_formed(),
        r is Err ==> *final(ctx) == *old(ctx),
        old(ctx).position_account.status == PositionStatus::Closed && old(ctx).user == old(
            ctx,
        ).user_account.owner ==> r == Err::<PositionClosed, ErrorCode>(ErrorCode::PositionNotActive),
        old(ctx).user != old(ctx).user_account.owner ==> r == Err::<PositionClosed, ErrorCode>(
            ErrorCode::Unauthorized,
        ),
{
    if !ctx.user_account.is_owned_by(&ctx.user) {
        return Err(ErrorCode::Unauthorized);
    }
    if !ctx.position_account.is_active() {
        return Err(ErrorCode::PositionNotActive);
    }
    if !ctx.position_account.is_owned_by(&ctx.user) {
        return Err(ErrorCode::Unauthorized);
    }
    if current_price > MAX_PRICE {
        return Err(ErrorCode::InvalidPrice);
    }
    proof {
        lemma_payout_within_shares(ctx.position_account.shares as nat, current_price as nat);
    }
    let payout = match payout_from_shares(ctx.position_account.shares, current_price) {
        Ok(payout) => payout,
        Err(e) => { return Err(e); },
    };
    let balance = match ctx.user_account.usdc_balance.checked_add(payout) {
        Some(balance) => balance,
        None => { return Err(ErrorCode::ArithmeticOverflow); },
    };
    ctx.user_account.usdc_balance = balance;
    ctx.position_account.status = PositionStatus::Closed;
    ctx.position_account.closed_at = now;
    Ok(
        PositionClosed {
            user: ctx.position_account.owner,
            market_id: ctx.position_account.market_id.clone(),
            position_id: ctx.position_account.position_id,
            close_price: current_price,
            payout,
            timestamp: now,
        },
    )
}

} // verus!
