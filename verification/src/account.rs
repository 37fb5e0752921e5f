//! User accounts: one balance per identity, opened against an entry fee.

use vstd::prelude::*;
use crate::config::ProgramConfig;
use crate::error::ErrorCode;
use crate::pubkey::Pubkey;

verus! {

/// The lowest entry fee, in the payment collaborator's own unit.
pub const MIN_ENTRY_FEE: u64 = 100_000_000;

/// The balance with which an account starts: 10,000 currency units.
pub const INITIAL_BALANCE: u64 = 10_000_000_000;

/// The paper-trading account of one identity.
#[derive(Clone, Copy, Debug, PartialEq, Eq)]
pub struct UserAccount {
    /// The identity that alone may trade on the account.
    pub owner: Pubkey,
    /// The balance, in millionths of a currency unit.
    pub usdc_balance: u64,
    /// The number of purchases made so far. The next position takes this
    /// number as its id.
    pub total_trades: u64,
    /// When the account was opened.
    pub created_at: i64,
}

impl Default for UserAccount {
    /// The blank record: the zero key as owner, and zero everywhere else.
    fn default() -> (account: UserAccount)
        ensures
            account.owner.is_zero(),
            account.usdc_balance == 0,
            account.total_trades == 0,
            account.created_at == 0,
    {
        UserAccount { owner: Pubkey::default(), usdc_balance: 0, total_trades: 0, created_at: 0 }
    }
}

impl UserAccount {
    /// The account as it is opened for `owner` at `now`.
    pub open spec fn opened(owner: Pubkey, now: i64) -> UserAccount {
        UserAccount { owner, usdc_balance: INITIAL_BALANCE, total_trades: 0, created_at: now }
    }

    /// Whether `caller` is the owner of the account.
    pub fn is_owned_by(&self, caller: &Pubkey) -> (r: bool)
        ensures
            r == (self.owner == *caller),
    {
        self.owner == *caller
    }
}

/// Published when an account has been opened.
#[derive(Clone, Copy, Debug, PartialEq, Eq)]
pub struct AccountInitialized {
    pub user: Pubkey,
    pub initial_usdc: u64,
    pub timestamp: i64,
}

/// The payment that goes with the opening of an account. The host carries it
/// out in the same transaction in which it stores the account: where the
/// payment fails, the account is not stored either.
#[derive(Clone, Copy, Debug, PartialEq, Eq)]
pub struct EntryFeeTransfer {
    /// The payer: the owner of the new account.
    pub from: Pubkey,
    /// The payee: the treasury of the configuration.
    pub to: Pubkey,
    /// The fee, in the payment collaborator's own unit.
    pub lamports: u64,
}

/// What the host hands to `initialize_account`.
#[derive(Clone, Copy, Debug, PartialEq, Eq)]
pub struct InitializeAccount {
    /// The record at the caller's account key: `None` while the caller has no
    /// account.
    pub user_account: Option<UserAccount>,
    /// The configuration, which names the treasury.
    pub config: ProgramConfig,
    /// The caller, who becomes the owner.
    pub user: Pubkey,
}

impl InitializeAccount {
    /// Why the account cannot be opened, if it cannot. The fee is tested
    /// first.
    pub open spec fn rejection(self, entry_fee: u64) -> Option<ErrorCode> {
        if entry_fee < MIN_ENTRY_FEE {
            Some(ErrorCode::EntryFeeTooLow)
        } else if self.user_account is Some {
            Some(ErrorCode::AlreadyExists)
        } else {
            None
        }
    }

    /// The context after the account has been opened at `now`.
    pub open spec fn initialized(self, now: i64) -> InitializeAccount {
        InitializeAccount {
            user_account: Some(UserAccount::opened(self.user, now)),
            config: self.config,
            user: self.user,
        }
    }

    /// The payment of `entry_fee` from the caller to the treasury.
    pub open spec fn transfer(self, entry_fee: u64) -> EntryFeeTransfer {
        EntryFeeTransfer { from: self.user, to: self.config.treasury, lamports: entry_fee }
    }

    /// The event of an opening at `now`.
    pub open spec fn event(self, now: i64) -> AccountInitialized {
        AccountInitialized { user: self.user, initial_usdc: INITIAL_BALANCE, timestamp: now }
    }
}

/// Opens the caller's account with a balance of 10,000 currency units, and
/// says which payment goes with it.
///
/// An entry fee under the minimum fails with `EntryFeeTooLow`, and a caller
/// that has an account already with `AlreadyExists`. A failed call changes
/// nothing and asks for no payment.
pub fn initialize_account(ctx: &mut InitializeAccount, entry_fee: u64, now: i64) -> (r: Result<
    (EntryFeeTransfer, AccountInitialized),
    ErrorCode,
>)
    ensures
        match old(ctx).rejection(entry_fee) {
            Some(e) => r == Err::<(EntryFeeTransfer, AccountInitialized), ErrorCode>(e) && *final(ctx)
                == *old(ctx),
            None => r == Ok::<(EntryFeeTransfer, AccountInitialized), ErrorCode>(
                (old(ctx).transfer(entry_fee), old(ctx).event(now)),
            ) && *final(ctx) == old(ctx).initialized(now),
        },
        entry_fee < MIN_ENTRY_FEE ==> r == Err::<(EntryFeeTransfer, AccountInitialized), ErrorCode>(
            ErrorCode::EntryFeeTooLow,
        ),
        r is Err ==> *final(ctx) == *old(ctx),
        r is Ok <==> entry_fee >= MIN_ENTRY_FEE && old(ctx).user_account is None,
        r is Ok ==> final(ctx).user_account == Some(UserAccount::opened(old(ctx).user, now)),
{
    if entry_fee < MIN_ENTRY_FEE {
        return Err(ErrorCode::EntryFeeTooLow);
    }
    if ctx.user_account.is_some() {
        return Err(ErrorCode::AlreadyExists);
    }
    let account = UserAccount {
        owner: ctx.user,
        usdc_balance: INITIAL_BALANCE,
        total_trades: 0,
        created_at: now,
    };
    ctx.user_account = Some(account);
    let transfer = EntryFeeTransfer { from: ctx.user, to: ctx.config.treasury, lamports: entry_fee };
    let event = AccountInitialized {
        user: account.owner,
        initial_usdc: account.usdc_balance,
        timestamp: account.created_at,
    };
    Ok((transfer, event))
}

/// An identity opens its account once: after a successful opening every
/// further one for the same account key fails, whatever fee is offered.
pub proof fn lemma_account_is_opened_once(
    ctx: InitializeAccount,
    entry_fee: u64,
    now: i64,
    again: InitializeAccount,
    fee_again: u64,
)
    requires
        ctx.rejection(entry_fee) is None,
        again.user_account == ctx.initialized(now).user_account,
    ensures
        again.rejection(fee_again) is Some,
        fee_again >= MIN_ENTRY_FEE ==> again.rejection(fee_again) == Some(ErrorCode::AlreadyExists),
{
}

} // verus!
