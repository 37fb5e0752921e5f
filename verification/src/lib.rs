//! A paper-trading ledger for binary-outcome prediction markets.
//!
//! Users stake a virtual USDC balance on the YES or NO outcome of a named
//! market. Shares are minted at a quoted price and may later be closed at a new
//! quoted price, which realises the profit or loss against the balance.
//!
//! Every amount, price and share count is an unsigned integer scaled by
//! 10^6. The operations are functions of their arguments alone: storage, the
//! proof of who is calling, the clock, the entry-fee payment and the
//! publication of events belong to the host, which hands in plain values and
//! receives plain values back. The host runs each operation as one
//! transaction, so that records are stored, the payment is made and the event
//! is published together or not at all.

pub mod account;
pub mod config;
pub mod error;
pub mod fixed_point;
pub mod laws;
pub mod position;
pub mod pubkey;

pub use account::{
    initialize_account, AccountInitialized, EntryFeeTransfer, InitializeAccount, UserAccount, INITIAL_BALANCE,
    MIN_ENTRY_FEE,
};
pub use config::{initialize_config, ConfigInitialized, InitializeConfig, ProgramConfig};
pub use error::ErrorCode;
pub use fixed_point::{payout_from_shares, shares_from_spend, MAX_PRICE, SCALE};
pub use position::{
    buy, buy_no, buy_yes, close_position, is_valid_market_id, ClosePosition, PositionClosed, PositionStatus,
    PredictionMade, PredictionPosition, PredictionType, Trade, MAX_MARKET_ID_LEN,
};
pub use pubkey::Pubkey;
